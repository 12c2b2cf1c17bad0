//! Note paths: their file name, their folder, and the links that open them.
//!
//! Paths are parted by `/` alone, on every platform.

use vstd::prelude::*;
use vstd::string::*;
use crate::text::{chars_of, decimal, digits, string_of};

verus! {

// ---------------------------------------------------------------------------
// Splitting a note path.
// ---------------------------------------------------------------------------

/// How many characters of `s` stand up to and with its last `/`; 0 where it has none.
pub open spec fn dir_len(s: Seq<char>) -> nat
    decreases s.len(),
{
    if s.len() == 0 {
        0
    } else if s.last() == '/' {
        s.len()
    } else {
        dir_len(s.drop_last())
    }
}

/// `dir_len` ends at the last slash: the character before it is one, and none follows.
pub proof fn dir_len_is_last_slash(s: Seq<char>)
    ensures
        dir_len(s) <= s.len(),
        dir_len(s) > 0 ==> s[dir_len(s) - 1] == '/',
        forall|i: int| dir_len(s) <= i < s.len() ==> s[i] != '/',
    decreases s.len(),
{
    if s.len() > 0 && s.last() != '/' {
        let t = s.drop_last();
        dir_len_is_last_slash(t);
        assert forall|i: int| dir_len(s) <= i < s.len() implies s[i] != '/' by {
            if i < s.len() - 1 {
                assert(t[i] != '/');
            }
        }
    }
}

/// The directory part of a note path, with its trailing `/`, and its file name.
pub open spec fn note_header_parts(key: Seq<char>) -> (Option<Seq<char>>, Seq<char>) {
    let n = dir_len(key) as int;
    if n == 0 {
        (None, key)
    } else {
        (Some(key.take(n)), key.skip(n))
    }
}

/// The file name of a note path.
pub open spec fn file_name(path: Seq<char>) -> Seq<char> {
    note_header_parts(path).1
}

/// How many characters of `v[..end]` stand up to and with the last `/`.
fn dir_len_of(v: &Vec<char>, end: usize) -> (r: usize)
    requires
        end <= v@.len(),
    ensures
        r == dir_len(v@.take(end as int)),
        r <= end,
{
    let mut n: usize = end;
    while n > 0 && v[n - 1] != '/'
        invariant
            n <= end <= v@.len(),
            dir_len(v@.take(end as int)) == dir_len(v@.take(n as int)),
        decreases n,
    {
        assert(v@.take(n as int).drop_last() =~= v@.take(n - 1));
        n -= 1;
    }
    n
}

/// Splits a note path into its directory prefix and its file name.
///
/// The prefix keeps its trailing `/`, so the two parts joined give the path back. A note at the
/// root has no prefix.
pub fn split_note_header(key: &str) -> (r: (Option<&str>, &str))
    ensures
        match note_header_parts(key@) {
            (Some(prefix), name) => r.0 matches Some(p) && p@ == prefix && r.1@ == name,
            (None, name) => r.0 is None && r.1@ == name,
        },
{
    let v = chars_of(key);
    let n = dir_len_of(&v, v.len());
    assert(v@.take(v@.len() as int) =~= v@);
    if n == 0 {
        (None, key)
    } else {
        let prefix = key.substring_char(0, n);
        let name = key.substring_char(n, v.len());
        assert(prefix@ =~= key@.take(n as int));
        assert(name@ =~= key@.skip(n as int));
        (Some(prefix), name)
    }
}

/// The file name of a note path, without its directories.
pub fn filename_of(note_path: &str) -> (r: String)
    ensures
        r@ == file_name(note_path@),
{
    split_note_header(note_path).1.to_owned()
}

// ---------------------------------------------------------------------------
// Parent folders.
// ---------------------------------------------------------------------------

/// `s` without what does not count at the end of a path: trailing slashes (but for the root) and
/// trailing `.` components (but for a leading one).
pub open spec fn without_tail(s: Seq<char>) -> Seq<char>
    decreases s.len(),
{
    let n = s.len();
    if n >= 2 && s[n - 1] == '/' {
        without_tail(s.drop_last())
    } else if n >= 2 && s[n - 1] == '.' && s[n - 2] == '/' {
        without_tail(s.drop_last())
    } else {
        s
    }
}

/// The path without its final component; `None` for the root and for the empty path.
pub open spec fn parent_path(s: Seq<char>) -> Option<Seq<char>> {
    let t = without_tail(s);
    if t.len() == 0 || t == seq!['/'] {
        None
    } else {
        Some(without_tail(t.take(dir_len(t) as int)))
    }
}

/// The folder a note is grouped under: its parent path, or `(root)` for a note that has none.
pub open spec fn folder_key(path: Seq<char>) -> Seq<char> {
    match parent_path(path) {
        Some(p) if p.len() > 0 => p,
        _ => "(root)"@,
    }
}

/// How many characters of `v[..end]` are left without its tail.
fn without_tail_len(v: &Vec<char>, end: usize) -> (r: usize)
    requires
        end <= v@.len(),
    ensures
        r <= end,
        v@.take(r as int) == without_tail(v@.take(end as int)),
{
    let mut n: usize = end;
    while n >= 2 && (v[n - 1] == '/' || (v[n - 1] == '.' && v[n - 2] == '/'))
        invariant
            n <= end <= v@.len(),
            without_tail(v@.take(end as int)) == without_tail(v@.take(n as int)),
        decreases n,
    {
        assert(v@.take(n as int).drop_last() =~= v@.take(n - 1));
        n -= 1;
    }
    n
}

/// The parent folder of a note path, or `(root)` for a top-level note.
pub fn folder_of(note_path: &str) -> (r: String)
    ensures
        r@ == folder_key(note_path@),
{
    let v = chars_of(note_path);
    assert(v@.take(v@.len() as int) =~= v@);
    let n = without_tail_len(&v, v.len());
    let ghost t = v@.take(n as int);
    if n == 0 || (n == 1 && v[0] == '/') {
        assert(n == 1 ==> t =~= seq!['/']);
        return "(root)".to_owned();
    }
    assert(t != seq!['/']) by {
        if t == seq!['/'] {
            assert(t[0] == v@[0]);
        }
    }
    let d = dir_len_of(&v, n);
    assert(t.take(d as int) =~= v@.take(d as int));
    let m = without_tail_len(&v, d);
    if m == 0 {
        return "(root)".to_owned();
    }
    let r = string_of(&v, 0, m);
    assert(r@ =~= v@.take(m as int));
    r
}

/// The last component of a path where it is a name: not the root, nor `.` or `..`.
pub open spec fn base_name(s: Seq<char>) -> Option<Seq<char>> {
    let t = without_tail(s);
    let name = t.skip(dir_len(t) as int);
    if name.len() == 0 || name == seq!['.'] || name == seq!['.', '.'] {
        None
    } else {
        Some(name)
    }
}

/// The last component of a path where it is a name.
pub fn base_name_of(path: &str) -> (r: Option<String>)
    ensures
        match base_name(path@) {
            Some(n) => r matches Some(s) && s@ == n,
            None => r is None,
        },
{
    let v = chars_of(path);
    assert(v@.take(v@.len() as int) =~= v@);
    let n = without_tail_len(&v, v.len());
    let d = dir_len_of(&v, n);
    let ghost name = v@.take(n as int).skip(d as int);
    assert(name =~= v@.subrange(d as int, n as int));
    if n == d {
        return None;
    }
    if n - d == 1 && v[d] == '.' {
        assert(name =~= seq!['.']);
        return None;
    }
    if n - d == 2 && v[d] == '.' && v[d + 1] == '.' {
        assert(name =~= seq!['.', '.']);
        return None;
    }
    assert(name[0] == v@[d as int]);
    assert(name.len() == 2 ==> name[1] == v@[d + 1]);
    Some(string_of(&v, d, n))
}

// ---------------------------------------------------------------------------
// Deep links.
// ---------------------------------------------------------------------------

/// The bytes a query value may hold as they are: `A-Z a-z 0-9 - . _ ~`.
pub open spec fn unreserved(b: u8) -> bool {
    ||| 65 <= b <= 90
    ||| 97 <= b <= 122
    ||| 48 <= b <= 57
    ||| b == 45
    ||| b == 46
    ||| b == 95
    ||| b == 126
}

/// The upper-case hexadecimal digit `d`.
pub open spec fn hex_digit(d: u8) -> char {
    (if d < 10 {
        48 + d
    } else {
        55 + d
    }) as char
}

/// One byte in percent encoding.
pub open spec fn encoded_byte(b: u8) -> Seq<char> {
    if unreserved(b) {
        seq![b as char]
    } else {
        seq!['%', hex_digit((b / 16) as u8), hex_digit((b % 16) as u8)]
    }
}

/// Bytes in percent encoding.
pub open spec fn encoded_bytes(bytes: Seq<u8>) -> Seq<char>
    decreases bytes.len(),
{
    if bytes.len() == 0 {
        seq![]
    } else {
        encoded_bytes(bytes.drop_last()) + encoded_byte(bytes.last())
    }
}

/// A text in percent encoding: its UTF-8 bytes, each kept where it is unreserved and written as
/// `%XX` where it is not.
pub open spec fn encoded_text(s: Seq<char>) -> Seq<char> {
    encoded_bytes(vstd::utf8::encode_utf8(s))
}

/// Percent-encodes a string for use as a query parameter value.
pub fn percent_encode_query(s: &str) -> (r: String)
    ensures
        r@ == encoded_text(s@),
{
    let bytes = s.as_bytes();
    let mut out = String::new();
    let mut i: usize = 0;
    while i < bytes.len()
        invariant
            i <= bytes@.len(),
            out@ =~= encoded_bytes(bytes@.take(i as int)),
        decreases bytes@.len() - i,
    {
        let b: u8 = bytes[i];
        assert(bytes@.take(i + 1).drop_last() =~= bytes@.take(i as int));
        if (65 <= b && b <= 90) || (97 <= b && b <= 122) || (48 <= b && b <= 57) || b == 45 || b
            == 46 || b == 95 || b == 126 {
            out.push(b as char);
        } else {
            out.push('%');
            out.push(hex_digit_of(b / 16));
            out.push(hex_digit_of(b % 16));
        }
        i += 1;
    }
    assert(bytes@.take(i as int) =~= bytes@);
    out
}

fn hex_digit_of(d: u8) -> (c: char)
    requires
        d < 16,
    ensures
        c == hex_digit(d),
{
    if d < 10 {
        (48 + d) as char
    } else {
        (55 + d) as char
    }
}

/// The link that opens a note: the native one, or, with `advanced`, one that jumps to a line.
pub open spec fn link_text(vault: Seq<char>, note_path: Seq<char>, line: nat, advanced: bool) -> Seq<
    char,
> {
    if advanced {
        "obsidian://advanced-uri?vault="@ + encoded_text(vault) + "&filepath="@ + encoded_text(
            note_path,
        ) + "&line="@ + digits(line)
    } else {
        "obsidian://open?vault="@ + encoded_text(vault) + "&file="@ + encoded_text(note_path)
    }
}

/// Builds the `obsidian://` link for a task's location.
///
/// - `advanced == false`: `obsidian://open?vault=<v>&file=<f>`, which opens the file.
/// - `advanced == true`: `obsidian://advanced-uri?vault=<v>&filepath=<f>&line=<n>`, which jumps to
///   the line.
pub fn obsidian_url(vault: &str, note_path: &str, line: usize, advanced: bool) -> (r: String)
    ensures
        r@ == link_text(vault@, note_path@, line as nat, advanced),
{
    let v = percent_encode_query(vault);
    let f = percent_encode_query(note_path);
    if advanced {
        let mut r = "obsidian://advanced-uri?vault=".to_owned();
        r.append(v.as_str());
        r.append("&filepath=");
        r.append(f.as_str());
        r.append("&line=");
        let n = decimal(line);
        r.append(n.as_str());
        r
    } else {
        let mut r = "obsidian://open?vault=".to_owned();
        r.append(v.as_str());
        r.append("&file=");
        r.append(f.as_str());
        r
    }
}

// ---------------------------------------------------------------------------
// Laws.
// ---------------------------------------------------------------------------

/// The two parts of a note path, joined, are the path; the file name has no `/`, and the prefix ends
/// in one.
pub proof fn header_parts_join(key: Seq<char>)
    ensures
        match note_header_parts(key) {
            (Some(prefix), name) => prefix + name == key && prefix.len() > 0 && prefix.last() == '/'
                && !name.contains('/'),
            (None, name) => name == key && !name.contains('/'),
        },
{
    dir_len_is_last_slash(key);
    let n = dir_len(key) as int;
    assert(key.take(n) + key.skip(n) =~= key);
    let name = key.skip(n);
    if name.contains('/') {
        let i = choose|i: int| 0 <= i < name.len() && name[i] == '/';
        assert(key[n + i] == '/');
    }
    assert(key.skip(0) =~= key);
}

/// Whether a character may stand in a query value.
pub open spec fn query_safe(c: char) -> bool {
    c == '%' || ((c as u32) < 128 && unreserved(c as u8))
}

proof fn encoded_byte_is_safe(b: u8)
    ensures
        forall|i: int| 0 <= i < encoded_byte(b).len() ==> query_safe(#[trigger] encoded_byte(b)[i]),
{
}

proof fn encoded_bytes_are_safe(bytes: Seq<u8>)
    ensures
        forall|i: int|
            0 <= i < encoded_bytes(bytes).len() ==> query_safe(#[trigger] encoded_bytes(bytes)[i]),
    decreases bytes.len(),
{
    if bytes.len() > 0 {
        encoded_bytes_are_safe(bytes.drop_last());
        encoded_byte_is_safe(bytes.last());
        let front = encoded_bytes(bytes.drop_last());
        let back = encoded_byte(bytes.last());
        assert forall|i: int| 0 <= i < encoded_bytes(bytes).len() implies query_safe(
            #[trigger] encoded_bytes(bytes)[i],
        ) by {
            if i < front.len() {
                assert(query_safe(front[i]));
            } else {
                assert(query_safe(back[i - front.len()]));
            }
        }
    }
}

/// Whatever a text holds, its encoding holds only unreserved characters and percent signs, so no
/// separator of a link among them.
pub proof fn encoding_is_safe(s: Seq<char>)
    ensures
        forall|i: int| 0 <= i < encoded_text(s).len() ==> query_safe(#[trigger] encoded_text(s)[i]),
        !encoded_text(s).contains('/'),
        !encoded_text(s).contains('&'),
        !encoded_text(s).contains(' '),
{
    encoded_bytes_are_safe(vstd::utf8::encode_utf8(s));
}

}
