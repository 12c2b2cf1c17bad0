//! What the text functions are for.

use vstd::prelude::*;
use vstd::utf8::{decode_utf8, encode_utf8, encode_utf8_decode_utf8};
use crate::context::tabs_expanded;
use crate::order::{inserted, stable_sorted};
use crate::paths::{base_name, dir_len, dir_len_is_last_slash, encoded_byte, encoded_bytes,
    encoded_text, file_name, folder_key, link_text, parent_path, without_tail};
use crate::text::{ascii_lower, contains_text, digits, is_white, line_end, occurs_at, padded_left,
    padded_right, text_before, text_lines, trimmed, trimmed_end, trimmed_start};

verus! {

// ---------------------------------------------------------------------------
// Order and search.
// ---------------------------------------------------------------------------

/// Whether `a` comes before `b` in a dictionary: at the first place where they differ it has the
/// smaller character, or it ends there.
pub open spec fn comes_before(a: Seq<char>, b: Seq<char>) -> bool {
    exists|k: int| #[trigger] differ_at(a, b, k) && (k == a.len() || a[k] < b[k])
}

/// Whether `a` and `b` agree up to `k`, where `b` goes on and `a` ends or goes on otherwise.
pub open spec fn differ_at(a: Seq<char>, b: Seq<char>, k: int) -> bool {
    &&& 0 <= k <= a.len()
    &&& k < b.len()
    &&& forall|j: int| 0 <= j < k ==> a[j] == b[j]
    &&& k < a.len() ==> a[k] != b[k]
}

/// Texts are ordered as in a dictionary.
pub proof fn order_is_of_a_dictionary(a: Seq<char>, b: Seq<char>)
    ensures
        text_before(a, b) <==> comes_before(a, b),
    decreases a.len(),
{
    if b.len() == 0 {
    } else if a.len() == 0 {
        assert(differ_at(a, b, 0));
    } else if a[0] != b[0] {
        assert(differ_at(a, b, 0));
        if comes_before(a, b) {
            let k = choose|k: int| #[trigger] differ_at(a, b, k) && (k == a.len() || a[k] < b[k]);
            assert(k == 0);
        }
    } else {
        let (x, y) = (a.drop_first(), b.drop_first());
        order_is_of_a_dictionary(x, y);
        if comes_before(x, y) {
            let k = choose|k: int| #[trigger] differ_at(x, y, k) && (k == x.len() || x[k] < y[k]);
            assert forall|j: int| 0 <= j < k + 1 implies a[j] == b[j] by {
                if j > 0 {
                    assert(x[j - 1] == y[j - 1]);
                }
            }
            assert(differ_at(a, b, k + 1));
        }
        if comes_before(a, b) {
            let k = choose|k: int| #[trigger] differ_at(a, b, k) && (k == a.len() || a[k] < b[k]);
            assert(k > 0);
            assert forall|j: int| 0 <= j < k - 1 implies x[j] == y[j] by {
                assert(a[j + 1] == b[j + 1]);
            }
            assert(differ_at(x, y, k - 1));
        }
    }
}

/// A text holds another exactly where it can be cut into what stands before it, itself, and what
/// stands after it.
pub proof fn holding_is_cutting(hay: Seq<char>, needle: Seq<char>)
    ensures
        contains_text(hay, needle) <==> exists|before: Seq<char>, after: Seq<char>|
            hay == #[trigger] (before + needle + after),
{
    if contains_text(hay, needle) {
        let i = choose|i: int| occurs_at(hay, needle, i);
        let before = hay.take(i);
        let after = hay.skip(i + needle.len());
        assert(hay =~= before + needle + after);
    }
    if exists|before: Seq<char>, after: Seq<char>| hay == #[trigger] (before + needle + after) {
        let (before, after) = choose|before: Seq<char>, after: Seq<char>|
            hay == #[trigger] (before + needle + after);
        assert(hay.subrange(before.len() as int, before.len() as int + needle.len()) =~= needle);
        assert(occurs_at(hay, needle, before.len() as int));
    }
}

// ---------------------------------------------------------------------------
// Trimming and lines.
// ---------------------------------------------------------------------------

/// Whether a text is white space alone.
pub open spec fn all_white(s: Seq<char>) -> bool {
    forall|i: int| 0 <= i < s.len() ==> is_white(#[trigger] s[i])
}

proof fn start_trims(s: Seq<char>) -> (before: Seq<char>)
    ensures
        s == before + trimmed_start(s),
        all_white(before),
        trimmed_start(s).len() > 0 ==> !is_white(trimmed_start(s)[0]),
    decreases s.len(),
{
    if s.len() > 0 && is_white(s[0]) {
        let rest = start_trims(s.drop_first());
        let before = seq![s[0]] + rest;
        assert(s =~= seq![s[0]] + s.drop_first());
        assert(s =~= before + trimmed_start(s));
        before
    } else {
        assert(s =~= Seq::<char>::empty() + s);
        Seq::empty()
    }
}

proof fn end_trims(s: Seq<char>) -> (after: Seq<char>)
    ensures
        s == trimmed_end(s) + after,
        all_white(after),
        trimmed_end(s).len() > 0 ==> !is_white(trimmed_end(s).last()) && trimmed_end(s)[0] == s[0],
    decreases s.len(),
{
    if s.len() > 0 && is_white(s.last()) {
        let rest = end_trims(s.drop_last());
        let after = rest.push(s.last());
        assert(s =~= s.drop_last().push(s.last()));
        assert(s =~= trimmed_end(s) + after);
        after
    } else {
        assert(s =~= s + Seq::<char>::empty());
        Seq::empty()
    }
}

/// Trimming takes white space off both ends, nothing else, and all of it.
pub proof fn trimming_takes_the_white_ends(s: Seq<char>)
    ensures
        exists|before: Seq<char>, after: Seq<char>|
            s == #[trigger] (before + trimmed(s) + after) && all_white(before) && all_white(after),
        trimmed(s).len() > 0 ==> !is_white(trimmed(s)[0]) && !is_white(trimmed(s).last()),
        all_white(s) <==> trimmed(s).len() == 0,
{
    let before = start_trims(s);
    let after = end_trims(trimmed_start(s));
    assert(s =~= before + trimmed(s) + after);
    if trimmed(s).len() == 0 {
        assert(s =~= before + after);
        assert forall|i: int| 0 <= i < s.len() implies is_white(#[trigger] s[i]) by {
            if i < before.len() {
                assert(is_white(before[i]));
            } else {
                assert(is_white(after[i - before.len()]));
            }
        }
    } else {
        assert(trimmed(s)[0] == s[before.len() as int]);
    }
}

/// The characters that count as white.
pub proof fn white_characters(c: char)
    ensures
        is_white(c) <==> '\u{9}' <= c <= '\u{d}' || c == ' ' || c == '\u{85}' || c == '\u{a0}' || c
            == '\u{1680}' || '\u{2000}' <= c <= '\u{200a}' || c == '\u{2028}' || c == '\u{2029}' || c
            == '\u{202f}' || c == '\u{205f}' || c == '\u{3000}',
{
}

/// An upper-case letter of the alphabet becomes the lower-case one, and nothing else changes.
pub proof fn letters_become_small(c: char)
    ensures
        'A' <= c <= 'Z' ==> ascii_lower(c) as int - 'a' as int == c as int - 'A' as int,
        !('A' <= c <= 'Z') ==> ascii_lower(c) == c,
{
}

/// Tabs, line feeds and blanks are white space, and no other printable ASCII character is.
pub proof fn blanks_are_white(c: char)
    ensures
        c == ' ' || c == '\t' || c == '\n' || c == '\r' ==> is_white(c),
        0x21 <= c as u32 <= 0x7e ==> !is_white(c),
{
}

/// Lines are what stands between line feeds: a text without one is a line, the empty text has none,
/// and a line and a line feed before a text add that line, without its carriage return.
pub proof fn lines_stand_between_line_feeds(line: Seq<char>, rest: Seq<char>)
    requires
        !line.contains('\n'),
    ensures
        text_lines(Seq::empty()) == Seq::<Seq<char>>::empty(),
        line.len() > 0 ==> text_lines(line) == seq![line],
        line.len() > 0 && line.last() == '\r' ==> text_lines(line.push('\n') + rest) == seq![
            line.drop_last(),
        ] + text_lines(rest),
        line.len() == 0 || line.last() != '\r' ==> text_lines(line.push('\n') + rest) == seq![line]
            + text_lines(rest),
{
    let all = line.push('\n') + rest;
    first_line_feed(line, seq!['\n'] + rest);
    assert(line + (seq!['\n'] + rest) =~= all);
    assert(all.take(line.len() as int) =~= line);
    assert(all.skip(line.len() as int + 1) =~= rest);
    first_line_feed(line, Seq::empty());
    assert(line + Seq::<char>::empty() =~= line);
    assert(text_lines(Seq::<char>::empty()) =~= Seq::<Seq<char>>::empty());
}

proof fn first_line_feed(line: Seq<char>, rest: Seq<char>)
    requires
        !line.contains('\n'),
        rest.len() > 0 ==> rest[0] == '\n',
    ensures
        line_end(line + rest) == line.len(),
    decreases line.len(),
{
    let all = line + rest;
    if line.len() > 0 {
        assert(line.contains(line[0]));
        assert(all[0] == line[0]);
        let tail = line.drop_first();
        assert(!tail.contains('\n')) by {
            if tail.contains('\n') {
                let j = choose|j: int| 0 <= j < tail.len() && tail[j] == '\n';
                assert(line[j + 1] == '\n');
            }
        }
        first_line_feed(tail, rest);
        assert(all.drop_first() =~= tail + rest);
    } else {
        assert(all =~= rest);
    }
}

// ---------------------------------------------------------------------------
// Numbers, padding and tabs.
// ---------------------------------------------------------------------------

/// The number that decimal digits stand for.
pub open spec fn number_of(s: Seq<char>) -> int
    decreases s.len(),
{
    if s.len() == 0 {
        0
    } else {
        10 * number_of(s.drop_last()) + (s.last() as int - '0' as int)
    }
}

/// Decimal notation stands for its number, is made of digits, and has no leading zero.
pub proof fn decimals_stand_for_their_number(n: nat)
    ensures
        number_of(digits(n)) == n,
        digits(n).len() > 0,
        forall|i: int| 0 <= i < digits(n).len() ==> '0' <= #[trigger] digits(n)[i] <= '9',
        n > 0 ==> digits(n)[0] != '0',
        n == 0 ==> digits(n).len() == 1,
    decreases n,
{
    reveal_with_fuel(number_of, 2);
    if n >= 10 {
        decimals_stand_for_their_number(n / 10);
        assert(digits(n).drop_last() =~= digits(n / 10));
        assert(digits(n)[0] == digits(n / 10)[0]);
    } else {
        assert(digits(n).drop_last() =~= Seq::<char>::empty());
    }
}

/// Padding adds blanks on one side, and only as many as are missing.
pub proof fn padding_fills_up(s: Seq<char>, width: nat)
    ensures
        padded_left(s, width).len() == (if s.len() < width {
            width
        } else {
            s.len()
        }),
        padded_right(s, width).len() == padded_left(s, width).len(),
        padded_right(s, width).take(s.len() as int) == s,
        padded_left(s, width).skip(padded_left(s, width).len() - s.len()) == s,
        forall|i: int| s.len() <= i < padded_right(s, width).len() ==> (#[trigger] padded_right(s, width)[i]) == ' ',
        forall|i: int| 0 <= i < padded_left(s, width).len() - s.len() ==> (#[trigger] padded_left(s, width)[i]) == ' ',
{
    assert(padded_right(s, width).take(s.len() as int) =~= s);
    assert(padded_left(s, width).skip(padded_left(s, width).len() - s.len()) =~= s);
}

/// A tab is replaced by the blanks to the next column that four divides, and any other character by
/// itself, whatever follows.
pub proof fn tabs_lead_to_the_next_stop(s: Seq<char>, c: char)
    ensures
        tabs_expanded(Seq::empty()) == Seq::<char>::empty(),
        c != '\t' ==> tabs_expanded(s.push(c)) == tabs_expanded(s).push(c),
        c == '\t' ==> {
            let before = tabs_expanded(s);
            let after = tabs_expanded(s.push(c));
            &&& after.len() % 4 == 0
            &&& before.len() < after.len() <= before.len() + 4
            &&& after.take(before.len() as int) == before
            &&& forall|i: int| before.len() <= i < after.len() ==> (#[trigger] after[i]) == ' '
        },
{
    assert(s.push(c).drop_last() =~= s);
    let before = tabs_expanded(s);
    let after = tabs_expanded(s.push(c));
    if c == '\t' {
        assert(after.take(before.len() as int) =~= before);
    }
}

// ---------------------------------------------------------------------------
// Sorting.
// ---------------------------------------------------------------------------

/// Filtering a text with one more element.
pub proof fn filtering_one_more<A>(s: Seq<A>, x: A, p: spec_fn(A) -> bool)
    ensures
        s.push(x).filter(p) == (if p(x) {
            s.filter(p).push(x)
        } else {
            s.filter(p)
        }),
{
    reveal(Seq::filter);
    assert(s.push(x).drop_last() =~= s);
}

/// Whether an element has the rank `r`.
pub open spec fn of_rank<A>(rank: spec_fn(A) -> int, r: int) -> spec_fn(A) -> bool {
    |y: A| rank(y) == r
}

proof fn inserting_keeps_equals<A>(s: Seq<A>, x: A, rank: spec_fn(A) -> int, r: int)
    ensures
        inserted(s, x, rank).filter(of_rank(rank, r)) == s.push(x).filter(of_rank(rank, r)),
    decreases s.len(),
{
    let p = of_rank(rank, r);
    if s.len() > 0 && rank(s.last()) > rank(x) {
        let front = s.drop_last();
        inserting_keeps_equals(front, x, rank, r);
        filtering_one_more(inserted(front, x, rank), s.last(), p);
        filtering_one_more(front, x, p);
        filtering_one_more(front, s.last(), p);
        filtering_one_more(s, x, p);
        assert(s =~= front.push(s.last()));
    }
}

/// Sorting keeps elements of one rank in their order.
pub proof fn sorting_is_stable<A>(s: Seq<A>, rank: spec_fn(A) -> int, r: int)
    ensures
        stable_sorted(s, rank).filter(of_rank(rank, r)) == s.filter(of_rank(rank, r)),
    decreases s.len(),
{
    if s.len() > 0 {
        let p = of_rank(rank, r);
        let front = s.drop_last();
        sorting_is_stable(front, rank, r);
        inserting_keeps_equals(stable_sorted(front, rank), s.last(), rank, r);
        filtering_one_more(stable_sorted(front, rank), s.last(), p);
        filtering_one_more(front, s.last(), p);
        assert(s =~= front.push(s.last()));
    }
}

// ---------------------------------------------------------------------------
// Paths and links.
// ---------------------------------------------------------------------------

proof fn last_slash(dir: Seq<char>, name: Seq<char>)
    requires
        !name.contains('/'),
    ensures
        dir_len(dir.push('/') + name) == dir.len() + 1,
{
    let all = dir.push('/') + name;
    dir_len_is_last_slash(all);
    let n = dir_len(all) as int;
    assert(all[dir.len() as int] == '/');
    if n > dir.len() + 1 {
        assert(name[n - 1 - dir.len() - 1] == '/');
    }
}

/// Whether a text can be the name of a file: it is not empty, not a dot or two, and has no slash.
pub open spec fn is_name(name: Seq<char>) -> bool {
    &&& name.len() > 0
    &&& name != seq!['.']
    &&& name != seq!['.', '.']
    &&& !name.contains('/')
}

proof fn top_names(name: Seq<char>)
    requires
        is_name(name),
    ensures
        dir_len(name) == 0,
        file_name(name) == name,
        base_name(name) == Some(name),
        folder_key(name) == "(root)"@,
{
    dir_len_is_last_slash(name);
    if dir_len(name) > 0 {
        assert(name.contains(name[dir_len(name) - 1]));
    }
    assert(name.skip(0) =~= name);
    assert(name.contains(name[0]));
    no_tail_to_take(name, Seq::empty());
    assert(Seq::<char>::empty() + name =~= name);
    assert(name.take(0) =~= Seq::<char>::empty());
}

proof fn names_in_folders(dir: Seq<char>, name: Seq<char>)
    requires
        is_name(name),
    ensures
        without_tail(dir.push('/') + name) == dir.push('/') + name,
        dir_len(dir.push('/') + name) == dir.len() + 1,
        file_name(dir.push('/') + name) == name,
        base_name(dir.push('/') + name) == Some(name),
        parent_path(dir.push('/') + name) == Some(without_tail(dir.push('/'))),
{
    let all = dir.push('/') + name;
    last_slash(dir, name);
    no_tail_to_take(name, dir.push('/'));
    assert(all.skip(dir.len() as int + 1) =~= name);
    assert(all.take(dir.len() as int + 1) =~= dir.push('/'));
    assert(all.len() >= 2);
}

proof fn folders_have_no_tail(dir: Seq<char>)
    requires
        dir.len() > 0,
        is_name(dir.skip(dir_len(dir) as int)),
    ensures
        without_tail(dir.push('/')) == dir,
{
    let last = dir.skip(dir_len(dir) as int);
    dir_len_is_last_slash(dir);
    no_tail_to_take(last, dir.take(dir_len(dir) as int));
    assert(dir.take(dir_len(dir) as int) + last =~= dir);
    assert(dir.push('/').drop_last() =~= dir);
}

/// The file name of a path is what stands behind its last slash, and its folder what stands before
/// it; a note at the top has the folder `(root)`.
pub proof fn paths_are_parted_at_the_last_slash(dir: Seq<char>, name: Seq<char>)
    requires
        is_name(name),
    ensures
        file_name(name) == name,
        base_name(name) == Some(name),
        folder_key(name) == "(root)"@,
        file_name(dir.push('/') + name) == name,
        base_name(dir.push('/') + name) == Some(name),
        dir.len() > 0 && is_name(dir.skip(dir_len(dir) as int)) ==> folder_key(
            dir.push('/') + name,
        ) == dir,
{
    top_names(name);
    names_in_folders(dir, name);
    if dir.len() > 0 && is_name(dir.skip(dir_len(dir) as int)) {
        folders_have_no_tail(dir);
    }
}

proof fn no_tail_to_take(name: Seq<char>, before: Seq<char>)
    requires
        is_name(name),
    ensures
        without_tail(before + name) == before + name,
{
    let all = before + name;
    let n = all.len();
    assert(all[n - 1] == name.last());
    assert(name.contains(name.last()));
    if n >= 2 && all[n - 1] == '.' && all[n - 2] == '/' {
        if name.len() == 1 {
            assert(name =~= seq!['.']);
        } else {
            assert(all[n - 2] == name[name.len() - 2]);
            assert(name.contains(name[name.len() - 2]));
        }
    }
}

/// The value of an upper-case hexadecimal digit.
pub open spec fn hex_number(c: char) -> int {
    if '0' <= c <= '9' {
        c as int - '0' as int
    } else {
        c as int - 'A' as int + 10
    }
}

/// The bytes a percent-encoded text stands for: `%XX` is a byte, any other character is itself.
pub open spec fn decoded(s: Seq<char>) -> Seq<u8>
    decreases s.len(),
{
    if s.len() == 0 {
        seq![]
    } else if s[0] == '%' && s.len() >= 3 {
        seq![(16 * hex_number(s[1]) + hex_number(s[2])) as u8] + decoded(s.skip(3))
    } else {
        seq![s[0] as u8] + decoded(s.skip(1))
    }
}

proof fn byte_decodes(b: u8, rest: Seq<char>)
    ensures
        decoded(encoded_byte(b) + rest) == seq![b] + decoded(rest),
{
    let s = encoded_byte(b) + rest;
    if encoded_byte(b).len() == 1 {
        assert(s.skip(1) =~= rest);
        assert(s[0] == b as char);
        assert((b as char) as u8 == b);
        assert(s[0] != '%');
    } else {
        assert(s.skip(3) =~= rest);
        assert(s[1] == encoded_byte(b)[1]);
        assert(s[2] == encoded_byte(b)[2]);
        assert(16 * (b / 16) + b % 16 == b);
        assert(hex_number(s[1]) == b / 16);
        assert(hex_number(s[2]) == b % 16);
    }
}

proof fn bytes_decode(bytes: Seq<u8>, rest: Seq<char>)
    ensures
        decoded(encoded_bytes(bytes) + rest) == bytes + decoded(rest),
    decreases bytes.len(),
{
    if bytes.len() == 0 {
        assert(encoded_bytes(bytes) + rest =~= rest);
        assert(bytes + decoded(rest) =~= decoded(rest));
    } else {
        let front = bytes.drop_last();
        let last = bytes.last();
        bytes_decode(front, encoded_byte(last) + rest);
        byte_decodes(last, rest);
        assert(encoded_bytes(bytes) + rest =~= encoded_bytes(front) + (encoded_byte(last) + rest));
        assert(front + (seq![last] + decoded(rest)) =~= bytes + decoded(rest));
    }
}

/// Percent encoding loses nothing: decoding it gives the text back.
pub proof fn encoding_can_be_undone(s: Seq<char>)
    ensures
        decoded(encoded_text(s)) == encode_utf8(s),
        decode_utf8(decoded(encoded_text(s))) == s,
{
    bytes_decode(encode_utf8(s), Seq::empty());
    assert(encoded_text(s) + Seq::<char>::empty() =~= encoded_text(s));
    assert(encode_utf8(s) + Seq::<u8>::empty() =~= encode_utf8(s));
    encode_utf8_decode_utf8(s);
}

/// Letters, digits and `-._~` stand for themselves in an encoded text; nothing else does.
pub proof fn plain_characters_stay(b: u8)
    ensures
        ({
            let plain = 'a' as u8 <= b <= 'z' as u8 || 'A' as u8 <= b <= 'Z' as u8 || '0' as u8 <= b
                <= '9' as u8 || b == '-' as u8 || b == '.' as u8 || b == '_' as u8 || b == '~' as u8;
            if plain {
                encoded_byte(b) == seq![b as char]
            } else {
                encoded_byte(b).len() == 3 && encoded_byte(b)[0] == '%'
            }
        }),
{
}

/// A link is one of two kinds, and names the vault, the note and, of the second kind, the line.
pub proof fn links_name_their_note(vault: Seq<char>, note: Seq<char>, line: nat)
    ensures
        link_text(vault, note, line, false) == "obsidian://open?vault="@ + encoded_text(vault)
            + "&file="@ + encoded_text(note),
        link_text(vault, note, line, true) == "obsidian://advanced-uri?vault="@ + encoded_text(vault)
            + "&filepath="@ + encoded_text(note) + "&line="@ + digits(line),
{
}

}
