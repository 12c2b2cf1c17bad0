//! Starting beside a daemon that may already be running.
//!
//! One daemon writes to a vault at a time; a lock beside the index says which.

use vstd::prelude::*;
use vstd::string::*;
use crate::task::opt_text;
use crate::text::{decimal, digits};

verus! {

/// What asking for the daemon's lock gave.
#[derive(Clone, Copy, PartialEq, Eq, Debug, Structural)]
pub enum LockOutcome {
    Acquired,
    /// Another daemon holds it, of this process id where it is known.
    HeldByOther(Option<u32>),
}

/// Whether to start.
#[derive(Debug)]
pub enum Start {
    Go,
    /// Start no daemon: run the browser alone, beside the daemon that holds the lock.
    Attach,
    /// Say `message` and end, with an error or without one.
    Refuse { message: String, error: Option<String> },
}

/// What a [`Start`] is.
#[verifier::ext_equal]
pub enum StartView {
    Go,
    Attach,
    Refuse { message: Seq<char>, error: Option<Seq<char>> },
}

impl View for Start {
    type V = StartView;

    open spec fn view(&self) -> StartView {
        match self {
            Start::Go => StartView::Go,
            Start::Attach => StartView::Attach,
            Start::Refuse { message, error } => StartView::Refuse {
                message: message@,
                error: opt_text(*error),
            },
        }
    }
}

/// The words on a daemon that is running.
pub open spec fn running(pid: Option<u32>) -> Seq<char> {
    "taski: a daemon is already running"@ + match pid {
        Some(p) => " (PID "@ + digits(p as nat) + ")"@,
        None => Seq::<char>::empty(),
    } + ". "@
}

/// How a daemon alone starts: a second one is refused, as an error.
pub open spec fn daemon_start(lock: LockOutcome) -> StartView {
    match lock {
        LockOutcome::Acquired => StartView::Go,
        LockOutcome::HeldByOther(pid) => StartView::Refuse {
            message: running(pid) + "Refusing to start a second writer (ADR-0008)."@,
            error: Some("daemon already running"@),
        },
    }
}

/// How a daemon with a browser starts: beside a daemon that is running the browser runs alone.
pub open spec fn combined_start(lock: LockOutcome) -> StartView {
    match lock {
        LockOutcome::Acquired => StartView::Go,
        LockOutcome::HeldByOther(_) => StartView::Attach,
    }
}

fn running_words(pid: Option<u32>) -> (r: String)
    ensures
        r@ == running(pid),
{
    let mut r = "taski: a daemon is already running".to_owned();
    let ghost base = r@;
    match pid {
        Some(p) => {
            r.append(" (PID ");
            r.append(decimal(p as usize).as_str());
            r.append(")");
            assert(r@ =~= base + (" (PID "@ + digits(p as nat) + ")"@));
        },
        None => {
            assert(r@ =~= base + Seq::<char>::empty());
        },
    }
    r.append(". ");
    r
}

/// Decides how a daemon alone starts.
pub fn acquire_or_refuse(lock: LockOutcome) -> (r: Start)
    ensures
        r@ == daemon_start(lock),
{
    match lock {
        LockOutcome::Acquired => Start::Go,
        LockOutcome::HeldByOther(pid) => {
            let mut message = running_words(pid);
            message.append("Refusing to start a second writer (ADR-0008).");
            Start::Refuse { message, error: Some("daemon already running".to_owned()) }
        },
    }
}

/// Decides how a daemon with a browser starts.
pub fn acquire_for_combined(lock: LockOutcome) -> (r: Start)
    ensures
        r@ == combined_start(lock),
{
    match lock {
        LockOutcome::Acquired => Start::Go,
        LockOutcome::HeldByOther(_) => Start::Attach,
    }
}

/// One daemon writes at a time: either way of starting starts a daemon exactly where the lock was free.
pub proof fn one_writer_at_a_time(lock: LockOutcome)
    ensures
        daemon_start(lock) is Go <==> lock is Acquired,
        combined_start(lock) is Go <==> lock is Acquired,
{
}

}
