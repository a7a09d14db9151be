//! Output relay: classify each event the child process's output channel
//! yields and decide how to forward it.
//!
//! The runtime drains the child's output streams and hands every event to
//! [`relay_action`]: a standard-output line is forwarded to the info-level
//! sink with its trailing whitespace removed, a standard-error line goes to
//! the warning-level sink as emitted, and a termination event is reported to
//! the coordinator together with the exit code, if any. Lines are handed
//! over one by one in emission order, so relaying never reorders or drops
//! output.

use vstd::prelude::*;

verus! {

/// ASCII whitespace, the only whitespace trailing a process's output line in
/// practice: space, tab, line feed, vertical tab, form feed, carriage return.
pub open spec fn is_ascii_ws(b: u8) -> bool {
    b == 32 || (9 <= b <= 13)
}

/// The length a byte line has once its trailing whitespace is removed: the
/// longest prefix that does not end in ASCII whitespace.
pub open spec fn trimmed_len(s: Seq<u8>) -> int
    decreases s.len(),
{
    if s.len() == 0 {
        0
    } else if is_ascii_ws(s.last()) {
        trimmed_len(s.drop_last())
    } else {
        s.len() as int
    }
}

/// The trimmed length cuts exactly the trailing whitespace: everything past
/// it is whitespace, and the kept prefix does not end in whitespace.
pub proof fn lemma_trimmed_len(s: Seq<u8>)
    ensures
        0 <= trimmed_len(s) <= s.len(),
        forall|i: int| trimmed_len(s) <= i < s.len() ==> is_ascii_ws(s[i]),
        trimmed_len(s) > 0 ==> !is_ascii_ws(s[trimmed_len(s) - 1]),
    decreases s.len(),
{
    if s.len() == 0 {
    } else if is_ascii_ws(s.last()) {
        lemma_trimmed_len(s.drop_last());
        assert forall|i: int| trimmed_len(s) <= i < s.len() implies is_ascii_ws(s[i]) by {
            if i < s.len() - 1 {
                assert(is_ascii_ws(s.drop_last()[i]));
                assert(s.drop_last()[i] == s[i]);
            } else {
                assert(s[i] == s.last());
            }
        }
    }
}

/// Whether a byte is ASCII whitespace.
pub fn is_ws_byte(b: u8) -> (r: bool)
    ensures
        r == is_ascii_ws(b),
{
    b == 32 || (9 <= b && b <= 13)
}

/// Remove the line's trailing ASCII whitespace.
pub fn trim_trailing_ws(line: &[u8]) -> (r: Vec<u8>)
    ensures
        r@ == line@.take(trimmed_len(line@)),
{
    let mut n: usize = line.len();
    proof {
        assert(line@.take(n as int) =~= line@);
    }
    while n > 0 && is_ws_byte(line[n - 1])
        invariant
            n <= line@.len(),
            trimmed_len(line@) == trimmed_len(line@.take(n as int)),
        decreases n,
    {
        proof {
            let pre = line@.take(n as int);
            assert(pre.last() == line@[n - 1]);
            assert(pre.drop_last() =~= line@.take(n - 1));
        }
        n = n - 1;
    }
    proof {
        let pre = line@.take(n as int);
        if n > 0 {
            assert(pre.last() == line@[n - 1]);
        }
        assert(trimmed_len(line@) == n);
    }
    let mut r: Vec<u8> = Vec::new();
    let mut i: usize = 0;
    while i < n
        invariant
            i <= n <= line@.len(),
            r@ == line@.take(i as int),
        decreases n - i,
    {
        r.push(line[i]);
        proof {
            assert(line@.take(i + 1) =~= line@.take(i as int).push(line@[i as int]));
        }
        i = i + 1;
    }
    r
}

/// One event from the child's output channel: a line from either stream,
/// termination with an exit code (absent when a signal killed the process),
/// or anything else the channel may carry, which the relay ignores.
#[derive(PartialEq, Eq, Debug)]
pub enum OutputEvent {
    StdoutLine(Vec<u8>),
    StderrLine(Vec<u8>),
    Terminated(Option<i32>),
    Other,
}

/// What the runtime must do with one output event.
#[derive(PartialEq, Eq, Debug)]
pub enum RelayAction {
    /// Forward the line to the info-level sink.
    LogInfo(Vec<u8>),
    /// Forward the line to the warning-level sink.
    LogWarn(Vec<u8>),
    /// The process exited: report it, with the exit code if one is known.
    ReportTermination(Option<i32>),
    /// Not an output line and not a termination: nothing to do.
    Ignore,
}

/// Decide how one output event is forwarded: standard output goes to the
/// info sink trimmed of trailing whitespace, standard error to the warning
/// sink as emitted, and termination is reported with its exit code.
pub fn relay_action(event: &OutputEvent) -> (action: RelayAction)
    ensures
        event matches OutputEvent::StdoutLine(l) ==> (action matches RelayAction::LogInfo(t)
            && t@ == l@.take(trimmed_len(l@))),
        event matches OutputEvent::StderrLine(l) ==> (action matches RelayAction::LogWarn(t)
            && t@ == l@),
        event matches OutputEvent::Terminated(c) ==> (action
            matches RelayAction::ReportTermination(r) && r == c),
        event is Other ==> action is Ignore,
{
    match event {
        OutputEvent::StdoutLine(line) => RelayAction::LogInfo(trim_trailing_ws(line.as_slice())),
        OutputEvent::StderrLine(line) => RelayAction::LogWarn(
            vstd::slice::slice_to_vec(line.as_slice()),
        ),
        OutputEvent::Terminated(code) => RelayAction::ReportTermination(*code),
        OutputEvent::Other => RelayAction::Ignore,
    }
}

} // verus!
