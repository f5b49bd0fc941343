//! The relay over a whole stream: every event of a running process, in
//! order, turned into the log it leaves.

use crate::event::{classify, is_terminal, log_line_of, LogChannel, LogEntry, OutputEvent};
use crate::supervisor::{ActionView, Input, Phase};
use crate::trace::{action_at, phase_after, process_inputs};
use vstd::prelude::*;

verus! {

/// The lines held by a sequence of log entries, in order.
pub open spec fn lines_of(entries: Seq<LogEntry>) -> Seq<(LogChannel, Seq<char>)> {
    Seq::new(entries.len(), |i: int| entries[i]@)
}

/// Whether the end of the process is reported among the first `n` events.
pub open spec fn ended_before(events: Seq<OutputEvent>, n: int) -> bool {
    exists|k: int| 0 <= k < n && is_terminal(#[trigger] events[k])
}

/// The log after the first `n` events: the line of each event that has
/// one, in the order of the events, up to and including the first report
/// that the process has ended.
pub open spec fn relayed(events: Seq<OutputEvent>, n: int) -> Seq<(LogChannel, Seq<char>)>
    decreases n,
{
    if n <= 0 {
        Seq::empty()
    } else if ended_before(events, n - 1) {
        relayed(events, n - 1)
    } else {
        match log_line_of(events[n - 1]) {
            Some(line) => relayed(events, n - 1).push(line),
            None => relayed(events, n - 1),
        }
    }
}

/// The log that the supervision machine leaves when it is handed the first
/// `n` events while running: the entries of its `Forward` and `Finish`
/// actions, in order.
pub open spec fn machine_log(events: Seq<OutputEvent>, n: int) -> Seq<(LogChannel, Seq<char>)>
    decreases n,
{
    if n <= 0 {
        Seq::empty()
    } else {
        match action_at(Phase::Running, process_inputs(events), n - 1) {
            ActionView::Forward(line) => machine_log(events, n - 1).push(line),
            ActionView::Finish(line) => machine_log(events, n - 1).push(line),
            _ => machine_log(events, n - 1),
        }
    }
}

/// Drains the events of a running process and returns the log entries they
/// leave, in order. Events after a termination leave none.
pub fn relay(events: &Vec<OutputEvent>) -> (log: Vec<LogEntry>)
    ensures
        lines_of(log@) == relayed(events@, events@.len() as int),
{
    let mut log: Vec<LogEntry> = Vec::new();
    let mut ended = false;
    let mut i: usize = 0;
    proof {
        assert(lines_of(log@) =~= relayed(events@, 0));
    }
    while i < events.len()
        invariant
            0 <= i <= events.len(),
            ended == ended_before(events@, i as int),
            lines_of(log@) == relayed(events@, i as int),
        decreases events.len() - i,
    {
        let ghost before = log@;
        if !ended {
            match classify(&events[i]) {
                Some(entry) => {
                    log.push(entry);
                    proof {
                        assert(lines_of(log@) =~= lines_of(before).push(entry@));
                    }
                },
                None => {},
            }
            ended = events[i].ends_stream();
        }
        proof {
            assert(ended_before(events@, i + 1) == (ended_before(events@, i as int) || is_terminal(
                events@[i as int],
            )));
        }
        i += 1;
    }
    log
}

/// The relay drops and reorders nothing: while no termination has been
/// seen, and every event has a log line, the log holds exactly one line for
/// each event, at the event's own position.
pub proof fn relay_keeps_every_line(events: Seq<OutputEvent>, n: int)
    requires
        0 <= n <= events.len(),
        !ended_before(events, n - 1),
        forall|k: int| 0 <= k < n ==> log_line_of(#[trigger] events[k]).is_some(),
    ensures
        relayed(events, n).len() == n,
        forall|k: int| 0 <= k < n ==> relayed(events, n)[k] == log_line_of(events[k]).unwrap(),
    decreases n,
{
    if n > 0 {
        assert(!ended_before(events, n - 2)) by {
            if ended_before(events, n - 2) {
                let k = choose|k: int| 0 <= k < n - 2 && is_terminal(#[trigger] events[k]);
                assert(0 <= k < n - 1 && is_terminal(events[k]));
            }
        }
        relay_keeps_every_line(events, n - 1);
    }
}

/// Events that arrive after a termination leave nothing in the log.
pub proof fn relay_ends_at_termination(events: Seq<OutputEvent>, t: int, n: int)
    requires
        0 <= t < n <= events.len(),
        is_terminal(events[t]),
    ensures
        relayed(events, n) == relayed(events, t + 1),
    decreases n,
{
    if n > t + 1 {
        relay_ends_at_termination(events, t, n - 1);
        assert(0 <= t < n - 1 && is_terminal(events[t]));
    }
}

proof fn lemma_phase_tracks_end(events: Seq<OutputEvent>, n: int)
    requires
        0 <= n <= events.len(),
    ensures
        ended_before(events, n) ==> phase_after(Phase::Running, process_inputs(events), n)
            is Terminated,
        !ended_before(events, n) ==> phase_after(Phase::Running, process_inputs(events), n)
            == Phase::Running,
    decreases n,
{
    if n > 0 {
        lemma_phase_tracks_end(events, n - 1);
        assert(process_inputs(events)[n - 1] == Input::Process(events[n - 1]));
        assert(ended_before(events, n) == (ended_before(events, n - 1) || is_terminal(
            events[n - 1],
        )));
    }
}

/// The relay over a whole stream and the supervision machine agree: fed
/// the same events one by one while running, the machine asks for exactly
/// the log entries that the relay returns, in the same order.
pub proof fn relay_agrees_with_machine(events: Seq<OutputEvent>, n: int)
    requires
        0 <= n <= events.len(),
    ensures
        relayed(events, n) == machine_log(events, n),
    decreases n,
{
    if n > 0 {
        relay_agrees_with_machine(events, n - 1);
        lemma_phase_tracks_end(events, n - 1);
        assert(process_inputs(events)[n - 1] == Input::Process(events[n - 1]));
    }
}

} // verus!
