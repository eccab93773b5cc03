//! Outbound events: one `LogLine` per decoded output line, and exactly one
//! `InstallComplete` per run, whatever way the run ended.

use crate::stream::{decode_stream, stream_lines};
use vstd::prelude::*;
use vstd::string::*;

verus! {

/// The terminal report of one run: the child's raw exit code — `-1` when no
/// code could be obtained — and `ok` exactly when the code is zero.
pub struct ProcessOutcome {
    pub exit_code: i32,
    pub ok: bool,
    pub alias: String,
}

/// One outbound event for the user interface.
pub enum Event {
    /// A single decoded output line, forwarded as produced.
    LogLine { text: String },
    /// The one terminal completion report of a run.
    InstallComplete { outcome: ProcessOutcome },
}

/// How a run ended: the child exited (with its code, when the system
/// reported one), or a spawn or I/O failure described by a message.
pub enum RunResult {
    Exited { code: Option<i32> },
    Failed { message: String },
}

/// The number of completion events in a sequence.
pub open spec fn complete_count(evs: Seq<Event>) -> int
    decreases evs.len(),
{
    if evs.len() == 0 {
        0
    } else {
        complete_count(evs.drop_last()) + if evs.last() is InstallComplete {
            1int
        } else {
            0int
        }
    }
}

/// Appending one event raises the completion count by one exactly when it
/// is a completion.
pub proof fn lemma_complete_count_push(evs: Seq<Event>, e: Event)
    ensures
        complete_count(evs.push(e)) == complete_count(evs) + if e is InstallComplete {
            1int
        } else {
            0int
        },
{
    assert(evs.push(e).drop_last() =~= evs);
    assert(evs.push(e).last() == e);
}

/// The events that close one run, given how it ended: on a spawn or I/O
/// failure, one diagnostic line then the completion with the sentinel code
/// `-1`; on an exit, the completion alone, carrying the raw exit code, `-1`
/// when none was reported, and `ok` exactly when the code is zero.
pub open spec fn closing_events(evs: Seq<Event>, result: RunResult, alias: Seq<char>) -> bool {
    match result {
        RunResult::Exited { code } => {
            &&& evs.len() == 1
            &&& evs[0] matches Event::InstallComplete { outcome }
            &&& (evs[0] matches Event::InstallComplete { outcome } ==> outcome.alias@ == alias
                && outcome.exit_code == (match code {
                Some(c) => c,
                None => -1i32,
            }) && outcome.ok == (code == Some(0i32)))
        },
        RunResult::Failed { message } => {
            &&& evs.len() == 2
            &&& evs[0] matches Event::LogLine { text }
            &&& (evs[0] matches Event::LogLine { text } ==> text@ == "FATAL ERROR: "@ + message@)
            &&& evs[1] matches Event::InstallComplete { outcome }
            &&& (evs[1] matches Event::InstallComplete { outcome } ==> outcome.alias@ == alias
                && outcome.exit_code == -1i32 && outcome.ok == false)
        },
    }
}

/// Builds the events that close one run. Exactly one completion event comes
/// back in every case.
pub fn finish_events(result: &RunResult, alias: &str) -> (evs: Vec<Event>)
    ensures
        closing_events(evs@, *result, alias@),
        complete_count(evs@) == 1,
{
    let mut evs: Vec<Event> = Vec::new();
    match result {
        RunResult::Exited { code } => {
            let c: i32 = match code {
                Some(c) => *c,
                None => -1,
            };
            let ok: bool = match code {
                Some(c) => *c == 0,
                None => false,
            };
            evs.push(
                Event::InstallComplete {
                    outcome: ProcessOutcome { exit_code: c, ok, alias: alias.to_owned() },
                },
            );
            proof {
                assert(evs@.drop_last() =~= Seq::<Event>::empty());
                lemma_complete_count_push(evs@.drop_last(), evs@.last());
                assert(evs@.drop_last().push(evs@.last()) =~= evs@);
                assert(complete_count(Seq::<Event>::empty()) == 0);
            }
        },
        RunResult::Failed { message } => {
            let text = String::from_str("FATAL ERROR: ").concat(message.as_str());
            evs.push(Event::LogLine { text });
            evs.push(
                Event::InstallComplete {
                    outcome: ProcessOutcome { exit_code: -1, ok: false, alias: alias.to_owned() },
                },
            );
            proof {
                assert(evs@.drop_last().drop_last() =~= Seq::<Event>::empty());
                assert(evs@.drop_last().last() == evs@[0]);
                lemma_complete_count_push(evs@.drop_last(), evs@.last());
                assert(evs@.drop_last().push(evs@.last()) =~= evs@);
                lemma_complete_count_push(evs@.drop_last().drop_last(), evs@.drop_last().last());
                assert(evs@.drop_last().drop_last().push(evs@.drop_last().last()) =~= evs@.drop_last());
                assert(complete_count(Seq::<Event>::empty()) == 0);
            }
        },
    }
    evs
}

/// Whether `e` is the log-line event carrying exactly the text `s`.
pub open spec fn is_log_line_of(e: Event, s: String) -> bool {
    e matches Event::LogLine { text } && text == s
}

/// One `LogLine` event per decoded line, in the same order, and no
/// completion among them.
pub fn stream_events(lines: &Vec<String>) -> (evs: Vec<Event>)
    ensures
        evs@.len() == lines@.len(),
        forall|i: int| 0 <= i < lines@.len() ==> is_log_line_of(#[trigger] evs@[i], lines@[i]),
        complete_count(evs@) == 0,
{
    let mut evs: Vec<Event> = Vec::new();
    let n = lines.len();
    let mut i: usize = 0;
    while i < n
        invariant
            n == lines@.len(),
            0 <= i <= n,
            evs@.len() == i,
            forall|j: int| 0 <= j < i ==> is_log_line_of(#[trigger] evs@[j], lines@[j]),
            complete_count(evs@) == 0,
        decreases n - i,
    {
        let t = lines[i].clone();
        proof {
            lemma_complete_count_push(evs@, (Event::LogLine { text: t }));
        }
        evs.push(Event::LogLine { text: t });
        i = i + 1;
    }
    evs
}

/// Whether `e` is the log-line event whose text reads `t`.
pub open spec fn is_log_text_of(e: Event, t: Seq<char>) -> bool {
    e matches Event::LogLine { text } && text@ == t
}

/// Forwarding one finished stream: for a stream whose captured bytes decode
/// to N lines, exactly N log-line events, one per line, in production
/// order, and no completion event among them.
pub fn events_for_stream(bytes: &Vec<u8>) -> (evs: Vec<Event>)
    ensures
        evs@.len() == stream_lines(bytes@).len(),
        forall|i: int|
            0 <= i < evs@.len() ==> is_log_text_of(#[trigger] evs@[i], stream_lines(bytes@)[i]),
        complete_count(evs@) == 0,
{
    let lines = decode_stream(bytes);
    stream_events(&lines)
}

} // verus!
