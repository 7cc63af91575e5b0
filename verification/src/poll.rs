//! The action-polling state machine.
//!
//! One step of the poller looks at the latest snapshot of a remote action and
//! decides what to do: wait and re-fetch (with a progress report while the
//! action runs, silently while it is still pending), stop with success, or
//! stop with failure. Only success and error are terminal. The loop that
//! sleeps and re-fetches lives outside the library; `poll_script` runs the
//! same decisions over a pre-recorded sequence of fetch responses, so the
//! loop's behaviour is stated and proved here once and for all.

use vstd::prelude::*;

use crate::api::Action;
use crate::error::HbpError;
use crate::error::HetznerError;

verus! {

/// An observable progress report for an action still running: identifier,
/// command name and completion percentage.
#[derive(Debug)]
pub struct ProgressEvent {
    pub id: u64,
    pub command: String,
    pub progress: u8,
}

/// What the poller does with the latest snapshot of an action.
#[derive(Debug)]
pub enum PollStep {
    /// Still running: report progress, wait, then re-fetch.
    KeepWaiting(ProgressEvent),
    /// Still pending: progress is not meaningful yet, so wait and re-fetch
    /// without a progress report.
    WaitQuietly { id: u64 },
    /// Terminal success: the poll is over.
    Finished,
    /// Terminal failure: the run aborts with the action's command and error
    /// detail.
    Failed { command: String, error: Option<HetznerError> },
}

/// One decision of the poller. Pending and running actions are waited on —
/// only a terminal status ends the poll: success quietly, error with the
/// failure surfaced exactly as observed.
pub fn poll_step(a: Action) -> (r: PollStep)
    ensures
        a.status is Running ==> (r matches PollStep::KeepWaiting(ev) && ev.id == a.id
            && ev.command == a.command && ev.progress == a.progress),
        a.status is Pending ==> (r matches PollStep::WaitQuietly { id } && id == a.id),
        a.status is Success ==> r is Finished,
        a.status is Error ==> (r matches PollStep::Failed { command, error } && command
            == a.command && error == a.error),
{
    match a.status {
        crate::api::ActionStatus::Running => PollStep::KeepWaiting(
            ProgressEvent { id: a.id, command: a.command, progress: a.progress },
        ),
        crate::api::ActionStatus::Pending => PollStep::WaitQuietly { id: a.id },
        crate::api::ActionStatus::Success => PollStep::Finished,
        crate::api::ActionStatus::Error => PollStep::Failed {
            command: a.command,
            error: a.error,
        },
    }
}

/// The progress to display next. The remote's progress figure is advisory and
/// not guaranteed monotone, but the displayed state must never regress.
pub fn next_displayed(shown: u8, observed: u8) -> (r: u8)
    ensures
        r == (if observed > shown {
            observed
        } else {
            shown
        }),
{
    if observed > shown {
        observed
    } else {
        shown
    }
}

/// The plain view of a progress event: identifier, command characters,
/// displayed percentage.
pub open spec fn event_view(e: ProgressEvent) -> (u64, Seq<char>, u8) {
    (e.id, e.command@, e.progress)
}

/// The progress events a poll over the script emits, oldest first, given the
/// progress already shown: one event per running response before the first
/// terminal one, each displaying the greatest progress observed so far;
/// pending responses are waited on without an event.
pub open spec fn spec_poll_events(s: Seq<Action>, shown: u8) -> Seq<(u64, Seq<char>, u8)>
    decreases s.len(),
{
    if s.len() == 0 {
        Seq::<(u64, Seq<char>, u8)>::empty()
    } else if s[0].spec_terminal() {
        Seq::<(u64, Seq<char>, u8)>::empty()
    } else if s[0].status is Running {
        let p = if s[0].progress > shown {
            s[0].progress
        } else {
            shown
        };
        seq![(s[0].id, s[0].command@, p)] + spec_poll_events(s.skip(1), p)
    } else {
        spec_poll_events(s.skip(1), shown)
    }
}

/// How many fetch responses at the head of the script are not yet terminal:
/// the number of fetches a poll over that script consumes before it decides.
pub open spec fn leading_nonterminal(s: Seq<Action>) -> nat
    decreases s.len(),
{
    if s.len() == 0 {
        0
    } else if s[0].spec_terminal() {
        0
    } else {
        (1 + leading_nonterminal(s.skip(1))) as nat
    }
}

/// A prefix of non-terminal responses followed by a terminal one (or the end)
/// pins `leading_nonterminal` down exactly.
pub proof fn lemma_leading_nonterminal(s: Seq<Action>, i: int)
    requires
        0 <= i <= s.len(),
        forall|j: int| 0 <= j < i ==> !(#[trigger] s[j].spec_terminal()),
        i < s.len() ==> s[i].spec_terminal(),
    ensures
        leading_nonterminal(s) == i,
    decreases i,
{
    if i == 0 {
    } else {
        assert(!s[0].spec_terminal());
        lemma_leading_nonterminal(s.skip(1), i - 1);
    }
}

/// Law: a script whose first response is already terminal resolves at once —
/// the poll emits no progress event, consumes no further fetch, and its
/// outcome is fixed by that first response alone, whatever follows it.
pub proof fn lemma_terminal_resolves_immediately(s: Seq<Action>, shown: u8)
    requires
        s.len() > 0,
        s[0].spec_terminal(),
    ensures
        leading_nonterminal(s) == 0,
        spec_poll_events(s, shown) == Seq::<(u64, Seq<char>, u8)>::empty(),
{
}

/// Runs the poller's decisions over a pre-recorded sequence of fetch
/// responses, first response first. Returns the progress events emitted, in
/// order, and the outcome, decided by the first terminal response: success if
/// it reports success, the action's failure detail if it reports an error,
/// and a transport error if the script runs out before any terminal response.
pub fn poll_script(script: &Vec<Action>) -> (r: (Vec<ProgressEvent>, Result<(), HbpError>))
    ensures
        r.0@.map_values(|e: ProgressEvent| event_view(e)) == spec_poll_events(script@, 0),
        leading_nonterminal(script@) == script@.len() ==> r.1 is Err && r.1->Err_0
            is RemoteCallFailed,
        leading_nonterminal(script@) < script@.len() ==> {
            let a = script@[leading_nonterminal(script@) as int];
            &&& a.status is Success ==> r.1 is Ok
            &&& a.status is Error ==> (r.1 matches Err(HbpError::ActionFailed {
                command,
                error,
            }) && command == a.command && error == a.error)
        },
{
    let mut events: Vec<ProgressEvent> = Vec::new();
    let mut shown: u8 = 0;
    let n = script.len();
    let mut i: usize = 0;
    proof {
        assert(script@.skip(0) =~= script@);
        assert(events@.map_values(|e: ProgressEvent| event_view(e)) =~= Seq::<(
            u64,
            Seq<char>,
            u8,
        )>::empty());
    }
    while i < n
        invariant
            n == script@.len(),
            0 <= i <= n,
            forall|j: int| 0 <= j < i ==> !(#[trigger] script@[j].spec_terminal()),
            spec_poll_events(script@, 0) == events@.map_values(|e: ProgressEvent| event_view(e))
                + spec_poll_events(script@.skip(i as int), shown),
        decreases n - i,
    {
        proof {
            assert(script@.skip(i as int)[0] == script@[i as int]);
            assert(script@.skip(i as int).skip(1) =~= script@.skip(i as int + 1));
        }
        let a = &script[i];
        match a.status {
            crate::api::ActionStatus::Running => {
                shown = next_displayed(shown, a.progress);
                let ghost pre = events@;
                events.push(
                    ProgressEvent { id: a.id, command: a.command.clone(), progress: shown },
                );
                proof {
                    assert(events@.map_values(|e: ProgressEvent| event_view(e)) =~= pre.map_values(
                        |e: ProgressEvent| event_view(e),
                    ) + seq![(script@[i as int].id, script@[i as int].command@, shown)]);
                }
            },
            crate::api::ActionStatus::Pending => {
            },
            crate::api::ActionStatus::Success => {
                proof {
                    lemma_leading_nonterminal(script@, i as int);
                }
                return (events, Ok(()));
            },
            crate::api::ActionStatus::Error => {
                proof {
                    lemma_leading_nonterminal(script@, i as int);
                }
                let error = match &a.error {
                    Some(e) => Some(e.duplicate()),
                    None => None,
                };
                return (
                    events,
                    Err(HbpError::ActionFailed { command: a.command.clone(), error }),
                );
            },
        }
        i = i + 1;
    }
    proof {
        lemma_leading_nonterminal(script@, n as int);
        assert(script@.skip(n as int) =~= Seq::<Action>::empty());
    }
    (events, Err(HbpError::RemoteCallFailed("poll script exhausted".to_owned())))
}

} // verus!
