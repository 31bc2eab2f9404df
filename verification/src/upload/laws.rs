//! What holds of every session, whatever happens to it.

use vstd::prelude::*;
use crate::progress::Stage;
use crate::upload::response::STATUS_OK;
use crate::upload::session::{after, transition, ActionView, Phase, SessionView, UploadEvent};

verus! {

/// Whatever happens to a session, it stays one that the controller can have
/// brought about.
pub proof fn law_step_keeps_wf(s: SessionView, e: UploadEvent)
    requires
        s.wf(),
    ensures
        transition(s, e).0.wf(),
{
}

/// The byte count that observers see never decreases from one record to the
/// next, unless the next record is the one of a failure.
pub proof fn law_bytes_never_decrease(s: SessionView, e: UploadEvent)
    requires
        s.wf(),
    ensures
        transition(s, e).0.progress.stage != Stage::Error ==> transition(
            s,
            e,
        ).0.progress.bytes_received >= s.progress.bytes_received,
{
}

/// The stage that observers see changes only forward: it stays, moves on by
/// one, or becomes `Error`, and a terminal stage is never left.
pub proof fn law_stages_in_order(s: SessionView, e: UploadEvent)
    requires
        s.wf(),
    ensures
        s.progress.stage.may_become(transition(s, e).0.progress.stage),
        s.progress.stage.rank() <= transition(s, e).0.progress.stage.rank(),
        s.progress.stage.is_terminal() ==> transition(s, e).0.progress == s.progress,
{
}

/// A failure is possible in every stage that is not terminal: the failure of
/// the step under way takes the record to `Error`.
pub proof fn law_error_is_reachable(s: SessionView, reason: String)
    requires
        s.wf(),
        !s.progress.stage.is_terminal(),
    ensures
        transition(s, UploadEvent::TaskFailed { reason }).0.progress.stage == Stage::Error,
{
}

/// A session is answered exactly once: the action is an answer exactly when
/// the event ends the session, the answer tells of success exactly when the
/// record shows `Done`, and a session that has ended is never answered again.
pub proof fn law_answered_once(s: SessionView, e: UploadEvent)
    requires
        s.wf(),
    ensures
        transition(s, e).1 is Respond <==> (s.phase != Phase::Finished && transition(s, e).0.phase
            == Phase::Finished),
        transition(s, e).1 matches ActionView::Respond { response, status } ==> (response.success
            <==> transition(s, e).0.progress.stage == Stage::Done) && (response.success <==> status
            == STATUS_OK),
        s.phase == Phase::Finished ==> transition(s, e) == (s, ActionView::Nothing),
{
}

/// Over any run of events the records that observers see are in order: of
/// two records the later is never in an earlier stage, it never shows fewer
/// bytes unless it is the record of a failure, and once a record is terminal
/// no later one differs from it.
pub proof fn law_run_in_order(s: SessionView, events: Seq<UploadEvent>, i: nat, j: nat)
    requires
        s.wf(),
        i <= j <= events.len(),
    ensures
        after(s, events, i).wf(),
        after(s, events, j).wf(),
        after(s, events, i).progress.stage.rank() <= after(s, events, j).progress.stage.rank(),
        after(s, events, j).progress.stage != Stage::Error ==> after(
            s,
            events,
            i,
        ).progress.bytes_received <= after(s, events, j).progress.bytes_received,
        after(s, events, i).progress.stage.is_terminal() ==> after(s, events, j).progress == after(
            s,
            events,
            i,
        ).progress,
    decreases j,
{
    if j == 0 {
    } else if i == j {
        law_run_in_order(s, events, (i - 1) as nat, (i - 1) as nat);
        law_step_keeps_wf(after(s, events, (i - 1) as nat), events[i - 1]);
    } else {
        let before = after(s, events, (j - 1) as nat);
        law_run_in_order(s, events, i, (j - 1) as nat);
        law_step_keeps_wf(before, events[j - 1]);
        law_bytes_never_decrease(before, events[j - 1]);
        law_stages_in_order(before, events[j - 1]);
    }
}

} // verus!
