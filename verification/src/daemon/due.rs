//! What comes due by itself: deliveries and reminders.

use vstd::prelude::*;

use super::errors::SliceError;
use super::inflight::Inflight;
use super::prompt::PreparedPrompt;
use crate::domain::{IncarnationId, MessageId, OperationId};
use crate::herdr::{HerdrError, LifecycleObservation};
use crate::herdr_exec::HerdrJobResult;

verus! {

/// The deliveries of a run that are not under way yet.
pub open spec fn fresh_due(due: Seq<PreparedPrompt>, inflight: Set<u128>) -> Seq<PreparedPrompt>
    decreases due.len(),
{
    if due.len() == 0 {
        Seq::empty()
    } else {
        let rest = fresh_due(due.drop_last(), inflight);
        if after_due(due.drop_last(), inflight).contains(due.last().operation_id.value) {
            rest
        } else {
            rest.push(due.last())
        }
    }
}

/// What is under way once a run of deliveries was taken in.
pub open spec fn after_due(due: Seq<PreparedPrompt>, inflight: Set<u128>) -> Set<u128>
    decreases due.len(),
{
    if due.len() == 0 {
        inflight
    } else {
        after_due(due.drop_last(), inflight).insert(due.last().operation_id.value)
    }
}

/// Take in what came due: what is under way already is left out.
pub fn take_due(inflight: &mut Inflight, due: Vec<PreparedPrompt>) -> (taken: Vec<PreparedPrompt>)
    ensures
        taken@ == fresh_due(due@, old(inflight)@),
        final(inflight)@ == after_due(due@, old(inflight)@),
{
    let ghost all = due@;
    let ghost start = inflight@;
    let mut left = due;
    let mut reversed: Vec<PreparedPrompt> = Vec::new();
    while left.len() > 0
        invariant
            left@ + reversed@.reverse() == all,
        decreases left@.len(),
    {
        let ghost before = left@;
        let ghost behind = reversed@;
        if let Some(prompt) = left.pop() {
            reversed.push(prompt);
            assert(left@ + reversed@.reverse() =~= before + behind.reverse());
        }
    }
    let mut taken: Vec<PreparedPrompt> = Vec::new();
    assert(left@ + reversed@.reverse() =~= reversed@.reverse());
    assert(all.take(0) =~= Seq::<PreparedPrompt>::empty());
    while reversed.len() > 0
        invariant
            reversed@.len() <= all.len(),
            reversed@.reverse() == all.skip(all.len() - reversed@.len()),
            taken@ == fresh_due(all.take(all.len() - reversed@.len()), start),
            inflight@ == after_due(all.take(all.len() - reversed@.len()), start),
        decreases reversed@.len(),
    {
        let ghost at = all.len() - reversed@.len();
        let ghost behind = reversed@;
        if let Some(prompt) = reversed.pop() {
            proof {
                assert(behind.reverse()[0] == prompt);
                assert(all.skip(at)[0] == all[at]);
                assert(all.take(at + 1).drop_last() =~= all.take(at));
                assert(reversed@.reverse() =~= behind.reverse().skip(1));
                assert(all.skip(at).skip(1) =~= all.skip(at + 1));
            }
            if inflight.insert(prompt.operation_id.value) {
                taken.push(prompt);
            }
        }
    }
    assert(all.take(all.len() as int) =~= all);
    taken
}

/// Whatever is taken in was not under way, is under way from then on, and is taken
/// in once.
pub proof fn law_due_is_sent_once(due: Seq<PreparedPrompt>, inflight: Set<u128>)
    ensures
        forall|i: int|
            0 <= i < fresh_due(due, inflight).len() ==> {
                let id = (#[trigger] fresh_due(due, inflight)[i]).operation_id.value;
                !inflight.contains(id) && after_due(due, inflight).contains(id)
            },
        forall|i: int, j: int|
            0 <= i < j < fresh_due(due, inflight).len() ==> (#[trigger] fresh_due(due, inflight)[i]).operation_id.value
                != (#[trigger] fresh_due(due, inflight)[j]).operation_id.value,
        inflight.subset_of(after_due(due, inflight)),
    decreases due.len(),
{
    if due.len() > 0 {
        let rest = due.drop_last();
        law_due_is_sent_once(rest, inflight);
        let before = fresh_due(rest, inflight);
        let now = fresh_due(due, inflight);
        assert forall|i: int| 0 <= i < now.len() implies {
            let id = (#[trigger] now[i]).operation_id.value;
            !inflight.contains(id) && after_due(due, inflight).contains(id)
        } by {
            if i < before.len() {
                assert(now[i] == before[i]);
            }
        }
        assert forall|i: int, j: int| 0 <= i < j < now.len() implies (
        #[trigger] now[i]).operation_id.value != (#[trigger] now[j]).operation_id.value by {
            assert(now[i] == before[i]);
            if j < before.len() {
                assert(now[j] == before[j]);
            }
        }
    }
}

/// What the operator is told where deliveries could not be looked up.
pub fn due_failed(error: &SliceError) -> (notice: String)
    ensures
        notice@ == "due fire failed: "@ + error.text(),
{
    "due fire failed: ".to_owned().concat(error.message().as_str())
}

/// What the operator is told of reminders that could not be fired.
pub open spec fn reminder_notice(error: SliceError) -> Seq<char> {
    "reminder fire failed: "@ + error.text()
}

/// What the operator is told of reminders that could not be fired.
pub fn reminders_failed(error: &SliceError) -> (notice: String)
    ensures
        notice@ == reminder_notice(*error),
{
    "reminder fire failed: ".to_owned().concat(error.message().as_str())
}

/// Whether reminders are looked up in this pass: not while a look or a reminder is
/// under way.
pub fn may_remind(job: Option<u64>, inflight: &Inflight) -> (r: bool)
    ensures
        r == (job is None && inflight@ == Set::<u128>::empty()),
{
    job.is_none() && inflight.is_empty()
}

/// What follows the look for reminders.
#[derive(Debug, PartialEq, Eq)]
pub enum ReminderPass {
    /// Nothing.
    Nothing,
    /// Take a snapshot with status, and keep what is due until then.
    Look,
    /// Tell the operator.
    Note(String),
}

/// What follows the look for reminders: how many are due, how many sit on a
/// boundary, and whether occupancy is to be sampled. Where that cannot be told, it
/// is not.
pub fn schedule_reminders(
    occupancy: Result<bool, SliceError>,
    collected: Result<(usize, usize), SliceError>,
) -> (pass: ReminderPass)
    ensures
        match collected {
            Ok((due, boundaries)) => pass == if due == 0 && boundaries == 0 && !(
            occupancy matches Ok(needed) && needed) {
                ReminderPass::Nothing
            } else {
                ReminderPass::Look
            },
            Err(error) => pass matches ReminderPass::Note(notice) && notice@
                == reminder_notice(error),
        },
{
    let sample = match occupancy {
        Ok(needed) => needed,
        Err(_) => false,
    };
    match collected {
        Ok((due, boundaries)) => if due == 0 && boundaries == 0 && !sample {
            ReminderPass::Nothing
        } else {
            ReminderPass::Look
        },
        Err(error) => ReminderPass::Note(reminders_failed(&error)),
    }
}

/// What the snapshot for reminders shows, where it is still wanted.
pub fn reminder_snapshot(pending: bool, result: Result<HerdrJobResult, HerdrError>) -> (observed:
    Option<Vec<LifecycleObservation>>)
    ensures
        observed == match result {
            Ok(HerdrJobResult::Lifecycle(agents)) => if pending {
                Some(agents)
            } else {
                None
            },
            _ => None::<Vec<LifecycleObservation>>,
        },
{
    match result {
        Ok(HerdrJobResult::Lifecycle(agents)) => if pending {
            Some(agents)
        } else {
            None
        },
        _ => None,
    }
}

/// A reminder that is ready to go out.
#[derive(Debug, PartialEq, Eq)]
pub struct PreparedReminder {
    pub ask_message_id: MessageId,
    pub recipient_incarnation: IncarnationId,
    pub pane_id: String,
    pub envelope: String,
    pub request_id: String,
}

/// The prompt of a reminder, under a fresh operation.
pub fn reminder_prompt(reminder: &PreparedReminder, operation_id: OperationId) -> (prompt:
    PreparedPrompt)
    ensures
        prompt.operation_id == operation_id,
        prompt.recipient_incarnation == reminder.recipient_incarnation,
        prompt.pane_id@ == reminder.pane_id@,
        prompt.envelope@ == reminder.envelope@,
        prompt.request_id@ == reminder.request_id@,
        !prompt.queued,
        prompt.pause_before_write@ == ""@,
        prompt.after_write_pause@ == ""@,
        prompt.pause_before_commit@ == ""@,
{
    PreparedPrompt {
        operation_id,
        recipient_incarnation: reminder.recipient_incarnation,
        pane_id: reminder.pane_id.clone(),
        envelope: reminder.envelope.clone(),
        request_id: reminder.request_id.clone(),
        queued: false,
        pause_before_write: "",
        after_write_pause: "",
        pause_before_commit: "",
    }
}

} // verus!
