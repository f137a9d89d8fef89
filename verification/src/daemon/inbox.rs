//! The inbox connection of a socket waiter: deliveries go out, acknowledgements
//! come in.

use vstd::prelude::*;

use super::errors::{
    answer_view, invalid, is_invalid, malformed, malformed_view, respond, ClientResponse,
    SliceError, StoreError,
};
use super::framing::{lemma_newline_at, newline_at, take_line};
use super::inflight::Inflight;
use super::reads::ClientRequest;
use super::results::{
    inbox_acked, inbox_acked_view, inbox_event, inbox_event_view, InboxDelivery,
};
use crate::domain::{fresh_id_text, is_time_ordered, uuid_text, DeliveryOutcome, LogicalAgentId, MessageId};
use crate::json::{Json, JsonView};
use crate::text::{same, trim, trimmed};

verus! {

/// Whether an open inbox stays when a waiter claims one.
pub open spec fn stays(open: Seq<LogicalAgentId>, waiter: LogicalAgentId, kept: Seq<usize>) -> bool {
    &&& forall|i: int|
        0 <= i < kept.len() ==> (#[trigger] kept[i]) < open.len() && open[kept[i] as int] != waiter
    &&& forall|i: int, j: int| 0 <= i < j < kept.len() ==> kept[i] < kept[j]
    &&& forall|k: int|
        0 <= k < open.len() && #[trigger] open[k] != waiter ==> exists|i: int|
            0 <= i < kept.len() && kept[i] == k
}

/// Which of the open inboxes stay when a waiter claims one, in order: all but its
/// own. So a waiter has one inbox, its newest.
pub fn park_inbox(open: &Vec<LogicalAgentId>, waiter: LogicalAgentId) -> (kept: Vec<usize>)
    ensures
        stays(open@, waiter, kept@),
{
    let mut kept: Vec<usize> = Vec::new();
    let mut k: usize = 0;
    while k < open.len()
        invariant
            k <= open@.len(),
            forall|i: int|
                0 <= i < kept@.len() ==> (#[trigger] kept@[i]) < k && open@[kept@[i] as int]
                    != waiter,
            forall|i: int, j: int| 0 <= i < j < kept@.len() ==> kept@[i] < kept@[j],
            forall|m: int|
                0 <= m < k && #[trigger] open@[m] != waiter ==> exists|i: int|
                    0 <= i < kept@.len() && kept@[i] == m,
        decreases open@.len() - k,
    {
        let ghost before = kept@;
        if open[k] != waiter {
            kept.push(k);
            assert(kept@[before.len() as int] == k);
        }
        proof {
            assert forall|m: int| 0 <= m < k + 1 && #[trigger] open@[m] != waiter implies exists|
                i: int,
            |
                0 <= i < kept@.len() && kept@[i] == m by {
                if m < k {
                    let i = choose|i: int| 0 <= i < before.len() && before[i] == m;
                    assert(kept@[i] == m);
                } else {
                    assert(kept@[before.len() as int] == m);
                }
            }
        }
        k = k + 1;
    }
    kept
}

/// How far the pump of an inbox has come in one pass.
#[derive(Debug, Clone, Copy, PartialEq, Eq, Structural)]
pub enum InboxPhase {
    /// What was left from before goes out.
    Rest,
    /// What is queued is offered.
    Offer,
    /// What was offered goes out.
    Offered,
    /// Acknowledgements are read.
    Acks,
    /// The answers to them go out; tells how the read ended.
    Answers { read: bool, read_ok: bool },
}

/// The pump of an inbox in one pass.
#[derive(Debug, Clone, Copy, PartialEq, Eq, Structural)]
pub struct InboxPump {
    pub phase: InboxPhase,
    pub progressed: bool,
}

/// What the pump of an inbox does next.
#[derive(Debug, Clone, Copy, PartialEq, Eq, Structural)]
pub enum InboxAct {
    /// Write what is buffered, as far as the connection takes it.
    Flush,
    /// Offer what is queued.
    Offer,
    /// Read acknowledgements, and buffer the answers.
    ReadAcks,
    /// This pass is over; tells whether anything moved.
    Done { progressed: bool },
    /// The connection is over.
    Close,
}

/// A pass begins with what was left from before.
pub fn begin_pump() -> (r: (InboxPump, InboxAct))
    ensures
        r == (InboxPump { phase: InboxPhase::Rest, progressed: false }, InboxAct::Flush),
{
    (InboxPump { phase: InboxPhase::Rest, progressed: false }, InboxAct::Flush)
}

/// What follows one part of a pass. `moved` tells whether that part moved anything,
/// or that it failed, and `left` whether something is still buffered.
pub open spec fn pumped(pump: InboxPump, moved: Result<bool, ()>, left: bool) -> (
    InboxPump,
    InboxAct,
) {
    let progressed = pump.progressed || (moved matches Ok(m) && m);
    match pump.phase {
        InboxPhase::Rest => if moved is Err {
            (pump, InboxAct::Close)
        } else if left {
            (InboxPump { phase: pump.phase, progressed }, InboxAct::Done { progressed })
        } else {
            (InboxPump { phase: InboxPhase::Offer, progressed }, InboxAct::Offer)
        },
        InboxPhase::Offer => if moved is Err {
            (pump, InboxAct::Close)
        } else {
            (InboxPump { phase: InboxPhase::Offered, progressed }, InboxAct::Flush)
        },
        InboxPhase::Offered => if moved is Err {
            (pump, InboxAct::Close)
        } else if left {
            (InboxPump { phase: pump.phase, progressed }, InboxAct::Done { progressed: true })
        } else {
            (InboxPump { phase: InboxPhase::Acks, progressed }, InboxAct::ReadAcks)
        },
        InboxPhase::Acks => (
            InboxPump {
                phase: InboxPhase::Answers {
                    read: moved matches Ok(m) && m,
                    read_ok: moved is Ok,
                },
                progressed: pump.progressed,
            },
            InboxAct::Flush,
        ),
        InboxPhase::Answers { read, read_ok } => if moved is Err || !read_ok {
            (pump, InboxAct::Close)
        } else {
            (
                InboxPump { phase: pump.phase, progressed: progressed || read },
                InboxAct::Done { progressed: progressed || read },
            )
        },
    }
}

/// What follows one part of a pass. The answers to acknowledgements go out even
/// when the read that brought them failed.
pub fn pump_inbox(pump: &mut InboxPump, moved: Result<bool, ()>, left: bool) -> (act: InboxAct)
    ensures
        (*final(pump), act) == pumped(*old(pump), moved, left),
{
    let failed = moved.is_err();
    let did = match moved {
        Ok(did) => did,
        Err(_) => false,
    };
    let progressed = pump.progressed || did;
    let phase = pump.phase;
    match phase {
        InboxPhase::Rest => {
            if failed {
                return InboxAct::Close;
            }
            if left {
                *pump = InboxPump { phase, progressed };
                return InboxAct::Done { progressed };
            }
            *pump = InboxPump { phase: InboxPhase::Offer, progressed };
            InboxAct::Offer
        },
        InboxPhase::Offer => {
            if failed {
                return InboxAct::Close;
            }
            *pump = InboxPump { phase: InboxPhase::Offered, progressed };
            InboxAct::Flush
        },
        InboxPhase::Offered => {
            if failed {
                return InboxAct::Close;
            }
            if left {
                *pump = InboxPump { phase, progressed };
                return InboxAct::Done { progressed: true };
            }
            *pump = InboxPump { phase: InboxPhase::Acks, progressed };
            InboxAct::ReadAcks
        },
        InboxPhase::Acks => {
            let kept = pump.progressed;
            *pump =
            InboxPump {
                phase: InboxPhase::Answers { read: did, read_ok: !failed },
                progressed: kept,
            };
            InboxAct::Flush
        },
        InboxPhase::Answers { read, read_ok } => {
            if failed || !read_ok {
                return InboxAct::Close;
            }
            *pump = InboxPump { phase, progressed: progressed || read };
            InboxAct::Done { progressed: progressed || read }
        },
    }
}

/// Acknowledgements are read only once everything that was offered has gone out, and
/// what was buffered because of them is written before the pass ends.
pub proof fn law_offers_go_out_before_acks(pump: InboxPump, moved: Result<bool, ()>, left: bool)
    ensures
        pumped(pump, moved, left).1 is ReadAcks ==> !left && moved is Ok,
        pump.phase is Acks ==> pumped(pump, moved, left).1 is Flush,
{
}

/// What one write of buffered bytes gave.
#[derive(Debug, Clone, Copy, PartialEq, Eq, Structural)]
pub enum WriteProgress {
    /// That many of them went out.
    Wrote(usize),
    /// None can go out now.
    WouldBlock,
    /// The connection failed.
    Failed,
}

/// What follows one write.
#[derive(Debug, Clone, Copy, PartialEq, Eq, Structural)]
pub enum FlushStep {
    /// More is to be written.
    Again,
    /// Nothing is left, or nothing more goes out now.
    Stop,
    /// The connection is over.
    Close,
}

/// Take what went out off the buffer. A write that takes nothing ends the
/// connection, as does one that fails.
pub fn wrote(buffered: &mut Vec<u8>, progress: WriteProgress) -> (step: FlushStep)
    requires
        progress matches WriteProgress::Wrote(n) ==> n <= old(buffered)@.len(),
    ensures
        final(buffered)@ == match progress {
            WriteProgress::Wrote(n) => old(buffered)@.skip(n as int),
            _ => old(buffered)@,
        },
        step == match progress {
            WriteProgress::Wrote(n) => if n == 0 {
                FlushStep::Close
            } else if n == old(buffered)@.len() {
                FlushStep::Stop
            } else {
                FlushStep::Again
            },
            WriteProgress::WouldBlock => FlushStep::Stop,
            WriteProgress::Failed => FlushStep::Close,
        },
{
    match progress {
        WriteProgress::WouldBlock => FlushStep::Stop,
        WriteProgress::Failed => FlushStep::Close,
        WriteProgress::Wrote(n) => {
            let length: usize = buffered.len();
            let mut rest: Vec<u8> = Vec::new();
            let mut i: usize = n;
            while i < length
                invariant
                    n <= i <= length,
                    length == buffered@.len(),
                    rest@ == buffered@.subrange(n as int, i as int),
                decreases length - i,
            {
                rest.push(buffered[i]);
                assert(buffered@.subrange(n as int, i as int + 1) =~= buffered@.subrange(
                    n as int,
                    i as int,
                ).push(buffered@[i as int]));
                i = i + 1;
            }
            assert(rest@ =~= buffered@.skip(n as int));
            *buffered = rest;
            if n == 0 {
                assert(old(buffered)@.skip(0) =~= old(buffered)@);
                FlushStep::Close
            } else if n == length {
                FlushStep::Stop
            } else {
                FlushStep::Again
            }
        },
    }
}

/// The deliveries of a queue that were not offered yet.
pub open spec fn fresh_offers(queued: Seq<InboxDelivery>, offered: Set<u128>) -> Seq<InboxDelivery>
    decreases queued.len(),
{
    if queued.len() == 0 {
        Seq::empty()
    } else {
        let rest = fresh_offers(queued.drop_last(), offered);
        if after_offers(queued.drop_last(), offered).contains(queued.last().message_id.value) {
            rest
        } else {
            rest.push(queued.last())
        }
    }
}

/// What is offered once a queue was gone through.
pub open spec fn after_offers(queued: Seq<InboxDelivery>, offered: Set<u128>) -> Set<u128>
    decreases queued.len(),
{
    if queued.len() == 0 {
        offered
    } else {
        after_offers(queued.drop_last(), offered).insert(queued.last().message_id.value)
    }
}

/// Whether an event offers a delivery, under some identifier.
pub open spec fn offers(event: JsonView, delivery: InboxDelivery) -> bool {
    exists|n: u128|
        is_time_ordered(n) && event == #[trigger] inbox_event_view(uuid_text(n as nat), delivery)
}

/// Offer what is queued, each under a fresh identifier. What was offered on this
/// connection already is not offered again.
pub fn offer_queued_inbox(offered: &mut Inflight, queued: &Vec<InboxDelivery>) -> (events: Vec<
    Json,
>)
    ensures
        final(offered)@ == after_offers(queued@, old(offered)@),
        events@.len() == fresh_offers(queued@, old(offered)@).len(),
        forall|i: int|
            0 <= i < events@.len() ==> offers(
                (#[trigger] events@[i])@,
                fresh_offers(queued@, old(offered)@)[i],
            ),
{
    let ghost start = offered@;
    let mut events: Vec<Json> = Vec::new();
    let mut i: usize = 0;
    assert(queued@.take(0) =~= Seq::<InboxDelivery>::empty());
    while i < queued.len()
        invariant
            i <= queued@.len(),
            offered@ == after_offers(queued@.take(i as int), start),
            events@.len() == fresh_offers(queued@.take(i as int), start).len(),
            forall|j: int|
                0 <= j < events@.len() ==> offers(
                    (#[trigger] events@[j])@,
                    fresh_offers(queued@.take(i as int), start)[j],
                ),
        decreases queued@.len() - i,
    {
        let delivery = &queued[i];
        assert(queued@.take(i as int + 1).drop_last() =~= queued@.take(i as int));
        if offered.insert(delivery.message_id.value) {
            let id = fresh_id_text();
            let ghost n = choose|n: u128| id@ == #[trigger] uuid_text(n as nat);
            let event = inbox_event(id.as_str(), delivery);
            assert(event@ == inbox_event_view(uuid_text(n as nat), *delivery));
            assert(offers(event@, *delivery));
            events.push(event);
        }
        i = i + 1;
    }
    assert(queued@.take(queued@.len() as int) =~= queued@);
    events
}

/// On one connection no delivery is offered twice.
pub proof fn law_delivery_is_offered_once(
    first: Seq<InboxDelivery>,
    second: Seq<InboxDelivery>,
    offered: Set<u128>,
)
    ensures
        forall|i: int, j: int|
            0 <= i < fresh_offers(first, offered).len() && 0 <= j < fresh_offers(
                second,
                after_offers(first, offered),
            ).len() ==> (#[trigger] fresh_offers(first, offered)[i]).message_id.value != (
            #[trigger] fresh_offers(second, after_offers(first, offered))[j]).message_id.value,
        forall|i: int, j: int|
            0 <= i < j < fresh_offers(first, offered).len() ==> (#[trigger] fresh_offers(
                first,
                offered,
            )[i]).message_id.value != (#[trigger] fresh_offers(first, offered)[j]).message_id.value,
{
    lemma_offers_are_fresh(first, offered);
    lemma_offers_are_fresh(second, after_offers(first, offered));
}

proof fn lemma_offers_are_fresh(queued: Seq<InboxDelivery>, offered: Set<u128>)
    ensures
        forall|i: int|
            0 <= i < fresh_offers(queued, offered).len() ==> {
                let id = (#[trigger] fresh_offers(queued, offered)[i]).message_id.value;
                !offered.contains(id) && after_offers(queued, offered).contains(id)
            },
        forall|i: int, j: int|
            0 <= i < j < fresh_offers(queued, offered).len() ==> (#[trigger] fresh_offers(
                queued,
                offered,
            )[i]).message_id.value != (#[trigger] fresh_offers(queued, offered)[j]).message_id.value,
        offered.subset_of(after_offers(queued, offered)),
    decreases queued.len(),
{
    if queued.len() > 0 {
        let rest = queued.drop_last();
        lemma_offers_are_fresh(rest, offered);
        let before = fresh_offers(rest, offered);
        let now = fresh_offers(queued, offered);
        assert forall|i: int| 0 <= i < now.len() implies {
            let id = (#[trigger] now[i]).message_id.value;
            !offered.contains(id) && after_offers(queued, offered).contains(id)
        } by {
            if i < before.len() {
                assert(now[i] == before[i]);
            }
        }
        assert forall|i: int, j: int| 0 <= i < j < now.len() implies (
        #[trigger] now[i]).message_id.value != (#[trigger] now[j]).message_id.value by {
            assert(now[i] == before[i]);
            if j < before.len() {
                assert(now[j] == before[j]);
            }
        }
    }
}

/// What the failure to look the queue up ends the connection with.
pub fn queue_failed(error: &StoreError) -> (reason: String)
    ensures
        reason@ == "queued socket inbox failed: "@ + error.text(),
{
    "queued socket inbox failed: ".to_owned().concat(error.message().as_str())
}

/// All whole lines of some bytes, each with the newline that ends it, and what is
/// left.
pub open spec fn lines_of(bytes: Seq<u8>) -> (Seq<Seq<u8>>, Seq<u8>)
    decreases bytes.len(),
{
    proof {
        lemma_newline_at(bytes);
    }
    match newline_at(bytes) {
        None => (Seq::empty(), bytes),
        Some(at) => {
            let after = lines_of(bytes.skip(at + 1));
            (seq![bytes.take(at + 1)] + after.0, after.1)
        },
    }
}

/// Take all whole lines off some bytes.
pub fn take_lines(bytes: &mut Vec<u8>) -> (lines: Vec<Vec<u8>>)
    ensures
        lines@.map_values(|line: Vec<u8>| line@) == lines_of(old(bytes)@).0,
        final(bytes)@ == lines_of(old(bytes)@).1,
{
    let ghost all = bytes@;
    let mut lines: Vec<Vec<u8>> = Vec::new();
    assert(lines@.map_values(|line: Vec<u8>| line@) =~= Seq::<Seq<u8>>::empty());
    assert(Seq::<Seq<u8>>::empty() + lines_of(all).0 =~= lines_of(all).0);
    loop
        invariant
            lines@.map_values(|line: Vec<u8>| line@) + lines_of(bytes@).0 == lines_of(all).0,
            lines_of(bytes@).1 == lines_of(all).1,
        ensures
            newline_at(bytes@) is None,
        decreases bytes@.len(),
    {
        let ghost before = bytes@;
        let ghost taken = lines@;
        proof {
            lemma_newline_at(before);
        }
        match take_line(bytes) {
            None => {
                break;
            },
            Some(line) => {
                let ghost text = line@;
                lines.push(line);
                proof {
                    assert(lines@.map_values(|line: Vec<u8>| line@) =~= taken.map_values(
                        |line: Vec<u8>| line@,
                    ).push(text));
                    assert(lines@.map_values(|line: Vec<u8>| line@) + lines_of(bytes@).0
                        =~= taken.map_values(|line: Vec<u8>| line@) + lines_of(before).0);
                }
            },
        }
    }
    assert(lines@.map_values(|line: Vec<u8>| line@) + lines_of(bytes@).0 =~= lines@.map_values(
        |line: Vec<u8>| line@,
    ));
    lines
}

/// All of some lines, one after another.
pub open spec fn joined(lines: Seq<Seq<u8>>) -> Seq<u8>
    decreases lines.len(),
{
    if lines.len() == 0 {
        Seq::empty()
    } else {
        lines[0] + joined(lines.skip(1))
    }
}

/// Taking lines loses nothing, and what is left holds no whole line.
pub proof fn law_lines_lose_nothing(bytes: Seq<u8>)
    ensures
        joined(lines_of(bytes).0) + lines_of(bytes).1 == bytes,
        !lines_of(bytes).1.contains(10u8),
    decreases bytes.len(),
{
    lemma_newline_at(bytes);
    match newline_at(bytes) {
        None => {
            assert(joined(lines_of(bytes).0) + lines_of(bytes).1 =~= bytes);
        },
        Some(at) => {
            let rest = bytes.skip(at + 1);
            law_lines_lose_nothing(rest);
            let lines = lines_of(bytes).0;
            assert(lines[0] == bytes.take(at + 1));
            assert(lines.skip(1) =~= lines_of(rest).0);
            assert(joined(lines) + lines_of(bytes).1 =~= bytes.take(at + 1) + (joined(
                lines_of(rest).0,
            ) + lines_of(rest).1));
            assert(bytes.take(at + 1) + rest =~= bytes);
        },
    }
}

/// The request on a line of an inbox connection, without the white space round it.
/// A blank line holds none.
pub fn inbox_text(line: &str) -> (text: Option<String>)
    ensures
        match text {
            Some(text) => text@ == trimmed(line@) && text@.len() > 0,
            None => trimmed(line@).len() == 0,
        },
{
    let text = trim(line);
    if crate::text::chars_of(text.as_str()).len() == 0 {
        None
    } else {
        Some(text)
    }
}

/// What a line of an inbox connection leads to.
#[derive(Debug, PartialEq, Eq)]
pub enum InboxLine {
    /// Acknowledge a delivery.
    Ack(ClientRequest),
    /// Answer with that.
    Answer(ClientResponse),
}

/// What a line of an inbox connection leads to: such a connection takes
/// acknowledgements and nothing else.
pub fn inbox_line(parsed: Result<ClientRequest, String>) -> (line: InboxLine)
    ensures
        match parsed {
            Ok(request) => if request.method@ == "inbox.ack"@ {
                line == InboxLine::Ack(request)
            } else {
                line matches InboxLine::Answer(response) && exists|error: SliceError|
                    is_invalid(error, "inbox connection accepts only inbox.ack"@) && response@
                        == #[trigger] answer_view(request.id@, Err(error))
            },
            Err(reason) => line matches InboxLine::Answer(response) && response@ == malformed_view(
                reason@,
            ),
        },
{
    match parsed {
        Ok(request) => if same(request.method.as_str(), "inbox.ack") {
            InboxLine::Ack(request)
        } else {
            let error = invalid("inbox connection accepts only inbox.ack");
            let ghost told = error;
            let response = respond(request.id.as_str(), Err(error));
            assert(response@ == answer_view(request.id@, Err(told)));
            InboxLine::Answer(response)
        },
        Err(reason) => InboxLine::Answer(malformed(reason.as_str())),
    }
}

/// What an acknowledgement is answered as.
pub open spec fn acked_view(
    message_id: MessageId,
    outcome: Result<DeliveryOutcome, StoreError>,
) -> Result<JsonView, SliceError> {
    match outcome {
        Ok(outcome) => Ok(inbox_acked_view(message_id, outcome)),
        Err(error) => Err(SliceError::Store(error)),
    }
}

/// Answer an acknowledgement. Tells whether anything moved.
pub fn answer_ack(
    request_id: &str,
    message_id: MessageId,
    outcome: Result<DeliveryOutcome, StoreError>,
) -> (r: (ClientResponse, bool))
    ensures
        r.0@ == answer_view(request_id@, acked_view(message_id, outcome)),
        r.1 == (outcome is Ok),
{
    match outcome {
        Ok(outcome) => (respond(request_id, Ok(inbox_acked(message_id, outcome))), true),
        Err(error) => (respond(request_id, Err(SliceError::Store(error))), false),
    }
}

/// How the read of acknowledgements ends: the end of the connection is told after
/// the last of its lines.
pub fn acks_read(ended: bool, progressed: bool) -> (moved: Result<bool, ()>)
    ensures
        moved == if ended {
            Err::<bool, ()>(())
        } else {
            Ok(progressed)
        },
{
    if ended {
        Err(())
    } else {
        Ok(progressed)
    }
}

} // verus!
