//! One pass of the daemon's loop: whether it has more to do, and how much it takes
//! on.

use vstd::prelude::*;

use super::{MAX_ACCEPTS_PER_POLL, SLOW_POLL_MS};

verus! {

/// The parts of one pass, in their order.
#[derive(Debug, Clone, Copy, PartialEq, Eq, Structural)]
pub enum Phase {
    /// Take what the workers told.
    HerdrEvents,
    /// Begin what came due.
    DueDeliveries,
    /// Drive the opens of parked prompts.
    DueOpens,
    /// Look whether reminders are due.
    DueReminders,
    /// Park the renews that came due.
    DriveRenews,
    /// Advance parked renews.
    AwaitingRenews,
    /// Drive the opens of parked renews.
    RenewHerdr,
    /// Advance parked starts.
    AwaitingStarts,
    /// Advance parked clears.
    AwaitingClears,
    /// Drive the opens of parked clears.
    ClearHerdr,
    /// Pump the inboxes of socket waiters.
    Inboxes,
    /// Read from clients without a complete line.
    Reading,
    /// Accept the clients that wait.
    Accept,
    /// Read from those that were accepted.
    ReadingAfterAccept,
}

impl Phase {
    /// The place of a part in its pass.
    pub open spec fn place(self) -> int {
        match self {
            Phase::HerdrEvents => 0,
            Phase::DueDeliveries => 1,
            Phase::DueOpens => 2,
            Phase::DueReminders => 3,
            Phase::DriveRenews => 4,
            Phase::AwaitingRenews => 5,
            Phase::RenewHerdr => 6,
            Phase::AwaitingStarts => 7,
            Phase::AwaitingClears => 8,
            Phase::ClearHerdr => 9,
            Phase::Inboxes => 10,
            Phase::Reading => 11,
            Phase::Accept => 12,
            Phase::ReadingAfterAccept => 13,
        }
    }

    /// The name that a part is logged under.
    pub open spec fn name(self) -> Seq<char> {
        match self {
            Phase::HerdrEvents => "herdr_events"@,
            Phase::DueDeliveries => "due_deliveries"@,
            Phase::DueOpens => "due_opens"@,
            Phase::DueReminders => "due_reminders"@,
            Phase::DriveRenews => "drive_renews"@,
            Phase::AwaitingRenews => "awaiting_renews"@,
            Phase::RenewHerdr => "renew_herdr"@,
            Phase::AwaitingStarts => "awaiting_starts"@,
            Phase::AwaitingClears => "awaiting_clears"@,
            Phase::ClearHerdr => "clear_herdr"@,
            Phase::Inboxes => "inboxes"@,
            Phase::Reading => "reading"@,
            Phase::Accept => "accept"@,
            Phase::ReadingAfterAccept => "reading_after_accept"@,
        }
    }

    /// The name that a part is logged under.
    pub fn label(&self) -> (label: &'static str)
        ensures
            label@ == self.name(),
    {
        match self {
            Phase::HerdrEvents => "herdr_events",
            Phase::DueDeliveries => "due_deliveries",
            Phase::DueOpens => "due_opens",
            Phase::DueReminders => "due_reminders",
            Phase::DriveRenews => "drive_renews",
            Phase::AwaitingRenews => "awaiting_renews",
            Phase::RenewHerdr => "renew_herdr",
            Phase::AwaitingStarts => "awaiting_starts",
            Phase::AwaitingClears => "awaiting_clears",
            Phase::ClearHerdr => "clear_herdr",
            Phase::Inboxes => "inboxes",
            Phase::Reading => "reading",
            Phase::Accept => "accept",
            Phase::ReadingAfterAccept => "reading_after_accept",
        }
    }

    /// The part that follows another, until the pass is over.
    pub fn next(self) -> (next: Option<Phase>)
        ensures
            match next {
                Some(next) => next.place() == self.place() + 1,
                None => self.place() + 1 == PHASES,
            },
    {
        match self {
            Phase::HerdrEvents => Some(Phase::DueDeliveries),
            Phase::DueDeliveries => Some(Phase::DueOpens),
            Phase::DueOpens => Some(Phase::DueReminders),
            Phase::DueReminders => Some(Phase::DriveRenews),
            Phase::DriveRenews => Some(Phase::AwaitingRenews),
            Phase::AwaitingRenews => Some(Phase::RenewHerdr),
            Phase::RenewHerdr => Some(Phase::AwaitingStarts),
            Phase::AwaitingStarts => Some(Phase::AwaitingClears),
            Phase::AwaitingClears => Some(Phase::ClearHerdr),
            Phase::ClearHerdr => Some(Phase::Inboxes),
            Phase::Inboxes => Some(Phase::Reading),
            Phase::Reading => Some(Phase::Accept),
            Phase::Accept => Some(Phase::ReadingAfterAccept),
            Phase::ReadingAfterAccept => None,
        }
    }
}

/// How many parts a pass has.
pub const PHASES: usize = 14;

/// The part that a pass begins with: what came in is looked at before anything is
/// decided.
pub fn first_phase() -> (phase: Phase)
    ensures
        phase.place() == 0,
{
    Phase::HerdrEvents
}

/// A part is known by its place.
pub proof fn law_parts_come_in_one_order(a: Phase, b: Phase)
    ensures
        0 <= a.place() < PHASES,
        a.place() == b.place() ==> a == b,
{
}

/// What moved in one pass.
#[derive(Debug, Clone, Copy, PartialEq, Eq, Structural)]
pub struct PollMoves {
    pub starts: bool,
    pub clears: bool,
    pub inboxes: bool,
    pub reading: bool,
    pub reading_after_accept: bool,
    pub renews_parked: bool,
    pub renews_advanced: bool,
    pub accepted: bool,
}

impl PollMoves {
    /// Nothing has moved yet.
    pub open spec fn none() -> PollMoves {
        PollMoves {
            starts: false,
            clears: false,
            inboxes: false,
            reading: false,
            reading_after_accept: false,
            renews_parked: false,
            renews_advanced: false,
            accepted: false,
        }
    }

    /// The moves of a pass in which a part moved something. Some parts leave what they
    /// move parked, where it is counted.
    pub open spec fn with_move(self, phase: Phase) -> PollMoves {
        match phase {
            Phase::DriveRenews => PollMoves { renews_parked: true, ..self },
            Phase::AwaitingRenews => PollMoves { renews_advanced: true, ..self },
            Phase::AwaitingStarts => PollMoves { starts: true, ..self },
            Phase::AwaitingClears => PollMoves { clears: true, ..self },
            Phase::Inboxes => PollMoves { inboxes: true, ..self },
            Phase::Reading => PollMoves { reading: true, ..self },
            Phase::Accept => PollMoves { accepted: true, ..self },
            Phase::ReadingAfterAccept => PollMoves { reading_after_accept: true, ..self },
            _ => self,
        }
    }

    /// A pass in which nothing has moved yet.
    pub fn new() -> (moves: PollMoves)
        ensures
            moves == PollMoves::none(),
    {
        PollMoves {
            starts: false,
            clears: false,
            inboxes: false,
            reading: false,
            reading_after_accept: false,
            renews_parked: false,
            renews_advanced: false,
            accepted: false,
        }
    }

    /// Note whether a part moved anything.
    pub fn note(&mut self, phase: Phase, progressed: bool)
        ensures
            *final(self) == if progressed {
                old(self).with_move(phase)
            } else {
                *old(self)
            },
    {
        if progressed {
            match phase {
                Phase::DriveRenews => self.renews_parked = true,
                Phase::AwaitingRenews => self.renews_advanced = true,
                Phase::AwaitingStarts => self.starts = true,
                Phase::AwaitingClears => self.clears = true,
                Phase::Inboxes => self.inboxes = true,
                Phase::Reading => self.reading = true,
                Phase::Accept => self.accepted = true,
                Phase::ReadingAfterAccept => self.reading_after_accept = true,
                _ => {},
            }
        }
    }
}

/// How much is parked after a pass.
#[derive(Debug, Clone, Copy, PartialEq, Eq, Structural)]
pub struct PollParked {
    pub starts: usize,
    pub clears: usize,
    pub reading: usize,
    pub prompts: usize,
    pub cancels: usize,
    pub reminder_job: Option<u64>,
    pub reads: usize,
    pub renews: usize,
    pub adopts: usize,
    pub renames: usize,
    pub retires: usize,
}

/// Whether anything moved.
pub open spec fn moved(moves: PollMoves) -> bool {
    moves.starts || moves.clears || moves.inboxes || moves.reading || moves.reading_after_accept
        || moves.renews_parked || moves.renews_advanced || moves.accepted
}

/// Whether anything is parked that a further pass may move. An open inbox is not
/// waited for, nor is the retirement of a socket waiter by itself.
pub open spec fn waits(parked: PollParked) -> bool {
    parked.starts > 0 || parked.clears > 0 || parked.reading > 0 || parked.prompts > 0
        || parked.cancels > 0 || parked.reminder_job is Some || parked.reads > 0 || parked.renews
        > 0 || parked.adopts > 0 || parked.renames > 0 || parked.retires > 0
}

/// Whether the loop goes on without a rest.
pub fn poll_is_busy(moves: PollMoves, parked: PollParked) -> (busy: bool)
    ensures
        busy == (moved(moves) || waits(parked)),
{
    moves.starts || moves.clears || moves.inboxes || moves.reading || moves.reading_after_accept
        || moves.renews_parked || moves.renews_advanced || moves.accepted || parked.starts > 0
        || parked.clears > 0 || parked.reading > 0 || parked.prompts > 0 || parked.cancels > 0
        || parked.reminder_job.is_some() || parked.reads > 0 || parked.renews > 0 || parked.adopts
        > 0 || parked.renames > 0 || parked.retires > 0
}

/// Whether a pass accepts one more client after that many.
pub fn accepts_more(accepted: usize) -> (r: bool)
    ensures
        r == (accepted < MAX_ACCEPTS_PER_POLL),
        r <==> accepted < 16,
{
    accepted < MAX_ACCEPTS_PER_POLL
}

/// Whether a phase or a pass took so long that it is logged.
pub fn is_slow(elapsed_ms: u64) -> (r: bool)
    ensures
        r == (elapsed_ms >= SLOW_POLL_MS),
        r <==> elapsed_ms >= 1_000,
{
    elapsed_ms >= SLOW_POLL_MS
}

} // verus!
