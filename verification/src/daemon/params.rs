//! What the requests of clients carry, and what is decided from it alone or with
//! one look into the store.

use vstd::prelude::*;

use super::errors::{conflict, invalid, is_conflict, is_invalid, SliceError, StoreError};
use super::DEFAULT_REMINDER_INTERVAL_MS;
use crate::domain::{
    DeliveryTransport, IncarnationId, LogicalAgentId, MessageId, Parent, RenewId, RenewTimeout,
    ReplyDisposition,
};

verus! {

#[derive(Debug, PartialEq, Eq)]
pub struct AskParams {
    pub sender: LogicalAgentId,
    pub recipient: Option<LogicalAgentId>,
    pub recipient_incarnation: Option<IncarnationId>,
    /// Resolve the current Ready agent for this public-name alias at send time.
    pub recipient_alias: Option<String>,
    pub body: String,
    pub idempotency_key: String,
    /// Rejected when present. Kept in the shape so an old caller gets a stable
    /// error instead of having its scheduling silently ignored.
    pub due_at_ms: Option<i64>,
    pub remind_after_ms: Option<i64>,
    pub no_remind: bool,
    /// Message-sender attribution only. The waiting agent is still `sender`.
    pub from_operator: bool,
}

#[derive(Debug, PartialEq, Eq)]
pub struct TellParams {
    pub sender: LogicalAgentId,
    pub recipient: Option<LogicalAgentId>,
    pub recipient_incarnation: Option<IncarnationId>,
    /// Resolve the current Ready agent for this public-name alias at send time.
    pub recipient_alias: Option<String>,
    pub body: String,
    pub idempotency_key: String,
    pub due_at_ms: Option<i64>,
}

#[derive(Debug, PartialEq, Eq)]
pub struct ReplyParams {
    pub reply_to: MessageId,
    pub requester_agent_id: LogicalAgentId,
    pub body: String,
    pub disposition: ReplyDisposition,
    pub idempotency_key: String,
}

#[derive(Debug, PartialEq, Eq)]
pub struct ClearParams {
    pub recipient: Option<LogicalAgentId>,
    pub recipient_incarnation: Option<IncarnationId>,
    pub recipient_alias: Option<String>,
    pub idempotency_key: String,
}

#[derive(Debug, PartialEq, Eq)]
pub struct RenewParams {
    pub requester: LogicalAgentId,
    pub recipient: Option<LogicalAgentId>,
    pub recipient_incarnation: Option<IncarnationId>,
    /// Delivered as an ask; its final reply is the ready signal.
    pub prepare_prompt: String,
    /// Injected after the clear. With `every_ms` this runs on every cycle for the
    /// life of the agent, so it must be reentrant.
    pub prompt: String,
    /// Required. There is no safe default disposition for a prepare timeout.
    pub on_timeout: RenewTimeout,
    pub prepare_timeout_ms: i64,
    pub every_ms: Option<i64>,
    pub due_at_ms: Option<i64>,
}

#[derive(Debug, PartialEq, Eq)]
pub struct RenewCancelParams {
    pub renew_id: RenewId,
    /// The agent asking. Must be the policy's requester or its target.
    pub requester_agent_id: LogicalAgentId,
    pub reason: String,
}

#[derive(Debug, PartialEq, Eq)]
pub struct WhoamiParams {
    pub pane_id: Option<String>,
    pub alias: Option<String>,
    pub lazy_adopt_key: Option<String>,
}

/// Unified identity selector used by `who` and `attribution`.
#[derive(Debug, PartialEq, Eq)]
pub struct WhoParams {
    pub incarnation_id: Option<IncarnationId>,
    pub agent_id: Option<LogicalAgentId>,
    pub alias: Option<String>,
    pub pane_id: Option<String>,
    pub history: bool,
    pub refresh: bool,
    pub lazy_adopt_key: Option<String>,
}

/// Name one agent by id or live alias, and the name it should answer to.
#[derive(Debug, PartialEq, Eq)]
pub struct RenameParams {
    pub agent_id: Option<LogicalAgentId>,
    pub alias: Option<String>,
    pub name: String,
}

#[derive(Debug, Clone, Copy, PartialEq, Eq, Structural)]
pub struct ReportParams {
    /// Attach Herdr's current agent status, taken at report time.
    pub live: bool,
    /// Keep only agents that still exist, plus the lineage that explains them.
    pub active: bool,
}

#[derive(Debug, PartialEq, Eq)]
pub struct RetireParams {
    pub incarnation_id: IncarnationId,
    pub idempotency_key: String,
    /// Release the pane too. Opt-in, because it ends a live process.
    pub close_pane: bool,
}

#[derive(Debug, PartialEq, Eq)]
pub struct WaiterRegisterParams {
    pub public_name: String,
    pub parent: Parent,
    pub idempotency_key: String,
}

#[derive(Debug, PartialEq, Eq)]
pub struct WaiterRetireParams {
    pub logical_agent_id: Option<LogicalAgentId>,
    pub alias: Option<String>,
}

#[derive(Debug, PartialEq, Eq)]
pub struct CancelParams {
    pub requester_agent_id: LogicalAgentId,
    pub ask_message_id: MessageId,
    pub reason: String,
}

#[derive(Debug, Clone, Copy, PartialEq, Eq, Structural)]
pub struct ReminderSnoozeParams {
    pub requester_agent_id: LogicalAgentId,
    pub ask_message_id: MessageId,
    pub until_ms: i64,
}

#[derive(Debug, Clone, Copy, PartialEq, Eq, Structural)]
pub struct ReminderDisableParams {
    pub requester_agent_id: LogicalAgentId,
    pub ask_message_id: MessageId,
}

/// Whether an outcome is that value, or a refusal with that text.
pub open spec fn valid_or_refused<T>(
    r: Result<T, SliceError>,
    meant: Result<T, Seq<char>>,
) -> bool {
    match (r, meant) {
        (Ok(value), Ok(meant)) => value == meant,
        (Err(error), Err(text)) => is_invalid(error, text),
        _ => false,
    }
}

/// How often the recipient of an ask is reminded of it: never where reminders are
/// off, and every five minutes where nothing is said.
pub open spec fn reminder_of(params: AskParams) -> Result<Option<i64>, Seq<char>> {
    if params.no_remind && params.remind_after_ms is Some {
        Err("ask accepts only one of remind_after_ms or no_remind"@)
    } else if params.no_remind {
        Ok(None)
    } else {
        match params.remind_after_ms {
            Some(interval) => Ok(Some(interval)),
            None => Ok(Some(DEFAULT_REMINDER_INTERVAL_MS)),
        }
    }
}

/// How often the recipient of an ask is reminded of it.
pub fn ask_reminder_interval(params: &AskParams) -> (r: Result<Option<i64>, SliceError>)
    ensures
        valid_or_refused(r, reminder_of(*params)),
{
    if params.no_remind && params.remind_after_ms.is_some() {
        return Err(invalid("ask accepts only one of remind_after_ms or no_remind"));
    }
    if params.no_remind {
        Ok(None)
    } else {
        match params.remind_after_ms {
            Some(interval) => Ok(Some(interval)),
            None => Ok(Some(DEFAULT_REMINDER_INTERVAL_MS)),
        }
    }
}

/// What is said of an ask that should be delivered later.
pub open spec fn postponed_ask_refusal() -> Seq<char> {
    "ask does not accept due_at_ms: an ask is delivered now. Use remind_after_ms for an unanswered ask, or tell for a message that should arrive later"@
}

/// Check an ask before anybody is looked up for it, and tell how often its
/// recipient is reminded.
///
/// A postponed ask creates an obligation the recipient cannot see: owed on the
/// server, absent from their pane, and indistinguishable from a delivered ask
/// nobody answered. It is refused rather than accepted as a request whose two
/// halves disagree about when the work was requested.
pub fn check_ask(params: &AskParams) -> (r: Result<Option<i64>, SliceError>)
    ensures
        valid_or_refused(
            r,
            if params.due_at_ms is Some {
                Err(postponed_ask_refusal())
            } else {
                reminder_of(*params)
            },
        ),
{
    if params.due_at_ms.is_some() {
        return Err(
            invalid(
                "ask does not accept due_at_ms: an ask is delivered now. Use remind_after_ms for an unanswered ask, or tell for a message that should arrive later",
            ),
        );
    }
    ask_reminder_interval(params)
}

/// When the first cycle of a renew comes due.
pub open spec fn first_cycle_of(due_at_ms: Option<i64>, every_ms: Option<i64>, now_ms: i64) -> int {
    match (due_at_ms, every_ms) {
        (Some(due_at_ms), _) => due_at_ms as int,
        (None, Some(every_ms)) => if now_ms + every_ms > i64::MAX {
            i64::MAX as int
        } else if now_ms + every_ms < i64::MIN {
            i64::MIN as int
        } else {
            now_ms + every_ms
        },
        (None, None) => now_ms as int,
    }
}

/// When the first cycle of a renew comes due.
///
/// An explicit due time is obeyed. Otherwise `--every 45m` means the first cycle
/// is 45 minutes of observed occupancy away, not now: an agent arms a policy once
/// it has read itself in, so clearing on arming would discard exactly the context
/// that was just paid for and re-read it a minute later. A one-shot with no due
/// time is a request to renew now, and stays that way.
pub fn first_cycle_at_ms(due_at_ms: Option<i64>, every_ms: Option<i64>, now_ms: i64) -> (at: i64)
    ensures
        at == first_cycle_of(due_at_ms, every_ms, now_ms),
{
    match (due_at_ms, every_ms) {
        (Some(due_at_ms), _) => due_at_ms,
        (None, Some(every_ms)) => match now_ms.checked_add(every_ms) {
            Some(at) => at,
            None => if every_ms > 0 {
                i64::MAX
            } else {
                i64::MIN
            },
        },
        (None, None) => now_ms,
    }
}

/// What is said of a renew that names nobody exactly.
pub open spec fn inexact_renew_refusal() -> Seq<char> {
    "renew requires recipient and recipient_incarnation; it does not resolve an alias, because a policy aimed at the wrong agent clears its conversation every cycle"@
}

/// What is said of a renew that is both a one-shot and a cycle.
pub open spec fn doubled_renew_refusal() -> Seq<char> {
    "renew accepts either a one-shot due time or every_ms, not both: every_ms re-arms itself after each cycle"@
}

/// Whom a renew is for, and when its first cycle comes due.
pub open spec fn renew_of(params: RenewParams, now_ms: i64) -> Result<
    (LogicalAgentId, IncarnationId, i64),
    Seq<char>,
> {
    match (params.recipient, params.recipient_incarnation) {
        (Some(recipient), Some(incarnation)) => if params.every_ms is Some
            && params.due_at_ms is Some {
            Err(doubled_renew_refusal())
        } else {
            Ok(
                (
                    recipient,
                    incarnation,
                    first_cycle_of(params.due_at_ms, params.every_ms, now_ms) as i64,
                ),
            )
        },
        _ => Err(inexact_renew_refusal()),
    }
}

/// Check a renew: whom it is for, and when its first cycle comes due.
///
/// Exact IDs only. Every other operation may take an alias because the worst an
/// alias costs them is one misdelivered message; a renew aimed at the wrong agent
/// clears its conversation once a cycle and cannot be undone from the outside, so
/// the target is never resolved from a live name here.
pub fn check_renew(params: &RenewParams, now_ms: i64) -> (r: Result<
    (LogicalAgentId, IncarnationId, i64),
    SliceError,
>)
    ensures
        valid_or_refused(r, renew_of(*params, now_ms)),
{
    match (params.recipient, params.recipient_incarnation) {
        (Some(recipient), Some(incarnation)) => {
            if params.every_ms.is_some() && params.due_at_ms.is_some() {
                return Err(
                    invalid(
                        "renew accepts either a one-shot due time or every_ms, not both: every_ms re-arms itself after each cycle",
                    ),
                );
            }
            let at: i64 = first_cycle_at_ms(params.due_at_ms, params.every_ms, now_ms);
            Ok((recipient, incarnation, at))
        },
        _ => Err(
            invalid(
                "renew requires recipient and recipient_incarnation; it does not resolve an alias, because a policy aimed at the wrong agent clears its conversation every cycle",
            ),
        ),
    }
}

/// The two ways to name a recipient.
#[derive(Debug, PartialEq, Eq)]
pub enum RecipientForm<'a> {
    Exact(LogicalAgentId, IncarnationId),
    Alias(&'a String),
}

/// What is said of a recipient that is named neither way, or both ways.
pub open spec fn recipient_refusal() -> Seq<char> {
    "provide either exact recipient and recipient_incarnation, or recipient_alias"@
}

/// Which of the two ways names a recipient.
pub fn recipient_form<'a>(
    recipient: Option<LogicalAgentId>,
    recipient_incarnation: Option<IncarnationId>,
    recipient_alias: &'a Option<String>,
) -> (r: Result<RecipientForm<'a>, SliceError>)
    ensures
        match (recipient, recipient_incarnation, recipient_alias) {
            (Some(agent), Some(incarnation), None) => r == Ok::<RecipientForm, SliceError>(
                RecipientForm::Exact(agent, incarnation),
            ),
            (None, None, Some(alias)) => r matches Ok(RecipientForm::Alias(name)) && *name == alias,
            _ => r matches Err(error) && is_invalid(error, recipient_refusal()),
        },
{
    match (recipient, recipient_incarnation, recipient_alias) {
        (Some(agent), Some(incarnation), None) => Ok(RecipientForm::Exact(agent, incarnation)),
        (None, None, Some(alias)) => Ok(RecipientForm::Alias(alias)),
        _ => Err(
            invalid(
                "provide either exact recipient and recipient_incarnation, or recipient_alias",
            ),
        ),
    }
}

/// The key under which a recipient that nobody has bound yet is adopted.
pub open spec fn recipient_adopt_key(idempotency_key: Seq<char>) -> Seq<char> {
    idempotency_key + ":lazy-adopt:recipient"@
}

/// The key under which a recipient that nobody has bound yet is adopted.
pub fn adopt_key(idempotency_key: &str) -> (key: String)
    ensures
        key@ == recipient_adopt_key(idempotency_key@),
{
    idempotency_key.to_owned().concat(":lazy-adopt:recipient")
}

/// Where a tell to an alias goes.
#[derive(Debug, Clone, Copy, PartialEq, Eq, Structural)]
pub enum TellRecipient {
    Herdr(LogicalAgentId, IncarnationId),
    SocketInbox(LogicalAgentId),
    /// Nobody holds the alias yet: resolve or adopt it.
    Unbound,
}

/// What is said of an alias that a pane and a socket hold at once.
pub open spec fn doubly_held(alias: Seq<char>) -> Seq<char> {
    "alias "@ + alias
        + " is simultaneously held by a Ready incarnation and an active socket waiter"@
}

fn doubly_held_error(alias: &str) -> (error: SliceError)
    ensures
        is_conflict(error, doubly_held(alias@)),
{
    conflict(
        "alias ".to_owned().concat(alias).concat(
            " is simultaneously held by a Ready incarnation and an active socket waiter",
        ).as_str(),
    )
}

/// Where a tell to an alias goes, from who holds the alias.
pub fn tell_recipient(
    alias: &str,
    ready: Option<(LogicalAgentId, IncarnationId)>,
    waiter: Option<LogicalAgentId>,
) -> (r: Result<TellRecipient, SliceError>)
    ensures
        match (ready, waiter) {
            (Some(_), Some(_)) => r matches Err(error) && is_conflict(error, doubly_held(alias@)),
            (Some((agent, incarnation)), None) => r == Ok::<TellRecipient, SliceError>(
                TellRecipient::Herdr(agent, incarnation),
            ),
            (None, Some(agent)) => r == Ok::<TellRecipient, SliceError>(
                TellRecipient::SocketInbox(agent),
            ),
            (None, None) => r == Ok::<TellRecipient, SliceError>(TellRecipient::Unbound),
        },
{
    match (ready, waiter) {
        (Some(_), Some(_)) => Err(doubly_held_error(alias)),
        (Some((agent, incarnation)), None) => Ok(TellRecipient::Herdr(agent, incarnation)),
        (None, Some(agent)) => Ok(TellRecipient::SocketInbox(agent)),
        (None, None) => Ok(TellRecipient::Unbound),
    }
}

/// What a look at who holds an alias gave.
#[derive(Debug, Clone, Copy, PartialEq, Eq, Structural)]
pub enum Held {
    Yes,
    No,
    /// The look failed.
    Unknown,
}

/// A request that may name its recipient by alias.
#[derive(Debug, PartialEq, Eq)]
pub enum Addressed<'a> {
    Ask(&'a AskParams),
    Tell(&'a TellParams),
    Clear(&'a ClearParams),
}

/// The alias that a request names its recipient by, and its idempotency key. An
/// ask that is going to be refused for its due time binds nothing.
pub open spec fn alias_of(addressed: Addressed) -> Option<(String, String)> {
    match addressed {
        Addressed::Ask(params) => match (
            params.recipient,
            params.recipient_incarnation,
            params.due_at_ms,
            params.recipient_alias,
        ) {
            (None, None, None, Some(alias)) => Some((alias, params.idempotency_key)),
            _ => None,
        },
        Addressed::Tell(params) => match (
            params.recipient,
            params.recipient_incarnation,
            params.recipient_alias,
        ) {
            (None, None, Some(alias)) => Some((alias, params.idempotency_key)),
            _ => None,
        },
        Addressed::Clear(params) => match (
            params.recipient,
            params.recipient_incarnation,
            params.recipient_alias,
        ) {
            (None, None, Some(alias)) => Some((alias, params.idempotency_key)),
            _ => None,
        },
    }
}

/// The alias that a request names its recipient by, and its idempotency key.
pub fn addressed_alias<'a>(addressed: &Addressed<'a>) -> (r: Option<(&'a String, &'a String)>)
    ensures
        match (r, alias_of(*addressed)) {
            (Some((alias, key)), Some((a, k))) => *alias == a && *key == k,
            (None, None) => true,
            _ => false,
        },
{
    match addressed {
        Addressed::Ask(params) => {
            if params.recipient.is_some() || params.recipient_incarnation.is_some()
                || params.due_at_ms.is_some() {
                return None;
            }
            match &params.recipient_alias {
                Some(alias) => Some((alias, &params.idempotency_key)),
                None => None,
            }
        },
        Addressed::Tell(params) => {
            if params.recipient.is_some() || params.recipient_incarnation.is_some() {
                return None;
            }
            match &params.recipient_alias {
                Some(alias) => Some((alias, &params.idempotency_key)),
                None => None,
            }
        },
        Addressed::Clear(params) => {
            if params.recipient.is_some() || params.recipient_incarnation.is_some() {
                return None;
            }
            match &params.recipient_alias {
                Some(alias) => Some((alias, &params.idempotency_key)),
                None => None,
            }
        },
    }
}

/// Whether a request has to wait for its alias to be bound: nobody Ready holds it,
/// and it is no tell that goes to a socket.
pub open spec fn waits_for_alias(addressed: Addressed, waiter: Held, ready: Held) -> bool {
    alias_of(addressed) is Some && !(addressed is Tell && waiter == Held::Yes) && ready == Held::No
}

/// The alias that a request has to wait for, with the key under which it would be
/// adopted. `waiter` and `ready` tell who holds the alias.
pub fn pending_alias_bind(addressed: &Addressed, waiter: Held, ready: Held) -> (r: Option<
    (String, String),
>)
    ensures
        match r {
            Some((alias, key)) => waits_for_alias(*addressed, waiter, ready) && (alias_of(
                *addressed,
            ) matches Some((name, own_key)) && alias@ == name@ && key@ == recipient_adopt_key(
                own_key@,
            )),
            None => !waits_for_alias(*addressed, waiter, ready),
        },
{
    match addressed_alias(addressed) {
        None => None,
        Some((alias, key)) => {
            if let Addressed::Tell(_) = addressed {
                if let Held::Yes = waiter {
                    return None;
                }
            }
            match ready {
                Held::No => Some((alias.clone(), adopt_key(key.as_str()))),
                _ => None,
            }
        },
    }
}

/// How many selectors a who names.
pub open spec fn selectors_of(params: WhoParams) -> int {
    (if params.incarnation_id is Some {
        1int
    } else {
        0
    }) + (if params.agent_id is Some {
        1int
    } else {
        0
    }) + (if params.alias is Some {
        1int
    } else {
        0
    }) + (if params.pane_id is Some {
        1int
    } else {
        0
    })
}

/// How many selectors a who names.
pub fn who_selector_count(params: &WhoParams) -> (count: usize)
    ensures
        count == selectors_of(*params),
{
    let a: usize = if params.incarnation_id.is_some() {
        1
    } else {
        0
    };
    let b: usize = if params.agent_id.is_some() {
        1
    } else {
        0
    };
    let c: usize = if params.alias.is_some() {
        1
    } else {
        0
    };
    let d: usize = if params.pane_id.is_some() {
        1
    } else {
        0
    };
    a + b + c + d
}

/// The one thing that names an identity.
#[derive(Debug, PartialEq, Eq)]
pub enum Selector<'a> {
    Incarnation(IncarnationId),
    Agent(LogicalAgentId),
    Alias(&'a String),
    Pane(&'a String),
}

/// What is said of a who that names nothing, or more than one thing.
pub open spec fn selector_refusal() -> Seq<char> {
    "provide exactly one of incarnation_id, agent_id, alias, or pane_id"@
}

/// Whether a selector is the one that is named.
pub open spec fn selects(selector: Selector, params: WhoParams) -> bool {
    match selector {
        Selector::Incarnation(id) => params.incarnation_id == Some(id),
        Selector::Agent(id) => params.agent_id == Some(id),
        Selector::Alias(alias) => params.alias == Some(*alias),
        Selector::Pane(pane) => params.pane_id == Some(*pane),
    }
}

/// The one thing that names an identity.
pub fn selector(params: &WhoParams) -> (r: Result<Selector<'_>, SliceError>)
    ensures
        match r {
            Ok(selector) => selectors_of(*params) == 1 && selects(selector, *params),
            Err(error) => selectors_of(*params) != 1 && is_invalid(error, selector_refusal()),
        },
{
    if who_selector_count(params) != 1 {
        return Err(
            invalid("provide exactly one of incarnation_id, agent_id, alias, or pane_id"),
        );
    }
    if let Some(id) = params.incarnation_id {
        return Ok(Selector::Incarnation(id));
    }
    if let Some(id) = params.agent_id {
        return Ok(Selector::Agent(id));
    }
    if let Some(alias) = &params.alias {
        return Ok(Selector::Alias(alias));
    }
    match &params.pane_id {
        Some(pane) => Ok(Selector::Pane(pane)),
        None => vstd::pervasive::unreached(),
    }
}

/// Who an identity is.
#[derive(Debug, Clone, Copy, PartialEq, Eq, Structural)]
pub enum WhoIdentity {
    Incarnation(IncarnationId),
    SocketWaiter(LogicalAgentId),
}

/// Who an agent is, by how it is reached.
pub fn who_agent(
    agent: LogicalAgentId,
    transport: DeliveryTransport,
    newest: Result<IncarnationId, StoreError>,
) -> (r: Result<WhoIdentity, SliceError>)
    ensures
        r == match (transport, newest) {
            (DeliveryTransport::SocketInbox, _) => Ok::<WhoIdentity, SliceError>(
                WhoIdentity::SocketWaiter(agent),
            ),
            (DeliveryTransport::HerdrPrompt, Ok(id)) => Ok(WhoIdentity::Incarnation(id)),
            (DeliveryTransport::HerdrPrompt, Err(error)) => Err(SliceError::Store(error)),
        },
{
    match (transport, newest) {
        (DeliveryTransport::SocketInbox, _) => Ok(WhoIdentity::SocketWaiter(agent)),
        (DeliveryTransport::HerdrPrompt, Ok(id)) => Ok(WhoIdentity::Incarnation(id)),
        (DeliveryTransport::HerdrPrompt, Err(error)) => Err(SliceError::Store(error)),
    }
}

/// Who holds an alias. Where nobody does, `resolved` is what resolving it gave.
pub fn who_alias(
    alias: &str,
    ready: Option<IncarnationId>,
    waiter: Option<LogicalAgentId>,
    resolved: Result<IncarnationId, StoreError>,
) -> (r: Result<WhoIdentity, SliceError>)
    ensures
        match (ready, waiter) {
            (Some(_), Some(_)) => r matches Err(error) && is_conflict(error, doubly_held(alias@)),
            (Some(id), None) => r == Ok::<WhoIdentity, SliceError>(WhoIdentity::Incarnation(id)),
            (None, Some(agent)) => r == Ok::<WhoIdentity, SliceError>(
                WhoIdentity::SocketWaiter(agent),
            ),
            (None, None) => r == match resolved {
                Ok(id) => Ok::<WhoIdentity, SliceError>(WhoIdentity::Incarnation(id)),
                Err(error) => Err(SliceError::Store(error)),
            },
        },
{
    match (ready, waiter) {
        (Some(_), Some(_)) => Err(doubly_held_error(alias)),
        (Some(id), None) => Ok(WhoIdentity::Incarnation(id)),
        (None, Some(agent)) => Ok(WhoIdentity::SocketWaiter(agent)),
        (None, None) => match resolved {
            Ok(id) => Ok(WhoIdentity::Incarnation(id)),
            Err(error) => Err(SliceError::Store(error)),
        },
    }
}

/// What is said of a pane that no Ready identity holds.
pub open spec fn unknown_pane(pane: Seq<char>) -> Seq<char> {
    "pane "@ + pane
        + " has no Ready Kelpie identity; if it has a live agent, run kelpie who from that pane to adopt it, or use kelpie adopt with its exact pane and terminal"@
}

/// Who is in a pane. A conflict is told in terms of the pane.
pub fn who_pane(pane: &str, identity: Result<IncarnationId, StoreError>) -> (r: Result<
    WhoIdentity,
    SliceError,
>)
    ensures
        match identity {
            Ok(id) => r == Ok::<WhoIdentity, SliceError>(WhoIdentity::Incarnation(id)),
            Err(StoreError::Conflict(_)) => r matches Err(error) && is_conflict(
                error,
                unknown_pane(pane@),
            ),
            Err(other) => r == Err::<WhoIdentity, SliceError>(SliceError::Store(other)),
        },
{
    match identity {
        Ok(id) => Ok(WhoIdentity::Incarnation(id)),
        Err(StoreError::Conflict(_)) => Err(
            conflict(
                "pane ".to_owned().concat(pane).concat(
                    " has no Ready Kelpie identity; if it has a live agent, run kelpie who from that pane to adopt it, or use kelpie adopt with its exact pane and terminal",
                ).as_str(),
            ),
        ),
        Err(other) => Err(SliceError::Store(other)),
    }
}

/// What is said of a history of anything but one alias.
pub open spec fn history_refusal() -> Seq<char> {
    "who history requires exactly one alias and does not accept refresh"@
}

/// The alias whose history a who asks for.
pub fn history_alias(params: &WhoParams) -> (r: Result<&String, SliceError>)
    ensures
        match r {
            Ok(alias) => params.alias == Some(*alias) && params.agent_id is None
                && params.incarnation_id is None && params.pane_id is None && !params.refresh,
            Err(error) => is_invalid(error, history_refusal()) && (params.alias is None
                || params.agent_id is Some || params.incarnation_id is Some
                || params.pane_id is Some || params.refresh),
        },
{
    match (&params.alias, params.agent_id, params.incarnation_id, &params.pane_id, params.refresh) {
        (Some(alias), None, None, None, false) => Ok(alias),
        _ => Err(invalid("who history requires exactly one alias and does not accept refresh")),
    }
}

/// Refuse to refresh what a socket waiter does not have.
pub fn check_refresh(identity: WhoIdentity, refresh: bool) -> (r: Result<(), SliceError>)
    ensures
        match r {
            Ok(()) => !(refresh && identity is SocketWaiter),
            Err(error) => refresh && identity is SocketWaiter && is_invalid(
                error,
                "who --refresh requires an incarnation; socket waiters have no attribution"@,
            ),
        },
{
    if let WhoIdentity::SocketWaiter(_) = identity {
        if refresh {
            return Err(
                invalid(
                    "who --refresh requires an incarnation; socket waiters have no attribution",
                ),
            );
        }
    }
    Ok(())
}

/// Which agent a rename is about, where that needs no look: its ID.
#[derive(Debug, PartialEq, Eq)]
pub enum AgentForm<'a> {
    Id(LogicalAgentId),
    Alias(&'a String),
}

/// Which agent a rename is about.
pub fn rename_target(params: &RenameParams) -> (r: Result<AgentForm<'_>, SliceError>)
    ensures
        match (params.agent_id, params.alias) {
            (Some(id), None) => r == Ok::<AgentForm, SliceError>(AgentForm::Id(id)),
            (None, Some(alias)) => r matches Ok(AgentForm::Alias(name)) && *name == alias,
            _ => r matches Err(error) && is_invalid(
                error,
                "provide exactly one of agent_id or alias"@,
            ),
        },
{
    match (params.agent_id, &params.alias) {
        (Some(id), None) => Ok(AgentForm::Id(id)),
        (None, Some(alias)) => Ok(AgentForm::Alias(alias)),
        _ => Err(invalid("provide exactly one of agent_id or alias")),
    }
}

/// Which socket waiter is to be retired.
pub fn waiter_target(params: &WaiterRetireParams) -> (r: Result<AgentForm<'_>, SliceError>)
    ensures
        match (params.logical_agent_id, params.alias) {
            (Some(id), None) => r == Ok::<AgentForm, SliceError>(AgentForm::Id(id)),
            (None, Some(alias)) => r matches Ok(AgentForm::Alias(name)) && *name == alias,
            _ => r matches Err(error) && is_invalid(
                error,
                "provide exactly one of logical_agent_id or alias"@,
            ),
        },
{
    match (params.logical_agent_id, &params.alias) {
        (Some(id), None) => Ok(AgentForm::Id(id)),
        (None, Some(alias)) => Ok(AgentForm::Alias(alias)),
        _ => Err(invalid("provide exactly one of logical_agent_id or alias")),
    }
}

/// The socket waiter that an alias names, from who holds the alias.
pub fn waiter_for_alias(
    alias: &str,
    ready: Option<(LogicalAgentId, IncarnationId)>,
    waiter: Option<LogicalAgentId>,
) -> (r: Result<LogicalAgentId, SliceError>)
    ensures
        match (ready, waiter) {
            (None, Some(agent)) => r == Ok::<LogicalAgentId, SliceError>(agent),
            (Some(_), Some(_)) => r matches Err(error) && is_conflict(error, doubly_held(alias@)),
            (_, None) => r matches Err(error) && is_conflict(
                error,
                "no unique active socket waiter for alias "@ + alias@,
            ),
        },
{
    match (ready, waiter) {
        (None, Some(agent)) => Ok(agent),
        (Some(_), Some(_)) => Err(doubly_held_error(alias)),
        _ => Err(
            conflict(
                "no unique active socket waiter for alias ".to_owned().concat(alias).as_str(),
            ),
        ),
    }
}

/// The two ways a whoami names its caller.
#[derive(Debug, PartialEq, Eq)]
pub enum WhoamiForm<'a> {
    Pane(&'a String),
    Alias(&'a String),
}

/// How a whoami names its caller.
pub fn whoami_form(params: &WhoamiParams) -> (r: Result<WhoamiForm<'_>, SliceError>)
    ensures
        match (params.pane_id, params.alias) {
            (Some(pane), None) => r matches Ok(WhoamiForm::Pane(name)) && *name == pane,
            (None, Some(alias)) => r matches Ok(WhoamiForm::Alias(name)) && *name == alias,
            _ => r matches Err(error) && is_invalid(error, "provide either pane_id or alias"@),
        },
{
    match (&params.pane_id, &params.alias) {
        (Some(pane), None) => Ok(WhoamiForm::Pane(pane)),
        (None, Some(alias)) => Ok(WhoamiForm::Alias(alias)),
        _ => Err(invalid("provide either pane_id or alias")),
    }
}

/// A renew never resolves a name: it is accepted only with both exact IDs, and
/// then it is for exactly those.
pub proof fn law_renew_is_never_aimed_by_name(params: RenewParams, now_ms: i64)
    ensures
        renew_of(params, now_ms) matches Ok((recipient, incarnation, _)) ==> params.recipient
            == Some(recipient) && params.recipient_incarnation == Some(incarnation),
        params.recipient is None || params.recipient_incarnation is None ==> renew_of(
            params,
            now_ms,
        ) is Err,
{
}

/// A policy waits out its own interval before its first cycle: arming it is not a
/// request to clear right now.
pub proof fn law_policy_waits_out_its_interval(every_ms: i64, now_ms: i64)
    requires
        every_ms > 0,
        now_ms + every_ms <= i64::MAX,
    ensures
        first_cycle_of(None, Some(every_ms), now_ms) == now_ms + every_ms,
        first_cycle_of(None, Some(every_ms), now_ms) > now_ms,
{
}

/// An ask is reminded of as often as was asked for, never where reminders are off, and every five
/// minutes where nothing is said; it cannot be both.
#[verifier::spinoff_prover]
pub proof fn law_reminder_is_what_was_asked_for(params: AskParams)
    ensures
        params.remind_after_ms matches Some(ms) ==> !params.no_remind ==> (reminder_of(
            params,
        ) matches Ok(interval) && interval == Some(ms)),
        params.remind_after_ms is None ==> params.no_remind ==> (reminder_of(params) matches Ok(
            interval,
        ) && interval is None),
        params.remind_after_ms is None ==> !params.no_remind ==> (reminder_of(params) matches Ok(
            interval,
        ) && interval == Some(300_000i64)),
        params.remind_after_ms is Some && params.no_remind <==> reminder_of(params) is Err,
{
}

/// A renew comes due at the moment that it names, else after its interval, else now.
#[verifier::spinoff_prover]
pub proof fn law_first_cycle_comes_due(params: RenewParams, now_ms: i64)
    ensures
        renew_of(params, now_ms) matches Ok((recipient, incarnation, due)) ==> {
            &&& params.recipient == Some(recipient)
            &&& params.recipient_incarnation == Some(incarnation)
            &&& params.due_at_ms matches Some(at) ==> due == at
            &&& params.due_at_ms is None && params.every_ms is None ==> due == now_ms
            &&& params.due_at_ms is None ==> (params.every_ms matches Some(every) ==> (i64::MIN
                <= now_ms + every <= i64::MAX ==> due - now_ms == every))
        },
        renew_of(params, now_ms) is Ok <==> params.recipient is Some
            && params.recipient_incarnation is Some && !(params.every_ms is Some
            && params.due_at_ms is Some),
{
}

/// A who is answered where exactly one thing names whom it is about.
#[verifier::spinoff_prover]
pub proof fn law_one_selector_is_named(params: WhoParams)
    ensures
        selectors_of(params) == 0 <==> params.incarnation_id is None && params.agent_id is None
            && params.alias is None && params.pane_id is None,
        selectors_of(params) == 1 <==> {
            ||| params.incarnation_id is Some && params.agent_id is None && params.alias is None
                && params.pane_id is None
            ||| params.incarnation_id is None && params.agent_id is Some && params.alias is None
                && params.pane_id is None
            ||| params.incarnation_id is None && params.agent_id is None && params.alias is Some
                && params.pane_id is None
            ||| params.incarnation_id is None && params.agent_id is None && params.alias is None
                && params.pane_id is Some
        },
{
}

/// A message waits for an alias only where it is addressed by one, nobody is ready under it, and
/// no waiter takes it.
#[verifier::spinoff_prover]
pub proof fn law_message_waits_for_its_alias(addressed: Addressed, waiter: Held, ready: Held)
    ensures
        waits_for_alias(addressed, waiter, ready) ==> ready == Held::No && alias_of(addressed)
            is Some,
        addressed is Tell && waiter == Held::Yes ==> !waits_for_alias(addressed, waiter, ready),
        alias_of(addressed) is Some && ready == Held::No && !(addressed is Tell)
            ==> waits_for_alias(addressed, waiter, ready),
        addressed matches Addressed::Tell(params) ==> (alias_of(addressed) matches Some((alias, key))
            ==> params.recipient_alias == Some(alias) && params.idempotency_key == key
            && params.recipient is None && params.recipient_incarnation is None),
        addressed matches Addressed::Ask(params) ==> (alias_of(addressed) matches Some((alias, key))
            ==> params.recipient_alias == Some(alias) && params.idempotency_key == key
            && params.recipient is None && params.recipient_incarnation is None
            && params.due_at_ms is None),
        addressed matches Addressed::Clear(params) ==> (alias_of(addressed) matches Some(
            (alias, key),
        ) ==> params.recipient_alias == Some(alias) && params.idempotency_key == key
            && params.recipient is None && params.recipient_incarnation is None),
{
}

} // verus!
