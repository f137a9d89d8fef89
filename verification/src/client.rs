//! The client: from a typed command to the daemon's request, and from the
//! daemon's response to the outcome.
//!
//! The client first plans what it has to look up, then builds the request from
//! what the lookups gave. Reading, asking the daemon and the clock are left to
//! the program around it.

use vstd::prelude::*;

use crate::cli::{
    attribution_params, attribution_view, env_caller, message_params, message_view, pane_caller,
    path_under, request_view, typed_request, under, whoami_params, whoami_view, AdoptArgs,
    AttributionTarget, BodySource, Caller, Command, Due, ExactRecipient, Recipient, RenewArgs,
    StartCommand, StartParent,
};
use crate::json::{
    empty_object, int_view, number_text, optional_text_view, text_view, Json, JsonView, Number,
};
use crate::json_text::{json_failure, json_of, json_text, parse_json, show_json};
use crate::text::{
    all_digits, chars_of, digits_value, is_blank, is_digit, parse_digits, same, told,
};

pub mod asks;
pub mod holds;

verus! {

/// Which agent a command addresses.
#[derive(Debug, PartialEq, Eq)]
pub enum AgentTarget {
    Id(String),
    Alias(String),
}

/// How a message is addressed.
#[derive(Debug, PartialEq, Eq)]
pub enum Address {
    /// Live public name resolved at send time.
    Alias(String),
    /// Exact durable IDs.
    Exact(ExactRecipient),
    /// A logical agent, whatever its incarnation.
    Agent(String),
}

/// One task of the client. It covers what the command line can ask for and what
/// the daemon also understands.
#[derive(Debug, PartialEq, Eq)]
pub enum Task {
    Tell {
        recipient: Address,
        body: BodySource,
        sender: Option<Caller>,
        idempotency_key: Option<String>,
        due: Option<Due>,
        every_ms: Option<i64>,
    },
    Ask {
        recipient: Address,
        body: BodySource,
        sender: Option<Caller>,
        idempotency_key: Option<String>,
        due: Option<Due>,
        remind_after_ms: Option<i64>,
        no_remind: bool,
        from_operator: bool,
    },
    Reply {
        reply_to: String,
        requester: Option<Caller>,
        body: BodySource,
        disposition: &'static str,
        idempotency_key: Option<String>,
    },
    Clear { recipient: Address, idempotency_key: Option<String> },
    Renew(Box<RenewArgs>),
    Pending { target: Option<Caller> },
    Recover,
    Whoami { target: Option<Caller> },
    Who {
        target: Option<AttributionTarget>,
        adopt_caller: bool,
        history: bool,
        resolve: bool,
        refresh: bool,
    },
    Attribution { target: AttributionTarget, refresh: bool },
    Report { live: bool, active: bool },
    NameInfo { name: String },
    AskInfo { ask_id: String },
    Rename { target: Option<Caller>, name: String },
    Adopt(Box<AdoptArgs>),
    Notice { body: BodySource },
    Notices,
    Cancel { ask_id: String, reason: String, requester: Option<Caller> },
    RenewCancel { renew_id: String, reason: String, requester: Option<Caller> },
    ScheduleCancel { schedule_id: String, reason: String, requester: Option<Caller> },
    Schedules { target: Option<Caller> },
    ReminderSnooze {
        ask_id: String,
        until_ms: Option<i64>,
        for_ms: Option<i64>,
        requester: Option<Caller>,
    },
    ReminderInterval { ask_id: String, every_ms: i64, requester: Option<Caller> },
    ReminderDisable { ask_id: String, requester: Option<Caller> },
    Retire { incarnation_id: String, idempotency_key: Option<String>, close_pane: bool },
    Start(Box<StartCommand>),
    WaiterRegister {
        public_name: String,
        parent: StartParent,
        idempotency_key: Option<String>,
    },
    WaiterRetire { target: AgentTarget },
}

/// A recipient as an address.
pub open spec fn address_of(recipient: Recipient) -> Address {
    match recipient {
        Recipient::Alias(name) => Address::Alias(name),
        Recipient::Exact(exact) => Address::Exact(exact),
    }
}

/// The task that a command stands for.
pub open spec fn task_of(command: Command) -> Task {
    match command {
        Command::Tell { recipient, body, sender, idempotency_key, due } => Task::Tell {
            recipient: address_of(recipient),
            body,
            sender,
            idempotency_key,
            due,
            every_ms: None,
        },
        Command::Ask {
            recipient,
            body,
            sender,
            idempotency_key,
            due,
            remind_after_ms,
            no_remind,
            from_operator,
        } => Task::Ask {
            recipient: address_of(recipient),
            body,
            sender,
            idempotency_key,
            due,
            remind_after_ms,
            no_remind,
            from_operator,
        },
        Command::Reply { reply_to, requester, body, disposition, idempotency_key } => Task::Reply {
            reply_to,
            requester,
            body,
            disposition,
            idempotency_key,
        },
        Command::Clear { recipient, idempotency_key } => Task::Clear {
            recipient: address_of(recipient),
            idempotency_key,
        },
        Command::Renew(renew) => Task::Renew(renew),
        Command::Pending { target } => Task::Pending { target },
        Command::Recover => Task::Recover,
        Command::Whoami { target } => Task::Whoami { target },
        Command::Attribution { target, refresh } => Task::Attribution { target, refresh },
        Command::Report { live, active } => Task::Report { live, active },
        Command::NameInfo { name } => Task::NameInfo { name },
        Command::AskInfo { ask_id } => Task::AskInfo { ask_id },
        Command::Rename { target, name } => Task::Rename { target, name },
        Command::Adopt(adopt) => Task::Adopt(adopt),
        Command::Notice { body } => Task::Notice { body },
        Command::Notices => Task::Notices,
        Command::Cancel { ask_id, reason, requester } => Task::Cancel { ask_id, reason, requester },
        Command::RenewCancel { renew_id, reason, requester } => Task::RenewCancel {
            renew_id,
            reason,
            requester,
        },
        Command::ReminderSnooze { ask_id, until_ms, requester } => Task::ReminderSnooze {
            ask_id,
            until_ms: Some(until_ms),
            for_ms: None,
            requester,
        },
        Command::ReminderDisable { ask_id, requester } => Task::ReminderDisable {
            ask_id,
            requester,
        },
        Command::Retire { incarnation_id, idempotency_key, close_pane } => Task::Retire {
            incarnation_id,
            idempotency_key,
            close_pane,
        },
        Command::Start(start) => Task::Start(start),
        Command::WaiterRegister { public_name, parent, idempotency_key } => Task::WaiterRegister {
            public_name,
            parent,
            idempotency_key,
        },
        Command::WaiterRetire { logical_agent_id } => Task::WaiterRetire {
            target: AgentTarget::Id(logical_agent_id),
        },
    }
}

fn address(recipient: Recipient) -> (r: Address)
    ensures
        r == address_of(recipient),
{
    match recipient {
        Recipient::Alias(name) => Address::Alias(name),
        Recipient::Exact(exact) => Address::Exact(exact),
    }
}

/// The task that a command stands for.
pub fn task(command: Command) -> (r: Task)
    ensures
        r == task_of(command),
{
    match command {
        Command::Tell { recipient, body, sender, idempotency_key, due } => Task::Tell {
            recipient: address(recipient),
            body,
            sender,
            idempotency_key,
            due,
            every_ms: None,
        },
        Command::Ask {
            recipient,
            body,
            sender,
            idempotency_key,
            due,
            remind_after_ms,
            no_remind,
            from_operator,
        } => Task::Ask {
            recipient: address(recipient),
            body,
            sender,
            idempotency_key,
            due,
            remind_after_ms,
            no_remind,
            from_operator,
        },
        Command::Reply { reply_to, requester, body, disposition, idempotency_key } => Task::Reply {
            reply_to,
            requester,
            body,
            disposition,
            idempotency_key,
        },
        Command::Clear { recipient, idempotency_key } => Task::Clear {
            recipient: address(recipient),
            idempotency_key,
        },
        Command::Renew(renew) => Task::Renew(renew),
        Command::Pending { target } => Task::Pending { target },
        Command::Recover => Task::Recover,
        Command::Whoami { target } => Task::Whoami { target },
        Command::Attribution { target, refresh } => Task::Attribution { target, refresh },
        Command::Report { live, active } => Task::Report { live, active },
        Command::NameInfo { name } => Task::NameInfo { name },
        Command::AskInfo { ask_id } => Task::AskInfo { ask_id },
        Command::Rename { target, name } => Task::Rename { target, name },
        Command::Adopt(adopt) => Task::Adopt(adopt),
        Command::Notice { body } => Task::Notice { body },
        Command::Notices => Task::Notices,
        Command::Cancel { ask_id, reason, requester } => Task::Cancel { ask_id, reason, requester },
        Command::RenewCancel { renew_id, reason, requester } => Task::RenewCancel {
            renew_id,
            reason,
            requester,
        },
        Command::ReminderSnooze { ask_id, until_ms, requester } => Task::ReminderSnooze {
            ask_id,
            until_ms: Some(until_ms),
            for_ms: None,
            requester,
        },
        Command::ReminderDisable { ask_id, requester } => Task::ReminderDisable {
            ask_id,
            requester,
        },
        Command::Retire { incarnation_id, idempotency_key, close_pane } => Task::Retire {
            incarnation_id,
            idempotency_key,
            close_pane,
        },
        Command::Start(start) => Task::Start(start),
        Command::WaiterRegister { public_name, parent, idempotency_key } => Task::WaiterRegister {
            public_name,
            parent,
            idempotency_key,
        },
        Command::WaiterRetire { logical_agent_id } => Task::WaiterRetire {
            target: AgentTarget::Id(logical_agent_id),
        },
    }
}

/// The durable ID that a text denotes: a positive decimal integer without leading
/// zeros, within `u64`.
pub open spec fn id_number(text: Seq<char>) -> Option<u64> {
    if text.len() > 0 && text[0] != '0' && all_digits(text) && digits_value(text) <= u64::MAX {
        Some(digits_value(text) as u64)
    } else {
        None
    }
}

/// What is said of a text that denotes no durable ID.
pub open spec fn id_refusal(name: Seq<char>) -> Seq<char> {
    name + " must be a positive decimal integer"@
}

/// Whether a text denotes a durable ID, or what is said of it.
pub open spec fn id_check(name: Seq<char>, text: Seq<char>) -> Result<(), Seq<char>> {
    if id_number(text) is Some {
        Ok(())
    } else {
        Err(id_refusal(name))
    }
}

/// Read a durable ID.
fn read_id(text: &str) -> (id: Option<u64>)
    ensures
        id == id_number(text@),
        id is Some ==> id->0 > 0,
{
    let chars = chars_of(text);
    if chars.len() == 0 || chars[0] == '0' {
        return None;
    }
    assert(chars@.skip(0) =~= text@);
    let id = parse_digits(chars.as_slice(), 0, u64::MAX);
    proof {
        if all_digits(text@) {
            crate::text::lemma_digits_value_grows(text@, 1);
            assert(text@.take(1).drop_last() =~= Seq::<char>::empty());
            assert(text@.take(1).last() == text@[0]);
            assert(is_digit(text@[0]));
            assert(digits_value(text@.take(1).drop_last()) == 0);
        }
    }
    id
}

/// Check that a text denotes a durable ID.
pub fn validate_id(name: &str, text: &str) -> (r: Result<(), String>)
    ensures
        told(r, id_check(name@, text@)),
{
    if read_id(text).is_none() {
        return Err(name.to_owned().concat(" must be a positive decimal integer"));
    }
    Ok(())
}

/// A caller that is given by ID must be a durable ID.
pub open spec fn caller_check(caller: Option<Caller>) -> Result<(), Seq<char>> {
    match caller {
        Some(Caller::Id(id)) => id_check("agent_id"@, id@),
        _ => Ok(()),
    }
}

pub fn validate_caller(caller: &Option<Caller>) -> (r: Result<(), String>)
    ensures
        told(r, caller_check(*caller)),
{
    match caller {
        Some(Caller::Id(id)) => validate_id("agent_id", id.as_str()),
        _ => Ok(()),
    }
}

/// The first thing that is wrong.
pub open spec fn both(a: Result<(), Seq<char>>, b: Result<(), Seq<char>>) -> Result<
    (),
    Seq<char>,
> {
    match a {
        Ok(_) => b,
        Err(e) => Err(e),
    }
}

/// Both IDs of an exact recipient must be durable IDs.
pub open spec fn exact_check(exact: ExactRecipient) -> Result<(), Seq<char>> {
    both(
        id_check("recipient"@, exact.recipient@),
        id_check("recipient_incarnation"@, exact.incarnation@),
    )
}

pub fn validate_exact_recipient(recipient: &ExactRecipient) -> (r: Result<(), String>)
    ensures
        told(r, exact_check(*recipient)),
{
    if let Err(e) = validate_id("recipient", recipient.recipient.as_str()) {
        return Err(e);
    }
    validate_id("recipient_incarnation", recipient.incarnation.as_str())
}

/// The IDs of an address must be durable IDs.
pub open spec fn address_check(address: Address) -> Result<(), Seq<char>> {
    match address {
        Address::Alias(_) => Ok(()),
        Address::Exact(exact) => exact_check(exact),
        Address::Agent(id) => id_check("recipient"@, id@),
    }
}

pub fn validate_recipient(recipient: &Address) -> (r: Result<(), String>)
    ensures
        told(r, address_check(*recipient)),
{
    match recipient {
        Address::Alias(_) => Ok(()),
        Address::Exact(exact) => validate_exact_recipient(exact),
        Address::Agent(id) => validate_id("recipient", id.as_str()),
    }
}

/// The ID of an attribution target must be a durable ID.
pub open spec fn attribution_check(target: Option<AttributionTarget>) -> Result<(), Seq<char>> {
    match target {
        Some(AttributionTarget::Incarnation(id)) => id_check("incarnation_id"@, id@),
        Some(AttributionTarget::Agent(id)) => id_check("agent_id"@, id@),
        _ => Ok(()),
    }
}

pub fn validate_attribution_target(target: Option<&AttributionTarget>) -> (r: Result<(), String>)
    ensures
        told(
            r,
            attribution_check(
                match target {
                    Some(target) => Some(*target),
                    None => None,
                },
            ),
        ),
{
    match target {
        Some(AttributionTarget::Incarnation(id)) => validate_id("incarnation_id", id.as_str()),
        Some(AttributionTarget::Agent(id)) => validate_id("agent_id", id.as_str()),
        _ => Ok(()),
    }
}

/// An ID that may be absent must be a durable ID.
pub open spec fn optional_check(name: Seq<char>, id: Option<String>) -> Result<(), Seq<char>> {
    match id {
        Some(id) => id_check(name, id@),
        None => Ok(()),
    }
}

fn validate_optional(name: &str, id: &Option<String>) -> (r: Result<(), String>)
    ensures
        told(r, optional_check(name@, *id)),
{
    match id {
        Some(id) => validate_id(name, id.as_str()),
        None => Ok(()),
    }
}

/// The ID of a parent must be a durable ID.
pub open spec fn parent_check(parent: StartParent) -> Result<(), Seq<char>> {
    match parent {
        StartParent::Agent(id) => id_check("parent.agent_id"@, id@),
        StartParent::Parentless => Ok(()),
    }
}

fn validate_parent(parent: &StartParent) -> (r: Result<(), String>)
    ensures
        told(r, parent_check(*parent)),
{
    match parent {
        StartParent::Agent(id) => validate_id("parent.agent_id", id.as_str()),
        StartParent::Parentless => Ok(()),
    }
}

/// Whether every durable ID of a task is one, or what is said of the first that
/// is not.
pub open spec fn ids_check(task: Task) -> Result<(), Seq<char>> {
    match task {
        Task::Tell { recipient, sender, .. } => both(
            address_check(recipient),
            caller_check(sender),
        ),
        Task::Ask { recipient, sender, .. } => both(address_check(recipient), caller_check(sender)),
        Task::Reply { reply_to, requester, .. } => both(
            id_check("reply_to"@, reply_to@),
            caller_check(requester),
        ),
        Task::Clear { recipient, .. } => address_check(recipient),
        Task::Renew(renew) => both(
            match renew.recipient {
                Some(exact) => exact_check(exact),
                None => Ok(()),
            },
            caller_check(renew.requester),
        ),
        Task::Pending { target } => caller_check(target),
        Task::Whoami { target } => caller_check(target),
        Task::Rename { target, .. } => caller_check(target),
        Task::Schedules { target } => caller_check(target),
        Task::Who { target, .. } => attribution_check(target),
        Task::Attribution { target, .. } => attribution_check(Some(target)),
        Task::Start(start) => both(
            optional_check("logical_agent_id"@, start.logical_agent_id),
            both(
                parent_check(start.parent),
                optional_check("initial_message.sender"@, start.initial_sender),
            ),
        ),
        Task::Adopt(adopt) => optional_check("logical_agent_id"@, adopt.logical_agent_id),
        Task::Cancel { ask_id, requester, .. } => both(
            id_check("ask_message_id"@, ask_id@),
            caller_check(requester),
        ),
        Task::ReminderSnooze { ask_id, requester, .. } => both(
            id_check("ask_message_id"@, ask_id@),
            caller_check(requester),
        ),
        Task::ReminderInterval { ask_id, requester, .. } => both(
            id_check("ask_message_id"@, ask_id@),
            caller_check(requester),
        ),
        Task::ReminderDisable { ask_id, requester } => both(
            id_check("ask_message_id"@, ask_id@),
            caller_check(requester),
        ),
        Task::RenewCancel { renew_id, requester, .. } => both(
            id_check("renew_id"@, renew_id@),
            caller_check(requester),
        ),
        Task::ScheduleCancel { schedule_id, requester, .. } => both(
            id_check("schedule_id"@, schedule_id@),
            caller_check(requester),
        ),
        Task::Retire { incarnation_id, .. } => id_check("incarnation_id"@, incarnation_id@),
        Task::WaiterRegister { parent, .. } => parent_check(parent),
        Task::WaiterRetire { target } => match target {
            AgentTarget::Id(id) => id_check("logical_agent_id"@, id@),
            AgentTarget::Alias(_) => Ok(()),
        },
        Task::AskInfo { ask_id } => id_check("ask_message_id"@, ask_id@),
        _ => Ok(()),
    }
}

/// Check every durable ID of a task before anything is asked of the daemon.
pub fn validate_command_ids(task: &Task) -> (r: Result<(), String>)
    ensures
        told(r, ids_check(*task)),
{
    match task {
        Task::Tell { recipient, sender, .. } | Task::Ask { recipient, sender, .. } => {
            if let Err(e) = validate_recipient(recipient) {
                return Err(e);
            }
            validate_caller(sender)
        },
        Task::Reply { reply_to, requester, .. } => {
            if let Err(e) = validate_id("reply_to", reply_to.as_str()) {
                return Err(e);
            }
            validate_caller(requester)
        },
        Task::Clear { recipient, .. } => validate_recipient(recipient),
        Task::Renew(renew) => {
            if let Some(recipient) = &renew.recipient {
                if let Err(e) = validate_exact_recipient(recipient) {
                    return Err(e);
                }
            }
            validate_caller(&renew.requester)
        },
        Task::Pending { target } | Task::Whoami { target } | Task::Rename { target, .. }
        | Task::Schedules { target } => validate_caller(target),
        Task::Who { target, .. } => validate_attribution_target(target.as_ref()),
        Task::Attribution { target, .. } => validate_attribution_target(Some(target)),
        Task::Start(start) => {
            if let Err(e) = validate_optional("logical_agent_id", &start.logical_agent_id) {
                return Err(e);
            }
            if let Err(e) = validate_parent(&start.parent) {
                return Err(e);
            }
            validate_optional("initial_message.sender", &start.initial_sender)
        },
        Task::Adopt(adopt) => validate_optional("logical_agent_id", &adopt.logical_agent_id),
        Task::Cancel { ask_id, requester, .. } | Task::ReminderSnooze { ask_id, requester, .. }
        | Task::ReminderInterval { ask_id, requester, .. } | Task::ReminderDisable {
            ask_id,
            requester,
        } => {
            if let Err(e) = validate_id("ask_message_id", ask_id.as_str()) {
                return Err(e);
            }
            validate_caller(requester)
        },
        Task::RenewCancel { renew_id, requester, .. } => {
            if let Err(e) = validate_id("renew_id", renew_id.as_str()) {
                return Err(e);
            }
            validate_caller(requester)
        },
        Task::ScheduleCancel { schedule_id, requester, .. } => {
            if let Err(e) = validate_id("schedule_id", schedule_id.as_str()) {
                return Err(e);
            }
            validate_caller(requester)
        },
        Task::Retire { incarnation_id, .. } => validate_id(
            "incarnation_id",
            incarnation_id.as_str(),
        ),
        Task::WaiterRegister { parent, .. } => validate_parent(parent),
        Task::WaiterRetire { target } => match target {
            AgentTarget::Id(id) => validate_id("logical_agent_id", id.as_str()),
            AgentTarget::Alias(_) => Ok(()),
        },
        Task::AskInfo { ask_id } => validate_id("ask_message_id", ask_id.as_str()),
        Task::Recover | Task::Report { .. } | Task::NameInfo { .. } | Task::Notice { .. }
        | Task::Notices => Ok(()),
    }
}

/// The epoch milliseconds of a requested delivery time, measured from the clock.
/// Where the time is absolute, the clock does not matter.
pub open spec fn due_at(due: Option<Due>, now_ms: Result<i64, String>) -> Result<
    Option<i64>,
    Seq<char>,
> {
    match (due, now_ms) {
        (None, _) => Ok(None),
        (Some(Due::AtMs(at)), _) => Ok(Some(at)),
        (Some(Due::InMs(_)), Err(e)) => Err(e@),
        (Some(Due::InMs(offset)), Ok(now)) => if i64::MIN <= now + offset <= i64::MAX {
            Ok(Some((now + offset) as i64))
        } else {
            Err("--due-in overflowed"@)
        },
    }
}

/// Turn a requested delivery time into the epoch milliseconds the daemon takes.
///
/// The clock is an argument so parsing stays pure and testable, and so a relative
/// time is measured from the moment the request is actually built.
pub fn resolve_due(due: &Option<Due>, now_ms: &Result<i64, String>) -> (r: Result<
    Option<i64>,
    String,
>)
    ensures
        told(r, due_at(*due, *now_ms)),
{
    match due {
        None => Ok(None),
        Some(Due::AtMs(at)) => Ok(Some(*at)),
        Some(Due::InMs(offset)) => match now_ms {
            Err(e) => Err(e.clone()),
            Ok(now) => match (*now).checked_add(*offset) {
                Some(at) => Ok(Some(at)),
                None => Err("--due-in overflowed".to_owned()),
            },
        },
    }
}

/// How a field of a response reads: texts and numbers, nothing else.
pub open spec fn plain_text(value: JsonView, name: Seq<char>) -> Seq<char> {
    match value.at(name) {
        JsonView::Text(text) => text,
        JsonView::Number(number) => number_text(number),
        _ => Seq::empty(),
    }
}

/// How a field of a response reads.
pub fn field(value: &Json, name: &str) -> (text: String)
    ensures
        text@ == plain_text(value@, name@),
{
    match value.get(name) {
        Some(Json::Text(text)) => text.clone(),
        Some(Json::Number(number)) => number.to_text(),
        _ => String::new(),
    }
}

/// Who the caller is: its agent, its incarnation and its name. The last two are
/// empty where the caller was given as a bare ID.
#[derive(Debug, PartialEq, Eq)]
pub struct Identity {
    pub agent: String,
    pub incarnation: String,
    pub name: String,
}

/// How to find out who the caller is.
#[derive(Debug, PartialEq, Eq)]
pub enum Lookup {
    /// The caller said so itself.
    Known(Identity),
    /// Ask the daemon `whoami` with these params.
    Whoami(Json),
}

/// The key under which a pane that no agent holds yet is adopted.
pub open spec fn self_adopt_key(request_id: Seq<char>) -> Seq<char> {
    request_id + ":lazy-adopt:self"@
}

/// A caller that is only borrowed.
pub open spec fn owned(caller: Option<&Caller>) -> Option<Caller> {
    match caller {
        Some(caller) => Some(*caller),
        None => None,
    }
}

/// The caller that counts: the one given, or the pane that the client runs in.
pub open spec fn effective_caller(caller: Option<Caller>, own_pane: Option<String>) -> Option<
    Caller,
> {
    match caller {
        Some(caller) => Some(caller),
        None => pane_caller(own_pane),
    }
}

/// Decide how to find out who the caller is.
pub fn caller_lookup(
    caller: Option<&Caller>,
    own_pane: &Option<String>,
    request_id: &str,
) -> (r: Result<Lookup, String>)
    ensures
        match (r, effective_caller(owned(caller), *own_pane)) {
            (Ok(Lookup::Known(identity)), Some(Caller::Id(id))) => identity.agent == id
                && identity.incarnation@.len() == 0 && identity.name@.len() == 0,
            (Ok(Lookup::Whoami(params)), Some(caller)) => !(caller is Id) && params@ == whoami_view(
                caller,
            ).with("lazy_adopt_key"@, text_view(self_adopt_key(request_id@))),
            (Err(e), None) => e@
                == "cannot resolve caller; set HERDR_PANE_ID or pass --sender / --sender-id / --pane"@,
            _ => false,
        },
{
    let own = env_caller(own_pane);
    let effective = match caller {
        Some(caller) => caller,
        None => match &own {
            Some(own) => own,
            None => {
                return Err(
                    "cannot resolve caller; set HERDR_PANE_ID or pass --sender / --sender-id / --pane".to_owned(),
                );
            },
        },
    };
    match effective {
        Caller::Id(id) => Ok(
            Lookup::Known(
                Identity { agent: id.clone(), incarnation: String::new(), name: String::new() },
            ),
        ),
        other => {
            let key = request_id.to_owned().concat(":lazy-adopt:self");
            Ok(
                Lookup::Whoami(
                    whoami_params(other).with("lazy_adopt_key", Json::text(key.as_str())),
                ),
            )
        },
    }
}

/// A text of an error, or a default.
pub open spec fn error_text(error: JsonView, name: Seq<char>, default: Seq<char>) -> Seq<char> {
    match error.at(name).as_text() {
        Some(text) => text,
        None => default,
    }
}

fn text_or_default<'a>(value: &'a Json, name: &str, default: &'a str) -> (text: &'a str)
    ensures
        text@ == error_text(value@, name@, default@),
{
    match value.text_at(name) {
        Some(text) => text,
        None => default,
    }
}

/// Read who the caller is from the daemon's answer to `whoami`.
pub fn caller_found(response: &Json) -> (r: Result<Identity, String>)
    ensures
        match (r, response@.given("error"@)) {
            (Ok(identity), None) => identity.agent@ == plain_text(
                response@.at("result"@),
                "logical_agent_id"@,
            ) && identity.incarnation@ == plain_text(response@.at("result"@), "incarnation_id"@)
                && identity.name@ == plain_text(response@.at("result"@), "public_name"@),
            (Err(e), Some(error)) => e@ == error_text(error, "class"@, "error"@) + ": "@
                + error_text(error, "message"@, "whoami failed"@),
            _ => false,
        },
{
    if let Some(error) = response.given("error") {
        return Err(
            text_or_default(error, "class", "error").to_owned().concat(": ").concat(
                text_or_default(error, "message", "whoami failed"),
            ),
        );
    }
    let none = Json::Null;
    let result = match response.get("result") {
        Some(result) => result,
        None => &none,
    };
    Ok(
        Identity {
            agent: field(result, "logical_agent_id"),
            incarnation: field(result, "incarnation_id"),
            name: field(result, "public_name"),
        },
    )
}

/// Whether a `who` result is one Ready incarnation that can be addressed.
pub open spec fn is_addressable(result: JsonView) -> bool {
    result.at("delivery_transport"@) == text_view("herdr_prompt"@) && result.at("addressable"@)
        == JsonView::Bool(true) && !(result.at("incarnation_id"@) is Null)
}

/// What a failed handoff says.
pub open spec fn handoff_refusal(alias: Seq<char>, response: JsonView) -> Seq<char> {
    "handoff --replace "@ + alias + " requires one uniquely Ready incarnation: "@ + error_text(
        response.at("error"@),
        "message"@,
        "the alias is not held by one Ready incarnation"@,
    ) + "; inspect `kelpie who "@ + alias
        + " --resolve`, then continue an unavailable `herdr_prompt` claimant with `kelpie start --logical-id <id>` or register a new waiter for an ended `socket_inbox` identity"@
}

/// Which agent and incarnation a handoff replaces, from the daemon's answer on
/// the alias, or why it cannot.
pub open spec fn handoff_of(alias: Seq<char>, logical_id: Option<String>, response: JsonView) -> Result<
    (Seq<char>, Seq<char>),
    Seq<char>,
> {
    let result = response.at("result"@);
    if is_addressable(result) {
        let agent = plain_text(result, "logical_agent_id"@);
        match logical_id {
            Some(id) => if id@ != agent {
                Err(
                    "handoff alias "@ + alias + " resolves to logical agent "@ + agent
                        + ", not --logical-id "@ + id@,
                )
            } else {
                Ok((agent, plain_text(result, "incarnation_id"@)))
            },
            None => Ok((agent, plain_text(result, "incarnation_id"@))),
        }
    } else {
        Err(handoff_refusal(alias, response))
    }
}

/// Read which agent and incarnation a handoff replaces.
pub fn handoff_found(alias: &str, logical_id: &Option<String>, response: &Json) -> (r: Result<
    (String, String),
    String,
>)
    ensures
        match (r, handoff_of(alias@, *logical_id, response@)) {
            (Ok((agent, incarnation)), Ok((a, i))) => agent@ == a && incarnation@ == i,
            (Err(e), Err(t)) => e@ == t,
            _ => false,
        },
{
    let none = Json::Null;
    let result = match response.get("result") {
        Some(result) => result,
        None => &none,
    };
    let transport = match result.text_at("delivery_transport") {
        Some(transport) => same(transport, "herdr_prompt"),
        None => false,
    };
    let addressable = match result.get("addressable") {
        Some(Json::Bool(b)) => *b,
        _ => false,
    };
    let bound = result.given("incarnation_id").is_some();
    if !(transport && addressable && bound) {
        let error = match response.get("error") {
            Some(error) => error,
            None => &none,
        };
        let detail = text_or_default(
            error,
            "message",
            "the alias is not held by one Ready incarnation",
        );
        return Err(
            "handoff --replace ".to_owned().concat(alias).concat(
                " requires one uniquely Ready incarnation: ",
            ).concat(detail).concat("; inspect `kelpie who ").concat(alias).concat(
                " --resolve`, then continue an unavailable `herdr_prompt` claimant with `kelpie start --logical-id <id>` or register a new waiter for an ended `socket_inbox` identity",
            ),
        );
    }
    let agent = field(result, "logical_agent_id");
    if let Some(id) = logical_id {
        if !same(id.as_str(), agent.as_str()) {
            return Err(
                "handoff alias ".to_owned().concat(alias).concat(
                    " resolves to logical agent ",
                ).concat(agent.as_str()).concat(", not --logical-id ").concat(id.as_str()),
            );
        }
    }
    Ok((agent, field(result, "incarnation_id")))
}

/// The params with which a handoff asks the daemon about its alias.
pub fn handoff_params(alias: &str) -> (params: Json)
    ensures
        params@ == empty_object().with("alias"@, text_view(alias@)).with(
            "history"@,
            JsonView::Bool(false),
        ).with("resolve"@, JsonView::Bool(false)).with("refresh"@, JsonView::Bool(false)),
{
    Json::object().with("alias", Json::text(alias)).with("history", Json::Bool(false)).with(
        "resolve",
        Json::Bool(false),
    ).with("refresh", Json::Bool(false))
}

/// Whether a response was an error.
pub open spec fn has_error(response: JsonView) -> bool {
    response.given("error"@) is Some
}

/// The first of two answers.
pub open spec fn or_else(first: Option<Seq<char>>, second: Option<Seq<char>>) -> Option<
    Seq<char>,
> {
    match first {
        Some(text) => Some(text),
        None => second,
    }
}

/// What a response failed of, if anything: the request itself, the delivery, the
/// runtime, or the initial message.
pub open spec fn failure_of(response: JsonView) -> Option<Seq<char>> {
    let result = response.at("result"@);
    if has_error(response) {
        Some("request failed"@)
    } else {
        or_else(
            match result.at("delivery_outcome"@).as_text() {
                Some(outcome) => if outcome != "accepted"@ && outcome != "queued"@ {
                    Some("delivery "@ + outcome)
                } else {
                    None
                },
                None => None,
            },
            or_else(
                match result.at("runtime_start"@).at("outcome"@).as_text() {
                    Some(outcome) => if outcome != "succeeded"@ {
                        Some("runtime "@ + outcome)
                    } else {
                        None
                    },
                    None => None,
                },
                match result.at("initial_message"@).at("outcome"@).as_text() {
                    Some(outcome) => if outcome != "accepted"@ {
                        Some("initial message "@ + outcome)
                    } else {
                        None
                    },
                    None => None,
                },
            ),
        )
    }
}

/// The text of a field of a nested object.
fn nested_text<'a>(value: &'a Json, object: &str, name: &str) -> (text: Option<&'a str>)
    ensures
        match text {
            Some(t) => value@.at(object@).at(name@).as_text() == Some(t@),
            None => value@.at(object@).at(name@).as_text() is None,
        },
{
    match value.get(object) {
        Some(inner) => inner.text_at(name),
        None => None,
    }
}

/// Refuse every response that is not a success: any non-success exits nonzero.
pub fn fail_if_error(response: &Json) -> (r: Result<(), String>)
    ensures
        match (r, failure_of(response@)) {
            (Ok(()), None) => true,
            (Err(e), Some(text)) => e@ == text,
            _ => false,
        },
{
    if response.given("error").is_some() {
        return Err("request failed".to_owned());
    }
    if let Some(outcome) = nested_text(response, "result", "delivery_outcome") {
        if !same(outcome, "accepted") && !same(outcome, "queued") {
            return Err("delivery ".to_owned().concat(outcome));
        }
    }
    let none = Json::Null;
    let result = match response.get("result") {
        Some(result) => result,
        None => &none,
    };
    if let Some(outcome) = nested_text(result, "runtime_start", "outcome") {
        if !same(outcome, "succeeded") {
            return Err("runtime ".to_owned().concat(outcome));
        }
    }
    if let Some(outcome) = nested_text(result, "initial_message", "outcome") {
        if !same(outcome, "accepted") {
            return Err("initial message ".to_owned().concat(outcome));
        }
    }
    Ok(())
}

/// Whether a response line is an answer at all.
pub fn check_response_line(line: &str) -> (r: Result<(), String>)
    ensures
        match r {
            Ok(()) => !is_blank(line@),
            Err(e) => is_blank(line@) && e@
                == "daemon closed the connection without a correlated response"@,
        },
{
    if crate::text::blank(line) {
        return Err("daemon closed the connection without a correlated response".to_owned());
    }
    Ok(())
}

/// Whether a field holds a durable ID.
pub open spec fn is_id_field(name: Seq<char>) -> bool {
    name == "agent_id"@ || name == "ask_message_id"@ || name == "incarnation_id"@ || name
        == "logical_agent_id"@ || name == "recipient"@ || name == "recipient_incarnation"@ || name
        == "renew_id"@ || name == "reply_to"@ || name == "requester"@ || name
        == "requester_agent_id"@ || name == "schedule_id"@ || name == "sender"@ || name
        == "supersedes"@
}

fn names_id(name: &str) -> (r: bool)
    ensures
        r == is_id_field(name@),
{
    same(name, "agent_id") || same(name, "ask_message_id") || same(name, "incarnation_id") || same(
        name,
        "logical_agent_id",
    ) || same(name, "recipient") || same(name, "recipient_incarnation") || same(name, "renew_id")
        || same(name, "reply_to") || same(name, "requester") || same(name, "requester_agent_id")
        || same(name, "schedule_id") || same(name, "sender") || same(name, "supersedes")
}

/// A durable ID as the daemon takes it: a text becomes its number, a number and
/// null stay, anything else is refused.
pub open spec fn normal_id(name: Seq<char>, value: JsonView) -> Result<JsonView, Seq<char>> {
    match value {
        JsonView::Text(text) => match id_number(text) {
            Some(id) => Ok(int_view(id as int)),
            None => Err(id_refusal(name)),
        },
        JsonView::Null => Ok(value),
        JsonView::Number(_) => Ok(value),
        _ => Err(id_refusal(name)),
    }
}

/// A value with every durable ID in it, at any depth, as the daemon takes it, or
/// what is said of the first that is none.
pub open spec fn normalized(value: JsonView) -> Result<JsonView, Seq<char>>
    decreases value, 1int, 0int,
{
    match value {
        JsonView::Object(fields) => match normalized_fields(fields, fields.len() as int) {
            Ok(done) => Ok(JsonView::Object(done)),
            Err(e) => Err(e),
        },
        JsonView::List(items) => match normalized_items(items, items.len() as int) {
            Ok(done) => Ok(JsonView::List(done)),
            Err(e) => Err(e),
        },
        _ => Ok(value),
    }
}

/// One field normalized.
pub open spec fn normalized_field(field: (Seq<char>, JsonView)) -> Result<JsonView, Seq<char>>
    decreases field, 2int, 0int,
{
    if is_id_field(field.0) {
        normal_id(field.0, field.1)
    } else {
        normalized(field.1)
    }
}

/// The first `count` fields normalized.
pub open spec fn normalized_fields(fields: Seq<(Seq<char>, JsonView)>, count: int) -> Result<
    Seq<(Seq<char>, JsonView)>,
    Seq<char>,
>
    decreases fields, 0int, count,
{
    if count <= 0 || count > fields.len() {
        Ok(Seq::empty())
    } else {
        match normalized_fields(fields, count - 1) {
            Err(e) => Err(e),
            Ok(done) => match normalized_field(fields[count - 1]) {
                Ok(value) => Ok(done.push((fields[count - 1].0, value))),
                Err(e) => Err(e),
            },
        }
    }
}

/// The first `count` items normalized.
pub open spec fn normalized_items(items: Seq<JsonView>, count: int) -> Result<
    Seq<JsonView>,
    Seq<char>,
>
    decreases items, 0int, count,
{
    if count <= 0 || count > items.len() {
        Ok(Seq::empty())
    } else {
        match normalized_items(items, count - 1) {
            Err(e) => Err(e),
            Ok(done) => match normalized(items[count - 1]) {
                Ok(value) => Ok(done.push(value)),
                Err(e) => Err(e),
            },
        }
    }
}

/// A field that cannot be normalized stops everything after it.
proof fn lemma_fields_stop(fields: Seq<(Seq<char>, JsonView)>, from: int, to: int)
    requires
        0 <= from <= to <= fields.len(),
        normalized_fields(fields, from) is Err,
    ensures
        normalized_fields(fields, to) == normalized_fields(fields, from),
    decreases to - from,
{
    if from < to {
        lemma_fields_stop(fields, from, to - 1);
    }
}

/// An item that cannot be normalized stops everything after it.
proof fn lemma_items_stop(items: Seq<JsonView>, from: int, to: int)
    requires
        0 <= from <= to <= items.len(),
        normalized_items(items, from) is Err,
    ensures
        normalized_items(items, to) == normalized_items(items, from),
    decreases to - from,
{
    if from < to {
        lemma_items_stop(items, from, to - 1);
    }
}

/// One durable ID as the daemon takes it.
fn normalize_id(name: &str, value: &Json) -> (r: Result<Json, String>)
    ensures
        match (r, normal_id(name@, value@)) {
            (Ok(done), Ok(meant)) => done@ == meant,
            (Err(e), Err(t)) => e@ == t,
            _ => false,
        },
{
    match value {
        Json::Text(text) => match read_id(text.as_str()) {
            Some(id) => Ok(Json::unsigned(id)),
            None => Err(name.to_owned().concat(" must be a positive decimal integer")),
        },
        Json::Null => Ok(Json::Null),
        Json::Number(number) => Ok(Json::Number(number.clone())),
        _ => Err(name.to_owned().concat(" must be a positive decimal integer")),
    }
}

/// A value with every durable ID in it, at any depth, as the daemon takes it.
pub fn normalize_durable_ids(value: &Json) -> (r: Result<Json, String>)
    ensures
        match (r, normalized(value@)) {
            (Ok(done), Ok(meant)) => done@ == meant,
            (Err(e), Err(t)) => e@ == t,
            _ => false,
        },
    decreases value,
{
    match value {
        Json::Object(fields) => {
            let ghost shown = value@->Object_0;
            let mut done: Vec<(String, Json)> = Vec::new();
            let mut i: usize = 0;
            assert(Json::Object(done)@->Object_0 =~= Seq::empty());
            while i < fields.len()
                invariant
                    i <= fields@.len(),
                    value == Json::Object(*fields),
                    shown == value@->Object_0,
                    normalized_fields(shown, i as int) == Ok::<
                        Seq<(Seq<char>, JsonView)>,
                        Seq<char>,
                    >(Json::Object(done)@->Object_0),
                decreases fields@.len() - i,
            {
                assert(shown[i as int] == (fields@[i as int].0@, fields@[i as int].1@));
                proof {
                    assert(decreases_to!(*value => value->Object_0));
                    assert(decreases_to!(*fields => fields@));
                    assert(decreases_to!(fields@ => fields@[i as int]));
                    assert(decreases_to!(fields@[i as int] => fields@[i as int].1));
                }
                let name = &fields[i].0;
                let outcome = if names_id(name.as_str()) {
                    normalize_id(name.as_str(), &fields[i].1)
                } else {
                    normalize_durable_ids(&fields[i].1)
                };
                assert(normalized_field(shown[i as int]) == if is_id_field(name@) {
                    normal_id(name@, fields@[i as int].1@)
                } else {
                    normalized(fields@[i as int].1@)
                });
                match outcome {
                    Ok(field) => {
                        let ghost before = Json::Object(done)@->Object_0;
                        done.push((name.clone(), field));
                        assert(Json::Object(done)@->Object_0 =~= before.push(
                            (shown[i as int].0, field@),
                        ));
                    },
                    Err(e) => {
                        proof {
                            lemma_fields_stop(shown, i as int + 1, shown.len() as int);
                        }
                        return Err(e);
                    },
                }
                i = i + 1;
            }
            Ok(Json::Object(done))
        },
        Json::List(items) => {
            let ghost shown = value@->List_0;
            let mut done: Vec<Json> = Vec::new();
            let mut i: usize = 0;
            assert(Json::List(done)@->List_0 =~= Seq::empty());
            while i < items.len()
                invariant
                    i <= items@.len(),
                    value == Json::List(*items),
                    shown == value@->List_0,
                    normalized_items(shown, i as int) == Ok::<Seq<JsonView>, Seq<char>>(
                        Json::List(done)@->List_0,
                    ),
                decreases items@.len() - i,
            {
                assert(shown[i as int] == items@[i as int]@);
                proof {
                    assert(decreases_to!(*value => value->List_0));
                    assert(decreases_to!(*items => items@));
                    assert(decreases_to!(items@ => items@[i as int]));
                }
                match normalize_durable_ids(&items[i]) {
                    Ok(item) => {
                        let ghost before = Json::List(done)@->List_0;
                        done.push(item);
                        assert(Json::List(done)@->List_0 =~= before.push(item@));
                    },
                    Err(e) => {
                        proof {
                            lemma_items_stop(shown, i as int + 1, shown.len() as int);
                        }
                        return Err(e);
                    },
                }
                i = i + 1;
            }
            Ok(Json::List(done))
        },
        Json::Null => Ok(Json::Null),
        Json::Bool(b) => Ok(Json::Bool(*b)),
        Json::Number(number) => Ok(Json::Number(number.clone())),
        Json::Text(text) => Ok(Json::Text(text.clone())),
    }
}

/// What the client knows at the moment it builds a request.
#[derive(Debug, PartialEq, Eq)]
pub struct Situation {
    /// The identifier of the request.
    pub request_id: String,
    /// A fresh identifier, for a task that brought no idempotency key.
    pub fresh_id: String,
    /// The wall clock in epoch milliseconds, or why it cannot be read.
    pub now_ms: Result<i64, String>,
    /// The pane that the client runs in.
    pub own_pane: Option<String>,
}

/// The idempotency key of a task: its own, or the fresh identifier.
pub open spec fn key_of(own: Option<String>, situation: Situation) -> Seq<char> {
    match own {
        Some(key) => key@,
        None => situation.fresh_id@,
    }
}

fn key<'a>(own: &'a Option<String>, situation: &'a Situation) -> (key: &'a str)
    ensures
        key@ == key_of(*own, *situation),
{
    match own {
        Some(key) => key.as_str(),
        None => situation.fresh_id.as_str(),
    }
}

/// The identifier under which a role of a task is looked up.
pub open spec fn role_key(request_id: Seq<char>, key: Seq<char>, role: Seq<char>) -> Seq<char> {
    request_id + ":"@ + key + ":"@ + role
}

/// The alias whose holder a task replaces, where it names the holder by alias.
pub open spec fn handoff_wanted(task: Task) -> Option<String> {
    match task {
        Task::Start(start) => match start.supersedes {
            Some(candidate) => if id_number(candidate@) is None {
                Some(candidate)
            } else {
                None
            },
            None => None,
        },
        _ => None,
    }
}

/// Which caller a task has to look up, and under which identifier.
pub open spec fn caller_wanted(task: Task, situation: Situation) -> Option<
    (Option<Caller>, Seq<char>),
> {
    let id = situation.request_id@;
    match task {
        Task::Tell { sender, idempotency_key, .. } => Some(
            (sender, role_key(id, key_of(idempotency_key, situation), "sender"@)),
        ),
        Task::Ask { sender, idempotency_key, .. } => Some(
            (sender, role_key(id, key_of(idempotency_key, situation), "sender"@)),
        ),
        Task::Renew(renew) => Some(
            (
                renew.requester,
                role_key(id, key_of(renew.idempotency_key, situation), "requester"@),
            ),
        ),
        Task::Start(start) => if start.initial_sender is None && start.initial_kind@ == "ask"@ {
            Some((None, id))
        } else {
            None
        },
        Task::Rename { target, .. } => match target {
            Some(Caller::Id(_)) => None,
            Some(Caller::Alias(_)) => None,
            _ => Some((target, id)),
        },
        Task::Reply { requester, .. } => Some((requester, id)),
        Task::Pending { target } => Some((target, id)),
        Task::Cancel { requester, .. } => Some((requester, id)),
        Task::RenewCancel { requester, .. } => Some((requester, id)),
        Task::ScheduleCancel { requester, .. } => Some((requester, id)),
        Task::Schedules { target } => Some((target, id)),
        Task::ReminderSnooze { requester, .. } => Some((requester, id)),
        Task::ReminderInterval { requester, .. } => Some((requester, id)),
        Task::ReminderDisable { requester, .. } => Some((requester, id)),
        _ => None,
    }
}

/// Which bodies a task has to read, in order.
pub open spec fn bodies_wanted(task: Task) -> Seq<BodySource> {
    match task {
        Task::Tell { body, .. } => seq![body],
        Task::Ask { body, .. } => seq![body],
        Task::Reply { body, .. } => seq![body],
        Task::Notice { body } => seq![body],
        Task::Start(start) => seq![start.body],
        Task::Renew(renew) => seq![renew.prepare_prompt, renew.prompt],
        _ => Seq::empty(),
    }
}

/// Why a task fails before anything is looked up: its delivery time cannot be
/// told.
pub open spec fn plan_failure(task: Task, situation: Situation) -> Option<Seq<char>> {
    match task {
        Task::Tell { due, .. } => match due_at(due, situation.now_ms) {
            Err(e) => Some(e),
            Ok(_) => None,
        },
        Task::Ask { due, .. } => match due_at(due, situation.now_ms) {
            Err(e) => Some(e),
            Ok(_) => None,
        },
        _ => None,
    }
}

/// What has to be looked up and read before a request can be built: first the
/// holder of a replaced alias, then the caller, then the bodies in order.
pub struct Needs<'a> {
    pub handoff: Option<&'a String>,
    pub caller: Option<(Option<&'a Caller>, String)>,
    pub bodies: Vec<&'a BodySource>,
}

impl<'a> Needs<'a> {
    /// Whether these are the needs of a task.
    pub open spec fn are_of(self, task: Task, situation: Situation) -> bool {
        &&& match (self.handoff, handoff_wanted(task)) {
            (Some(alias), Some(wanted)) => *alias == wanted,
            (None, None) => true,
            _ => false,
        }
        &&& match (self.caller, caller_wanted(task, situation)) {
            (Some((caller, key)), Some((wanted, wanted_key))) => owned(caller) == wanted && key@
                == wanted_key,
            (None, None) => true,
            _ => false,
        }
        &&& self.bodies@.len() == bodies_wanted(task).len()
        &&& forall|i: int|
            0 <= i < self.bodies@.len() ==> *(#[trigger] self.bodies@[i]) == bodies_wanted(task)[i]
    }
}

fn role_text(situation: &Situation, own: &Option<String>, role: &str) -> (r: String)
    ensures
        r@ == role_key(situation.request_id@, key_of(*own, *situation), role@),
{
    situation.request_id.clone().concat(":").concat(key(own, situation)).concat(":").concat(role)
}

/// The alias whose holder a task replaces, where it names the holder by alias.
fn replaced_alias(start: &StartCommand) -> (alias: Option<&String>)
    ensures
        match (alias, handoff_wanted(Task::Start(Box::new(*start)))) {
            (Some(alias), Some(wanted)) => *alias == wanted,
            (None, None) => true,
            _ => false,
        },
{
    match &start.supersedes {
        Some(candidate) => if read_id(candidate.as_str()).is_none() {
            Some(candidate)
        } else {
            None
        },
        None => None,
    }
}

/// Decide what a task has to look up and read.
#[verifier::rlimit(40)]
pub fn plan<'a>(task: &'a Task, situation: &Situation) -> (r: Result<Needs<'a>, String>)
    ensures
        match (r, plan_failure(*task, *situation)) {
            (Ok(needs), None) => needs.are_of(*task, *situation),
            (Err(e), Some(text)) => e@ == text,
            _ => false,
        },
{
    let mut bodies: Vec<&'a BodySource> = Vec::new();
    let mut handoff: Option<&'a String> = None;
    let request_id = &situation.request_id;
    let caller: Option<(Option<&'a Caller>, String)> = match task {
        Task::Tell { sender, idempotency_key, body, due, .. }
        | Task::Ask { sender, idempotency_key, body, due, .. } => {
            if let Err(e) = resolve_due(due, &situation.now_ms) {
                return Err(e);
            }
            bodies.push(body);
            Some((sender.as_ref(), role_text(situation, idempotency_key, "sender")))
        },
        Task::Renew(renew) => {
            bodies.push(&renew.prepare_prompt);
            bodies.push(&renew.prompt);
            Some((renew.requester.as_ref(), role_text(situation, &renew.idempotency_key, "requester")))
        },
        Task::Start(start) => {
            handoff = replaced_alias(start);
            bodies.push(&start.body);
            if start.initial_sender.is_none() && same(start.initial_kind, "ask") {
                Some((None, request_id.clone()))
            } else {
                None
            }
        },
        Task::Rename { target, .. } => match target {
            Some(Caller::Id(_)) | Some(Caller::Alias(_)) => None,
            _ => Some((target.as_ref(), request_id.clone())),
        },
        Task::Reply { requester, body, .. } => {
            bodies.push(body);
            Some((requester.as_ref(), request_id.clone()))
        },
        Task::Notice { body } => {
            bodies.push(body);
            None
        },
        Task::Pending { target } | Task::Schedules { target } => Some((target.as_ref(), request_id.clone())),
        Task::Cancel { requester, .. } | Task::RenewCancel { requester, .. }
        | Task::ScheduleCancel { requester, .. } | Task::ReminderSnooze { requester, .. }
        | Task::ReminderInterval { requester, .. } | Task::ReminderDisable { requester, .. } => Some(
            (requester.as_ref(), request_id.clone()),
        ),
        _ => None,
    };
    Ok(Needs { handoff, caller, bodies })
}

/// What the lookups and the reading of a plan gave.
#[derive(Debug, PartialEq, Eq)]
pub struct Supplied {
    /// The agent and the incarnation that hold a replaced alias.
    pub handoff: Option<(String, String)>,
    pub caller: Option<Identity>,
    pub bodies: Vec<String>,
}

impl Supplied {
    /// Whether everything that a task needs is there.
    pub open spec fn meets(self, task: Task, situation: Situation) -> bool {
        &&& self.handoff is Some <==> handoff_wanted(task) is Some
        &&& self.caller is Some <==> caller_wanted(task, situation) is Some
        &&& self.bodies@.len() == bodies_wanted(task).len()
    }

    /// The agent that the caller is.
    pub open spec fn agent(self) -> Seq<char> {
        match self.caller {
            Some(identity) => identity.agent@,
            None => Seq::empty(),
        }
    }
}

/// The method and the params of a request.
pub type RequestView = (Seq<char>, JsonView);

/// A request to the daemon, short of its identifier.
#[derive(Debug, PartialEq, Eq)]
pub struct Request {
    pub method: &'static str,
    pub params: Json,
}

impl Request {
    pub open spec fn view(&self) -> RequestView {
        (self.method@, self.params@)
    }
}

/// Whether a build gave the request that was meant.
pub open spec fn told_request(
    r: Result<Request, String>,
    meant: Result<RequestView, Seq<char>>,
) -> bool {
    match (r, meant) {
        (Ok(request), Ok(view)) => request@ == view,
        (Err(e), Err(t)) => e@ == t,
        _ => false,
    }
}

/// An object with an integer field where there is an integer.
pub open spec fn with_integer(base: JsonView, name: Seq<char>, value: Option<i64>) -> JsonView {
    match value {
        Some(n) => base.with(name, int_view(n as int)),
        None => base,
    }
}

/// An object with a text field where there is a text.
pub open spec fn with_text(base: JsonView, name: Seq<char>, value: Option<Seq<char>>) -> JsonView {
    match value {
        Some(t) => base.with(name, text_view(t)),
        None => base,
    }
}

/// An object with a field that is true, or without it.
pub open spec fn with_flag(base: JsonView, name: Seq<char>, value: bool) -> JsonView {
    if value {
        base.with(name, JsonView::Bool(true))
    } else {
        base
    }
}

/// The view of a text that may be absent.
pub open spec fn shown(text: Option<String>) -> Option<Seq<char>> {
    match text {
        Some(text) => Some(text@),
        None => None,
    }
}

/// An integer that may be absent as a JSON value: null where it is.
pub open spec fn optional_int_view(value: Option<i64>) -> JsonView {
    match value {
        Some(n) => int_view(n as int),
        None => JsonView::Null,
    }
}

/// Texts as a JSON list.
pub open spec fn texts_view(values: Seq<String>) -> JsonView {
    JsonView::List(values.map_values(|v: String| text_view(v@)))
}

fn put_integer(params: &mut Json, name: &str, value: Option<i64>)
    ensures
        final(params)@ == with_integer(old(params)@, name@, value),
{
    if let Some(n) = value {
        params.put(name, Json::integer(n));
    }
}

fn put_text(params: &mut Json, name: &str, value: &Option<String>)
    ensures
        final(params)@ == with_text(old(params)@, name@, shown(*value)),
{
    if let Some(text) = value {
        params.put(name, Json::text(text.as_str()));
    }
}

fn put_flag(params: &mut Json, name: &str, value: bool)
    ensures
        final(params)@ == with_flag(old(params)@, name@, value),
{
    if value {
        params.put(name, Json::Bool(true));
    }
}

fn optional_integer(value: Option<i64>) -> (r: Json)
    ensures
        r@ == optional_int_view(value),
{
    match value {
        Some(n) => Json::integer(n),
        None => Json::Null,
    }
}

fn text_list(values: &Vec<String>) -> (r: Json)
    ensures
        r@ == texts_view(values@),
{
    let mut items: Vec<Json> = Vec::new();
    let mut i: usize = 0;
    while i < values.len()
        invariant
            i <= values@.len(),
            items@.len() == i,
            forall|j: int| 0 <= j < i ==> (#[trigger] items@[j])@ == text_view(values@[j]@),
        decreases values@.len() - i,
    {
        items.push(Json::text(values[i].as_str()));
        i = i + 1;
    }
    let r = Json::List(items);
    assert(r@->List_0 =~= texts_view(values@)->List_0);
    r
}

/// The params of a message to an address.
pub open spec fn addressed_message(
    sender: Seq<char>,
    recipient: Address,
    body: Seq<char>,
    key: Seq<char>,
    due_at_ms: Option<i64>,
) -> JsonView {
    match recipient {
        Address::Alias(name) => message_view(sender, Some(name@), None, body, key, due_at_ms),
        Address::Exact(exact) => message_view(
            sender,
            None,
            Some((exact.recipient@, exact.incarnation@)),
            body,
            key,
            due_at_ms,
        ),
        Address::Agent(id) => with_integer(
            empty_object().with("sender"@, text_view(sender)).with(
                "recipient"@,
                text_view(id@),
            ).with("body"@, text_view(body)).with("idempotency_key"@, text_view(key)),
            "due_at_ms"@,
            due_at_ms,
        ),
    }
}

/// Build the params of a message to an address.
fn message_command(
    sender: &str,
    recipient: &Address,
    body: &str,
    key: &str,
    due_at_ms: Option<i64>,
) -> (params: Json)
    ensures
        params@ == addressed_message(sender@, *recipient, body@, key@, due_at_ms),
{
    match recipient {
        Address::Alias(name) => message_params(
            sender,
            Some(name.as_str()),
            None,
            body,
            key,
            due_at_ms,
        ),
        Address::Exact(exact) => message_params(sender, None, Some(exact), body, key, due_at_ms),
        Address::Agent(id) => {
            let mut params = Json::object().with("sender", Json::text(sender)).with(
                "recipient",
                Json::text(id.as_str()),
            ).with("body", Json::text(body)).with("idempotency_key", Json::text(key));
            put_integer(&mut params, "due_at_ms", due_at_ms);
            params
        },
    }
}

/// The params of a clear.
pub open spec fn clear_request(recipient: Address, key: Seq<char>) -> Result<
    RequestView,
    Seq<char>,
> {
    let base = empty_object().with("idempotency_key"@, text_view(key));
    match recipient {
        Address::Alias(name) => Ok(("clear"@, base.with("recipient_alias"@, text_view(name@)))),
        Address::Exact(exact) => Ok(
            (
                "clear"@,
                base.with("recipient"@, text_view(exact.recipient@)).with(
                    "recipient_incarnation"@,
                    text_view(exact.incarnation@),
                ),
            ),
        ),
        Address::Agent(_) => Err("clear requires an alias or exact incarnation"@),
    }
}

fn build_clear(recipient: &Address, key: &str) -> (r: Result<Request, String>)
    ensures
        told_request(r, clear_request(*recipient, key@)),
{
    let base = Json::object().with("idempotency_key", Json::text(key));
    let params = match recipient {
        Address::Alias(name) => base.with("recipient_alias", Json::text(name.as_str())),
        Address::Exact(exact) => base.with(
            "recipient",
            Json::text(exact.recipient.as_str()),
        ).with("recipient_incarnation", Json::text(exact.incarnation.as_str())),
        Address::Agent(_) => {
            return Err("clear requires an alias or exact incarnation".to_owned());
        },
    };
    Ok(Request { method: "clear", params })
}

/// What is said of a caller that renews itself without naming its incarnation.
pub open spec fn bare_renew_refusal() -> Seq<char> {
    "cannot renew yourself when the caller is given as a bare agent id: a policy binds to one incarnation, so pass --recipient-id with --recipient-incarnation"@
}

/// The params of a renew.
///
/// No recipient means the caller renews itself, as the lookup named it. A renew
/// never resolves an alias: the target is fixed here, before anything is armed.
pub open spec fn renew_request(renew: RenewArgs, supplied: Supplied, now_ms: Result<i64, String>) -> Result<
    RequestView,
    Seq<char>,
> {
    let target = match (renew.recipient, supplied.caller) {
        (Some(exact), _) => Some((exact.recipient@, exact.incarnation@)),
        (None, Some(identity)) => if identity.incarnation@.len() == 0 {
            None
        } else {
            Some((identity.agent@, identity.incarnation@))
        },
        (None, None) => None,
    };
    match (target, due_at(renew.due, now_ms)) {
        (None, _) => Err(bare_renew_refusal()),
        (_, Err(e)) => Err(e),
        (Some((recipient, incarnation)), Ok(due_at_ms)) => Ok(
            (
                "renew"@,
                with_integer(
                    with_integer(
                        empty_object().with("recipient"@, text_view(recipient)).with(
                            "recipient_incarnation"@,
                            text_view(incarnation),
                        ).with("requester"@, text_view(supplied.agent())).with(
                            "prepare_prompt"@,
                            text_view(supplied.bodies@[0]@),
                        ).with("prompt"@, text_view(supplied.bodies@[1]@)).with(
                            "on_timeout"@,
                            text_view(renew.on_timeout@),
                        ).with("prepare_timeout_ms"@, int_view(renew.prepare_timeout_ms as int)),
                        "due_at_ms"@,
                        due_at_ms,
                    ),
                    "every_ms"@,
                    renew.every_ms,
                ),
            ),
        ),
    }
}

fn build_renew(renew: &RenewArgs, supplied: &Supplied, now_ms: &Result<i64, String>) -> (r: Result<
    Request,
    String,
>)
    requires
        supplied.caller is Some,
        supplied.bodies@.len() == 2,
    ensures
        told_request(r, renew_request(*renew, *supplied, *now_ms)),
{
    let (recipient, incarnation) = match (&renew.recipient, &supplied.caller) {
        (Some(exact), _) => (exact.recipient.as_str(), exact.incarnation.as_str()),
        (None, Some(identity)) if !identity.incarnation.as_str().is_empty() => (
            identity.agent.as_str(),
            identity.incarnation.as_str(),
        ),
        _ => {
            return Err(
                "cannot renew yourself when the caller is given as a bare agent id: a policy binds to one incarnation, so pass --recipient-id with --recipient-incarnation".to_owned(),
            );
        },
    };
    let due_at_ms = match resolve_due(&renew.due, now_ms) {
        Ok(v) => v,
        Err(e) => {
            return Err(e);
        },
    };
    let mut params = Json::object().with("recipient", Json::text(recipient)).with(
        "recipient_incarnation",
        Json::text(incarnation),
    ).with("requester", Json::text(agent(supplied))).with(
        "prepare_prompt",
        Json::text(supplied.bodies[0].as_str()),
    ).with("prompt", Json::text(supplied.bodies[1].as_str())).with(
        "on_timeout",
        Json::text(renew.on_timeout),
    ).with("prepare_timeout_ms", Json::integer(renew.prepare_timeout_ms));
    put_integer(&mut params, "due_at_ms", due_at_ms);
    put_integer(&mut params, "every_ms", renew.every_ms);
    Ok(Request { method: "renew", params })
}

/// The agent that the caller is.
fn agent(supplied: &Supplied) -> (agent: &str)
    ensures
        agent@ == supplied.agent(),
{
    match &supplied.caller {
        Some(identity) => identity.agent.as_str(),
        None => {
            proof {
                reveal_strlit("");
            }
            assert(""@ =~= Seq::empty());
            ""
        },
    }
}

/// A parent as the daemon takes it.
pub open spec fn parent_view(parent: StartParent) -> JsonView {
    match parent {
        StartParent::Parentless => empty_object().with("kind"@, text_view("parentless"@)),
        StartParent::Agent(id) => empty_object().with("kind"@, text_view("agent"@)).with(
            "agent_id"@,
            text_view(id@),
        ),
    }
}

fn parent_params(parent: &StartParent) -> (r: Json)
    ensures
        r@ == parent_view(*parent),
{
    match parent {
        StartParent::Parentless => Json::object().with("kind", Json::text("parentless")),
        StartParent::Agent(id) => Json::object().with("kind", Json::text("agent")).with(
            "agent_id",
            Json::text(id.as_str()),
        ),
    }
}

/// Who sends the initial message of a start. An ask opens an obligation, so it
/// needs an agent that waits: the caller, where none was given. A tell stays
/// attributed to the operator unless a sender was given.
pub open spec fn initial_sender_of(start: StartCommand, supplied: Supplied) -> Option<Seq<char>> {
    match start.initial_sender {
        Some(sender) => Some(sender@),
        None => if start.initial_kind@ == "ask"@ {
            Some(supplied.agent())
        } else {
            None
        },
    }
}

/// The agent that a start continues.
pub open spec fn continued_agent(start: StartCommand, supplied: Supplied) -> Option<Seq<char>> {
    match supplied.handoff {
        Some((agent, _)) => Some(agent@),
        None => shown(start.logical_agent_id),
    }
}

/// The incarnation that a start replaces.
pub open spec fn replaced_incarnation(start: StartCommand, supplied: Supplied) -> Option<
    Seq<char>,
> {
    match supplied.handoff {
        Some((_, incarnation)) => Some(incarnation@),
        None => shown(start.supersedes),
    }
}

/// The fields that every start has.
pub open spec fn start_base(start: StartCommand, supplied: Supplied, key: Seq<char>) -> JsonView {
    let message = empty_object().with(
        "sender"@,
        optional_text_view(initial_sender_of(start, supplied)),
    ).with("kind"@, text_view(start.initial_kind@)).with("body"@, text_view(supplied.bodies@[0]@));
    empty_object().with("public_name"@, text_view(start.public_name@)).with(
        "parent"@,
        parent_view(start.parent),
    ).with("herdr_session"@, text_view(start.herdr_session@)).with(
        "pane_id"@,
        text_view(start.pane_id@),
    ).with("expected_terminal_id"@, text_view(start.terminal_id@)).with(
        "backend_kind"@,
        text_view(start.backend_kind@),
    ).with("backend_args"@, texts_view(start.backend_args@)).with("initial_message"@, message).with(
        "working_directory"@,
        text_view(start.working_directory@),
    ).with("idempotency_key"@, text_view(key)).with(
        "readiness_timeout_ms"@,
        int_view(start.readiness_timeout_ms as int),
    ).with("keep_open"@, JsonView::Bool(start.keep_open))
}

/// The params of a start, which is a handoff where it replaces an incarnation.
pub open spec fn start_request(
    start: StartCommand,
    supplied: Supplied,
    key: Seq<char>,
) -> RequestView {
    let continued = with_text(
        start_base(start, supplied, key),
        "logical_agent_id"@,
        continued_agent(start, supplied),
    );
    let modelled = with_text(continued, "requested_model"@, shown(start.requested_model));
    let provided = with_text(modelled, "requested_provider"@, shown(start.requested_provider));
    let asked = with_text(provided, "requested_effort"@, shown(start.requested_effort));
    match replaced_incarnation(start, supplied) {
        Some(incarnation) => ("handoff"@, asked.with("supersedes"@, text_view(incarnation))),
        None => ("start"@, asked),
    }
}

fn start_base_params(start: &StartCommand, supplied: &Supplied, key: &str) -> (params: Json)
    requires
        supplied.bodies@.len() == 1,
    ensures
        params@ == start_base(*start, *supplied, key@),
{
    let sender = match &start.initial_sender {
        Some(sender) => Json::text(sender.as_str()),
        None => if same(start.initial_kind, "ask") {
            Json::text(agent(supplied))
        } else {
            Json::Null
        },
    };
    let message = Json::object().with("sender", sender).with(
        "kind",
        Json::text(start.initial_kind),
    ).with("body", Json::text(supplied.bodies[0].as_str()));
    Json::object().with("public_name", Json::text(start.public_name.as_str())).with(
        "parent",
        parent_params(&start.parent),
    ).with("herdr_session", Json::text(start.herdr_session.as_str())).with(
        "pane_id",
        Json::text(start.pane_id.as_str()),
    ).with("expected_terminal_id", Json::text(start.terminal_id.as_str())).with(
        "backend_kind",
        Json::text(start.backend_kind.as_str()),
    ).with("backend_args", text_list(&start.backend_args)).with("initial_message", message).with(
        "working_directory",
        Json::text(start.working_directory.as_str()),
    ).with("idempotency_key", Json::text(key)).with(
        "readiness_timeout_ms",
        Json::unsigned(start.readiness_timeout_ms),
    ).with("keep_open", Json::Bool(start.keep_open))
}

fn build_start(start: &StartCommand, supplied: &Supplied, key: &str) -> (request: Request)
    requires
        supplied.bodies@.len() == 1,
    ensures
        request@ == start_request(*start, *supplied, key@),
{
    let mut params = start_base_params(start, supplied, key);
    match &supplied.handoff {
        Some((agent, _)) => {
            params.put("logical_agent_id", Json::text(agent.as_str()));
        },
        None => {
            put_text(&mut params, "logical_agent_id", &start.logical_agent_id);
        },
    }
    put_text(&mut params, "requested_model", &start.requested_model);
    put_text(&mut params, "requested_provider", &start.requested_provider);
    put_text(&mut params, "requested_effort", &start.requested_effort);
    let replaced = match &supplied.handoff {
        Some((_, incarnation)) => Some(incarnation),
        None => start.supersedes.as_ref(),
    };
    match replaced {
        Some(incarnation) => {
            params.put("supersedes", Json::text(incarnation.as_str()));
            Request { method: "handoff", params }
        },
        None => Request { method: "start", params },
    }
}

/// The params of an adopt.
pub open spec fn adopt_view(adopt: AdoptArgs, key: Seq<char>) -> JsonView {
    let base = empty_object().with("pane_id"@, text_view(adopt.pane_id@)).with(
        "expected_terminal_id"@,
        text_view(adopt.terminal_id@),
    ).with("parent"@, parent_view(StartParent::Parentless)).with(
        "herdr_session"@,
        text_view(adopt.herdr_session@),
    ).with("backend_args"@, texts_view(adopt.backend_args@)).with(
        "idempotency_key"@,
        text_view(key),
    );
    let modelled = with_text(base, "requested_model"@, shown(adopt.requested_model));
    let provided = with_text(modelled, "requested_provider"@, shown(adopt.requested_provider));
    let asked = with_text(provided, "requested_effort"@, shown(adopt.requested_effort));
    let named = with_text(asked, "public_name"@, shown(adopt.public_name));
    let kinded = with_text(named, "backend_kind"@, shown(adopt.backend_kind));
    with_text(kinded, "logical_agent_id"@, shown(adopt.logical_agent_id))
}

fn build_adopt(adopt: &AdoptArgs, key: &str) -> (params: Json)
    ensures
        params@ == adopt_view(*adopt, key@),
{
    let mut params = Json::object().with("pane_id", Json::text(adopt.pane_id.as_str())).with(
        "expected_terminal_id",
        Json::text(adopt.terminal_id.as_str()),
    ).with("parent", parent_params(&StartParent::Parentless)).with(
        "herdr_session",
        Json::text(adopt.herdr_session.as_str()),
    ).with("backend_args", text_list(&adopt.backend_args)).with(
        "idempotency_key",
        Json::text(key),
    );
    put_text(&mut params, "requested_model", &adopt.requested_model);
    put_text(&mut params, "requested_provider", &adopt.requested_provider);
    put_text(&mut params, "requested_effort", &adopt.requested_effort);
    put_text(&mut params, "public_name", &adopt.public_name);
    put_text(&mut params, "backend_kind", &adopt.backend_kind);
    put_text(&mut params, "logical_agent_id", &adopt.logical_agent_id);
    params
}

/// The params of a whoami: it needs a pane or an alias.
pub open spec fn whoami_request(target: Option<Caller>, situation: Situation) -> Result<
    RequestView,
    Seq<char>,
> {
    match effective_caller(target, situation.own_pane) {
        None => Err("cannot resolve caller; set HERDR_PANE_ID or pass --sender/--pane"@),
        Some(Caller::Id(id)) => Err("whoami needs a pane or alias, not "@ + id@),
        Some(caller) => Ok(
            (
                "whoami"@,
                whoami_view(caller).with(
                    "lazy_adopt_key"@,
                    text_view(self_adopt_key(situation.request_id@)),
                ),
            ),
        ),
    }
}

fn self_key(situation: &Situation) -> (key: Json)
    ensures
        key@ == text_view(self_adopt_key(situation.request_id@)),
{
    Json::Text(situation.request_id.clone().concat(":lazy-adopt:self"))
}

fn build_whoami(target: &Option<Caller>, situation: &Situation) -> (r: Result<Request, String>)
    ensures
        told_request(r, whoami_request(*target, *situation)),
{
    let own = env_caller(&situation.own_pane);
    let caller = match target {
        Some(caller) => caller,
        None => match &own {
            Some(own) => own,
            None => {
                return Err(
                    "cannot resolve caller; set HERDR_PANE_ID or pass --sender/--pane".to_owned(),
                );
            },
        },
    };
    if let Caller::Id(id) = caller {
        return Err("whoami needs a pane or alias, not ".to_owned().concat(id.as_str()));
    }
    Ok(
        Request {
            method: "whoami",
            params: whoami_params(caller).with("lazy_adopt_key", self_key(situation)),
        },
    )
}

/// The switches of a who.
pub open spec fn who_switches(base: JsonView, history: bool, resolve: bool, refresh: bool) -> JsonView {
    base.with("history"@, JsonView::Bool(history)).with("resolve"@, JsonView::Bool(resolve)).with(
        "refresh"@,
        JsonView::Bool(refresh),
    )
}

/// The params of a who. Without a target it is about the caller's own pane.
pub open spec fn who_request(
    target: Option<AttributionTarget>,
    adopt_caller: bool,
    switched: spec_fn(JsonView) -> JsonView,
    situation: Situation,
) -> Result<RequestView, Seq<char>> {
    let named = match target {
        Some(target) => Some(attribution_view(target)),
        None => match pane_caller(situation.own_pane) {
            Some(Caller::Pane(pane)) => Some(attribution_view(AttributionTarget::Pane(pane))),
            _ => None,
        },
    };
    match named {
        None => Err("cannot resolve caller; set HERDR_PANE_ID or pass a target"@),
        Some(base) => Ok(
            (
                "who"@,
                if adopt_caller {
                    switched(base).with(
                        "lazy_adopt_key"@,
                        text_view(self_adopt_key(situation.request_id@)),
                    )
                } else {
                    switched(base)
                },
            ),
        ),
    }
}

fn build_who(
    target: &Option<AttributionTarget>,
    adopt_caller: bool,
    history: bool,
    resolve: bool,
    refresh: bool,
    situation: &Situation,
) -> (r: Result<Request, String>)
    ensures
        told_request(
            r,
            who_request(
                *target,
                adopt_caller,
                |base: JsonView| who_switches(base, history, resolve, refresh),
                *situation,
            ),
        ),
{
    let base = match target {
        Some(target) => attribution_params(target),
        None => match env_caller(&situation.own_pane) {
            Some(Caller::Pane(pane)) => attribution_params(&AttributionTarget::Pane(pane)),
            _ => {
                return Err(
                    "cannot resolve caller; set HERDR_PANE_ID or pass a target".to_owned(),
                );
            },
        },
    };
    let mut params = base.with("history", Json::Bool(history)).with(
        "resolve",
        Json::Bool(resolve),
    ).with("refresh", Json::Bool(refresh));
    if adopt_caller {
        params.put("lazy_adopt_key", self_key(situation));
    }
    Ok(Request { method: "who", params })
}

/// The params of a rename. A name or an ID goes to the daemon as it is; a pane
/// was looked up.
pub open spec fn rename_view(target: Option<Caller>, name: Seq<char>, supplied: Supplied) -> JsonView {
    let base = empty_object().with("name"@, text_view(name));
    match target {
        Some(Caller::Id(id)) => base.with("agent_id"@, text_view(id@)),
        Some(Caller::Alias(alias)) => base.with("alias"@, text_view(alias@)),
        _ => base.with("agent_id"@, text_view(supplied.agent())),
    }
}

fn build_rename(target: &Option<Caller>, name: &str, supplied: &Supplied) -> (params: Json)
    ensures
        params@ == rename_view(*target, name@, *supplied),
{
    let base = Json::object().with("name", Json::text(name));
    match target {
        Some(Caller::Id(id)) => base.with("agent_id", Json::text(id.as_str())),
        Some(Caller::Alias(alias)) => base.with("alias", Json::text(alias.as_str())),
        _ => base.with("agent_id", Json::text(agent(supplied))),
    }
}

/// The params of a request that a requester makes about one thing.
pub open spec fn requester_view(supplied: Supplied, name: Seq<char>, id: Seq<char>) -> JsonView {
    empty_object().with("requester_agent_id"@, text_view(supplied.agent())).with(
        name,
        text_view(id),
    )
}

fn requester_params(supplied: &Supplied, name: &str, id: &str) -> (params: Json)
    ensures
        params@ == requester_view(*supplied, name@, id@),
{
    Json::object().with("requester_agent_id", Json::text(agent(supplied))).with(
        name,
        Json::text(id),
    )
}

/// The request that a task becomes, given what its plan supplied.
pub open spec fn request_of(task: Task, situation: Situation, supplied: Supplied) -> Result<
    RequestView,
    Seq<char>,
> {
    match task {
        Task::Tell { recipient, idempotency_key, due, every_ms, .. } => match due_at(
            due,
            situation.now_ms,
        ) {
            Err(e) => Err(e),
            Ok(due_at_ms) => Ok(
                (
                    "tell"@,
                    with_integer(
                        addressed_message(
                            supplied.agent(),
                            recipient,
                            supplied.bodies@[0]@,
                            key_of(idempotency_key, situation),
                            due_at_ms,
                        ),
                        "every_ms"@,
                        every_ms,
                    ),
                ),
            ),
        },
        Task::Ask {
            recipient,
            idempotency_key,
            due,
            remind_after_ms,
            no_remind,
            from_operator,
            ..
        } => match due_at(due, situation.now_ms) {
            Err(e) => Err(e),
            Ok(due_at_ms) => Ok(
                (
                    "ask"@,
                    with_flag(
                        with_flag(
                            with_integer(
                                addressed_message(
                                    supplied.agent(),
                                    recipient,
                                    supplied.bodies@[0]@,
                                    key_of(idempotency_key, situation),
                                    due_at_ms,
                                ),
                                "remind_after_ms"@,
                                remind_after_ms,
                            ),
                            "no_remind"@,
                            no_remind,
                        ),
                        "from_operator"@,
                        from_operator,
                    ),
                ),
            ),
        },
        Task::Reply { reply_to, disposition, idempotency_key, .. } => Ok(
            (
                "reply"@,
                empty_object().with("reply_to"@, text_view(reply_to@)).with(
                    "requester_agent_id"@,
                    text_view(supplied.agent()),
                ).with("body"@, text_view(supplied.bodies@[0]@)).with(
                    "disposition"@,
                    text_view(disposition@),
                ).with("idempotency_key"@, text_view(key_of(idempotency_key, situation))),
            ),
        ),
        Task::Clear { recipient, idempotency_key } => clear_request(
            recipient,
            key_of(idempotency_key, situation),
        ),
        Task::Renew(renew) => renew_request(*renew, supplied, situation.now_ms),
        Task::Pending { .. } => Ok(
            ("pending"@, empty_object().with("agent_id"@, text_view(supplied.agent()))),
        ),
        Task::Recover => Ok(("recover"@, empty_object())),
        Task::Whoami { target } => whoami_request(target, situation),
        Task::Who { target, adopt_caller, history, resolve, refresh } => who_request(
            target,
            adopt_caller,
            |base: JsonView| who_switches(base, history, resolve, refresh),
            situation,
        ),
        Task::Attribution { target, refresh } => Ok(
            ("attribution"@, with_flag(attribution_view(target), "refresh"@, refresh)),
        ),
        Task::Report { live, active } => Ok(
            (
                "report"@,
                empty_object().with("live"@, JsonView::Bool(live)).with(
                    "active"@,
                    JsonView::Bool(active),
                ),
            ),
        ),
        Task::NameInfo { name } => Ok(
            ("name.info"@, empty_object().with("name"@, text_view(name@))),
        ),
        Task::AskInfo { ask_id } => Ok(
            ("ask.info"@, empty_object().with("ask_message_id"@, text_view(ask_id@))),
        ),
        Task::Rename { target, name } => Ok(("rename"@, rename_view(target, name@, supplied))),
        Task::Adopt(adopt) => Ok(
            ("adopt"@, adopt_view(*adopt, key_of(adopt.idempotency_key, situation))),
        ),
        Task::Notice { .. } => Ok(
            ("notice.create"@, empty_object().with("body"@, text_view(supplied.bodies@[0]@))),
        ),
        Task::Notices => Ok(("notice.list"@, empty_object())),
        Task::Cancel { ask_id, reason, .. } => Ok(
            (
                "cancel"@,
                requester_view(supplied, "ask_message_id"@, ask_id@).with(
                    "reason"@,
                    text_view(reason@),
                ),
            ),
        ),
        Task::RenewCancel { renew_id, reason, .. } => Ok(
            (
                "renew.cancel"@,
                requester_view(supplied, "renew_id"@, renew_id@).with(
                    "reason"@,
                    text_view(reason@),
                ),
            ),
        ),
        Task::ScheduleCancel { schedule_id, reason, .. } => Ok(
            (
                "schedule.cancel"@,
                requester_view(supplied, "schedule_id"@, schedule_id@).with(
                    "reason"@,
                    text_view(reason@),
                ),
            ),
        ),
        Task::Schedules { .. } => Ok(
            ("schedule.list"@, empty_object().with("agent_id"@, text_view(supplied.agent()))),
        ),
        Task::ReminderSnooze { ask_id, until_ms, for_ms, .. } => Ok(
            (
                "reminder.snooze"@,
                requester_view(supplied, "ask_message_id"@, ask_id@).with(
                    "until_ms"@,
                    optional_int_view(until_ms),
                ).with("for_ms"@, optional_int_view(for_ms)),
            ),
        ),
        Task::ReminderInterval { ask_id, every_ms, .. } => Ok(
            (
                "reminder.interval"@,
                requester_view(supplied, "ask_message_id"@, ask_id@).with(
                    "every_ms"@,
                    int_view(every_ms as int),
                ),
            ),
        ),
        Task::ReminderDisable { ask_id, .. } => Ok(
            ("reminder.disable"@, requester_view(supplied, "ask_message_id"@, ask_id@)),
        ),
        Task::Retire { incarnation_id, idempotency_key, close_pane } => Ok(
            (
                "retire"@,
                empty_object().with("incarnation_id"@, text_view(incarnation_id@)).with(
                    "idempotency_key"@,
                    text_view(key_of(idempotency_key, situation)),
                ).with("close_pane"@, JsonView::Bool(close_pane)),
            ),
        ),
        Task::Start(start) => Ok(
            start_request(*start, supplied, key_of(start.idempotency_key, situation)),
        ),
        Task::WaiterRegister { public_name, parent, idempotency_key } => Ok(
            (
                "waiter.register"@,
                empty_object().with("public_name"@, text_view(public_name@)).with(
                    "parent"@,
                    parent_view(parent),
                ).with("idempotency_key"@, text_view(key_of(idempotency_key, situation))),
            ),
        ),
        Task::WaiterRetire { target } => Ok(
            (
                "waiter.retire"@,
                match target {
                    AgentTarget::Id(id) => empty_object().with(
                        "logical_agent_id"@,
                        text_view(id@),
                    ),
                    AgentTarget::Alias(alias) => empty_object().with("alias"@, text_view(alias@)),
                },
            ),
        ),
    }
}

/// Build the request that a task becomes, given what its plan supplied.
#[verifier::rlimit(80)]
#[verifier::spinoff_prover]
pub fn build_typed(task: &Task, situation: &Situation, supplied: &Supplied) -> (r: Result<
    Request,
    String,
>)
    requires
        supplied.meets(*task, *situation),
    ensures
        told_request(r, request_of(*task, *situation, *supplied)),
{
    let request = match task {
        Task::Tell { recipient, idempotency_key, due, every_ms, .. } => {
            let due_at_ms = match resolve_due(due, &situation.now_ms) {
                Ok(v) => v,
                Err(e) => {
                    return Err(e);
                },
            };
            let mut params = message_command(
                agent(supplied),
                recipient,
                supplied.bodies[0].as_str(),
                key(idempotency_key, situation),
                due_at_ms,
            );
            put_integer(&mut params, "every_ms", *every_ms);
            Request { method: "tell", params }
        },
        Task::Ask {
            recipient,
            idempotency_key,
            due,
            remind_after_ms,
            no_remind,
            from_operator,
            ..
        } => {
            let due_at_ms = match resolve_due(due, &situation.now_ms) {
                Ok(v) => v,
                Err(e) => {
                    return Err(e);
                },
            };
            let mut params = message_command(
                agent(supplied),
                recipient,
                supplied.bodies[0].as_str(),
                key(idempotency_key, situation),
                due_at_ms,
            );
            put_integer(&mut params, "remind_after_ms", *remind_after_ms);
            put_flag(&mut params, "no_remind", *no_remind);
            put_flag(&mut params, "from_operator", *from_operator);
            Request { method: "ask", params }
        },
        Task::Reply { reply_to, disposition, idempotency_key, .. } => Request {
            method: "reply",
            params: Json::object().with("reply_to", Json::text(reply_to.as_str())).with(
                "requester_agent_id",
                Json::text(agent(supplied)),
            ).with("body", Json::text(supplied.bodies[0].as_str())).with(
                "disposition",
                Json::text(disposition),
            ).with("idempotency_key", Json::text(key(idempotency_key, situation))),
        },
        Task::Clear { recipient, idempotency_key } => {
            return build_clear(recipient, key(idempotency_key, situation));
        },
        Task::Renew(renew) => {
            return build_renew(renew, supplied, &situation.now_ms);
        },
        Task::Pending { .. } => Request {
            method: "pending",
            params: Json::object().with("agent_id", Json::text(agent(supplied))),
        },
        Task::Recover => Request { method: "recover", params: Json::object() },
        Task::Whoami { target } => {
            return build_whoami(target, situation);
        },
        Task::Who { target, adopt_caller, history, resolve, refresh } => {
            return build_who(target, *adopt_caller, *history, *resolve, *refresh, situation);
        },
        Task::Attribution { target, refresh } => {
            let mut params = attribution_params(target);
            put_flag(&mut params, "refresh", *refresh);
            Request { method: "attribution", params }
        },
        Task::Report { live, active } => Request {
            method: "report",
            params: Json::object().with("live", Json::Bool(*live)).with(
                "active",
                Json::Bool(*active),
            ),
        },
        Task::NameInfo { name } => Request {
            method: "name.info",
            params: Json::object().with("name", Json::text(name.as_str())),
        },
        Task::AskInfo { ask_id } => Request {
            method: "ask.info",
            params: Json::object().with("ask_message_id", Json::text(ask_id.as_str())),
        },
        Task::Rename { target, name } => Request {
            method: "rename",
            params: build_rename(target, name.as_str(), supplied),
        },
        Task::Adopt(adopt) => Request {
            method: "adopt",
            params: build_adopt(adopt, key(&adopt.idempotency_key, situation)),
        },
        Task::Notice { .. } => Request {
            method: "notice.create",
            params: Json::object().with("body", Json::text(supplied.bodies[0].as_str())),
        },
        Task::Notices => Request { method: "notice.list", params: Json::object() },
        Task::Cancel { ask_id, reason, .. } => Request {
            method: "cancel",
            params: requester_params(supplied, "ask_message_id", ask_id.as_str()).with(
                "reason",
                Json::text(reason.as_str()),
            ),
        },
        Task::RenewCancel { renew_id, reason, .. } => Request {
            method: "renew.cancel",
            params: requester_params(supplied, "renew_id", renew_id.as_str()).with(
                "reason",
                Json::text(reason.as_str()),
            ),
        },
        Task::ScheduleCancel { schedule_id, reason, .. } => Request {
            method: "schedule.cancel",
            params: requester_params(supplied, "schedule_id", schedule_id.as_str()).with(
                "reason",
                Json::text(reason.as_str()),
            ),
        },
        Task::Schedules { .. } => Request {
            method: "schedule.list",
            params: Json::object().with("agent_id", Json::text(agent(supplied))),
        },
        Task::ReminderSnooze { ask_id, until_ms, for_ms, .. } => Request {
            method: "reminder.snooze",
            params: requester_params(supplied, "ask_message_id", ask_id.as_str()).with(
                "until_ms",
                optional_integer(*until_ms),
            ).with("for_ms", optional_integer(*for_ms)),
        },
        Task::ReminderInterval { ask_id, every_ms, .. } => Request {
            method: "reminder.interval",
            params: requester_params(supplied, "ask_message_id", ask_id.as_str()).with(
                "every_ms",
                Json::integer(*every_ms),
            ),
        },
        Task::ReminderDisable { ask_id, .. } => Request {
            method: "reminder.disable",
            params: requester_params(supplied, "ask_message_id", ask_id.as_str()),
        },
        Task::Retire { incarnation_id, idempotency_key, close_pane } => Request {
            method: "retire",
            params: Json::object().with(
                "incarnation_id",
                Json::text(incarnation_id.as_str()),
            ).with("idempotency_key", Json::text(key(idempotency_key, situation))).with(
                "close_pane",
                Json::Bool(*close_pane),
            ),
        },
        Task::Start(start) => build_start(start, supplied, key(&start.idempotency_key, situation)),
        Task::WaiterRegister { public_name, parent, idempotency_key } => Request {
            method: "waiter.register",
            params: Json::object().with("public_name", Json::text(public_name.as_str())).with(
                "parent",
                parent_params(parent),
            ).with("idempotency_key", Json::text(key(idempotency_key, situation))),
        },
        Task::WaiterRetire { target } => Request {
            method: "waiter.retire",
            params: match target {
                AgentTarget::Id(id) => Json::object().with(
                    "logical_agent_id",
                    Json::text(id.as_str()),
                ),
                AgentTarget::Alias(alias) => Json::object().with(
                    "alias",
                    Json::text(alias.as_str()),
                ),
            },
        },
    };
    Ok(request)
}

/// The text of a field, or nothing where it is no text.
pub open spec fn text_or_empty(value: JsonView, name: Seq<char>) -> Seq<char> {
    match value.at(name).as_text() {
        Some(text) => text,
        None => Seq::empty(),
    }
}

/// The method that a request asks for: empty where it names none.
pub fn method_of(request: &Json) -> (method: String)
    ensures
        method@ == text_or_empty(request@, "method"@),
{
    match request.text_at("method") {
        Some(method) => method.to_owned(),
        None => String::new(),
    }
}

/// The identifier of a request: empty where it has none.
pub fn request_id_of(request: &Json) -> (id: String)
    ensures
        id@ == text_or_empty(request@, "id"@),
{
    match request.text_at("id") {
        Some(id) => id.to_owned(),
        None => String::new(),
    }
}

/// The text of a request to the daemon, with every durable ID as the daemon takes it.
pub open spec fn request_text_of(
    request_id: Seq<char>,
    method: Seq<char>,
    params: JsonView,
) -> Result<Seq<char>, Seq<char>> {
    match normalized(params) {
        Ok(params) => Ok(json_text(request_view(request_id, method, params))),
        Err(refusal) => Err(refusal),
    }
}

/// Write the request that a task became, under its identifier.
pub fn request_text(request_id: &str, request: &Request) -> (r: Result<String, String>)
    ensures
        match (r, request_text_of(request_id@, request@.0, request@.1)) {
            (Ok(text), Ok(meant)) => text@ == meant,
            (Err(e), Err(refusal)) => e@ == refusal,
            _ => false,
        },
{
    match normalize_durable_ids(&request.params) {
        Ok(params) => Ok(show_json(&typed_request(request_id, request.method, &params))),
        Err(refusal) => Err(refusal),
    }
}

/// The method that the text of a request asks for: empty where it names none. A text
/// that is no document is refused.
pub fn method_in(request: &str) -> (r: Result<String, String>)
    ensures
        match (r, json_failure(request@)) {
            (Ok(method), None) => method@ == text_or_empty(json_of(request@), "method"@),
            (Err(e), Some(failure)) => e@ == failure,
            _ => false,
        },
{
    match parse_json(request) {
        Ok(request) => Ok(method_of(&request)),
        Err(failure) => Err(failure),
    }
}

/// The identifier in the text of a request: empty where it has none, or is no document.
pub fn request_id_in(request: &str) -> (id: String)
    ensures
        match json_failure(request@) {
            None => id@ == text_or_empty(json_of(request@), "id"@),
            Some(_) => id@.len() == 0,
        },
{
    match parse_json(request) {
        Ok(request) => request_id_of(&request),
        Err(_) => String::new(),
    }
}

/// What the client leaves behind about one exchange with the daemon.
#[derive(Debug, PartialEq, Eq)]
pub struct ClientTrace {
    pub request_id: String,
    pub method: String,
    /// The steps that were reached, each with its epoch milliseconds.
    pub marks: Vec<(String, u64)>,
    pub receipt_path: String,
    pub receipt_bytes: u64,
    pub stdout_written: bool,
    pub stdout_error: String,
    pub note: String,
}

/// The view of one mark.
pub open spec fn mark_view(mark: (String, u64)) -> JsonView {
    empty_object().with("name"@, text_view(mark.0@)).with("at_ms"@, int_view(mark.1 as int))
}

impl ClientTrace {
    /// The trace as a document.
    pub open spec fn view(&self) -> JsonView {
        empty_object().with("request_id"@, text_view(self.request_id@)).with(
            "method"@,
            text_view(self.method@),
        ).with(
            "marks"@,
            JsonView::List(self.marks@.map_values(|mark: (String, u64)| mark_view(mark))),
        ).with("receipt_path"@, text_view(self.receipt_path@)).with(
            "receipt_bytes"@,
            int_view(self.receipt_bytes as int),
        ).with("stdout_written"@, JsonView::Bool(self.stdout_written)).with(
            "stdout_error"@,
            text_view(self.stdout_error@),
        ).with("note"@, text_view(self.note@))
    }

    /// An empty trace of a request.
    pub fn new(request_id: String, method: String) -> (trace: ClientTrace)
        ensures
            trace.request_id == request_id,
            trace.method == method,
            trace.marks@.len() == 0,
            trace.receipt_path@.len() == 0,
            trace.receipt_bytes == 0,
            !trace.stdout_written,
            trace.stdout_error@.len() == 0,
            trace.note@.len() == 0,
    {
        ClientTrace {
            request_id,
            method,
            marks: Vec::new(),
            receipt_path: String::new(),
            receipt_bytes: 0,
            stdout_written: false,
            stdout_error: String::new(),
            note: String::new(),
        }
    }

    /// Note that a step was reached. Without a clock nothing is noted.
    pub fn mark(&mut self, name: &str, now_ms: Option<u64>)
        ensures
            match now_ms {
                Some(at) => final(self).marks@.len() == old(self).marks@.len() + 1
                    && final(self).marks@.drop_last() =~= old(self).marks@
                    && final(self).marks@.last().0@ == name@ && final(self).marks@.last().1 == at,
                None => final(self).marks@ == old(self).marks@,
            },
            final(self).request_id == old(self).request_id,
            final(self).method == old(self).method,
            final(self).receipt_path == old(self).receipt_path,
            final(self).receipt_bytes == old(self).receipt_bytes,
            final(self).stdout_written == old(self).stdout_written,
            final(self).stdout_error == old(self).stdout_error,
            final(self).note == old(self).note,
    {
        if let Some(at) = now_ms {
            self.marks.push((name.to_owned(), at));
        }
    }

    /// The trace as a document.
    pub fn document(&self) -> (document: Json)
        ensures
            document@ == self@,
    {
        let mut marks: Vec<Json> = Vec::new();
        let mut i: usize = 0;
        while i < self.marks.len()
            invariant
                i <= self.marks@.len(),
                marks@.len() == i,
                forall|j: int| 0 <= j < i ==> (#[trigger] marks@[j])@ == mark_view(self.marks@[j]),
            decreases self.marks@.len() - i,
        {
            let mark = &self.marks[i];
            marks.push(
                Json::object().with("name", Json::text(mark.0.as_str())).with(
                    "at_ms",
                    Json::unsigned(mark.1),
                ),
            );
            i = i + 1;
        }
        let list = Json::List(marks);
        assert(list@->List_0 =~= self.marks@.map_values(|mark: (String, u64)| mark_view(mark)));
        Json::object().with("request_id", Json::text(self.request_id.as_str())).with(
            "method",
            Json::text(self.method.as_str()),
        ).with("marks", list).with("receipt_path", Json::text(self.receipt_path.as_str())).with(
            "receipt_bytes",
            Json::unsigned(self.receipt_bytes),
        ).with("stdout_written", Json::Bool(self.stdout_written)).with(
            "stdout_error",
            Json::text(self.stdout_error.as_str()),
        ).with("note", Json::text(self.note.as_str()))
    }
}

/// Where the client keeps what it leaves behind: under the user's runtime
/// directory, or else under the temporary one.
pub open spec fn state_dir(runtime_dir: Option<String>, temp_dir: Seq<char>) -> Seq<char> {
    match runtime_dir {
        Some(dir) => under(dir@, "kelpie"@),
        None => under(temp_dir, "kelpie-client"@),
    }
}

/// Where the client keeps what it leaves behind.
pub fn client_state_dir(runtime_dir: &Option<String>, temp_dir: &str) -> (dir: String)
    ensures
        dir@ == state_dir(*runtime_dir, temp_dir@),
{
    match runtime_dir {
        Some(dir) => path_under(dir.as_str(), "kelpie"),
        None => path_under(temp_dir, "kelpie-client"),
    }
}

/// Bytes that end with a newline: one is added where it is missing.
pub open spec fn ended(bytes: Seq<u8>) -> Seq<u8> {
    if bytes.len() > 0 && bytes.last() == 10 {
        bytes
    } else {
        bytes.push(10)
    }
}

/// The contents of a file that holds these bytes as its lines.
pub fn end_line(bytes: Vec<u8>) -> (lines: Vec<u8>)
    ensures
        lines@ == ended(bytes@),
{
    let mut lines = bytes;
    if lines.len() == 0 || lines[lines.len() - 1] != 10 {
        lines.push(10);
    }
    lines
}

/// What was normalized stays as it is: normalizing again changes nothing.
pub proof fn law_normalized_ids_stay(value: JsonView)
    requires
        normalized(value) is Ok,
    ensures
        normalized(normalized(value)->Ok_0) == normalized(value),
    decreases value, 1int, 0int,
{
    match value {
        JsonView::Object(fields) => {
            let count = fields.len() as int;
            lemma_normalized_fields_stay(fields, count);
            let done = normalized_fields(fields, count)->Ok_0;
            assert(done.take(count) =~= done);
            assert(normalized_fields(done, count) == normalized_fields(fields, count));
        },
        JsonView::List(items) => {
            let count = items.len() as int;
            lemma_normalized_items_stay(items, count);
            let done = normalized_items(items, count)->Ok_0;
            assert(done.take(count) =~= done);
            assert(normalized_items(done, count) == normalized_items(items, count));
        },
        _ => {},
    }
}

proof fn lemma_normalized_fields_stay(fields: Seq<(Seq<char>, JsonView)>, count: int)
    requires
        0 <= count <= fields.len(),
        normalized_fields(fields, count) is Ok,
    ensures
        normalized_fields(fields, count)->Ok_0.len() == count,
        forall|more: Seq<(Seq<char>, JsonView)>|
            more.len() >= count && more.take(count) == normalized_fields(fields, count)->Ok_0
                ==> #[trigger] normalized_fields(more, count) == normalized_fields(fields, count),
    decreases fields, 0int, count,
{
    if count > 0 {
        lemma_normalized_fields_stay(fields, count - 1);
        let field = fields[count - 1];
        assert(decreases_to!(fields => fields[count - 1]));
        assert(decreases_to!(fields[count - 1] => fields[count - 1].1));
        if !is_id_field(field.0) {
            law_normalized_ids_stay(field.1);
        }
        let done = normalized_fields(fields, count)->Ok_0;
        assert forall|more: Seq<(Seq<char>, JsonView)>|
            more.len() >= count && more.take(count) == done implies #[trigger] normalized_fields(
            more,
            count,
        ) == normalized_fields(fields, count) by {
            assert(more.take(count - 1) =~= done.drop_last());
            assert(done.drop_last() =~= normalized_fields(fields, count - 1)->Ok_0);
            assert(more[count - 1] == more.take(count)[count - 1]);
            assert(normalized_fields(more, count - 1) == normalized_fields(fields, count - 1));
            assert(normalized_field(more[count - 1]) == normalized_field(field));
        }
    } else {
        assert forall|more: Seq<(Seq<char>, JsonView)>|
            more.len() >= count implies #[trigger] normalized_fields(more, count)
            == normalized_fields(fields, count) by {}
    }
}

proof fn lemma_normalized_items_stay(items: Seq<JsonView>, count: int)
    requires
        0 <= count <= items.len(),
        normalized_items(items, count) is Ok,
    ensures
        normalized_items(items, count)->Ok_0.len() == count,
        forall|more: Seq<JsonView>|
            more.len() >= count && more.take(count) == normalized_items(items, count)->Ok_0
                ==> #[trigger] normalized_items(more, count) == normalized_items(items, count),
    decreases items, 0int, count,
{
    if count > 0 {
        lemma_normalized_items_stay(items, count - 1);
        assert(decreases_to!(items => items[count - 1]));
        law_normalized_ids_stay(items[count - 1]);
        let done = normalized_items(items, count)->Ok_0;
        assert forall|more: Seq<JsonView>|
            more.len() >= count && more.take(count) == done implies #[trigger] normalized_items(
            more,
            count,
        ) == normalized_items(items, count) by {
            assert(more.take(count - 1) =~= done.drop_last());
            assert(done.drop_last() =~= normalized_items(items, count - 1)->Ok_0);
            assert(more[count - 1] == more.take(count)[count - 1]);
            assert(normalized_items(more, count - 1) == normalized_items(items, count - 1));
        }
    }
}

} // verus!
