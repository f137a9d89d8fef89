//! What a request to the daemon holds: each part of a task in its own field.

use vstd::prelude::*;

use super::{
    bodies_wanted, clear_request, due_at, key_of, optional_int_view, parent_view, renew_request,
    request_of, start_request, task_of, texts_view, Address, AgentTarget, Situation, Supplied, Task,
};
use crate::cli::{
    request_view, AdoptArgs, AttributionTarget, BodySource, Caller, Command, Due, Recipient,
    RenewArgs, StartCommand, StartParent,
};
use crate::json::{
    int_view, lemma_empty_get, lemma_with_get, lemma_with_is_object, text_view, JsonView,
};

verus! {

/// A text field that may be absent.
pub open spec fn optional_text(value: Option<Seq<char>>) -> Option<JsonView> {
    match value {
        Some(text) => Some(text_view(text)),
        None => None,
    }
}

/// An integer field that may be absent.
pub open spec fn optional_int(value: Option<i64>) -> Option<JsonView> {
    match value {
        Some(n) => Some(int_view(n as int)),
        None => None,
    }
}

impl Supplied {
    /// Whether the bodies are what was read from the sources of a task, each from its own.
    pub open spec fn was_read(self, task: Task, read: spec_fn(BodySource) -> Seq<char>) -> bool {
        forall|i: int|
            0 <= i < self.bodies@.len() ==> (#[trigger] self.bodies@[i])@ == read(
                bodies_wanted(task)[i],
            )
    }
}

/// A renew request holds the two prompts, each as it was read from its own source, for the
/// incarnation that was named or that asks.
#[verifier::spinoff_prover]
#[verifier::rlimit(30)]
pub proof fn law_renew_request_holds_what_was_given(
    renew: RenewArgs,
    situation: Situation,
    supplied: Supplied,
    read: spec_fn(BodySource) -> Seq<char>,
)
    requires
        supplied.meets(Task::Renew(Box::new(renew)), situation),
        supplied.was_read(Task::Renew(Box::new(renew)), read),
    ensures
        renew_request(renew, supplied, situation.now_ms) matches Ok(request) ==> {
            let (method, params) = request;
            {
                &&& method == "renew"@
                &&& params.get("prepare_prompt"@) == Some(text_view(read(renew.prepare_prompt)))
                &&& params.get("prompt"@) == Some(text_view(read(renew.prompt)))
                &&& params.get("requester"@) == Some(text_view(supplied.agent()))
                &&& params.get("recipient"@) == match renew.recipient {
                    Some(exact) => Some(text_view(exact.recipient@)),
                    None => Some(text_view(supplied.agent())),
                }
                &&& params.get("recipient_incarnation"@) == match renew.recipient {
                    Some(exact) => Some(text_view(exact.incarnation@)),
                    None => Some(text_view(supplied.caller->0.incarnation@)),
                }
                &&& params.get("on_timeout"@) == Some(text_view(renew.on_timeout@))
                &&& params.get("prepare_timeout_ms"@) == Some(int_view(renew.prepare_timeout_ms as int))
                &&& params.get("due_at_ms"@) == optional_int(due_at(renew.due, situation.now_ms)->Ok_0)
                &&& params.get("every_ms"@) == optional_int(renew.every_ms)
            }
        },
{
    broadcast use {lemma_with_get, lemma_with_is_object, lemma_empty_get};

    let task = Task::Renew(Box::new(renew));
    let wanted = bodies_wanted(task);
    assert(wanted.contains(renew.prepare_prompt) && wanted.contains(renew.prompt)) by {
        assert(wanted[0] == renew.prepare_prompt && wanted[1] == renew.prompt);
    }
    assert(supplied.bodies@[0]@ == read(wanted[0]));
    assert(supplied.bodies@[1]@ == read(wanted[1]));
    reveal_strlit("prepare_prompt");
    reveal_strlit("prompt");
    reveal_strlit("requester");
    reveal_strlit("recipient");
    reveal_strlit("recipient_incarnation");
    reveal_strlit("on_timeout");
    reveal_strlit("prepare_timeout_ms");
    reveal_strlit("due_at_ms");
    reveal_strlit("every_ms");
    assert("prepare_prompt"@.len() == 14);
    assert("prompt"@.len() == 6);
    assert("requester"@.len() == 9);
    assert("recipient"@.len() == 9);
    assert("recipient_incarnation"@.len() == 21);
    assert("on_timeout"@.len() == 10);
    assert("prepare_timeout_ms"@.len() == 18);
    assert("due_at_ms"@.len() == 9);
    assert("every_ms"@.len() == 8);
    assert("requester"@[2] == 'q');
    assert("recipient"@[2] == 'c');
    assert("requester"@[0] == 'r');
    assert("due_at_ms"@[0] == 'd');
    assert("recipient"@[0] == 'r');
}

/// A reply request answers the ask that was named, with the disposition that was given.
#[verifier::spinoff_prover]
#[verifier::rlimit(30)]
pub proof fn law_reply_request_holds_what_was_given(
    reply_to: String,
    requester: Option<Caller>,
    body: BodySource,
    disposition: &'static str,
    idempotency_key: Option<String>,
    situation: Situation,
    supplied: Supplied,
    read: spec_fn(BodySource) -> Seq<char>,
)
    requires
        supplied.meets(
            (Task::Reply { reply_to, requester, body, disposition, idempotency_key }),
            situation,
        ),
        supplied.was_read(
            (Task::Reply { reply_to, requester, body, disposition, idempotency_key }),
            read,
        ),
    ensures
        request_of(Task::Reply { reply_to, requester, body, disposition, idempotency_key }, situation, supplied) matches Ok(request) ==> {
            let (method, params) = request;
            {
                &&& method == "reply"@
                &&& params.get("reply_to"@) == Some(text_view(reply_to@))
                &&& params.get("disposition"@) == Some(text_view(disposition@))
                &&& params.get("body"@) == Some(text_view(read(body)))
                &&& params.get("requester_agent_id"@) == Some(text_view(supplied.agent()))
                &&& params.get("idempotency_key"@) == Some(text_view(key_of(idempotency_key, situation)))
            }
        },
{
    broadcast use {lemma_with_get, lemma_with_is_object, lemma_empty_get};

    let task = Task::Reply { reply_to, requester, body, disposition, idempotency_key };
    assert(bodies_wanted(task)[0] == body);
    assert(supplied.bodies@[0]@ == read(body));
    reveal_strlit("reply_to");
    reveal_strlit("disposition");
    reveal_strlit("body");
    reveal_strlit("requester_agent_id");
    reveal_strlit("idempotency_key");
    assert("reply_to"@.len() == 8);
    assert("disposition"@.len() == 11);
    assert("body"@.len() == 4);
    assert("requester_agent_id"@.len() == 18);
    assert("idempotency_key"@.len() == 15);
}

/// A retirement closes its pane only where that was asked for.
#[verifier::spinoff_prover]
#[verifier::rlimit(30)]
pub proof fn law_retire_request_holds_what_was_given(
    incarnation_id: String,
    idempotency_key: Option<String>,
    close_pane: bool,
    situation: Situation,
    supplied: Supplied,
)
    ensures
        request_of(Task::Retire { incarnation_id, idempotency_key, close_pane }, situation, supplied) matches Ok(request) ==> {
            let (method, params) = request;
            {
                &&& method == "retire"@
                &&& params.get("incarnation_id"@) == Some(text_view(incarnation_id@))
                &&& params.get("idempotency_key"@) == Some(text_view(key_of(idempotency_key, situation)))
                &&& params.get("close_pane"@) == Some(JsonView::Bool(close_pane))
            }
        },
{
    broadcast use {lemma_with_get, lemma_with_is_object, lemma_empty_get};

    reveal_strlit("incarnation_id");
    reveal_strlit("idempotency_key");
    reveal_strlit("close_pane");
    assert("incarnation_id"@.len() == 14);
    assert("idempotency_key"@.len() == 15);
    assert("close_pane"@.len() == 10);
}

/// A report is asked for as live and active as the command is.
#[verifier::spinoff_prover]
#[verifier::rlimit(30)]
pub proof fn law_report_request_holds_what_was_given(
    live: bool,
    active: bool,
    situation: Situation,
    supplied: Supplied,
)
    ensures
        request_of(Task::Report { live, active }, situation, supplied) matches Ok(request) ==> {
            let (method, params) = request;
            {
                &&& method == "report"@
                &&& params.get("live"@) == Some(JsonView::Bool(live))
                &&& params.get("active"@) == Some(JsonView::Bool(active))
            }
        },
{
    broadcast use {lemma_with_get, lemma_with_is_object, lemma_empty_get};

    reveal_strlit("live");
    reveal_strlit("active");
    assert("live"@.len() == 4);
    assert("active"@.len() == 6);
}

/// A cancellation names its ask, its reason and who wants it.
#[verifier::spinoff_prover]
#[verifier::rlimit(30)]
pub proof fn law_cancel_request_holds_what_was_given(
    ask_id: String,
    reason: String,
    requester: Option<Caller>,
    situation: Situation,
    supplied: Supplied,
)
    ensures
        request_of(Task::Cancel { ask_id, reason, requester }, situation, supplied) matches Ok(request) ==> {
            let (method, params) = request;
            {
                &&& method == "cancel"@
                &&& params.get("ask_message_id"@) == Some(text_view(ask_id@))
                &&& params.get("reason"@) == Some(text_view(reason@))
                &&& params.get("requester_agent_id"@) == Some(text_view(supplied.agent()))
            }
        },
{
    broadcast use {lemma_with_get, lemma_with_is_object, lemma_empty_get};

    reveal_strlit("ask_message_id");
    reveal_strlit("reason");
    reveal_strlit("requester_agent_id");
    assert("ask_message_id"@.len() == 14);
    assert("reason"@.len() == 6);
    assert("requester_agent_id"@.len() == 18);
}

/// The end of a policy names it, its reason and who wants it.
#[verifier::spinoff_prover]
#[verifier::rlimit(30)]
pub proof fn law_renew_cancel_request_holds_what_was_given(
    renew_id: String,
    reason: String,
    requester: Option<Caller>,
    situation: Situation,
    supplied: Supplied,
)
    ensures
        request_of(Task::RenewCancel { renew_id, reason, requester }, situation, supplied) matches Ok(request) ==> {
            let (method, params) = request;
            {
                &&& method == "renew.cancel"@
                &&& params.get("renew_id"@) == Some(text_view(renew_id@))
                &&& params.get("reason"@) == Some(text_view(reason@))
                &&& params.get("requester_agent_id"@) == Some(text_view(supplied.agent()))
            }
        },
{
    broadcast use {lemma_with_get, lemma_with_is_object, lemma_empty_get};

    reveal_strlit("renew_id");
    reveal_strlit("reason");
    reveal_strlit("requester_agent_id");
    assert("renew_id"@.len() == 8);
    assert("reason"@.len() == 6);
    assert("requester_agent_id"@.len() == 18);
}

/// The end of a schedule names it, its reason and who wants it.
#[verifier::spinoff_prover]
#[verifier::rlimit(30)]
pub proof fn law_schedule_cancel_request_holds_what_was_given(
    schedule_id: String,
    reason: String,
    requester: Option<Caller>,
    situation: Situation,
    supplied: Supplied,
)
    ensures
        request_of(Task::ScheduleCancel { schedule_id, reason, requester }, situation, supplied) matches Ok(request) ==> {
            let (method, params) = request;
            {
                &&& method == "schedule.cancel"@
                &&& params.get("schedule_id"@) == Some(text_view(schedule_id@))
                &&& params.get("reason"@) == Some(text_view(reason@))
                &&& params.get("requester_agent_id"@) == Some(text_view(supplied.agent()))
            }
        },
{
    broadcast use {lemma_with_get, lemma_with_is_object, lemma_empty_get};

    reveal_strlit("schedule_id");
    reveal_strlit("reason");
    reveal_strlit("requester_agent_id");
    assert("schedule_id"@.len() == 11);
    assert("reason"@.len() == 6);
    assert("requester_agent_id"@.len() == 18);
}

/// A snooze names its ask and how long it lasts.
#[verifier::spinoff_prover]
#[verifier::rlimit(30)]
pub proof fn law_snooze_request_holds_what_was_given(
    ask_id: String,
    until_ms: Option<i64>,
    for_ms: Option<i64>,
    requester: Option<Caller>,
    situation: Situation,
    supplied: Supplied,
)
    ensures
        request_of(Task::ReminderSnooze { ask_id, until_ms, for_ms, requester }, situation, supplied) matches Ok(request) ==> {
            let (method, params) = request;
            {
                &&& method == "reminder.snooze"@
                &&& params.get("ask_message_id"@) == Some(text_view(ask_id@))
                &&& params.get("until_ms"@) == Some(optional_int_view(until_ms))
                &&& params.get("for_ms"@) == Some(optional_int_view(for_ms))
                &&& params.get("requester_agent_id"@) == Some(text_view(supplied.agent()))
            }
        },
{
    broadcast use {lemma_with_get, lemma_with_is_object, lemma_empty_get};

    reveal_strlit("ask_message_id");
    reveal_strlit("until_ms");
    reveal_strlit("for_ms");
    reveal_strlit("requester_agent_id");
    assert("ask_message_id"@.len() == 14);
    assert("until_ms"@.len() == 8);
    assert("for_ms"@.len() == 6);
    assert("requester_agent_id"@.len() == 18);
}

/// An interval names its ask and how often it is reminded of.
#[verifier::spinoff_prover]
#[verifier::rlimit(30)]
pub proof fn law_interval_request_holds_what_was_given(
    ask_id: String,
    every_ms: i64,
    requester: Option<Caller>,
    situation: Situation,
    supplied: Supplied,
)
    ensures
        request_of(Task::ReminderInterval { ask_id, every_ms, requester }, situation, supplied) matches Ok(request) ==> {
            let (method, params) = request;
            {
                &&& method == "reminder.interval"@
                &&& params.get("ask_message_id"@) == Some(text_view(ask_id@))
                &&& params.get("every_ms"@) == Some(int_view(every_ms as int))
                &&& params.get("requester_agent_id"@) == Some(text_view(supplied.agent()))
            }
        },
{
    broadcast use {lemma_with_get, lemma_with_is_object, lemma_empty_get};

    reveal_strlit("ask_message_id");
    reveal_strlit("every_ms");
    reveal_strlit("requester_agent_id");
    assert("ask_message_id"@.len() == 14);
    assert("every_ms"@.len() == 8);
    assert("requester_agent_id"@.len() == 18);
}

/// Reminders end for the ask that was named.
#[verifier::spinoff_prover]
#[verifier::rlimit(30)]
pub proof fn law_disable_request_holds_what_was_given(
    ask_id: String,
    requester: Option<Caller>,
    situation: Situation,
    supplied: Supplied,
)
    ensures
        request_of(Task::ReminderDisable { ask_id, requester }, situation, supplied) matches Ok(request) ==> {
            let (method, params) = request;
            {
                &&& method == "reminder.disable"@
                &&& params.get("ask_message_id"@) == Some(text_view(ask_id@))
                &&& params.get("requester_agent_id"@) == Some(text_view(supplied.agent()))
            }
        },
{
    broadcast use {lemma_with_get, lemma_with_is_object, lemma_empty_get};

    reveal_strlit("ask_message_id");
    reveal_strlit("requester_agent_id");
    assert("ask_message_id"@.len() == 14);
    assert("requester_agent_id"@.len() == 18);
}

/// What is pending is asked of the agent that was looked up.
#[verifier::spinoff_prover]
#[verifier::rlimit(30)]
pub proof fn law_pending_request_holds_who_asks(
    target: Option<Caller>,
    situation: Situation,
    supplied: Supplied,
)
    ensures
        request_of(Task::Pending { target }, situation, supplied) matches Ok(request) ==> {
            let (method, params) = request;
            {
                &&& method == "pending"@
                &&& params.get("agent_id"@) == Some(text_view(supplied.agent()))
            }
        },
{
    broadcast use {lemma_with_get, lemma_with_is_object, lemma_empty_get};

    reveal_strlit("agent_id");
    assert("agent_id"@.len() == 8);
}

/// The schedules are asked of the agent that was looked up.
#[verifier::spinoff_prover]
#[verifier::rlimit(30)]
pub proof fn law_schedules_request_holds_who_asks(
    target: Option<Caller>,
    situation: Situation,
    supplied: Supplied,
)
    ensures
        request_of(Task::Schedules { target }, situation, supplied) matches Ok(request) ==> {
            let (method, params) = request;
            {
                &&& method == "schedule.list"@
                &&& params.get("agent_id"@) == Some(text_view(supplied.agent()))
            }
        },
{
    broadcast use {lemma_with_get, lemma_with_is_object, lemma_empty_get};

    reveal_strlit("agent_id");
    assert("agent_id"@.len() == 8);
}

/// A name is looked up as it was given.
#[verifier::spinoff_prover]
#[verifier::rlimit(30)]
pub proof fn law_info_requests_hold_what_was_given(
    name: String,
    situation: Situation,
    supplied: Supplied,
)
    ensures
        request_of(Task::NameInfo { name }, situation, supplied) matches Ok(request) ==> {
            let (method, params) = request;
            {
                &&& method == "name.info"@
                &&& params.get("name"@) == Some(text_view(name@))
            }
        },
{
    broadcast use {lemma_with_get, lemma_with_is_object, lemma_empty_get};

    reveal_strlit("name");
    assert("name"@.len() == 4);
}

/// An ask is looked up by the ID that was given.
#[verifier::spinoff_prover]
#[verifier::rlimit(30)]
pub proof fn law_ask_info_request_holds_what_was_given(
    ask_id: String,
    situation: Situation,
    supplied: Supplied,
)
    ensures
        request_of(Task::AskInfo { ask_id }, situation, supplied) matches Ok(request) ==> {
            let (method, params) = request;
            {
                &&& method == "ask.info"@
                &&& params.get("ask_message_id"@) == Some(text_view(ask_id@))
            }
        },
{
    broadcast use {lemma_with_get, lemma_with_is_object, lemma_empty_get};

    reveal_strlit("ask_message_id");
    assert("ask_message_id"@.len() == 14);
}

/// A rename gives its target the name that was given: an ID or a name goes as it is, a pane
/// as the agent that was looked up.
#[verifier::spinoff_prover]
#[verifier::rlimit(30)]
pub proof fn law_rename_request_holds_what_was_given(
    target: Option<Caller>,
    name: String,
    situation: Situation,
    supplied: Supplied,
)
    ensures
        request_of(Task::Rename { target, name }, situation, supplied) matches Ok(request) ==> {
            let (method, params) = request;
            {
                &&& method == "rename"@
                &&& params.get("name"@) == Some(text_view(name@))
                &&& params.get("agent_id"@) == match target {
                    Some(Caller::Id(id)) => Some(text_view(id@)),
                    Some(Caller::Alias(_)) => None,
                    _ => Some(text_view(supplied.agent())),
                }
                &&& params.get("alias"@) == match target {
                    Some(Caller::Alias(alias)) => Some(text_view(alias@)),
                    _ => None,
                }
            }
        },
{
    broadcast use {lemma_with_get, lemma_with_is_object, lemma_empty_get};

    reveal_strlit("name");
    reveal_strlit("agent_id");
    reveal_strlit("alias");
    assert("name"@.len() == 4);
    assert("agent_id"@.len() == 8);
    assert("alias"@.len() == 5);
}

/// A socket waiter is registered under the name and the parent that were given.
#[verifier::spinoff_prover]
#[verifier::rlimit(30)]
pub proof fn law_waiter_register_request_holds_what_was_given(
    public_name: String,
    parent: StartParent,
    idempotency_key: Option<String>,
    situation: Situation,
    supplied: Supplied,
)
    ensures
        request_of(Task::WaiterRegister { public_name, parent, idempotency_key }, situation, supplied) matches Ok(request) ==> {
            let (method, params) = request;
            {
                &&& method == "waiter.register"@
                &&& params.get("public_name"@) == Some(text_view(public_name@))
                &&& params.get("parent"@) == Some(parent_view(parent))
                &&& params.get("idempotency_key"@) == Some(text_view(key_of(idempotency_key, situation)))
            }
        },
{
    broadcast use {lemma_with_get, lemma_with_is_object, lemma_empty_get};

    reveal_strlit("public_name");
    reveal_strlit("parent");
    reveal_strlit("idempotency_key");
    assert("public_name"@.len() == 11);
    assert("parent"@.len() == 6);
    assert("idempotency_key"@.len() == 15);
}

/// A socket waiter is retired by its ID or by its name.
#[verifier::spinoff_prover]
#[verifier::rlimit(30)]
pub proof fn law_waiter_retire_request_holds_what_was_given(
    target: AgentTarget,
    situation: Situation,
    supplied: Supplied,
)
    ensures
        request_of(Task::WaiterRetire { target }, situation, supplied) matches Ok(request) ==> {
            let (method, params) = request;
            {
                &&& method == "waiter.retire"@
                &&& params.get("logical_agent_id"@) == match target {
                    AgentTarget::Id(id) => Some(text_view(id@)),
                    AgentTarget::Alias(_) => None,
                }
                &&& params.get("alias"@) == match target {
                    AgentTarget::Id(_) => None,
                    AgentTarget::Alias(alias) => Some(text_view(alias@)),
                }
            }
        },
{
    broadcast use {lemma_with_get, lemma_with_is_object, lemma_empty_get};

    reveal_strlit("logical_agent_id");
    reveal_strlit("alias");
    assert("logical_agent_id"@.len() == 16);
    assert("alias"@.len() == 5);
}

/// A notice holds the text that was read for it.
#[verifier::spinoff_prover]
#[verifier::rlimit(30)]
pub proof fn law_notice_request_holds_its_body(
    body: BodySource,
    situation: Situation,
    supplied: Supplied,
    read: spec_fn(BodySource) -> Seq<char>,
)
    requires
        supplied.meets((Task::Notice { body }), situation),
        supplied.was_read((Task::Notice { body }), read),
    ensures
        request_of(Task::Notice { body }, situation, supplied) matches Ok(request) ==> {
            let (method, params) = request;
            {
                &&& method == "notice.create"@
                &&& params.get("body"@) == Some(text_view(read(body)))
            }
        },
{
    broadcast use {lemma_with_get, lemma_with_is_object, lemma_empty_get};

    assert(bodies_wanted(Task::Notice { body })[0] == body);
    assert(supplied.bodies@[0]@ == read(body));
    reveal_strlit("body");
    assert("body"@.len() == 4);
}

/// A tell says what was read for it to the recipient that was given.
#[verifier::spinoff_prover]
#[verifier::rlimit(60)]
pub proof fn law_tell_request_holds_what_was_given(
    recipient: Address,
    body: BodySource,
    sender: Option<Caller>,
    idempotency_key: Option<String>,
    due: Option<Due>,
    every_ms: Option<i64>,
    situation: Situation,
    supplied: Supplied,
    read: spec_fn(BodySource) -> Seq<char>,
)
    requires
        supplied.meets((Task::Tell { recipient, body, sender, idempotency_key, due, every_ms }), situation),
        supplied.was_read((Task::Tell { recipient, body, sender, idempotency_key, due, every_ms }), read),
    ensures
        request_of(Task::Tell { recipient, body, sender, idempotency_key, due, every_ms }, situation, supplied) matches Ok(request) ==> {
            let (method, params) = request;
            {
                &&& method == "tell"@
                &&& params.get("sender"@) == Some(text_view(supplied.agent()))
                &&& params.get("body"@) == Some(text_view(read(body)))
                &&& params.get("idempotency_key"@) == Some(text_view(key_of(idempotency_key, situation)))
                &&& params.get("recipient"@) == match recipient {
                    Address::Alias(_) => None,
                    Address::Exact(exact) => Some(text_view(exact.recipient@)),
                    Address::Agent(id) => Some(text_view(id@)),
                }
                &&& params.get("recipient_incarnation"@) == match recipient {
                    Address::Exact(exact) => Some(text_view(exact.incarnation@)),
                    _ => None,
                }
                &&& params.get("recipient_alias"@) == match recipient {
                    Address::Alias(name) => Some(text_view(name@)),
                    _ => None,
                }
                &&& params.get("due_at_ms"@) == optional_int(due_at(due, situation.now_ms)->Ok_0)
                &&& params.get("every_ms"@) == optional_int(every_ms)
            }
        },
{
    broadcast use {lemma_with_get, lemma_with_is_object, lemma_empty_get};

    assert(bodies_wanted(Task::Tell { recipient, body, sender, idempotency_key, due, every_ms })[0] == body);
    assert(supplied.bodies@[0]@ == read(body));
    reveal_strlit("sender");
    reveal_strlit("body");
    reveal_strlit("idempotency_key");
    reveal_strlit("recipient");
    reveal_strlit("recipient_incarnation");
    reveal_strlit("recipient_alias");
    reveal_strlit("due_at_ms");
    reveal_strlit("every_ms");
    assert("sender"@.len() == 6);
    assert("body"@.len() == 4);
    assert("idempotency_key"@.len() == 15);
    assert("recipient"@.len() == 9);
    assert("recipient_incarnation"@.len() == 21);
    assert("recipient_alias"@.len() == 15);
    assert("due_at_ms"@.len() == 9);
    assert("every_ms"@.len() == 8);
    assert("idempotency_key"@[0] == 'i');
    assert("recipient_alias"@[0] == 'r');
    assert("recipient"@[0] == 'r');
    assert("due_at_ms"@[0] == 'd');
}

/// An ask says what was read for it to the recipient that was given, with the reminders that
/// were asked for.
#[verifier::spinoff_prover]
#[verifier::rlimit(80)]
pub proof fn law_ask_request_holds_what_was_given(
    recipient: Address,
    body: BodySource,
    sender: Option<Caller>,
    idempotency_key: Option<String>,
    due: Option<Due>,
    remind_after_ms: Option<i64>,
    no_remind: bool,
    from_operator: bool,
    situation: Situation,
    supplied: Supplied,
    read: spec_fn(BodySource) -> Seq<char>,
)
    requires
        supplied.meets((Task::Ask {
                recipient,
                body,
                sender,
                idempotency_key,
                due,
                remind_after_ms,
                no_remind,
                from_operator,
            }), situation),
        supplied.was_read((Task::Ask {
                recipient,
                body,
                sender,
                idempotency_key,
                due,
                remind_after_ms,
                no_remind,
                from_operator,
            }), read),
    ensures
        request_of(Task::Ask {
                recipient,
                body,
                sender,
                idempotency_key,
                due,
                remind_after_ms,
                no_remind,
                from_operator,
            }, situation, supplied) matches Ok(request) ==> {
            let (method, params) = request;
            {
                &&& method == "ask"@
                &&& params.get("sender"@) == Some(text_view(supplied.agent()))
                &&& params.get("body"@) == Some(text_view(read(body)))
                &&& params.get("idempotency_key"@) == Some(text_view(key_of(idempotency_key, situation)))
                &&& params.get("recipient"@) == match recipient {
                    Address::Alias(_) => None,
                    Address::Exact(exact) => Some(text_view(exact.recipient@)),
                    Address::Agent(id) => Some(text_view(id@)),
                }
                &&& params.get("recipient_incarnation"@) == match recipient {
                    Address::Exact(exact) => Some(text_view(exact.incarnation@)),
                    _ => None,
                }
                &&& params.get("recipient_alias"@) == match recipient {
                    Address::Alias(name) => Some(text_view(name@)),
                    _ => None,
                }
                &&& params.get("due_at_ms"@) == optional_int(due_at(due, situation.now_ms)->Ok_0)
                &&& params.get("remind_after_ms"@) == optional_int(remind_after_ms)
                &&& params.get("no_remind"@) == if no_remind { Some(JsonView::Bool(true)) } else { None }
                &&& params.get("from_operator"@) == if from_operator { Some(JsonView::Bool(true)) } else { None }
            }
        },
{
    broadcast use {lemma_with_get, lemma_with_is_object, lemma_empty_get};

    assert(bodies_wanted(Task::Ask {
                recipient,
                body,
                sender,
                idempotency_key,
                due,
                remind_after_ms,
                no_remind,
                from_operator,
            })[0] == body);
    assert(supplied.bodies@[0]@ == read(body));
    reveal_strlit("sender");
    reveal_strlit("body");
    reveal_strlit("idempotency_key");
    reveal_strlit("recipient");
    reveal_strlit("recipient_incarnation");
    reveal_strlit("recipient_alias");
    reveal_strlit("due_at_ms");
    reveal_strlit("remind_after_ms");
    reveal_strlit("no_remind");
    reveal_strlit("from_operator");
    assert("sender"@.len() == 6);
    assert("body"@.len() == 4);
    assert("idempotency_key"@.len() == 15);
    assert("recipient"@.len() == 9);
    assert("recipient_incarnation"@.len() == 21);
    assert("recipient_alias"@.len() == 15);
    assert("due_at_ms"@.len() == 9);
    assert("remind_after_ms"@.len() == 15);
    assert("no_remind"@.len() == 9);
    assert("from_operator"@.len() == 13);
    assert("idempotency_key"@[0] == 'i');
    assert("recipient_alias"@[0] == 'r');
    assert("remind_after_ms"@[0] == 'r');
    assert("recipient"@[0] == 'r');
    assert("due_at_ms"@[0] == 'd');
    assert("no_remind"@[0] == 'n');
    assert("recipient_alias"@[2] == 'c');
    assert("remind_after_ms"@[2] == 'm');
}

/// A clear is of the recipient that was given: a name, or one exact incarnation.
#[verifier::spinoff_prover]
#[verifier::rlimit(30)]
pub proof fn law_clear_request_holds_what_was_given(
    recipient: Address,
    key: Seq<char>,
)
    ensures
        clear_request(recipient, key) matches Ok(request) ==> {
            let (method, params) = request;
            {
                &&& method == "clear"@
                &&& params.get("idempotency_key"@) == Some(text_view(key))
                &&& params.get("recipient"@) == match recipient {
                    Address::Alias(_) => None,
                    Address::Exact(exact) => Some(text_view(exact.recipient@)),
                    Address::Agent(id) => Some(text_view(id@)),
                }
                &&& params.get("recipient_incarnation"@) == match recipient {
                    Address::Exact(exact) => Some(text_view(exact.incarnation@)),
                    _ => None,
                }
                &&& params.get("recipient_alias"@) == match recipient {
                    Address::Alias(name) => Some(text_view(name@)),
                    _ => None,
                }
            }
        },
{
    broadcast use {lemma_with_get, lemma_with_is_object, lemma_empty_get};

    reveal_strlit("idempotency_key");
    reveal_strlit("recipient");
    reveal_strlit("recipient_incarnation");
    reveal_strlit("recipient_alias");
    assert("idempotency_key"@.len() == 15);
    assert("recipient"@.len() == 9);
    assert("recipient_incarnation"@.len() == 21);
    assert("recipient_alias"@.len() == 15);
    assert("idempotency_key"@[0] == 'i');
    assert("recipient_alias"@[0] == 'r');
}

/// An adoption holds the pane and the terminal that were given, has no parent, and claims
/// nothing that was not written.
#[verifier::spinoff_prover]
#[verifier::rlimit(100)]
pub proof fn law_adopt_request_holds_what_was_given(
    adopt: AdoptArgs,
    situation: Situation,
    supplied: Supplied,
)
    ensures
        request_of(Task::Adopt(Box::new(adopt)), situation, supplied) matches Ok(request) ==> {
            let (method, params) = request;
            {
                &&& method == "adopt"@
                &&& params.get("pane_id"@) == Some(text_view(adopt.pane_id@))
                &&& params.get("expected_terminal_id"@) == Some(text_view(adopt.terminal_id@))
                &&& params.get("parent"@) == Some(parent_view(StartParent::Parentless))
                &&& params.get("herdr_session"@) == Some(text_view(adopt.herdr_session@))
                &&& params.get("backend_args"@) == Some(texts_view(adopt.backend_args@))
                &&& params.get("idempotency_key"@) == Some(text_view(key_of(adopt.idempotency_key, situation)))
                &&& params.get("requested_model"@) == optional_text(super::shown(adopt.requested_model))
                &&& params.get("requested_provider"@) == optional_text(super::shown(adopt.requested_provider))
                &&& params.get("requested_effort"@) == optional_text(super::shown(adopt.requested_effort))
                &&& params.get("public_name"@) == optional_text(super::shown(adopt.public_name))
                &&& params.get("backend_kind"@) == optional_text(super::shown(adopt.backend_kind))
                &&& params.get("logical_agent_id"@) == optional_text(super::shown(adopt.logical_agent_id))
            }
        },
{
    broadcast use {lemma_with_get, lemma_with_is_object, lemma_empty_get};

    reveal_strlit("pane_id");
    reveal_strlit("expected_terminal_id");
    reveal_strlit("parent");
    reveal_strlit("herdr_session");
    reveal_strlit("backend_args");
    reveal_strlit("idempotency_key");
    reveal_strlit("requested_model");
    reveal_strlit("requested_provider");
    reveal_strlit("requested_effort");
    reveal_strlit("public_name");
    reveal_strlit("backend_kind");
    reveal_strlit("logical_agent_id");
    assert("pane_id"@.len() == 7);
    assert("expected_terminal_id"@.len() == 20);
    assert("parent"@.len() == 6);
    assert("herdr_session"@.len() == 13);
    assert("backend_args"@.len() == 12);
    assert("idempotency_key"@.len() == 15);
    assert("requested_model"@.len() == 15);
    assert("requested_provider"@.len() == 18);
    assert("requested_effort"@.len() == 16);
    assert("public_name"@.len() == 11);
    assert("backend_kind"@.len() == 12);
    assert("logical_agent_id"@.len() == 16);
    assert("backend_args"@[8] == 'a');
    assert("backend_kind"@[8] == 'k');
    assert("idempotency_key"@[0] == 'i');
    assert("requested_model"@[0] == 'r');
    assert("requested_effort"@[0] == 'r');
    assert("logical_agent_id"@[0] == 'l');
}

/// A whoami is of the name or the pane that was given, or else of the own pane.
#[verifier::spinoff_prover]
#[verifier::rlimit(30)]
pub proof fn law_whoami_request_holds_what_was_given(
    target: Option<Caller>,
    situation: Situation,
    supplied: Supplied,
)
    ensures
        request_of(Task::Whoami { target }, situation, supplied) matches Ok(request) ==> {
            let (method, params) = request;
            {
                &&& method == "whoami"@
                &&& params.get("alias"@) == match target {
                    Some(Caller::Alias(alias)) => Some(text_view(alias@)),
                    _ => None,
                }
                &&& params.get("pane_id"@) == match target {
                    Some(Caller::Pane(pane)) => Some(text_view(pane@)),
                    Some(_) => None,
                    None => optional_text(super::shown(situation.own_pane)),
                }
                &&& params.get("lazy_adopt_key"@) == Some(text_view(situation.request_id@ + ":lazy-adopt:self"@))
            }
        },
{
    broadcast use {lemma_with_get, lemma_with_is_object, lemma_empty_get};

    reveal_strlit("alias");
    reveal_strlit("pane_id");
    reveal_strlit("lazy_adopt_key");
    assert("alias"@.len() == 5);
    assert("pane_id"@.len() == 7);
    assert("lazy_adopt_key"@.len() == 14);
}

/// An attribution is of the one target that was given, and refreshed only where that was
/// asked for.
#[verifier::spinoff_prover]
#[verifier::rlimit(30)]
pub proof fn law_attribution_request_holds_what_was_given(
    target: AttributionTarget,
    refresh: bool,
    situation: Situation,
    supplied: Supplied,
)
    ensures
        request_of(Task::Attribution { target, refresh }, situation, supplied) matches Ok(request) ==> {
            let (method, params) = request;
            {
                &&& method == "attribution"@
                &&& params.get("incarnation_id"@) == match target {
                    AttributionTarget::Incarnation(id) => Some(text_view(id@)),
                    _ => None,
                }
                &&& params.get("agent_id"@) == match target {
                    AttributionTarget::Agent(id) => Some(text_view(id@)),
                    _ => None,
                }
                &&& params.get("alias"@) == match target {
                    AttributionTarget::Alias(name) => Some(text_view(name@)),
                    _ => None,
                }
                &&& params.get("pane_id"@) == match target {
                    AttributionTarget::Pane(pane) => Some(text_view(pane@)),
                    _ => None,
                }
                &&& params.get("refresh"@) == if refresh { Some(JsonView::Bool(true)) } else { None }
            }
        },
{
    broadcast use {lemma_with_get, lemma_with_is_object, lemma_empty_get};

    reveal_strlit("incarnation_id");
    reveal_strlit("agent_id");
    reveal_strlit("alias");
    reveal_strlit("pane_id");
    reveal_strlit("refresh");
    assert("incarnation_id"@.len() == 14);
    assert("agent_id"@.len() == 8);
    assert("alias"@.len() == 5);
    assert("pane_id"@.len() == 7);
    assert("refresh"@.len() == 7);
    assert("pane_id"@[0] == 'p');
    assert("refresh"@[0] == 'r');
}

/// A who is of the one target that was given, or else of the own pane, and adopts the caller
/// only where that was asked for.
#[verifier::spinoff_prover]
#[verifier::rlimit(80)]
pub proof fn law_who_request_holds_what_was_given(
    target: Option<AttributionTarget>,
    adopt_caller: bool,
    history: bool,
    resolve: bool,
    refresh: bool,
    situation: Situation,
    supplied: Supplied,
)
    ensures
        request_of(Task::Who { target, adopt_caller, history, resolve, refresh }, situation, supplied) matches Ok(request) ==> {
            let (method, params) = request;
            {
                &&& method == "who"@
                &&& params.get("incarnation_id"@) == match target {
                    Some(AttributionTarget::Incarnation(id)) => Some(text_view(id@)),
                    _ => None,
                }
                &&& params.get("agent_id"@) == match target {
                    Some(AttributionTarget::Agent(id)) => Some(text_view(id@)),
                    _ => None,
                }
                &&& params.get("alias"@) == match target {
                    Some(AttributionTarget::Alias(name)) => Some(text_view(name@)),
                    _ => None,
                }
                &&& params.get("pane_id"@) == match target {
                    Some(AttributionTarget::Pane(pane)) => Some(text_view(pane@)),
                    Some(_) => None,
                    None => optional_text(super::shown(situation.own_pane)),
                }
                &&& params.get("history"@) == Some(JsonView::Bool(history))
                &&& params.get("resolve"@) == Some(JsonView::Bool(resolve))
                &&& params.get("refresh"@) == Some(JsonView::Bool(refresh))
                &&& params.get("lazy_adopt_key"@) == if adopt_caller {
                    Some(text_view(situation.request_id@ + ":lazy-adopt:self"@))
                } else {
                    None
                }
            }
        },
{
    broadcast use {lemma_with_get, lemma_with_is_object, lemma_empty_get};

    reveal_strlit("incarnation_id");
    reveal_strlit("agent_id");
    reveal_strlit("alias");
    reveal_strlit("pane_id");
    reveal_strlit("history");
    reveal_strlit("resolve");
    reveal_strlit("refresh");
    reveal_strlit("lazy_adopt_key");
    assert("incarnation_id"@.len() == 14);
    assert("agent_id"@.len() == 8);
    assert("alias"@.len() == 5);
    assert("pane_id"@.len() == 7);
    assert("history"@.len() == 7);
    assert("resolve"@.len() == 7);
    assert("refresh"@.len() == 7);
    assert("lazy_adopt_key"@.len() == 14);
    assert("incarnation_id"@[0] == 'i');
    assert("lazy_adopt_key"@[0] == 'l');
    assert("pane_id"@[0] == 'p');
    assert("history"@[0] == 'h');
    assert("resolve"@[0] == 'r');
    assert("refresh"@[0] == 'r');
    assert("resolve"@[2] == 's');
    assert("refresh"@[2] == 'f');
}

/// A start request holds what the command says, and is a handoff exactly where it replaces
/// an incarnation.
#[verifier::spinoff_prover]
#[verifier::rlimit(100)]
pub proof fn law_start_request_holds_what_was_given(
    start: StartCommand,
    supplied: Supplied,
    key: Seq<char>,
)
    ensures
        ({
            let (method, params) = start_request(start, supplied, key);
            &&& method == if supplied.handoff is Some || start.supersedes is Some {
                "handoff"@
            } else {
                "start"@
            }
            &&& params.get("public_name"@) == Some(text_view(start.public_name@))
            &&& params.get("parent"@) == Some(parent_view(start.parent))
            &&& params.get("herdr_session"@) == Some(text_view(start.herdr_session@))
            &&& params.get("pane_id"@) == Some(text_view(start.pane_id@))
            &&& params.get("expected_terminal_id"@) == Some(text_view(start.terminal_id@))
            &&& params.get("backend_kind"@) == Some(text_view(start.backend_kind@))
            &&& params.get("backend_args"@) == Some(texts_view(start.backend_args@))
            &&& params.get("working_directory"@) == Some(text_view(start.working_directory@))
            &&& params.get("idempotency_key"@) == Some(text_view(key))
            &&& params.get("readiness_timeout_ms"@) == Some(int_view(start.readiness_timeout_ms as int))
            &&& params.get("keep_open"@) == Some(JsonView::Bool(start.keep_open))
            &&& params.get("logical_agent_id"@) == match supplied.handoff {
                Some((agent, _)) => Some(text_view(agent@)),
                None => optional_text(super::shown(start.logical_agent_id)),
            }
            &&& params.get("requested_model"@) == optional_text(super::shown(start.requested_model))
            &&& params.get("requested_provider"@) == optional_text(super::shown(start.requested_provider))
            &&& params.get("requested_effort"@) == optional_text(super::shown(start.requested_effort))
            &&& params.get("supersedes"@) == match supplied.handoff {
                Some((_, incarnation)) => Some(text_view(incarnation@)),
                None => optional_text(super::shown(start.supersedes)),
            }
        }),
{
    broadcast use {lemma_with_get, lemma_with_is_object, lemma_empty_get};

    reveal_strlit("public_name");
    reveal_strlit("parent");
    reveal_strlit("herdr_session");
    reveal_strlit("pane_id");
    reveal_strlit("expected_terminal_id");
    reveal_strlit("backend_kind");
    reveal_strlit("backend_args");
    reveal_strlit("working_directory");
    reveal_strlit("idempotency_key");
    reveal_strlit("readiness_timeout_ms");
    reveal_strlit("keep_open");
    reveal_strlit("logical_agent_id");
    reveal_strlit("requested_model");
    reveal_strlit("requested_provider");
    reveal_strlit("requested_effort");
    reveal_strlit("supersedes");
    reveal_strlit("initial_message");
    assert("public_name"@.len() == 11);
    assert("parent"@.len() == 6);
    assert("herdr_session"@.len() == 13);
    assert("pane_id"@.len() == 7);
    assert("expected_terminal_id"@.len() == 20);
    assert("backend_kind"@.len() == 12);
    assert("backend_args"@.len() == 12);
    assert("working_directory"@.len() == 17);
    assert("idempotency_key"@.len() == 15);
    assert("readiness_timeout_ms"@.len() == 20);
    assert("keep_open"@.len() == 9);
    assert("logical_agent_id"@.len() == 16);
    assert("requested_model"@.len() == 15);
    assert("requested_provider"@.len() == 18);
    assert("requested_effort"@.len() == 16);
    assert("supersedes"@.len() == 10);
    assert("initial_message"@.len() == 15);
    assert("expected_terminal_id"@[0] == 'e');
    assert("readiness_timeout_ms"@[0] == 'r');
    assert("backend_kind"@[8] == 'k');
    assert("backend_args"@[8] == 'a');
    assert("idempotency_key"@[0] == 'i');
    assert("requested_model"@[0] == 'r');
    assert("idempotency_key"@[1] == 'd');
    assert("initial_message"@[1] == 'n');
    assert("logical_agent_id"@[0] == 'l');
    assert("requested_effort"@[0] == 'r');
    assert("initial_message"@[0] == 'i');
}

/// The initial message of a start is of the kind that the command asked for, says what was
/// read for it, and an ask has somebody who waits for the answer.
#[verifier::spinoff_prover]
#[verifier::rlimit(100)]
pub proof fn law_start_request_holds_its_message(
    start: StartCommand,
    situation: Situation,
    supplied: Supplied,
    key: Seq<char>,
    read: spec_fn(BodySource) -> Seq<char>,
)
    requires
        supplied.meets(Task::Start(Box::new(start)), situation),
        supplied.was_read(Task::Start(Box::new(start)), read),
    ensures
        ({
            let message = start_request(start, supplied, key).1.get("initial_message"@)->0;
            &&& start_request(start, supplied, key).1.get("initial_message"@) is Some
            &&& message.get("kind"@) == Some(text_view(start.initial_kind@))
            &&& message.get("body"@) == Some(text_view(read(start.body)))
            &&& message.get("sender"@) == match start.initial_sender {
                Some(sender) => Some(text_view(sender@)),
                None => if start.initial_kind@ == "ask"@ {
                    Some(text_view(supplied.agent()))
                } else {
                    Some(JsonView::Null)
                },
            }
        }),
{
    broadcast use {lemma_with_get, lemma_with_is_object, lemma_empty_get};

    assert(bodies_wanted(Task::Start(Box::new(start)))[0] == start.body);
    assert(supplied.bodies@[0]@ == read(start.body));
    reveal_strlit("public_name");
    reveal_strlit("parent");
    reveal_strlit("herdr_session");
    reveal_strlit("pane_id");
    reveal_strlit("expected_terminal_id");
    reveal_strlit("backend_kind");
    reveal_strlit("backend_args");
    reveal_strlit("working_directory");
    reveal_strlit("idempotency_key");
    reveal_strlit("readiness_timeout_ms");
    reveal_strlit("keep_open");
    reveal_strlit("logical_agent_id");
    reveal_strlit("requested_model");
    reveal_strlit("requested_provider");
    reveal_strlit("requested_effort");
    reveal_strlit("supersedes");
    reveal_strlit("initial_message");
    reveal_strlit("kind");
    reveal_strlit("body");
    reveal_strlit("sender");
    assert("public_name"@.len() == 11);
    assert("parent"@.len() == 6);
    assert("herdr_session"@.len() == 13);
    assert("pane_id"@.len() == 7);
    assert("expected_terminal_id"@.len() == 20);
    assert("backend_kind"@.len() == 12);
    assert("backend_args"@.len() == 12);
    assert("working_directory"@.len() == 17);
    assert("idempotency_key"@.len() == 15);
    assert("readiness_timeout_ms"@.len() == 20);
    assert("keep_open"@.len() == 9);
    assert("logical_agent_id"@.len() == 16);
    assert("requested_model"@.len() == 15);
    assert("requested_provider"@.len() == 18);
    assert("requested_effort"@.len() == 16);
    assert("supersedes"@.len() == 10);
    assert("initial_message"@.len() == 15);
    assert("kind"@.len() == 4);
    assert("body"@.len() == 4);
    assert("sender"@.len() == 6);
    assert("parent"@[0] == 'p');
    assert("sender"@[0] == 's');
    assert("expected_terminal_id"@[0] == 'e');
    assert("readiness_timeout_ms"@[0] == 'r');
    assert("backend_kind"@[8] == 'k');
    assert("backend_args"@[8] == 'a');
    assert("idempotency_key"@[0] == 'i');
    assert("requested_model"@[0] == 'r');
    assert("idempotency_key"@[1] == 'd');
    assert("initial_message"@[1] == 'n');
    assert("logical_agent_id"@[0] == 'l');
    assert("requested_effort"@[0] == 'r');
    assert("initial_message"@[0] == 'i');
    assert("kind"@[0] == 'k');
    assert("body"@[0] == 'b');
}

/// Two starts whose initial messages differ in kind give different requests.
pub proof fn law_kind_of_a_start_is_told(
    first: StartCommand,
    second: StartCommand,
    situation: Situation,
    supplied: Supplied,
    key: Seq<char>,
)
    requires
        supplied.meets(Task::Start(Box::new(first)), situation),
        supplied.meets(Task::Start(Box::new(second)), situation),
        first.initial_kind@ != second.initial_kind@,
    ensures
        start_request(first, supplied, key) != start_request(second, supplied, key),
{
    let read_first = |source: BodySource| supplied.bodies@[0]@;
    law_start_request_holds_its_message(first, situation, supplied, key, read_first);
    law_start_request_holds_its_message(second, situation, supplied, key, read_first);
}

/// A parent is told as what it is.
pub proof fn law_parent_is_told(parent: StartParent)
    ensures
        match parent {
            StartParent::Parentless => parent_view(parent).get("kind"@) == Some(
                text_view("parentless"@),
            ) && parent_view(parent).get("agent_id"@) is None,
            StartParent::Agent(id) => parent_view(parent).get("kind"@) == Some(text_view("agent"@))
                && parent_view(parent).get("agent_id"@) == Some(text_view(id@)),
        },
{
    broadcast use {lemma_with_get, lemma_with_is_object, lemma_empty_get};

    reveal_strlit("kind");
    reveal_strlit("agent_id");
    assert("kind"@.len() == 4);
    assert("agent_id"@.len() == 8);
}

/// A request goes out under its identifier and its method, with its params.
pub proof fn law_request_is_told_whole(id: Seq<char>, method: Seq<char>, params: JsonView)
    ensures
        request_view(id, method, params).get("id"@) == Some(text_view(id)),
        request_view(id, method, params).get("method"@) == Some(text_view(method)),
        request_view(id, method, params).get("params"@) == Some(params),
{
    broadcast use {lemma_with_get, lemma_with_is_object, lemma_empty_get};

    reveal_strlit("id");
    reveal_strlit("method");
    reveal_strlit("params");
    assert("id"@.len() == 2);
    assert("method"@.len() == 6);
    assert("params"@.len() == 6);
    assert("method"@[0] == 'm');
    assert("params"@[0] == 'p');
}

/// A delivery time is the moment that was given, or as much later than now as was given.
pub proof fn law_delivery_is_due_when_it_was_asked_for(due: Option<Due>, now_ms: Result<i64, String>)
    ensures
        due is None ==> due_at(due, now_ms) == Ok::<Option<i64>, Seq<char>>(None),
        due matches Some(Due::AtMs(ms)) ==> due_at(due, now_ms) == Ok::<Option<i64>, Seq<char>>(
            Some(ms),
        ),
        due matches Some(Due::InMs(ms)) ==> (due_at(due, now_ms) matches Ok(at) ==> now_ms is Ok && at
            is Some && at->0 - now_ms->Ok_0 == ms),
{
}

/// A task keeps what its command says.
pub proof fn law_task_keeps_its_command(command: Command)
    ensures
        match (command, task_of(command)) {
            (
                Command::Tell { recipient, body, sender, idempotency_key, due },
                Task::Tell {
                    recipient: to,
                    body: read,
                    sender: from,
                    idempotency_key: key,
                    due: at,
                    every_ms,
                },
            ) => addresses(recipient, to) && read == body && from == sender && key
                == idempotency_key && at == due && every_ms is None,
            (
                Command::Ask {
                    recipient,
                    body,
                    sender,
                    idempotency_key,
                    due,
                    remind_after_ms,
                    no_remind,
                    from_operator,
                },
                Task::Ask {
                    recipient: to,
                    body: read,
                    sender: from,
                    idempotency_key: key,
                    due: at,
                    remind_after_ms: reminded,
                    no_remind: silent,
                    from_operator: operator,
                },
            ) => addresses(recipient, to) && read == body && from == sender && key
                == idempotency_key && at == due && reminded == remind_after_ms && silent
                == no_remind && operator == from_operator,
            (
                Command::Reply { reply_to, requester, body, disposition, idempotency_key },
                Task::Reply {
                    reply_to: ask,
                    requester: by,
                    body: read,
                    disposition: as_what,
                    idempotency_key: key,
                },
            ) => ask == reply_to && by == requester && read == body && as_what == disposition && key
                == idempotency_key,
            (
                Command::Clear { recipient, idempotency_key },
                Task::Clear { recipient: to, idempotency_key: key },
            ) => addresses(recipient, to) && key == idempotency_key,
            (Command::Renew(renew), Task::Renew(same)) => same == renew,
            (Command::Pending { target }, Task::Pending { target: same }) => same == target,
            (Command::Recover, Task::Recover) => true,
            (Command::Whoami { target }, Task::Whoami { target: same }) => same == target,
            (
                Command::Attribution { target, refresh },
                Task::Attribution { target: same, refresh: again },
            ) => same == target && again == refresh,
            (Command::Report { live, active }, Task::Report { live: l, active: a }) => l == live && a
                == active,
            (Command::NameInfo { name }, Task::NameInfo { name: same }) => same == name,
            (Command::AskInfo { ask_id }, Task::AskInfo { ask_id: same }) => same == ask_id,
            (Command::Rename { target, name }, Task::Rename { target: who, name: new }) => who
                == target && new == name,
            (Command::Adopt(adopt), Task::Adopt(same)) => same == adopt,
            (Command::Notice { body }, Task::Notice { body: same }) => same == body,
            (Command::Notices, Task::Notices) => true,
            (
                Command::Cancel { ask_id, reason, requester },
                Task::Cancel { ask_id: ask, reason: why, requester: by },
            ) => ask == ask_id && why == reason && by == requester,
            (
                Command::RenewCancel { renew_id, reason, requester },
                Task::RenewCancel { renew_id: renew, reason: why, requester: by },
            ) => renew == renew_id && why == reason && by == requester,
            (
                Command::ReminderSnooze { ask_id, until_ms, requester },
                Task::ReminderSnooze { ask_id: ask, until_ms: until, for_ms, requester: by },
            ) => ask == ask_id && until == Some(until_ms) && for_ms is None && by == requester,
            (
                Command::ReminderDisable { ask_id, requester },
                Task::ReminderDisable { ask_id: ask, requester: by },
            ) => ask == ask_id && by == requester,
            (
                Command::Retire { incarnation_id, idempotency_key, close_pane },
                Task::Retire { incarnation_id: of, idempotency_key: key, close_pane: close },
            ) => of == incarnation_id && key == idempotency_key && close == close_pane,
            (Command::Start(start), Task::Start(same)) => same == start,
            (
                Command::WaiterRegister { public_name, parent, idempotency_key },
                Task::WaiterRegister { public_name: name, parent: of, idempotency_key: key },
            ) => name == public_name && of == parent && key == idempotency_key,
            (
                Command::WaiterRetire { logical_agent_id },
                Task::WaiterRetire { target: AgentTarget::Id(id) },
            ) => id == logical_agent_id,
            _ => false,
        },
{
}

/// Whether an address is that of a recipient.
pub open spec fn addresses(recipient: Recipient, address: Address) -> bool {
    match (recipient, address) {
        (Recipient::Alias(name), Address::Alias(same)) => same == name,
        (Recipient::Exact(exact), Address::Exact(same)) => same == exact,
        _ => false,
    }
}

/// The bodies are read from the sources of the task, a renew's checkpoint prompt first.
pub proof fn law_bodies_come_from_their_sources(renew: RenewArgs, body: BodySource)
    ensures
        bodies_wanted(Task::Renew(Box::new(renew))).len() == 2,
        bodies_wanted(Task::Renew(Box::new(renew)))[0] == renew.prepare_prompt,
        bodies_wanted(Task::Renew(Box::new(renew)))[1] == renew.prompt,
        bodies_wanted(Task::Notice { body }) == seq![body],
{
}

} // verus!
