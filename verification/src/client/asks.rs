//! What a client asks for and what it makes of the answer: who is asking, which identifiers stand,
//! and when a request has failed.

use vstd::prelude::*;

use super::{
    caller_check, caller_wanted, effective_caller, ended, exact_check, failure_of, handoff_of,
    handoff_wanted, id_check, id_number, is_id_field, key_of, mark_view, normal_id, normalized,
    normalized_field, role_key, state_dir, ClientTrace, ExactRecipient, Situation, Task,
};
use crate::cli::{under, Caller};
use crate::json::{
    int_view, lemma_empty_get, lemma_with_get, lemma_with_is_object, text_view, JsonView,
};
use crate::text::{all_digits, digits_value};

verus! {

/// An identifier is a positive decimal number without a leading zero that fits; it stands for that
/// number.
#[verifier::spinoff_prover]
pub proof fn law_identifier_is_a_positive_number(name: Seq<char>, text: Seq<char>)
    ensures
        id_check(name, text) is Ok <==> text.len() > 0 && text[0] != '0' && all_digits(text)
            && digits_value(text) <= u64::MAX,
        id_check(name, text) is Ok <==> id_number(text) is Some,
        id_number(text) matches Some(n) ==> n == digits_value(text),
{
}

/// An exact recipient stands only where both of its identifiers do.
#[verifier::spinoff_prover]
pub proof fn law_exact_recipient_has_two_identifiers(exact: ExactRecipient)
    ensures
        exact_check(exact) is Ok <==> id_number(exact.recipient@) is Some && id_number(
            exact.incarnation@,
        ) is Some,
{
}

/// A caller that is named by an identifier has to be named by one that stands; any other way of
/// naming it is taken as it is.
#[verifier::spinoff_prover]
pub proof fn law_caller_identifier_is_checked(caller: Caller)
    ensures
        caller matches Caller::Id(id) ==> (caller_check(Some(caller)) is Ok <==> id_number(id@)
            is Some),
        !(caller is Id) ==> caller_check(Some(caller)) is Ok,
{
}

/// Who is named as the caller is the caller; the own pane counts only where nobody is named.
#[verifier::spinoff_prover]
pub proof fn law_named_caller_comes_first(caller: Option<Caller>, own_pane: Option<String>)
    ensures
        caller is Some ==> effective_caller(caller, own_pane) == caller,
        caller is None ==> (own_pane matches Some(pane) ==> (pane@.len() > 0 ==> effective_caller(
            caller,
            own_pane,
        ) == Some(Caller::Pane(pane)))),
        caller is None ==> (own_pane matches Some(pane) ==> (pane@.len() == 0 ==> effective_caller(
            caller,
            own_pane,
        ) is None)),
        caller is None && own_pane is None ==> effective_caller(caller, own_pane) is None,
{
}

/// Whose identity a task asks for is who was named in it: the sender of a message, and of any other
/// task the one who requests it or whom it is about.
#[verifier::spinoff_prover]
#[verifier::rlimit(60)]
pub proof fn law_task_asks_for_who_was_named(task: Task, situation: Situation)
    ensures
        task matches Task::Tell { sender, .. } ==> (caller_wanted(task, situation) matches Some(
            (wanted, _),
        ) && wanted == sender),
        task matches Task::Ask { sender, .. } ==> (caller_wanted(task, situation) matches Some(
            (wanted, _),
        ) && wanted == sender),
        task matches Task::Renew(renew) ==> (caller_wanted(task, situation) matches Some((wanted, _))
            && wanted == renew.requester),
        task matches Task::Reply { requester, .. } ==> (caller_wanted(task, situation) matches Some(
            (wanted, _),
        ) && wanted == requester),
        task matches Task::Cancel { requester, .. } ==> (caller_wanted(
            task,
            situation,
        ) matches Some((wanted, _)) && wanted == requester),
        task matches Task::RenewCancel { requester, .. } ==> (caller_wanted(
            task,
            situation,
        ) matches Some((wanted, _)) && wanted == requester),
        task matches Task::ScheduleCancel { requester, .. } ==> (caller_wanted(
            task,
            situation,
        ) matches Some((wanted, _)) && wanted == requester),
        task matches Task::ReminderSnooze { requester, .. } ==> (caller_wanted(
            task,
            situation,
        ) matches Some((wanted, _)) && wanted == requester),
        task matches Task::ReminderInterval { requester, .. } ==> (caller_wanted(
            task,
            situation,
        ) matches Some((wanted, _)) && wanted == requester),
        task matches Task::ReminderDisable { requester, .. } ==> (caller_wanted(
            task,
            situation,
        ) matches Some((wanted, _)) && wanted == requester),
        task matches Task::Pending { target } ==> (caller_wanted(task, situation) matches Some(
            (wanted, _),
        ) && wanted == target),
        task matches Task::Schedules { target } ==> (caller_wanted(task, situation) matches Some(
            (wanted, _),
        ) && wanted == target),
        task matches Task::Start(start) ==> (caller_wanted(task, situation) is Some
            <==> start.initial_sender is None && start.initial_kind@ == "ask"@),
        task matches Task::Rename { target, .. } ==> (caller_wanted(task, situation) is None <==> (
        target matches Some(caller) && (caller is Id || caller is Alias))),
        task is Whoami || task is Recover || task is Clear ==> caller_wanted(task, situation)
            is None,
{
}

/// The alias of a handoff is looked up, an identifier is not.
#[verifier::spinoff_prover]
pub proof fn law_handoff_alias_is_looked_up(task: Task)
    ensures
        task matches Task::Start(start) ==> (start.supersedes matches Some(candidate) ==> (id_number(
            candidate@,
        ) is None ==> handoff_wanted(task) == Some(candidate)) && (id_number(candidate@) is Some
            ==> handoff_wanted(task) is None)),
        task matches Task::Start(start) ==> (start.supersedes is None ==> handoff_wanted(task)
            is None),
        !(task is Start) ==> handoff_wanted(task) is None,
{
}

/// The key of a request is the one that was given, and a fresh one otherwise; the key of a role
/// starts with the request and ends with the role.
#[verifier::spinoff_prover]
pub proof fn law_given_key_is_kept(
    own: Option<String>,
    situation: Situation,
    request: Seq<char>,
    role: Seq<char>,
)
    ensures
        own matches Some(key) ==> key_of(own, situation) == key@,
        own is None ==> key_of(own, situation) == situation.fresh_id@,
        role_key(request, key_of(own, situation), role).take(request.len() as int) == request,
        ({
            let key = role_key(request, key_of(own, situation), role);
            key.skip(key.len() - role.len()) == role
        }),
{
    let key = role_key(request, key_of(own, situation), role);
    assert(key.take(request.len() as int) =~= request);
    assert(key.skip(key.len() - role.len()) =~= role);
}

/// An alias hands over to the agent and the incarnation of the answer, where it is ready in a pane,
/// and only where it is the agent that was asked for.
#[verifier::spinoff_prover]
#[verifier::rlimit(60)]
pub proof fn law_handoff_is_of_who_answers(
    alias: Seq<char>,
    logical_id: Option<String>,
    response: JsonView,
)
    ensures
        ({
            let result = response.at("result"@);
            let found = handoff_of(alias, logical_id, response);
            &&& found matches Ok((agent, incarnation)) ==> {
                &&& result.at("delivery_transport"@) == JsonView::Text("herdr_prompt"@)
                &&& result.at("addressable"@) == JsonView::Bool(true)
                &&& result.at("logical_agent_id"@) matches JsonView::Text(id) ==> agent == id
                &&& result.at("incarnation_id"@) matches JsonView::Text(id) ==> incarnation == id
                &&& result.at("incarnation_id"@) !is Null
                &&& logical_id matches Some(id) ==> id@ == agent
            }
            &&& result.at("delivery_transport"@) == JsonView::Text("herdr_prompt"@) && result.at(
                "addressable"@,
            ) == JsonView::Bool(true) && result.at("incarnation_id"@) !is Null && logical_id is None
                ==> found is Ok
        }),
{
}

/// A request has failed where it was refused, where its delivery was neither accepted nor queued,
/// where the runtime did not start, or where its first message was not accepted; and nowhere else.
#[verifier::spinoff_prover]
#[verifier::rlimit(60)]
pub proof fn law_request_fails_where_something_went_wrong(response: JsonView)
    ensures
        ({
            let result = response.at("result"@);
            let delivery = result.at("delivery_outcome"@);
            let runtime = result.at("runtime_start"@).at("outcome"@);
            let first = result.at("initial_message"@).at("outcome"@);
            failure_of(response) is None <==> {
                &&& response.given("error"@) is None
                &&& delivery is Text ==> delivery == JsonView::Text("accepted"@) || delivery
                    == JsonView::Text("queued"@)
                &&& runtime is Text ==> runtime == JsonView::Text("succeeded"@)
                &&& first is Text ==> first == JsonView::Text("accepted"@)
            }
        }),
{
}

/// What failed first is what is told: the request, else the delivery, else the runtime, else the
/// first message, each by its outcome.
#[verifier::spinoff_prover]
#[verifier::rlimit(60)]
pub proof fn law_first_failure_is_told(response: JsonView, outcome: Seq<char>)
    ensures
        ({
            let result = response.at("result"@);
            let delivery = result.at("delivery_outcome"@);
            let runtime = result.at("runtime_start"@).at("outcome"@);
            let first = result.at("initial_message"@).at("outcome"@);
            let told = failure_of(response);
            &&& response.given("error"@) is Some ==> told == Some("request failed"@)
            &&& response.given("error"@) is None ==> {
                &&& delivery == JsonView::Text(outcome) && outcome != "accepted"@ && outcome
                    != "queued"@ ==> told == Some("delivery "@ + outcome)
                &&& delivery !is Text && runtime == JsonView::Text(outcome) && outcome
                    != "succeeded"@ ==> told == Some("runtime "@ + outcome)
                &&& delivery !is Text && runtime !is Text && first == JsonView::Text(outcome)
                    && outcome != "accepted"@ ==> told == Some("initial message "@ + outcome)
            }
        }),
{
}

/// The fields that name somebody or something hold identifiers.
#[verifier::spinoff_prover]
#[verifier::rlimit(60)]
pub proof fn law_naming_fields_hold_identifiers()
    ensures
        is_id_field("agent_id"@),
        is_id_field("ask_message_id"@),
        is_id_field("incarnation_id"@),
        is_id_field("logical_agent_id"@),
        is_id_field("recipient"@),
        is_id_field("recipient_incarnation"@),
        is_id_field("renew_id"@),
        is_id_field("reply_to"@),
        is_id_field("requester"@),
        is_id_field("requester_agent_id"@),
        is_id_field("schedule_id"@),
        is_id_field("sender"@),
        is_id_field("supersedes"@),
        !is_id_field("body"@),
        !is_id_field("alias"@),
        !is_id_field("pane_id"@),
        !is_id_field("public_name"@),
        !is_id_field("idempotency_key"@),
{
    reveal_strlit("agent_id");
    reveal_strlit("ask_message_id");
    reveal_strlit("incarnation_id");
    reveal_strlit("logical_agent_id");
    reveal_strlit("recipient");
    reveal_strlit("recipient_incarnation");
    reveal_strlit("renew_id");
    reveal_strlit("reply_to");
    reveal_strlit("requester");
    reveal_strlit("requester_agent_id");
    reveal_strlit("schedule_id");
    reveal_strlit("sender");
    reveal_strlit("supersedes");
    reveal_strlit("body");
    reveal_strlit("alias");
    reveal_strlit("pane_id");
    reveal_strlit("public_name");
    reveal_strlit("idempotency_key");
    assert("agent_id"@.len() == 8);
    assert("ask_message_id"@.len() == 14);
    assert("incarnation_id"@.len() == 14);
    assert("logical_agent_id"@.len() == 16);
    assert("recipient"@.len() == 9);
    assert("recipient_incarnation"@.len() == 21);
    assert("renew_id"@.len() == 8);
    assert("reply_to"@.len() == 8);
    assert("requester"@.len() == 9);
    assert("requester_agent_id"@.len() == 18);
    assert("schedule_id"@.len() == 11);
    assert("sender"@.len() == 6);
    assert("supersedes"@.len() == 10);
    assert("body"@.len() == 4);
    assert("alias"@.len() == 5);
    assert("pane_id"@.len() == 7);
    assert("public_name"@.len() == 11);
    assert("idempotency_key"@.len() == 15);
    assert("agent_id"@[0] == 'a');
    assert("renew_id"@[0] == 'r');
    assert("reply_to"@[0] == 'r');
    assert("ask_message_id"@[0] == 'a');
    assert("incarnation_id"@[0] == 'i');
    assert("recipient"@[2] == 'c');
    assert("requester"@[2] == 'q');
    assert("renew_id"@[2] == 'n');
    assert("reply_to"@[2] == 'p');
    assert("schedule_id"@[0] == 's');
    assert("public_name"@[0] == 'p');
}

/// An identifier that was written as text is sent as its number; one that is no number is refused;
/// what is absent, and what is a number, stays. Text under any other name stays text.
#[verifier::spinoff_prover]
pub proof fn law_identifiers_are_sent_as_numbers(name: Seq<char>, text: Seq<char>, value: JsonView)
    ensures
        id_number(text) matches Some(id) ==> (normal_id(name, JsonView::Text(text)) matches Ok(sent)
            && sent == int_view(id as int)),
        id_number(text) is None ==> normal_id(name, JsonView::Text(text)) is Err,
        value is Null || value is Number ==> (normal_id(name, value) matches Ok(sent) && sent
            == value),
        is_id_field(name) ==> normalized_field((name, value)) == normal_id(name, value),
        !is_id_field(name) ==> (normalized_field((name, JsonView::Text(text))) matches Ok(sent)
            && sent == JsonView::Text(text)),
        normalized(JsonView::Text(text)) matches Ok(sent) && sent == JsonView::Text(text),
{
}

/// What is written down of a request holds each part under its own name, and its marks in their
/// order.
#[verifier::spinoff_prover]
#[verifier::rlimit(60)]
pub proof fn law_trace_is_told(trace: ClientTrace)
    ensures
        ({
            let told = trace@;
            &&& told.get("request_id"@) == Some(text_view(trace.request_id@))
            &&& told.get("method"@) == Some(text_view(trace.method@))
            &&& told.get("receipt_path"@) == Some(text_view(trace.receipt_path@))
            &&& told.get("receipt_bytes"@) == Some(int_view(trace.receipt_bytes as int))
            &&& told.get("stdout_written"@) == Some(JsonView::Bool(trace.stdout_written))
            &&& told.get("stdout_error"@) == Some(text_view(trace.stdout_error@))
            &&& told.get("note"@) == Some(text_view(trace.note@))
            &&& told.at("marks"@).items().len() == trace.marks@.len()
            &&& forall|i: int|
                0 <= i < trace.marks@.len() ==> told.at("marks"@).items()[i] == mark_view(
                    #[trigger] trace.marks@[i],
                )
        }),
{
    broadcast use {lemma_with_get, lemma_with_is_object, lemma_empty_get};

    reveal_strlit("request_id");
    reveal_strlit("method");
    reveal_strlit("marks");
    reveal_strlit("receipt_path");
    reveal_strlit("receipt_bytes");
    reveal_strlit("stdout_written");
    reveal_strlit("stdout_error");
    reveal_strlit("note");
    assert("request_id"@.len() == 10);
    assert("method"@.len() == 6);
    assert("marks"@.len() == 5);
    assert("receipt_path"@.len() == 12);
    assert("receipt_bytes"@.len() == 13);
    assert("stdout_written"@.len() == 14);
    assert("stdout_error"@.len() == 12);
    assert("note"@.len() == 4);
    assert("receipt_path"@[0] == 'r');
    assert("stdout_error"@[0] == 's');
    let marks = JsonView::List(trace.marks@.map_values(|mark: (String, u64)| mark_view(mark)));
    assert(trace@.get("marks"@) == Some(marks));
}

/// A mark is told by its name and its moment.
#[verifier::spinoff_prover]
pub proof fn law_mark_is_told(mark: (String, u64))
    ensures
        mark_view(mark).get("name"@) == Some(text_view(mark.0@)),
        mark_view(mark).get("at_ms"@) == Some(int_view(mark.1 as int)),
{
    broadcast use {lemma_with_get, lemma_with_is_object, lemma_empty_get};

    reveal_strlit("name");
    reveal_strlit("at_ms");
    assert("name"@.len() == 4);
    assert("at_ms"@.len() == 5);
}

/// What a client keeps is in the runtime directory where there is one, and in the temporary one
/// elsewhere.
#[verifier::spinoff_prover]
pub proof fn law_state_is_kept_in_the_runtime_directory(
    runtime_dir: Option<String>,
    temp_dir: Seq<char>,
)
    ensures
        runtime_dir matches Some(dir) ==> state_dir(runtime_dir, temp_dir) == under(
            dir@,
            "kelpie"@,
        ),
        runtime_dir is None ==> state_dir(runtime_dir, temp_dir) == under(
            temp_dir,
            "kelpie-client"@,
        ),
{
}

/// A line ends with one newline more where it had none, and stays as it is where it had one.
#[verifier::spinoff_prover]
pub proof fn law_line_is_ended_once(bytes: Seq<u8>)
    ensures
        ended(bytes).len() > 0 && ended(bytes).last() == 10u8,
        ended(ended(bytes)) == ended(bytes),
        ended(bytes).take(bytes.len() as int) == bytes,
        ended(bytes).len() <= bytes.len() + 1,
        bytes.len() > 0 && bytes.last() == 10u8 ==> ended(bytes) == bytes,
{
    assert(ended(bytes).take(bytes.len() as int) =~= bytes);
}

} // verus!
