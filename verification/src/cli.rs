//! Typed `kelpie` command line. NDJSON remains the socket protocol.

use vstd::prelude::*;

use crate::cli::time::{
    duration_of, parse_duration_for, parse_duration_ms, parse_utc_rfc3339_ms, utc_of,
};
use crate::cli::tokens::{verdict, Parse, Problems, Scan, Tokens};
use crate::domain::{fresh_id_text, is_time_ordered, uuid_text};
use crate::json::{empty_object, int_view, text_view, Json, JsonView};
use crate::text::{
    begins, blank, chars_of, holds_char, i64_of, is_blank, listed, lists, parse_i64, parse_u64, same,
    starts_with, told, u64_of,
};

pub mod given;
pub mod heard;
pub mod meant;
pub mod receipt;
pub mod report;
pub mod says;
pub mod shows;
pub mod time;
pub mod tokens;

verus! {

/// Everything `adopt` needs. Boxed in [`Command`] because it is much larger
/// than every other variant.
#[derive(Debug, Clone, PartialEq, Eq)]
pub struct AdoptArgs {
    pub pane_id: String,
    pub terminal_id: String,
    pub public_name: Option<String>,
    pub backend_kind: Option<String>,
    pub logical_agent_id: Option<String>,
    pub herdr_session: String,
    pub backend_args: Vec<String>,
    pub requested_model: Option<String>,
    pub requested_provider: Option<String>,
    pub requested_effort: Option<String>,
    pub idempotency_key: Option<String>,
}

/// How the client should speak to the daemon.
#[derive(Debug, Clone, PartialEq, Eq)]
pub enum Invocation {
    /// Print the canonical skill text.
    Skill,
    /// Print the package version.
    Version,
    /// Print usage.
    Help,
    /// Legacy one-JSON-request mode against an explicit socket.
    Raw { socket: String },
    /// Schema-aware command that builds the NDJSON request.
    Typed { socket: String, json: bool, command: Command },
}

/// One typed client command.
#[derive(Debug, Clone, PartialEq, Eq)]
pub enum Command {
    Tell {
        recipient: Recipient,
        body: BodySource,
        sender: Option<Caller>,
        idempotency_key: Option<String>,
        due: Option<Due>,
    },
    Ask {
        recipient: Recipient,
        body: BodySource,
        sender: Option<Caller>,
        idempotency_key: Option<String>,
        due: Option<Due>,
        remind_after_ms: Option<i64>,
        no_remind: bool,
        from_operator: bool,
    },
    Reply {
        reply_to: String,
        requester: Option<Caller>,
        body: BodySource,
        disposition: &'static str,
        idempotency_key: Option<String>,
    },
    Clear { recipient: Recipient, idempotency_key: Option<String> },
    /// Boxed: a renew carries two prompts and a schedule, and inlining it would
    /// make every `Command` pay for the largest variant.
    Renew(Box<RenewArgs>),
    Pending { target: Option<Caller> },
    Recover,
    Whoami { target: Option<Caller> },
    Attribution { target: AttributionTarget, refresh: bool },
    Report { live: bool, active: bool },
    NameInfo { name: String },
    AskInfo { ask_id: String },
    Rename { target: Option<Caller>, name: String },
    Adopt(Box<AdoptArgs>),
    Notice { body: BodySource },
    Notices,
    Cancel { ask_id: String, reason: String, requester: Option<Caller> },
    /// End a renew policy before its incarnation does.
    RenewCancel { renew_id: String, reason: String, requester: Option<Caller> },
    ReminderSnooze { ask_id: String, until_ms: i64, requester: Option<Caller> },
    ReminderDisable { ask_id: String, requester: Option<Caller> },
    Retire { incarnation_id: String, idempotency_key: Option<String>, close_pane: bool },
    /// Launch one incarnation using the existing start contract.
    Start(Box<StartCommand>),
    WaiterRegister {
        public_name: String,
        parent: StartParent,
        idempotency_key: Option<String>,
    },
    WaiterRetire { logical_agent_id: String },
}

/// `StartIntent` parent: parentless or an exact parent agent ID.
#[derive(Debug, Clone, PartialEq, Eq)]
pub enum StartParent {
    Parentless,
    Agent(String),
}

/// Parsed typed start. Fields match [`crate::domain::StartIntent`].
#[derive(Debug, Clone, PartialEq, Eq)]
pub struct StartCommand {
    pub public_name: String,
    pub logical_agent_id: Option<String>,
    pub parent: StartParent,
    pub herdr_session: String,
    pub pane_id: String,
    pub terminal_id: String,
    pub backend_kind: String,
    pub backend_args: Vec<String>,
    pub initial_kind: &'static str,
    pub initial_sender: Option<String>,
    pub body: BodySource,
    pub working_directory: String,
    pub idempotency_key: Option<String>,
    pub readiness_timeout_ms: u64,
    pub keep_open: bool,
    pub requested_model: Option<String>,
    pub requested_provider: Option<String>,
    pub requested_effort: Option<String>,
    /// Incarnation this start replaces, for `handoff`.
    pub supersedes: Option<String>,
}

/// Caller identity supplied on the command line.
#[derive(Debug, Clone, PartialEq, Eq)]
pub enum Caller {
    Alias(String),
    Id(String),
    Pane(String),
}

/// Which identity an attribution lookup names.
///
/// `Incarnation` is the exact form. `Agent` resolves to that agent's newest
/// incarnation. `Alias` requires a live Ready binding. `Pane` defaults to the
/// calling pane and never adopts.
#[derive(Debug, Clone, PartialEq, Eq)]
pub enum AttributionTarget {
    Incarnation(String),
    Agent(String),
    Alias(String),
    Pane(String),
}

/// Exact recipient IDs for recovery use.
#[derive(Debug, Clone, PartialEq, Eq)]
pub struct ExactRecipient {
    pub recipient: String,
    pub incarnation: String,
}

/// One allowed recipient addressing form.
#[derive(Debug, Clone, PartialEq, Eq)]
pub enum Recipient {
    /// Live public name resolved at send time.
    Alias(String),
    /// Exact durable IDs.
    Exact(ExactRecipient),
}

/// Everything one renew needs: two prompts, a disposition, and a schedule.
#[derive(Debug, Clone, PartialEq, Eq)]
pub struct RenewArgs {
    /// Exact IDs only, and `None` means the caller's own incarnation.
    ///
    /// A renew has no alias form. An alias is a live address another agent may
    /// hold, and aiming a policy at the wrong one is unrecoverable: it clears a
    /// stranger's conversation once a cycle. Exact IDs cannot drift onto a
    /// different agent between typing and arming.
    pub recipient: Option<ExactRecipient>,
    pub requester: Option<Caller>,
    /// Delivered as an ask; its final reply is the ready signal.
    pub prepare_prompt: BodySource,
    /// Injected after the clear. With `every_ms` it runs on every cycle for the
    /// life of the agent, so it must be reentrant.
    pub prompt: BodySource,
    pub on_timeout: &'static str,
    pub prepare_timeout_ms: i64,
    pub every_ms: Option<i64>,
    pub due: Option<Due>,
    pub idempotency_key: Option<String>,
}

/// Where a message body is read from. The path/stdin bytes are not re-parsed
/// by a shell after the CLI starts.
#[derive(Debug, Clone, PartialEq, Eq)]
pub enum BodySource {
    Stdin,
    File(String),
    Literal(String),
}

/// One requested delivery time, before the client consults a clock.
///
/// `--due-at-ms` is the primitive the daemon speaks. The other two are sugar
/// over it, and they exist because a wrong epoch fails in the worst possible
/// way: silently, as a delivery at the wrong moment. A malformed duration or
/// timestamp fails loudly at parse instead.
#[derive(Debug, Clone, Copy, PartialEq, Eq)]
pub enum Due {
    /// Exact Unix epoch milliseconds.
    AtMs(i64),
    /// Milliseconds after the moment the client resolves this.
    InMs(i64),
}

/// Which caller the caller flags name: one of them at most.
pub open spec fn caller_of(scan: Scan) -> (Result<Option<Caller>, Seq<char>>, Scan) {
    let (sender, s1) = scan.value("--sender"@);
    let (sender_id, s2) = s1.value("--sender-id"@);
    let (pane, s3) = s2.value("--pane"@);
    if let Err(e) = sender {
        (Err(e), s1)
    } else if let Err(e) = sender_id {
        (Err(e), s2)
    } else if let Err(e) = pane {
        (Err(e), s3)
    } else {
        (
            match (sender->Ok_0, sender_id->Ok_0, pane->Ok_0) {
                (None, None, None) => Ok(None),
                (Some(alias), None, None) => Ok(Some(Caller::Alias(alias))),
                (None, Some(id), None) => Ok(Some(Caller::Id(id))),
                (None, None, Some(pane)) => Ok(Some(Caller::Pane(pane))),
                _ => Err("use only one of --sender, --sender-id, or --pane"@),
            },
            s3,
        )
    }
}

fn take_caller(tokens: &mut Tokens) -> (r: Result<Option<Caller>, String>)
    requires
        old(tokens)@.wf(),
    ensures
        final(tokens)@.wf(),
        final(tokens)@ == caller_of(old(tokens)@).1,
        told(r, caller_of(old(tokens)@).0),
{
    let sender = match tokens.take_value("--sender") {
        Ok(v) => v,
        Err(e) => {
            return Err(e);
        },
    };
    let sender_id = match tokens.take_value("--sender-id") {
        Ok(v) => v,
        Err(e) => {
            return Err(e);
        },
    };
    let pane = match tokens.take_value("--pane") {
        Ok(v) => v,
        Err(e) => {
            return Err(e);
        },
    };
    match (sender, sender_id, pane) {
        (None, None, None) => Ok(None),
        (Some(alias), None, None) => Ok(Some(Caller::Alias(alias))),
        (None, Some(id), None) => Ok(Some(Caller::Id(id))),
        (None, None, Some(pane)) => Ok(Some(Caller::Pane(pane))),
        _ => Err("use only one of --sender, --sender-id, or --pane".to_owned()),
    }
}

/// Which one target a command names: a name or one caller flag.
pub open spec fn target_of(scan: Scan, command: Seq<char>) -> (
    Result<Option<Caller>, Seq<char>>,
    Scan,
) {
    let (caller, s1) = caller_of(scan);
    let (positional, s2) = s1.positional();
    if let Err(e) = caller {
        (Err(e), s1)
    } else {
        (
            match (positional, caller->Ok_0) {
                (None, None) => Ok(None),
                (Some(alias), None) => Ok(Some(Caller::Alias(alias))),
                (None, Some(caller)) => Ok(Some(caller)),
                (Some(_), Some(_)) => Err(
                    command + " accepts only one target form: a name or one caller flag"@,
                ),
            },
            s2,
        )
    }
}

fn take_single_target(tokens: &mut Tokens, command: &str) -> (r: Result<Option<Caller>, String>)
    requires
        old(tokens)@.wf(),
    ensures
        final(tokens)@.wf(),
        final(tokens)@ == target_of(old(tokens)@, command@).1,
        told(r, target_of(old(tokens)@, command@).0),
{
    let caller = match take_caller(tokens) {
        Ok(v) => v,
        Err(e) => {
            return Err(e);
        },
    };
    let positional = tokens.take_positional();
    match (positional, caller) {
        (None, None) => Ok(None),
        (Some(alias), None) => Ok(Some(Caller::Alias(alias))),
        (None, Some(caller)) => Ok(Some(caller)),
        (Some(_), Some(_)) => Err(
            command.to_owned().concat(
                " accepts only one target form: a name or one caller flag",
            ),
        ),
    }
}

/// Where a body comes from: exactly one of the body flags.
pub open spec fn body_of(scan: Scan, command: Seq<char>) -> (
    Result<BodySource, Seq<char>>,
    Scan,
) {
    let (stdin, s1) = scan.switch("--stdin"@);
    let (file, s2) = s1.value("--file"@);
    let (body, s3) = s2.value("--body"@);
    if let Err(e) = stdin {
        (Err(e), s1)
    } else if let Err(e) = file {
        (Err(e), s2)
    } else if let Err(e) = body {
        (Err(e), s3)
    } else {
        (
            match (stdin->Ok_0, file->Ok_0, body->Ok_0) {
                (true, None, None) => Ok(BodySource::Stdin),
                (false, Some(path), None) => Ok(BodySource::File(path)),
                (false, None, Some(text)) => Ok(BodySource::Literal(text)),
                (false, None, None) => Err(
                    command + " requires --stdin, --file PATH, or --body TEXT"@,
                ),
                _ => Err("use exactly one of --stdin, --file, or --body"@),
            },
            s3,
        )
    }
}

fn take_body(tokens: &mut Tokens, command: &str) -> (r: Result<BodySource, String>)
    requires
        old(tokens)@.wf(),
    ensures
        final(tokens)@.wf(),
        final(tokens)@ == body_of(old(tokens)@, command@).1,
        told(r, body_of(old(tokens)@, command@).0),
{
    let stdin = match tokens.take_bool("--stdin") {
        Ok(v) => v,
        Err(e) => {
            return Err(e);
        },
    };
    let file = match tokens.take_value("--file") {
        Ok(v) => v,
        Err(e) => {
            return Err(e);
        },
    };
    let body = match tokens.take_value("--body") {
        Ok(v) => v,
        Err(e) => {
            return Err(e);
        },
    };
    match (stdin, file, body) {
        (true, None, None) => Ok(BodySource::Stdin),
        (false, Some(path), None) => Ok(BodySource::File(path)),
        (false, None, Some(text)) => Ok(BodySource::Literal(text)),
        (false, None, None) => Err(
            command.to_owned().concat(" requires --stdin, --file PATH, or --body TEXT"),
        ),
        _ => Err("use exactly one of --stdin, --file, or --body".to_owned()),
    }
}

/// Where a named body comes from: exactly one of a text flag and a file flag.
pub open spec fn named_body_of(
    scan: Scan,
    verb: Seq<char>,
    text_flag: Seq<char>,
    file_flag: Seq<char>,
) -> (Result<BodySource, Seq<char>>, Scan) {
    let (text, s1) = scan.all_values(text_flag);
    let (file, s2) = s1.all_values(file_flag);
    if let Err(e) = text {
        (Err(e), s1)
    } else if let Err(e) = file {
        (Err(e), s2)
    } else {
        let (text, file) = (text->Ok_0, file->Ok_0);
        (
            if text.len() == 1 && file.len() == 0 {
                Ok(BodySource::Literal(text[0]))
            } else if text.len() == 0 && file.len() == 1 {
                Ok(BodySource::File(file[0]))
            } else if text.len() == 0 && file.len() == 0 {
                Err(verb + " requires "@ + text_flag + " or "@ + file_flag)
            } else {
                Err(verb + " accepts exactly one of "@ + text_flag + " or "@ + file_flag)
            },
            s2,
        )
    }
}

/// Take one body from an explicitly named text/file flag pair.
///
/// A renew carries two distinct prompts, so the shared `--body`/`--file`/
/// `--stdin` form cannot address them unambiguously.
fn take_named_body(tokens: &mut Tokens, verb: &str, text_flag: &str, file_flag: &str) -> (r: Result<
    BodySource,
    String,
>)
    requires
        old(tokens)@.wf(),
    ensures
        final(tokens)@.wf(),
        final(tokens)@ == named_body_of(old(tokens)@, verb@, text_flag@, file_flag@).1,
        told(r, named_body_of(old(tokens)@, verb@, text_flag@, file_flag@).0),
{
    let text = match tokens.take_all_values(text_flag) {
        Ok(v) => v,
        Err(e) => {
            return Err(e);
        },
    };
    let file = match tokens.take_all_values(file_flag) {
        Ok(v) => v,
        Err(e) => {
            return Err(e);
        },
    };
    if text.len() == 1 && file.len() == 0 {
        Ok(BodySource::Literal(text[0].clone()))
    } else if text.len() == 0 && file.len() == 1 {
        Ok(BodySource::File(file[0].clone()))
    } else if text.len() == 0 && file.len() == 0 {
        Err(
            verb.to_owned().concat(" requires ").concat(text_flag).concat(" or ").concat(file_flag),
        )
    } else {
        Err(
            verb.to_owned().concat(" accepts exactly one of ").concat(text_flag).concat(
                " or ",
            ).concat(file_flag),
        )
    }
}

/// When a message is to be delivered: one of the due flags at most, and none on
/// an ask.
pub open spec fn due_of(scan: Scan, verb: Seq<char>) -> (Result<Option<Due>, Seq<char>>, Scan) {
    let (at_ms, s1) = scan.all_values("--due-at-ms"@);
    let (in_values, s2) = s1.all_values("--due-in"@);
    let (at_values, s3) = s2.all_values("--due-at"@);
    if let Err(e) = at_ms {
        (Err(e), s1)
    } else if let Err(e) = in_values {
        (Err(e), s2)
    } else if let Err(e) = at_values {
        (Err(e), s3)
    } else {
        let (at_ms, in_values, at_values) = (at_ms->Ok_0, in_values->Ok_0, at_values->Ok_0);
        let count = at_ms.len() + in_values.len() + at_values.len();
        (
            if verb == "ask"@ && count > 0 {
                Err(
                    "ask does not accept --due-in, --due-at, or --due-at-ms: an ask is delivered now. Use --remind-after-ms to be reminded about an unanswered ask, or tell for a message that should arrive later"@,
                )
            } else if count > 1 {
                Err(verb + " allows only one of --due-in, --due-at, or --due-at-ms"@)
            } else if at_ms.len() == 1 {
                match i64_of(at_ms[0]@) {
                    Some(ms) => if ms >= 0 {
                        Ok(Some(Due::AtMs(ms)))
                    } else {
                        Err(verb + " --due-at-ms must be a non-negative integer"@)
                    },
                    None => Err(verb + " --due-at-ms must be a non-negative integer"@),
                }
            } else if in_values.len() == 1 {
                match duration_of("--due-in"@, in_values[0]@) {
                    Ok(ms) => Ok(Some(Due::InMs(ms))),
                    Err(e) => Err(e),
                }
            } else if at_values.len() == 1 {
                match utc_of(at_values[0]@) {
                    Ok(ms) => Ok(Some(Due::AtMs(ms))),
                    Err(e) => Err(e),
                }
            } else {
                Ok(None)
            },
            s3,
        )
    }
}

/// Accept exactly one of `--due-at-ms`, `--due-in`, or `--due-at`.
fn take_due(tokens: &mut Tokens, verb: &str) -> (r: Result<Option<Due>, String>)
    requires
        old(tokens)@.wf(),
    ensures
        final(tokens)@.wf(),
        final(tokens)@ == due_of(old(tokens)@, verb@).1,
        told(r, due_of(old(tokens)@, verb@).0),
{
    let at_ms = match tokens.take_all_values("--due-at-ms") {
        Ok(v) => v,
        Err(e) => {
            return Err(e);
        },
    };
    let in_values = match tokens.take_all_values("--due-in") {
        Ok(v) => v,
        Err(e) => {
            return Err(e);
        },
    };
    let at_values = match tokens.take_all_values("--due-at") {
        Ok(v) => v,
        Err(e) => {
            return Err(e);
        },
    };
    let given = at_ms.len() > 0 || in_values.len() > 0 || at_values.len() > 0;
    // A due time postpones the message. On an ask that leaves an obligation the
    // recipient cannot see: owed on the server, invisible in their pane, and
    // indistinguishable from a delivered ask nobody answered. Use
    // `--remind-after-ms` to be nudged about an ask that is already working.
    if same(verb, "ask") && given {
        return Err(
            "ask does not accept --due-in, --due-at, or --due-at-ms: an ask is delivered now. Use --remind-after-ms to be reminded about an unanswered ask, or tell for a message that should arrive later".to_owned(),
        );
    }
    let repeated = at_ms.len() > 1 || in_values.len() > 1 || at_values.len() > 1;
    let mixed = (at_ms.len() > 0 && in_values.len() > 0) || (at_ms.len() > 0 && at_values.len() > 0)
        || (in_values.len() > 0 && at_values.len() > 0);
    if repeated || mixed {
        return Err(
            verb.to_owned().concat(" allows only one of --due-in, --due-at, or --due-at-ms"),
        );
    }
    if at_ms.len() == 1 {
        return match parse_i64(at_ms[0].as_str()) {
            Some(ms) if ms >= 0 => Ok(Some(Due::AtMs(ms))),
            _ => Err(verb.to_owned().concat(" --due-at-ms must be a non-negative integer")),
        };
    }
    if in_values.len() == 1 {
        return match parse_duration_ms(in_values[0].as_str()) {
            Ok(ms) => Ok(Some(Due::InMs(ms))),
            Err(e) => Err(e),
        };
    }
    if at_values.len() == 1 {
        return match parse_utc_rfc3339_ms(at_values[0].as_str()) {
            Ok(ms) => Ok(Some(Due::AtMs(ms))),
            Err(e) => Err(e),
        };
    }
    Ok(None)
}

/// The tokens behind a command's name.
pub open spec fn behind_name(args: Seq<String>) -> Scan {
    Scan::fresh(args.skip(1))
}

/// The tokens behind a command's name.
fn arguments<'a>(args: &'a [String]) -> (tokens: Tokens<'a>)
    requires
        args@.len() > 0,
    ensures
        tokens@ == behind_name(args@),
        tokens@.wf(),
{
    let rest = vstd::slice::slice_subrange(args, 1, args.len());
    assert(rest@ =~= args@.skip(1));
    Tokens::new(rest)
}

/// The recipient of a message: a name, or both exact IDs.
pub open spec fn recipient_of(
    positional: Option<String>,
    recipient_id: Option<String>,
    incarnation: Option<String>,
) -> Option<Recipient> {
    match (positional, recipient_id, incarnation) {
        (Some(name), None, None) => Some(Recipient::Alias(name)),
        (None, Some(recipient), Some(incarnation)) => Some(
            Recipient::Exact(ExactRecipient { recipient, incarnation }),
        ),
        _ => None,
    }
}

fn choose_recipient(
    positional: Option<String>,
    recipient_id: Option<String>,
    incarnation: Option<String>,
) -> (r: Option<Recipient>)
    ensures
        r == recipient_of(positional, recipient_id, incarnation),
{
    match (positional, recipient_id, incarnation) {
        (Some(name), None, None) => Some(Recipient::Alias(name)),
        (None, Some(recipient), Some(incarnation)) => Some(
            Recipient::Exact(ExactRecipient { recipient, incarnation }),
        ),
        _ => None,
    }
}

/// What `clear` is asked to do.
pub open spec fn clear_of(args: Seq<String>) -> Result<Command, Seq<char>> {
    let (recipient_id, s1) = behind_name(args).value("--recipient-id"@);
    let (incarnation, s2) = s1.value("--recipient-incarnation"@);
    let (key, s3) = s2.value("--idempotency-key"@);
    let (positional, s4) = s3.positional();
    if let Err(e) = recipient_id {
        Err(e)
    } else if let Err(e) = incarnation {
        Err(e)
    } else if let Err(e) = key {
        Err(e)
    } else if let Err(e) = s4.finish("clear"@) {
        Err(e)
    } else {
        match recipient_of(positional, recipient_id->Ok_0, incarnation->Ok_0) {
            Some(recipient) => Ok(Command::Clear { recipient, idempotency_key: key->Ok_0 }),
            None => Err(
                "clear requires exactly one of <recipient> or --recipient-id plus --recipient-incarnation"@,
            ),
        }
    }
}

fn parse_clear(args: &[String]) -> (r: Result<Command, String>)
    requires
        args@.len() > 0,
    ensures
        told(r, clear_of(args@)),
        r matches Ok(command) ==> is_named(command, "clear"@),
{
    reveal(is_named);
    let mut tokens = arguments(args);
    let recipient_id = match tokens.take_value("--recipient-id") {
        Ok(v) => v,
        Err(e) => {
            return Err(e);
        },
    };
    let incarnation = match tokens.take_value("--recipient-incarnation") {
        Ok(v) => v,
        Err(e) => {
            return Err(e);
        },
    };
    let idempotency_key = match tokens.take_value("--idempotency-key") {
        Ok(v) => v,
        Err(e) => {
            return Err(e);
        },
    };
    let positional = tokens.take_positional();
    if let Err(e) = tokens.finish("clear") {
        return Err(e);
    }
    match choose_recipient(positional, recipient_id, incarnation) {
        Some(recipient) => Ok(Command::Clear { recipient, idempotency_key }),
        None => Err(
            "clear requires exactly one of <recipient> or --recipient-id plus --recipient-incarnation".to_owned(),
        ),
    }
}

/// When to remind of an ask: one positive interval at most, and none on a tell.
pub open spec fn reminder_of(verb: Seq<char>, values: Seq<String>) -> Result<
    Option<i64>,
    Seq<char>,
> {
    if values.len() == 0 {
        Ok(None)
    } else if values.len() > 1 {
        Err("--remind-after-ms specified more than once"@)
    } else if verb == "ask"@ {
        match i64_of(values[0]@) {
            Some(ms) => if ms > 0 {
                Ok(Some(ms))
            } else {
                Err("ask --remind-after-ms must be a positive integer"@)
            },
            None => Err("ask --remind-after-ms must be a positive integer"@),
        }
    } else {
        Err("tell does not accept --remind-after-ms"@)
    }
}

fn read_reminder(verb: &str, values: &Vec<String>) -> (r: Result<Option<i64>, String>)
    ensures
        told(r, reminder_of(verb@, values@)),
{
    if values.len() == 0 {
        return Ok(None);
    }
    if values.len() > 1 {
        return Err("--remind-after-ms specified more than once".to_owned());
    }
    if same(verb, "ask") {
        match parse_i64(values[0].as_str()) {
            Some(ms) if ms > 0 => Ok(Some(ms)),
            _ => Err("ask --remind-after-ms must be a positive integer".to_owned()),
        }
    } else {
        Err("tell does not accept --remind-after-ms".to_owned())
    }
}

/// Whether a message is sent for the operator, which only an ask can be.
pub open spec fn operator_of(verb: Seq<char>, from: Option<String>) -> Result<bool, Seq<char>> {
    match from {
        None => Ok(false),
        Some(from) => if from@ == "operator"@ {
            if verb == "ask"@ {
                Ok(true)
            } else {
                Err("tell does not accept --from"@)
            }
        } else {
            Err("--from only accepts operator"@)
        },
    }
}

fn read_operator(verb: &str, from: &Option<String>) -> (r: Result<bool, String>)
    ensures
        told(r, operator_of(verb@, *from)),
{
    match from {
        None => Ok(false),
        Some(from) => if same(from.as_str(), "operator") {
            if same(verb, "ask") {
                Ok(true)
            } else {
                Err("tell does not accept --from".to_owned())
            }
        } else {
            Err("--from only accepts operator".to_owned())
        },
    }
}

/// What `tell` or `ask`, the first of the tokens, is asked to do.
pub open spec fn message_of(args: Seq<String>) -> Result<Command, Seq<char>> {
    let verb = args[0]@;
    let (recipient_id, s1) = behind_name(args).value("--recipient-id"@);
    let (incarnation, s2) = s1.value("--recipient-incarnation"@);
    let (sender, s3) = caller_of(s2);
    let (body, s4) = body_of(s3, verb);
    let (key, s5) = s4.value("--idempotency-key"@);
    let (due, s6) = due_of(s5, verb);
    let (reminders, s7) = s6.all_values("--remind-after-ms"@);
    let (no_remind, s8) = s7.switch("--no-remind"@);
    let reminder = reminder_of(verb, reminders->Ok_0);
    let (from, s9) = s8.value("--from"@);
    let operator = operator_of(verb, from->Ok_0);
    let (positional, s10) = s9.positional();
    if let Err(e) = recipient_id {
        Err(e)
    } else if let Err(e) = incarnation {
        Err(e)
    } else if let Err(e) = sender {
        Err(e)
    } else if let Err(e) = body {
        Err(e)
    } else if let Err(e) = key {
        Err(e)
    } else if let Err(e) = due {
        Err(e)
    } else if let Err(e) = reminders {
        Err(e)
    } else if let Err(e) = no_remind {
        Err(e)
    } else if let Err(e) = reminder {
        Err(e)
    } else if verb == "tell"@ && no_remind->Ok_0 {
        Err("tell does not accept --no-remind"@)
    } else if reminder->Ok_0 is Some && no_remind->Ok_0 {
        Err("ask accepts only one of --remind-after-ms or --no-remind"@)
    } else if let Err(e) = from {
        Err(e)
    } else if let Err(e) = operator {
        Err(e)
    } else if let Err(e) = s10.finish(verb) {
        Err(e)
    } else {
        match recipient_of(positional, recipient_id->Ok_0, incarnation->Ok_0) {
            None => Err(
                verb
                    + " requires exactly one of <recipient> or --recipient-id plus --recipient-incarnation"@,
            ),
            Some(recipient) => if verb == "tell"@ {
                Ok(
                    Command::Tell {
                        recipient,
                        body: body->Ok_0,
                        sender: sender->Ok_0,
                        idempotency_key: key->Ok_0,
                        due: due->Ok_0,
                    },
                )
            } else {
                Ok(
                    Command::Ask {
                        recipient,
                        body: body->Ok_0,
                        sender: sender->Ok_0,
                        idempotency_key: key->Ok_0,
                        due: due->Ok_0,
                        remind_after_ms: reminder->Ok_0,
                        no_remind: no_remind->Ok_0,
                        from_operator: operator->Ok_0,
                    },
                )
            },
        }
    }
}

/// A `tell` or an `ask`, from its own arguments.
pub fn parse_message_command(args: &[String]) -> (r: Result<Command, String>)
    requires
        args@.len() > 0,
    ensures
        told(r, message_of(args@)),        args@[0]@ == "tell"@ || args@[0]@ == "ask"@ ==> (r matches Ok(command) ==> is_named(
            command,
            args@[0]@,
        )),
{
    reveal(is_named);
    let verb = args[0].as_str();
    let mut tokens = arguments(args);
    let recipient_id = match tokens.take_value("--recipient-id") {
        Ok(v) => v,
        Err(e) => {
            return Err(e);
        },
    };
    let incarnation = match tokens.take_value("--recipient-incarnation") {
        Ok(v) => v,
        Err(e) => {
            return Err(e);
        },
    };
    let sender = match take_caller(&mut tokens) {
        Ok(v) => v,
        Err(e) => {
            return Err(e);
        },
    };
    let body = match take_body(&mut tokens, verb) {
        Ok(v) => v,
        Err(e) => {
            return Err(e);
        },
    };
    let idempotency_key = match tokens.take_value("--idempotency-key") {
        Ok(v) => v,
        Err(e) => {
            return Err(e);
        },
    };
    let due = match take_due(&mut tokens, verb) {
        Ok(v) => v,
        Err(e) => {
            return Err(e);
        },
    };
    let reminders = match tokens.take_all_values("--remind-after-ms") {
        Ok(v) => v,
        Err(e) => {
            return Err(e);
        },
    };
    let no_remind = match tokens.take_bool("--no-remind") {
        Ok(v) => v,
        Err(e) => {
            return Err(e);
        },
    };
    let remind_after_ms = match read_reminder(verb, &reminders) {
        Ok(v) => v,
        Err(e) => {
            return Err(e);
        },
    };
    if same(verb, "tell") && no_remind {
        return Err("tell does not accept --no-remind".to_owned());
    }
    if remind_after_ms.is_some() && no_remind {
        return Err("ask accepts only one of --remind-after-ms or --no-remind".to_owned());
    }
    let from = match tokens.take_value("--from") {
        Ok(v) => v,
        Err(e) => {
            return Err(e);
        },
    };
    let from_operator = match read_operator(verb, &from) {
        Ok(v) => v,
        Err(e) => {
            return Err(e);
        },
    };
    let positional = tokens.take_positional();
    if let Err(e) = tokens.finish(verb) {
        return Err(e);
    }
    match choose_recipient(positional, recipient_id, incarnation) {
        None => Err(
            verb.to_owned().concat(
                " requires exactly one of <recipient> or --recipient-id plus --recipient-incarnation",
            ),
        ),
        Some(recipient) => if same(verb, "tell") {
            Ok(Command::Tell { recipient, body, sender, idempotency_key, due })
        } else {
            Ok(
                Command::Ask {
                    recipient,
                    body,
                    sender,
                    idempotency_key,
                    due,
                    remind_after_ms,
                    no_remind,
                    from_operator,
                },
            )
        },
    }
}

/// Default window an agent gets to write its checkpoint before the deadline.
///
/// Generous on purpose: the agent may be mid-turn when the prepare arrives, and
/// the prompt queues behind that turn before it is even read.
pub const DEFAULT_PREPARE_TIMEOUT_MS: i64 = 600_000;

/// What to do when an agent never confirms its checkpoint. There is no default.
pub open spec fn on_timeout_of(value: Option<String>) -> Result<&'static str, Seq<char>> {
    match value {
        None => Err(
            "renew requires --on-timeout abort|proceed: there is no safe default when an agent never confirms its checkpoint"@,
        ),
        Some(value) => if value@ == "abort"@ {
            Ok("abort")
        } else if value@ == "proceed"@ {
            Ok("proceed")
        } else {
            Err("--on-timeout must be abort or proceed, not "@ + value@)
        },
    }
}

fn read_on_timeout(value: &Option<String>) -> (r: Result<&'static str, String>)
    ensures
        told(r, on_timeout_of(*value)),
{
    match value {
        None => Err(
            "renew requires --on-timeout abort|proceed: there is no safe default when an agent never confirms its checkpoint".to_owned(),
        ),
        Some(value) => if same(value.as_str(), "abort") {
            Ok("abort")
        } else if same(value.as_str(), "proceed") {
            Ok("proceed")
        } else {
            Err("--on-timeout must be abort or proceed, not ".to_owned().concat(value.as_str()))
        },
    }
}

/// How long an agent has to prepare: one of the two flags at most.
pub open spec fn prepare_timeout_of(values: Seq<String>, ms_values: Seq<String>) -> Result<
    i64,
    Seq<char>,
> {
    if values.len() == 0 && ms_values.len() == 0 {
        Ok(DEFAULT_PREPARE_TIMEOUT_MS)
    } else if values.len() == 1 && ms_values.len() == 0 {
        duration_of("--prepare-timeout"@, values[0]@)
    } else if values.len() == 0 && ms_values.len() == 1 {
        match i64_of(ms_values[0]@) {
            Some(ms) => if ms > 0 {
                Ok(ms)
            } else {
                Err("--prepare-timeout-ms must be a positive integer"@)
            },
            None => Err("--prepare-timeout-ms must be a positive integer"@),
        }
    } else {
        Err("use exactly one of --prepare-timeout or --prepare-timeout-ms"@)
    }
}

fn read_prepare_timeout(values: &Vec<String>, ms_values: &Vec<String>) -> (r: Result<i64, String>)
    ensures
        told(r, prepare_timeout_of(values@, ms_values@)),
{
    if values.len() == 0 && ms_values.len() == 0 {
        Ok(DEFAULT_PREPARE_TIMEOUT_MS)
    } else if values.len() == 1 && ms_values.len() == 0 {
        parse_duration_for("--prepare-timeout", values[0].as_str())
    } else if values.len() == 0 && ms_values.len() == 1 {
        match parse_i64(ms_values[0].as_str()) {
            Some(ms) if ms > 0 => Ok(ms),
            _ => Err("--prepare-timeout-ms must be a positive integer".to_owned()),
        }
    } else {
        Err("use exactly one of --prepare-timeout or --prepare-timeout-ms".to_owned())
    }
}

/// How often a policy repeats: once given at most.
pub open spec fn every_of(values: Seq<String>) -> Result<Option<i64>, Seq<char>> {
    if values.len() == 0 {
        Ok(None)
    } else if values.len() == 1 {
        match duration_of("--every"@, values[0]@) {
            Ok(ms) => Ok(Some(ms)),
            Err(e) => Err(e),
        }
    } else {
        Err("--every specified more than once"@)
    }
}

fn read_every(values: &Vec<String>) -> (r: Result<Option<i64>, String>)
    ensures
        told(r, every_of(values@)),
{
    if values.len() == 0 {
        Ok(None)
    } else if values.len() == 1 {
        match parse_duration_for("--every", values[0].as_str()) {
            Ok(ms) => Ok(Some(ms)),
            Err(e) => Err(e),
        }
    } else {
        Err("--every specified more than once".to_owned())
    }
}

/// Which incarnation a renew targets: the caller's own, or both exact IDs.
pub open spec fn renew_recipient_of(
    positional: Option<String>,
    recipient_id: Option<String>,
    incarnation: Option<String>,
) -> Result<Option<ExactRecipient>, Seq<char>> {
    match (positional, recipient_id, incarnation) {
        (None, None, None) => Ok(None),
        (None, Some(recipient), Some(incarnation)) => Ok(
            Some(ExactRecipient { recipient, incarnation }),
        ),
        (Some(name), _, _) => Err(
            "renew does not take an alias: "@ + name@
                + " is a live address another agent may hold, and a policy aimed at the wrong one clears its conversation every cycle. Pass no recipient to renew yourself, or --recipient-id with --recipient-incarnation to renew another agent deliberately"@,
        ),
        _ => Err(
            "renew requires --recipient-id and --recipient-incarnation together, or neither to renew yourself"@,
        ),
    }
}

fn choose_renew_recipient(
    positional: Option<String>,
    recipient_id: Option<String>,
    incarnation: Option<String>,
) -> (r: Result<Option<ExactRecipient>, String>)
    ensures
        told(r, renew_recipient_of(positional, recipient_id, incarnation)),
{
    match (positional, recipient_id, incarnation) {
        // Self-target. The duplicate refusal is scoped per incarnation, so it
        // only protects a caller aiming at itself. Making that the default
        // makes the re-arm probe safe by construction rather than by care.
        (None, None, None) => Ok(None),
        (None, Some(recipient), Some(incarnation)) => Ok(
            Some(ExactRecipient { recipient, incarnation }),
        ),
        (Some(name), _, _) => Err(
            "renew does not take an alias: ".to_owned().concat(name.as_str()).concat(
                " is a live address another agent may hold, and a policy aimed at the wrong one clears its conversation every cycle. Pass no recipient to renew yourself, or --recipient-id with --recipient-incarnation to renew another agent deliberately",
            ),
        ),
        _ => Err(
            "renew requires --recipient-id and --recipient-incarnation together, or neither to renew yourself".to_owned(),
        ),
    }
}

/// What `renew` is asked to do.
pub open spec fn renew_of(args: Seq<String>) -> Result<Command, Seq<char>> {
    let (recipient_id, s1) = behind_name(args).value("--recipient-id"@);
    let (incarnation, s2) = s1.value("--recipient-incarnation"@);
    let (requester, s3) = caller_of(s2);
    let (prepare_prompt, s4) = named_body_of(
        s3,
        "renew"@,
        "--prepare-prompt"@,
        "--prepare-prompt-file"@,
    );
    let (prompt, s5) = named_body_of(s4, "renew"@, "--prompt"@, "--prompt-file"@);
    let (key, s6) = s5.value("--idempotency-key"@);
    let (timeout_text, s7) = s6.value("--on-timeout"@);
    let on_timeout = on_timeout_of(timeout_text->Ok_0);
    let (timeouts, s8) = s7.all_values("--prepare-timeout"@);
    let (timeouts_ms, s9) = s8.all_values("--prepare-timeout-ms"@);
    let prepare_timeout = prepare_timeout_of(timeouts->Ok_0, timeouts_ms->Ok_0);
    let (everys, s10) = s9.all_values("--every"@);
    let every = every_of(everys->Ok_0);
    let (due, s11) = due_of(s10, "renew"@);
    let (positional, s12) = s11.positional();
    let recipient = renew_recipient_of(positional, recipient_id->Ok_0, incarnation->Ok_0);
    if let Err(e) = recipient_id {
        Err(e)
    } else if let Err(e) = incarnation {
        Err(e)
    } else if let Err(e) = requester {
        Err(e)
    } else if let Err(e) = prepare_prompt {
        Err(e)
    } else if let Err(e) = prompt {
        Err(e)
    } else if let Err(e) = key {
        Err(e)
    } else if let Err(e) = timeout_text {
        Err(e)
    } else if let Err(e) = on_timeout {
        Err(e)
    } else if let Err(e) = timeouts {
        Err(e)
    } else if let Err(e) = timeouts_ms {
        Err(e)
    } else if let Err(e) = prepare_timeout {
        Err(e)
    } else if let Err(e) = everys {
        Err(e)
    } else if let Err(e) = every {
        Err(e)
    } else if let Err(e) = due {
        Err(e)
    } else if every->Ok_0 is Some && due->Ok_0 is Some {
        Err(
            "renew accepts either a one-shot due time or --every, not both: --every re-arms itself after each cycle"@,
        )
    } else if let Err(e) = s12.finish("renew"@) {
        Err(e)
    } else if let Err(e) = recipient {
        Err(e)
    } else {
        Ok(
            Command::Renew(
                Box::new(
                    RenewArgs {
                        recipient: recipient->Ok_0,
                        requester: requester->Ok_0,
                        prepare_prompt: prepare_prompt->Ok_0,
                        prompt: prompt->Ok_0,
                        on_timeout: on_timeout->Ok_0,
                        prepare_timeout_ms: prepare_timeout->Ok_0,
                        every_ms: every->Ok_0,
                        due: due->Ok_0,
                        idempotency_key: key->Ok_0,
                    },
                ),
            ),
        )
    }
}

fn parse_renew(args: &[String]) -> (r: Result<Command, String>)
    requires
        args@.len() > 0,
    ensures
        told(r, renew_of(args@)),
        r matches Ok(command) ==> is_named(command, "renew"@),
{
    reveal(is_named);
    let mut tokens = arguments(args);
    let recipient_id = match tokens.take_value("--recipient-id") {
        Ok(v) => v,
        Err(e) => {
            return Err(e);
        },
    };
    let incarnation = match tokens.take_value("--recipient-incarnation") {
        Ok(v) => v,
        Err(e) => {
            return Err(e);
        },
    };
    let requester = match take_caller(&mut tokens) {
        Ok(v) => v,
        Err(e) => {
            return Err(e);
        },
    };
    let prepare_prompt = match take_named_body(&mut tokens, "renew", "--prepare-prompt", "--prepare-prompt-file") {
        Ok(v) => v,
        Err(e) => {
            return Err(e);
        },
    };
    let prompt = match take_named_body(&mut tokens, "renew", "--prompt", "--prompt-file") {
        Ok(v) => v,
        Err(e) => {
            return Err(e);
        },
    };
    let idempotency_key = match tokens.take_value("--idempotency-key") {
        Ok(v) => v,
        Err(e) => {
            return Err(e);
        },
    };
    // No default. Aborting leaves a context growing; proceeding destroys
    // whatever the agent did not save. A caller who has not chosen has not
    // thought about it, and this is not a decision to guess on their behalf.
    let timeout_text = match tokens.take_value("--on-timeout") {
        Ok(v) => v,
        Err(e) => {
            return Err(e);
        },
    };
    let on_timeout = match read_on_timeout(&timeout_text) {
        Ok(v) => v,
        Err(e) => {
            return Err(e);
        },
    };
    let timeouts = match tokens.take_all_values("--prepare-timeout") {
        Ok(v) => v,
        Err(e) => {
            return Err(e);
        },
    };
    let timeouts_ms = match tokens.take_all_values("--prepare-timeout-ms") {
        Ok(v) => v,
        Err(e) => {
            return Err(e);
        },
    };
    let prepare_timeout_ms = match read_prepare_timeout(&timeouts, &timeouts_ms) {
        Ok(v) => v,
        Err(e) => {
            return Err(e);
        },
    };
    let everys = match tokens.take_all_values("--every") {
        Ok(v) => v,
        Err(e) => {
            return Err(e);
        },
    };
    let every_ms = match read_every(&everys) {
        Ok(v) => v,
        Err(e) => {
            return Err(e);
        },
    };
    let due = match take_due(&mut tokens, "renew") {
        Ok(v) => v,
        Err(e) => {
            return Err(e);
        },
    };
    if every_ms.is_some() && due.is_some() {
        return Err(
            "renew accepts either a one-shot due time or --every, not both: --every re-arms itself after each cycle".to_owned(),
        );
    }
    let positional = tokens.take_positional();
    if let Err(e) = tokens.finish("renew") {
        return Err(e);
    }
    let recipient = match choose_renew_recipient(positional, recipient_id, incarnation) {
        Ok(v) => v,
        Err(e) => {
            return Err(e);
        },
    };
    Ok(
        Command::Renew(
            Box::new(
                RenewArgs {
                    recipient,
                    requester,
                    prepare_prompt,
                    prompt,
                    on_timeout,
                    prepare_timeout_ms,
                    every_ms,
                    due,
                    idempotency_key,
                },
            ),
        ),
    )
}

/// What `renew-cancel` is asked to do.
pub open spec fn renew_cancel_of(args: Seq<String>) -> Result<Command, Seq<char>> {
    let (requester, s1) = caller_of(behind_name(args));
    let (reason, s2) = s1.value("--reason"@);
    let (renew_id, s3) = s2.positional();
    if let Err(e) = requester {
        Err(e)
    } else if let Err(e) = reason {
        Err(e)
    } else if reason->Ok_0 is None {
        Err(
            "renew-cancel requires --reason: a policy that ends without saying why is the silence renew reporting exists to avoid"@,
        )
    } else if renew_id is None {
        Err("usage: kelpie renew-cancel <renew-id> --reason TEXT"@)
    } else if let Err(e) = s3.finish("renew-cancel"@) {
        Err(e)
    } else {
        Ok(
            Command::RenewCancel {
                renew_id: renew_id->0,
                reason: reason->Ok_0->0,
                requester: requester->Ok_0,
            },
        )
    }
}

fn parse_renew_cancel(args: &[String]) -> (r: Result<Command, String>)
    requires
        args@.len() > 0,
    ensures
        told(r, renew_cancel_of(args@)),
        r matches Ok(command) ==> is_named(command, "renew-cancel"@),
{
    reveal(is_named);
    let mut tokens = arguments(args);
    let requester = match take_caller(&mut tokens) {
        Ok(v) => v,
        Err(e) => {
            return Err(e);
        },
    };
    let reason = match tokens.take_value("--reason") {
        Ok(Some(v)) => v,
        Ok(None) => {
            return Err(
                "renew-cancel requires --reason: a policy that ends without saying why is the silence renew reporting exists to avoid".to_owned(),
            );
        },
        Err(e) => {
            return Err(e);
        },
    };
    let renew_id = match tokens.take_positional() {
        Some(v) => v,
        None => {
            return Err("usage: kelpie renew-cancel <renew-id> --reason TEXT".to_owned());
        },
    };
    if let Err(e) = tokens.finish("renew-cancel") {
        return Err(e);
    }
    Ok(Command::RenewCancel { renew_id, reason, requester })
}

/// A non-negative moment in epoch milliseconds.
pub open spec fn until_of(text: Seq<char>) -> Result<i64, Seq<char>> {
    match i64_of(text) {
        Some(ms) => if ms >= 0 {
            Ok(ms)
        } else {
            Err("--until-ms must be a non-negative integer"@)
        },
        None => Err("--until-ms must be a non-negative integer"@),
    }
}

/// What `reminder-snooze` is asked to do.
pub open spec fn reminder_snooze_of(args: Seq<String>) -> Result<Command, Seq<char>> {
    let (requester, s1) = caller_of(behind_name(args));
    let (until, s2) = s1.value("--until-ms"@);
    let until_ms = until_of(until->Ok_0->0@);
    let (ask_id, s3) = s2.positional();
    if let Err(e) = requester {
        Err(e)
    } else if let Err(e) = until {
        Err(e)
    } else if until->Ok_0 is None {
        Err("missing --until-ms"@)
    } else if let Err(e) = until_ms {
        Err(e)
    } else if ask_id is None {
        Err("usage: kelpie reminder-snooze <ask-id> --until-ms MS"@)
    } else if let Err(e) = s3.finish("reminder-snooze"@) {
        Err(e)
    } else {
        Ok(
            Command::ReminderSnooze {
                ask_id: ask_id->0,
                until_ms: until_ms->Ok_0,
                requester: requester->Ok_0,
            },
        )
    }
}

fn parse_reminder_snooze(args: &[String]) -> (r: Result<Command, String>)
    requires
        args@.len() > 0,
    ensures
        told(r, reminder_snooze_of(args@)),
        r matches Ok(command) ==> is_named(command, "reminder-snooze"@),
{
    reveal(is_named);
    let mut tokens = arguments(args);
    let requester = match take_caller(&mut tokens) {
        Ok(v) => v,
        Err(e) => {
            return Err(e);
        },
    };
    let until = match tokens.take_value("--until-ms") {
        Ok(Some(v)) => v,
        Ok(None) => {
            return Err("missing --until-ms".to_owned());
        },
        Err(e) => {
            return Err(e);
        },
    };
    let until_ms: i64 = match parse_i64(until.as_str()) {
        Some(ms) if ms >= 0 => ms,
        _ => {
            return Err("--until-ms must be a non-negative integer".to_owned());
        },
    };
    let ask_id = match tokens.take_positional() {
        Some(v) => v,
        None => {
            return Err("usage: kelpie reminder-snooze <ask-id> --until-ms MS".to_owned());
        },
    };
    if let Err(e) = tokens.finish("reminder-snooze") {
        return Err(e);
    }
    Ok(Command::ReminderSnooze { ask_id, until_ms, requester })
}

/// What `reminder-disable` is asked to do.
pub open spec fn reminder_disable_of(args: Seq<String>) -> Result<Command, Seq<char>> {
    let (requester, s1) = caller_of(behind_name(args));
    let (ask_id, s2) = s1.positional();
    if let Err(e) = requester {
        Err(e)
    } else if ask_id is None {
        Err("usage: kelpie reminder-disable <ask-id>"@)
    } else if let Err(e) = s2.finish("reminder-disable"@) {
        Err(e)
    } else {
        Ok(Command::ReminderDisable { ask_id: ask_id->0, requester: requester->Ok_0 })
    }
}

fn parse_reminder_disable(args: &[String]) -> (r: Result<Command, String>)
    requires
        args@.len() > 0,
    ensures
        told(r, reminder_disable_of(args@)),
        r matches Ok(command) ==> is_named(command, "reminder-disable"@),
{
    reveal(is_named);
    let mut tokens = arguments(args);
    let requester = match take_caller(&mut tokens) {
        Ok(v) => v,
        Err(e) => {
            return Err(e);
        },
    };
    let ask_id = match tokens.take_positional() {
        Some(v) => v,
        None => {
            return Err("usage: kelpie reminder-disable <ask-id>".to_owned());
        },
    };
    if let Err(e) = tokens.finish("reminder-disable") {
        return Err(e);
    }
    Ok(Command::ReminderDisable { ask_id, requester })
}

/// What `reply` is asked to do.
pub open spec fn reply_of(args: Seq<String>) -> Result<Command, Seq<char>> {
    let (progress, s1) = behind_name(args).switch("--progress"@);
    let (last, s2) = s1.switch("--final"@);
    let (body, s3) = body_of(s2, "reply"@);
    let (key, s4) = s3.value("--idempotency-key"@);
    let (requester, s5) = caller_of(s4);
    let (reply_to, s6) = s5.positional();
    if let Err(e) = progress {
        Err(e)
    } else if let Err(e) = last {
        Err(e)
    } else if let Err(e) = body {
        Err(e)
    } else if let Err(e) = key {
        Err(e)
    } else if let Err(e) = requester {
        Err(e)
    } else if reply_to is None {
        Err("usage: kelpie reply <ask-id> --progress|--final --stdin|--file|--body"@)
    } else if let Err(e) = s6.finish("reply"@) {
        Err(e)
    } else if progress->Ok_0 == last->Ok_0 {
        Err("reply requires exactly one of --progress or --final"@)
    } else {
        Ok(
            Command::Reply {
                reply_to: reply_to->0,
                requester: requester->Ok_0,
                body: body->Ok_0,
                disposition: if progress->Ok_0 {
                    "progress"
                } else {
                    "final"
                },
                idempotency_key: key->Ok_0,
            },
        )
    }
}

fn parse_reply(args: &[String]) -> (r: Result<Command, String>)
    requires
        args@.len() > 0,
    ensures
        told(r, reply_of(args@)),
        r matches Ok(command) ==> is_named(command, "reply"@),
{
    reveal(is_named);
    let mut tokens = arguments(args);
    let progress = match tokens.take_bool("--progress") {
        Ok(v) => v,
        Err(e) => {
            return Err(e);
        },
    };
    let last = match tokens.take_bool("--final") {
        Ok(v) => v,
        Err(e) => {
            return Err(e);
        },
    };
    let body = match take_body(&mut tokens, "reply") {
        Ok(v) => v,
        Err(e) => {
            return Err(e);
        },
    };
    let idempotency_key = match tokens.take_value("--idempotency-key") {
        Ok(v) => v,
        Err(e) => {
            return Err(e);
        },
    };
    let requester = match take_caller(&mut tokens) {
        Ok(v) => v,
        Err(e) => {
            return Err(e);
        },
    };
    let reply_to = match tokens.take_positional() {
        Some(v) => v,
        None => {
            return Err(
                "usage: kelpie reply <ask-id> --progress|--final --stdin|--file|--body".to_owned(),
            );
        },
    };
    if let Err(e) = tokens.finish("reply") {
        return Err(e);
    }
    let disposition = match (progress, last) {
        (true, false) => "progress",
        (false, true) => "final",
        _ => {
            return Err("reply requires exactly one of --progress or --final".to_owned());
        },
    };
    Ok(Command::Reply { reply_to, requester, body, disposition, idempotency_key })
}

/// What `pending` is asked to do.
pub open spec fn pending_of(args: Seq<String>) -> Result<Command, Seq<char>> {
    let (target, s1) = target_of(behind_name(args), "pending"@);
    if let Err(e) = target {
        Err(e)
    } else if let Err(e) = s1.finish("pending"@) {
        Err(e)
    } else {
        Ok(Command::Pending { target: target->Ok_0 })
    }
}

fn parse_pending(args: &[String]) -> (r: Result<Command, String>)
    requires
        args@.len() > 0,
    ensures
        told(r, pending_of(args@)),
        r matches Ok(command) ==> is_named(command, "pending"@),
{
    reveal(is_named);
    let mut tokens = arguments(args);
    let target = match take_single_target(&mut tokens, "pending") {
        Ok(v) => v,
        Err(e) => {
            return Err(e);
        },
    };
    if let Err(e) = tokens.finish("pending") {
        return Err(e);
    }
    Ok(Command::Pending { target })
}

/// What `whoami` is asked to do.
pub open spec fn whoami_of(args: Seq<String>) -> Result<Command, Seq<char>> {
    let (sender_id, s1) = behind_name(args).value("--sender-id"@);
    let (target, s2) = target_of(s1, "whoami"@);
    if let Err(e) = sender_id {
        Err(e)
    } else if sender_id->Ok_0 is Some {
        Err("whoami does not accept --sender-id; use an alias or --pane"@)
    } else if let Err(e) = target {
        Err(e)
    } else if let Err(e) = s2.finish("whoami"@) {
        Err(e)
    } else {
        Ok(Command::Whoami { target: target->Ok_0 })
    }
}

fn parse_whoami(args: &[String]) -> (r: Result<Command, String>)
    requires
        args@.len() > 0,
    ensures
        told(r, whoami_of(args@)),
        r matches Ok(command) ==> is_named(command, "whoami"@),
{
    reveal(is_named);
    let mut tokens = arguments(args);
    let sender_id = match tokens.take_value("--sender-id") {
        Ok(v) => v,
        Err(e) => {
            return Err(e);
        },
    };
    if sender_id.is_some() {
        return Err("whoami does not accept --sender-id; use an alias or --pane".to_owned());
    }
    let target = match take_single_target(&mut tokens, "whoami") {
        Ok(v) => v,
        Err(e) => {
            return Err(e);
        },
    };
    if let Err(e) = tokens.finish("whoami") {
        return Err(e);
    }
    Ok(Command::Whoami { target })
}

/// What `ask-info` is asked to do.
pub open spec fn ask_info_of(args: Seq<String>) -> Result<Command, Seq<char>> {
    let (ask_id, s1) = behind_name(args).positional();
    if ask_id is None {
        Err("usage: kelpie ask-info <ask-id>"@)
    } else if let Err(e) = s1.finish("ask-info"@) {
        Err(e)
    } else {
        Ok(Command::AskInfo { ask_id: ask_id->0 })
    }
}

fn parse_ask_info(args: &[String]) -> (r: Result<Command, String>)
    requires
        args@.len() > 0,
    ensures
        told(r, ask_info_of(args@)),
        r matches Ok(command) ==> is_named(command, "ask-info"@),
{
    reveal(is_named);
    let mut tokens = arguments(args);
    let ask_id = match tokens.take_positional() {
        Some(v) => v,
        None => {
            return Err("usage: kelpie ask-info <ask-id>".to_owned());
        },
    };
    if let Err(e) = tokens.finish("ask-info") {
        return Err(e);
    }
    Ok(Command::AskInfo { ask_id })
}

/// What `name-info` is asked to do.
pub open spec fn name_info_of(args: Seq<String>) -> Result<Command, Seq<char>> {
    let (name, s1) = behind_name(args).positional();
    if name is None {
        Err("usage: kelpie name-info <alias>"@)
    } else if let Err(e) = s1.finish("name-info"@) {
        Err(e)
    } else {
        Ok(Command::NameInfo { name: name->0 })
    }
}

fn parse_name_info(args: &[String]) -> (r: Result<Command, String>)
    requires
        args@.len() > 0,
    ensures
        told(r, name_info_of(args@)),
        r matches Ok(command) ==> is_named(command, "name-info"@),
{
    reveal(is_named);
    let mut tokens = arguments(args);
    let name = match tokens.take_positional() {
        Some(v) => v,
        None => {
            return Err("usage: kelpie name-info <alias>".to_owned());
        },
    };
    if let Err(e) = tokens.finish("name-info") {
        return Err(e);
    }
    Ok(Command::NameInfo { name })
}

/// What `attribution` is asked to do, from a pane that may be known.
pub open spec fn attribution_of(args: Seq<String>, own_pane: Option<String>) -> Result<
    Command,
    Seq<char>,
> {
    let (incarnation_id, s1) = behind_name(args).value("--incarnation-id"@);
    let (agent_id, s2) = s1.value("--agent-id"@);
    let (pane, s3) = s2.value("--pane"@);
    let (refresh, s4) = s3.switch("--refresh"@);
    let (alias, s5) = s4.positional();
    if let Err(e) = incarnation_id {
        Err(e)
    } else if let Err(e) = agent_id {
        Err(e)
    } else if let Err(e) = pane {
        Err(e)
    } else if let Err(e) = refresh {
        Err(e)
    } else if let Err(e) = s5.finish("attribution"@) {
        Err(e)
    } else {
        let refresh = refresh->Ok_0;
        match (incarnation_id->Ok_0, agent_id->Ok_0, pane->Ok_0, alias) {
            (Some(id), None, None, None) => Ok(
                Command::Attribution { target: AttributionTarget::Incarnation(id), refresh },
            ),
            (None, Some(id), None, None) => Ok(
                Command::Attribution { target: AttributionTarget::Agent(id), refresh },
            ),
            (None, None, Some(pane), None) => Ok(
                Command::Attribution { target: AttributionTarget::Pane(pane), refresh },
            ),
            (None, None, None, Some(alias)) => Ok(
                Command::Attribution { target: AttributionTarget::Alias(alias), refresh },
            ),
            (None, None, None, None) => match own_pane {
                Some(pane) => if pane@.len() > 0 {
                    Ok(Command::Attribution { target: AttributionTarget::Pane(pane), refresh })
                } else {
                    Err("cannot resolve caller; set HERDR_PANE_ID or pass a target"@)
                },
                None => Err("cannot resolve caller; set HERDR_PANE_ID or pass a target"@),
            },
            _ => Err(
                "attribution accepts exactly one target: a name, --pane, --agent-id, or --incarnation-id"@,
            ),
        }
    }
}

fn parse_attribution(args: &[String], own_pane: &Option<String>) -> (r: Result<Command, String>)
    requires
        args@.len() > 0,
    ensures
        told(r, attribution_of(args@, *own_pane)),
        r matches Ok(command) ==> is_named(command, "attribution"@),
{
    reveal(is_named);
    let mut tokens = arguments(args);
    let incarnation_id = match tokens.take_value("--incarnation-id") {
        Ok(v) => v,
        Err(e) => {
            return Err(e);
        },
    };
    let agent_id = match tokens.take_value("--agent-id") {
        Ok(v) => v,
        Err(e) => {
            return Err(e);
        },
    };
    let pane = match tokens.take_value("--pane") {
        Ok(v) => v,
        Err(e) => {
            return Err(e);
        },
    };
    let refresh = match tokens.take_bool("--refresh") {
        Ok(v) => v,
        Err(e) => {
            return Err(e);
        },
    };
    let alias = tokens.take_positional();
    if let Err(e) = tokens.finish("attribution") {
        return Err(e);
    }
    let target = match (incarnation_id, agent_id, pane, alias) {
        (Some(id), None, None, None) => AttributionTarget::Incarnation(id),
        (None, Some(id), None, None) => AttributionTarget::Agent(id),
        (None, None, Some(pane), None) => AttributionTarget::Pane(pane),
        (None, None, None, Some(alias)) => AttributionTarget::Alias(alias),
        (None, None, None, None) => match own_pane {
            Some(pane) if !pane.as_str().is_empty() => AttributionTarget::Pane(pane.clone()),
            _ => {
                return Err(
                    "cannot resolve caller; set HERDR_PANE_ID or pass a target".to_owned(),
                );
            },
        },
        _ => {
            return Err(
                "attribution accepts exactly one target: a name, --pane, --agent-id, or --incarnation-id".to_owned(),
            );
        },
    };
    Ok(Command::Attribution { target, refresh })
}

/// What `rename` is asked to do.
pub open spec fn rename_of(args: Seq<String>) -> Result<Command, Seq<char>> {
    let (name, s1) = behind_name(args).value("--name"@);
    let (target, s2) = target_of(s1, "rename"@);
    if let Err(e) = name {
        Err(e)
    } else if name->Ok_0 is None {
        Err("missing --name"@)
    } else if let Err(e) = target {
        Err(e)
    } else if let Err(e) = s2.finish("rename"@) {
        Err(e)
    } else {
        Ok(Command::Rename { target: target->Ok_0, name: name->Ok_0->0 })
    }
}

fn parse_rename(args: &[String]) -> (r: Result<Command, String>)
    requires
        args@.len() > 0,
    ensures
        told(r, rename_of(args@)),
        r matches Ok(command) ==> is_named(command, "rename"@),
{
    reveal(is_named);
    let mut tokens = arguments(args);
    let name = match tokens.take_value("--name") {
        Ok(Some(v)) => v,
        Ok(None) => {
            return Err("missing --name".to_owned());
        },
        Err(e) => {
            return Err(e);
        },
    };
    let target = match take_single_target(&mut tokens, "rename") {
        Ok(v) => v,
        Err(e) => {
            return Err(e);
        },
    };
    if let Err(e) = tokens.finish("rename") {
        return Err(e);
    }
    Ok(Command::Rename { target, name })
}

/// What `report` is asked to do.
pub open spec fn report_of(args: Seq<String>) -> Result<Command, Seq<char>> {
    let (live, s1) = behind_name(args).switch("--live"@);
    let (active, s2) = s1.switch("--active"@);
    if let Err(e) = live {
        Err(e)
    } else if let Err(e) = active {
        Err(e)
    } else if let Err(e) = s2.finish("report"@) {
        Err(e)
    } else {
        Ok(Command::Report { live: live->Ok_0, active: active->Ok_0 })
    }
}

fn parse_report(args: &[String]) -> (r: Result<Command, String>)
    requires
        args@.len() > 0,
    ensures
        told(r, report_of(args@)),
        r matches Ok(command) ==> is_named(command, "report"@),
{
    reveal(is_named);
    let mut tokens = arguments(args);
    let live = match tokens.take_bool("--live") {
        Ok(v) => v,
        Err(e) => {
            return Err(e);
        },
    };
    let active = match tokens.take_bool("--active") {
        Ok(v) => v,
        Err(e) => {
            return Err(e);
        },
    };
    if let Err(e) = tokens.finish("report") {
        return Err(e);
    }
    Ok(Command::Report { live, active })
}

/// What `notice` is asked to do.
pub open spec fn notice_of(args: Seq<String>) -> Result<Command, Seq<char>> {
    let (body, s1) = body_of(behind_name(args), "notice"@);
    if let Err(e) = body {
        Err(e)
    } else if let Err(e) = s1.finish("notice"@) {
        Err(e)
    } else {
        Ok(Command::Notice { body: body->Ok_0 })
    }
}

fn parse_notice(args: &[String]) -> (r: Result<Command, String>)
    requires
        args@.len() > 0,
    ensures
        told(r, notice_of(args@)),
        r matches Ok(command) ==> is_named(command, "notice"@),
{
    reveal(is_named);
    let mut tokens = arguments(args);
    let body = match take_body(&mut tokens, "notice") {
        Ok(v) => v,
        Err(e) => {
            return Err(e);
        },
    };
    if let Err(e) = tokens.finish("notice") {
        return Err(e);
    }
    Ok(Command::Notice { body })
}

/// What `cancel` is asked to do.
pub open spec fn cancel_of(args: Seq<String>) -> Result<Command, Seq<char>> {
    let (reason, s1) = behind_name(args).value("--reason"@);
    let (requester, s2) = caller_of(s1);
    let (ask_id, s3) = s2.positional();
    if let Err(e) = reason {
        Err(e)
    } else if reason->Ok_0 is None {
        Err("missing --reason"@)
    } else if let Err(e) = requester {
        Err(e)
    } else if ask_id is None {
        Err("usage: kelpie cancel <ask-id> --reason TEXT"@)
    } else if let Err(e) = s3.finish("cancel"@) {
        Err(e)
    } else {
        Ok(
            Command::Cancel {
                ask_id: ask_id->0,
                reason: reason->Ok_0->0,
                requester: requester->Ok_0,
            },
        )
    }
}

fn parse_cancel(args: &[String]) -> (r: Result<Command, String>)
    requires
        args@.len() > 0,
    ensures
        told(r, cancel_of(args@)),
        r matches Ok(command) ==> is_named(command, "cancel"@),
{
    reveal(is_named);
    let mut tokens = arguments(args);
    let reason = match tokens.take_value("--reason") {
        Ok(Some(v)) => v,
        Ok(None) => {
            return Err("missing --reason".to_owned());
        },
        Err(e) => {
            return Err(e);
        },
    };
    let requester = match take_caller(&mut tokens) {
        Ok(v) => v,
        Err(e) => {
            return Err(e);
        },
    };
    let ask_id = match tokens.take_positional() {
        Some(v) => v,
        None => {
            return Err("usage: kelpie cancel <ask-id> --reason TEXT".to_owned());
        },
    };
    if let Err(e) = tokens.finish("cancel") {
        return Err(e);
    }
    Ok(Command::Cancel { ask_id, reason, requester })
}

/// What `retire` is asked to do.
pub open spec fn retire_of(args: Seq<String>) -> Result<Command, Seq<char>> {
    let (incarnation_id, s1) = behind_name(args).value("--incarnation"@);
    let (key, s2) = s1.value("--idempotency-key"@);
    let (close_pane, s3) = s2.switch("--close-pane"@);
    if let Err(e) = incarnation_id {
        Err(e)
    } else if incarnation_id->Ok_0 is None {
        Err("missing --incarnation"@)
    } else if let Err(e) = key {
        Err(e)
    } else if let Err(e) = close_pane {
        Err(e)
    } else if let Err(e) = s3.finish("retire"@) {
        Err(e)
    } else {
        Ok(
            Command::Retire {
                incarnation_id: incarnation_id->Ok_0->0,
                idempotency_key: key->Ok_0,
                close_pane: close_pane->Ok_0,
            },
        )
    }
}

fn parse_retire(args: &[String]) -> (r: Result<Command, String>)
    requires
        args@.len() > 0,
    ensures
        told(r, retire_of(args@)),
        r matches Ok(command) ==> is_named(command, "retire"@),
{
    reveal(is_named);
    let mut tokens = arguments(args);
    let incarnation_id = match tokens.take_value("--incarnation") {
        Ok(Some(v)) => v,
        Ok(None) => {
            return Err("missing --incarnation".to_owned());
        },
        Err(e) => {
            return Err(e);
        },
    };
    let idempotency_key = match tokens.take_value("--idempotency-key") {
        Ok(v) => v,
        Err(e) => {
            return Err(e);
        },
    };
    let close_pane = match tokens.take_bool("--close-pane") {
        Ok(v) => v,
        Err(e) => {
            return Err(e);
        },
    };
    if let Err(e) = tokens.finish("retire") {
        return Err(e);
    }
    Ok(Command::Retire { incarnation_id, idempotency_key, close_pane })
}

/// What `waiter-retire` is asked to do.
pub open spec fn waiter_retire_of(args: Seq<String>) -> Result<Command, Seq<char>> {
    let (id, s1) = behind_name(args).value("--logical-id"@);
    if let Err(e) = id {
        Err(e)
    } else if id->Ok_0 is None {
        Err("waiter-retire requires --logical-id"@)
    } else if let Err(e) = s1.finish("waiter-retire"@) {
        Err(e)
    } else {
        Ok(Command::WaiterRetire { logical_agent_id: id->Ok_0->0 })
    }
}

fn parse_waiter_retire(args: &[String]) -> (r: Result<Command, String>)
    requires
        args@.len() > 0,
    ensures
        told(r, waiter_retire_of(args@)),
        r matches Ok(command) ==> is_named(command, "waiter-retire"@),
{
    reveal(is_named);
    let mut tokens = arguments(args);
    let logical_agent_id = match tokens.take_value("--logical-id") {
        Ok(Some(v)) => v,
        Ok(None) => {
            return Err("waiter-retire requires --logical-id".to_owned());
        },
        Err(e) => {
            return Err(e);
        },
    };
    if let Err(e) = tokens.finish("waiter-retire") {
        return Err(e);
    }
    Ok(Command::WaiterRetire { logical_agent_id })
}

/// A command without arguments.
pub open spec fn bare_of(args: Seq<String>, name: Seq<char>, command: Command) -> Result<
    Command,
    Seq<char>,
> {
    if let Err(e) = behind_name(args).finish(name) {
        Err(e)
    } else {
        Ok(command)
    }
}

fn parse_bare(args: &[String], name: &str, command: Command) -> (r: Result<Command, String>)
    requires
        args@.len() > 0,
    ensures
        told(r, bare_of(args@, name@, command)),        r matches Ok(taken) ==> taken == command,
{
    let tokens = arguments(args);
    if let Err(e) = tokens.finish(name) {
        return Err(e);
    }
    Ok(command)
}

/// Whether the terminal stays open: exactly one of the two flags.
pub open spec fn keep_open_of(parse: Parse, command: Seq<char>) -> (bool, Parse) {
    let (keep, p1) = parse.switch("--keep-open"@);
    let (no_keep, p2) = p1.switch("--no-keep-open"@);
    (
        keep && !no_keep,
        p2.note_if(
            keep == no_keep,
            command + " requires exactly one of --keep-open or --no-keep-open"@,
        ),
    )
}

/// Read the `--keep-open` / `--no-keep-open` pair, noting a bad combination.
///
/// The three `take_*` helpers below each resolve one exclusive choice. They
/// return a usable placeholder on a bad combination rather than returning
/// early, so the rest of the argument list still gets parsed and reported.
fn take_keep_open(problems: &mut Problems, tokens: &mut Tokens, command: &str) -> (r: bool)
    requires
        old(tokens)@.wf(),
    ensures
        final(tokens)@.wf(),
        (r, Parse { found: final(problems)@, scan: final(tokens)@ }) == keep_open_of(
            (Parse { found: old(problems)@, scan: old(tokens)@ }),
            command@,
        ),
{
    let keep_open = problems.switch(tokens, "--keep-open");
    let no_keep_open = problems.switch(tokens, "--no-keep-open");
    match (keep_open, no_keep_open) {
        (true, false) => true,
        (false, true) => false,
        _ => {
            problems.note(
                command.to_owned().concat(
                    " requires exactly one of --keep-open or --no-keep-open",
                ),
            );
            false
        },
    }
}

/// The parent of a new agent: exactly one of the two flags.
pub open spec fn parent_of(parse: Parse, command: Seq<char>) -> (Option<StartParent>, Parse) {
    let (parentless, p1) = parse.switch("--parentless"@);
    let (parent_id, p2) = p1.value("--parent-id"@);
    match (parentless, parent_id) {
        (true, None) => (Some(StartParent::Parentless), p2),
        (false, Some(id)) => (Some(StartParent::Agent(id)), p2),
        _ => (
            None,
            p2.note(command + " requires exactly one of --parentless or --parent-id"@),
        ),
    }
}

fn take_parent(problems: &mut Problems, tokens: &mut Tokens, command: &str) -> (r: Option<
    StartParent,
>)
    requires
        old(tokens)@.wf(),
    ensures
        final(tokens)@.wf(),
        (r, Parse { found: final(problems)@, scan: final(tokens)@ }) == parent_of(
            (Parse { found: old(problems)@, scan: old(tokens)@ }),
            command@,
        ),
{
    let parentless = problems.switch(tokens, "--parentless");
    let parent_id = problems.value(tokens, "--parent-id");
    match (parentless, parent_id) {
        (true, None) => Some(StartParent::Parentless),
        (false, Some(id)) => Some(StartParent::Agent(id)),
        _ => {
            problems.note(
                command.to_owned().concat(" requires exactly one of --parentless or --parent-id"),
            );
            None
        },
    }
}

/// The kind of an initial message: exactly one of the two flags.
pub open spec fn initial_kind_of(parse: Parse, command: Seq<char>) -> (&'static str, Parse) {
    let (tell, p1) = parse.switch("--tell"@);
    let (ask, p2) = p1.switch("--ask"@);
    (
        if ask && !tell {
            "ask"
        } else {
            "tell"
        },
        p2.note_if(tell == ask, command + " requires exactly one of --tell or --ask"@),
    )
}

fn take_initial_kind(problems: &mut Problems, tokens: &mut Tokens, command: &str) -> (r: &'static str)
    requires
        old(tokens)@.wf(),
    ensures
        final(tokens)@.wf(),
        (r, Parse { found: final(problems)@, scan: final(tokens)@ }) == initial_kind_of(
            (Parse { found: old(problems)@, scan: old(tokens)@ }),
            command@,
        ),
{
    let tell = problems.switch(tokens, "--tell");
    let ask = problems.switch(tokens, "--ask");
    match (tell, ask) {
        (true, false) => "tell",
        (false, true) => "ask",
        _ => {
            problems.note(
                command.to_owned().concat(" requires exactly one of --tell or --ask"),
            );
            "tell"
        },
    }
}

/// How long a start may take, in milliseconds.
pub open spec fn timeout_of(parse: Parse) -> (Option<u64>, Parse) {
    let (text, p1) = parse.required("--timeout-ms"@);
    match text {
        Some(text) => (
            u64_of(text@),
            p1.note_if(u64_of(text@) is None, "invalid --timeout-ms"@),
        ),
        None => (None, p1),
    }
}

fn take_timeout(problems: &mut Problems, tokens: &mut Tokens) -> (r: Option<u64>)
    requires
        old(tokens)@.wf(),
    ensures
        final(tokens)@.wf(),
        (r, Parse { found: final(problems)@, scan: final(tokens)@ }) == timeout_of(
            (Parse { found: old(problems)@, scan: old(tokens)@ }),
        ),
{
    match problems.required(tokens, "--timeout-ms") {
        Some(text) => {
            let milliseconds = parse_u64(text.as_str());
            if milliseconds.is_none() {
                problems.note("invalid --timeout-ms".to_owned());
            }
            milliseconds
        },
        None => None,
    }
}

/// Where the initial body comes from; a bad choice is a problem.
pub open spec fn noted_body_of(parse: Parse, command: Seq<char>) -> (Option<BodySource>, Parse) {
    let (body, scan) = body_of(parse.scan, command);
    match body {
        Ok(body) => (Some(body), Parse { found: parse.found, scan }),
        Err(e) => (None, Parse { found: parse.found.push(e), scan }),
    }
}

fn take_noted_body(problems: &mut Problems, tokens: &mut Tokens, command: &str) -> (r: Option<
    BodySource,
>)
    requires
        old(tokens)@.wf(),
    ensures
        final(tokens)@.wf(),
        (r, Parse { found: final(problems)@, scan: final(tokens)@ }) == noted_body_of(
            (Parse { found: old(problems)@, scan: old(tokens)@ }),
            command@,
        ),
{
    match take_body(tokens, command) {
        Ok(body) => Some(body),
        Err(problem) => {
            problems.note(problem);
            None
        },
    }
}

/// A start as its tokens mean it. No session given means `default`.
pub struct StartMeant {
    pub public_name: String,
    pub logical_agent_id: Option<String>,
    pub parent: StartParent,
    pub session: Option<String>,
    pub pane_id: String,
    pub terminal_id: String,
    pub backend_kind: String,
    pub backend_args: Seq<String>,
    pub initial_kind: &'static str,
    pub initial_sender: Option<String>,
    pub body: BodySource,
    pub working_directory: String,
    pub idempotency_key: Option<String>,
    pub readiness_timeout_ms: u64,
    pub keep_open: bool,
    pub requested_model: Option<String>,
    pub requested_provider: Option<String>,
    pub requested_effort: Option<String>,
    pub supersedes: Option<String>,
}

/// Whether a session is the one given, or `default` where none was.
pub open spec fn is_session(session: String, given: Option<String>) -> bool {
    match given {
        Some(name) => session == name,
        None => session@ == "default"@,
    }
}

impl StartCommand {
    /// Whether the command is the one that was meant.
    pub open spec fn is_meant(self, meant: StartMeant) -> bool {
        &&& self.public_name == meant.public_name
        &&& self.logical_agent_id == meant.logical_agent_id
        &&& self.parent == meant.parent
        &&& is_session(self.herdr_session, meant.session)
        &&& self.pane_id == meant.pane_id
        &&& self.terminal_id == meant.terminal_id
        &&& self.backend_kind == meant.backend_kind
        &&& self.backend_args@ == meant.backend_args
        &&& self.initial_kind == meant.initial_kind
        &&& self.initial_sender == meant.initial_sender
        &&& self.body == meant.body
        &&& self.working_directory == meant.working_directory
        &&& self.idempotency_key == meant.idempotency_key
        &&& self.readiness_timeout_ms == meant.readiness_timeout_ms
        &&& self.keep_open == meant.keep_open
        &&& self.requested_model == meant.requested_model
        &&& self.requested_provider == meant.requested_provider
        &&& self.requested_effort == meant.requested_effort
        &&& self.supersedes == meant.supersedes
    }
}

/// The session, or `default` where none is given.
fn session_or_default(given: Option<String>) -> (session: String)
    ensures
        is_session(session, given),
{
    match given {
        Some(name) => name,
        None => "default".to_owned(),
    }
}

/// What `start` or `handoff` is asked to do: everything is read before anything
/// is refused, so that all problems come at once.
pub open spec fn start_of(args: Seq<String>, handoff: bool) -> Result<StartMeant, Seq<char>> {
    let command = if handoff {
        "handoff"@
    } else {
        "start"@
    };
    let p0 = Parse { found: Seq::empty(), scan: behind_name(args) };
    let (supersedes, p1) = p0.value("--replace"@);
    let p2 = p1.note_if(
        handoff && supersedes is None,
        "handoff requires --replace INCARNATION-ID: name the incarnation the new one takes over from"@,
    ).note_if(
        !handoff && supersedes is Some,
        "start does not accept --replace; use handoff to replace a running incarnation of the same logical agent"@,
    );
    let (public_name, p3) = p2.required("--name"@);
    let (pane_id, p4) = p3.required("--pane"@);
    let (terminal_id, p5) = p4.required("--terminal"@);
    let (backend_kind, p6) = p5.required("--backend"@);
    let (working_directory, p7) = p6.required("--cwd"@);
    let (timeout, p8) = timeout_of(p7);
    let (keep_open, p9) = keep_open_of(p8, command);
    let (parent, p10) = parent_of(p9, command);
    let (initial_kind, p11) = initial_kind_of(p10, command);
    let (initial_sender, p12) = p11.value("--sender-id"@);
    let (body, p13) = noted_body_of(p12, command);
    let (backend_args, p14) = p13.all_values("--arg"@);
    let (logical_agent_id, p15) = p14.value("--logical-id"@);
    let (session, p16) = p15.value("--session"@);
    let (requested_model, p17) = p16.value("--requested-model"@);
    let (requested_provider, p18) = p17.value("--requested-provider"@);
    let (requested_effort, p19) = p18.value("--requested-effort"@);
    let (idempotency_key, p20) = p19.value("--idempotency-key"@);
    if let Err(e) = verdict(command, p20.all_found()) {
        Err(e)
    } else {
        Ok(
            StartMeant {
                public_name: public_name->0,
                logical_agent_id,
                parent: parent->0,
                session,
                pane_id: pane_id->0,
                terminal_id: terminal_id->0,
                backend_kind: backend_kind->0,
                backend_args,
                initial_kind,
                initial_sender,
                body: body->0,
                working_directory: working_directory->0,
                idempotency_key,
                readiness_timeout_ms: timeout->0,
                keep_open,
                requested_model,
                requested_provider,
                requested_effort,
                supersedes,
            },
        )
    }
}

/// A start is what both of its names ask for.
proof fn lemma_start_is_named()
    ensures
        forall|command: Command| command is Start ==> #[trigger] is_named(command, "start"@),
        forall|command: Command| command is Start ==> #[trigger] is_named(command, "handoff"@),
{
    reveal(is_named);
}

#[verifier::spinoff_prover]
#[verifier::rlimit(60)]
fn parse_start(args: &[String], handoff: bool) -> (r: Result<Command, String>)
    requires
        args@.len() > 0,
    ensures
        match (r, start_of(args@, handoff)) {
            (Ok(Command::Start(start)), Ok(meant)) => start.is_meant(meant),
            (Err(e), Err(meant)) => e@ == meant,
            _ => false,
        },
        r matches Ok(command) ==> is_named(
            command,
            if handoff {
                "handoff"@
            } else {
                "start"@
            },
        ),
{
    proof {
        lemma_start_is_named();
    }
    let command = if handoff {
        "handoff"
    } else {
        "start"
    };
    let mut tokens = arguments(args);
    let mut problems = Problems::default();
    let supersedes = problems.value(&mut tokens, "--replace");
    if handoff && supersedes.is_none() {
        problems.note(
            "handoff requires --replace INCARNATION-ID: name the incarnation the new one takes over from".to_owned(),
        );
    }
    if !handoff && supersedes.is_some() {
        problems.note(
            "start does not accept --replace; use handoff to replace a running incarnation of the same logical agent".to_owned(),
        );
    }
    let public_name = problems.required(&mut tokens, "--name");
    let pane_id = problems.required(&mut tokens, "--pane");
    let terminal_id = problems.required(&mut tokens, "--terminal");
    let backend_kind = problems.required(&mut tokens, "--backend");
    let working_directory = problems.required(&mut tokens, "--cwd");
    let timeout = take_timeout(&mut problems, &mut tokens);
    let keep_open = take_keep_open(&mut problems, &mut tokens, command);
    let parent = take_parent(&mut problems, &mut tokens, command);
    let initial_kind = take_initial_kind(&mut problems, &mut tokens, command);
    // An initial ask needs an agent waiting identity, but the caller does not
    // have to spell it out: an absent --sender-id resolves to the caller's Ready
    // binding, matching tell, ask, pending, and cancel. The store still rejects
    // an operator-attributed ask, which has nobody to owe the reply to.
    let initial_sender = problems.value(&mut tokens, "--sender-id");
    let body = take_noted_body(&mut problems, &mut tokens, command);
    let backend_args = problems.all_values(&mut tokens, "--arg");
    let logical_agent_id = problems.value(&mut tokens, "--logical-id");
    let session = problems.value(&mut tokens, "--session");
    let requested_model = problems.value(&mut tokens, "--requested-model");
    let requested_provider = problems.value(&mut tokens, "--requested-provider");
    let requested_effort = problems.value(&mut tokens, "--requested-effort");
    let idempotency_key = problems.value(&mut tokens, "--idempotency-key");
    if let Err(e) = problems.resolve(&tokens, command) {
        return Err(e);
    }
    // Every choice above that came to nothing also noted a problem, so past
    // resolve each of them is there.
    match (
        public_name,
        pane_id,
        terminal_id,
        backend_kind,
        working_directory,
        timeout,
        parent,
        body,
    ) {
        (
            Some(public_name),
            Some(pane_id),
            Some(terminal_id),
            Some(backend_kind),
            Some(working_directory),
            Some(readiness_timeout_ms),
            Some(parent),
            Some(body),
        ) => Ok(
            Command::Start(
                Box::new(
                    StartCommand {
                        public_name,
                        logical_agent_id,
                        parent,
                        herdr_session: session_or_default(session),
                        pane_id,
                        terminal_id,
                        backend_kind,
                        backend_args,
                        initial_kind,
                        initial_sender,
                        body,
                        working_directory,
                        idempotency_key,
                        readiness_timeout_ms,
                        keep_open,
                        requested_model,
                        requested_provider,
                        requested_effort,
                        supersedes,
                    },
                ),
            ),
        ),
        _ => vstd::pervasive::unreached(),
    }
}

/// An adoption as its tokens mean it. No session given means `default`.
pub struct AdoptMeant {
    pub pane_id: String,
    pub terminal_id: String,
    pub public_name: Option<String>,
    pub backend_kind: Option<String>,
    pub logical_agent_id: Option<String>,
    pub session: Option<String>,
    pub backend_args: Seq<String>,
    pub requested_model: Option<String>,
    pub requested_provider: Option<String>,
    pub requested_effort: Option<String>,
    pub idempotency_key: Option<String>,
}

impl AdoptArgs {
    /// Whether the arguments are the ones that were meant.
    pub open spec fn is_meant(self, meant: AdoptMeant) -> bool {
        &&& self.pane_id == meant.pane_id
        &&& self.terminal_id == meant.terminal_id
        &&& self.public_name == meant.public_name
        &&& self.backend_kind == meant.backend_kind
        &&& self.logical_agent_id == meant.logical_agent_id
        &&& is_session(self.herdr_session, meant.session)
        &&& self.backend_args@ == meant.backend_args
        &&& self.requested_model == meant.requested_model
        &&& self.requested_provider == meant.requested_provider
        &&& self.requested_effort == meant.requested_effort
        &&& self.idempotency_key == meant.idempotency_key
    }
}

/// What `adopt` is asked to do.
pub open spec fn adopt_of(args: Seq<String>) -> Result<AdoptMeant, Seq<char>> {
    let p0 = Parse { found: Seq::empty(), scan: behind_name(args) };
    let (pane_id, p1) = p0.required("--pane"@);
    let (terminal_id, p2) = p1.required("--terminal"@);
    let (public_name, p3) = p2.value("--name"@);
    let (backend_kind, p4) = p3.value("--backend"@);
    let (logical_agent_id, p5) = p4.value("--logical-id"@);
    let (session, p6) = p5.value("--session"@);
    let (backend_args, p7) = p6.all_values("--arg"@);
    let (requested_model, p8) = p7.value("--requested-model"@);
    let (requested_provider, p9) = p8.value("--requested-provider"@);
    let (requested_effort, p10) = p9.value("--requested-effort"@);
    let (idempotency_key, p11) = p10.value("--idempotency-key"@);
    if let Err(e) = verdict("adopt"@, p11.all_found()) {
        Err(e)
    } else {
        Ok(
            AdoptMeant {
                pane_id: pane_id->0,
                terminal_id: terminal_id->0,
                public_name,
                backend_kind,
                logical_agent_id,
                session,
                backend_args,
                requested_model,
                requested_provider,
                requested_effort,
                idempotency_key,
            },
        )
    }
}

fn parse_adopt(args: &[String]) -> (r: Result<Command, String>)
    requires
        args@.len() > 0,
    ensures
        match (r, adopt_of(args@)) {
            (Ok(Command::Adopt(adopt)), Ok(meant)) => adopt.is_meant(meant),
            (Err(e), Err(meant)) => e@ == meant,
            _ => false,
        },
        r matches Ok(command) ==> is_named(command, "adopt"@),
{
    reveal(is_named);
    let mut tokens = arguments(args);
    let mut problems = Problems::default();
    let pane_id = problems.required(&mut tokens, "--pane");
    let terminal_id = problems.required(&mut tokens, "--terminal");
    let public_name = problems.value(&mut tokens, "--name");
    let backend_kind = problems.value(&mut tokens, "--backend");
    let logical_agent_id = problems.value(&mut tokens, "--logical-id");
    let session = problems.value(&mut tokens, "--session");
    let backend_args = problems.all_values(&mut tokens, "--arg");
    let requested_model = problems.value(&mut tokens, "--requested-model");
    let requested_provider = problems.value(&mut tokens, "--requested-provider");
    let requested_effort = problems.value(&mut tokens, "--requested-effort");
    let idempotency_key = problems.value(&mut tokens, "--idempotency-key");
    if let Err(e) = problems.resolve(&tokens, "adopt") {
        return Err(e);
    }
    match (pane_id, terminal_id) {
        (Some(pane_id), Some(terminal_id)) => Ok(
            Command::Adopt(
                Box::new(
                    AdoptArgs {
                        pane_id,
                        terminal_id,
                        public_name,
                        backend_kind,
                        logical_agent_id,
                        herdr_session: session_or_default(session),
                        backend_args,
                        requested_model,
                        requested_provider,
                        requested_effort,
                        idempotency_key,
                    },
                ),
            ),
        ),
        _ => vstd::pervasive::unreached(),
    }
}

/// What `waiter-register` is asked to do.
pub open spec fn waiter_register_of(args: Seq<String>) -> Result<Command, Seq<char>> {
    let p0 = Parse { found: Seq::empty(), scan: behind_name(args) };
    let (public_name, p1) = p0.required("--name"@);
    let (parent, p2) = parent_of(p1, "waiter-register"@);
    let (idempotency_key, p3) = p2.value("--idempotency-key"@);
    if let Err(e) = verdict("waiter-register"@, p3.all_found()) {
        Err(e)
    } else {
        Ok(
            Command::WaiterRegister {
                public_name: public_name->0,
                parent: parent->0,
                idempotency_key,
            },
        )
    }
}

fn parse_waiter_register(args: &[String]) -> (r: Result<Command, String>)
    requires
        args@.len() > 0,
    ensures
        told(r, waiter_register_of(args@)),
        r matches Ok(command) ==> is_named(command, "waiter-register"@),
{
    reveal(is_named);
    let mut tokens = arguments(args);
    let mut problems = Problems::default();
    let public_name = problems.required(&mut tokens, "--name");
    let parent = take_parent(&mut problems, &mut tokens, "waiter-register");
    let idempotency_key = problems.value(&mut tokens, "--idempotency-key");
    if let Err(e) = problems.resolve(&tokens, "waiter-register") {
        return Err(e);
    }
    match (public_name, parent) {
        (Some(public_name), Some(parent)) => Ok(
            Command::WaiterRegister { public_name, parent, idempotency_key },
        ),
        _ => vstd::pervasive::unreached(),
    }
}

/// The usage text.
pub const USAGE: &'static str =
    "\
kelpie --skill | --version
kelpie SOCKET                         # raw NDJSON request on stdin
kelpie [--socket PATH] [--json] COMMAND

Commands:
  tell <recipient> | --recipient-id ID --recipient-incarnation ID
       (--stdin | --file PATH | --body TEXT)
       [--due-in 10m | --due-at RFC3339 | --due-at-ms MS]
  ask  <recipient> | --recipient-id ID --recipient-incarnation ID
       (--stdin | --file PATH | --body TEXT)
       [--remind-after-ms MS | --no-remind]
  reply <ask-id> (--progress | --final) (--stdin | --file PATH | --body TEXT)
  clear <recipient> | --recipient-id ID --recipient-incarnation ID
  renew [--recipient-id ID --recipient-incarnation ID]
       (--prepare-prompt TEXT | --prepare-prompt-file PATH)
       (--prompt TEXT | --prompt-file PATH)
       --on-timeout (abort | proceed)
       [--prepare-timeout 10m | --prepare-timeout-ms MS]
       [--due-in 45m | --due-at RFC3339 | --due-at-ms MS | --every 45m]
  renew-cancel <renew-id> --reason TEXT
  pending [alias]
  recover
  whoami [alias]
  name-info <alias>
  ask-info <ask-id>
  attribution [alias] | --pane ID | --agent-id ID | --incarnation-id ID
       [--refresh]
  report [--live] [--active]
  rename [alias] | --sender-id ID --name NEW-NAME
  handoff --replace INCARNATION-ID <all start arguments>
  start --name NAME --pane ID --terminal ID --backend KIND --cwd PATH
       --timeout-ms N (--keep-open | --no-keep-open)
       (--parentless | --parent-id ID) (--tell | --ask)
       (--stdin | --file PATH | --body TEXT)
       [--arg ARG]... [--session NAME] [--logical-id ID] [--sender-id ID]
       [--requested-model NAME] [--requested-provider NAME] [--requested-effort NAME]
  adopt --pane ID --terminal ID [--name NAME] [--backend KIND]
       [--logical-id ID] [--session NAME]
  notice (--stdin | --file PATH | --body TEXT)
  notices
  cancel <ask-id> --reason TEXT
  reminder-snooze <ask-id> --until-ms MS
  reminder-disable <ask-id>
  retire --incarnation ID [--close-pane]
  waiter-register --name NAME (--parentless | --parent-id ID)
  waiter-retire --logical-id ID

Unknown, duplicate, conflicting, or extra arguments fail closed. Ordinary
bodies should use --stdin or --file. --body is only for short trusted text.
Use exactly one recipient form: a live name, or both exact IDs. Do not
invent a fake alias when addressing by ID. renew is the exception: it takes
no alias, and with no recipient it renews the caller. Only renew-cancel ends
a policy, and only its requester or its target may call it. Caller defaults to the Ready
binding for $HERDR_PANE_ID. Default receipts show accepted, rejected,
target-unavailable, and unknown outcomes; any non-success exits nonzero.";

/// A command as its tokens mean it.
pub enum Meant {
    Plain(Command),
    Start(StartMeant),
    Adopt(AdoptMeant),
}

impl Command {
    /// Whether the command is the one that was meant.
    pub open spec fn is_meant(self, meant: Meant) -> bool {
        match meant {
            Meant::Plain(command) => self == command,
            Meant::Start(start) => self matches Command::Start(command) && command.is_meant(start),
            Meant::Adopt(adopt) => self matches Command::Adopt(command) && command.is_meant(adopt),
        }
    }
}

/// A command that is meant as it stands.
pub open spec fn plain(command: Result<Command, Seq<char>>) -> Result<Meant, Seq<char>> {
    match command {
        Ok(command) => Ok(Meant::Plain(command)),
        Err(e) => Err(e),
    }
}

/// What the tokens, the first of which names the command, ask for.
pub open spec fn command_of(args: Seq<String>, own_pane: Option<String>) -> Result<
    Meant,
    Seq<char>,
> {
    let name = args[0]@;
    if name == "tell"@ || name == "ask"@ {
        plain(message_of(args))
    } else if name == "reply"@ {
        plain(reply_of(args))
    } else if name == "clear"@ {
        plain(clear_of(args))
    } else if name == "renew"@ {
        plain(renew_of(args))
    } else if name == "renew-cancel"@ {
        plain(renew_cancel_of(args))
    } else if name == "pending"@ {
        plain(pending_of(args))
    } else if name == "recover"@ {
        plain(bare_of(args, "recover"@, Command::Recover))
    } else if name == "whoami"@ {
        plain(whoami_of(args))
    } else if name == "name-info"@ {
        plain(name_info_of(args))
    } else if name == "ask-info"@ {
        plain(ask_info_of(args))
    } else if name == "attribution"@ {
        plain(attribution_of(args, own_pane))
    } else if name == "rename"@ {
        plain(rename_of(args))
    } else if name == "report"@ {
        plain(report_of(args))
    } else if name == "start"@ || name == "handoff"@ {
        match start_of(args, name == "handoff"@) {
            Ok(start) => Ok(Meant::Start(start)),
            Err(e) => Err(e),
        }
    } else if name == "adopt"@ {
        match adopt_of(args) {
            Ok(adopt) => Ok(Meant::Adopt(adopt)),
            Err(e) => Err(e),
        }
    } else if name == "waiter-register"@ {
        plain(waiter_register_of(args))
    } else if name == "waiter-retire"@ {
        plain(waiter_retire_of(args))
    } else if name == "notice"@ {
        plain(notice_of(args))
    } else if name == "notices"@ {
        plain(bare_of(args, "notices"@, Command::Notices))
    } else if name == "cancel"@ {
        plain(cancel_of(args))
    } else if name == "reminder-snooze"@ {
        plain(reminder_snooze_of(args))
    } else if name == "reminder-disable"@ {
        plain(reminder_disable_of(args))
    } else if name == "retire"@ {
        plain(retire_of(args))
    } else {
        Err("unknown command "@ + name)
    }
}

/// Whether a parse gave what was meant.
pub open spec fn told_command(r: Result<Command, String>, meant: Result<Meant, Seq<char>>) -> bool {
    match (r, meant) {
        (Ok(command), Ok(meant)) => command.is_meant(meant),
        (Err(e), Err(t)) => e@ == t,
        _ => false,
    }
}

/// Whether a command is the one of that name.
#[verifier::opaque]
pub open spec fn is_named(command: Command, name: Seq<char>) -> bool {
    match command {
        Command::Tell { .. } => name == "tell"@,
        Command::Ask { .. } => name == "ask"@,
        Command::Reply { .. } => name == "reply"@,
        Command::Clear { .. } => name == "clear"@,
        Command::Renew(_) => name == "renew"@,
        Command::RenewCancel { .. } => name == "renew-cancel"@,
        Command::Pending { .. } => name == "pending"@,
        Command::Recover => name == "recover"@,
        Command::Whoami { .. } => name == "whoami"@,
        Command::NameInfo { .. } => name == "name-info"@,
        Command::AskInfo { .. } => name == "ask-info"@,
        Command::Attribution { .. } => name == "attribution"@,
        Command::Rename { .. } => name == "rename"@,
        Command::Report { .. } => name == "report"@,
        Command::Start(_) => name == "start"@ || name == "handoff"@,
        Command::Adopt(_) => name == "adopt"@,
        Command::WaiterRegister { .. } => name == "waiter-register"@,
        Command::WaiterRetire { .. } => name == "waiter-retire"@,
        Command::Notice { .. } => name == "notice"@,
        Command::Notices => name == "notices"@,
        Command::Cancel { .. } => name == "cancel"@,
        Command::ReminderSnooze { .. } => name == "reminder-snooze"@,
        Command::ReminderDisable { .. } => name == "reminder-disable"@,
        Command::Retire { .. } => name == "retire"@,
    }
}

/// Parse a command and its arguments.
#[verifier::rlimit(60)]
#[verifier::spinoff_prover]
pub fn parse_command(args: &[String], own_pane: &Option<String>) -> (r: Result<Command, String>)
    requires
        args@.len() > 0,
    ensures
        told_command(r, command_of(args@, *own_pane)),
        r matches Ok(command) ==> is_named(command, args@[0]@),
{
    let name = args[0].as_str();
    if same(name, "tell") || same(name, "ask") {
        parse_message_command(args)
    } else if same(name, "reply") {
        parse_reply(args)
    } else if same(name, "clear") {
        parse_clear(args)
    } else if same(name, "renew") {
        parse_renew(args)
    } else if same(name, "renew-cancel") {
        parse_renew_cancel(args)
    } else if same(name, "pending") {
        parse_pending(args)
    } else if same(name, "recover") {
        proof {
            reveal(is_named);
        }
        parse_bare(args, "recover", Command::Recover)
    } else if same(name, "whoami") {
        parse_whoami(args)
    } else if same(name, "name-info") {
        parse_name_info(args)
    } else if same(name, "ask-info") {
        parse_ask_info(args)
    } else if same(name, "attribution") {
        parse_attribution(args, own_pane)
    } else if same(name, "rename") {
        parse_rename(args)
    } else if same(name, "report") {
        parse_report(args)
    } else if same(name, "start") {
        proof {
            reveal_strlit("start");
            reveal_strlit("handoff");
        }
        parse_start(args, false)
    } else if same(name, "handoff") {
        parse_start(args, true)
    } else if same(name, "adopt") {
        parse_adopt(args)
    } else if same(name, "waiter-register") {
        parse_waiter_register(args)
    } else if same(name, "waiter-retire") {
        parse_waiter_retire(args)
    } else if same(name, "notice") {
        parse_notice(args)
    } else if same(name, "notices") {
        proof {
            reveal(is_named);
        }
        parse_bare(args, "notices", Command::Notices)
    } else if same(name, "cancel") {
        parse_cancel(args)
    } else if same(name, "reminder-snooze") {
        parse_reminder_snooze(args)
    } else if same(name, "reminder-disable") {
        parse_reminder_disable(args)
    } else if same(name, "retire") {
        parse_retire(args)
    } else {
        Err("unknown command ".to_owned().concat(name))
    }
}

/// What the client knows of the machine before it reads its arguments.
#[derive(Debug, Clone, PartialEq, Eq)]
pub struct Surroundings {
    /// The pane that the client runs in, from `HERDR_PANE_ID`.
    pub own_pane: Option<String>,
    /// The live socket of the daemon.
    pub default_socket: String,
    /// Those of the arguments that name an existing path.
    pub present: Vec<String>,
}

/// What comes before the command: the global flags, and what is left of the
/// arguments.
pub struct Globals {
    pub socket: Option<String>,
    pub json: bool,
    pub rest: Seq<String>,
}

/// The global flags from `index` on, behind those already read.
pub open spec fn globals_from(args: Seq<String>, index: int, so_far: Globals) -> Result<
    Globals,
    Seq<char>,
>
    decreases args.len() - index,
{
    if index >= args.len() {
        Ok(so_far)
    } else if args[index]@ == "--socket"@ {
        if so_far.socket is Some {
            Err("--socket specified more than once"@)
        } else if index + 1 >= args.len() || begins(args[index + 1]@, '-') {
            Err("--socket needs a value"@)
        } else {
            globals_from(
                args,
                index + 2,
                Globals { socket: Some(args[index + 1]), json: so_far.json, rest: so_far.rest },
            )
        }
    } else if args[index]@ == "--json"@ {
        if so_far.json {
            Err("--json specified more than once"@)
        } else {
            globals_from(
                args,
                index + 1,
                Globals { socket: so_far.socket, json: true, rest: so_far.rest },
            )
        }
    } else if begins(args[index]@, '-') {
        globals_from(
            args,
            index + 1,
            Globals {
                socket: so_far.socket,
                json: so_far.json,
                rest: so_far.rest.push(args[index]),
            },
        )
    } else {
        Ok(
            Globals {
                socket: so_far.socket,
                json: so_far.json,
                rest: so_far.rest + args.skip(index),
            },
        )
    }
}

/// The global flags of an invocation.
pub open spec fn globals_of(args: Seq<String>) -> Result<Globals, Seq<char>> {
    globals_from(args, 0, Globals { socket: None, json: false, rest: Seq::empty() })
}

/// Whether a character is that lower-case letter, in either case.
pub open spec fn is_letter(c: char, lower: char) -> bool {
    c == lower || c as int == lower as int - 32
}

/// Whether a token names a socket: it has a slash, the extension `sock`, or names
/// an existing path.
pub open spec fn is_socket_token(token: Seq<char>, present: Seq<String>) -> bool {
    let n = token.len();
    ||| token.contains('/')
    ||| (n >= 6 && token[n - 5] == '.' && is_letter(token[n - 4], 's') && is_letter(
        token[n - 3],
        'o',
    ) && is_letter(token[n - 2], 'c') && is_letter(token[n - 1], 'k'))
    ||| lists(present, token)
}

fn is_raw_socket_token(token: &str, present: &Vec<String>) -> (r: bool)
    ensures
        r == is_socket_token(token@, present@),
{
    if holds_char(token, '/') || listed(present, token) {
        return true;
    }
    let chars = chars_of(token);
    let n = chars.len();
    n >= 6 && chars[n - 5] == '.' && (chars[n - 4] == 's' || chars[n - 4] == 'S') && (chars[n - 3]
        == 'o' || chars[n - 3] == 'O') && (chars[n - 2] == 'c' || chars[n - 2] == 'C') && (chars[n
        - 1] == 'k' || chars[n - 1] == 'K')
}

/// Whether help is asked for anywhere.
pub open spec fn asks_for_help(args: Seq<String>) -> bool {
    lists(args, "--help"@) || lists(args, "-h"@)
}

/// An invocation as its arguments mean it.
pub enum InvocationMeant {
    Plain(Invocation),
    Typed { socket: String, json: bool, command: Meant },
}

/// What the arguments after the program name mean.
pub open spec fn invocation_of(args: Seq<String>, surroundings: Surroundings) -> Result<
    InvocationMeant,
    Seq<char>,
> {
    let globals = globals_of(args);
    let rest = globals->Ok_0.rest;
    let command = command_of(rest, surroundings.own_pane);
    if args.len() == 0 {
        Ok(InvocationMeant::Plain(Invocation::Help))
    } else if args.len() == 1 && args[0]@ == "--skill"@ {
        Ok(InvocationMeant::Plain(Invocation::Skill))
    } else if args.len() == 1 && (args[0]@ == "--version"@ || args[0]@ == "-V"@) {
        Ok(InvocationMeant::Plain(Invocation::Version))
    } else if asks_for_help(args) {
        Ok(InvocationMeant::Plain(Invocation::Help))
    } else if let Err(e) = globals {
        Err(e)
    } else if rest.len() == 0 {
        Ok(InvocationMeant::Plain(Invocation::Help))
    } else if rest.len() == 1 && is_socket_token(rest[0]@, surroundings.present@) {
        Ok(InvocationMeant::Plain(Invocation::Raw { socket: rest[0] }))
    } else if let Err(e) = command {
        Err(e)
    } else {
        Ok(
            InvocationMeant::Typed {
                socket: match globals->Ok_0.socket {
                    Some(socket) => socket,
                    None => surroundings.default_socket,
                },
                json: globals->Ok_0.json,
                command: command->Ok_0,
            },
        )
    }
}

impl Invocation {
    /// Whether the invocation is the one that was meant.
    pub open spec fn is_meant(self, meant: InvocationMeant) -> bool {
        match meant {
            InvocationMeant::Plain(invocation) => self == invocation,
            InvocationMeant::Typed { socket: s, json: j, command: c } => {
                self matches Invocation::Typed { socket, json, command } && socket == s && json == j
                    && command.is_meant(c)
            },
        }
    }
}

/// Read the global flags.
fn read_globals(args: &[String]) -> (r: Result<(Option<String>, bool, Vec<String>), String>)
    ensures
        match (r, globals_of(args@)) {
            (Ok((socket, json, rest)), Ok(globals)) => socket == globals.socket && json
                == globals.json && rest@ == globals.rest,
            (Err(e), Err(t)) => e@ == t,
            _ => false,
        },
{
    let mut socket: Option<String> = None;
    let mut json = false;
    let mut rest: Vec<String> = Vec::new();
    let mut index: usize = 0;
    while index < args.len()
        invariant
            index <= args@.len(),
            globals_of(args@) == globals_from(
                args@,
                index as int,
                (Globals { socket, json, rest: rest@ }),
            ),
        decreases args@.len() - index,
    {
        let arg = args[index].as_str();
        if same(arg, "--socket") {
            if socket.is_some() {
                return Err("--socket specified more than once".to_owned());
            }
            if index + 1 >= args.len() || starts_with(args[index + 1].as_str(), '-') {
                return Err("--socket needs a value".to_owned());
            }
            socket = Some(args[index + 1].clone());
            index = index + 2;
        } else if same(arg, "--json") {
            if json {
                return Err("--json specified more than once".to_owned());
            }
            json = true;
            index = index + 1;
        } else if starts_with(arg, '-') {
            rest.push(args[index].clone());
            index = index + 1;
        } else {
            let ghost before = rest@;
            let from = index;
            while index < args.len()
                invariant
                    from <= index <= args@.len(),
                    rest@ == before + args@.subrange(from as int, index as int),
                decreases args@.len() - index,
            {
                rest.push(args[index].clone());
                index = index + 1;
                assert(rest@ =~= before + args@.subrange(from as int, index as int));
            }
            assert(args@.subrange(from as int, index as int) =~= args@.skip(from as int));
            return Ok((socket, json, rest));
        }
    }
    Ok((socket, json, rest))
}

/// Whether one of the arguments is that text.
fn any_is(args: &[String], text: &str) -> (r: bool)
    ensures
        r == lists(args@, text@),
{
    let mut i: usize = 0;
    while i < args.len()
        invariant
            i <= args@.len(),
            forall|j: int| 0 <= j < i ==> #[trigger] args@[j]@ != text@,
        decreases args@.len() - i,
    {
        if same(args[i].as_str(), text) {
            return true;
        }
        i = i + 1;
    }
    false
}

/// Parse `argv` after the program name, with what is known of the machine.
///
/// The error is a usage string: flags conflict or a required value is missing.
pub fn parse_invocation(args: &[String], surroundings: &Surroundings) -> (r: Result<
    Invocation,
    String,
>)
    ensures
        match (r, invocation_of(args@, *surroundings)) {
            (Ok(invocation), Ok(meant)) => invocation.is_meant(meant),
            (Err(e), Err(t)) => e@ == t,
            _ => false,
        },
{
    if args.len() == 0 {
        return Ok(Invocation::Help);
    }
    if args.len() == 1 {
        let only = args[0].as_str();
        if same(only, "--skill") {
            return Ok(Invocation::Skill);
        }
        if same(only, "--version") || same(only, "-V") {
            return Ok(Invocation::Version);
        }
    }
    if any_is(args, "--help") || any_is(args, "-h") {
        return Ok(Invocation::Help);
    }
    let (socket, json, rest) = match read_globals(args) {
        Ok(globals) => globals,
        Err(e) => {
            return Err(e);
        },
    };
    if rest.len() == 0 {
        return Ok(Invocation::Help);
    }
    if rest.len() == 1 && is_raw_socket_token(rest[0].as_str(), &surroundings.present) {
        return Ok(Invocation::Raw { socket: rest[0].clone() });
    }
    let command = match parse_command(rest.as_slice(), &surroundings.own_pane) {
        Ok(v) => v,
        Err(e) => {
            return Err(e);
        },
    };
    let socket = match socket {
        Some(socket) => socket,
        None => surroundings.default_socket.clone(),
    };
    Ok(Invocation::Typed { socket, json, command })
}

/// The caller that the pane environment names.
pub open spec fn pane_caller(own_pane: Option<String>) -> Option<Caller> {
    match own_pane {
        Some(pane) => if pane@.len() > 0 {
            Some(Caller::Pane(pane))
        } else {
            None
        },
        None => None,
    }
}

/// Default caller from the value of the Herdr pane environment.
pub fn env_caller(own_pane: &Option<String>) -> (caller: Option<Caller>)
    ensures
        caller == pane_caller(*own_pane),
{
    match own_pane {
        Some(pane) if !pane.as_str().is_empty() => Some(Caller::Pane(pane.clone())),
        _ => None,
    }
}

/// A name under a directory.
pub open spec fn under(directory: Seq<char>, name: Seq<char>) -> Seq<char> {
    if directory.len() == 0 || directory.last() == '/' {
        directory + name
    } else {
        directory + "/"@ + name
    }
}

/// A name under a directory.
pub fn path_under(directory: &str, name: &str) -> (path: String)
    ensures
        path@ == under(directory@, name@),
{
    let chars = chars_of(directory);
    if chars.len() == 0 || chars[chars.len() - 1] == '/' {
        directory.to_owned().concat(name)
    } else {
        directory.to_owned().concat("/").concat(name)
    }
}

/// Default live socket under the runtime directory.
pub fn default_socket(runtime_directory: &str) -> (socket: String)
    ensures
        socket@ == under(runtime_directory@, "kelpie/kelpie.sock"@),
{
    path_under(runtime_directory, "kelpie/kelpie.sock")
}

/// Generate a unique request or idempotency identifier: the text of a fresh
/// time-ordered UUID.
pub fn generated_id() -> (id: String)
    ensures
        exists|n: u128| is_time_ordered(n) && id@ == #[trigger] uuid_text(n as nat),
{
    fresh_id_text()
}

/// How many lines a text has: a line ends at a newline, and an unfinished one
/// counts too.
pub open spec fn line_count(s: Seq<char>) -> nat
    decreases s.len(),
{
    if s.len() == 0 {
        0
    } else if s.len() == 1 || s[s.len() - 2] == '\n' {
        line_count(s.drop_last()) + 1
    } else {
        line_count(s.drop_last())
    }
}

/// Whether a text is exactly one line that is not blank.
pub open spec fn is_one_request(s: Seq<char>) -> bool {
    line_count(s) == 1 && !is_blank(s)
}

/// Accept what stdin held for the legacy raw client: exactly one JSON request
/// line.
pub fn read_raw_request(request: String) -> (r: Result<String, String>)
    ensures
        match r {
            Ok(text) => is_one_request(request@) && text@ == request@,
            Err(e) => !is_one_request(request@) && e@
                == "stdin must contain exactly one JSON request"@,
        },
{
    let chars = chars_of(request.as_str());
    let mut lines: usize = 0;
    let mut i: usize = 0;
    assert(chars@.take(0) =~= Seq::<char>::empty());
    while i < chars.len()
        invariant
            i <= chars@.len(),
            lines <= i,
            lines == line_count(chars@.take(i as int)),
        decreases chars@.len() - i,
    {
        if i == 0 || chars[i - 1] == '\n' {
            lines = lines + 1;
        }
        proof {
            let next = chars@.take(i as int + 1);
            assert(next.drop_last() =~= chars@.take(i as int));
            if i > 0 {
                assert(next[next.len() - 2] == chars@[i - 1]);
            }
        }
        i = i + 1;
    }
    assert(chars@.take(i as int) =~= chars@);
    if lines != 1 || blank(request.as_str()) {
        return Err("stdin must contain exactly one JSON request".to_owned());
    }
    Ok(request)
}

/// What a body is: a literal as it stands, or what was read from its source.
pub open spec fn body_text(source: BodySource, read: Result<String, String>) -> Result<
    Seq<char>,
    Seq<char>,
> {
    match source {
        BodySource::Literal(text) => Ok(text@),
        _ => match read {
            Ok(text) => Ok(text@),
            Err(e) => Err(e@),
        },
    }
}

/// Where a body has to be read from before [`read_body`], if anywhere.
#[derive(Debug, Clone, PartialEq, Eq)]
pub enum BodyRead {
    Nothing,
    Stdin,
    File(String),
}

/// Where the body of a source has to be read from.
pub open spec fn read_of(source: BodySource) -> BodyRead {
    match source {
        BodySource::Stdin => BodyRead::Stdin,
        BodySource::File(path) => BodyRead::File(path),
        BodySource::Literal(_) => BodyRead::Nothing,
    }
}

/// Where the body of a source has to be read from.
pub fn body_read(source: &BodySource) -> (read: BodyRead)
    ensures
        read == read_of(*source),
{
    match source {
        BodySource::Stdin => BodyRead::Stdin,
        BodySource::File(path) => BodyRead::File(path.clone()),
        BodySource::Literal(_) => BodyRead::Nothing,
    }
}

/// The body of a source, given what was read where [`body_read`] said. Does not
/// interpret shell syntax.
pub fn read_body(source: &BodySource, read: Result<String, String>) -> (r: Result<String, String>)
    ensures
        match (r, body_text(*source, read)) {
            (Ok(text), Ok(meant)) => text@ == meant,
            (Err(e), Err(meant)) => e@ == meant,
            _ => false,
        },
{
    match source {
        BodySource::Literal(text) => Ok(text.clone()),
        _ => read,
    }
}

/// A request to the daemon.
pub open spec fn request_view(id: Seq<char>, method: Seq<char>, params: JsonView) -> JsonView {
    empty_object().with("id"@, text_view(id)).with("method"@, text_view(method)).with(
        "params"@,
        params,
    )
}

/// Build one daemon NDJSON request for a typed command after identities resolve.
pub fn typed_request(id: &str, method: &str, params: &Json) -> (request: Json)
    ensures
        request@ == request_view(id@, method@, params@),
{
    Json::object().with("id", Json::text(id)).with("method", Json::text(method)).with(
        "params",
        params.clone(),
    )
}

/// The params of a tell or an ask.
pub open spec fn message_view(
    sender: Seq<char>,
    alias: Option<Seq<char>>,
    exact: Option<(Seq<char>, Seq<char>)>,
    body: Seq<char>,
    key: Seq<char>,
    due_at_ms: Option<i64>,
) -> JsonView {
    let base = empty_object().with("sender"@, text_view(sender)).with(
        "body"@,
        text_view(body),
    ).with("idempotency_key"@, text_view(key));
    let addressed = match exact {
        Some((recipient, incarnation)) => base.with("recipient"@, text_view(recipient)).with(
            "recipient_incarnation"@,
            text_view(incarnation),
        ),
        None => match alias {
            Some(alias) => base.with("recipient_alias"@, text_view(alias)),
            None => base,
        },
    };
    match due_at_ms {
        Some(ms) => addressed.with("due_at_ms"@, int_view(ms as int)),
        None => addressed,
    }
}

/// Build tell/ask params after the caller and recipient are resolved.
pub fn message_params(
    sender: &str,
    recipient_alias: Option<&str>,
    exact: Option<&ExactRecipient>,
    body: &str,
    idempotency_key: &str,
    due_at_ms: Option<i64>,
) -> (params: Json)
    ensures
        params@ == message_view(
            sender@,
            match recipient_alias {
                Some(alias) => Some(alias@),
                None => None,
            },
            match exact {
                Some(exact) => Some((exact.recipient@, exact.incarnation@)),
                None => None,
            },
            body@,
            idempotency_key@,
            due_at_ms,
        ),
{
    let mut params = Json::object().with("sender", Json::text(sender)).with(
        "body",
        Json::text(body),
    ).with("idempotency_key", Json::text(idempotency_key));
    if let Some(exact) = exact {
        params.put("recipient", Json::text(exact.recipient.as_str()));
        params.put("recipient_incarnation", Json::text(exact.incarnation.as_str()));
    } else if let Some(alias) = recipient_alias {
        params.put("recipient_alias", Json::text(alias));
    }
    if let Some(ms) = due_at_ms {
        params.put("due_at_ms", Json::integer(ms));
    }
    params
}

/// The params that name a caller.
pub open spec fn whoami_view(caller: Caller) -> JsonView {
    match caller {
        Caller::Alias(alias) => empty_object().with("alias"@, text_view(alias@)),
        Caller::Pane(pane) => empty_object().with("pane_id"@, text_view(pane@)),
        Caller::Id(_) => empty_object(),
    }
}

/// Build a whoami params object.
pub fn whoami_params(caller: &Caller) -> (params: Json)
    ensures
        params@ == whoami_view(*caller),
{
    match caller {
        Caller::Alias(alias) => Json::object().with("alias", Json::text(alias.as_str())),
        Caller::Pane(pane) => Json::object().with("pane_id", Json::text(pane.as_str())),
        Caller::Id(_) => Json::object(),
    }
}

/// The params that name one identity.
pub open spec fn attribution_view(target: AttributionTarget) -> JsonView {
    match target {
        AttributionTarget::Incarnation(id) => empty_object().with(
            "incarnation_id"@,
            text_view(id@),
        ),
        AttributionTarget::Agent(id) => empty_object().with("agent_id"@, text_view(id@)),
        AttributionTarget::Alias(alias) => empty_object().with("alias"@, text_view(alias@)),
        AttributionTarget::Pane(pane) => empty_object().with("pane_id"@, text_view(pane@)),
    }
}

/// Build an attribution params object naming exactly one identity.
pub fn attribution_params(target: &AttributionTarget) -> (params: Json)
    ensures
        params@ == attribution_view(*target),
{
    match target {
        AttributionTarget::Incarnation(id) => Json::object().with(
            "incarnation_id",
            Json::text(id.as_str()),
        ),
        AttributionTarget::Agent(id) => Json::object().with("agent_id", Json::text(id.as_str())),
        AttributionTarget::Alias(alias) => Json::object().with("alias", Json::text(alias.as_str())),
        AttributionTarget::Pane(pane) => Json::object().with("pane_id", Json::text(pane.as_str())),
    }
}

/// Usage text for `--help`.
pub fn usage() -> (text: &'static str)
    ensures
        text@ == USAGE@,
{
    USAGE
}

} // verus!
