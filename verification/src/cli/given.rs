//! What a command takes from its command line: each part of it is what the tokens say.

use vstd::prelude::*;

use super::time::{duration_of, utc_of};
use super::tokens::{
    lemma_all_values, lemma_fresh, lemma_positional, lemma_switch, lemma_value, says_positional,
    says_value, says_values, stands, stands_behind, Parse, Scan,
};
use super::{
    adopt_of, ask_info_of, attribution_of, behind_name, body_of, caller_of, cancel_of, clear_of,
    due_of, initial_kind_of, keep_open_of, message_of, name_info_of, named_body_of, noted_body_of,
    notice_of, parent_of, pending_of, reminder_disable_of, reminder_snooze_of, rename_of,
    renew_cancel_of, renew_of, reply_of, report_of, retire_of, start_of, target_of, timeout_of,
    waiter_register_of, waiter_retire_of, whoami_of, AttributionTarget, BodySource, Caller, Command,
    Due, ExactRecipient, Recipient, StartParent, DEFAULT_PREPARE_TIMEOUT_MS,
};
use crate::text::{begins, i64_of, u64_of};

verus! {

/// Whether a body comes from where the tokens say.
pub open spec fn says_body(tokens: Seq<String>, body: BodySource) -> bool {
    match body {
        BodySource::Stdin => stands(tokens, "--stdin"@),
        BodySource::File(path) => stands_behind(tokens, "--file"@, path),
        BodySource::Literal(text) => stands_behind(tokens, "--body"@, text),
    }
}

/// Whether a caller is the one that the tokens name.
pub open spec fn says_caller(tokens: Seq<String>, caller: Option<Caller>) -> bool {
    match caller {
        Some(Caller::Alias(alias)) => stands_behind(tokens, "--sender"@, alias),
        Some(Caller::Id(id)) => stands_behind(tokens, "--sender-id"@, id),
        Some(Caller::Pane(pane)) => stands_behind(tokens, "--pane"@, pane),
        None => true,
    }
}

/// Whether a body comes from where the tokens say, behind a flag or in the file behind
/// another.
pub open spec fn says_named_body(
    tokens: Seq<String>,
    text_flag: Seq<char>,
    file_flag: Seq<char>,
    body: BodySource,
) -> bool {
    match body {
        BodySource::Stdin => false,
        BodySource::File(path) => stands_behind(tokens, file_flag, path),
        BodySource::Literal(text) => stands_behind(tokens, text_flag, text),
    }
}

/// Whether a recipient is the one that the tokens name.
pub open spec fn says_recipient(tokens: Seq<String>, recipient: Recipient) -> bool {
    match recipient {
        Recipient::Alias(name) => says_positional(tokens, name),
        Recipient::Exact(exact) => says_exact(tokens, exact),
    }
}

/// Whether exact IDs are the ones that the tokens name.
pub open spec fn says_exact(tokens: Seq<String>, exact: ExactRecipient) -> bool {
    stands_behind(tokens, "--recipient-id"@, exact.recipient) && stands_behind(
        tokens,
        "--recipient-incarnation"@,
        exact.incarnation,
    )
}

/// Whether a delivery time is the one that the tokens name: a moment as it stands there, or
/// a time from now on.
pub open spec fn says_due(tokens: Seq<String>, due: Option<Due>) -> bool {
    match due {
        Some(Due::AtMs(ms)) => (exists|text: String|
            #[trigger] stands_behind(tokens, "--due-at-ms"@, text) && i64_of(text@) == Some(ms)) || (
        exists|text: String|
            #[trigger] stands_behind(tokens, "--due-at"@, text) && utc_of(text@) == Ok::<
                i64,
                Seq<char>,
            >(ms)),
        Some(Due::InMs(ms)) => exists|text: String|
            #[trigger] stands_behind(tokens, "--due-in"@, text) && duration_of(
                "--due-in"@,
                text@,
            ) == Ok::<i64, Seq<char>>(ms),
        None => true,
    }
}

/// The caller flags name the caller, and leave every other flag where it is.
broadcast proof fn lemma_caller_of(scan: Scan)
    requires
        scan.wf(),
    ensures
        ({
            let (r, after) = #[trigger] caller_of(scan);
            &&& scan.goes_on(after)
            &&& r matches Ok(caller) ==> says_caller(scan.items, caller)
            &&& forall|other: Seq<char>|
                other != "--sender"@ && other != "--sender-id"@ && other != "--pane"@ && begins(
                    other,
                    '-',
                ) && scan.keeps(other) ==> #[trigger] after.keeps(other)
        }),
{
    broadcast use {lemma_value, lemma_switch};

}

/// The body flags name the body, and leave every other flag where it is.
broadcast proof fn lemma_body_of(scan: Scan, command: Seq<char>)
    requires
        scan.wf(),
    ensures
        ({
            let (r, after) = #[trigger] body_of(scan, command);
            &&& scan.goes_on(after)
            &&& r matches Ok(body) ==> says_body(scan.items, body)
            &&& forall|other: Seq<char>|
                other != "--stdin"@ && other != "--file"@ && other != "--body"@ && begins(
                    other,
                    '-',
                ) && scan.keeps(other) ==> #[trigger] after.keeps(other)
        }),
{
    broadcast use {lemma_value, lemma_switch};

}

/// A target is a name or one caller flag.
pub open spec fn says_target(tokens: Seq<String>, target: Option<Caller>) -> bool {
    says_caller(tokens, target) || (target matches Some(Caller::Alias(name)) && says_positional(
        tokens,
        name,
    ))
}

broadcast proof fn lemma_target_of(scan: Scan, command: Seq<char>)
    requires
        scan.wf(),
    ensures
        ({
            let (r, after) = #[trigger] target_of(scan, command);
            &&& scan.goes_on(after)
            &&& r matches Ok(target) ==> says_target(scan.items, target)
        }),
{
    broadcast use {lemma_caller_of, lemma_positional};

}

broadcast proof fn lemma_named_body_of(
    scan: Scan,
    verb: Seq<char>,
    text_flag: Seq<char>,
    file_flag: Seq<char>,
)
    requires
        scan.wf(),
    ensures
        ({
            let (r, after) = #[trigger] named_body_of(scan, verb, text_flag, file_flag);
            &&& scan.goes_on(after)
            &&& r matches Ok(body) ==> says_named_body(scan.items, text_flag, file_flag, body)
        }),
{
    broadcast use lemma_all_values;

}

broadcast proof fn lemma_due_of(scan: Scan, verb: Seq<char>)
    requires
        scan.wf(),
    ensures
        ({
            let (r, after) = #[trigger] due_of(scan, verb);
            &&& scan.goes_on(after)
            &&& r matches Ok(due) ==> says_due(scan.items, due)
            &&& r matches Ok(due) ==> (due is None ==> after == scan)
        }),
{
    broadcast use lemma_all_values;

    let (at_ms, s1) = scan.all_values("--due-at-ms"@);
    let (in_values, s2) = s1.all_values("--due-in"@);
    let (at_values, s3) = s2.all_values("--due-at"@);
    if at_ms is Ok && in_values is Ok && at_values is Ok {
        if at_ms->Ok_0.len() == 1 {
            assert(stands_behind(scan.items, "--due-at-ms"@, at_ms->Ok_0[0]));
        }
        if in_values->Ok_0.len() == 1 {
            assert(stands_behind(scan.items, "--due-in"@, in_values->Ok_0[0]));
        }
        if at_values->Ok_0.len() == 1 {
            assert(stands_behind(scan.items, "--due-at"@, at_values->Ok_0[0]));
        }
    }
}

/// A reply has the disposition of the flag that was given, and its parts come from the
/// tokens.
#[verifier::spinoff_prover]
pub proof fn law_reply_is_what_was_given(args: Seq<String>)
    requires
        args.len() > 0,
    ensures
        ({
            let tokens = args.skip(1);
            match reply_of(args) {
                Ok(Command::Reply { reply_to, requester, body, disposition, idempotency_key }) => {
                    &&& (stands(tokens, "--final"@) <==> disposition@ == "final"@)
                    &&& (stands(tokens, "--progress"@) <==> disposition@ == "progress"@)
                    &&& stands(tokens, "--final"@) != stands(tokens, "--progress"@)
                    &&& says_body(tokens, body)
                    &&& says_caller(tokens, requester)
                    &&& says_value(tokens, "--idempotency-key"@, idempotency_key)
                    &&& says_positional(tokens, reply_to)
                },
                Ok(_) => false,
                Err(_) => true,
            }
        }),
{
    broadcast use {
        lemma_fresh,
        lemma_switch,
        lemma_value,
        lemma_all_values,
        lemma_positional,
        lemma_caller_of,
        lemma_body_of,
        lemma_named_body_of,
        lemma_due_of,
        lemma_target_of,
    };

    reveal_strlit("--final");
    reveal_strlit("--progress");
    reveal_strlit("final");
    reveal_strlit("progress");
    reveal_strlit("--idempotency-key");
    reveal_strlit("--stdin");
    reveal_strlit("--file");
    reveal_strlit("--body");
    reveal_strlit("--sender");
    reveal_strlit("--sender-id");
    reveal_strlit("--pane");
    let s0 = behind_name(args);
    let (progress, s1) = s0.switch("--progress"@);
    assert(s1.keeps("--final"@) && s1.keeps("--idempotency-key"@));
    let (last, s2) = s1.switch("--final"@);
    assert(s2.keeps("--idempotency-key"@));
    let (_, s3) = body_of(s2, "reply"@);
    assert(s3.keeps("--idempotency-key"@));
    assert("final"@.len() == 5 && "progress"@.len() == 8);
    assert("final"@ != "progress"@);
}

/// A report is live, and is of the active agents alone, exactly where its flags say so.
#[verifier::spinoff_prover]
pub proof fn law_report_is_what_was_given(args: Seq<String>)
    requires
        args.len() > 0,
    ensures
        ({
            let tokens = args.skip(1);
            match report_of(args) {
                Ok(Command::Report { live, active }) => {
                    &&& live == stands(tokens, "--live"@)
                    &&& active == stands(tokens, "--active"@)
                },
                Ok(_) => false,
                Err(_) => true,
            }
        }),
{
    broadcast use {
        lemma_fresh,
        lemma_switch,
        lemma_value,
        lemma_all_values,
        lemma_positional,
        lemma_caller_of,
        lemma_body_of,
        lemma_named_body_of,
        lemma_due_of,
        lemma_target_of,
    };

    reveal_strlit("--live");
    reveal_strlit("--active");
    let s0 = behind_name(args);
    let (_, s1) = s0.switch("--live"@);
    assert(s1.keeps("--active"@));
}

/// A clear is of the recipient that the tokens name.
#[verifier::spinoff_prover]
pub proof fn law_clear_is_what_was_given(args: Seq<String>)
    requires
        args.len() > 0,
    ensures
        ({
            let tokens = args.skip(1);
            match clear_of(args) {
                Ok(Command::Clear { recipient, idempotency_key }) => {
                    &&& says_recipient(tokens, recipient)
                    &&& says_value(tokens, "--idempotency-key"@, idempotency_key)
                },
                Ok(_) => false,
                Err(_) => true,
            }
        }),
{
    broadcast use {
        lemma_fresh,
        lemma_switch,
        lemma_value,
        lemma_all_values,
        lemma_positional,
        lemma_caller_of,
        lemma_body_of,
        lemma_named_body_of,
        lemma_due_of,
        lemma_target_of,
    };

    reveal_strlit("--recipient-id");
    reveal_strlit("--recipient-incarnation");
    reveal_strlit("--idempotency-key");
    let s0 = behind_name(args);
    let (_, s1) = s0.value("--recipient-id"@);
    assert(s1.keeps("--idempotency-key"@));
    let (_, s2) = s1.value("--recipient-incarnation"@);
    assert(s2.keeps("--idempotency-key"@));
}

/// A cancellation names its ask and its reason as the tokens do.
#[verifier::spinoff_prover]
pub proof fn law_cancel_is_what_was_given(args: Seq<String>)
    requires
        args.len() > 0,
    ensures
        ({
            let tokens = args.skip(1);
            match cancel_of(args) {
                Ok(Command::Cancel { ask_id, reason, requester }) => {
                    &&& says_positional(tokens, ask_id)
                    &&& stands_behind(tokens, "--reason"@, reason)
                    &&& says_caller(tokens, requester)
                },
                Ok(_) => false,
                Err(_) => true,
            }
        }),
{
    broadcast use {
        lemma_fresh,
        lemma_switch,
        lemma_value,
        lemma_all_values,
        lemma_positional,
        lemma_caller_of,
        lemma_body_of,
        lemma_named_body_of,
        lemma_due_of,
        lemma_target_of,
    };

    reveal_strlit("--reason");
}

/// The end of a renew policy names it and the reason as the tokens do.
#[verifier::spinoff_prover]
pub proof fn law_renew_cancel_is_what_was_given(args: Seq<String>)
    requires
        args.len() > 0,
    ensures
        ({
            let tokens = args.skip(1);
            match renew_cancel_of(args) {
                Ok(Command::RenewCancel { renew_id, reason, requester }) => {
                    &&& says_positional(tokens, renew_id)
                    &&& stands_behind(tokens, "--reason"@, reason)
                    &&& says_caller(tokens, requester)
                },
                Ok(_) => false,
                Err(_) => true,
            }
        }),
{
    broadcast use {
        lemma_fresh,
        lemma_switch,
        lemma_value,
        lemma_all_values,
        lemma_positional,
        lemma_caller_of,
        lemma_body_of,
        lemma_named_body_of,
        lemma_due_of,
        lemma_target_of,
    };

    reveal_strlit("--reason");
}

/// A snooze lasts until the moment that the tokens name.
#[verifier::spinoff_prover]
pub proof fn law_snooze_is_what_was_given(args: Seq<String>)
    requires
        args.len() > 0,
    ensures
        ({
            let tokens = args.skip(1);
            match reminder_snooze_of(args) {
                Ok(Command::ReminderSnooze { ask_id, until_ms, requester }) => {
                    &&& says_positional(tokens, ask_id)
                    &&& (exists|text: String| #[trigger] stands_behind(tokens, "--until-ms"@, text) && i64_of(text@) == Some(until_ms))
                    &&& until_ms >= 0
                    &&& says_caller(tokens, requester)
                },
                Ok(_) => false,
                Err(_) => true,
            }
        }),
{
    broadcast use {
        lemma_fresh,
        lemma_switch,
        lemma_value,
        lemma_all_values,
        lemma_positional,
        lemma_caller_of,
        lemma_body_of,
        lemma_named_body_of,
        lemma_due_of,
        lemma_target_of,
    };

    reveal_strlit("--until-ms");
    let (_, s1) = caller_of(behind_name(args));
    let (until, _) = s1.value("--until-ms"@);
    if until is Ok && until->Ok_0 is Some {
        assert(stands_behind(args.skip(1), "--until-ms"@, until->Ok_0->0));
    }
}

/// Reminders end for the ask that the tokens name.
#[verifier::spinoff_prover]
pub proof fn law_disable_is_what_was_given(args: Seq<String>)
    requires
        args.len() > 0,
    ensures
        ({
            let tokens = args.skip(1);
            match reminder_disable_of(args) {
                Ok(Command::ReminderDisable { ask_id, requester }) => {
                    &&& says_positional(tokens, ask_id)
                    &&& says_caller(tokens, requester)
                },
                Ok(_) => false,
                Err(_) => true,
            }
        }),
{
    broadcast use {
        lemma_fresh,
        lemma_switch,
        lemma_value,
        lemma_all_values,
        lemma_positional,
        lemma_caller_of,
        lemma_body_of,
        lemma_named_body_of,
        lemma_due_of,
        lemma_target_of,
    };

}

/// What is pending is asked of the target that the tokens name.
#[verifier::spinoff_prover]
pub proof fn law_pending_is_what_was_given(args: Seq<String>)
    requires
        args.len() > 0,
    ensures
        ({
            let tokens = args.skip(1);
            match pending_of(args) {
                Ok(Command::Pending { target }) => {
                    &&& says_target(tokens, target)
                },
                Ok(_) => false,
                Err(_) => true,
            }
        }),
{
    broadcast use {
        lemma_fresh,
        lemma_switch,
        lemma_value,
        lemma_all_values,
        lemma_positional,
        lemma_caller_of,
        lemma_body_of,
        lemma_named_body_of,
        lemma_due_of,
        lemma_target_of,
    };

}

/// A whoami is of a name or of a pane, as the tokens name it, and never of an agent ID.
#[verifier::spinoff_prover]
pub proof fn law_whoami_is_what_was_given(args: Seq<String>)
    requires
        args.len() > 0,
    ensures
        ({
            let tokens = args.skip(1);
            match whoami_of(args) {
                Ok(Command::Whoami { target }) => {
                    &&& says_target(tokens, target)
                    &&& !stands(tokens, "--sender-id"@)
                    &&& !(target matches Some(Caller::Id(_)))
                },
                Ok(_) => false,
                Err(_) => true,
            }
        }),
{
    broadcast use {
        lemma_fresh,
        lemma_switch,
        lemma_value,
        lemma_all_values,
        lemma_positional,
        lemma_caller_of,
        lemma_body_of,
        lemma_named_body_of,
        lemma_due_of,
        lemma_target_of,
    };

    reveal_strlit("--sender-id");
    let s0 = behind_name(args);
    let (_, s1) = s0.value("--sender-id"@);
    assert(s1.items == args.skip(1));
}

/// An ask is looked up by the ID that the tokens name.
#[verifier::spinoff_prover]
pub proof fn law_ask_info_is_what_was_given(args: Seq<String>)
    requires
        args.len() > 0,
    ensures
        ({
            let tokens = args.skip(1);
            match ask_info_of(args) {
                Ok(Command::AskInfo { ask_id }) => {
                    &&& says_positional(tokens, ask_id)
                },
                Ok(_) => false,
                Err(_) => true,
            }
        }),
{
    broadcast use {
        lemma_fresh,
        lemma_switch,
        lemma_value,
        lemma_all_values,
        lemma_positional,
        lemma_caller_of,
        lemma_body_of,
        lemma_named_body_of,
        lemma_due_of,
        lemma_target_of,
    };

}

/// A name is looked up as the tokens name it.
#[verifier::spinoff_prover]
pub proof fn law_name_info_is_what_was_given(args: Seq<String>)
    requires
        args.len() > 0,
    ensures
        ({
            let tokens = args.skip(1);
            match name_info_of(args) {
                Ok(Command::NameInfo { name }) => {
                    &&& says_positional(tokens, name)
                },
                Ok(_) => false,
                Err(_) => true,
            }
        }),
{
    broadcast use {
        lemma_fresh,
        lemma_switch,
        lemma_value,
        lemma_all_values,
        lemma_positional,
        lemma_caller_of,
        lemma_body_of,
        lemma_named_body_of,
        lemma_due_of,
        lemma_target_of,
    };

}

/// The body of a notice comes from where the tokens say.
#[verifier::spinoff_prover]
pub proof fn law_notice_is_what_was_given(args: Seq<String>)
    requires
        args.len() > 0,
    ensures
        ({
            let tokens = args.skip(1);
            match notice_of(args) {
                Ok(Command::Notice { body }) => {
                    &&& says_body(tokens, body)
                },
                Ok(_) => false,
                Err(_) => true,
            }
        }),
{
    broadcast use {
        lemma_fresh,
        lemma_switch,
        lemma_value,
        lemma_all_values,
        lemma_positional,
        lemma_caller_of,
        lemma_body_of,
        lemma_named_body_of,
        lemma_due_of,
        lemma_target_of,
    };

}

/// A rename gives its target the name that the tokens give.
#[verifier::spinoff_prover]
pub proof fn law_rename_is_what_was_given(args: Seq<String>)
    requires
        args.len() > 0,
    ensures
        ({
            let tokens = args.skip(1);
            match rename_of(args) {
                Ok(Command::Rename { target, name }) => {
                    &&& says_target(tokens, target)
                    &&& stands_behind(tokens, "--name"@, name)
                },
                Ok(_) => false,
                Err(_) => true,
            }
        }),
{
    broadcast use {
        lemma_fresh,
        lemma_switch,
        lemma_value,
        lemma_all_values,
        lemma_positional,
        lemma_caller_of,
        lemma_body_of,
        lemma_named_body_of,
        lemma_due_of,
        lemma_target_of,
    };

}

/// A retirement is of the incarnation that the tokens name, and closes its pane exactly where
/// they say so.
#[verifier::spinoff_prover]
pub proof fn law_retire_is_what_was_given(args: Seq<String>)
    requires
        args.len() > 0,
    ensures
        ({
            let tokens = args.skip(1);
            match retire_of(args) {
                Ok(Command::Retire { incarnation_id, idempotency_key, close_pane }) => {
                    &&& stands_behind(tokens, "--incarnation"@, incarnation_id)
                    &&& says_value(tokens, "--idempotency-key"@, idempotency_key)
                    &&& close_pane == stands(tokens, "--close-pane"@)
                },
                Ok(_) => false,
                Err(_) => true,
            }
        }),
{
    broadcast use {
        lemma_fresh,
        lemma_switch,
        lemma_value,
        lemma_all_values,
        lemma_positional,
        lemma_caller_of,
        lemma_body_of,
        lemma_named_body_of,
        lemma_due_of,
        lemma_target_of,
    };

    reveal_strlit("--incarnation");
    reveal_strlit("--idempotency-key");
    reveal_strlit("--close-pane");
    let s0 = behind_name(args);
    let (_, s1) = s0.value("--incarnation"@);
    assert(s1.keeps("--idempotency-key"@) && s1.keeps("--close-pane"@));
    let (_, s2) = s1.value("--idempotency-key"@);
    assert(s2.keeps("--close-pane"@));
}

/// A socket waiter is retired by the ID that the tokens name.
#[verifier::spinoff_prover]
pub proof fn law_waiter_retire_is_what_was_given(args: Seq<String>)
    requires
        args.len() > 0,
    ensures
        ({
            let tokens = args.skip(1);
            match waiter_retire_of(args) {
                Ok(Command::WaiterRetire { logical_agent_id }) => {
                    &&& stands_behind(tokens, "--logical-id"@, logical_agent_id)
                },
                Ok(_) => false,
                Err(_) => true,
            }
        }),
{
    broadcast use {
        lemma_fresh,
        lemma_switch,
        lemma_value,
        lemma_all_values,
        lemma_positional,
        lemma_caller_of,
        lemma_body_of,
        lemma_named_body_of,
        lemma_due_of,
        lemma_target_of,
    };

}

/// An attribution is of the target that the tokens name, or of the own pane where they name
/// none.
#[verifier::spinoff_prover]
pub proof fn law_attribution_is_what_was_given(args: Seq<String>, own_pane: Option<String>)
    requires
        args.len() > 0,
    ensures
        ({
            let tokens = args.skip(1);
            match attribution_of(args, own_pane) {
                Ok(Command::Attribution { target, refresh }) => {
                    &&& refresh == stands(tokens, "--refresh"@)
                    &&& match target {
                        AttributionTarget::Incarnation(id) => stands_behind(
                            tokens,
                            "--incarnation-id"@,
                            id,
                        ),
                        AttributionTarget::Agent(id) => stands_behind(tokens, "--agent-id"@, id),
                        AttributionTarget::Alias(name) => says_positional(tokens, name),
                        AttributionTarget::Pane(pane) => stands_behind(tokens, "--pane"@, pane) || (
                        !stands(tokens, "--pane"@) && own_pane == Some(pane)),
                    }
                },
                Ok(_) => false,
                Err(_) => true,
            }
        }),
{
    broadcast use {
        lemma_fresh,
        lemma_switch,
        lemma_value,
        lemma_all_values,
        lemma_positional,
        lemma_caller_of,
        lemma_body_of,
        lemma_named_body_of,
        lemma_due_of,
        lemma_target_of,
    };

    reveal_strlit("--incarnation-id");
    reveal_strlit("--agent-id");
    reveal_strlit("--pane");
    reveal_strlit("--refresh");
    let s0 = behind_name(args);
    let (_, s1) = s0.value("--incarnation-id"@);
    assert(s1.keeps("--pane"@) && s1.keeps("--refresh"@));
    let (_, s2) = s1.value("--agent-id"@);
    assert(s2.keeps("--pane"@) && s2.keeps("--refresh"@));
    let (_, s3) = s2.value("--pane"@);
    assert(s3.keeps("--refresh"@));
}

/// A tell or an ask is what its name says, goes to the recipient that the tokens name, and
/// says what they say.
#[verifier::spinoff_prover]
#[verifier::rlimit(40)]
pub proof fn law_message_is_what_was_given(args: Seq<String>)
    requires
        args.len() > 0,
        args[0]@ == "tell"@ || args[0]@ == "ask"@,
    ensures
        ({
            let tokens = args.skip(1);
            match message_of(args) {
                Ok(Command::Tell { recipient, body, sender, idempotency_key, due }) => {
                    &&& args[0]@ == "tell"@
                    &&& says_recipient(tokens, recipient)
                    &&& says_body(tokens, body)
                    &&& says_caller(tokens, sender)
                    &&& says_value(tokens, "--idempotency-key"@, idempotency_key)
                    &&& says_due(tokens, due)
                },
                Ok(
                    Command::Ask {
                        recipient,
                        body,
                        sender,
                        idempotency_key,
                        due,
                        remind_after_ms,
                        no_remind,
                        from_operator,
                    },
                ) => {
                    &&& args[0]@ == "ask"@
                    &&& says_recipient(tokens, recipient)
                    &&& says_body(tokens, body)
                    &&& says_caller(tokens, sender)
                    &&& says_value(tokens, "--idempotency-key"@, idempotency_key)
                    &&& due is None
                    &&& match remind_after_ms {
                        Some(ms) => ms > 0 && !no_remind && exists|text: String|
                            #[trigger] stands_behind(tokens, "--remind-after-ms"@, text) && i64_of(
                                text@,
                            ) == Some(ms),
                        None => !stands(tokens, "--remind-after-ms"@),
                    }
                    &&& no_remind ==> stands(tokens, "--no-remind"@)
                    &&& from_operator ==> exists|text: String|
                        #[trigger] stands_behind(tokens, "--from"@, text) && text@ == "operator"@
                },
                Ok(_) => false,
                Err(_) => true,
            }
        }),
{
    broadcast use {
        lemma_fresh,
        lemma_switch,
        lemma_value,
        lemma_all_values,
        lemma_positional,
        lemma_caller_of,
        lemma_body_of,
        lemma_named_body_of,
        lemma_due_of,
        lemma_target_of,
    };

    reveal_strlit("tell");
    reveal_strlit("ask");
    reveal_strlit("--recipient-id");
    reveal_strlit("--recipient-incarnation");
    reveal_strlit("--idempotency-key");
    reveal_strlit("--remind-after-ms");
    reveal_strlit("--stdin");
    reveal_strlit("--file");
    reveal_strlit("--body");
    reveal_strlit("--sender");
    reveal_strlit("--sender-id");
    reveal_strlit("--pane");
    let s0 = behind_name(args);
    let (_, s1) = s0.value("--recipient-id"@);
    assert(s1.keeps("--idempotency-key"@) && s1.keeps("--remind-after-ms"@));
    let (_, s2) = s1.value("--recipient-incarnation"@);
    assert(s2.keeps("--idempotency-key"@) && s2.keeps("--remind-after-ms"@));
    let (_, s3) = caller_of(s2);
    assert(s3.keeps("--idempotency-key"@) && s3.keeps("--remind-after-ms"@));
    let (_, s4) = body_of(s3, args[0]@);
    assert(s4.keeps("--idempotency-key"@) && s4.keeps("--remind-after-ms"@));
    let (_, s5) = s4.value("--idempotency-key"@);
    assert("--idempotency-key"@[2] == 'i' && "--remind-after-ms"@[2] == 'r');
    assert(s5.keeps("--remind-after-ms"@));
    let (due, s6) = due_of(s5, args[0]@);
    let (reminders, s7) = s6.all_values("--remind-after-ms"@);
    if reminders is Ok && reminders->Ok_0.len() > 0 {
        assert(stands_behind(args.skip(1), "--remind-after-ms"@, reminders->Ok_0[0]));
    }
    assert("tell"@.len() == 4 && "ask"@.len() == 3);
}

/// A renew takes its two prompts, its timeout and its schedule from the flags that name
/// them.
#[verifier::spinoff_prover]
#[verifier::rlimit(60)]
pub proof fn law_renew_is_what_was_given(args: Seq<String>)
    requires
        args.len() > 0,
    ensures
        ({
            let tokens = args.skip(1);
            match renew_of(args) {
                Ok(Command::Renew(renew)) => {
                    &&& renew.recipient matches Some(exact) ==> says_exact(tokens, exact)
                    &&& says_caller(tokens, renew.requester)
                    &&& says_named_body(
                        tokens,
                        "--prepare-prompt"@,
                        "--prepare-prompt-file"@,
                        renew.prepare_prompt,
                    )
                    &&& says_named_body(tokens, "--prompt"@, "--prompt-file"@, renew.prompt)
                    &&& exists|text: String|
                        #[trigger] stands_behind(tokens, "--on-timeout"@, text) && text@
                            == renew.on_timeout@
                    &&& renew.on_timeout@ == "abort"@ || renew.on_timeout@ == "proceed"@
                    &&& renew.prepare_timeout_ms == DEFAULT_PREPARE_TIMEOUT_MS || (exists|
                        text: String,
                    |
                        #[trigger] stands_behind(tokens, "--prepare-timeout"@, text) && duration_of(
                            "--prepare-timeout"@,
                            text@,
                        ) == Ok::<i64, Seq<char>>(renew.prepare_timeout_ms)) || (exists|
                        text: String,
                    |
                        #[trigger] stands_behind(tokens, "--prepare-timeout-ms"@, text) && i64_of(
                            text@,
                        ) == Some(renew.prepare_timeout_ms))
                    &&& renew.every_ms matches Some(ms) ==> renew.due is None && exists|
                        text: String,
                    |
                        #[trigger] stands_behind(tokens, "--every"@, text) && duration_of(
                            "--every"@,
                            text@,
                        ) == Ok::<i64, Seq<char>>(ms)
                    &&& says_due(tokens, renew.due)
                    &&& renew.idempotency_key matches Some(key) ==> stands_behind(
                        tokens,
                        "--idempotency-key"@,
                        key,
                    )
                },
                Ok(_) => false,
                Err(_) => true,
            }
        }),
{
    broadcast use {
        lemma_fresh,
        lemma_switch,
        lemma_value,
        lemma_all_values,
        lemma_positional,
        lemma_caller_of,
        lemma_body_of,
        lemma_named_body_of,
        lemma_due_of,
        lemma_target_of,
    };

    let tokens = args.skip(1);
    let s0 = behind_name(args);
    let (_, s1) = s0.value("--recipient-id"@);
    let (_, s2) = s1.value("--recipient-incarnation"@);
    let (_, s3) = caller_of(s2);
    let (_, s4) = named_body_of(s3, "renew"@, "--prepare-prompt"@, "--prepare-prompt-file"@);
    let (_, s5) = named_body_of(s4, "renew"@, "--prompt"@, "--prompt-file"@);
    let (_, s6) = s5.value("--idempotency-key"@);
    let (timeout, s7) = s6.value("--on-timeout"@);
    let (timeouts, s8) = s7.all_values("--prepare-timeout"@);
    let (timeouts_ms, s9) = s8.all_values("--prepare-timeout-ms"@);
    let (everys, s10) = s9.all_values("--every"@);
    assert(s10.items == tokens);
    if timeout is Ok && timeout->Ok_0 is Some {
        assert(stands_behind(tokens, "--on-timeout"@, timeout->Ok_0->0));
    }
    if timeouts is Ok && timeouts->Ok_0.len() == 1 {
        assert(stands_behind(tokens, "--prepare-timeout"@, timeouts->Ok_0[0]));
    }
    if timeouts_ms is Ok && timeouts_ms->Ok_0.len() == 1 {
        assert(stands_behind(tokens, "--prepare-timeout-ms"@, timeouts_ms->Ok_0[0]));
    }
    if everys is Ok && everys->Ok_0.len() == 1 {
        assert(stands_behind(tokens, "--every"@, everys->Ok_0[0]));
    }
}

/// A parse that goes on without a problem had none before.
pub open spec fn is_quiet(parse: Parse, after: Parse) -> bool {
    parse.scan.goes_on(after.scan) && (after.found.len() == 0 ==> parse.found.len() == 0)
}

broadcast proof fn lemma_parse_value(parse: Parse, flag: Seq<char>)
    requires
        parse.scan.wf(),
    ensures
        ({
            let (value, after) = #[trigger] parse.value(flag);
            &&& is_quiet(parse, after)
            &&& value matches Some(value) ==> stands_behind(parse.scan.items, flag, value)
            &&& after.found.len() == 0 && value is None && parse.scan.keeps(flag) ==> !stands(
                parse.scan.items,
                flag,
            )
            &&& forall|other: Seq<char>|
                other != flag && begins(other, '-') && parse.scan.keeps(other)
                    ==> #[trigger] after.scan.keeps(other)
        }),
{
    broadcast use lemma_value;

}

broadcast proof fn lemma_parse_required(parse: Parse, flag: Seq<char>)
    requires
        parse.scan.wf(),
    ensures
        ({
            let (value, after) = #[trigger] parse.required(flag);
            &&& is_quiet(parse, after)
            &&& value matches Some(value) ==> stands_behind(parse.scan.items, flag, value)
            &&& after.found.len() == 0 ==> value is Some
            &&& forall|other: Seq<char>|
                other != flag && begins(other, '-') && parse.scan.keeps(other)
                    ==> #[trigger] after.scan.keeps(other)
        }),
{
    broadcast use lemma_value;

}

broadcast proof fn lemma_parse_switch(parse: Parse, flag: Seq<char>)
    requires
        parse.scan.wf(),
    ensures
        ({
            let (on, after) = #[trigger] parse.switch(flag);
            &&& is_quiet(parse, after)
            &&& on ==> stands(parse.scan.items, flag)
            &&& after.found.len() == 0 && !on && parse.scan.keeps(flag) ==> !stands(
                parse.scan.items,
                flag,
            )
            &&& forall|other: Seq<char>|
                other != flag && parse.scan.keeps(other) ==> #[trigger] after.scan.keeps(other)
        }),
{
    broadcast use lemma_switch;

}

broadcast proof fn lemma_parse_all_values(parse: Parse, flag: Seq<char>)
    requires
        parse.scan.wf(),
    ensures
        ({
            let (values, after) = #[trigger] parse.all_values(flag);
            &&& is_quiet(parse, after)
            &&& says_values(parse.scan.items, flag, values)
            &&& after.found.len() == 0 && values.len() == 0 && parse.scan.keeps(flag) ==> !stands(
                parse.scan.items,
                flag,
            )
        }),
{
    broadcast use lemma_all_values;

}

/// Whether a parent is the one that the tokens name.
pub open spec fn says_parent(tokens: Seq<String>, parent: StartParent) -> bool {
    match parent {
        StartParent::Parentless => stands(tokens, "--parentless"@),
        StartParent::Agent(id) => stands_behind(tokens, "--parent-id"@, id),
    }
}

broadcast proof fn lemma_parent_of(parse: Parse, command: Seq<char>)
    requires
        parse.scan.wf(),
    ensures
        ({
            let (parent, after) = #[trigger] parent_of(parse, command);
            &&& is_quiet(parse, after)
            &&& after.found.len() == 0 ==> (parent matches Some(parent) && says_parent(
                parse.scan.items,
                parent,
            ))
            &&& forall|other: Seq<char>|
                other != "--parentless"@ && other != "--parent-id"@ && begins(other, '-')
                    && parse.scan.keeps(other) ==> #[trigger] after.scan.keeps(other)
        }),
{
    broadcast use {lemma_parse_switch, lemma_parse_value};

}

broadcast proof fn lemma_timeout_of(parse: Parse)
    requires
        parse.scan.wf(),
    ensures
        ({
            let (timeout, after) = #[trigger] timeout_of(parse);
            &&& is_quiet(parse, after)
            &&& after.found.len() == 0 ==> (timeout matches Some(ms) && exists|text: String|
                #[trigger] stands_behind(parse.scan.items, "--timeout-ms"@, text) && u64_of(text@)
                    == Some(ms))
            &&& forall|other: Seq<char>|
                other != "--timeout-ms"@ && begins(other, '-') && parse.scan.keeps(other)
                    ==> #[trigger] after.scan.keeps(other)
        }),
{
    broadcast use lemma_parse_required;

    let (text, p1) = parse.required("--timeout-ms"@);
    if text is Some {
        assert(stands_behind(parse.scan.items, "--timeout-ms"@, text->0));
    }
}

broadcast proof fn lemma_keep_open_of(parse: Parse, command: Seq<char>)
    requires
        parse.scan.wf(),
    ensures
        ({
            let (keep, after) = #[trigger] keep_open_of(parse, command);
            &&& is_quiet(parse, after)
            &&& after.found.len() == 0 && keep ==> stands(parse.scan.items, "--keep-open"@)
            &&& after.found.len() == 0 && !keep ==> stands(parse.scan.items, "--no-keep-open"@)
            &&& forall|other: Seq<char>|
                other != "--keep-open"@ && other != "--no-keep-open"@ && parse.scan.keeps(other)
                    ==> #[trigger] after.scan.keeps(other)
        }),
{
    broadcast use lemma_parse_switch;

}

broadcast proof fn lemma_initial_kind_of(parse: Parse, command: Seq<char>)
    requires
        parse.scan.wf(),
    ensures
        ({
            let (kind, after) = #[trigger] initial_kind_of(parse, command);
            &&& is_quiet(parse, after)
            &&& after.found.len() == 0 ==> (kind@ == "ask"@ && stands(parse.scan.items, "--ask"@))
                || (kind@ == "tell"@ && stands(parse.scan.items, "--tell"@))
            &&& after.found.len() == 0 && parse.scan.keeps("--ask"@) && parse.scan.keeps("--tell"@)
                ==> !(stands(parse.scan.items, "--ask"@) && stands(parse.scan.items, "--tell"@))
            &&& forall|other: Seq<char>|
                other != "--ask"@ && other != "--tell"@ && parse.scan.keeps(other)
                    ==> #[trigger] after.scan.keeps(other)
        }),
{
    broadcast use lemma_parse_switch;

    reveal_strlit("--ask");
    reveal_strlit("--tell");
    assert("--ask"@.len() == 5 && "--tell"@.len() == 6);
    let (tell, p1) = parse.switch("--tell"@);
    assert(parse.scan.keeps("--ask"@) ==> p1.scan.keeps("--ask"@));
}

broadcast proof fn lemma_noted_body_of(parse: Parse, command: Seq<char>)
    requires
        parse.scan.wf(),
    ensures
        ({
            let (body, after) = #[trigger] noted_body_of(parse, command);
            &&& is_quiet(parse, after)
            &&& after.found.len() == 0 ==> (body matches Some(body) && says_body(
                parse.scan.items,
                body,
            ))
            &&& forall|other: Seq<char>|
                other != "--stdin"@ && other != "--file"@ && other != "--body"@ && begins(
                    other,
                    '-',
                ) && parse.scan.keeps(other) ==> #[trigger] after.scan.keeps(other)
        }),
{
    broadcast use lemma_body_of;

}

/// A start or a handoff is what the tokens say: the pane, the backend, the lineage, and an
/// initial message of the kind whose flag was given.
#[verifier::spinoff_prover]
#[verifier::rlimit(100)]
pub proof fn law_start_is_what_was_given(args: Seq<String>, handoff: bool)
    requires
        args.len() > 0,
    ensures
        ({
            let tokens = args.skip(1);
            start_of(args, handoff) matches Ok(start) ==> {
                &&& stands_behind(tokens, "--name"@, start.public_name)
                &&& stands_behind(tokens, "--pane"@, start.pane_id)
                &&& stands_behind(tokens, "--terminal"@, start.terminal_id)
                &&& stands_behind(tokens, "--backend"@, start.backend_kind)
                &&& stands_behind(tokens, "--cwd"@, start.working_directory)
                &&& exists|text: String|
                    #[trigger] stands_behind(tokens, "--timeout-ms"@, text) && u64_of(text@) == Some(
                        start.readiness_timeout_ms,
                    )
                &&& start.keep_open ==> stands(tokens, "--keep-open"@)
                &&& !start.keep_open ==> stands(tokens, "--no-keep-open"@)
                &&& says_parent(tokens, start.parent)
                &&& (start.initial_kind@ == "ask"@ && stands(tokens, "--ask"@)) || (
                start.initial_kind@ == "tell"@ && stands(tokens, "--tell"@))
                &&& start.initial_sender matches Some(sender) ==> stands_behind(
                    tokens,
                    "--sender-id"@,
                    sender,
                )
                &&& says_body(tokens, start.body)
                &&& says_values(tokens, "--arg"@, start.backend_args)
                &&& start.logical_agent_id matches Some(id) ==> stands_behind(
                    tokens,
                    "--logical-id"@,
                    id,
                )
                &&& start.session matches Some(name) ==> stands_behind(tokens, "--session"@, name)
                &&& start.requested_model matches Some(name) ==> stands_behind(
                    tokens,
                    "--requested-model"@,
                    name,
                )
                &&& start.requested_provider matches Some(name) ==> stands_behind(
                    tokens,
                    "--requested-provider"@,
                    name,
                )
                &&& start.requested_effort matches Some(name) ==> stands_behind(
                    tokens,
                    "--requested-effort"@,
                    name,
                )
                &&& start.idempotency_key matches Some(key) ==> stands_behind(
                    tokens,
                    "--idempotency-key"@,
                    key,
                )
                &&& match start.supersedes {
                    Some(replaced) => handoff && stands_behind(tokens, "--replace"@, replaced),
                    None => !handoff && !stands(tokens, "--replace"@),
                }
            }
        }),
{
    broadcast use {
        lemma_fresh,
        lemma_parse_value,
        lemma_parse_required,
        lemma_parse_switch,
        lemma_parse_all_values,
        lemma_parent_of,
        lemma_timeout_of,
        lemma_keep_open_of,
        lemma_initial_kind_of,
        lemma_noted_body_of,
    };

}

/// A start asks exactly where `--ask` was given, and tells exactly where `--tell` was.
#[verifier::spinoff_prover]
#[verifier::rlimit(100)]
pub proof fn law_start_asks_where_it_was_told_to(args: Seq<String>, handoff: bool)
    requires
        args.len() > 0,
    ensures
        start_of(args, handoff) matches Ok(start) ==> (start.initial_kind@ == "ask"@ <==> stands(
            args.skip(1),
            "--ask"@,
        )) && (start.initial_kind@ == "tell"@ <==> stands(args.skip(1), "--tell"@)),
{
    broadcast use {
        lemma_fresh,
        lemma_parse_value,
        lemma_parse_required,
        lemma_parse_switch,
        lemma_parse_all_values,
        lemma_parent_of,
        lemma_timeout_of,
        lemma_keep_open_of,
        lemma_initial_kind_of,
        lemma_noted_body_of,
    };

    reveal_strlit("ask");
    reveal_strlit("tell");
    reveal_strlit("--ask");
    reveal_strlit("--tell");
    reveal_strlit("--replace");
    reveal_strlit("--name");
    reveal_strlit("--pane");
    reveal_strlit("--terminal");
    reveal_strlit("--backend");
    reveal_strlit("--cwd");
    reveal_strlit("--timeout-ms");
    reveal_strlit("--keep-open");
    reveal_strlit("--no-keep-open");
    reveal_strlit("--parentless");
    reveal_strlit("--parent-id");
    assert("ask"@.len() == 3 && "tell"@.len() == 4);
    assert("--tell"@[2] == 't' && "--name"@[2] == 'n' && "--pane"@[2] == 'p');
    assert("--ask"@[2] == 'a' && "--cwd"@[2] == 'c');
    let command = if handoff {
        "handoff"@
    } else {
        "start"@
    };
    let p0 = Parse { found: Seq::empty(), scan: behind_name(args) };
    let (_, p1) = p0.value("--replace"@);
    assert(p1.scan.keeps("--ask"@) && p1.scan.keeps("--tell"@));
    let (supersedes, _) = p0.value("--replace"@);
    let p2 = p1.note_if(
        handoff && supersedes is None,
        "handoff requires --replace INCARNATION-ID: name the incarnation the new one takes over from"@,
    ).note_if(
        !handoff && supersedes is Some,
        "start does not accept --replace; use handoff to replace a running incarnation of the same logical agent"@,
    );
    let (_, p3) = p2.required("--name"@);
    assert(p3.scan.keeps("--ask"@) && p3.scan.keeps("--tell"@));
    let (_, p4) = p3.required("--pane"@);
    assert(p4.scan.keeps("--ask"@) && p4.scan.keeps("--tell"@));
    let (_, p5) = p4.required("--terminal"@);
    assert(p5.scan.keeps("--ask"@) && p5.scan.keeps("--tell"@));
    let (_, p6) = p5.required("--backend"@);
    assert(p6.scan.keeps("--ask"@) && p6.scan.keeps("--tell"@));
    let (_, p7) = p6.required("--cwd"@);
    assert(p7.scan.keeps("--ask"@) && p7.scan.keeps("--tell"@));
    let (_, p8) = timeout_of(p7);
    assert(p8.scan.keeps("--ask"@) && p8.scan.keeps("--tell"@));
    let (_, p9) = keep_open_of(p8, command);
    assert(p9.scan.keeps("--ask"@) && p9.scan.keeps("--tell"@));
    let (_, p10) = parent_of(p9, command);
    assert(p10.scan.keeps("--ask"@) && p10.scan.keeps("--tell"@));
}

/// An adoption is what the tokens say.
#[verifier::spinoff_prover]
#[verifier::rlimit(60)]
pub proof fn law_adopt_is_what_was_given(args: Seq<String>)
    requires
        args.len() > 0,
    ensures
        ({
            let tokens = args.skip(1);
            adopt_of(args) matches Ok(adopt) ==> {
                &&& stands_behind(tokens, "--pane"@, adopt.pane_id)
                &&& stands_behind(tokens, "--terminal"@, adopt.terminal_id)
                &&& adopt.public_name matches Some(name) ==> stands_behind(tokens, "--name"@, name)
                &&& adopt.backend_kind matches Some(kind) ==> stands_behind(
                    tokens,
                    "--backend"@,
                    kind,
                )
                &&& adopt.logical_agent_id matches Some(id) ==> stands_behind(
                    tokens,
                    "--logical-id"@,
                    id,
                )
                &&& adopt.session matches Some(name) ==> stands_behind(tokens, "--session"@, name)
                &&& says_values(tokens, "--arg"@, adopt.backend_args)
                &&& adopt.requested_model matches Some(name) ==> stands_behind(
                    tokens,
                    "--requested-model"@,
                    name,
                )
                &&& adopt.requested_provider matches Some(name) ==> stands_behind(
                    tokens,
                    "--requested-provider"@,
                    name,
                )
                &&& adopt.requested_effort matches Some(name) ==> stands_behind(
                    tokens,
                    "--requested-effort"@,
                    name,
                )
                &&& adopt.idempotency_key matches Some(key) ==> stands_behind(
                    tokens,
                    "--idempotency-key"@,
                    key,
                )
            }
        }),
{
    broadcast use {
        lemma_fresh,
        lemma_parse_value,
        lemma_parse_required,
        lemma_parse_switch,
        lemma_parse_all_values,
    };

}

/// A socket waiter is registered as the tokens say.
#[verifier::spinoff_prover]
pub proof fn law_waiter_register_is_what_was_given(args: Seq<String>)
    requires
        args.len() > 0,
    ensures
        ({
            let tokens = args.skip(1);
            match waiter_register_of(args) {
                Ok(Command::WaiterRegister { public_name, parent, idempotency_key }) => {
                    &&& stands_behind(tokens, "--name"@, public_name)
                    &&& says_parent(tokens, parent)
                    &&& idempotency_key matches Some(key) ==> stands_behind(
                        tokens,
                        "--idempotency-key"@,
                        key,
                    )
                },
                Ok(_) => false,
                Err(_) => true,
            }
        }),
{
    broadcast use {
        lemma_fresh,
        lemma_parse_value,
        lemma_parse_required,
        lemma_parse_switch,
        lemma_parent_of,
    };

}

} // verus!
