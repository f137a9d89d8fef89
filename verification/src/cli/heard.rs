//! What stands on a command line is heard: a part that a command lacks was not given.
//!
//! A flag that stands among the tokens is either taken by its command, or is itself the value behind
//! another flag.

use vstd::prelude::*;

use super::tokens::{stands, Parse, Scan};
use super::{
    adopt_of, behind_name, body_of, caller_of, cancel_of, due_of, initial_kind_of, keep_open_of,
    message_of, named_body_of, noted_body_of, parent_of, pending_of, reminder_disable_of,
    reminder_snooze_of, rename_of, renew_cancel_of, renew_of, reply_of, start_of, timeout_of,
    waiter_register_of, whoami_of, Command,
};
use crate::text::begins;

verus! {

/// Whether a flag was not given: wherever it stands, it is the value behind another flag.
pub open spec fn unheard(tokens: Seq<String>, flag: Seq<char>) -> bool {
    forall|i: int|
        0 <= i < tokens.len() && (#[trigger] tokens[i])@ == flag ==> i > 0 && begins(
            tokens[i - 1]@,
            '-',
        )
}

/// Whether none of the three flags was given that name a caller.
pub open spec fn names_no_caller(tokens: Seq<String>) -> bool {
    unheard(tokens, "--sender"@) && unheard(tokens, "--sender-id"@) && unheard(tokens, "--pane"@)
}

/// Whether none of the three flags was given that postpone a delivery.
pub open spec fn names_no_due(tokens: Seq<String>) -> bool {
    unheard(tokens, "--due-at-ms"@) && unheard(tokens, "--due-in"@) && unheard(tokens, "--due-at"@)
}

/// Whether a flag is used only where it is the value behind another flag.
pub open spec fn spares(scan: Scan, flag: Seq<char>) -> bool {
    scan.wf() && forall|i: int|
        0 <= i < scan.items.len() && (#[trigger] scan.items[i])@ == flag && scan.used[i] ==> i > 0
            && begins(scan.items[i - 1]@, '-')
}

broadcast proof fn lemma_fresh(items: Seq<String>, flag: Seq<char>)
    ensures
        #[trigger] spares(Scan::fresh(items), flag),
{
}

proof fn lemma_hit(scan: Scan, flag: Seq<char>, from: int)
    requires
        scan.wf(),
        0 <= from,
    ensures
        ({
            let i = scan.next_hit(flag, from);
            &&& i < scan.items.len() ==> from <= i && scan.items[i]@ == flag
            &&& forall|j: int|
                from <= j < i && j < scan.items.len() && (#[trigger] scan.items[j])@ == flag
                    ==> scan.used[j]
        }),
    decreases scan.items.len() - from,
{
    if from < scan.items.len() && (scan.used[from] || scan.items[from]@ != flag) {
        lemma_hit(scan, flag, from + 1);
    }
}

broadcast proof fn lemma_switch(scan: Scan, flag: Seq<char>, other: Seq<char>)
    requires
        spares(scan, other),
        other != flag,
    ensures
        #[trigger] spares(scan.switch(flag).1, other),
{
    lemma_hit(scan, flag, 0);
}

broadcast proof fn lemma_switch_off(scan: Scan, flag: Seq<char>)
    requires
        spares(scan, flag),
    ensures
        (#[trigger] scan.switch(flag)).0 matches Ok(on) ==> (!on ==> unheard(scan.items, flag)),
{
    lemma_hit(scan, flag, 0);
}

broadcast proof fn lemma_value(scan: Scan, flag: Seq<char>, other: Seq<char>)
    requires
        spares(scan, other),
        other != flag,
        begins(flag, '-'),
    ensures
        #[trigger] spares(scan.value(flag).1, other),
{
    lemma_hit(scan, flag, 0);
}

broadcast proof fn lemma_no_value(scan: Scan, flag: Seq<char>)
    requires
        spares(scan, flag),
    ensures
        (#[trigger] scan.value(flag)).0 matches Ok(value) ==> (value is None ==> unheard(
            scan.items,
            flag,
        )),
{
    lemma_hit(scan, flag, 0);
}

proof fn lemma_values_from(scan: Scan, flag: Seq<char>, from: int, other: Seq<char>)
    requires
        spares(scan, other),
        other != flag,
        begins(flag, '-'),
        0 <= from,
    ensures
        spares(scan.all_values_from(flag, from).1, other),
    decreases scan.items.len() - from,
{
    lemma_hit(scan, flag, from);
    let i = scan.next_hit(flag, from);
    if from <= i < scan.items.len() && scan.offers_value(i + 1, true) {
        let next = scan.mark(i).mark(i + 1);
        assert(spares(next, other)) by {
            assert forall|k: int|
                0 <= k < next.items.len() && (#[trigger] next.items[k])@ == other
                    && next.used[k] implies k > 0 && begins(next.items[k - 1]@, '-') by {
                if k == i + 1 {
                    assert(next.items[k - 1]@ == flag);
                } else {
                    assert(scan.items[k]@ == other && scan.used[k]);
                }
            }
        }
        lemma_values_from(next, flag, i + 2, other);
    }
}

broadcast proof fn lemma_values(scan: Scan, flag: Seq<char>, other: Seq<char>)
    requires
        spares(scan, other),
        other != flag,
        begins(flag, '-'),
    ensures
        #[trigger] spares(scan.all_values(flag).1, other),
{
    lemma_values_from(scan, flag, 0, other);
}

broadcast proof fn lemma_no_values(scan: Scan, flag: Seq<char>)
    requires
        spares(scan, flag),
    ensures
        (#[trigger] scan.all_values(flag)).0 matches Ok(values) ==> (values.len() == 0 ==> unheard(
            scan.items,
            flag,
        )),
{
    lemma_hit(scan, flag, 0);
}

proof fn lemma_next_positional(scan: Scan, from: int)
    requires
        scan.wf(),
        0 <= from,
    ensures
        scan.next_positional(from) < scan.items.len() ==> from <= scan.next_positional(from)
            && !begins(scan.items[scan.next_positional(from)]@, '-'),
    decreases scan.items.len() - from,
{
    if from < scan.items.len() && (scan.used[from] || begins(scan.items[from]@, '-')) {
        lemma_next_positional(scan, from + 1);
    }
}

broadcast proof fn lemma_positional(scan: Scan, other: Seq<char>)
    requires
        spares(scan, other),
        begins(other, '-'),
    ensures
        #[trigger] spares(scan.positional().1, other),
{
    lemma_next_positional(scan, 0);
}

/// Taking from a scan leaves its tokens.
broadcast proof fn lemma_items(scan: Scan, flag: Seq<char>)
    ensures
        (#[trigger] scan.value(flag)).1.items == scan.items,
{
}

broadcast proof fn lemma_switch_items(scan: Scan, flag: Seq<char>)
    ensures
        (#[trigger] scan.switch(flag)).1.items == scan.items,
{
}

proof fn lemma_values_items_from(scan: Scan, flag: Seq<char>, from: int)
    ensures
        scan.all_values_from(flag, from).1.items == scan.items,
    decreases scan.items.len() - from,
{
    let i = scan.next_hit(flag, from);
    if from <= i < scan.items.len() && scan.offers_value(i + 1, true) {
        lemma_values_items_from(scan.mark(i).mark(i + 1), flag, i + 2);
    }
}

broadcast proof fn lemma_values_items(scan: Scan, flag: Seq<char>)
    ensures
        (#[trigger] scan.all_values(flag)).1.items == scan.items,
{
    lemma_values_items_from(scan, flag, 0);
}

proof fn lemma_flags()
    ensures
        "--sender"@.len() == 8,
        "--sender-id"@.len() == 11,
        "--pane"@.len() == 6,
        "--stdin"@.len() == 7,
        "--file"@.len() == 6,
        "--body"@.len() == 6,
        "--due-at-ms"@.len() == 11,
        "--due-in"@.len() == 8,
        "--due-at"@.len() == 8,
        "--recipient-id"@.len() == 14,
        "--recipient-incarnation"@.len() == 23,
        "--idempotency-key"@.len() == 17,
        "--remind-after-ms"@.len() == 17,
        "--no-remind"@.len() == 11,
        "--from"@.len() == 6,
        "--prepare-prompt"@.len() == 16,
        "--prepare-prompt-file"@.len() == 21,
        "--prompt"@.len() == 8,
        "--prompt-file"@.len() == 13,
        "--on-timeout"@.len() == 12,
        "--prepare-timeout"@.len() == 17,
        "--prepare-timeout-ms"@.len() == 20,
        "--every"@.len() == 7,
        "--reason"@.len() == 8,
        "--until-ms"@.len() == 10,
        "--name"@.len() == 6,
        "--progress"@.len() == 10,
        "--final"@.len() == 7,
        "--replace"@.len() == 9,
        "--terminal"@.len() == 10,
        "--backend"@.len() == 9,
        "--cwd"@.len() == 5,
        "--timeout-ms"@.len() == 12,
        "--keep-open"@.len() == 11,
        "--no-keep-open"@.len() == 14,
        "--parentless"@.len() == 12,
        "--parent-id"@.len() == 11,
        "--tell"@.len() == 6,
        "--ask"@.len() == 5,
        "--arg"@.len() == 5,
        "--logical-id"@.len() == 12,
        "--session"@.len() == 9,
        "--requested-model"@.len() == 17,
        "--requested-provider"@.len() == 20,
        "--requested-effort"@.len() == 18,
        "--incarnation-id"@.len() == 16,
        "--agent-id"@.len() == 10,
        "--refresh"@.len() == 9,
        "--sender"@[2] == 's',
        "--due-in"@[2] == 'd',
        "--due-at"@[2] == 'd',
        "--prompt"@[2] == 'p',
        "--reason"@[2] == 'r',
        "--sender-id"@[2] == 's',
        "--due-at-ms"@[2] == 'd',
        "--no-remind"@[2] == 'n',
        "--keep-open"@[2] == 'k',
        "--parent-id"@[2] == 'p',
        "--pane"@[2] == 'p',
        "--file"@[2] == 'f',
        "--body"@[2] == 'b',
        "--from"@[2] == 'f',
        "--name"@[2] == 'n',
        "--tell"@[2] == 't',
        "--stdin"@[2] == 's',
        "--every"@[2] == 'e',
        "--final"@[2] == 'f',
        "--file"@[3] == 'i',
        "--from"@[3] == 'r',
        "--due-in"@[6] == 'i',
        "--due-at"@[6] == 'a',
        "--recipient-id"@[2] == 'r',
        "--no-keep-open"@[2] == 'n',
        "--idempotency-key"@[2] == 'i',
        "--remind-after-ms"@[2] == 'r',
        "--prepare-timeout"@[2] == 'p',
        "--requested-model"@[2] == 'r',
        "--remind-after-ms"@[4] == 'm',
        "--requested-model"@[4] == 'q',
        "--prepare-prompt"@[2] == 'p',
        "--incarnation-id"@[2] == 'i',
        "--on-timeout"@[2] == 'o',
        "--timeout-ms"@[2] == 't',
        "--parentless"@[2] == 'p',
        "--logical-id"@[2] == 'l',
        "--prepare-timeout-ms"@[2] == 'p',
        "--requested-provider"@[2] == 'r',
        "--until-ms"@[2] == 'u',
        "--progress"@[2] == 'p',
        "--terminal"@[2] == 't',
        "--agent-id"@[2] == 'a',
        "--replace"@[2] == 'r',
        "--backend"@[2] == 'b',
        "--session"@[2] == 's',
        "--replace"@[4] == 'p',
        "--refresh"@[4] == 'f',
        "--refresh"@[2] == 'r',
        "--cwd"@[2] == 'c',
        "--ask"@[2] == 'a',
        "--arg"@[2] == 'a',
        "--ask"@[3] == 's',
        "--arg"@[3] == 'r',
        begins("--sender"@, '-'),
        begins("--sender-id"@, '-'),
        begins("--pane"@, '-'),
        begins("--stdin"@, '-'),
        begins("--file"@, '-'),
        begins("--body"@, '-'),
        begins("--due-at-ms"@, '-'),
        begins("--due-in"@, '-'),
        begins("--due-at"@, '-'),
        begins("--recipient-id"@, '-'),
        begins("--recipient-incarnation"@, '-'),
        begins("--idempotency-key"@, '-'),
        begins("--remind-after-ms"@, '-'),
        begins("--no-remind"@, '-'),
        begins("--from"@, '-'),
        begins("--prepare-prompt"@, '-'),
        begins("--prepare-prompt-file"@, '-'),
        begins("--prompt"@, '-'),
        begins("--prompt-file"@, '-'),
        begins("--on-timeout"@, '-'),
        begins("--prepare-timeout"@, '-'),
        begins("--prepare-timeout-ms"@, '-'),
        begins("--every"@, '-'),
        begins("--reason"@, '-'),
        begins("--until-ms"@, '-'),
        begins("--name"@, '-'),
        begins("--progress"@, '-'),
        begins("--final"@, '-'),
        begins("--replace"@, '-'),
        begins("--terminal"@, '-'),
        begins("--backend"@, '-'),
        begins("--cwd"@, '-'),
        begins("--timeout-ms"@, '-'),
        begins("--keep-open"@, '-'),
        begins("--no-keep-open"@, '-'),
        begins("--parentless"@, '-'),
        begins("--parent-id"@, '-'),
        begins("--tell"@, '-'),
        begins("--ask"@, '-'),
        begins("--arg"@, '-'),
        begins("--logical-id"@, '-'),
        begins("--session"@, '-'),
        begins("--requested-model"@, '-'),
        begins("--requested-provider"@, '-'),
        begins("--requested-effort"@, '-'),
        begins("--incarnation-id"@, '-'),
        begins("--agent-id"@, '-'),
        begins("--refresh"@, '-'),
{
    reveal_strlit("--sender");
    reveal_strlit("--sender-id");
    reveal_strlit("--pane");
    reveal_strlit("--stdin");
    reveal_strlit("--file");
    reveal_strlit("--body");
    reveal_strlit("--due-at-ms");
    reveal_strlit("--due-in");
    reveal_strlit("--due-at");
    reveal_strlit("--recipient-id");
    reveal_strlit("--recipient-incarnation");
    reveal_strlit("--idempotency-key");
    reveal_strlit("--remind-after-ms");
    reveal_strlit("--no-remind");
    reveal_strlit("--from");
    reveal_strlit("--prepare-prompt");
    reveal_strlit("--prepare-prompt-file");
    reveal_strlit("--prompt");
    reveal_strlit("--prompt-file");
    reveal_strlit("--on-timeout");
    reveal_strlit("--prepare-timeout");
    reveal_strlit("--prepare-timeout-ms");
    reveal_strlit("--every");
    reveal_strlit("--reason");
    reveal_strlit("--until-ms");
    reveal_strlit("--name");
    reveal_strlit("--progress");
    reveal_strlit("--final");
    reveal_strlit("--replace");
    reveal_strlit("--terminal");
    reveal_strlit("--backend");
    reveal_strlit("--cwd");
    reveal_strlit("--timeout-ms");
    reveal_strlit("--keep-open");
    reveal_strlit("--no-keep-open");
    reveal_strlit("--parentless");
    reveal_strlit("--parent-id");
    reveal_strlit("--tell");
    reveal_strlit("--ask");
    reveal_strlit("--arg");
    reveal_strlit("--logical-id");
    reveal_strlit("--session");
    reveal_strlit("--requested-model");
    reveal_strlit("--requested-provider");
    reveal_strlit("--requested-effort");
    reveal_strlit("--incarnation-id");
    reveal_strlit("--agent-id");
    reveal_strlit("--refresh");
}

/// The flags of a caller are taken wherever they were given, and no other flag is.
broadcast proof fn lemma_caller(scan: Scan, other: Seq<char>)
    requires
        spares(scan, other),
        other != "--sender"@,
        other != "--sender-id"@,
        other != "--pane"@,
    ensures
        #[trigger] spares(caller_of(scan).1, other),
        caller_of(scan).1.items == scan.items,
{
    broadcast use {
        lemma_fresh,
        lemma_switch,
        lemma_switch_off,
        lemma_value,
        lemma_no_value,
        lemma_values,
        lemma_no_values,
        lemma_positional,
        lemma_items,
        lemma_switch_items,
        lemma_values_items,
    };

    lemma_flags();
}

proof fn lemma_no_caller(scan: Scan)
    requires
        spares(scan, "--sender"@),
        spares(scan, "--sender-id"@),
        spares(scan, "--pane"@),
    ensures
        caller_of(scan).0 matches Ok(caller) ==> (caller is None ==> names_no_caller(scan.items)),
        caller_of(scan).1.items == scan.items,
{
    broadcast use {
        lemma_fresh,
        lemma_switch,
        lemma_switch_off,
        lemma_value,
        lemma_no_value,
        lemma_values,
        lemma_no_values,
        lemma_positional,
        lemma_items,
        lemma_switch_items,
        lemma_values_items,
    };

    lemma_flags();
}

broadcast proof fn lemma_body(scan: Scan, command: Seq<char>, other: Seq<char>)
    requires
        spares(scan, other),
        other != "--stdin"@,
        other != "--file"@,
        other != "--body"@,
    ensures
        #[trigger] spares(body_of(scan, command).1, other),
        body_of(scan, command).1.items == scan.items,
{
    broadcast use {
        lemma_fresh,
        lemma_switch,
        lemma_switch_off,
        lemma_value,
        lemma_no_value,
        lemma_values,
        lemma_no_values,
        lemma_positional,
        lemma_items,
        lemma_switch_items,
        lemma_values_items,
    };

    lemma_flags();
}

broadcast proof fn lemma_named_body(
    scan: Scan,
    verb: Seq<char>,
    text_flag: Seq<char>,
    file_flag: Seq<char>,
    other: Seq<char>,
)
    requires
        spares(scan, other),
        other != text_flag,
        other != file_flag,
        begins(text_flag, '-'),
        begins(file_flag, '-'),
    ensures
        #[trigger] spares(named_body_of(scan, verb, text_flag, file_flag).1, other),
        named_body_of(scan, verb, text_flag, file_flag).1.items == scan.items,
{
    broadcast use {
        lemma_fresh,
        lemma_switch,
        lemma_switch_off,
        lemma_value,
        lemma_no_value,
        lemma_values,
        lemma_no_values,
        lemma_positional,
        lemma_items,
        lemma_switch_items,
        lemma_values_items,
    };

    lemma_flags();
}

broadcast proof fn lemma_due(scan: Scan, verb: Seq<char>, other: Seq<char>)
    requires
        spares(scan, other),
        other != "--due-at-ms"@,
        other != "--due-in"@,
        other != "--due-at"@,
    ensures
        #[trigger] spares(due_of(scan, verb).1, other),
        due_of(scan, verb).1.items == scan.items,
{
    broadcast use {
        lemma_fresh,
        lemma_switch,
        lemma_switch_off,
        lemma_value,
        lemma_no_value,
        lemma_values,
        lemma_no_values,
        lemma_positional,
        lemma_items,
        lemma_switch_items,
        lemma_values_items,
    };

    lemma_flags();
}

proof fn lemma_no_due(scan: Scan, verb: Seq<char>)
    requires
        spares(scan, "--due-at-ms"@),
        spares(scan, "--due-in"@),
        spares(scan, "--due-at"@),
    ensures
        due_of(scan, verb).0 matches Ok(due) ==> (due is None ==> names_no_due(scan.items)),
{
    broadcast use {
        lemma_fresh,
        lemma_switch,
        lemma_switch_off,
        lemma_value,
        lemma_no_value,
        lemma_values,
        lemma_no_values,
        lemma_positional,
        lemma_items,
        lemma_switch_items,
        lemma_values_items,
    };

    lemma_flags();
}

/// A reply without a caller was given none.
#[verifier::spinoff_prover]
#[verifier::rlimit(60)]
pub proof fn law_reply_hears_its_caller(args: Seq<String>)
    requires
        args.len() > 0,
    ensures
        reply_of(args) matches Ok(Command::Reply { requester, .. }) ==> (requester is None ==> names_no_caller(args.skip(1))),
{
    broadcast use {
        lemma_fresh,
        lemma_switch,
        lemma_switch_off,
        lemma_value,
        lemma_no_value,
        lemma_values,
        lemma_no_values,
        lemma_positional,
        lemma_items,
        lemma_switch_items,
        lemma_values_items,
        lemma_caller,
        lemma_body,
        lemma_named_body,
        lemma_due,
    };

    lemma_flags();
    let s2 = behind_name(args).switch("--progress"@).1.switch("--final"@).1;
    let s3 = body_of(s2, "reply"@).1;
    assert(spares(s3, "--sender"@) && spares(s3, "--sender-id"@) && spares(s3, "--pane"@));
    lemma_no_caller(s3.value("--idempotency-key"@).1);
}

/// A cancellation without a caller was given none.
#[verifier::spinoff_prover]
#[verifier::rlimit(60)]
pub proof fn law_cancel_hears_its_caller(args: Seq<String>)
    requires
        args.len() > 0,
    ensures
        cancel_of(args) matches Ok(Command::Cancel { requester, .. }) ==> (requester is None ==> names_no_caller(args.skip(1))),
{
    broadcast use {
        lemma_fresh,
        lemma_switch,
        lemma_switch_off,
        lemma_value,
        lemma_no_value,
        lemma_values,
        lemma_no_values,
        lemma_positional,
        lemma_items,
        lemma_switch_items,
        lemma_values_items,
        lemma_caller,
        lemma_body,
        lemma_named_body,
        lemma_due,
    };

    lemma_flags();
    lemma_no_caller(behind_name(args).value("--reason"@).1);
}

/// The end of a renew without a caller was given none.
#[verifier::spinoff_prover]
#[verifier::rlimit(60)]
pub proof fn law_renew_cancel_hears_its_caller(args: Seq<String>)
    requires
        args.len() > 0,
    ensures
        renew_cancel_of(args) matches Ok(Command::RenewCancel { requester, .. }) ==> (requester is None ==> names_no_caller(args.skip(1))),
{
    broadcast use {
        lemma_fresh,
        lemma_switch,
        lemma_switch_off,
        lemma_value,
        lemma_no_value,
        lemma_values,
        lemma_no_values,
        lemma_positional,
        lemma_items,
        lemma_switch_items,
        lemma_values_items,
        lemma_caller,
        lemma_body,
        lemma_named_body,
        lemma_due,
    };

    lemma_flags();
    lemma_no_caller(behind_name(args));
}

/// A snooze without a caller was given none.
#[verifier::spinoff_prover]
#[verifier::rlimit(60)]
pub proof fn law_snooze_hears_its_caller(args: Seq<String>)
    requires
        args.len() > 0,
    ensures
        reminder_snooze_of(args) matches Ok(Command::ReminderSnooze { requester, .. }) ==> (requester is None ==> names_no_caller(args.skip(1))),
{
    broadcast use {
        lemma_fresh,
        lemma_switch,
        lemma_switch_off,
        lemma_value,
        lemma_no_value,
        lemma_values,
        lemma_no_values,
        lemma_positional,
        lemma_items,
        lemma_switch_items,
        lemma_values_items,
        lemma_caller,
        lemma_body,
        lemma_named_body,
        lemma_due,
    };

    lemma_flags();
    lemma_no_caller(behind_name(args));
}

/// The end of reminders without a caller was given none.
#[verifier::spinoff_prover]
#[verifier::rlimit(60)]
pub proof fn law_disable_hears_its_caller(args: Seq<String>)
    requires
        args.len() > 0,
    ensures
        reminder_disable_of(args) matches Ok(Command::ReminderDisable { requester, .. }) ==> (requester is None ==> names_no_caller(args.skip(1))),
{
    broadcast use {
        lemma_fresh,
        lemma_switch,
        lemma_switch_off,
        lemma_value,
        lemma_no_value,
        lemma_values,
        lemma_no_values,
        lemma_positional,
        lemma_items,
        lemma_switch_items,
        lemma_values_items,
        lemma_caller,
        lemma_body,
        lemma_named_body,
        lemma_due,
    };

    lemma_flags();
    lemma_no_caller(behind_name(args));
}

/// A list of what is pending without a target was given none.
#[verifier::spinoff_prover]
#[verifier::rlimit(60)]
pub proof fn law_pending_hears_its_target(args: Seq<String>)
    requires
        args.len() > 0,
    ensures
        pending_of(args) matches Ok(Command::Pending { target }) ==> (target is None ==> names_no_caller(args.skip(1))),
{
    broadcast use {
        lemma_fresh,
        lemma_switch,
        lemma_switch_off,
        lemma_value,
        lemma_no_value,
        lemma_values,
        lemma_no_values,
        lemma_positional,
        lemma_items,
        lemma_switch_items,
        lemma_values_items,
        lemma_caller,
        lemma_body,
        lemma_named_body,
        lemma_due,
    };

    lemma_flags();
    lemma_no_caller(behind_name(args));
}

/// A rename without a target was given none.
#[verifier::spinoff_prover]
#[verifier::rlimit(60)]
pub proof fn law_rename_hears_its_target(args: Seq<String>)
    requires
        args.len() > 0,
    ensures
        rename_of(args) matches Ok(Command::Rename { target, .. }) ==> (target is None ==> names_no_caller(args.skip(1))),
{
    broadcast use {
        lemma_fresh,
        lemma_switch,
        lemma_switch_off,
        lemma_value,
        lemma_no_value,
        lemma_values,
        lemma_no_values,
        lemma_positional,
        lemma_items,
        lemma_switch_items,
        lemma_values_items,
        lemma_caller,
        lemma_body,
        lemma_named_body,
        lemma_due,
    };

    lemma_flags();
    lemma_no_caller(behind_name(args).value("--name"@).1);
}

/// An identity that is asked for without a target was given none.
#[verifier::spinoff_prover]
#[verifier::rlimit(60)]
pub proof fn law_whoami_hears_its_target(args: Seq<String>)
    requires
        args.len() > 0,
    ensures
        whoami_of(args) matches Ok(Command::Whoami { target }) ==> (target is None ==> unheard(args.skip(1), "--sender"@) && unheard(
            args.skip(1),
            "--pane"@,
        )),
{
    broadcast use {
        lemma_fresh,
        lemma_switch,
        lemma_switch_off,
        lemma_value,
        lemma_no_value,
        lemma_values,
        lemma_no_values,
        lemma_positional,
        lemma_items,
        lemma_switch_items,
        lemma_values_items,
        lemma_caller,
        lemma_body,
        lemma_named_body,
        lemma_due,
    };

    lemma_flags();
    let s1 = behind_name(args).value("--sender-id"@).1;
    assert(spares(s1, "--sender"@) && spares(s1, "--pane"@));
    let s2 = s1.value("--sender"@).1;
    let s3 = s2.value("--sender-id"@).1;
    assert(spares(s3, "--pane"@));
}

/// A message without a caller, a key or a moment to wait for was given none; an ask that is not to be
/// reminded of at its own interval, or is to be reminded of at all, was not told otherwise.
#[verifier::spinoff_prover]
#[verifier::rlimit(100)]
pub proof fn law_message_hears_what_was_given(args: Seq<String>)
    requires
        args.len() > 0,
    ensures
        message_of(args) matches Ok(Command::Tell { sender, idempotency_key, due, .. }) ==> ((sender is None ==> names_no_caller(args.skip(1))) && (idempotency_key is None ==> unheard(
            args.skip(1),
            "--idempotency-key"@,
        )) && (due is None ==> names_no_due(args.skip(1)))),
        message_of(args) matches Ok(Command::Ask {
            sender,
            idempotency_key,
            remind_after_ms,
            no_remind,
            ..
        }) ==> ((sender is None ==> names_no_caller(args.skip(1))) && (idempotency_key is None ==> unheard(
            args.skip(1),
            "--idempotency-key"@,
        )) && (remind_after_ms is None ==> unheard(args.skip(1), "--remind-after-ms"@)) && (!no_remind
            ==> unheard(args.skip(1), "--no-remind"@))),
{
    broadcast use {
        lemma_fresh,
        lemma_switch,
        lemma_switch_off,
        lemma_value,
        lemma_no_value,
        lemma_values,
        lemma_no_values,
        lemma_positional,
        lemma_items,
        lemma_switch_items,
        lemma_values_items,
        lemma_caller,
        lemma_body,
        lemma_named_body,
        lemma_due,
    };

    lemma_flags();
    let s2 = behind_name(args).value("--recipient-id"@).1.value("--recipient-incarnation"@).1;
    lemma_no_caller(s2);
    let s3 = caller_of(s2).1;
    let s4 = body_of(s3, args[0]@).1;
    assert(spares(s4, "--idempotency-key"@));
    let s5 = s4.value("--idempotency-key"@).1;
    lemma_no_due(s5, args[0]@);
    let s6 = due_of(s5, args[0]@).1;
    assert(spares(s6, "--remind-after-ms"@));
    let s7 = s6.all_values("--remind-after-ms"@).1;
    assert(spares(s7, "--no-remind"@));
    let s8 = s7.switch("--no-remind"@).1;
    assert(spares(s8, "--from"@));
    assert("tell"@.len() == 4 && "ask"@.len() == 3) by {
        reveal_strlit("tell");
        reveal_strlit("ask");
    }
}

/// A renew without a caller, a key, an interval or a moment to wait for was given none.
#[verifier::spinoff_prover]
#[verifier::rlimit(100)]
pub proof fn law_renew_hears_what_was_given(args: Seq<String>)
    requires
        args.len() > 0,
    ensures
        renew_of(args) matches Ok(Command::Renew(renew)) ==> ((renew.requester is None ==> names_no_caller(args.skip(1))) && (
        renew.idempotency_key is None ==> unheard(args.skip(1), "--idempotency-key"@)) && (
        renew.every_ms is None ==> unheard(args.skip(1), "--every"@)) && (renew.due is None
            ==> names_no_due(args.skip(1)))),
{
    broadcast use {
        lemma_fresh,
        lemma_switch,
        lemma_switch_off,
        lemma_value,
        lemma_no_value,
        lemma_values,
        lemma_no_values,
        lemma_positional,
        lemma_items,
        lemma_switch_items,
        lemma_values_items,
        lemma_caller,
        lemma_body,
        lemma_named_body,
        lemma_due,
    };

    lemma_flags();
    let s2 = behind_name(args).value("--recipient-id"@).1.value("--recipient-incarnation"@).1;
    lemma_no_caller(s2);
    let s3 = caller_of(s2).1;
    let s4 = named_body_of(s3, "renew"@, "--prepare-prompt"@, "--prepare-prompt-file"@).1;
    let s5 = named_body_of(s4, "renew"@, "--prompt"@, "--prompt-file"@).1;
    assert(spares(s5, "--idempotency-key"@));
    let s6 = s5.value("--idempotency-key"@).1;
    let s7 = s6.value("--on-timeout"@).1;
    assert(spares(s7, "--prepare-timeout"@));
    let s8 = s7.all_values("--prepare-timeout"@).1;
    assert(spares(s8, "--prepare-timeout-ms"@));
    let s9 = s8.all_values("--prepare-timeout-ms"@).1;
    assert(spares(s9, "--every"@));
    let s10 = s9.all_values("--every"@).1;
    lemma_no_due(s10, "renew"@);
}

/// An agent has ten minutes to prepare unless another time was given.
#[verifier::spinoff_prover]
#[verifier::rlimit(100)]
pub proof fn law_prepare_timeout_is_ten_minutes_unless_given(args: Seq<String>)
    requires
        args.len() > 0,
    ensures
        renew_of(args) matches Ok(Command::Renew(renew)) ==> (renew.prepare_timeout_ms != 600_000 ==> stands(
            args.skip(1),
            "--prepare-timeout"@,
        ) || stands(args.skip(1), "--prepare-timeout-ms"@)),
{
    broadcast use {
        lemma_fresh,
        lemma_switch,
        lemma_switch_off,
        lemma_value,
        lemma_no_value,
        lemma_values,
        lemma_no_values,
        lemma_positional,
        lemma_items,
        lemma_switch_items,
        lemma_values_items,
        lemma_caller,
        lemma_body,
        lemma_named_body,
        lemma_due,
    };

    lemma_flags();
    let s2 = behind_name(args).value("--recipient-id"@).1.value("--recipient-incarnation"@).1;
    let s3 = caller_of(s2).1;
    let s4 = named_body_of(s3, "renew"@, "--prepare-prompt"@, "--prepare-prompt-file"@).1;
    let s5 = named_body_of(s4, "renew"@, "--prompt"@, "--prompt-file"@).1;
    let s6 = s5.value("--idempotency-key"@).1;
    let s7 = s6.value("--on-timeout"@).1;
    assert(spares(s7, "--prepare-timeout"@));
    let s8 = s7.all_values("--prepare-timeout"@).1;
    assert(spares(s8, "--prepare-timeout-ms"@));
    lemma_hit(s7, "--prepare-timeout"@, 0);
    lemma_hit(s8, "--prepare-timeout-ms"@, 0);
}

broadcast proof fn lemma_parse_value(parse: Parse, flag: Seq<char>, other: Seq<char>)
    requires
        spares(parse.scan, other),
        other != flag,
        begins(flag, '-'),
    ensures
        #[trigger] spares(parse.value(flag).1.scan, other),
{
    lemma_value(parse.scan, flag, other);
}

broadcast proof fn lemma_parse_required(parse: Parse, flag: Seq<char>, other: Seq<char>)
    requires
        spares(parse.scan, other),
        other != flag,
        begins(flag, '-'),
    ensures
        #[trigger] spares(parse.required(flag).1.scan, other),
{
    lemma_value(parse.scan, flag, other);
}

broadcast proof fn lemma_parse_switch(parse: Parse, flag: Seq<char>, other: Seq<char>)
    requires
        spares(parse.scan, other),
        other != flag,
    ensures
        #[trigger] spares(parse.switch(flag).1.scan, other),
{
    lemma_switch(parse.scan, flag, other);
}

broadcast proof fn lemma_parse_values(parse: Parse, flag: Seq<char>, other: Seq<char>)
    requires
        spares(parse.scan, other),
        other != flag,
        begins(flag, '-'),
    ensures
        #[trigger] spares(parse.all_values(flag).1.scan, other),
{
    lemma_values(parse.scan, flag, other);
}

/// A value that is absent though nothing was found wrong was not given.
proof fn lemma_parse_absent(parse: Parse, flag: Seq<char>)
    requires
        spares(parse.scan, flag),
    ensures
        parse.value(flag).1.found.len() == 0 && parse.value(flag).0 is None ==> unheard(
            parse.scan.items,
            flag,
        ),
        parse.value(flag).1.found.len() >= parse.found.len(),
        parse.value(flag).1.scan.items == parse.scan.items,
{
    lemma_no_value(parse.scan, flag);
    lemma_items(parse.scan, flag);
}

proof fn lemma_parse_none(parse: Parse, flag: Seq<char>)
    requires
        spares(parse.scan, flag),
    ensures
        parse.all_values(flag).1.found.len() == 0 && parse.all_values(flag).0.len() == 0 ==> unheard(
            parse.scan.items,
            flag,
        ),
        parse.all_values(flag).1.found.len() >= parse.found.len(),
        parse.all_values(flag).1.scan.items == parse.scan.items,
{
    lemma_no_values(parse.scan, flag);
    lemma_values_items(parse.scan, flag);
}

/// An adoption hears every part that was given.
#[verifier::spinoff_prover]
#[verifier::rlimit(100)]
pub proof fn law_adopt_hears_what_was_given(args: Seq<String>)
    requires
        args.len() > 0,
    ensures
        adopt_of(args) matches Ok(adopt) ==> {
            let tokens = args.skip(1);
            &&& adopt.public_name is None ==> unheard(tokens, "--name"@)
            &&& adopt.backend_kind is None ==> unheard(tokens, "--backend"@)
            &&& adopt.logical_agent_id is None ==> unheard(tokens, "--logical-id"@)
            &&& adopt.session is None ==> unheard(tokens, "--session"@)
            &&& adopt.backend_args.len() == 0 ==> unheard(tokens, "--arg"@)
            &&& adopt.requested_model is None ==> unheard(tokens, "--requested-model"@)
            &&& adopt.requested_provider is None ==> unheard(tokens, "--requested-provider"@)
            &&& adopt.requested_effort is None ==> unheard(tokens, "--requested-effort"@)
            &&& adopt.idempotency_key is None ==> unheard(tokens, "--idempotency-key"@)
        },
{
    broadcast use {
        lemma_fresh,
        lemma_switch,
        lemma_switch_off,
        lemma_value,
        lemma_no_value,
        lemma_values,
        lemma_no_values,
        lemma_positional,
        lemma_items,
        lemma_switch_items,
        lemma_values_items,
        lemma_caller,
        lemma_body,
        lemma_named_body,
        lemma_due,
        lemma_parse_value,
        lemma_parse_required,
        lemma_parse_switch,
        lemma_parse_values,
    };

    lemma_flags();
    let p0 = Parse { found: Seq::empty(), scan: behind_name(args) };
    let p2 = p0.required("--pane"@).1.required("--terminal"@).1;
    lemma_items(p0.scan, "--pane"@);
    lemma_parse_absent(p2, "--name"@);
    let p3 = p2.value("--name"@).1;
    lemma_parse_absent(p3, "--backend"@);
    let p4 = p3.value("--backend"@).1;
    lemma_parse_absent(p4, "--logical-id"@);
    let p5 = p4.value("--logical-id"@).1;
    lemma_parse_absent(p5, "--session"@);
    let p6 = p5.value("--session"@).1;
    lemma_parse_none(p6, "--arg"@);
    let p7 = p6.all_values("--arg"@).1;
    lemma_parse_absent(p7, "--requested-model"@);
    let p8 = p7.value("--requested-model"@).1;
    lemma_parse_absent(p8, "--requested-provider"@);
    let p9 = p8.value("--requested-provider"@).1;
    lemma_parse_absent(p9, "--requested-effort"@);
    let p10 = p9.value("--requested-effort"@).1;
    lemma_parse_absent(p10, "--idempotency-key"@);
}

/// The parse of a start up to where its first message is from.
spec fn start_front(args: Seq<String>, handoff: bool, command: Seq<char>) -> Parse {
    let p0 = Parse { found: Seq::empty(), scan: behind_name(args) };
    let (supersedes, p1) = p0.value("--replace"@);
    let p2 = p1.note_if(
        handoff && supersedes is None,
        "handoff requires --replace INCARNATION-ID: name the incarnation the new one takes over from"@,
    ).note_if(
        !handoff && supersedes is Some,
        "start does not accept --replace; use handoff to replace a running incarnation of the same logical agent"@,
    );
    let p7 = p2.required("--name"@).1.required("--pane"@).1.required("--terminal"@).1.required(
        "--backend"@,
    ).1.required("--cwd"@).1;
    initial_kind_of(parent_of(keep_open_of(timeout_of(p7).1, command).1, command).1, command).1
}

#[verifier::spinoff_prover]
#[verifier::rlimit(60)]
proof fn lemma_start_front(args: Seq<String>, handoff: bool, command: Seq<char>, other: Seq<char>)
    requires
        args.len() > 0,
        other != "--replace"@,
        other != "--name"@,
        other != "--pane"@,
        other != "--terminal"@,
        other != "--backend"@,
        other != "--cwd"@,
        other != "--timeout-ms"@,
        other != "--keep-open"@,
        other != "--no-keep-open"@,
        other != "--parentless"@,
        other != "--parent-id"@,
        other != "--tell"@,
        other != "--ask"@,
    ensures
        spares(start_front(args, handoff, command).scan, other),
        start_front(args, handoff, command).scan.items == args.skip(1),
{
    lemma_flags();
    let p0 = Parse { found: Seq::empty(), scan: behind_name(args) };
    lemma_fresh(args.skip(1), other);
    lemma_parse_value(p0, "--replace"@, other);
    lemma_items(p0.scan, "--replace"@);
    let (supersedes, p1) = p0.value("--replace"@);
    let p2 = p1.note_if(
        handoff && supersedes is None,
        "handoff requires --replace INCARNATION-ID: name the incarnation the new one takes over from"@,
    ).note_if(
        !handoff && supersedes is Some,
        "start does not accept --replace; use handoff to replace a running incarnation of the same logical agent"@,
    );
    assert(p2.scan == p1.scan);
    lemma_required_step(p2, "--name"@, other);
    let p3 = p2.required("--name"@).1;
    lemma_required_step(p3, "--pane"@, other);
    let p4 = p3.required("--pane"@).1;
    lemma_required_step(p4, "--terminal"@, other);
    let p5 = p4.required("--terminal"@).1;
    lemma_required_step(p5, "--backend"@, other);
    let p6 = p5.required("--backend"@).1;
    lemma_required_step(p6, "--cwd"@, other);
    let p7 = p6.required("--cwd"@).1;
    lemma_required_step(p7, "--timeout-ms"@, other);
    let p8 = timeout_of(p7).1;
    assert(p8.scan == p7.required("--timeout-ms"@).1.scan);
    lemma_switches_step(p8, "--keep-open"@, "--no-keep-open"@, other);
    let p9 = keep_open_of(p8, command).1;
    assert(p9.scan == p8.switch("--keep-open"@).1.switch("--no-keep-open"@).1.scan);
    lemma_parent_step(p9, command, other);
    let p10 = parent_of(p9, command).1;
    lemma_switches_step(p10, "--tell"@, "--ask"@, other);
    assert(initial_kind_of(p10, command).1.scan == p10.switch("--tell"@).1.switch("--ask"@).1.scan);
}

proof fn lemma_required_step(parse: Parse, flag: Seq<char>, other: Seq<char>)
    requires
        spares(parse.scan, other),
        other != flag,
        begins(flag, '-'),
    ensures
        spares(parse.required(flag).1.scan, other),
        parse.required(flag).1.scan.items == parse.scan.items,
{
    lemma_value(parse.scan, flag, other);
    lemma_items(parse.scan, flag);
}

proof fn lemma_switches_step(
    parse: Parse,
    first: Seq<char>,
    second: Seq<char>,
    other: Seq<char>,
)
    requires
        spares(parse.scan, other),
        other != first,
        other != second,
    ensures
        spares(parse.switch(first).1.switch(second).1.scan, other),
        parse.switch(first).1.switch(second).1.scan.items == parse.scan.items,
{
    lemma_switch(parse.scan, first, other);
    lemma_switch_items(parse.scan, first);
    let next = parse.switch(first).1;
    lemma_switch(next.scan, second, other);
    lemma_switch_items(next.scan, second);
}

proof fn lemma_parent_step(parse: Parse, command: Seq<char>, other: Seq<char>)
    requires
        spares(parse.scan, other),
        other != "--parentless"@,
        other != "--parent-id"@,
    ensures
        spares(parent_of(parse, command).1.scan, other),
        parent_of(parse, command).1.scan.items == parse.scan.items,
{
    lemma_flags();
    lemma_switch(parse.scan, "--parentless"@, other);
    lemma_switch_items(parse.scan, "--parentless"@);
    let next = parse.switch("--parentless"@).1;
    lemma_value(next.scan, "--parent-id"@, other);
    lemma_items(next.scan, "--parent-id"@);
}

#[verifier::spinoff_prover]
#[verifier::rlimit(60)]
proof fn lemma_start_rest(front: Parse, command: Seq<char>)
    requires
        spares(front.scan, "--sender-id"@),
        spares(front.scan, "--arg"@),
        spares(front.scan, "--logical-id"@),
        spares(front.scan, "--session"@),
        spares(front.scan, "--requested-model"@),
        spares(front.scan, "--requested-provider"@),
        spares(front.scan, "--requested-effort"@),
        spares(front.scan, "--idempotency-key"@),
    ensures
        ({
            let tokens = front.scan.items;
            let (sender, p12) = front.value("--sender-id"@);
            let (_, p13) = noted_body_of(p12, command);
            let (backend_args, p14) = p13.all_values("--arg"@);
            let (logical_id, p15) = p14.value("--logical-id"@);
            let (session, p16) = p15.value("--session"@);
            let (model, p17) = p16.value("--requested-model"@);
            let (provider, p18) = p17.value("--requested-provider"@);
            let (effort, p19) = p18.value("--requested-effort"@);
            let (key, p20) = p19.value("--idempotency-key"@);
            p20.found.len() == 0 ==> {
                &&& sender is None ==> unheard(tokens, "--sender-id"@)
                &&& backend_args.len() == 0 ==> unheard(tokens, "--arg"@)
                &&& logical_id is None ==> unheard(tokens, "--logical-id"@)
                &&& session is None ==> unheard(tokens, "--session"@)
                &&& model is None ==> unheard(tokens, "--requested-model"@)
                &&& provider is None ==> unheard(tokens, "--requested-provider"@)
                &&& effort is None ==> unheard(tokens, "--requested-effort"@)
                &&& key is None ==> unheard(tokens, "--idempotency-key"@)
            }
        }),
{
    broadcast use {lemma_parse_value, lemma_parse_values, lemma_body};

    lemma_flags();
    lemma_parse_absent(front, "--sender-id"@);
    let p12 = front.value("--sender-id"@).1;
    let p13 = noted_body_of(p12, command).1;
    assert(p13.scan == body_of(p12.scan, command).1);
    assert(spares(body_of(p12.scan, command).1, "--arg"@));
    lemma_parse_none(p13, "--arg"@);
    let p14 = p13.all_values("--arg"@).1;
    assert(spares(body_of(p12.scan, command).1, "--logical-id"@));
    lemma_parse_absent(p14, "--logical-id"@);
    let p15 = p14.value("--logical-id"@).1;
    assert(spares(body_of(p12.scan, command).1, "--session"@));
    lemma_parse_absent(p15, "--session"@);
    let p16 = p15.value("--session"@).1;
    assert(spares(body_of(p12.scan, command).1, "--requested-model"@));
    lemma_parse_absent(p16, "--requested-model"@);
    let p17 = p16.value("--requested-model"@).1;
    assert(spares(body_of(p12.scan, command).1, "--requested-provider"@));
    lemma_parse_absent(p17, "--requested-provider"@);
    let p18 = p17.value("--requested-provider"@).1;
    assert(spares(body_of(p12.scan, command).1, "--requested-effort"@));
    lemma_parse_absent(p18, "--requested-effort"@);
    let p19 = p18.value("--requested-effort"@).1;
    assert(spares(body_of(p12.scan, command).1, "--idempotency-key"@));
    lemma_parse_absent(p19, "--idempotency-key"@);
}

/// A start hears every part that was given.
#[verifier::spinoff_prover]
#[verifier::rlimit(60)]
pub proof fn law_start_hears_what_was_given(args: Seq<String>, handoff: bool)
    requires
        args.len() > 0,
    ensures
        start_of(args, handoff) matches Ok(start) ==> {
            let tokens = args.skip(1);
            &&& start.initial_sender is None ==> unheard(tokens, "--sender-id"@)
            &&& start.backend_args.len() == 0 ==> unheard(tokens, "--arg"@)
            &&& start.logical_agent_id is None ==> unheard(tokens, "--logical-id"@)
            &&& start.session is None ==> unheard(tokens, "--session"@)
            &&& start.requested_model is None ==> unheard(tokens, "--requested-model"@)
            &&& start.requested_provider is None ==> unheard(tokens, "--requested-provider"@)
            &&& start.requested_effort is None ==> unheard(tokens, "--requested-effort"@)
            &&& start.idempotency_key is None ==> unheard(tokens, "--idempotency-key"@)
        },
{
    lemma_flags();
    let command = if handoff {
        "handoff"@
    } else {
        "start"@
    };
    lemma_start_front(args, handoff, command, "--sender-id"@);
    lemma_start_front(args, handoff, command, "--arg"@);
    lemma_start_front(args, handoff, command, "--logical-id"@);
    lemma_start_front(args, handoff, command, "--session"@);
    lemma_start_front(args, handoff, command, "--requested-model"@);
    lemma_start_front(args, handoff, command, "--requested-provider"@);
    lemma_start_front(args, handoff, command, "--requested-effort"@);
    lemma_start_front(args, handoff, command, "--idempotency-key"@);
    lemma_start_rest(start_front(args, handoff, command), command);
}

/// A waiter that registers without a key was given none.
#[verifier::spinoff_prover]
#[verifier::rlimit(60)]
pub proof fn law_waiter_register_hears_its_key(args: Seq<String>)
    requires
        args.len() > 0,
    ensures
        waiter_register_of(args) matches Ok(Command::WaiterRegister { idempotency_key, .. }) ==> (idempotency_key is None ==> unheard(
            args.skip(1),
            "--idempotency-key"@,
        )),
{
    broadcast use {
        lemma_fresh,
        lemma_switch,
        lemma_switch_off,
        lemma_value,
        lemma_no_value,
        lemma_values,
        lemma_no_values,
        lemma_positional,
        lemma_items,
        lemma_switch_items,
        lemma_values_items,
        lemma_caller,
        lemma_body,
        lemma_named_body,
        lemma_due,
        lemma_parse_value,
        lemma_parse_required,
        lemma_parse_switch,
        lemma_parse_values,
    };

    lemma_flags();
    let p0 = Parse { found: Seq::empty(), scan: behind_name(args) };
    let p1 = p0.required("--name"@).1;
    let p2 = parent_of(p1, "waiter-register"@).1;
    lemma_parse_absent(p2, "--idempotency-key"@);
}

} // verus!
