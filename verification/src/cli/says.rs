//! What a receipt says: behind which label each part of an answer stands.

use vstd::prelude::*;

use crate::cli::receipt::{
    adopt_receipt, ask_info_receipt, attribution_receipt, cancel_receipt, cancelled_text,
    claimant_line, claimant_state, clear_receipt, delivered_count, message_receipt, moment,
    name_info_receipt, notice_receipt, observed_text, party_pieces, piece_text, pieces_text,
    receipt_of, recover_receipt, rename_receipt, renew_receipt, reply_receipt, result_receipt,
    retire_receipt, said, shown, start_receipt, text_or, texts_among, unresolved_line,
    waiter_register_receipt, waiter_retire_receipt, whoami_receipt, PieceView,
};
use crate::cli::report::report_receipt;
use crate::cli::time::utc_text;
use crate::json::JsonView;
use crate::json_text::json_text;
use crate::text::{decimal_text, int_text, joined};

verus! {

/// Whether a label stands in a receipt with a piece right behind it.
pub open spec fn says(receipt: Seq<PieceView>, label: Seq<char>, piece: PieceView) -> bool {
    exists|at: int|
        0 <= at && at + 1 < receipt.len() && #[trigger] receipt[at] == said(label) && receipt[at
            + 1] == piece
}

/// Whose receipt answers which method.
#[verifier::spinoff_prover]
#[verifier::rlimit(60)]
proof fn lemma_receipts(result: JsonView)
    ensures
        result_receipt("tell"@, result) == message_receipt("tell"@, result),
        result_receipt("ask"@, result) == message_receipt("ask"@, result),
        result_receipt("renew"@, result) == renew_receipt(result),
        result_receipt("clear"@, result) == clear_receipt(result),
        result_receipt("reply"@, result) == reply_receipt(result),
        result_receipt("whoami"@, result) == whoami_receipt(result),
        result_receipt("start"@, result) == start_receipt(result),
        result_receipt("adopt"@, result) == adopt_receipt(result),
        result_receipt("recover"@, result) == recover_receipt(result),
        result_receipt("attribution"@, result) == attribution_receipt(result),
        result_receipt("report"@, result) == report_receipt(result),
        result_receipt("name.info"@, result) == name_info_receipt(result),
        result_receipt("ask.info"@, result) == ask_info_receipt(result),
        result_receipt("waiter.register"@, result) == waiter_register_receipt(result),
        result_receipt("waiter.retire"@, result) == waiter_retire_receipt(result),
        result_receipt("rename"@, result) == rename_receipt(result),
        result_receipt("notice.create"@, result) == notice_receipt(result),
        result_receipt("cancel"@, result) == cancel_receipt(result),
        result_receipt("retire"@, result) == retire_receipt(result),
{
    reveal_strlit("tell");
    reveal_strlit("ask");
    reveal_strlit("renew");
    reveal_strlit("clear");
    reveal_strlit("reply");
    reveal_strlit("whoami");
    reveal_strlit("start");
    reveal_strlit("adopt");
    reveal_strlit("recover");
    reveal_strlit("attribution");
    reveal_strlit("report");
    reveal_strlit("name.info");
    reveal_strlit("ask.info");
    reveal_strlit("waiter.register");
    reveal_strlit("waiter.retire");
    reveal_strlit("rename");
    reveal_strlit("notice.create");
    reveal_strlit("cancel");
    reveal_strlit("retire");
    assert("tell"@.len() == 4);
    assert("ask"@.len() == 3);
    assert("renew"@.len() == 5);
    assert("clear"@.len() == 5);
    assert("reply"@.len() == 5);
    assert("whoami"@.len() == 6);
    assert("start"@.len() == 5);
    assert("adopt"@.len() == 5);
    assert("recover"@.len() == 7);
    assert("attribution"@.len() == 11);
    assert("report"@.len() == 6);
    assert("name.info"@.len() == 9);
    assert("ask.info"@.len() == 8);
    assert("waiter.register"@.len() == 15);
    assert("waiter.retire"@.len() == 13);
    assert("rename"@.len() == 6);
    assert("notice.create"@.len() == 13);
    assert("cancel"@.len() == 6);
    assert("retire"@.len() == 6);
    assert("renew"@[0] == 'r');
    assert("clear"@[0] == 'c');
    assert("renew"@[2] == 'n');
    assert("reply"@[2] == 'p');
    assert("start"@[0] == 's');
    assert("adopt"@[0] == 'a');
    assert("reply"@[0] == 'r');
    assert("whoami"@[0] == 'w');
    assert("report"@[0] == 'r');
    assert("rename"@[0] == 'r');
    assert("cancel"@[0] == 'c');
    assert("retire"@[0] == 'r');
    assert("report"@[2] == 'p');
    assert("rename"@[2] == 'n');
    assert("retire"@[2] == 't');
    assert("waiter.retire"@[0] == 'w');
    assert("notice.create"@[0] == 'n');
}

/// The receipt of a reply names the message, how it was delivered and what became of the obligation.
#[verifier::spinoff_prover]
#[verifier::rlimit(60)]
pub proof fn law_receipt_of_reply_says_its_parts(response: JsonView)
    requires
        response.given("error"@) is None,
    ensures
        ({
            let result = response.at("result"@);
            let receipt = receipt_of("reply"@, response);
            &&& says(
                receipt,
                "reply message="@,
                shown(result.at("message_id"@)),
            )
            &&& says(
                receipt,
                " delivery="@,
                shown(result.at("delivery_outcome"@)),
            )
            &&& says(
                receipt,
                " obligation="@,
                shown(result.at("obligation_state"@)),
            )
        }),
{
    let result = response.at("result"@);
    let receipt = receipt_of("reply"@, response);
    lemma_receipts(result);
    assert(receipt[0] == said("reply message="@));
    assert(receipt[2] == said(" delivery="@));
    assert(receipt[4] == said(" obligation="@));
}

/// The receipt of an identity names the name, the agent and the incarnation.
#[verifier::spinoff_prover]
#[verifier::rlimit(60)]
pub proof fn law_receipt_of_whoami_says_its_parts(response: JsonView)
    requires
        response.given("error"@) is None,
    ensures
        ({
            let result = response.at("result"@);
            let receipt = receipt_of("whoami"@, response);
            &&& says(
                receipt,
                "whoami name="@,
                shown(result.at("public_name"@)),
            )
            &&& says(
                receipt,
                " agent="@,
                shown(result.at("logical_agent_id"@)),
            )
            &&& says(
                receipt,
                " incarnation="@,
                shown(result.at("incarnation_id"@)),
            )
        }),
{
    let result = response.at("result"@);
    let receipt = receipt_of("whoami"@, response);
    lemma_receipts(result);
    assert(receipt[0] == said("whoami name="@));
    assert(receipt[2] == said(" agent="@));
    assert(receipt[4] == said(" incarnation="@));
}

/// The receipt of a start names the agent, its incarnation, how the runtime came up and what became of the first message.
#[verifier::spinoff_prover]
#[verifier::rlimit(60)]
pub proof fn law_receipt_of_start_says_its_parts(response: JsonView)
    requires
        response.given("error"@) is None,
    ensures
        ({
            let result = response.at("result"@);
            let receipt = receipt_of("start"@, response);
            &&& says(
                receipt,
                "start agent="@,
                shown(result.at("logical_agent_id"@)),
            )
            &&& says(
                receipt,
                " incarnation="@,
                shown(result.at("incarnation_id"@)),
            )
            &&& says(
                receipt,
                " runtime="@,
                shown(result.at("runtime_start"@).at("outcome"@)),
            )
            &&& says(
                receipt,
                " message="@,
                shown(result.at("initial_message"@).at("message_id"@)),
            )
            &&& says(
                receipt,
                " delivery="@,
                shown(result.at("initial_message"@).at("outcome"@)),
            )
        }),
{
    let result = response.at("result"@);
    let receipt = receipt_of("start"@, response);
    lemma_receipts(result);
    assert(receipt[0] == said("start agent="@));
    assert(receipt[2] == said(" incarnation="@));
    assert(receipt[4] == said(" runtime="@));
    assert(receipt[6] == said(" message="@));
    assert(receipt[8] == said(" delivery="@));
}

/// The receipt of an adoption names the agent, its incarnation and the outcome.
#[verifier::spinoff_prover]
#[verifier::rlimit(60)]
pub proof fn law_receipt_of_adopt_says_its_parts(response: JsonView)
    requires
        response.given("error"@) is None,
    ensures
        ({
            let result = response.at("result"@);
            let receipt = receipt_of("adopt"@, response);
            &&& says(
                receipt,
                "adopt agent="@,
                shown(result.at("logical_agent_id"@)),
            )
            &&& says(
                receipt,
                " incarnation="@,
                shown(result.at("incarnation_id"@)),
            )
            &&& says(
                receipt,
                " outcome="@,
                shown(result.at("outcome"@)),
            )
        }),
{
    let result = response.at("result"@);
    let receipt = receipt_of("adopt"@, response);
    lemma_receipts(result);
    assert(receipt[0] == said("adopt agent="@));
    assert(receipt[2] == said(" incarnation="@));
    assert(receipt[4] == said(" outcome="@));
}

/// The receipt of a recovery counts what was lost, what is unknown and what was started again.
#[verifier::spinoff_prover]
#[verifier::rlimit(60)]
pub proof fn law_receipt_of_recover_says_its_parts(response: JsonView)
    requires
        response.given("error"@) is None,
    ensures
        ({
            let result = response.at("result"@);
            let receipt = receipt_of("recover"@, response);
            &&& says(
                receipt,
                "recover lost="@,
                shown(result.at("incarnations_marked_lost"@)),
            )
            &&& says(
                receipt,
                " unknown="@,
                shown(result.at("outcomes_marked_unknown"@)),
            )
            &&& says(
                receipt,
                " starts="@,
                shown(result.at("starts_recovered"@)),
            )
        }),
{
    let result = response.at("result"@);
    let receipt = receipt_of("recover"@, response);
    lemma_receipts(result);
    assert(receipt[0] == said("recover lost="@));
    assert(receipt[2] == said(" unknown="@));
    assert(receipt[4] == said(" starts="@));
}

/// The receipt of a clear names the operation, whom it cleared and the outcome.
#[verifier::spinoff_prover]
#[verifier::rlimit(60)]
pub proof fn law_receipt_of_clear_says_its_parts(response: JsonView)
    requires
        response.given("error"@) is None,
    ensures
        ({
            let result = response.at("result"@);
            let receipt = receipt_of("clear"@, response);
            &&& says(
                receipt,
                "clear operation="@,
                shown(result.at("operation_id"@)),
            )
            &&& says(
                receipt,
                " recipient="@,
                shown(result.at("recipient"@)),
            )
            &&& says(
                receipt,
                " outcome="@,
                shown(result.at("outcome"@)),
            )
        }),
{
    let result = response.at("result"@);
    let receipt = receipt_of("clear"@, response);
    lemma_receipts(result);
    assert(receipt[0] == said("clear operation="@));
    assert(receipt[2] == said(" recipient="@));
    assert(receipt[4] == said(" outcome="@));
}

/// The receipt of a waiter names its agent and its name.
#[verifier::spinoff_prover]
#[verifier::rlimit(60)]
pub proof fn law_receipt_of_waiter_register_says_its_parts(response: JsonView)
    requires
        response.given("error"@) is None,
    ensures
        ({
            let result = response.at("result"@);
            let receipt = receipt_of("waiter.register"@, response);
            &&& says(
                receipt,
                "waiter-register agent="@,
                shown(result.at("logical_agent_id"@)),
            )
            &&& says(
                receipt,
                " name="@,
                shown(result.at("public_name"@)),
            )
        }),
{
    let result = response.at("result"@);
    let receipt = receipt_of("waiter.register"@, response);
    lemma_receipts(result);
    assert(receipt[0] == said("waiter-register agent="@));
    assert(receipt[2] == said(" name="@));
}

/// The receipt of a rename names the name, the agent and the incarnation.
#[verifier::spinoff_prover]
#[verifier::rlimit(60)]
pub proof fn law_receipt_of_rename_says_its_parts(response: JsonView)
    requires
        response.given("error"@) is None,
    ensures
        ({
            let result = response.at("result"@);
            let receipt = receipt_of("rename"@, response);
            &&& says(
                receipt,
                "rename name="@,
                shown(result.at("public_name"@)),
            )
            &&& says(
                receipt,
                " agent="@,
                shown(result.at("logical_agent_id"@)),
            )
            &&& says(
                receipt,
                " incarnation="@,
                shown(result.at("incarnation_id"@)),
            )
        }),
{
    let result = response.at("result"@);
    let receipt = receipt_of("rename"@, response);
    lemma_receipts(result);
    assert(receipt[0] == said("rename name="@));
    assert(receipt[2] == said(" agent="@));
    assert(receipt[4] == said(" incarnation="@));
}

/// The receipt of a notice names the notice.
#[verifier::spinoff_prover]
#[verifier::rlimit(60)]
pub proof fn law_receipt_of_notice_says_its_parts(response: JsonView)
    requires
        response.given("error"@) is None,
    ensures
        ({
            let result = response.at("result"@);
            let receipt = receipt_of("notice.create"@, response);
            &&& says(
                receipt,
                "notice "@,
                shown(result.at("notice_id"@)),
            )
        }),
{
    let result = response.at("result"@);
    let receipt = receipt_of("notice.create"@, response);
    lemma_receipts(result);
    assert(receipt[0] == said("notice "@));
}

/// The receipt of a retirement names the operation and says whether the pane was released.
#[verifier::spinoff_prover]
#[verifier::rlimit(60)]
pub proof fn law_receipt_of_retire_says_its_parts(response: JsonView)
    requires
        response.given("error"@) is None,
    ensures
        ({
            let result = response.at("result"@);
            let receipt = receipt_of("retire"@, response);
            &&& says(
                receipt,
                "retire operation="@,
                shown(result.at("operation_id"@)),
            )
            &&& says(
                receipt,
                " pane-released="@,
                shown(result.at("pane_released"@)),
            )
        }),
{
    let result = response.at("result"@);
    let receipt = receipt_of("retire"@, response);
    lemma_receipts(result);
    assert(receipt[0] == said("retire operation="@));
    assert(receipt[2] == said(" pane-released="@));
}

/// The receipt of a renew names the renew, whom it renews, its phase and what a timeout does.
#[verifier::spinoff_prover]
#[verifier::rlimit(60)]
pub proof fn law_receipt_of_renew_says_its_parts(response: JsonView)
    requires
        response.given("error"@) is None,
    ensures
        ({
            let result = response.at("result"@);
            let receipt = receipt_of("renew"@, response);
            &&& says(
                receipt,
                "renew "@,
                shown(result.at("renew_id"@)),
            )
            &&& says(
                receipt,
                " recipient="@,
                shown(result.at("recipient"@)),
            )
            &&& says(
                receipt,
                " phase="@,
                shown(result.at("phase"@)),
            )
            &&& says(
                receipt,
                " on-timeout="@,
                shown(result.at("on_timeout"@)),
            )
        }),
{
    let result = response.at("result"@);
    let receipt = receipt_of("renew"@, response);
    lemma_receipts(result);
    assert(receipt[0] == said("renew "@));
    assert(receipt[2] == said(" recipient="@));
    assert(receipt[4] == said(" phase="@));
    assert(receipt[6] == said(" on-timeout="@));
}

/// The receipt of a renew that comes again says how often.
#[verifier::spinoff_prover]
#[verifier::rlimit(60)]
pub proof fn law_renew_with_an_interval_says_it(response: JsonView)
    requires
        response.given("error"@) is None,
        response.at("result"@).at("every_ms"@) is Number,
    ensures
        ({
            let result = response.at("result"@);
            let receipt = receipt_of("renew"@, response);
            &&& says(
                receipt,
                " every="@,
                shown(result.at("every_ms"@)),
            )
        }),
{
    let result = response.at("result"@);
    let receipt = receipt_of("renew"@, response);
    lemma_receipts(result);
    assert(receipt[8] == said(" every="@));
}

/// The receipt of a renew that comes once says when.
#[verifier::spinoff_prover]
#[verifier::rlimit(60)]
pub proof fn law_renew_without_an_interval_says_when(response: JsonView)
    requires
        response.given("error"@) is None,
        response.at("result"@).at("every_ms"@) !is Number,
    ensures
        ({
            let result = response.at("result"@);
            let receipt = receipt_of("renew"@, response);
            &&& says(
                receipt,
                " due="@,
                shown(result.at("scheduled_at_ms"@)),
            )
        }),
{
    let result = response.at("result"@);
    let receipt = receipt_of("renew"@, response);
    lemma_receipts(result);
    assert(receipt[8] == said(" due="@));
}

/// The receipt of a tell names the message, the operation, whom it is for and how it was delivered.
#[verifier::spinoff_prover]
#[verifier::rlimit(60)]
pub proof fn law_receipt_of_tell_says_its_parts(response: JsonView)
    requires
        response.given("error"@) is None,
    ensures
        ({
            let result = response.at("result"@);
            let receipt = receipt_of("tell"@, response);
            &&& says(
                receipt,
                " message="@,
                shown(result.at("message_id"@)),
            )
            &&& says(
                receipt,
                " operation="@,
                shown(result.at("operation_id"@)),
            )
            &&& says(
                receipt,
                " recipient="@,
                shown(result.at("recipient"@)),
            )
            &&& says(
                receipt,
                " delivery="@,
                shown(result.at("delivery_outcome"@)),
            )
        }),
{
    let result = response.at("result"@);
    let receipt = receipt_of("tell"@, response);
    lemma_receipts(result);
    assert(receipt[1] == said(" message="@));
    assert(receipt[3] == said(" operation="@));
    assert(receipt[5] == said(" recipient="@));
    assert(receipt[7] == said(" delivery="@));
}

/// The receipt of an ask names the message, the operation, whom it is for and how it was delivered.
#[verifier::spinoff_prover]
#[verifier::rlimit(60)]
pub proof fn law_receipt_of_ask_says_its_parts(response: JsonView)
    requires
        response.given("error"@) is None,
    ensures
        ({
            let result = response.at("result"@);
            let receipt = receipt_of("ask"@, response);
            &&& says(
                receipt,
                " message="@,
                shown(result.at("message_id"@)),
            )
            &&& says(
                receipt,
                " operation="@,
                shown(result.at("operation_id"@)),
            )
            &&& says(
                receipt,
                " recipient="@,
                shown(result.at("recipient"@)),
            )
            &&& says(
                receipt,
                " delivery="@,
                shown(result.at("delivery_outcome"@)),
            )
        }),
{
    let result = response.at("result"@);
    let receipt = receipt_of("ask"@, response);
    lemma_receipts(result);
    assert(receipt[1] == said(" message="@));
    assert(receipt[3] == said(" operation="@));
    assert(receipt[5] == said(" recipient="@));
    assert(receipt[7] == said(" delivery="@));
}

/// The receipt of a message that waits says until when.
#[verifier::spinoff_prover]
#[verifier::rlimit(60)]
pub proof fn law_postponed_message_says_when(response: JsonView)
    requires
        response.given("error"@) is None,
        response.at("result"@).at("due_at_ms"@).as_i64() is Some,
    ensures
        ({
            let result = response.at("result"@);
            let receipt = receipt_of("tell"@, response);
            &&& says(
                receipt,
                " NOT-SENT-UNTIL="@,
                said(utc_text(result.at("due_at_ms"@).as_i64()->0 as int)),
            )
            &&& says(
                receipt,
                " due-at-ms="@,
                said(int_text(result.at("due_at_ms"@).as_i64()->0 as int)),
            )
        }),
{
    let result = response.at("result"@);
    let receipt = receipt_of("tell"@, response);
    lemma_receipts(result);
    assert(receipt[9] == said(" NOT-SENT-UNTIL="@));
    assert(receipt[11] == said(" due-at-ms="@));
}

/// The receipt of an ask that is reminded of says after how long.
#[verifier::spinoff_prover]
#[verifier::rlimit(60)]
pub proof fn law_reminded_ask_says_how_often(response: JsonView)
    requires
        response.given("error"@) is None,
        response.at("result"@).at("due_at_ms"@).as_i64() is None,
        response.at("result"@).at("remind_after_ms"@) is Number,
    ensures
        ({
            let result = response.at("result"@);
            let receipt = receipt_of("ask"@, response);
            &&& says(
                receipt,
                " reminder="@,
                shown(result.at("remind_after_ms"@)),
            )
        }),
{
    let result = response.at("result"@);
    let receipt = receipt_of("ask"@, response);
    lemma_receipts(result);
    assert(receipt[9] == said(" reminder="@));
}

/// The receipt of a cancellation names the state and what both parties were told.
#[verifier::spinoff_prover]
#[verifier::rlimit(60)]
pub proof fn law_receipt_of_cancel_says_its_parts(response: JsonView)
    requires
        response.given("error"@) is None,
    ensures
        ({
            let result = response.at("result"@);
            let receipt = receipt_of("cancel"@, response);
            &&& says(
                receipt,
                "cancel state="@,
                shown(result.at("state"@)),
            )
            &&& says(
                receipt,
                " response="@,
                shown(result.at("response"@)),
            )
            &&& says(
                receipt,
                " owing-response="@,
                shown(result.at("owing_response"@)),
            )
        }),
{
    let result = response.at("result"@);
    let receipt = receipt_of("cancel"@, response);
    lemma_receipts(result);
    assert(receipt[0] == said("cancel state="@));
    assert(receipt[2] == said(" response="@));
    let k: int = if result.at("message_id"@).as_text() is Some {
        6
    } else {
        4
    };
    assert(receipt[k] == said(" owing-response="@));
}

/// The receipt of a cancellation that told the asker names the message.
#[verifier::spinoff_prover]
#[verifier::rlimit(60)]
pub proof fn law_cancel_names_the_message(response: JsonView)
    requires
        response.given("error"@) is None,
        response.at("result"@).at("message_id"@).as_text() is Some,
    ensures
        ({
            let result = response.at("result"@);
            let receipt = receipt_of("cancel"@, response);
            &&& says(
                receipt,
                " message="@,
                said(result.at("message_id"@).as_text()->0),
            )
        }),
{
    let result = response.at("result"@);
    let receipt = receipt_of("cancel"@, response);
    lemma_receipts(result);
    assert(receipt[4] == said(" message="@));
}

/// The receipt of a cancellation that told the one who owed names the message.
#[verifier::spinoff_prover]
#[verifier::rlimit(60)]
pub proof fn law_cancel_names_the_owing_message(response: JsonView)
    requires
        response.given("error"@) is None,
        response.at("result"@).at("owing_message_id"@).as_text() is Some,
    ensures
        ({
            let result = response.at("result"@);
            let receipt = receipt_of("cancel"@, response);
            &&& says(
                receipt,
                " owing-message="@,
                said(result.at("owing_message_id"@).as_text()->0),
            )
        }),
{
    let result = response.at("result"@);
    let receipt = receipt_of("cancel"@, response);
    lemma_receipts(result);
    let k: int = if result.at("message_id"@).as_text() is Some {
        8
    } else {
        6
    };
    assert(receipt[k] == said(" owing-message="@));
}

/// The receipt of an attribution names the agent and what was asked for.
#[verifier::spinoff_prover]
#[verifier::rlimit(60)]
pub proof fn law_receipt_of_attribution_says_its_parts(response: JsonView)
    requires
        response.given("error"@) is None,
    ensures
        ({
            let result = response.at("result"@);
            let receipt = receipt_of("attribution"@, response);
            &&& says(
                receipt,
                "attribution name="@,
                shown(result.at("public_name"@)),
            )
            &&& says(
                receipt,
                " agent="@,
                shown(result.at("logical_agent_id"@)),
            )
            &&& says(
                receipt,
                " incarnation="@,
                shown(result.at("incarnation_id"@)),
            )
            &&& says(
                receipt,
                " backend="@,
                shown(result.at("backend_kind"@)),
            )
            &&& says(
                receipt,
                " state="@,
                shown(result.at("incarnation_state"@)),
            )
            &&& says(
                receipt,
                "\nrequested model="@,
                shown(result.at("requested"@).at("model"@)),
            )
            &&& says(
                receipt,
                " provider="@,
                shown(result.at("requested"@).at("provider"@)),
            )
            &&& says(
                receipt,
                " effort="@,
                shown(result.at("requested"@).at("effort"@)),
            )
        }),
{
    let result = response.at("result"@);
    let receipt = receipt_of("attribution"@, response);
    lemma_receipts(result);
    assert(receipt[0] == said("attribution name="@));
    assert(receipt[2] == said(" agent="@));
    assert(receipt[4] == said(" incarnation="@));
    assert(receipt[6] == said(" backend="@));
    assert(receipt[8] == said(" state="@));
    assert(receipt[10] == said("\nrequested model="@));
    assert(receipt[12] == said(" provider="@));
    assert(receipt[14] == said(" effort="@));
}

/// The receipt of an attribution with an observation says what was observed.
#[verifier::spinoff_prover]
#[verifier::rlimit(60)]
pub proof fn law_attribution_says_what_was_observed(response: JsonView)
    requires
        response.given("error"@) is None,
        response.at("result"@).given("observed"@) is Some,
    ensures
        ({
            let result = response.at("result"@);
            let receipt = receipt_of("attribution"@, response);
            &&& says(
                receipt,
                "observed adapter="@,
                shown(result.at("observed"@).at("adapter"@)),
            )
            &&& says(
                receipt,
                " model="@,
                said(observed_text(result.at("observed"@), "model"@)),
            )
            &&& says(
                receipt,
                " provider="@,
                said(observed_text(result.at("observed"@), "provider"@)),
            )
            &&& says(
                receipt,
                " effort="@,
                said(observed_text(result.at("observed"@), "effort"@)),
            )
            &&& says(
                receipt,
                " recorded-at-ms="@,
                shown(result.at("observed"@).at("recorded_at_ms"@)),
            )
        }),
{
    let result = response.at("result"@);
    let receipt = receipt_of("attribution"@, response);
    lemma_receipts(result);
    assert(receipt[19] == said("observed adapter="@));
    assert(receipt[21] == said(" model="@));
    assert(receipt[23] == said(" provider="@));
    assert(receipt[25] == said(" effort="@));
    assert(receipt[27] == said(" recorded-at-ms="@));
}

/// The receipt of a waiter that retired names it, the asks that were cancelled, and how many were told of it.
#[verifier::spinoff_prover]
#[verifier::rlimit(60)]
pub proof fn law_receipt_of_waiter_retire_says_its_parts(response: JsonView)
    requires
        response.given("error"@) is None,
    ensures
        ({
            let result = response.at("result"@);
            let receipt = receipt_of("waiter.retire"@, response);
            &&& says(
                receipt,
                "waiter-retire agent="@,
                shown(result.at("logical_agent_id"@)),
            )
            &&& says(
                receipt,
                " targeting-ended="@,
                shown(result.at("targeting_ended"@)),
            )
            &&& says(
                receipt,
                " cancelled-asks="@,
                said(cancelled_text(result.at("cancelled_ask_ids"@).items())),
            )
            &&& says(
                receipt,
                " owing-delivered="@,
                said(decimal_text(delivered_count(result.at("owing_notices"@).items()))),
            )
            &&& says(
                receipt,
                " owing-recorded="@,
                said(
                    decimal_text(
                        (result.at("owing_notices"@).items().len() - delivered_count(
                            result.at("owing_notices"@).items(),
                        )) as nat,
                    ),
                ),
            )
        }),
{
    let result = response.at("result"@);
    let receipt = receipt_of("waiter.retire"@, response);
    lemma_receipts(result);
    assert(receipt[0] == said("waiter-retire agent="@));
    assert(receipt[2] == said(" targeting-ended="@));
    assert(receipt[4] == said(" cancelled-asks="@));
    assert(receipt[6] == said(" owing-delivered="@));
    assert(receipt[8] == said(" owing-recorded="@));
}

/// What is told of an ask names it, its state, who asked, who answers, and when.
#[verifier::spinoff_prover]
#[verifier::rlimit(60)]
pub proof fn law_receipt_of_ask_info_says_its_parts(response: JsonView)
    requires
        response.given("error"@) is None,
    ensures
        ({
            let result = response.at("result"@);
            let receipt = receipt_of("ask.info"@, response);
            &&& says(
                receipt,
                "ask-info "@,
                shown(result.at("ask_message_id"@)),
            )
            &&& says(
                receipt,
                " state="@,
                shown(result.at("state"@)),
            )
            &&& says(
                receipt,
                "\n  asked-by "@,
                said(text_or(result.at("asker"@), "name"@, "?"@)),
            )
            &&& says(
                receipt,
                ")\n  responder "@,
                said(text_or(result.at("responder"@), "name"@, "?"@)),
            )
            &&& says(
                receipt,
                ")\n  created="@,
                said(moment(result, "created_at_ms"@)),
            )
            &&& says(
                receipt,
                " last-activity="@,
                said(moment(result, "last_activity_at_ms"@)),
            )
        }),
{
    let result = response.at("result"@);
    let receipt = receipt_of("ask.info"@, response);
    lemma_receipts(result);
    assert(receipt[0] == said("ask-info "@));
    assert(receipt[2] == said(" state="@));
    assert(receipt[4] == said("\n  asked-by "@));
    assert(receipt[8] == said(")\n  responder "@));
    assert(receipt[12] == said(")\n  created="@));
    assert(receipt[14] == said(" last-activity="@));
}

/// Behind the name of who asked, and of who answers, stands the agent.
#[verifier::spinoff_prover]
#[verifier::rlimit(60)]
pub proof fn law_ask_info_names_the_agents(response: JsonView)
    requires
        response.given("error"@) is None,
    ensures
        ({
            let result = response.at("result"@);
            let receipt = receipt_of("ask.info"@, response);
            &&& receipt[7] == said(text_or(result.at("asker"@), "agent_id"@, "?"@))
            &&& receipt[11] == said(text_or(result.at("responder"@), "agent_id"@, "?"@))
            &&& receipt[receipt.len() - 2] == shown(result.at("body"@))
        }),
{
    let result = response.at("result"@);
    let receipt = receipt_of("ask.info"@, response);
    lemma_receipts(result);
}

/// What is told of a name says it, and how many claim it.
#[verifier::spinoff_prover]
#[verifier::rlimit(60)]
pub proof fn law_name_info_says_its_counts(response: JsonView)
    requires
        response.given("error"@) is None,
    ensures
        ({
            let result = response.at("result"@);
            let receipt = receipt_of("name.info"@, response);
            &&& says(
                receipt,
                "name-info "@,
                said(text_or(result, "name"@, "?"@)),
            )
            &&& says(
                receipt,
                " claimants="@,
                said(decimal_text(result.at("claimants"@).items().len())),
            )
        }),
{
    let result = response.at("result"@);
    let receipt = receipt_of("name.info"@, response);
    lemma_receipts(result);
    assert(receipt[0] == said("name-info "@));
    assert(receipt[2] == said(" claimants="@));
}

/// The line of a claimant names it, when it came, how it stands, how it is reached and how
/// much it owes.
#[verifier::spinoff_prover]
#[verifier::rlimit(60)]
pub proof fn law_claimant_says_its_parts(claimant: JsonView)
    ensures
        ({
            let line = claimant_line(claimant);
            &&& says(line, "\n  "@, said(text_or(claimant, "logical_agent_id"@, "?"@)))
            &&& says(line, " created="@, said(moment(claimant, "created_at_ms"@)))
            &&& says(line, " transport="@, said(text_or(claimant, "delivery_transport"@, "herdr_prompt"@)))
            &&& claimant.at("unresolved_count"@).as_i64() matches Some(n) ==> says(
                line,
                " unresolved="@,
                said(int_text(n as int)),
            )
        }),
{
    let line = claimant_line(claimant);
    assert(line[0] == said("\n  "@));
    assert(line[2] == said(" created="@));
    assert(line[6] == said(" transport="@));
    assert(line[8] == said(" unresolved="@));
}

/// A claimant in a pane is live where it says so; one that waits on a socket is active as
/// long as it can be addressed.
#[verifier::spinoff_prover]
#[verifier::rlimit(60)]
pub proof fn law_claimant_stands_as_it_says(claimant: JsonView, live: bool)
    requires
        claimant.at("live"@).as_bool() == Some(live),
    ensures
        claimant.at("delivery_transport"@).as_text() == Some("herdr_prompt"@) ==> claimant_state(
            claimant,
        ) == if live {
            "live"@
        } else {
            "not-live"@
        },
        claimant.at("delivery_transport"@).as_text() == Some("socket_inbox"@)
            ==> (claimant.at("addressable"@).as_bool() == Some(true) ==> claimant_state(claimant)
            == "active-waiter"@) && (claimant.at("addressable"@).as_bool() == Some(false)
            ==> claimant_state(claimant) == "retired-waiter"@) && (
        claimant.at("addressable"@).as_bool() is None ==> claimant_state(claimant) == if live {
            "active-waiter"@
        } else {
            "retired-waiter"@
        }),
{
    reveal_strlit("herdr_prompt");
    reveal_strlit("socket_inbox");
    assert("herdr_prompt"@[0] == 'h');
    assert("socket_inbox"@[0] == 's');
}

/// The lines of an obligation name the ask, its state, when it moved, and both parties: who
/// asked first, who answers behind.
#[verifier::spinoff_prover]
#[verifier::rlimit(60)]
pub proof fn law_unresolved_says_its_parts(obligation: JsonView)
    ensures
        ({
            let line = unresolved_line(obligation);
            let asker = obligation.at("asker"@);
            let responder = obligation.at("responder"@);
            &&& says(line, "\n  ask "@, said(text_or(obligation, "ask_message_id"@, "?"@)))
            &&& says(line, " state="@, said(text_or(obligation, "state"@, "?"@)))
            &&& says(line, " created="@, said(moment(obligation, "created_at_ms"@)))
            &&& says(line, " last-activity="@, said(moment(obligation, "last_activity_at_ms"@)))
            &&& says(line, "\n    asker "@, said(text_or(asker, "name"@, "?"@)))
            &&& line[11] == said(text_or(asker, "agent_id"@, "?"@))
            &&& says(line, "\n    responder "@, said(text_or(responder, "name"@, "?"@)))
            &&& line[18] == said(text_or(responder, "agent_id"@, "?"@))
        }),
{
    let line = unresolved_line(obligation);
    assert(line[0] == said("\n  ask "@));
    assert(line[2] == said(" state="@));
    assert(line[4] == said(" created="@));
    assert(line[6] == said(" last-activity="@));
    assert(line[8] == said("\n    asker "@));
    assert(line[15] == said("\n    responder "@));
}

/// A party is said to be live exactly where it says so itself.
#[verifier::spinoff_prover]
pub proof fn law_party_is_live_as_it_says(party: JsonView)
    ensures
        party.at("live"@) == JsonView::Bool(true) ==> says(party_pieces(party), ", "@, said("live"@)),
        party.at("live"@) != JsonView::Bool(true) ==> says(
            party_pieces(party),
            ", "@,
            said("not-live"@),
        ),
{
    assert(party_pieces(party)[3] == said(", "@));
}

/// A refused request is answered with its method, the class of the refusal and what explains
/// it, whatever else the response holds.
#[verifier::spinoff_prover]
pub proof fn law_error_receipt_says_its_parts(method: Seq<char>, response: JsonView, error: JsonView)
    requires
        response.given("error"@) == Some(error),
    ensures
        receipt_of(method, response)[0] == said(method),
        error.at("class"@) matches JsonView::Text(class) ==> says(
            receipt_of(method, response),
            " error class="@,
            said(class),
        ),
        error.at("message"@) matches JsonView::Text(message) ==> says(
            receipt_of(method, response),
            " message="@,
            said(message),
        ),
{
    let receipt = receipt_of(method, response);
    assert(receipt[1] == said(" error class="@));
    assert(receipt[3] == said(" message="@));
}

/// An observed part is the value that was reported, and where none was, how it stands.
#[verifier::spinoff_prover]
pub proof fn law_observed_part_is_its_value(observation: JsonView, name: Seq<char>)
    ensures
        observation.at(name).at("status"@) == JsonView::Text("reported"@) ==> (observation.at(
            name,
        ).at("value"@) matches JsonView::Text(value) ==> observed_text(observation, name) == value),
        observation.at(name).at("status"@) matches JsonView::Text(status) ==> status
            != "reported"@ ==> observed_text(observation, name) == status,
{
}

/// Text is shown as it is, whatever it holds; what is absent is shown as a dash; a truth value
/// by its word; a list or an object as it is written.
#[verifier::spinoff_prover]
pub proof fn law_values_are_shown_as_they_are(value: JsonView)
    ensures
        value matches JsonView::Text(text) ==> piece_text(shown(value)) == text,
        value is Null ==> piece_text(shown(value)) == "-"@,
        value == JsonView::Bool(true) ==> piece_text(shown(value)) == "true"@,
        value == JsonView::Bool(false) ==> piece_text(shown(value)) == "false"@,
        value is List || value is Object ==> piece_text(shown(value)) == json_text(value),
{
}

/// The pieces of a receipt are printed from left to right, with nothing between them.
pub proof fn law_pieces_are_printed_in_order(first: Seq<PieceView>, rest: Seq<PieceView>)
    ensures
        pieces_text(first + rest) == pieces_text(first) + pieces_text(rest),
        forall|piece: PieceView| #[trigger] pieces_text(seq![piece]) == piece_text(piece),
    decreases rest.len(),
{
    assert forall|piece: PieceView| #[trigger] pieces_text(seq![piece]) == piece_text(piece) by {
        assert(seq![piece].drop_last() =~= Seq::empty());
        assert(pieces_text(Seq::empty()) =~= Seq::empty());
        assert(Seq::<char>::empty() + piece_text(piece) =~= piece_text(piece));
    }
    if rest.len() == 0 {
        assert(first + rest =~= first);
        assert(pieces_text(first) + pieces_text(rest) =~= pieces_text(first));
    } else {
        law_pieces_are_printed_in_order(first, rest.drop_last());
        assert((first + rest).drop_last() =~= first + rest.drop_last());
        assert(pieces_text(first + rest) =~= pieces_text(first) + pieces_text(rest));
    }
}

/// A moment is shown as the time that the field holds, and as a question mark where it holds none.
#[verifier::spinoff_prover]
pub proof fn law_moment_is_the_time_of_its_field(value: JsonView, name: Seq<char>)
    ensures
        value.at(name).as_i64() matches Some(ms) ==> moment(value, name) == utc_text(ms as int),
        value.at(name).as_i64() is None ==> moment(value, name) == "?"@,
{
}

/// A text is shown as the field holds it, and as its default where the field holds none.
#[verifier::spinoff_prover]
pub proof fn law_text_is_that_of_its_field(value: JsonView, name: Seq<char>, default: Seq<char>)
    ensures
        value.at(name) matches JsonView::Text(text) ==> text_or(value, name, default) == text,
        value.at(name) !is Text ==> text_or(value, name, default) == default,
{
}

/// The notices that count as delivered are those that say so.
#[verifier::spinoff_prover]
pub proof fn law_delivered_notices_are_counted(notices: Seq<JsonView>)
    ensures
        delivered_count(notices) == notices.filter(
            |notice: JsonView| notice.at("owing_response"@) == JsonView::Text("delivered"@),
        ).len(),
        delivered_count(notices) <= notices.len(),
    decreases notices.len(),
{
    reveal(Seq::filter);
    if notices.len() > 0 {
        law_delivered_notices_are_counted(notices.drop_last());
    }
}

/// The asks that were cancelled are listed with commas, and as none where there are none.
#[verifier::spinoff_prover]
pub proof fn law_cancelled_asks_are_listed(first: Seq<char>, second: Seq<char>)
    requires
        first.len() > 0,
    ensures
        cancelled_text(Seq::empty()) == "none"@,
        cancelled_text(seq![JsonView::Text(first)]) == first,
        cancelled_text(seq![JsonView::Text(first), JsonView::Text(second)]) == first + ","@
            + second,
{
    let one = seq![JsonView::Text(first)];
    let two = seq![JsonView::Text(first), JsonView::Text(second)];
    assert(one.drop_last() =~= Seq::empty());
    assert(two.drop_last() =~= one);
    assert(texts_among(Seq::empty()) =~= Seq::empty());
    assert(texts_among(one) =~= seq![first]);
    assert(texts_among(two) =~= seq![first, second]);
    assert(seq![first, second].drop_last() =~= seq![first]);
    assert(joined(seq![first], ","@) =~= first);
    assert(joined(seq![first, second], ","@) =~= first + ","@ + second);
    assert(joined(Seq::empty(), ","@) =~= Seq::empty());
}

} // verus!
