//! Durable coordination state: identifiers, lifecycle states and intents.

use vstd::arithmetic::power::pow;
use vstd::prelude::*;

use crate::text::{decimal, decimal_text};

verus! {

/// The value of a hexadecimal digit of either case.
pub open spec fn hex_value(c: char) -> int {
    if '0' <= c <= '9' {
        c as int - '0' as int
    } else if 'a' <= c <= 'f' {
        c as int - 'a' as int + 10
    } else {
        c as int - 'A' as int + 10
    }
}

/// Whether every character is a hexadecimal digit of either case.
pub open spec fn all_hex(s: Seq<char>) -> bool {
    forall|i: int|
        0 <= i < s.len() ==> ('0' <= #[trigger] s[i] <= '9' || 'a' <= s[i] <= 'f' || 'A' <= s[i]
            <= 'F')
}

/// The number that hexadecimal digits denote.
pub open spec fn hex_number(s: Seq<char>) -> nat
    decreases s.len(),
{
    if s.len() == 0 {
        0
    } else {
        hex_number(s.drop_last()) * 16 + hex_value(s.last()) as nat
    }
}

/// The lower-case hexadecimal digit of a value below sixteen.
pub open spec fn hex_char(d: int) -> char {
    if d < 10 {
        ('0' as int + d) as char
    } else {
        ('a' as int + d - 10) as char
    }
}

/// The last `width` hexadecimal digits of a number, in lower case.
pub open spec fn hex_text(n: nat, width: nat) -> Seq<char>
    decreases width,
{
    if width == 0 {
        Seq::empty()
    } else {
        hex_text(n / 16, (width - 1) as nat).push(hex_char((n % 16) as int))
    }
}

/// The hyphenated form of a UUID: 32 lower-case hexadecimal digits in groups of
/// eight, four, four, four and twelve.
pub open spec fn uuid_text(n: nat) -> Seq<char> {
    let h = hex_text(n, 32);
    h.subrange(0, 8) + seq!['-'] + h.subrange(8, 12) + seq!['-'] + h.subrange(12, 16) + seq!['-']
        + h.subrange(16, 20) + seq!['-'] + h.subrange(20, 32)
}

/// The digits of a hyphenated UUID, without its hyphens.
pub open spec fn unhyphenated(s: Seq<char>) -> Seq<char> {
    s.subrange(0, 8) + s.subrange(9, 13) + s.subrange(14, 18) + s.subrange(19, 23) + s.subrange(
        24,
        36,
    )
}

/// Whether a text is a hyphenated UUID.
pub open spec fn is_hyphenated(s: Seq<char>) -> bool {
    s.len() == 36 && s[8] == '-' && s[13] == '-' && s[18] == '-' && s[23] == '-' && all_hex(
        unhyphenated(s),
    )
}

/// Whether a character is that lower-case letter, in either case.
pub open spec fn letter(c: char, lower: char) -> bool {
    c == lower || c as int == lower as int - 32
}

/// Whether a text starts with `urn:uuid:`, its letters in either case.
pub open spec fn has_urn_prefix(s: Seq<char>) -> bool {
    s.len() >= 9 && letter(s[0], 'u') && letter(s[1], 'r') && letter(s[2], 'n') && s[3] == ':'
        && letter(s[4], 'u') && letter(s[5], 'u') && letter(s[6], 'i') && letter(s[7], 'd') && s[8]
        == ':'
}

/// The UUID that a text denotes, if any: 32 hexadecimal digits, or the
/// hyphenated form, bare, in braces or after `urn:uuid:`.
pub open spec fn uuid_of(s: Seq<char>) -> Option<u128> {
    let body = if s.len() == 38 && s[0] == '{' && s[37] == '}' {
        s.subrange(1, 37)
    } else if s.len() == 45 && has_urn_prefix(s) {
        s.subrange(9, 45)
    } else {
        s
    };
    if s.len() == 32 && all_hex(s) {
        Some(hex_number(s) as u128)
    } else if is_hyphenated(body) {
        Some(hex_number(unhyphenated(body)) as u128)
    } else {
        None
    }
}

/// Whether an identifier bears the marks of a time-ordered one: version 7 in its
/// thirteenth hexadecimal digit, and the RFC variant in the top two bits of its
/// seventeenth.
pub open spec fn is_time_ordered(value: u128) -> bool {
    &&& (value / 0x1000_0000_0000_0000_0000u128) % 16 == 7
    &&& (value / 0x4000_0000_0000_0000u128) % 4 == 2
}

/// `uuid::Uuid::now_v7`: a fresh time-ordered identifier. Its version and its variant
/// are claimed; the rest of its value rests on the clock and on chance.
#[verifier::external_body]
fn fresh_uuid() -> (value: u128)
    ensures
        is_time_ordered(value),
{
    uuid::Uuid::now_v7().as_u128()
}

/// `uuid::Uuid::parse_str`: the identifier that the text denotes in one of the
/// accepted forms, or nothing for any other text.
#[verifier::external_body]
fn parse_uuid(text: &str) -> (value: Option<u128>)
    ensures
        value == uuid_of(text@),
{
    uuid::Uuid::parse_str(text).ok().map(|value| value.as_u128())
}

/// The `Display` text of a `uuid::Uuid`: the hyphenated form in lower case.
#[verifier::external_body]
fn show_uuid(value: u128) -> (text: String)
    ensures
        text@ == uuid_text(value as nat),
{
    uuid::Uuid::from_u128(value).to_string()
}

/// The text of a fresh identifier: the hyphenated form of some time-ordered UUID.
pub fn fresh_id_text() -> (text: String)
    ensures
        exists|n: u128| is_time_ordered(n) && text@ == #[trigger] uuid_text(n as nat),
{
    let value: u128 = fresh_uuid();
    show_uuid(value)
}

proof fn lemma_hex_text(n: nat, width: nat)
    ensures
        hex_text(n, width).len() == width,
        all_hex(hex_text(n, width)),
        n < pow(16, width) ==> hex_number(hex_text(n, width)) == n,
    decreases width,
{
    if width == 0 {
        vstd::arithmetic::power::lemma_pow0(16);
    } else {
        let before = (width - 1) as nat;
        lemma_hex_text(n / 16, before);
        let s = hex_text(n, width);
        assert(s.drop_last() =~= hex_text(n / 16, before));
        vstd::arithmetic::power::lemma_pow1(16);
        vstd::arithmetic::power::lemma_pow_adds(16, before, 1);
        if n < pow(16, width) {
            assert(n / 16 < pow(16, before)) by (nonlinear_arith)
                requires
                    n < pow(16, before) * 16,
            ;
        }
        assert forall|i: int| 0 <= i < s.len() implies ('0' <= #[trigger] s[i] <= '9' || 'a' <= s[i]
            <= 'f' || 'A' <= s[i] <= 'F') by {
            if i < before {
                assert(s[i] == hex_text(n / 16, before)[i]);
            }
        }
    }
}

proof fn lemma_u128_bound()
    ensures
        pow(16, 32) == 0x1_0000_0000_0000_0000_0000_0000_0000_0000,
{
    vstd::arithmetic::power::lemma_pow1(16);
    vstd::arithmetic::power::lemma_pow_adds(16, 1, 1);
    assert(pow(16, 2) == 0x100) by (nonlinear_arith)
        requires
            pow(16, 2) == pow(16, 1) * pow(16, 1),
            pow(16, 1) == 16,
    ;
    vstd::arithmetic::power::lemma_pow_adds(16, 2, 2);
    assert(pow(16, 4) == 0x1_0000) by (nonlinear_arith)
        requires
            pow(16, 4) == pow(16, 2) * pow(16, 2),
            pow(16, 2) == 0x100,
    ;
    vstd::arithmetic::power::lemma_pow_adds(16, 4, 4);
    assert(pow(16, 8) == 0x1_0000_0000) by (nonlinear_arith)
        requires
            pow(16, 8) == pow(16, 4) * pow(16, 4),
            pow(16, 4) == 0x1_0000,
    ;
    vstd::arithmetic::power::lemma_pow_adds(16, 8, 8);
    assert(pow(16, 16) == 0x1_0000_0000_0000_0000) by (nonlinear_arith)
        requires
            pow(16, 16) == pow(16, 8) * pow(16, 8),
            pow(16, 8) == 0x1_0000_0000,
    ;
    vstd::arithmetic::power::lemma_pow_adds(16, 16, 16);
    assert(pow(16, 32) == 0x1_0000_0000_0000_0000_0000_0000_0000_0000) by (nonlinear_arith)
        requires
            pow(16, 32) == pow(16, 16) * pow(16, 16),
            pow(16, 16) == 0x1_0000_0000_0000_0000,
    ;
}

/// Reading an identifier's text gives the identifier back.
pub proof fn law_uuid_text_reads_back(n: u128)
    ensures
        uuid_of(uuid_text(n as nat)) == Some(n),
{
    let h = hex_text(n as nat, 32);
    lemma_hex_text(n as nat, 32);
    lemma_u128_bound();
    let s = uuid_text(n as nat);
    assert(s.len() == 36);
    assert(unhyphenated(s) =~= h);
}

/// Two identifiers with the same text are the same.
pub proof fn law_uuid_text_is_injective(a: u128, b: u128)
    requires
        uuid_text(a as nat) == uuid_text(b as nat),
    ensures
        a == b,
{
    law_uuid_text_reads_back(a);
    law_uuid_text_reads_back(b);
}

/// A logical agent, which outlives its runtimes.
#[derive(Debug, Clone, Copy, PartialEq, Eq, Hash, Structural)]
pub struct LogicalAgentId {
    pub value: u128,
}

impl LogicalAgentId {
    /// Create a time-ordered opaque identifier. All but its marks rests on the clock and
    /// on chance.
    pub fn new() -> (id: Self)
        ensures
            is_time_ordered(id.value),
    {
        LogicalAgentId { value: fresh_uuid() }
    }

    /// Read an identifier from any accepted form of its text.
    pub fn parse(text: &str) -> (id: Option<Self>)
        ensures
            match id {
                Some(id) => uuid_of(text@) == Some(id.value),
                None => uuid_of(text@) is None,
            },
    {
        match parse_uuid(text) {
            Some(value) => Some(LogicalAgentId { value }),
            None => None,
        }
    }

    /// The hyphenated text of the identifier.
    pub fn to_text(&self) -> (text: String)
        ensures
            text@ == uuid_text(self.value as nat),
    {
        show_uuid(self.value)
    }
}

impl Default for LogicalAgentId {
    fn default() -> (id: Self)
        ensures
            is_time_ordered(id.value),
    {
        LogicalAgentId::new()
    }
}

/// One exact runtime binding of a logical agent.
#[derive(Debug, Clone, Copy, PartialEq, Eq, Hash, Structural)]
pub struct IncarnationId {
    pub value: u128,
}

impl IncarnationId {
    /// Create a time-ordered opaque identifier. All but its marks rests on the clock and
    /// on chance.
    pub fn new() -> (id: Self)
        ensures
            is_time_ordered(id.value),
    {
        IncarnationId { value: fresh_uuid() }
    }

    /// Read an identifier from any accepted form of its text.
    pub fn parse(text: &str) -> (id: Option<Self>)
        ensures
            match id {
                Some(id) => uuid_of(text@) == Some(id.value),
                None => uuid_of(text@) is None,
            },
    {
        match parse_uuid(text) {
            Some(value) => Some(IncarnationId { value }),
            None => None,
        }
    }

    /// The hyphenated text of the identifier.
    pub fn to_text(&self) -> (text: String)
        ensures
            text@ == uuid_text(self.value as nat),
    {
        show_uuid(self.value)
    }
}

impl Default for IncarnationId {
    fn default() -> (id: Self)
        ensures
            is_time_ordered(id.value),
    {
        IncarnationId::new()
    }
}

/// One recorded external operation.
#[derive(Debug, Clone, Copy, PartialEq, Eq, Hash, Structural)]
pub struct OperationId {
    pub value: u128,
}

impl OperationId {
    /// Create a time-ordered opaque identifier. All but its marks rests on the clock and
    /// on chance.
    pub fn new() -> (id: Self)
        ensures
            is_time_ordered(id.value),
    {
        OperationId { value: fresh_uuid() }
    }

    /// Read an identifier from any accepted form of its text.
    pub fn parse(text: &str) -> (id: Option<Self>)
        ensures
            match id {
                Some(id) => uuid_of(text@) == Some(id.value),
                None => uuid_of(text@) is None,
            },
    {
        match parse_uuid(text) {
            Some(value) => Some(OperationId { value }),
            None => None,
        }
    }

    /// The hyphenated text of the identifier.
    pub fn to_text(&self) -> (text: String)
        ensures
            text@ == uuid_text(self.value as nat),
    {
        show_uuid(self.value)
    }
}

impl Default for OperationId {
    fn default() -> (id: Self)
        ensures
            is_time_ordered(id.value),
    {
        OperationId::new()
    }
}

/// One stored message.
#[derive(Debug, Clone, Copy, PartialEq, Eq, Hash, Structural)]
pub struct MessageId {
    pub value: u128,
}

impl MessageId {
    /// Create a time-ordered opaque identifier. All but its marks rests on the clock and
    /// on chance.
    pub fn new() -> (id: Self)
        ensures
            is_time_ordered(id.value),
    {
        MessageId { value: fresh_uuid() }
    }

    /// Read an identifier from any accepted form of its text.
    pub fn parse(text: &str) -> (id: Option<Self>)
        ensures
            match id {
                Some(id) => uuid_of(text@) == Some(id.value),
                None => uuid_of(text@) is None,
            },
    {
        match parse_uuid(text) {
            Some(value) => Some(MessageId { value }),
            None => None,
        }
    }

    /// The hyphenated text of the identifier.
    pub fn to_text(&self) -> (text: String)
        ensures
            text@ == uuid_text(self.value as nat),
    {
        show_uuid(self.value)
    }
}

impl Default for MessageId {
    fn default() -> (id: Self)
        ensures
            is_time_ordered(id.value),
    {
        MessageId::new()
    }
}

/// One notice to the operator.
#[derive(Debug, Clone, Copy, PartialEq, Eq, Hash, Structural)]
pub struct OperatorNoticeId {
    pub value: u128,
}

impl OperatorNoticeId {
    /// Create a time-ordered opaque identifier. All but its marks rests on the clock and
    /// on chance.
    pub fn new() -> (id: Self)
        ensures
            is_time_ordered(id.value),
    {
        OperatorNoticeId { value: fresh_uuid() }
    }

    /// Read an identifier from any accepted form of its text.
    pub fn parse(text: &str) -> (id: Option<Self>)
        ensures
            match id {
                Some(id) => uuid_of(text@) == Some(id.value),
                None => uuid_of(text@) is None,
            },
    {
        match parse_uuid(text) {
            Some(value) => Some(OperatorNoticeId { value }),
            None => None,
        }
    }

    /// The hyphenated text of the identifier.
    pub fn to_text(&self) -> (text: String)
        ensures
            text@ == uuid_text(self.value as nat),
    {
        show_uuid(self.value)
    }
}

impl Default for OperatorNoticeId {
    fn default() -> (id: Self)
        ensures
            is_time_ordered(id.value),
    {
        OperatorNoticeId::new()
    }
}

/// One renew policy.
#[derive(Debug, Clone, Copy, PartialEq, Eq, Hash, Structural)]
pub struct RenewId {
    pub value: u128,
}

impl RenewId {
    /// Create a time-ordered opaque identifier. All but its marks rests on the clock and
    /// on chance.
    pub fn new() -> (id: Self)
        ensures
            is_time_ordered(id.value),
    {
        RenewId { value: fresh_uuid() }
    }

    /// Read an identifier from any accepted form of its text.
    pub fn parse(text: &str) -> (id: Option<Self>)
        ensures
            match id {
                Some(id) => uuid_of(text@) == Some(id.value),
                None => uuid_of(text@) is None,
            },
    {
        match parse_uuid(text) {
            Some(value) => Some(RenewId { value }),
            None => None,
        }
    }

    /// The hyphenated text of the identifier.
    pub fn to_text(&self) -> (text: String)
        ensures
            text@ == uuid_text(self.value as nat),
    {
        show_uuid(self.value)
    }
}

impl Default for RenewId {
    fn default() -> (id: Self)
        ensures
            is_time_ordered(id.value),
    {
        RenewId::new()
    }
}

/// A logical agent's durable parent relationship.
#[derive(Debug, Clone, Copy, PartialEq, Eq, Structural)]
pub enum Parent {
    Parentless,
    Agent(LogicalAgentId),
}

/// Lifecycle state for one exact runtime binding attempt.
#[derive(Debug, Clone, Copy, PartialEq, Eq, Structural)]
pub enum IncarnationState {
    Declared,
    Starting,
    Ready,
    Failed,
    Unknown,
    Retiring,
    Retired,
    Lost,
    Superseded,
}

impl IncarnationState {
    /// The recorded name of the value.
    pub open spec fn name(self) -> Seq<char> {
        match self {
            IncarnationState::Declared => "declared"@,
            IncarnationState::Starting => "starting"@,
            IncarnationState::Ready => "ready"@,
            IncarnationState::Failed => "failed"@,
            IncarnationState::Unknown => "unknown"@,
            IncarnationState::Retiring => "retiring"@,
            IncarnationState::Retired => "retired"@,
            IncarnationState::Lost => "lost"@,
            IncarnationState::Superseded => "superseded"@,
        }
    }

    /// The recorded name of the value.
    pub fn label(&self) -> (text: &'static str)
        ensures
            text@ == self.name(),
    {
        match self {
            IncarnationState::Declared => "declared",
            IncarnationState::Starting => "starting",
            IncarnationState::Ready => "ready",
            IncarnationState::Failed => "failed",
            IncarnationState::Unknown => "unknown",
            IncarnationState::Retiring => "retiring",
            IncarnationState::Retired => "retired",
            IncarnationState::Lost => "lost",
            IncarnationState::Superseded => "superseded",
        }
    }
}

/// Durable outcome for an external operation.
#[derive(Debug, Clone, Copy, PartialEq, Eq, Structural)]
pub enum OperationOutcome {
    Pending,
    Accepted,
    Succeeded,
    Failed,
    Superseded,
    Unknown,
}

impl OperationOutcome {
    /// The recorded name of the value.
    pub open spec fn name(self) -> Seq<char> {
        match self {
            OperationOutcome::Pending => "pending"@,
            OperationOutcome::Accepted => "accepted"@,
            OperationOutcome::Succeeded => "succeeded"@,
            OperationOutcome::Failed => "failed"@,
            OperationOutcome::Superseded => "superseded"@,
            OperationOutcome::Unknown => "unknown"@,
        }
    }

    /// The recorded name of the value.
    pub fn label(&self) -> (text: &'static str)
        ensures
            text@ == self.name(),
    {
        match self {
            OperationOutcome::Pending => "pending",
            OperationOutcome::Accepted => "accepted",
            OperationOutcome::Succeeded => "succeeded",
            OperationOutcome::Failed => "failed",
            OperationOutcome::Superseded => "superseded",
            OperationOutcome::Unknown => "unknown",
        }
    }
}

/// Semantic kind of a stored message.
#[derive(Debug, Clone, Copy, PartialEq, Eq, Structural)]
pub enum MessageKind {
    Tell,
    Ask,
    Reply,
    Cancellation,
}

impl MessageKind {
    /// The recorded name of the value.
    pub open spec fn name(self) -> Seq<char> {
        match self {
            MessageKind::Tell => "tell"@,
            MessageKind::Ask => "ask"@,
            MessageKind::Reply => "reply"@,
            MessageKind::Cancellation => "cancellation"@,
        }
    }

    /// The recorded name of the value.
    pub fn label(&self) -> (text: &'static str)
        ensures
            text@ == self.name(),
    {
        match self {
            MessageKind::Tell => "tell",
            MessageKind::Ask => "ask",
            MessageKind::Reply => "reply",
            MessageKind::Cancellation => "cancellation",
        }
    }
}

/// Explicit semantic kind for a launch's initial message.
#[derive(Debug, Clone, Copy, PartialEq, Eq, Structural)]
pub enum InitialMessageKind {
    Tell,
    Ask,
}

impl InitialMessageKind {
    /// The recorded name of the value.
    pub open spec fn name(self) -> Seq<char> {
        match self {
            InitialMessageKind::Tell => "tell"@,
            InitialMessageKind::Ask => "ask"@,
        }
    }

    /// The recorded name of the value.
    pub fn label(&self) -> (text: &'static str)
        ensures
            text@ == self.name(),
    {
        match self {
            InitialMessageKind::Tell => "tell",
            InitialMessageKind::Ask => "ask",
        }
    }
}

/// Initial message stored in launch intent before runtime effects begin.
#[derive(Debug, Clone, PartialEq, Eq)]
pub struct InitialMessageIntent {
    /// `None` denotes same-user operator attribution, not authentication.
    pub sender: Option<LogicalAgentId>,
    pub kind: InitialMessageKind,
    pub body: String,
}

/// Disposition of a reply message.
#[derive(Debug, Clone, Copy, PartialEq, Eq, Structural)]
pub enum ReplyDisposition {
    Progress,
    Final,
}

impl ReplyDisposition {
    /// The recorded name of the value.
    pub open spec fn name(self) -> Seq<char> {
        match self {
            ReplyDisposition::Progress => "progress"@,
            ReplyDisposition::Final => "final"@,
        }
    }

    /// The recorded name of the value.
    pub fn label(&self) -> (text: &'static str)
        ensures
            text@ == self.name(),
    {
        match self {
            ReplyDisposition::Progress => "progress",
            ReplyDisposition::Final => "final",
        }
    }
}

/// State of the final-reply obligation created by an ask.
#[derive(Debug, Clone, Copy, PartialEq, Eq, Structural)]
pub enum ObligationState {
    Open,
    InProgress,
    Resolved,
    Cancelled,
    Orphaned,
}

impl ObligationState {
    /// The recorded name of the value.
    pub open spec fn name(self) -> Seq<char> {
        match self {
            ObligationState::Open => "open"@,
            ObligationState::InProgress => "in_progress"@,
            ObligationState::Resolved => "resolved"@,
            ObligationState::Cancelled => "cancelled"@,
            ObligationState::Orphaned => "orphaned"@,
        }
    }

    /// The recorded name of the value.
    pub fn label(&self) -> (text: &'static str)
        ensures
            text@ == self.name(),
    {
        match self {
            ObligationState::Open => "open",
            ObligationState::InProgress => "in_progress",
            ObligationState::Resolved => "resolved",
            ObligationState::Cancelled => "cancelled",
            ObligationState::Orphaned => "orphaned",
        }
    }
}

/// Outcome of one terminal-input delivery attempt.
#[derive(Debug, Clone, Copy, PartialEq, Eq, Structural)]
pub enum DeliveryOutcome {
    Pending,
    Submitted,
    Accepted,
    Queued,
    Unknown,
    Rejected,
    TargetUnavailable,
    Superseded,
}

impl DeliveryOutcome {
    /// The recorded name of the value.
    pub open spec fn name(self) -> Seq<char> {
        match self {
            DeliveryOutcome::Pending => "pending"@,
            DeliveryOutcome::Submitted => "submitted"@,
            DeliveryOutcome::Accepted => "accepted"@,
            DeliveryOutcome::Queued => "queued"@,
            DeliveryOutcome::Unknown => "unknown"@,
            DeliveryOutcome::Rejected => "rejected"@,
            DeliveryOutcome::TargetUnavailable => "target_unavailable"@,
            DeliveryOutcome::Superseded => "superseded"@,
        }
    }

    /// The recorded name of the value.
    pub fn label(&self) -> (text: &'static str)
        ensures
            text@ == self.name(),
    {
        match self {
            DeliveryOutcome::Pending => "pending",
            DeliveryOutcome::Submitted => "submitted",
            DeliveryOutcome::Accepted => "accepted",
            DeliveryOutcome::Queued => "queued",
            DeliveryOutcome::Unknown => "unknown",
            DeliveryOutcome::Rejected => "rejected",
            DeliveryOutcome::TargetUnavailable => "target_unavailable",
            DeliveryOutcome::Superseded => "superseded",
        }
    }
}

/// How messages reach an agent.
#[derive(Debug, Clone, Copy, PartialEq, Eq, Structural)]
pub enum DeliveryTransport {
    HerdrPrompt,
    SocketInbox,
}

impl DeliveryTransport {
    /// The recorded name of the value.
    pub open spec fn name(self) -> Seq<char> {
        match self {
            DeliveryTransport::HerdrPrompt => "herdr_prompt"@,
            DeliveryTransport::SocketInbox => "socket_inbox"@,
        }
    }

    /// The recorded name of the value.
    pub fn label(&self) -> (text: &'static str)
        ensures
            text@ == self.name(),
    {
        match self {
            DeliveryTransport::HerdrPrompt => "herdr_prompt",
            DeliveryTransport::SocketInbox => "socket_inbox",
        }
    }
}

/// Phase of one renew of an incarnation's backend-native context.
///
/// `Clearing` is the only phase in which the incarnation has lost its context
/// without yet having been re-seeded. A renew interrupted there is completed by
/// recovery, never restarted, because the clear cannot be undone or repeated.
#[derive(Debug, Clone, Copy, PartialEq, Eq, Structural)]
pub enum RenewPhase {
    Scheduled,
    Preparing,
    Ready,
    Clearing,
    Injected,
    Done,
    TimedOut,
    Aborted,
    Terminated,
}

impl RenewPhase {
    /// The recorded name of the value.
    pub open spec fn name(self) -> Seq<char> {
        match self {
            RenewPhase::Scheduled => "scheduled"@,
            RenewPhase::Preparing => "preparing"@,
            RenewPhase::Ready => "ready"@,
            RenewPhase::Clearing => "clearing"@,
            RenewPhase::Injected => "injected"@,
            RenewPhase::Done => "done"@,
            RenewPhase::TimedOut => "timed_out"@,
            RenewPhase::Aborted => "aborted"@,
            RenewPhase::Terminated => "terminated"@,
        }
    }

    /// The recorded name of the value.
    pub fn label(&self) -> (text: &'static str)
        ensures
            text@ == self.name(),
    {
        match self {
            RenewPhase::Scheduled => "scheduled",
            RenewPhase::Preparing => "preparing",
            RenewPhase::Ready => "ready",
            RenewPhase::Clearing => "clearing",
            RenewPhase::Injected => "injected",
            RenewPhase::Done => "done",
            RenewPhase::TimedOut => "timed_out",
            RenewPhase::Aborted => "aborted",
            RenewPhase::Terminated => "terminated",
        }
    }
}

/// What to do when the prepare deadline elapses with no final reply.
///
/// There is no default. Aborting protects work the agent never saved;
/// proceeding bounds the context and destroys it. Which is correct depends on
/// what the agent is doing, so the caller states it.
#[derive(Debug, Clone, Copy, PartialEq, Eq, Structural)]
pub enum RenewTimeout {
    Abort,
    Proceed,
}

impl RenewTimeout {
    /// The recorded name of the value.
    pub open spec fn name(self) -> Seq<char> {
        match self {
            RenewTimeout::Abort => "abort"@,
            RenewTimeout::Proceed => "proceed"@,
        }
    }

    /// The recorded name of the value.
    pub fn label(&self) -> (text: &'static str)
        ensures
            text@ == self.name(),
    {
        match self {
            RenewTimeout::Abort => "abort",
            RenewTimeout::Proceed => "proceed",
        }
    }
}

/// Which of a renew's two external effects an attempt record describes.
#[derive(Debug, Clone, Copy, PartialEq, Eq, Structural)]
pub enum RenewStep {
    Clear,
    Inject,
}

/// Complete durable intent for one renew.
///
/// Both prompts are persisted before the first Herdr write. That ordering is
/// what makes an interrupted renew recoverable: the resume prompt is already
/// durable when the clear is submitted, so no crash can leave an incarnation
/// cleared with nothing to re-seed it.
#[derive(Debug, Clone, PartialEq, Eq)]
pub struct RenewIntent {
    pub logical_agent_id: LogicalAgentId,
    pub incarnation_id: IncarnationId,
    pub requester_agent_id: LogicalAgentId,
    pub prepare_prompt: String,
    pub resume_prompt: String,
    pub on_timeout: RenewTimeout,
    pub prepare_timeout_ms: i64,
    /// `None` is one-shot. `Some` re-arms after each injection and ends only
    /// when the incarnation stops being Ready.
    pub every_ms: Option<i64>,
    pub scheduled_at_ms: i64,
}

/// Complete durable intent for starting one incarnation.
///
/// When `logical_agent_id` is `None`, Kelpie creates a new logical agent. When
/// set, Kelpie continues that exact logical agent in a new incarnation and
/// preserves its obligations and history. The public name is a reusable live
/// alias, never a primary key.
#[derive(Debug, Clone, PartialEq, Eq)]
pub struct StartIntent {
    pub public_name: String,
    /// Exact logical agent to continue, or `None` for create-new intent.
    pub logical_agent_id: Option<LogicalAgentId>,
    pub parent: Parent,
    pub herdr_session: String,
    pub pane_id: String,
    pub expected_terminal_id: String,
    pub backend_kind: String,
    pub backend_args: Vec<String>,
    pub initial_message: InitialMessageIntent,
    pub working_directory: String,
    pub idempotency_key: String,
    pub readiness_timeout_ms: u64,
    pub keep_open: bool,
    /// Requested model. Never treated as observed execution metadata.
    pub requested_model: Option<String>,
    /// Requested provider. Never treated as observed execution metadata.
    pub requested_provider: Option<String>,
    /// Requested reasoning effort. Never treated as observed execution metadata.
    pub requested_effort: Option<String>,
    /// Incarnation this start replaces, demoted in the same transaction that
    /// proves the successor Ready.
    pub supersedes: Option<IncarnationId>,
}

/// Explicit adoption of an already-running Herdr agent without `agent.start`.
///
/// The fail-closed exact selector is `pane_id` and `expected_terminal_id`.
/// Optional fields further constrain the snapshot match.
#[derive(Debug, Clone, PartialEq, Eq)]
pub struct AdoptIntent {
    pub pane_id: String,
    pub expected_terminal_id: String,
    /// When set, must equal the live Herdr name or the derived claim name.
    pub public_name: Option<String>,
    /// Exact logical agent to continue, or `None` for create-new intent.
    pub logical_agent_id: Option<LogicalAgentId>,
    /// Used only for create-new logical agents.
    pub parent: Parent,
    pub herdr_session: String,
    /// When set, must equal the live backend kind.
    pub backend_kind: Option<String>,
    /// Backend arguments the caller believes this runtime was launched with.
    pub backend_args: Vec<String>,
    pub requested_model: Option<String>,
    pub requested_provider: Option<String>,
    pub requested_effort: Option<String>,
    pub idempotency_key: String,
}

/// Stored message data.
#[derive(Debug, Clone, PartialEq, Eq)]
pub struct Message {
    pub id: MessageId,
    pub sender: LogicalAgentId,
    pub recipient: LogicalAgentId,
    pub kind: MessageKind,
    pub body: String,
    pub reply_to: Option<MessageId>,
    pub disposition: Option<ReplyDisposition>,
    pub creates_obligation: bool,
}

/// A duration in its coarsest two units, never negative.
pub open spec fn duration_text(ms: int) -> Seq<char> {
    if ms < 0 {
        "0s"@
    } else if ms >= 86_400_000 {
        decimal_text((ms / 86_400_000) as nat) + "d"@ + decimal_text(
            (ms / 3_600_000 % 24) as nat,
        ) + "h"@
    } else if ms >= 3_600_000 {
        decimal_text((ms / 3_600_000) as nat) + "h"@ + decimal_text((ms / 60_000 % 60) as nat)
            + "m"@
    } else if ms >= 60_000 {
        decimal_text((ms / 60_000) as nat) + "m"@ + decimal_text((ms / 1000 % 60) as nat) + "s"@
    } else {
        decimal_text((ms / 1000) as nat) + "s"@
    }
}

/// Human-readable duration, coarsest two units, never negative.
///
/// Shared because an operator notice and the report render the same intervals;
/// a raw millisecond count in one of them is a worse answer than in the other.
pub fn format_duration_ms(ms: i64) -> (text: String)
    ensures
        text@ == duration_text(ms as int),
{
    if ms < 0 {
        return "0s".to_owned();
    }
    let seconds: u64 = (ms / 1000) as u64;
    let minutes: u64 = (ms / 60_000) as u64;
    let hours: u64 = (ms / 3_600_000) as u64;
    let days: u64 = (ms / 86_400_000) as u64;
    if days > 0 {
        decimal(days).concat("d").concat(decimal(hours % 24).as_str()).concat("h")
    } else if hours > 0 {
        decimal(hours).concat("h").concat(decimal(minutes % 60).as_str()).concat("m")
    } else if minutes > 0 {
        decimal(minutes).concat("m").concat(decimal(seconds % 60).as_str()).concat("s")
    } else {
        decimal(seconds).concat("s")
    }
}

/// The recorded names of incarnation state values: each has its own, and no two share one.
#[verifier::spinoff_prover]
#[verifier::rlimit(60)]
pub proof fn law_incarnation_state_has_its_own_name(value: IncarnationState, other: IncarnationState)
    ensures
        value.name() == other.name() ==> value == other,
        value.name() == "declared"@ <==> value is Declared,
        value.name() == "starting"@ <==> value is Starting,
        value.name() == "ready"@ <==> value is Ready,
        value.name() == "failed"@ <==> value is Failed,
        value.name() == "unknown"@ <==> value is Unknown,
        value.name() == "retiring"@ <==> value is Retiring,
        value.name() == "retired"@ <==> value is Retired,
        value.name() == "lost"@ <==> value is Lost,
        value.name() == "superseded"@ <==> value is Superseded,
{
    reveal_strlit("declared");
    reveal_strlit("starting");
    reveal_strlit("ready");
    reveal_strlit("failed");
    reveal_strlit("unknown");
    reveal_strlit("retiring");
    reveal_strlit("retired");
    reveal_strlit("lost");
    reveal_strlit("superseded");
    assert("declared"@.len() == 8);
    assert("starting"@.len() == 8);
    assert("ready"@.len() == 5);
    assert("failed"@.len() == 6);
    assert("unknown"@.len() == 7);
    assert("retiring"@.len() == 8);
    assert("retired"@.len() == 7);
    assert("lost"@.len() == 4);
    assert("superseded"@.len() == 10);
    assert("declared"@[0] == 'd');
    assert("starting"@[0] == 's');
    assert("retiring"@[0] == 'r');
    assert("unknown"@[0] == 'u');
    assert("retired"@[0] == 'r');
}

/// The recorded names of operation outcome values: each has its own, and no two share one.
#[verifier::spinoff_prover]
#[verifier::rlimit(60)]
pub proof fn law_operation_outcome_has_its_own_name(value: OperationOutcome, other: OperationOutcome)
    ensures
        value.name() == other.name() ==> value == other,
        value.name() == "pending"@ <==> value is Pending,
        value.name() == "accepted"@ <==> value is Accepted,
        value.name() == "succeeded"@ <==> value is Succeeded,
        value.name() == "failed"@ <==> value is Failed,
        value.name() == "superseded"@ <==> value is Superseded,
        value.name() == "unknown"@ <==> value is Unknown,
{
    reveal_strlit("pending");
    reveal_strlit("accepted");
    reveal_strlit("succeeded");
    reveal_strlit("failed");
    reveal_strlit("superseded");
    reveal_strlit("unknown");
    assert("pending"@.len() == 7);
    assert("accepted"@.len() == 8);
    assert("succeeded"@.len() == 9);
    assert("failed"@.len() == 6);
    assert("superseded"@.len() == 10);
    assert("unknown"@.len() == 7);
    assert("pending"@[0] == 'p');
    assert("unknown"@[0] == 'u');
}

/// The recorded names of message kind values: each has its own, and no two share one.
#[verifier::spinoff_prover]
#[verifier::rlimit(60)]
pub proof fn law_message_kind_has_its_own_name(value: MessageKind, other: MessageKind)
    ensures
        value.name() == other.name() ==> value == other,
        value.name() == "tell"@ <==> value is Tell,
        value.name() == "ask"@ <==> value is Ask,
        value.name() == "reply"@ <==> value is Reply,
        value.name() == "cancellation"@ <==> value is Cancellation,
{
    reveal_strlit("tell");
    reveal_strlit("ask");
    reveal_strlit("reply");
    reveal_strlit("cancellation");
    assert("tell"@.len() == 4);
    assert("ask"@.len() == 3);
    assert("reply"@.len() == 5);
    assert("cancellation"@.len() == 12);
}

/// The recorded names of initial message kind values: each has its own, and no two share one.
#[verifier::spinoff_prover]
#[verifier::rlimit(60)]
pub proof fn law_initial_message_kind_has_its_own_name(value: InitialMessageKind, other: InitialMessageKind)
    ensures
        value.name() == other.name() ==> value == other,
        value.name() == "tell"@ <==> value is Tell,
        value.name() == "ask"@ <==> value is Ask,
{
    reveal_strlit("tell");
    reveal_strlit("ask");
    assert("tell"@.len() == 4);
    assert("ask"@.len() == 3);
}

/// The recorded names of reply disposition values: each has its own, and no two share one.
#[verifier::spinoff_prover]
#[verifier::rlimit(60)]
pub proof fn law_reply_disposition_has_its_own_name(value: ReplyDisposition, other: ReplyDisposition)
    ensures
        value.name() == other.name() ==> value == other,
        value.name() == "progress"@ <==> value is Progress,
        value.name() == "final"@ <==> value is Final,
{
    reveal_strlit("progress");
    reveal_strlit("final");
    assert("progress"@.len() == 8);
    assert("final"@.len() == 5);
}

/// The recorded names of obligation state values: each has its own, and no two share one.
#[verifier::spinoff_prover]
#[verifier::rlimit(60)]
pub proof fn law_obligation_state_has_its_own_name(value: ObligationState, other: ObligationState)
    ensures
        value.name() == other.name() ==> value == other,
        value.name() == "open"@ <==> value is Open,
        value.name() == "in_progress"@ <==> value is InProgress,
        value.name() == "resolved"@ <==> value is Resolved,
        value.name() == "cancelled"@ <==> value is Cancelled,
        value.name() == "orphaned"@ <==> value is Orphaned,
{
    reveal_strlit("open");
    reveal_strlit("in_progress");
    reveal_strlit("resolved");
    reveal_strlit("cancelled");
    reveal_strlit("orphaned");
    assert("open"@.len() == 4);
    assert("in_progress"@.len() == 11);
    assert("resolved"@.len() == 8);
    assert("cancelled"@.len() == 9);
    assert("orphaned"@.len() == 8);
    assert("resolved"@[0] == 'r');
    assert("orphaned"@[0] == 'o');
}

/// The recorded names of delivery outcome values: each has its own, and no two share one.
#[verifier::spinoff_prover]
#[verifier::rlimit(60)]
pub proof fn law_delivery_outcome_has_its_own_name(value: DeliveryOutcome, other: DeliveryOutcome)
    ensures
        value.name() == other.name() ==> value == other,
        value.name() == "pending"@ <==> value is Pending,
        value.name() == "submitted"@ <==> value is Submitted,
        value.name() == "accepted"@ <==> value is Accepted,
        value.name() == "queued"@ <==> value is Queued,
        value.name() == "unknown"@ <==> value is Unknown,
        value.name() == "rejected"@ <==> value is Rejected,
        value.name() == "target_unavailable"@ <==> value is TargetUnavailable,
        value.name() == "superseded"@ <==> value is Superseded,
{
    reveal_strlit("pending");
    reveal_strlit("submitted");
    reveal_strlit("accepted");
    reveal_strlit("queued");
    reveal_strlit("unknown");
    reveal_strlit("rejected");
    reveal_strlit("target_unavailable");
    reveal_strlit("superseded");
    assert("pending"@.len() == 7);
    assert("submitted"@.len() == 9);
    assert("accepted"@.len() == 8);
    assert("queued"@.len() == 6);
    assert("unknown"@.len() == 7);
    assert("rejected"@.len() == 8);
    assert("target_unavailable"@.len() == 18);
    assert("superseded"@.len() == 10);
    assert("pending"@[0] == 'p');
    assert("unknown"@[0] == 'u');
    assert("accepted"@[0] == 'a');
    assert("rejected"@[0] == 'r');
}

/// The recorded names of delivery transport values: each has its own, and no two share one.
#[verifier::spinoff_prover]
#[verifier::rlimit(60)]
pub proof fn law_delivery_transport_has_its_own_name(value: DeliveryTransport, other: DeliveryTransport)
    ensures
        value.name() == other.name() ==> value == other,
        value.name() == "herdr_prompt"@ <==> value is HerdrPrompt,
        value.name() == "socket_inbox"@ <==> value is SocketInbox,
{
    reveal_strlit("herdr_prompt");
    reveal_strlit("socket_inbox");
    assert("herdr_prompt"@.len() == 12);
    assert("socket_inbox"@.len() == 12);
    assert("herdr_prompt"@[0] == 'h');
    assert("socket_inbox"@[0] == 's');
}

/// The recorded names of renew phase values: each has its own, and no two share one.
#[verifier::spinoff_prover]
#[verifier::rlimit(60)]
pub proof fn law_renew_phase_has_its_own_name(value: RenewPhase, other: RenewPhase)
    ensures
        value.name() == other.name() ==> value == other,
        value.name() == "scheduled"@ <==> value is Scheduled,
        value.name() == "preparing"@ <==> value is Preparing,
        value.name() == "ready"@ <==> value is Ready,
        value.name() == "clearing"@ <==> value is Clearing,
        value.name() == "injected"@ <==> value is Injected,
        value.name() == "done"@ <==> value is Done,
        value.name() == "timed_out"@ <==> value is TimedOut,
        value.name() == "aborted"@ <==> value is Aborted,
        value.name() == "terminated"@ <==> value is Terminated,
{
    reveal_strlit("scheduled");
    reveal_strlit("preparing");
    reveal_strlit("ready");
    reveal_strlit("clearing");
    reveal_strlit("injected");
    reveal_strlit("done");
    reveal_strlit("timed_out");
    reveal_strlit("aborted");
    reveal_strlit("terminated");
    assert("scheduled"@.len() == 9);
    assert("preparing"@.len() == 9);
    assert("ready"@.len() == 5);
    assert("clearing"@.len() == 8);
    assert("injected"@.len() == 8);
    assert("done"@.len() == 4);
    assert("timed_out"@.len() == 9);
    assert("aborted"@.len() == 7);
    assert("terminated"@.len() == 10);
    assert("scheduled"@[0] == 's');
    assert("preparing"@[0] == 'p');
    assert("timed_out"@[0] == 't');
    assert("clearing"@[0] == 'c');
    assert("injected"@[0] == 'i');
}

/// The recorded names of renew timeout values: each has its own, and no two share one.
#[verifier::spinoff_prover]
#[verifier::rlimit(60)]
pub proof fn law_renew_timeout_has_its_own_name(value: RenewTimeout, other: RenewTimeout)
    ensures
        value.name() == other.name() ==> value == other,
        value.name() == "abort"@ <==> value is Abort,
        value.name() == "proceed"@ <==> value is Proceed,
{
    reveal_strlit("abort");
    reveal_strlit("proceed");
    assert("abort"@.len() == 5);
    assert("proceed"@.len() == 7);
}

/// A duration is told in whole units of the two coarsest that it reaches: what is told is at most
/// the duration, by less than one of the finer unit, which stays below one of the coarser.
#[verifier::spinoff_prover]
#[verifier::rlimit(60)]
pub proof fn law_duration_is_told_in_whole_units(ms: int)
    ensures
        ms < 0 ==> duration_text(ms) == "0s"@,
        0 <= ms < 60_000 ==> exists|s: nat| #[trigger]
            decimal_text(s) + "s"@ == duration_text(ms) && 1000 * s <= ms < 1000 * s + 1000,
        60_000 <= ms < 3_600_000 ==> exists|m: nat, s: nat|
            duration_text(ms) == #[trigger] decimal_text(m) + "m"@ + #[trigger] decimal_text(s)
                + "s"@ && s < 60 && 60_000 * m + 1000 * s <= ms < 60_000 * m + 1000 * s + 1000,
        3_600_000 <= ms < 86_400_000 ==> exists|h: nat, m: nat|
            duration_text(ms) == #[trigger] decimal_text(h) + "h"@ + #[trigger] decimal_text(m)
                + "m"@ && m < 60 && 3_600_000 * h + 60_000 * m <= ms < 3_600_000 * h + 60_000 * m
                + 60_000,
        86_400_000 <= ms ==> exists|d: nat, h: nat|
            duration_text(ms) == #[trigger] decimal_text(d) + "d"@ + #[trigger] decimal_text(h)
                + "h"@ && h < 24 && 86_400_000 * d + 3_600_000 * h <= ms < 86_400_000 * d
                + 3_600_000 * h + 3_600_000,
{
    if 0 <= ms < 60_000 {
        let s = (ms / 1000) as nat;
        assert(decimal_text(s) + "s"@ == duration_text(ms));
    } else if 60_000 <= ms < 3_600_000 {
        let m = (ms / 60_000) as nat;
        let s = (ms / 1000 % 60) as nat;
        assert(duration_text(ms) == decimal_text(m) + "m"@ + decimal_text(s) + "s"@);
    } else if 3_600_000 <= ms < 86_400_000 {
        let h = (ms / 3_600_000) as nat;
        let m = (ms / 60_000 % 60) as nat;
        assert(duration_text(ms) == decimal_text(h) + "h"@ + decimal_text(m) + "m"@);
    } else if 86_400_000 <= ms {
        let d = (ms / 86_400_000) as nat;
        let h = (ms / 3_600_000 % 24) as nat;
        assert(duration_text(ms) == decimal_text(d) + "d"@ + decimal_text(h) + "h"@);
    }
}

} // verus!
