//! Compact HTML-like receiver envelopes for agent-facing prompt text.
//!
//! Machine client-to-daemon traffic remains strict NDJSON. These envelopes are
//! only the terminal-delivered representation injected into a receiving agent.

use vstd::prelude::*;

use crate::text::{
    chars_of, decimal_text, int_text, is_digit, lemma_decimal_denotes, push_char, signed_decimal,
};

verus! {

/// Failures when composing a receiver envelope.
#[derive(Debug, PartialEq, Eq)]
pub enum EnvelopeError {
    /// An attribute required by the envelope form is empty.
    EmptyAttribute,
    /// An attribute value cannot be rendered safely without quotes.
    UnsafeAttribute(String),
}

/// The view of an envelope failure.
pub enum Fault {
    Empty,
    Unsafe(Seq<char>),
}

impl EnvelopeError {
    pub open spec fn view(&self) -> Fault {
        match self {
            EnvelopeError::EmptyAttribute => Fault::Empty,
            EnvelopeError::UnsafeAttribute(at) => Fault::Unsafe(at@),
        }
    }

    /// The message that explains the failure.
    pub fn message(&self) -> (text: String)
        ensures
            text@ == match self@ {
                Fault::Empty => "envelope attribute is empty"@,
                Fault::Unsafe(at) => "envelope attribute value is not safe unquoted: "@ + at,
            },
    {
        match self {
            EnvelopeError::EmptyAttribute => "envelope attribute is empty".to_owned(),
            EnvelopeError::UnsafeAttribute(at) => {
                "envelope attribute value is not safe unquoted: ".to_owned().concat(at.as_str())
            },
        }
    }
}

/// How one character of a body is written.
pub open spec fn escaped_char(c: char) -> Seq<char> {
    if c == '&' {
        "&amp;"@
    } else if c == '<' {
        "&lt;"@
    } else if c == '>' {
        "&gt;"@
    } else {
        seq![c]
    }
}

/// A body with each ampersand and angle bracket written as its entity.
pub open spec fn escaped(body: Seq<char>) -> Seq<char>
    decreases body.len(),
{
    if body.len() == 0 {
        Seq::empty()
    } else {
        escaped(body.drop_last()) + escaped_char(body.last())
    }
}

/// Escape untrusted body text so it cannot forge or terminate the envelope.
pub fn escape_body(body: &str) -> (text: String)
    ensures
        text@ == escaped(body@),
{
    let chars = chars_of(body);
    let mut text = String::new();
    let mut i: usize = 0;
    while i < chars.len()
        invariant
            i <= chars@.len(),
            chars@ == body@,
            text@ == escaped(body@.take(i as int)),
        decreases chars@.len() - i,
    {
        let c = chars[i];
        let ghost before = text@;
        if c == '&' {
            text.append("&amp;");
        } else if c == '<' {
            text.append("&lt;");
        } else if c == '>' {
            text.append("&gt;");
        } else {
            push_char(&mut text, c);
            assert(text@ =~= before + seq![c]);
        }
        proof {
            let next = body@.take(i as int + 1);
            assert(next.drop_last() =~= body@.take(i as int));
            assert(next.last() == c);
        }
        i = i + 1;
    }
    assert(body@.take(i as int) =~= body@);
    text
}

/// Whether a character may stand in an unquoted attribute value.
pub open spec fn is_attr_char(c: char) -> bool {
    'a' <= c <= 'z' || 'A' <= c <= 'Z' || '0' <= c <= '9' || c == '-' || c == '_' || c == '.' || c
        == ':' || c == '/'
}

/// Whether every character may stand in an unquoted attribute value.
pub open spec fn is_attr_safe(value: Seq<char>) -> bool {
    forall|i: int| 0 <= i < value.len() ==> is_attr_char(#[trigger] value[i])
}

/// What is wrong with an attribute, if anything.
pub open spec fn attr_fault(name: Seq<char>, value: Seq<char>) -> Option<Fault> {
    if value.len() == 0 {
        Some(Fault::Empty)
    } else if is_attr_safe(value) {
        None
    } else {
        Some(Fault::Unsafe(name + "="@ + value))
    }
}

/// The first of two faults.
pub open spec fn first_fault(a: Option<Fault>, b: Option<Fault>) -> Option<Fault> {
    match a {
        Some(fault) => Some(fault),
        None => b,
    }
}

/// What a render gives back: the text where there is no fault, the fault where
/// there is one.
pub open spec fn rendered(
    r: Result<String, EnvelopeError>,
    fault: Option<Fault>,
    text: Seq<char>,
) -> bool {
    match r {
        Ok(t) => fault is None && t@ == text,
        Err(e) => fault == Some(e@),
    }
}

/// Check an attribute: unquoted values stay unambiguous for simple parsers, so
/// no whitespace, quotes, or characters that could start a new attribute or
/// close the tag.
fn validated_attr(name: &str, value: &str) -> (r: Result<(), EnvelopeError>)
    ensures
        match r {
            Ok(()) => attr_fault(name@, value@) is None,
            Err(e) => attr_fault(name@, value@) == Some(e@),
        },
{
    if value.is_empty() {
        return Err(EnvelopeError::EmptyAttribute);
    }
    let chars = chars_of(value);
    let mut i: usize = 0;
    while i < chars.len()
        invariant
            i <= chars@.len(),
            chars@ == value@,
            value@.len() > 0,
            forall|j: int| 0 <= j < i ==> is_attr_char(#[trigger] value@[j]),
        decreases chars@.len() - i,
    {
        let c = chars[i];
        if !(('a' <= c && c <= 'z') || ('A' <= c && c <= 'Z') || ('0' <= c && c <= '9') || c == '-'
            || c == '_' || c == '.' || c == ':' || c == '/') {
            assert(!is_attr_char(value@[i as int]));
            return Err(
                EnvelopeError::UnsafeAttribute(name.to_owned().concat("=").concat(value)),
            );
        }
        i = i + 1;
    }
    Ok(())
}

/// A one-way message.
pub open spec fn tell_text(from: Seq<char>, body: Seq<char>) -> Seq<char> {
    "<kelpie from="@ + from + ">\n"@ + escaped(body) + "\n</kelpie>"@
}

/// Render a one-way tell. Tell message IDs are omitted from the envelope.
pub fn render_tell(from: &str, body: &str) -> (r: Result<String, EnvelopeError>)
    ensures
        rendered(r, attr_fault("from"@, from@), tell_text(from@, body@)),
{
    if let Err(error) = validated_attr("from", from) {
        return Err(error);
    }
    Ok(
        "<kelpie from=".to_owned().concat(from).concat(">\n").concat(
            escape_body(body).as_str(),
        ).concat("\n</kelpie>"),
    )
}

/// A message that asks for a reply.
pub open spec fn ask_text(from: Seq<char>, reply_to: Seq<char>, body: Seq<char>) -> Seq<char> {
    "<kelpie from="@ + from + " reply-to="@ + reply_to + ">\n"@ + escaped(body) + "\n</kelpie>"@
}

/// Render an ask that creates a reply obligation identified by `reply_to`.
pub fn render_ask(from: &str, reply_to: &str, body: &str) -> (r: Result<String, EnvelopeError>)
    ensures
        rendered(
            r,
            first_fault(attr_fault("from"@, from@), attr_fault("reply-to"@, reply_to@)),
            ask_text(from@, reply_to@, body@),
        ),
{
    if let Err(error) = validated_attr("from", from) {
        return Err(error);
    }
    if let Err(error) = validated_attr("reply-to", reply_to) {
        return Err(error);
    }
    Ok(
        "<kelpie from=".to_owned().concat(from).concat(" reply-to=").concat(reply_to).concat(
            ">\n",
        ).concat(escape_body(body).as_str()).concat("\n</kelpie>"),
    )
}

/// A reply to an ask, with its disposition as a flag.
pub open spec fn reply_text(
    from: Seq<char>,
    re: Seq<char>,
    flag: Seq<char>,
    body: Seq<char>,
) -> Seq<char> {
    "<kelpie from="@ + from + " re="@ + re + flag + escaped(body) + "\n</kelpie>"@
}

/// Render a progress reply correlated to an ask message ID.
pub fn render_progress(from: &str, re: &str, body: &str) -> (r: Result<String, EnvelopeError>)
    ensures
        rendered(
            r,
            first_fault(attr_fault("from"@, from@), attr_fault("re"@, re@)),
            reply_text(from@, re@, " progress>\n"@, body@),
        ),
{
    if let Err(error) = validated_attr("from", from) {
        return Err(error);
    }
    if let Err(error) = validated_attr("re", re) {
        return Err(error);
    }
    Ok(
        "<kelpie from=".to_owned().concat(from).concat(" re=").concat(re).concat(
            " progress>\n",
        ).concat(escape_body(body).as_str()).concat("\n</kelpie>"),
    )
}

/// Render a final reply correlated to an ask message ID.
pub fn render_final(from: &str, re: &str, body: &str) -> (r: Result<String, EnvelopeError>)
    ensures
        rendered(
            r,
            first_fault(attr_fault("from"@, from@), attr_fault("re"@, re@)),
            reply_text(from@, re@, " final>\n"@, body@),
        ),
{
    if let Err(error) = validated_attr("from", from) {
        return Err(error);
    }
    if let Err(error) = validated_attr("re", re) {
        return Err(error);
    }
    Ok(
        "<kelpie from=".to_owned().concat(from).concat(" re=").concat(re).concat(
            " final>\n",
        ).concat(escape_body(body).as_str()).concat("\n</kelpie>"),
    )
}

/// A reminder of one unresolved ask.
pub open spec fn reminder_text(waiting: Seq<char>, reply_to: Seq<char>) -> Seq<char> {
    "<kelpie-reminder waiting="@ + waiting + " reply-to="@ + reply_to
        + ">\nPending final reply. Reply with: kelpie reply "@ + reply_to
        + " --final --file PATH"@ + "\n</kelpie-reminder>"@
}

/// Render a protocol reminder for one unresolved ask.
pub fn render_reminder(waiting: &str, reply_to: &str) -> (r: Result<String, EnvelopeError>)
    ensures
        rendered(
            r,
            first_fault(attr_fault("waiting"@, waiting@), attr_fault("reply-to"@, reply_to@)),
            reminder_text(waiting@, reply_to@),
        ),
{
    if let Err(error) = validated_attr("waiting", waiting) {
        return Err(error);
    }
    if let Err(error) = validated_attr("reply-to", reply_to) {
        return Err(error);
    }
    Ok(
        "<kelpie-reminder waiting=".to_owned().concat(waiting).concat(" reply-to=").concat(
            reply_to,
        ).concat(">\nPending final reply. Reply with: kelpie reply ").concat(reply_to).concat(
            " --final --file PATH",
        ).concat("\n</kelpie-reminder>"),
    )
}

/// Kelpie's own record of a cancellation.
pub open spec fn cancellation_text(
    waiting: Seq<char>,
    cancelled_ask: Seq<char>,
    reason: Seq<char>,
) -> Seq<char> {
    "<kelpie-system cancellation waiting="@ + waiting + " cancelled-ask="@ + cancelled_ask + ">\n"@
        + escaped(reason) + "\n</kelpie-system>"@
}

/// Render a Kelpie-authored cancellation of one of the reader's own asks.
///
/// The tag is `kelpie-system`, not a sender envelope: the response is
/// Kelpie's own record of the cancellation and is never attributed to another
/// agent.
pub fn render_cancellation(waiting: &str, cancelled_ask: &str, reason: &str) -> (r: Result<
    String,
    EnvelopeError,
>)
    ensures
        rendered(
            r,
            first_fault(
                attr_fault("waiting"@, waiting@),
                attr_fault("cancelled-ask"@, cancelled_ask@),
            ),
            cancellation_text(waiting@, cancelled_ask@, reason@),
        ),
{
    if let Err(error) = validated_attr("waiting", waiting) {
        return Err(error);
    }
    if let Err(error) = validated_attr("cancelled-ask", cancelled_ask) {
        return Err(error);
    }
    Ok(
        "<kelpie-system cancellation waiting=".to_owned().concat(waiting).concat(
            " cancelled-ask=",
        ).concat(cancelled_ask).concat(">\n").concat(escape_body(reason).as_str()).concat(
            "\n</kelpie-system>",
        ),
    )
}

/// The prepare phase of a renew: what is about to happen, what to prepare, and
/// the resume prompt quoted.
pub open spec fn prepare_text(
    from: Seq<char>,
    reply_to: Seq<char>,
    cycle: int,
    deadline_ms: int,
    prepare_prompt: Seq<char>,
    resume_prompt: Seq<char>,
) -> Seq<char> {
    "<kelpie-renew from="@ + from + " reply-to="@ + reply_to + " prepare cycle="@ + int_text(cycle)
        + " deadline-ms="@ + int_text(deadline_ms)
        + ">\nYour context is being renewed so it stays a fixed size. This is routine, not a failure.\n"@
        + "You will be cleared and immediately resumed.\n\n"@
        + "Survives: files on disk, your working directory, your Kelpie identity, and every\n"@
        + "obligation you owe.\n"@
        + "Does not survive: this conversation, your in-context reasoning, and anything you have\n"@
        + "decided but not written down.\n\nPrepare now:\n"@ + escaped(prepare_prompt)
        + "\n\nAfter the clear your only input will be the text below, quoted here for reference.\n"@
        + "Do not act on it now. Prepare so that it will be enough on its own.\n&lt;resume&gt;\n"@
        + escaped(resume_prompt) + "\n&lt;/resume&gt;\n\n"@
        + "Reply when your checkpoint is complete: kelpie reply "@ + reply_to + " --final\n"@
        + "Reply --defer if now is a bad time, or say so if some state could not be written down."@
        + "\n</kelpie-renew>"@
}

/// Render the prepare phase of a renew as a disclosed ask.
///
/// The resume prompt is quoted verbatim because the checkpoint's only reader is
/// this same agent with an empty context holding nothing else. An agent that
/// cannot see what it will be told writes for a reader it cannot model, and
/// produces a checkpoint that looks complete and does not work.
///
/// The quotation is escaped and explicitly marked not-to-be-acted-on: it is
/// instructions addressed to a future self, and following them now would skip
/// the checkpoint entirely.
pub fn render_renew_prepare(
    from: &str,
    reply_to: &str,
    cycle: i64,
    deadline_ms: i64,
    prepare_prompt: &str,
    resume_prompt: &str,
) -> (r: Result<String, EnvelopeError>)
    ensures
        rendered(
            r,
            first_fault(attr_fault("from"@, from@), attr_fault("reply-to"@, reply_to@)),
            prepare_text(
                from@,
                reply_to@,
                cycle as int,
                deadline_ms as int,
                prepare_prompt@,
                resume_prompt@,
            ),
        ),
{
    if let Err(error) = validated_attr("from", from) {
        return Err(error);
    }
    if let Err(error) = validated_attr("reply-to", reply_to) {
        return Err(error);
    }
    let head = "<kelpie-renew from=".to_owned().concat(from).concat(" reply-to=").concat(
        reply_to,
    ).concat(" prepare cycle=").concat(signed_decimal(cycle).as_str()).concat(
        " deadline-ms=",
    ).concat(signed_decimal(deadline_ms).as_str());
    let briefing = head.concat(
        ">\nYour context is being renewed so it stays a fixed size. This is routine, not a failure.\n",
    ).concat("You will be cleared and immediately resumed.\n\n").concat(
        "Survives: files on disk, your working directory, your Kelpie identity, and every\n",
    ).concat("obligation you owe.\n").concat(
        "Does not survive: this conversation, your in-context reasoning, and anything you have\n",
    ).concat("decided but not written down.\n\nPrepare now:\n");
    Ok(
        briefing.concat(escape_body(prepare_prompt).as_str()).concat(
            "\n\nAfter the clear your only input will be the text below, quoted here for reference.\n",
        ).concat(
            "Do not act on it now. Prepare so that it will be enough on its own.\n&lt;resume&gt;\n",
        ).concat(escape_body(resume_prompt).as_str()).concat("\n&lt;/resume&gt;\n\n").concat(
            "Reply when your checkpoint is complete: kelpie reply ",
        ).concat(reply_to).concat(" --final\n").concat(
            "Reply --defer if now is a bad time, or say so if some state could not be written down.",
        ).concat("\n</kelpie-renew>"),
    )
}

/// The resume prompt of a freshly cleared incarnation.
pub open spec fn resume_text(
    from: Seq<char>,
    cycle: int,
    checkpointed_at_ms: int,
    resume_prompt: Seq<char>,
) -> Seq<char> {
    "<kelpie-renew from="@ + from + " resumed cycle="@ + int_text(cycle) + " checkpointed-at-ms="@
        + int_text(checkpointed_at_ms)
        + ">\nYou are a continuation. Your context was cleared after a prior instance of you confirmed\n"@
        + "its checkpoint. Work from what it wrote rather than starting over, and do not assume any\n"@
        + "conversation happened before this message.\n\n"@
        + "Obligations you owed are still owed; run `kelpie pending` to see them.\n\n"@ + escaped(
        resume_prompt,
    ) + "\n</kelpie-renew>"@
}

/// Render the resume prompt injected into a freshly cleared incarnation.
///
/// A cleared agent handed a bare instruction cannot tell whether it is mid-task
/// or starting one, so it re-plans, redoes finished work, or greets an operator
/// who is not there. The envelope says plainly that this is a continuation, and
/// carries the cycle number so a standing policy's resume prompt can be seen for
/// what it is: something that has run before and will run again.
pub fn render_renew_resume(
    from: &str,
    cycle: i64,
    checkpointed_at_ms: i64,
    resume_prompt: &str,
) -> (r: Result<String, EnvelopeError>)
    ensures
        rendered(
            r,
            attr_fault("from"@, from@),
            resume_text(from@, cycle as int, checkpointed_at_ms as int, resume_prompt@),
        ),
{
    if let Err(error) = validated_attr("from", from) {
        return Err(error);
    }
    let head = "<kelpie-renew from=".to_owned().concat(from).concat(" resumed cycle=").concat(
        signed_decimal(cycle).as_str(),
    ).concat(" checkpointed-at-ms=").concat(signed_decimal(checkpointed_at_ms).as_str());
    Ok(
        head.concat(
            ">\nYou are a continuation. Your context was cleared after a prior instance of you confirmed\n",
        ).concat(
            "its checkpoint. Work from what it wrote rather than starting over, and do not assume any\n",
        ).concat("conversation happened before this message.\n\n").concat(
            "Obligations you owed are still owed; run `kelpie pending` to see them.\n\n",
        ).concat(escape_body(resume_prompt).as_str()).concat("\n</kelpie-renew>"),
    )
}

/// Whether no character opens a tag or ends one.
pub open spec fn is_plain(s: Seq<char>) -> bool {
    forall|i: int| 0 <= i < s.len() ==> #[trigger] s[i] != '<' && s[i] != '>'
}

/// Whether a text is one element. Its opening tag runs from its start to `head`, its
/// closing tag is at its end, and no angle bracket stands anywhere but at the ends of
/// these two tags.
pub open spec fn is_element(text: Seq<char>, closing: Seq<char>, head: int) -> bool {
    let end = text.len() - closing.len();
    &&& 0 < head < end
    &&& text.subrange(end, text.len() as int) == closing
    &&& forall|i: int|
        0 <= i < text.len() ==> (#[trigger] text[i] == '<' <==> i == 0 || i == end) && (text[i]
            == '>' <==> i == head || i == text.len() - 1)
}

/// Whether a text is one element: no tag is opened or closed between its opening tag and
/// its closing tag.
pub open spec fn is_sealed(text: Seq<char>, closing: Seq<char>) -> bool {
    exists|head: int| is_element(text, closing, head)
}

/// Whether a text opens a tag at its start, and does not end it.
spec fn is_open(s: Seq<char>) -> bool {
    s.len() > 0 && forall|i: int|
        0 <= i < s.len() ==> (#[trigger] s[i] == '<' <==> i == 0) && s[i] != '>'
}

/// Whether a text is an opening tag, ended at `head`, with plain text behind it.
spec fn is_inside(s: Seq<char>, head: int) -> bool {
    0 < head < s.len() && forall|i: int|
        0 <= i < s.len() ==> (#[trigger] s[i] == '<' <==> i == 0) && (s[i] == '>' <==> i == head)
}

/// Whether a text ends a tag at `at`, and is plain otherwise.
spec fn ends_tag(s: Seq<char>, at: int) -> bool {
    0 <= at < s.len() && forall|i: int|
        0 <= i < s.len() ==> #[trigger] s[i] != '<' && (s[i] == '>' <==> i == at)
}

/// Whether a text is a tag and nothing else.
spec fn is_tag(s: Seq<char>) -> bool {
    s.len() > 1 && forall|i: int|
        0 <= i < s.len() ==> (#[trigger] s[i] == '<' <==> i == 0) && (s[i] == '>' <==> i
            == s.len() - 1)
}

/// A text with more texts behind it.
spec fn followed(s: Seq<char>, parts: Seq<Seq<char>>) -> Seq<char>
    decreases parts.len(),
{
    if parts.len() == 0 {
        s
    } else {
        followed(s + parts[0], parts.skip(1))
    }
}

proof fn lemma_stays_open(s: Seq<char>, parts: Seq<Seq<char>>)
    requires
        is_open(s),
        forall|i: int| 0 <= i < parts.len() ==> is_plain(#[trigger] parts[i]),
    ensures
        is_open(followed(s, parts)),
    decreases parts.len(),
{
    if parts.len() > 0 {
        assert(is_plain(parts[0]));
        assert forall|i: int| 0 <= i < parts.skip(1).len() implies is_plain(
            #[trigger] parts.skip(1)[i],
        ) by {
            assert(is_plain(parts[i + 1]));
        }
        lemma_stays_open(s + parts[0], parts.skip(1));
    }
}

proof fn lemma_stays_inside(s: Seq<char>, head: int, parts: Seq<Seq<char>>)
    requires
        is_inside(s, head),
        forall|i: int| 0 <= i < parts.len() ==> is_plain(#[trigger] parts[i]),
    ensures
        is_inside(followed(s, parts), head),
    decreases parts.len(),
{
    if parts.len() > 0 {
        assert(is_plain(parts[0]));
        assert forall|i: int| 0 <= i < parts.skip(1).len() implies is_plain(
            #[trigger] parts.skip(1)[i],
        ) by {
            assert(is_plain(parts[i + 1]));
        }
        lemma_stays_inside(s + parts[0], head, parts.skip(1));
    }
}

/// An opening tag made of plain parts, plain parts in it, and its closing tag are one
/// element.
proof fn lemma_sealed(
    start: Seq<char>,
    attributes: Seq<Seq<char>>,
    tag_end: Seq<char>,
    at: int,
    inner: Seq<Seq<char>>,
    tail: Seq<char>,
    closing: Seq<char>,
)
    requires
        is_open(start),
        forall|i: int| 0 <= i < attributes.len() ==> is_plain(#[trigger] attributes[i]),
        ends_tag(tag_end, at),
        forall|i: int| 0 <= i < inner.len() ==> is_plain(#[trigger] inner[i]),
        is_tag(closing),
        tail == "\n"@ + closing,
    ensures
        is_sealed(followed(followed(start, attributes) + tag_end, inner) + tail, closing),
{
    reveal_strlit("\n");
    let tag = followed(start, attributes);
    lemma_stays_open(start, attributes);
    let head = tag.len() + at;
    assert(is_inside(tag + tag_end, head)) by {
        assert forall|i: int| 0 <= i < (tag + tag_end).len() implies ((#[trigger] (tag
            + tag_end)[i]) == '<' <==> i == 0) && ((tag + tag_end)[i] == '>' <==> i == head) by {
            if i >= tag.len() {
                assert((tag + tag_end)[i] == tag_end[i - tag.len()]);
            } else {
                assert((tag + tag_end)[i] == tag[i]);
            }
        }
    }
    lemma_stays_inside(tag + tag_end, head, inner);
    let body = followed(tag + tag_end, inner);
    let text = body + tail;
    let end = text.len() - closing.len();
    assert(text.subrange(end, text.len() as int) =~= closing);
    assert forall|i: int| 0 <= i < text.len() implies (#[trigger] text[i] == '<' <==> i == 0 || i
        == end) && (text[i] == '>' <==> i == head || i == text.len() - 1) by {
        if i < body.len() {
            assert(text[i] == body[i]);
        } else if i == body.len() {
            assert(text[i] == tail[0] && tail[0] == '\n');
        } else {
            assert(text[i] == closing[i - end]);
        }
    }
    assert(is_element(text, closing, head));
}

proof fn lemma_attr_is_plain(value: Seq<char>)
    requires
        is_attr_safe(value),
    ensures
        is_plain(value),
{
    assert forall|i: int| 0 <= i < value.len() implies #[trigger] value[i] != '<' && value[i]
        != '>' by {
        assert(is_attr_char(value[i]));
    }
}

proof fn lemma_number_is_plain(n: int)
    ensures
        is_plain(int_text(n)),
{
    let m: nat = if n < 0 {
        (-n) as nat
    } else {
        n as nat
    };
    lemma_decimal_denotes(m);
    assert forall|i: int| 0 <= i < int_text(n).len() implies #[trigger] int_text(n)[i] != '<'
        && int_text(n)[i] != '>' by {
        if n < 0 {
            if i > 0 {
                assert(int_text(n)[i] == decimal_text(m)[i - 1]);
                assert(is_digit(decimal_text(m)[i - 1]));
            }
        } else {
            assert(is_digit(decimal_text(m)[i]));
        }
    }
}

/// An escaped body holds no angle bracket, whatever the body holds.
pub proof fn law_escaped_body_holds_no_bracket(body: Seq<char>)
    ensures
        forall|i: int|
            0 <= i < escaped(body).len() ==> #[trigger] escaped(body)[i] != '<' && escaped(body)[i]
                != '>',
    decreases body.len(),
{
    if body.len() > 0 {
        law_escaped_body_holds_no_bracket(body.drop_last());
        reveal_strlit("&amp;");
        reveal_strlit("&lt;");
        reveal_strlit("&gt;");
        let before = escaped(body.drop_last());
        let last = escaped_char(body.last());
        assert forall|i: int| 0 <= i < escaped(body).len() implies #[trigger] escaped(body)[i]
            != '<' && escaped(body)[i] != '>' by {
            if i < before.len() {
                assert(escaped(body)[i] == before[i]);
            } else {
                assert(escaped(body)[i] == last[i - before.len()]);
            }
        }
    }
}

/// The body that an escaped text stands for.
pub open spec fn unescaped(text: Seq<char>) -> Seq<char>
    decreases text.len(),
{
    if text.len() == 0 {
        Seq::empty()
    } else if text[0] != '&' {
        seq![text[0]] + unescaped(text.skip(1))
    } else if text.len() >= 5 && text.take(5) == "&amp;"@ {
        seq!['&'] + unescaped(text.skip(5))
    } else if text.len() >= 4 && text.take(4) == "&lt;"@ {
        seq!['<'] + unescaped(text.skip(4))
    } else if text.len() >= 4 && text.take(4) == "&gt;"@ {
        seq!['>'] + unescaped(text.skip(4))
    } else {
        text
    }
}

proof fn lemma_escaped_front(body: Seq<char>)
    requires
        body.len() > 0,
    ensures
        escaped(body) == escaped_char(body[0]) + escaped(body.skip(1)),
    decreases body.len(),
{
    if body.len() == 1 {
        assert(body.drop_last() =~= Seq::<char>::empty());
        assert(body.skip(1) =~= Seq::<char>::empty());
        assert(escaped(body.drop_last()) =~= Seq::<char>::empty());
        assert(escaped(body) =~= escaped_char(body[0]) + escaped(body.skip(1)));
    } else {
        lemma_escaped_front(body.drop_last());
        assert(body.drop_last().skip(1) =~= body.skip(1).drop_last());
        assert(body.skip(1).last() == body.last());
        assert(escaped(body) =~= escaped_char(body[0]) + escaped(body.skip(1)));
    }
}

/// Escaping loses nothing: the body can be read back from the escaped text.
pub proof fn law_escaped_body_reads_back(body: Seq<char>)
    ensures
        unescaped(escaped(body)) == body,
    decreases body.len(),
{
    if body.len() > 0 {
        let c = body[0];
        let rest = body.skip(1);
        let code = escaped_char(c);
        let text = escaped(body);
        lemma_escaped_front(body);
        law_escaped_body_reads_back(rest);
        reveal_strlit("&amp;");
        reveal_strlit("&lt;");
        reveal_strlit("&gt;");
        assert(text.skip(code.len() as int) =~= escaped(rest));
        assert(text.take(code.len() as int) =~= code);
        if c == '<' || c == '>' {
            assert(text.len() >= 5 ==> text.take(5)[1] == code[1]);
        }
        if c == '>' {
            assert(text.take(4)[1] == 'g');
        }
        assert(body =~= seq![c] + rest);
    }
}

/// Two bodies that are written alike are the same.
pub proof fn law_escape_is_injective(a: Seq<char>, b: Seq<char>)
    requires
        escaped(a) == escaped(b),
    ensures
        a == b,
{
    law_escaped_body_reads_back(a);
    law_escaped_body_reads_back(b);
}

proof fn lemma_escaped_is_plain(body: Seq<char>)
    ensures
        is_plain(escaped(body)),
{
    law_escaped_body_holds_no_bracket(body);
}

/// A tell is one element, whatever its body holds.
pub proof fn law_tell_cannot_be_forged(from: Seq<char>, body: Seq<char>)
    requires
        attr_fault("from"@, from) is None,
    ensures
        is_sealed(tell_text(from, body), "</kelpie>"@),
{
    reveal_strlit("<kelpie from=");
    reveal_strlit(">\n");
    reveal_strlit("\n</kelpie>");
    reveal_strlit("</kelpie>");
    reveal_strlit("\n");
    lemma_attr_is_plain(from);
    lemma_escaped_is_plain(body);
    assert("\n</kelpie>"@ =~= "\n"@ + "</kelpie>"@);
    let attributes = seq![from];
    let inner = seq![escaped(body)];
    reveal_with_fuel(followed, 2);
    lemma_sealed(
        "<kelpie from="@,
        attributes,
        ">\n"@,
        0,
        inner,
        "\n</kelpie>"@,
        "</kelpie>"@,
    );
}

/// An ask is one element, whatever its body holds.
pub proof fn law_ask_cannot_be_forged(from: Seq<char>, reply_to: Seq<char>, body: Seq<char>)
    requires
        attr_fault("from"@, from) is None,
        attr_fault("reply-to"@, reply_to) is None,
    ensures
        is_sealed(ask_text(from, reply_to, body), "</kelpie>"@),
{
    reveal_strlit("<kelpie from=");
    reveal_strlit(" reply-to=");
    reveal_strlit(">\n");
    reveal_strlit("\n</kelpie>");
    reveal_strlit("</kelpie>");
    reveal_strlit("\n");
    lemma_attr_is_plain(from);
    lemma_attr_is_plain(reply_to);
    lemma_escaped_is_plain(body);
    assert("\n</kelpie>"@ =~= "\n"@ + "</kelpie>"@);
    let attributes = seq![from, " reply-to="@, reply_to];
    let inner = seq![escaped(body)];
    reveal_with_fuel(followed, 4);
    lemma_sealed(
        "<kelpie from="@,
        attributes,
        ">\n"@,
        0,
        inner,
        "\n</kelpie>"@,
        "</kelpie>"@,
    );
}

/// A progress reply is one element, whatever its body holds.
pub proof fn law_progress_cannot_be_forged(from: Seq<char>, re: Seq<char>, body: Seq<char>)
    requires
        attr_fault("from"@, from) is None,
        attr_fault("re"@, re) is None,
    ensures
        is_sealed(reply_text(from, re, " progress>\n"@, body), "</kelpie>"@),
{
    reveal_strlit("<kelpie from=");
    reveal_strlit(" re=");
    reveal_strlit(" progress>\n");
    reveal_strlit("\n</kelpie>");
    reveal_strlit("</kelpie>");
    reveal_strlit("\n");
    lemma_attr_is_plain(from);
    lemma_attr_is_plain(re);
    lemma_escaped_is_plain(body);
    assert("\n</kelpie>"@ =~= "\n"@ + "</kelpie>"@);
    let attributes = seq![from, " re="@, re];
    let inner = seq![escaped(body)];
    reveal_with_fuel(followed, 4);
    lemma_sealed(
        "<kelpie from="@,
        attributes,
        " progress>\n"@,
        9,
        inner,
        "\n</kelpie>"@,
        "</kelpie>"@,
    );
}

/// A final reply is one element, whatever its body holds.
pub proof fn law_final_cannot_be_forged(from: Seq<char>, re: Seq<char>, body: Seq<char>)
    requires
        attr_fault("from"@, from) is None,
        attr_fault("re"@, re) is None,
    ensures
        is_sealed(reply_text(from, re, " final>\n"@, body), "</kelpie>"@),
{
    reveal_strlit("<kelpie from=");
    reveal_strlit(" re=");
    reveal_strlit(" final>\n");
    reveal_strlit("\n</kelpie>");
    reveal_strlit("</kelpie>");
    reveal_strlit("\n");
    lemma_attr_is_plain(from);
    lemma_attr_is_plain(re);
    lemma_escaped_is_plain(body);
    assert("\n</kelpie>"@ =~= "\n"@ + "</kelpie>"@);
    let attributes = seq![from, " re="@, re];
    let inner = seq![escaped(body)];
    reveal_with_fuel(followed, 4);
    lemma_sealed(
        "<kelpie from="@,
        attributes,
        " final>\n"@,
        6,
        inner,
        "\n</kelpie>"@,
        "</kelpie>"@,
    );
}

/// A reminder is one element.
pub proof fn law_reminder_is_sealed(waiting: Seq<char>, reply_to: Seq<char>)
    requires
        attr_fault("waiting"@, waiting) is None,
        attr_fault("reply-to"@, reply_to) is None,
    ensures
        is_sealed(reminder_text(waiting, reply_to), "</kelpie-reminder>"@),
{
    reveal_strlit("<kelpie-reminder waiting=");
    reveal_strlit(" reply-to=");
    reveal_strlit(">\nPending final reply. Reply with: kelpie reply ");
    reveal_strlit(" --final --file PATH");
    reveal_strlit("\n</kelpie-reminder>");
    reveal_strlit("</kelpie-reminder>");
    reveal_strlit("\n");
    lemma_attr_is_plain(waiting);
    lemma_attr_is_plain(reply_to);
    assert("\n</kelpie-reminder>"@ =~= "\n"@ + "</kelpie-reminder>"@);
    let attributes = seq![waiting, " reply-to="@, reply_to];
    let inner = seq![reply_to, " --final --file PATH"@];
    reveal_with_fuel(followed, 4);
    lemma_sealed(
        "<kelpie-reminder waiting="@,
        attributes,
        ">\nPending final reply. Reply with: kelpie reply "@,
        0,
        inner,
        "\n</kelpie-reminder>"@,
        "</kelpie-reminder>"@,
    );
}

/// A cancellation is one element, whatever its reason holds.
pub proof fn law_cancellation_cannot_be_forged(waiting: Seq<char>, cancelled_ask: Seq<char>, reason: Seq<char>)
    requires
        attr_fault("waiting"@, waiting) is None,
        attr_fault("cancelled-ask"@, cancelled_ask) is None,
    ensures
        is_sealed(cancellation_text(waiting, cancelled_ask, reason), "</kelpie-system>"@),
{
    reveal_strlit("<kelpie-system cancellation waiting=");
    reveal_strlit(" cancelled-ask=");
    reveal_strlit(">\n");
    reveal_strlit("\n</kelpie-system>");
    reveal_strlit("</kelpie-system>");
    reveal_strlit("\n");
    lemma_attr_is_plain(waiting);
    lemma_attr_is_plain(cancelled_ask);
    lemma_escaped_is_plain(reason);
    assert("\n</kelpie-system>"@ =~= "\n"@ + "</kelpie-system>"@);
    let attributes = seq![waiting, " cancelled-ask="@, cancelled_ask];
    let inner = seq![escaped(reason)];
    reveal_with_fuel(followed, 4);
    lemma_sealed(
        "<kelpie-system cancellation waiting="@,
        attributes,
        ">\n"@,
        0,
        inner,
        "\n</kelpie-system>"@,
        "</kelpie-system>"@,
    );
}

/// A prepare is one element, whatever the two prompts hold: neither can end it
/// early and have the rest read as unwrapped instructions.
pub proof fn law_prepare_cannot_be_forged(
    from: Seq<char>,
    reply_to: Seq<char>,
    cycle: int,
    deadline_ms: int,
    prepare_prompt: Seq<char>,
    resume_prompt: Seq<char>,
)
    requires
        attr_fault("from"@, from) is None,
        attr_fault("reply-to"@, reply_to) is None,
    ensures
        is_sealed(
            prepare_text(from, reply_to, cycle, deadline_ms, prepare_prompt, resume_prompt), "</kelpie-renew>"@),
{
    reveal_strlit("<kelpie-renew from=");
    reveal_strlit(" reply-to=");
    reveal_strlit(" prepare cycle=");
    reveal_strlit(" deadline-ms=");
    reveal_strlit(
        ">\nYour context is being renewed so it stays a fixed size. This is routine, not a failure.\n",
    );
    reveal_strlit("You will be cleared and immediately resumed.\n\n");
    reveal_strlit(
        "Survives: files on disk, your working directory, your Kelpie identity, and every\n",
    );
    reveal_strlit("obligation you owe.\n");
    reveal_strlit(
        "Does not survive: this conversation, your in-context reasoning, and anything you have\n",
    );
    reveal_strlit("decided but not written down.\n\nPrepare now:\n");
    reveal_strlit(
        "\n\nAfter the clear your only input will be the text below, quoted here for reference.\n",
    );
    reveal_strlit(
        "Do not act on it now. Prepare so that it will be enough on its own.\n&lt;resume&gt;\n",
    );
    reveal_strlit("\n&lt;/resume&gt;\n\n");
    reveal_strlit("Reply when your checkpoint is complete: kelpie reply ");
    reveal_strlit(" --final\n");
    reveal_strlit(
        "Reply --defer if now is a bad time, or say so if some state could not be written down.",
    );
    reveal_strlit("\n</kelpie-renew>");
    reveal_strlit("</kelpie-renew>");
    reveal_strlit("\n");
    lemma_attr_is_plain(from);
    lemma_attr_is_plain(reply_to);
    lemma_number_is_plain(cycle);
    lemma_number_is_plain(deadline_ms);
    lemma_escaped_is_plain(prepare_prompt);
    lemma_escaped_is_plain(resume_prompt);
    assert("\n</kelpie-renew>"@ =~= "\n"@ + "</kelpie-renew>"@);
    let attributes = seq![
        from,
        " reply-to="@,
        reply_to,
        " prepare cycle="@,
        int_text(cycle),
        " deadline-ms="@,
        int_text(deadline_ms),
    ];
    let inner = seq![
        "You will be cleared and immediately resumed.\n\n"@,
        "Survives: files on disk, your working directory, your Kelpie identity, and every\n"@,
        "obligation you owe.\n"@,
        "Does not survive: this conversation, your in-context reasoning, and anything you have\n"@,
        "decided but not written down.\n\nPrepare now:\n"@,
        escaped(prepare_prompt),
        "\n\nAfter the clear your only input will be the text below, quoted here for reference.\n"@,
        "Do not act on it now. Prepare so that it will be enough on its own.\n&lt;resume&gt;\n"@,
        escaped(resume_prompt),
        "\n&lt;/resume&gt;\n\n"@,
        "Reply when your checkpoint is complete: kelpie reply "@,
        reply_to,
        " --final\n"@,
        "Reply --defer if now is a bad time, or say so if some state could not be written down."@,
    ];
    reveal_with_fuel(followed, 15);
    lemma_sealed(
        "<kelpie-renew from="@,
        attributes,
        ">\nYour context is being renewed so it stays a fixed size. This is routine, not a failure.\n"@,
        0,
        inner,
        "\n</kelpie-renew>"@,
        "</kelpie-renew>"@,
    );
}

/// A resume is one element, whatever the prompt holds.
pub proof fn law_resume_cannot_be_forged(from: Seq<char>, cycle: int, checkpointed_at_ms: int, resume_prompt: Seq<char>)
    requires
        attr_fault("from"@, from) is None,
    ensures
        is_sealed(resume_text(from, cycle, checkpointed_at_ms, resume_prompt), "</kelpie-renew>"@),
{
    reveal_strlit("<kelpie-renew from=");
    reveal_strlit(" resumed cycle=");
    reveal_strlit(" checkpointed-at-ms=");
    reveal_strlit(
        ">\nYou are a continuation. Your context was cleared after a prior instance of you confirmed\n",
    );
    reveal_strlit(
        "its checkpoint. Work from what it wrote rather than starting over, and do not assume any\n",
    );
    reveal_strlit("conversation happened before this message.\n\n");
    reveal_strlit(
        "Obligations you owed are still owed; run `kelpie pending` to see them.\n\n",
    );
    reveal_strlit("\n</kelpie-renew>");
    reveal_strlit("</kelpie-renew>");
    reveal_strlit("\n");
    lemma_attr_is_plain(from);
    lemma_number_is_plain(cycle);
    lemma_number_is_plain(checkpointed_at_ms);
    lemma_escaped_is_plain(resume_prompt);
    assert("\n</kelpie-renew>"@ =~= "\n"@ + "</kelpie-renew>"@);
    let attributes = seq![
        from,
        " resumed cycle="@,
        int_text(cycle),
        " checkpointed-at-ms="@,
        int_text(checkpointed_at_ms),
    ];
    let inner = seq![
        "its checkpoint. Work from what it wrote rather than starting over, and do not assume any\n"@,
        "conversation happened before this message.\n\n"@,
        "Obligations you owed are still owed; run `kelpie pending` to see them.\n\n"@,
        escaped(resume_prompt),
    ];
    reveal_with_fuel(followed, 6);
    lemma_sealed(
        "<kelpie-renew from="@,
        attributes,
        ">\nYou are a continuation. Your context was cleared after a prior instance of you confirmed\n"@,
        0,
        inner,
        "\n</kelpie-renew>"@,
        "</kelpie-renew>"@,
    );
}

/// Whether a text is a value right behind a label, with those texts around the two.
pub open spec fn stands_at(
    text: Seq<char>,
    before: Seq<char>,
    label: Seq<char>,
    value: Seq<char>,
    behind: Seq<char>,
) -> bool {
    text == before + label + value + behind
}

/// Whether a value stands right behind a label somewhere in a text.
pub open spec fn names(text: Seq<char>, label: Seq<char>, value: Seq<char>) -> bool {
    exists|before: Seq<char>, behind: Seq<char>| #[trigger]
        stands_at(text, before, label, value, behind)
}

broadcast proof fn lemma_names_at(before: Seq<char>, label: Seq<char>, value: Seq<char>)
    ensures
        #[trigger] names(before + label + value, label, value),
{
    let none = Seq::<char>::empty();
    assert(before + label + value =~= before + label + value + none);
    assert(stands_at(before + label + value, before, label, value, none));
}

broadcast proof fn lemma_names_more(
    text: Seq<char>,
    more: Seq<char>,
    label: Seq<char>,
    value: Seq<char>,
)
    requires
        names(text, label, value),
    ensures
        #[trigger] names(text + more, label, value),
{
    let (before, behind) = choose|before: Seq<char>, behind: Seq<char>| #[trigger]
        stands_at(text, before, label, value, behind);
    assert(text + more =~= before + label + value + (behind + more));
    assert(stands_at(text + more, before, label, value, behind + more));
}

broadcast proof fn lemma_names_first(label: Seq<char>, value: Seq<char>)
    ensures
        #[trigger] names(label + value, label, value),
{
    let none = Seq::<char>::empty();
    assert(label + value =~= none + label + value + none);
    assert(stands_at(label + value, none, label, value, none));
}

/// A tell names its sender, and holds its body escaped.
#[verifier::spinoff_prover]
#[verifier::rlimit(60)]
pub proof fn law_tell_names_its_sender(from: Seq<char>, body: Seq<char>)
    ensures
        ({
            let text = tell_text(from, body);
            &&& names(text, "<kelpie from="@, from)
            &&& names(text, ">\n"@, escaped(body))
        }),
{
    broadcast use {lemma_names_at, lemma_names_first, lemma_names_more};

}

/// An ask names its sender and what a reply goes to, and holds its body escaped.
#[verifier::spinoff_prover]
#[verifier::rlimit(60)]
pub proof fn law_ask_names_its_sender(from: Seq<char>, reply_to: Seq<char>, body: Seq<char>)
    ensures
        ({
            let text = ask_text(from, reply_to, body);
            &&& names(text, "<kelpie from="@, from)
            &&& names(text, " reply-to="@, reply_to)
            &&& names(text, ">\n"@, escaped(body))
        }),
{
    broadcast use {lemma_names_at, lemma_names_first, lemma_names_more};

}

/// A reply names its sender and the ask that it answers, and holds its body escaped behind its flag.
#[verifier::spinoff_prover]
#[verifier::rlimit(60)]
pub proof fn law_reply_names_its_ask(from: Seq<char>, re: Seq<char>, flag: Seq<char>, body: Seq<char>)
    ensures
        ({
            let text = reply_text(from, re, flag, body);
            &&& names(text, "<kelpie from="@, from)
            &&& names(text, " re="@, re)
            &&& names(text, flag, escaped(body))
        }),
{
    broadcast use {lemma_names_at, lemma_names_first, lemma_names_more};

}

/// A reminder names who waits and the ask, twice: as what it is of, and in the command that answers it.
#[verifier::spinoff_prover]
#[verifier::rlimit(60)]
pub proof fn law_reminder_names_its_ask(waiting: Seq<char>, reply_to: Seq<char>)
    ensures
        ({
            let text = reminder_text(waiting, reply_to);
            &&& names(text, "<kelpie-reminder waiting="@, waiting)
            &&& names(text, " reply-to="@, reply_to)
            &&& names(text, ">\nPending final reply. Reply with: kelpie reply "@, reply_to)
        }),
{
    broadcast use {lemma_names_at, lemma_names_first, lemma_names_more};

}

/// A cancellation names who waits and the ask that was cancelled, and holds its reason escaped.
#[verifier::spinoff_prover]
#[verifier::rlimit(60)]
pub proof fn law_cancellation_names_its_ask(waiting: Seq<char>, cancelled_ask: Seq<char>, reason: Seq<char>)
    ensures
        ({
            let text = cancellation_text(waiting, cancelled_ask, reason);
            &&& names(text, "<kelpie-system cancellation waiting="@, waiting)
            &&& names(text, " cancelled-ask="@, cancelled_ask)
            &&& names(text, ">\n"@, escaped(reason))
        }),
{
    broadcast use {lemma_names_at, lemma_names_first, lemma_names_more};

}

/// The prompt that prepares a renew names who asks, what a reply goes to, the cycle and its deadline; it
/// holds what is to be prepared first and what the resumed conversation is told behind.
#[verifier::spinoff_prover]
#[verifier::rlimit(60)]
pub proof fn law_prepare_names_its_parts(
    from: Seq<char>,
    reply_to: Seq<char>,
    cycle: int,
    deadline_ms: int,
    prepare_prompt: Seq<char>,
    resume_prompt: Seq<char>,
)
    ensures
        ({
            let text = prepare_text(from, reply_to, cycle, deadline_ms, prepare_prompt, resume_prompt);
            &&& names(text, "<kelpie-renew from="@, from)
            &&& names(text, " reply-to="@, reply_to)
            &&& names(text, " prepare cycle="@, int_text(cycle))
            &&& names(text, " deadline-ms="@, int_text(deadline_ms))
            &&& names(
                text,
                "decided but not written down.\n\nPrepare now:\n"@,
                escaped(prepare_prompt),
            )
            &&& names(
                text,
                "Do not act on it now. Prepare so that it will be enough on its own.\n&lt;resume&gt;\n"@,
                escaped(resume_prompt),
            )
            &&& names(text, "Reply when your checkpoint is complete: kelpie reply "@, reply_to)
        }),
{
    broadcast use {lemma_names_at, lemma_names_first, lemma_names_more};

}

/// The prompt that resumes a renewed conversation names who renewed it, the cycle and when it was
/// checkpointed, and holds what it is told.
#[verifier::spinoff_prover]
#[verifier::rlimit(60)]
pub proof fn law_resume_names_its_parts(
    from: Seq<char>,
    cycle: int,
    checkpointed_at_ms: int,
    resume_prompt: Seq<char>,
)
    ensures
        ({
            let text = resume_text(from, cycle, checkpointed_at_ms, resume_prompt);
            &&& names(text, "<kelpie-renew from="@, from)
            &&& names(text, " resumed cycle="@, int_text(cycle))
            &&& names(text, " checkpointed-at-ms="@, int_text(checkpointed_at_ms))
            &&& names(
                text,
                "Obligations you owed are still owed; run `kelpie pending` to see them.\n\n"@,
                escaped(resume_prompt),
            )
        }),
{
    broadcast use {lemma_names_at, lemma_names_first, lemma_names_more};

}

/// An attribute that is accepted is one word: it is not empty and holds no white space, quote, equals
/// sign, ampersand or angle bracket. One of letters and digits always is.
#[verifier::spinoff_prover]
pub proof fn law_accepted_attribute_is_one_word(name: Seq<char>, value: Seq<char>)
    ensures
        attr_fault(name, value) is None ==> value.len() > 0 && forall|i: int|
            0 <= i < value.len() ==> (#[trigger] value[i]) != ' ' && value[i] != '\n' && value[i]
                != '\t' && value[i] != '"' && value[i] != '\'' && value[i] != '=' && value[i] != '&'
                && value[i] != '<' && value[i] != '>',
        value.len() > 0 && (forall|i: int|
            0 <= i < value.len() ==> ('a' <= #[trigger] value[i] && value[i] <= 'z') || ('A'
                <= value[i] && value[i] <= 'Z') || ('0' <= value[i] && value[i] <= '9'))
            ==> attr_fault(name, value) is None,
        value.len() == 0 ==> attr_fault(name, value) is Some,
{
    if attr_fault(name, value) is None {
        assert forall|i: int| 0 <= i < value.len() implies (#[trigger] value[i]) != ' ' && value[i]
            != '\n' && value[i] != '\t' && value[i] != '"' && value[i] != '\'' && value[i] != '='
            && value[i] != '&' && value[i] != '<' && value[i] != '>' by {
            assert(is_attr_char(value[i]));
        }
    }
}

/// A tell and an ask that are rendered name their sender and hold their body; an ask names what a reply
/// goes to. They are rendered exactly where their attributes are accepted.
#[verifier::spinoff_prover]
#[verifier::rlimit(60)]
pub proof fn law_rendered_message_names_its_parts(
    from: &str,
    reply_to: &str,
    body: &str,
    tell: Result<String, EnvelopeError>,
    ask: Result<String, EnvelopeError>,
)
    requires
        call_ensures(render_tell, (from, body), tell),
        call_ensures(render_ask, (from, reply_to, body), ask),
    ensures
        tell is Ok <==> attr_fault("from"@, from@) is None,
        ask is Ok <==> attr_fault("from"@, from@) is None && attr_fault("reply-to"@, reply_to@)
            is None,
        tell matches Ok(text) ==> names(text@, "<kelpie from="@, from@) && names(
            text@,
            ">\n"@,
            escaped(body@),
        ),
        ask matches Ok(text) ==> names(text@, "<kelpie from="@, from@) && names(
            text@,
            " reply-to="@,
            reply_to@,
        ) && names(text@, ">\n"@, escaped(body@)),
{
    law_tell_names_its_sender(from@, body@);
    law_ask_names_its_sender(from@, reply_to@, body@);
}

/// A reply that is rendered names its sender and the ask that it answers, and says which of the two it
/// is: progress, or final.
#[verifier::spinoff_prover]
#[verifier::rlimit(60)]
pub proof fn law_rendered_reply_says_what_it_is(
    from: &str,
    re: &str,
    body: &str,
    progress: Result<String, EnvelopeError>,
    last: Result<String, EnvelopeError>,
)
    requires
        call_ensures(render_progress, (from, re, body), progress),
        call_ensures(render_final, (from, re, body), last),
    ensures
        progress is Ok <==> attr_fault("from"@, from@) is None && attr_fault("re"@, re@) is None,
        last is Ok <==> progress is Ok,
        progress matches Ok(text) ==> names(text@, " re="@, re@) && names(
            text@,
            " progress>\n"@,
            escaped(body@),
        ),
        last matches Ok(text) ==> names(text@, " re="@, re@) && names(
            text@,
            " final>\n"@,
            escaped(body@),
        ),
{
    law_reply_names_its_ask(from@, re@, " progress>\n"@, body@);
    law_reply_names_its_ask(from@, re@, " final>\n"@, body@);
}

/// What a renew writes names whom it is from and its cycle; before the clear it asks for the checkpoint,
/// and after it it says what to go on with.
#[verifier::spinoff_prover]
#[verifier::rlimit(60)]
pub proof fn law_rendered_renew_says_what_to_do(
    from: &str,
    reply_to: &str,
    cycle: i64,
    deadline_ms: i64,
    prepare_prompt: &str,
    resume_prompt: &str,
    prepare: Result<String, EnvelopeError>,
    checkpointed_at_ms: i64,
    resume: Result<String, EnvelopeError>,
)
    requires
        call_ensures(
            render_renew_prepare,
            (from, reply_to, cycle, deadline_ms, prepare_prompt, resume_prompt),
            prepare,
        ),
        call_ensures(render_renew_resume, (from, cycle, checkpointed_at_ms, resume_prompt), resume),
    ensures
        prepare matches Ok(text) ==> names(text@, " prepare cycle="@, int_text(cycle as int))
            && names(
            text@,
            "decided but not written down.\n\nPrepare now:\n"@,
            escaped(prepare_prompt@),
        ) && names(text@, " reply-to="@, reply_to@),
        resume matches Ok(text) ==> names(text@, " resumed cycle="@, int_text(cycle as int))
            && names(text@, " checkpointed-at-ms="@, int_text(checkpointed_at_ms as int)),
        resume is Ok <==> attr_fault("from"@, from@) is None,
{
    law_prepare_names_its_parts(
        from@,
        reply_to@,
        cycle as int,
        deadline_ms as int,
        prepare_prompt@,
        resume_prompt@,
    );
    law_resume_names_its_parts(
        from@,
        cycle as int,
        checkpointed_at_ms as int,
        resume_prompt@,
    );
}

} // verus!
