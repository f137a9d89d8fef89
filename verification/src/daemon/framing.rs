//! From the bytes of a connection to its lines, and whether a socket path is free.

use vstd::prelude::*;

use super::{CLIENT_REQUEST_DEADLINE_MS, MAX_REQUEST_BYTES};

verus! {

/// The index of the first newline.
pub open spec fn newline_at(bytes: Seq<u8>) -> Option<int>
    decreases bytes.len(),
{
    if bytes.len() == 0 {
        None
    } else {
        match newline_at(bytes.drop_last()) {
            Some(i) => Some(i),
            None => if bytes.last() == 10 {
                Some(bytes.len() - 1)
            } else {
                None
            },
        }
    }
}

/// `newline_at` is the index of the first newline.
pub proof fn lemma_newline_at(bytes: Seq<u8>)
    ensures
        match newline_at(bytes) {
            Some(i) => 0 <= i < bytes.len() && bytes[i] == 10 && forall|j: int|
                0 <= j < i ==> #[trigger] bytes[j] != 10,
            None => forall|j: int| 0 <= j < bytes.len() ==> #[trigger] bytes[j] != 10,
        },
    decreases bytes.len(),
{
    if bytes.len() > 0 {
        let rest = bytes.drop_last();
        lemma_newline_at(rest);
        assert forall|j: int| 0 <= j < rest.len() implies rest[j] == bytes[j] by {}
        match newline_at(rest) {
            Some(i) => {
                assert forall|j: int| 0 <= j < i implies #[trigger] bytes[j] != 10 by {
                    assert(rest[j] != 10);
                }
            },
            None => {
                assert forall|j: int| 0 <= j < bytes.len() - 1 implies #[trigger] bytes[j]
                    != 10 by {
                    assert(rest[j] != 10);
                }
            },
        }
    }
}

fn find_newline(bytes: &Vec<u8>) -> (at: Option<usize>)
    ensures
        match (at, newline_at(bytes@)) {
            (Some(i), Some(j)) => i == j && i < bytes@.len(),
            (None, None) => true,
            _ => false,
        },
{
    proof {
        lemma_newline_at(bytes@);
    }
    let mut i: usize = 0;
    while i < bytes.len()
        invariant
            i <= bytes@.len(),
            forall|j: int| 0 <= j < i ==> #[trigger] bytes@[j] != 10,
        decreases bytes@.len() - i,
    {
        if bytes[i] == 10 {
            proof {
                lemma_newline_at(bytes@);
            }
            return Some(i);
        }
        i = i + 1;
    }
    None
}

/// Part of some bytes.
fn part(bytes: &Vec<u8>, from: usize, to: usize) -> (r: Vec<u8>)
    requires
        from <= to <= bytes@.len(),
    ensures
        r@ == bytes@.subrange(from as int, to as int),
{
    let mut r: Vec<u8> = Vec::new();
    let mut i: usize = from;
    while i < to
        invariant
            from <= i <= to <= bytes@.len(),
            r@ == bytes@.subrange(from as int, i as int),
        decreases to - i,
    {
        r.push(bytes[i]);
        proof {
            assert(bytes@.subrange(from as int, i as int + 1) =~= bytes@.subrange(
                from as int,
                i as int,
            ).push(bytes@[i as int]));
        }
        i = i + 1;
    }
    r
}

/// A line without the carriage return at its end.
pub open spec fn without_return(line: Seq<u8>) -> Seq<u8> {
    if line.len() > 0 && line.last() == 13 {
        line.drop_last()
    } else {
        line
    }
}

/// Bytes that hold at least one line: the first line, without what ends it, and
/// what comes after it.
pub open spec fn first_line(bytes: Seq<u8>) -> Option<(Seq<u8>, Seq<u8>)> {
    match newline_at(bytes) {
        Some(at) => Some((without_return(bytes.take(at)), bytes.skip(at + 1))),
        None => None,
    }
}

/// What one read of a connection gave.
#[derive(Debug, PartialEq, Eq)]
pub enum ReadProgress {
    /// These bytes came.
    Got(Vec<u8>),
    /// Nothing came yet.
    WouldBlock,
    /// The peer hung up.
    Eof,
    /// The connection failed, and how.
    Failed(String),
}

/// What becomes of a client that has not sent a complete line.
#[derive(Debug, PartialEq, Eq)]
pub enum Pumped {
    /// It goes on reading, with these bytes so far.
    Reading(Vec<u8>),
    /// It sent its line; what came after the line is kept for it.
    Line { line: Vec<u8>, leftover: Vec<u8> },
    /// It is let go, with a word for the log where one is due.
    Gone(Option<String>),
}

/// What becomes of a client.
pub enum PumpedView {
    Reading(Seq<u8>),
    Line { line: Seq<u8>, leftover: Seq<u8> },
    Gone(Option<Seq<char>>),
}

impl Pumped {
    pub open spec fn view(&self) -> PumpedView {
        match self {
            Pumped::Reading(bytes) => PumpedView::Reading(bytes@),
            Pumped::Line { line, leftover } => PumpedView::Line {
                line: line@,
                leftover: leftover@,
            },
            Pumped::Gone(None) => PumpedView::Gone(None),
            Pumped::Gone(Some(word)) => PumpedView::Gone(Some(word@)),
        }
    }

    /// Whether the client made progress: everything but waiting for more.
    pub open spec fn progressed(&self) -> bool {
        !(self is Reading)
    }
}

/// What becomes of a client with these bytes so far, that many milliseconds after
/// it was accepted.
pub open spec fn pumped_of(buffered: Seq<u8>, waited_ms: u64, read: ReadProgress) -> PumpedView {
    if waited_ms >= CLIENT_REQUEST_DEADLINE_MS {
        PumpedView::Gone(Some("client request timed out before a complete line"@))
    } else {
        match read {
            ReadProgress::WouldBlock => PumpedView::Reading(buffered),
            ReadProgress::Eof => PumpedView::Gone(
                if buffered.len() > 0 {
                    Some("client hung up mid-request"@)
                } else {
                    None
                },
            ),
            ReadProgress::Failed(error) => PumpedView::Gone(
                Some("client connection failed: "@ + error@),
            ),
            ReadProgress::Got(bytes) => {
                let all = buffered + bytes@;
                if all.len() > MAX_REQUEST_BYTES {
                    PumpedView::Gone(Some("client request exceeded 65536 bytes"@))
                } else {
                    match first_line(all) {
                        Some((line, leftover)) => PumpedView::Line { line, leftover },
                        None => PumpedView::Reading(all),
                    }
                }
            },
        }
    }
}

/// Decide what becomes of a client that has not sent a complete line. `read` is
/// looked at only while the client is in time.
pub fn pump_reading(buffered: Vec<u8>, waited_ms: u64, read: ReadProgress) -> (pumped: Pumped)
    ensures
        pumped@ == pumped_of(buffered@, waited_ms, read),
{
    if waited_ms >= CLIENT_REQUEST_DEADLINE_MS {
        return Pumped::Gone(Some("client request timed out before a complete line".to_owned()));
    }
    match read {
        ReadProgress::WouldBlock => Pumped::Reading(buffered),
        ReadProgress::Eof => if buffered.len() > 0 {
            Pumped::Gone(Some("client hung up mid-request".to_owned()))
        } else {
            Pumped::Gone(None)
        },
        ReadProgress::Failed(error) => Pumped::Gone(
            Some("client connection failed: ".to_owned().concat(error.as_str())),
        ),
        ReadProgress::Got(bytes) => {
            let mut all = buffered;
            let mut more = bytes;
            all.append(&mut more);
            if all.len() > MAX_REQUEST_BYTES {
                return Pumped::Gone(Some("client request exceeded 65536 bytes".to_owned()));
            }
            match find_newline(&all) {
                None => Pumped::Reading(all),
                Some(at) => {
                    let mut line = part(&all, 0, at);
                    assert(line@ =~= all@.take(at as int));
                    if line.len() > 0 && line[line.len() - 1] == 13 {
                        let _ = line.pop();
                        assert(line@ =~= all@.take(at as int).drop_last());
                    }
                    let leftover = part(&all, at + 1, all.len());
                    assert(leftover@ =~= all@.skip(at as int + 1));
                    Pumped::Line { line, leftover }
                },
            }
        },
    }
}

/// Take the first line off some bytes, with the newline that ends it. What is left
/// stays for the next line.
pub fn take_line(bytes: &mut Vec<u8>) -> (line: Option<Vec<u8>>)
    ensures
        match (line, newline_at(old(bytes)@)) {
            (Some(line), Some(at)) => line@ == old(bytes)@.take(at + 1) && final(bytes)@ == old(
                bytes,
            )@.skip(at + 1),
            (None, None) => final(bytes)@ == old(bytes)@,
            _ => false,
        },
{
    match find_newline(bytes) {
        None => None,
        Some(at) => {
            let length: usize = bytes.len();
            assert(at < length);
            let line = part(bytes, 0, at + 1);
            assert(line@ =~= old(bytes)@.take(at as int + 1));
            let rest = part(bytes, at + 1, length);
            assert(rest@ =~= old(bytes)@.skip(at as int + 1));
            *bytes = rest;
            Some(line)
        },
    }
}

/// Nothing that a client sent in its first line, nor after it, is lost: the line,
/// what ended it, and what was left make up all of it.
pub proof fn law_framing_loses_nothing(bytes: Seq<u8>)
    ensures
        first_line(bytes) matches Some((line, leftover)) ==> bytes == line + seq![10u8] + leftover
            || bytes == line + seq![13u8, 10u8] + leftover,
        first_line(bytes) matches Some((line, leftover)) ==> !line.contains(10u8),
{
    lemma_newline_at(bytes);
    if let Some(at) = newline_at(bytes) {
        let whole = bytes.take(at);
        let leftover = bytes.skip(at + 1);
        let line = without_return(whole);
        if whole.len() > 0 && whole.last() == 13 {
            assert(bytes =~= line + seq![13u8, 10u8] + leftover);
        } else {
            assert(bytes =~= line + seq![10u8] + leftover);
        }
        assert(!line.contains(10u8)) by {
            if line.contains(10u8) {
                let j = choose|j: int| 0 <= j < line.len() && line[j] == 10u8;
                assert(bytes[j] == line[j]);
            }
        }
    }
}

/// What a probe of a socket path found.
#[derive(Debug, PartialEq, Eq)]
pub enum Probe {
    /// Somebody answered.
    Answered,
    /// There is nothing at the path.
    NotFound,
    /// Something is at the path, and refuses.
    Refused,
    /// The probe failed otherwise, and how.
    Failed(String),
}

/// What to do about a socket path.
#[derive(Debug, PartialEq, Eq)]
pub enum Claim {
    /// It is free.
    Free,
    /// Its owner died: remove the file, then it is free.
    RemoveStale,
    /// It cannot be had.
    Refused(DaemonError),
}

/// Foreground daemon failures outside an individual request.
#[derive(Debug, PartialEq, Eq)]
pub enum DaemonError {
    AlreadyRunning(String),
    Io(String),
    Json(String),
}

impl DaemonError {
    /// The text that explains the failure.
    pub open spec fn text(&self) -> Seq<char> {
        match self {
            DaemonError::AlreadyRunning(path) => "another kelpied is already serving "@ + path@,
            DaemonError::Io(error) => "local socket failed: "@ + error@,
            DaemonError::Json(error) => "client request is malformed: "@ + error@,
        }
    }

    /// The text that explains the failure.
    pub fn message(&self) -> (text: String)
        ensures
            text@ == self.text(),
    {
        match self {
            DaemonError::AlreadyRunning(
                path,
            ) => "another kelpied is already serving ".to_owned().concat(path.as_str()),
            DaemonError::Io(error) => "local socket failed: ".to_owned().concat(error.as_str()),
            DaemonError::Json(error) => "client request is malformed: ".to_owned().concat(
                error.as_str(),
            ),
        }
    }
}

/// Make sure nothing else is serving `socket_path` before this process does.
///
/// A daemon that is still alive there answers the probe, and this one must not
/// start: two daemons over one database would each hold intent the other cannot
/// see. A socket file whose owner died without unlinking it refuses the
/// connection; that file is removed so the bind can proceed.
pub fn claim_socket_path(socket_path: &str, probe: Probe) -> (claim: Claim)
    ensures
        match probe {
            Probe::Answered => claim matches Claim::Refused(DaemonError::AlreadyRunning(path))
                && path@ == socket_path@,
            Probe::NotFound => claim == Claim::Free,
            Probe::Refused => claim == Claim::RemoveStale,
            Probe::Failed(error) => claim == Claim::Refused(DaemonError::Io(error)),
        },
{
    match probe {
        Probe::Answered => Claim::Refused(DaemonError::AlreadyRunning(socket_path.to_owned())),
        Probe::NotFound => Claim::Free,
        Probe::Refused => Claim::RemoveStale,
        Probe::Failed(error) => Claim::Refused(DaemonError::Io(error)),
    }
}

/// A client has ten seconds for a request of at most sixty-four kibibytes. What it sent before is kept
/// until a line is complete, and a client that hangs up in the middle is told so.
#[verifier::spinoff_prover]
pub proof fn law_client_is_read_within_its_limits(
    buffered: Seq<u8>,
    waited_ms: u64,
    bytes: Vec<u8>,
)
    ensures
        waited_ms >= 10_000 ==> pumped_of(buffered, waited_ms, ReadProgress::Got(bytes)) is Gone,
        waited_ms < 10_000 && buffered.len() + bytes@.len() > 65_536 ==> pumped_of(
            buffered,
            waited_ms,
            ReadProgress::Got(bytes),
        ) is Gone,
        waited_ms < 10_000 && buffered.len() + bytes@.len() <= 65_536 ==> match first_line(
            buffered + bytes@,
        ) {
            Some((line, leftover)) => pumped_of(buffered, waited_ms, ReadProgress::Got(bytes)) == (
            PumpedView::Line { line, leftover }),
            None => pumped_of(buffered, waited_ms, ReadProgress::Got(bytes))
                == PumpedView::Reading(buffered + bytes@),
        },
        waited_ms < 10_000 ==> pumped_of(buffered, waited_ms, ReadProgress::WouldBlock)
            == PumpedView::Reading(buffered),
        waited_ms < 10_000 ==> (pumped_of(buffered, waited_ms, ReadProgress::Eof)
            == PumpedView::Gone(None) <==> buffered.len() == 0),
{
}

/// The first line of what came ends at the first newline, with or without a carriage return before
/// it, and what follows is left over.
pub proof fn law_first_line_ends_at_the_first_newline(line: Seq<u8>, rest: Seq<u8>)
    requires
        forall|i: int| 0 <= i < line.len() ==> #[trigger] line[i] != 10u8,
    ensures
        line.len() == 0 || line.last() != 13u8 ==> first_line(line + seq![10u8] + rest) == Some(
            (line, rest),
        ),
        first_line(line + seq![13u8, 10u8] + rest) == Some((line, rest)),
        first_line(line) is None,
{
    let plain = line + seq![10u8] + rest;
    let returned = line + seq![13u8, 10u8] + rest;
    lemma_newline_at(plain);
    lemma_newline_at(returned);
    lemma_newline_at(line);
    assert(plain[line.len() as int] == 10u8);
    assert(returned[line.len() as int] == 13u8);
    assert(returned[line.len() as int + 1] == 10u8);
    assert(forall|i: int| 0 <= i < line.len() ==> plain[i] == line[i]);
    assert(forall|i: int| 0 <= i < line.len() ==> returned[i] == line[i]);
    if let Some(at) = newline_at(plain) {
        if at < line.len() {
            assert(line[at] != 10u8);
        }
        assert(plain.take(line.len() as int) =~= line);
        assert(plain.skip(line.len() as int + 1) =~= rest);
    }
    if let Some(at) = newline_at(returned) {
        if at < line.len() {
            assert(line[at] != 10u8);
        }
        assert(returned.take(line.len() as int + 1) =~= line.push(13u8));
        assert(line.push(13u8).drop_last() =~= line);
        assert(returned.skip(line.len() as int + 2) =~= rest);
    }
}

} // verus!
