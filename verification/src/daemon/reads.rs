//! Requests that are answered from a look at Herdr: when a look is needed, which
//! one, and what follows it.

use vstd::prelude::*;

use super::adopt::{
    opens_rename, renaming_adopt, AdoptAfterSnapshot, AdoptFlow, AdoptRename, AdoptReply,
};
use super::errors::{
    answer_view, invalid, is_invalid, is_wrong_answer, wrong_answer, ClientResponse, SliceError,
    StoreError,
};
use super::params::{
    history_alias, history_refusal, selector, selector_refusal, selectors_of, whoami_form,
    ReportParams, Selector, WhoIdentity, WhoParams, WhoamiForm, WhoamiParams,
};
use super::parked::Parked;
use super::results::{
    adopt_result, adopt_result_view, alias_identity, alias_identity_view, identity_result, identity_result_view, recover_result,
    recover_result_view, DeclaredStart, ReadyIdentity, RecoveryReport,
};
use crate::domain::{IncarnationId, LogicalAgentId};
use crate::herdr::{HerdrError, LifecycleObservation, Snapshot};
use crate::herdr_exec::{HerdrJob, HerdrJobResult};
use crate::json::{Json, JsonView};
use crate::text::same;

verus! {

/// One request of a client.
#[derive(Debug, PartialEq, Eq)]
pub struct ClientRequest {
    pub id: String,
    pub method: String,
    pub params: Json,
}

/// What a parked request waits to learn from Herdr.
#[derive(Debug, PartialEq, Eq)]
pub enum ReadKind {
    /// What became of everything that was under way.
    Recover,
    /// The status of every agent, for a report.
    Report { active: bool },
    /// Who is in a pane, adopting it where it is not known yet.
    Whoami { pane_id: String, lazy_key: String },
    /// Who holds an alias, adopting it where it is not known yet, before the
    /// request goes on.
    Alias { alias: String, lazy_key: String, resume: ClientRequest },
    /// What an incarnation runs on.
    Attribution { incarnation_id: IncarnationId },
    /// Who an incarnation is, with what it runs on.
    WhoAttribution { incarnation_id: IncarnationId },
    /// Who is in a pane, in full, adopting it where it is not known yet.
    WhoPane { pane_id: String, lazy_key: String, refresh: bool },
}

/// The look that a parked request needs.
pub fn read_job(kind: &ReadKind, job_id: u64) -> (job: HerdrJob)
    ensures
        job == if kind is Report {
            HerdrJob::LifecycleSnapshot { job_id }
        } else {
            HerdrJob::Snapshot { job_id, negotiate: true }
        },
{
    match kind {
        ReadKind::Report { .. } => HerdrJob::LifecycleSnapshot { job_id },
        ReadKind::Recover | ReadKind::Whoami { .. } | ReadKind::Alias { .. }
        | ReadKind::Attribution { .. } | ReadKind::WhoAttribution { .. }
        | ReadKind::WhoPane { .. } => HerdrJob::Snapshot { job_id, negotiate: true },
    }
}

/// What follows a look.
#[derive(Debug, PartialEq, Eq)]
pub enum ReadStep {
    /// Ask the coordinator to recover from the snapshot, and answer.
    Recover(Snapshot),
    /// Render the report with the observed status, and answer.
    Report { active: bool, observed: Vec<LifecycleObservation> },
    /// Ask the coordinator who is in the pane, from the snapshot.
    AdoptPane { pane_id: String, lazy_key: String, reply: AdoptReply, snapshot: Snapshot },
    /// Ask the coordinator who holds the alias, from the snapshot.
    BindAlias { alias: String, lazy_key: String, resume: ClientRequest, snapshot: Snapshot },
    /// Ask the coordinator to refresh the attribution, from the snapshot.
    Refresh { incarnation_id: IncarnationId, document: Document, snapshot: Snapshot },
    /// Answer with that failure.
    Fail(SliceError),
}

/// The document that a refreshed attribution is answered in.
#[derive(Debug, Clone, Copy, PartialEq, Eq, Structural)]
pub enum Document {
    Attribution,
    Who,
}

/// Whether a step follows the look of a parked request.
pub open spec fn follows_look(
    kind: ReadKind,
    result: Result<HerdrJobResult, HerdrError>,
    step: ReadStep,
) -> bool {
    match (kind, result) {
        (ReadKind::Recover, Ok(HerdrJobResult::Snapshot(snapshot))) => step
            == ReadStep::Recover(snapshot),
        (ReadKind::Report { active }, Ok(HerdrJobResult::Lifecycle(observed))) => step == (
        ReadStep::Report { active, observed }),
        (
            ReadKind::Whoami { pane_id, lazy_key },
            Ok(HerdrJobResult::Snapshot(snapshot)),
        ) => step == (ReadStep::AdoptPane {
            pane_id,
            lazy_key,
            reply: AdoptReply::Whoami,
            snapshot,
        }),
        (
            ReadKind::Alias { alias, lazy_key, resume },
            Ok(HerdrJobResult::Snapshot(snapshot)),
        ) => step == (ReadStep::BindAlias { alias, lazy_key, resume, snapshot }),
        (
            ReadKind::Attribution { incarnation_id },
            Ok(HerdrJobResult::Snapshot(snapshot)),
        ) => step == (ReadStep::Refresh {
            incarnation_id,
            document: Document::Attribution,
            snapshot,
        }),
        (
            ReadKind::WhoAttribution { incarnation_id },
            Ok(HerdrJobResult::Snapshot(snapshot)),
        ) => step == (ReadStep::Refresh {
            incarnation_id,
            document: Document::Who,
            snapshot,
        }),
        (
            ReadKind::WhoPane { pane_id, lazy_key, refresh },
            Ok(HerdrJobResult::Snapshot(snapshot)),
        ) => step == (ReadStep::AdoptPane {
            pane_id,
            lazy_key,
            reply: AdoptReply::Who { refresh },
            snapshot,
        }),
        (_, Ok(_)) => step matches ReadStep::Fail(error) && is_wrong_answer(
            error,
            "client read returned the wrong Herdr result"@,
        ),
        (_, Err(error)) => step == ReadStep::Fail(SliceError::Herdr(error)),
    }
}

/// What follows the look of a parked request. Every kind of request takes one kind
/// of result, and anything else fails it.
pub fn read_done(kind: ReadKind, result: Result<HerdrJobResult, HerdrError>) -> (step: ReadStep)
    ensures
        follows_look(kind, result, step),
{
    match (kind, result) {
        (ReadKind::Recover, Ok(HerdrJobResult::Snapshot(snapshot))) => ReadStep::Recover(snapshot),
        (ReadKind::Report { active }, Ok(HerdrJobResult::Lifecycle(observed))) => ReadStep::Report {
            active,
            observed,
        },
        (
            ReadKind::Whoami { pane_id, lazy_key },
            Ok(HerdrJobResult::Snapshot(snapshot)),
        ) => ReadStep::AdoptPane { pane_id, lazy_key, reply: AdoptReply::Whoami, snapshot },
        (
            ReadKind::Alias { alias, lazy_key, resume },
            Ok(HerdrJobResult::Snapshot(snapshot)),
        ) => ReadStep::BindAlias { alias, lazy_key, resume, snapshot },
        (
            ReadKind::Attribution { incarnation_id },
            Ok(HerdrJobResult::Snapshot(snapshot)),
        ) => ReadStep::Refresh { incarnation_id, document: Document::Attribution, snapshot },
        (
            ReadKind::WhoAttribution { incarnation_id },
            Ok(HerdrJobResult::Snapshot(snapshot)),
        ) => ReadStep::Refresh { incarnation_id, document: Document::Who, snapshot },
        (
            ReadKind::WhoPane { pane_id, lazy_key, refresh },
            Ok(HerdrJobResult::Snapshot(snapshot)),
        ) => ReadStep::AdoptPane {
            pane_id,
            lazy_key,
            reply: AdoptReply::Who { refresh },
            snapshot,
        },
        (_, Ok(_)) => ReadStep::Fail(wrong_answer("client read returned the wrong Herdr result")),
        (_, Err(error)) => ReadStep::Fail(SliceError::Herdr(error)),
    }
}

/// What becomes of a parked request once its look is over: it goes on, or its client is
/// told why it cannot.
pub fn read_looked(parked: Parked<ReadKind>, result: Result<HerdrJobResult, HerdrError>) -> (r:
    Result<Parked<ReadStep>, ClientResponse>)
    ensures
        match r {
            Ok(looked) => looked.request_id@ == parked.request_id@ && follows_look(
                parked.work,
                result,
                looked.work,
            ) && !(looked.work is Fail),
            Err(response) => response.id@ == parked.request_id@ && exists|error: SliceError|
                follows_look(parked.work, result, ReadStep::Fail(error)) && response@
                    == #[trigger] answer_view(parked.request_id@, Err(error)),
        },
{
    let request_id = parked.request_id;
    match read_done(parked.work, result) {
        ReadStep::Fail(error) => {
            let ghost told = error;
            let response = Parked { request_id, work: () }.answer(Err(error));
            assert(response@ == answer_view(request_id@, Err(told)));
            Err(response)
        },
        step => Ok(Parked { request_id, work: step }),
    }
}

/// Whether a payload is of the kind that a job delivers.
pub open spec fn delivers(job: HerdrJob, payload: HerdrJobResult) -> bool {
    match job {
        HerdrJob::Snapshot { .. } => payload is Snapshot,
        HerdrJob::LifecycleSnapshot { .. } => payload is Lifecycle,
        HerdrJob::Open { .. } => payload is Prompt || payload is Agent || payload is Closed,
        HerdrJob::AgentGet { .. } => payload is Agent,
    }
}

/// Whether a job is the look that a parked request needs.
pub open spec fn is_read_job(kind: ReadKind, job: HerdrJob) -> bool {
    match job {
        HerdrJob::LifecycleSnapshot { .. } => kind is Report,
        HerdrJob::Snapshot { negotiate, .. } => !(kind is Report) && negotiate,
        _ => false,
    }
}

/// A request that is parked on the look it needs goes on whenever the look delivers.
pub proof fn law_read_that_delivers_goes_on(
    kind: ReadKind,
    job: HerdrJob,
    payload: HerdrJobResult,
    step: ReadStep,
)
    requires
        is_read_job(kind, job),
        delivers(job, payload),
        follows_look(kind, Ok(payload), step),
    ensures
        !(step is Fail),
{
}

/// What becomes of a request once the coordinator has looked a pane up.
#[derive(Debug, PartialEq, Eq)]
pub enum PaneEnd {
    /// Answer with the identity that holds the pane.
    Identity,
    /// Refresh the attribution where asked, and answer in full.
    Who { incarnation_id: IncarnationId, refresh: bool },
    /// Answer with the adoption.
    Adopted(DeclaredStart),
    /// Open the pane, and go on as an adoption that has to be renamed first.
    Rename(AdoptRename),
    /// Answer with that failure.
    Fail(SliceError),
}

/// What becomes of a request once the coordinator has looked a pane up.
pub fn pane_judged(reply: AdoptReply, judgement: Result<AdoptAfterSnapshot, SliceError>) -> (end:
    PaneEnd)
    ensures
        end == match judgement {
            Ok(AdoptAfterSnapshot::Ready(created)) => match reply {
                AdoptReply::Whoami => PaneEnd::Identity,
                AdoptReply::Who { refresh } => PaneEnd::Who {
                    incarnation_id: created.incarnation_id,
                    refresh,
                },
                AdoptReply::Rpc => PaneEnd::Adopted(created),
            },
            Ok(AdoptAfterSnapshot::Rename(work)) => PaneEnd::Rename(work),
            Err(error) => PaneEnd::Fail(error),
        },
{
    match judgement {
        Ok(AdoptAfterSnapshot::Ready(created)) => match reply {
            AdoptReply::Whoami => PaneEnd::Identity,
            AdoptReply::Who { refresh } => PaneEnd::Who {
                incarnation_id: created.incarnation_id,
                refresh,
            },
            AdoptReply::Rpc => PaneEnd::Adopted(created),
        },
        Ok(AdoptAfterSnapshot::Rename(work)) => PaneEnd::Rename(work),
        Err(error) => PaneEnd::Fail(error),
    }
}

/// What a request does once the coordinator has looked a pane up.
#[derive(Debug, PartialEq, Eq)]
pub enum PaneNext {
    /// Ask the store for the identity that holds the pane, and answer with it.
    Identity(Parked<()>),
    /// Refresh the attribution where asked, and answer in full.
    Who { parked: Parked<()>, incarnation_id: IncarnationId, refresh: bool },
    /// Go on as an adoption that has to be renamed first.
    Adopt(Parked<AdoptFlow>),
    /// Answer the client with that.
    Answer(ClientResponse),
}

/// Whether a parked adoption goes on under an identifier from a rename that a look found.
pub open spec fn adopts(
    id: Seq<char>,
    reply: AdoptReply,
    resume: Option<ClientRequest>,
    work: AdoptRename,
    parked: Parked<AdoptFlow>,
) -> bool {
    parked.request_id@ == id && parked.work.reply == reply && parked.work.resume == resume
        && parked.work.pane@ == work.pane_id@ && opens_rename(work, parked.work.step)
}

/// What a request does once the coordinator has looked a pane up: it stays under its own
/// identifier, whatever it becomes.
pub fn pane_next<W>(
    parked: Parked<W>,
    reply: AdoptReply,
    judgement: Result<AdoptAfterSnapshot, SliceError>,
) -> (next: PaneNext)
    ensures
        match (judgement, reply) {
            (Ok(AdoptAfterSnapshot::Ready(_)), AdoptReply::Whoami) => {
                next matches PaneNext::Identity(same) && same.request_id@ == parked.request_id@
            },
            (Ok(AdoptAfterSnapshot::Ready(created)), AdoptReply::Who { refresh }) => {
                next matches PaneNext::Who { parked: same, incarnation_id, refresh: asked }
                    && same.request_id@ == parked.request_id@ && incarnation_id
                    == created.incarnation_id && asked == refresh
            },
            (Ok(AdoptAfterSnapshot::Ready(created)), AdoptReply::Rpc) => {
                next matches PaneNext::Answer(response) && response.id@ == parked.request_id@
                    && response@ == answer_view(
                    parked.request_id@,
                    Ok(adopt_result_view(created)),
                )
            },
            (Ok(AdoptAfterSnapshot::Rename(work)), _) => next matches PaneNext::Adopt(adopt)
                && adopts(parked.request_id@, reply, None, work, adopt),
            (Err(error), _) => next matches PaneNext::Answer(response) && response.id@
                == parked.request_id@ && response@ == answer_view(parked.request_id@, Err(error)),
        },
{
    match pane_judged(reply, judgement) {
        PaneEnd::Identity => PaneNext::Identity(parked.turn(())),
        PaneEnd::Who { incarnation_id, refresh } => PaneNext::Who {
            parked: parked.turn(()),
            incarnation_id,
            refresh,
        },
        PaneEnd::Adopted(created) => PaneNext::Answer(parked.answer(Ok(adopt_result(created)))),
        PaneEnd::Rename(work) => PaneNext::Adopt(parked.turn(renaming_adopt(reply, None, work))),
        PaneEnd::Fail(error) => PaneNext::Answer(parked.answer(Err(error))),
    }
}

/// What becomes of a request once its alias was looked up.
#[derive(Debug, PartialEq, Eq)]
pub enum AliasEnd {
    /// The request goes on.
    Resume,
    /// Open the pane, and go on as an adoption that the request waits for.
    Rename(AdoptRename),
    /// Answer with that failure.
    Fail(SliceError),
}

/// What becomes of a request once its alias was looked up.
pub fn alias_judged(judgement: Result<AdoptAfterSnapshot, SliceError>) -> (end: AliasEnd)
    ensures
        end == match judgement {
            Ok(AdoptAfterSnapshot::Ready(_)) => AliasEnd::Resume,
            Ok(AdoptAfterSnapshot::Rename(work)) => AliasEnd::Rename(work),
            Err(error) => AliasEnd::Fail(error),
        },
{
    match judgement {
        Ok(AdoptAfterSnapshot::Ready(_)) => AliasEnd::Resume,
        Ok(AdoptAfterSnapshot::Rename(work)) => AliasEnd::Rename(work),
        Err(error) => AliasEnd::Fail(error),
    }
}

/// What a request does once its alias was looked up.
#[derive(Debug, PartialEq, Eq)]
pub enum AliasNext {
    /// The request goes on.
    Resume(ClientRequest),
    /// Go on as an adoption that the request waits for.
    Adopt(Parked<AdoptFlow>),
    /// Answer the client with that.
    Answer(ClientResponse),
}

/// What a request does once its alias was looked up.
pub fn alias_next<W>(
    parked: Parked<W>,
    resume: ClientRequest,
    judgement: Result<AdoptAfterSnapshot, SliceError>,
) -> (next: AliasNext)
    ensures
        match judgement {
            Ok(AdoptAfterSnapshot::Ready(_)) => next == AliasNext::Resume(resume),
            Ok(AdoptAfterSnapshot::Rename(work)) => next matches AliasNext::Adopt(adopt) && adopts(
                parked.request_id@,
                AdoptReply::Rpc,
                Some(resume),
                work,
                adopt,
            ),
            Err(error) => next matches AliasNext::Answer(response) && response.id@
                == parked.request_id@ && response@ == answer_view(parked.request_id@, Err(error)),
        },
{
    match alias_judged(judgement) {
        AliasEnd::Resume => AliasNext::Resume(resume),
        AliasEnd::Rename(work) => AliasNext::Adopt(
            parked.turn(renaming_adopt(AdoptReply::Rpc, Some(resume), work)),
        ),
        AliasEnd::Fail(error) => AliasNext::Answer(parked.answer(Err(error))),
    }
}

/// How a request goes on once its alias is bound.
#[derive(Debug, PartialEq, Eq)]
pub enum Resumption {
    /// As a message.
    Prompt,
    /// As a clear.
    Clear,
    /// Not at all.
    Refuse(SliceError),
}

/// Whether a method sends a message.
pub open spec fn is_message_method(method: Seq<char>) -> bool {
    method == "ask"@ || method == "tell"@ || method == "reply"@
}

/// How a request goes on once its alias is bound.
pub fn resume_bound_request(method: &str) -> (resumption: Resumption)
    ensures
        if is_message_method(method@) {
            resumption == Resumption::Prompt
        } else if method@ == "clear"@ {
            resumption == Resumption::Clear
        } else {
            resumption matches Resumption::Refuse(error) && is_invalid(
                error,
                "cannot resume this method after alias bind"@,
            )
        },
{
    if same(method, "ask") || same(method, "tell") || same(method, "reply") {
        return Resumption::Prompt;
    }
    if same(method, "clear") {
        return Resumption::Clear;
    }
    Resumption::Refuse(invalid("cannot resume this method after alias bind"))
}

/// What the coordinator's recovery is answered as.
pub open spec fn recovered_view(result: Result<RecoveryReport, SliceError>) -> Result<
    JsonView,
    SliceError,
> {
    match result {
        Ok(report) => Ok(recover_result_view(report)),
        Err(error) => Err(error),
    }
}

/// Answer a recovery.
pub fn answer_recover<W>(parked: &Parked<W>, result: Result<RecoveryReport, SliceError>) -> (response:
    ClientResponse)
    ensures
        response.id@ == parked.request_id@,
        response@ == answer_view(parked.request_id@, recovered_view(result)),
{
    match result {
        Ok(report) => parked.answer(Ok(recover_result(report))),
        Err(error) => parked.answer(Err(error)),
    }
}

/// What a whoami is answered as.
pub open spec fn found_view(found: Result<ReadyIdentity, StoreError>) -> Result<
    JsonView,
    SliceError,
> {
    match found {
        Ok(identity) => Ok(identity_result_view(identity)),
        Err(error) => Err(SliceError::Store(error)),
    }
}

/// Answer a whoami from the identity that holds its pane.
pub fn answer_whoami<W>(parked: &Parked<W>, found: Result<ReadyIdentity, StoreError>) -> (response:
    ClientResponse)
    ensures
        response.id@ == parked.request_id@,
        response@ == answer_view(parked.request_id@, found_view(found)),
{
    match found {
        Ok(identity) => parked.answer(Ok(identity_result(&identity))),
        Err(error) => parked.answer(Err(SliceError::Store(error))),
    }
}

/// What a bound alias is answered as where nothing goes on from it.
pub open spec fn bound_view(
    bound: Result<(LogicalAgentId, IncarnationId), SliceError>,
    alias: String,
) -> Result<JsonView, SliceError> {
    match bound {
        Ok((agent, incarnation)) => Ok(alias_identity_view(agent, incarnation, alias)),
        Err(error) => Err(error),
    }
}

/// Answer with who holds an alias.
pub fn answer_alias<W>(
    parked: &Parked<W>,
    bound: Result<(LogicalAgentId, IncarnationId), SliceError>,
    alias: &String,
) -> (response: ClientResponse)
    ensures
        response.id@ == parked.request_id@,
        response@ == answer_view(parked.request_id@, bound_view(bound, *alias)),
{
    match bound {
        Ok((agent, incarnation)) => parked.answer(
            Ok(alias_identity(agent, incarnation, alias)),
        ),
        Err(error) => parked.answer(Err(error)),
    }
}

/// What a request that may need a look does next.
#[derive(Debug, PartialEq, Eq)]
pub enum LookNeed<'a> {
    /// Ask the store whether a Ready identity holds that pane.
    FindPane(&'a String),
    /// Resolve what the selector names.
    Resolve(Selector<'a>),
    /// Ask the coordinator whether a refresh needs a snapshot.
    AskSnapshot(IncarnationId),
    /// Park it on that look.
    Park(ReadKind),
    /// Answer it at once.
    Answer,
}

/// The key under which a pane is adopted where it is not known yet.
pub open spec fn lazy_key_of(key: Option<String>, request_id: Seq<char>) -> Seq<char> {
    match key {
        Some(key) => key@,
        None => request_id,
    }
}

pub fn lazy_key(key: &Option<String>, request_id: &str) -> (r: String)
    ensures
        r@ == lazy_key_of(*key, request_id@),
{
    match key {
        Some(key) => key.clone(),
        None => request_id.to_owned(),
    }
}

/// Whether a who asks for a history in a way that is refused.
pub open spec fn history_is_refused(params: WhoParams) -> bool {
    params.history && (params.alias is None || params.agent_id is Some || params.incarnation_id
        is Some || params.pane_id is Some || params.refresh)
}

/// What a who does first.
pub fn prepare_who_read(params: &WhoParams) -> (r: Result<LookNeed<'_>, SliceError>)
    ensures
        match r {
            Err(error) => if selectors_of(*params) != 1 {
                is_invalid(error, selector_refusal())
            } else {
                history_is_refused(*params) && is_invalid(error, history_refusal())
            },
            Ok(need) => {
                &&& selectors_of(*params) == 1
                &&& !history_is_refused(*params)
                &&& if params.history {
                    need is Answer
                } else if params.pane_id is Some && params.lazy_adopt_key is Some {
                    need matches LookNeed::FindPane(pane) && params.pane_id == Some(*pane)
                } else {
                    need matches LookNeed::Resolve(selector) && super::params::selects(
                        selector,
                        *params,
                    )
                }
            },
        },
{
    let named = match selector(params) {
        Ok(named) => named,
        Err(error) => return Err(error),
    };
    if params.history {
        return match history_alias(params) {
            Ok(_) => Ok(LookNeed::Answer),
            Err(error) => Err(error),
        };
    }
    match (&params.pane_id, &params.lazy_adopt_key) {
        (Some(pane), Some(_)) => Ok(LookNeed::FindPane(pane)),
        _ => Ok(LookNeed::Resolve(named)),
    }
}

/// What a who does once the store was asked for its pane.
pub fn who_pane_found<'a>(
    params: &'a WhoParams,
    pane: &'a String,
    request_id: &str,
    found: Result<bool, StoreError>,
) -> (r: Result<LookNeed<'a>, SliceError>)
    ensures
        match found {
            Err(error) => r == Err::<LookNeed, SliceError>(SliceError::Store(error)),
            Ok(true) => r matches Ok(LookNeed::Resolve(Selector::Pane(name))) && name@ == pane@,
            Ok(false) => r matches Ok(
                LookNeed::Park(ReadKind::WhoPane { pane_id, lazy_key, refresh }),
            ) && pane_id@ == pane@ && lazy_key@ == lazy_key_of(
                params.lazy_adopt_key,
                request_id@,
            ) && refresh == params.refresh,
        },
{
    match found {
        Err(error) => Err(SliceError::Store(error)),
        Ok(true) => Ok(LookNeed::Resolve(Selector::Pane(pane))),
        Ok(false) => Ok(
            LookNeed::Park(
                ReadKind::WhoPane {
                    pane_id: pane.clone(),
                    lazy_key: lazy_key(&params.lazy_adopt_key, request_id),
                    refresh: params.refresh,
                },
            ),
        ),
    }
}

/// What a who does once it is known who is meant.
pub fn who_resolved(
    refresh: bool,
    identity: Result<WhoIdentity, SliceError>,
) -> (r: Result<LookNeed<'static>, SliceError>)
    ensures
        r == match identity {
            Err(error) => Err::<LookNeed, SliceError>(error),
            Ok(WhoIdentity::Incarnation(id)) => if refresh {
                Ok(LookNeed::AskSnapshot(id))
            } else {
                Ok(LookNeed::Answer)
            },
            Ok(WhoIdentity::SocketWaiter(_)) => Ok(LookNeed::Answer),
        },
{
    match identity {
        Err(error) => Err(error),
        Ok(WhoIdentity::Incarnation(id)) => if refresh {
            Ok(LookNeed::AskSnapshot(id))
        } else {
            Ok(LookNeed::Answer)
        },
        Ok(WhoIdentity::SocketWaiter(_)) => Ok(LookNeed::Answer),
    }
}

/// What an attribution does first: it resolves the one thing that names its
/// incarnation.
pub fn prepare_attribution_read(params: &WhoParams) -> (r: Result<LookNeed<'_>, SliceError>)
    ensures
        match r {
            Err(error) => selectors_of(*params) != 1 && is_invalid(error, selector_refusal()),
            Ok(need) => selectors_of(*params) == 1 && (need matches LookNeed::Resolve(selector)
                && super::params::selects(selector, *params)),
        },
{
    match selector(params) {
        Ok(named) => Ok(LookNeed::Resolve(named)),
        Err(error) => Err(error),
    }
}

/// What an attribution does once its incarnation is known.
pub fn attribution_resolved(
    refresh: bool,
    incarnation: Result<IncarnationId, SliceError>,
) -> (r: Result<LookNeed<'static>, SliceError>)
    ensures
        r == match incarnation {
            Err(error) => Err::<LookNeed, SliceError>(error),
            Ok(id) => if refresh {
                Ok(LookNeed::AskSnapshot(id))
            } else {
                Ok(LookNeed::Answer)
            },
        },
{
    match incarnation {
        Err(error) => Err(error),
        Ok(id) => if refresh {
            Ok(LookNeed::AskSnapshot(id))
        } else {
            Ok(LookNeed::Answer)
        },
    }
}

/// What a refresh does once it is known whether it needs a snapshot.
pub fn snapshot_needed(
    document: Document,
    incarnation_id: IncarnationId,
    needed: Result<bool, SliceError>,
) -> (r: Result<LookNeed<'static>, SliceError>)
    ensures
        r == match (needed, document) {
            (Err(error), _) => Err::<LookNeed, SliceError>(error),
            (Ok(false), _) => Ok(LookNeed::Answer),
            (Ok(true), Document::Attribution) => Ok(
                LookNeed::Park(ReadKind::Attribution { incarnation_id }),
            ),
            (Ok(true), Document::Who) => Ok(
                LookNeed::Park(ReadKind::WhoAttribution { incarnation_id }),
            ),
        },
{
    match (needed, document) {
        (Err(error), _) => Err(error),
        (Ok(false), _) => Ok(LookNeed::Answer),
        (Ok(true), Document::Attribution) => Ok(
            LookNeed::Park(ReadKind::Attribution { incarnation_id }),
        ),
        (Ok(true), Document::Who) => Ok(LookNeed::Park(ReadKind::WhoAttribution { incarnation_id })),
    }
}

/// What a whoami does first. A caller that names itself by an alias is answered at
/// once.
pub fn prepare_whoami_read(params: &WhoamiParams) -> (r: Result<LookNeed<'_>, SliceError>)
    ensures
        match (params.pane_id, params.alias) {
            (Some(pane), None) => r matches Ok(LookNeed::FindPane(name)) && *name == pane,
            (None, Some(_)) => r == Ok::<LookNeed, SliceError>(LookNeed::Answer),
            _ => r matches Err(error) && is_invalid(error, "provide either pane_id or alias"@),
        },
{
    match whoami_form(params) {
        Ok(WhoamiForm::Pane(pane)) => Ok(LookNeed::FindPane(pane)),
        Ok(WhoamiForm::Alias(_)) => Ok(LookNeed::Answer),
        Err(error) => Err(error),
    }
}

/// What a whoami does once the store was asked for its pane.
pub fn whoami_pane_found(
    params: &WhoamiParams,
    pane: &String,
    request_id: &str,
    found: Result<bool, StoreError>,
) -> (r: Result<LookNeed<'static>, SliceError>)
    ensures
        match found {
            Err(error) => r == Err::<LookNeed, SliceError>(SliceError::Store(error)),
            Ok(true) => r == Ok::<LookNeed, SliceError>(LookNeed::Answer),
            Ok(false) => r matches Ok(LookNeed::Park(ReadKind::Whoami { pane_id, lazy_key }))
                && pane_id@ == pane@ && lazy_key@ == lazy_key_of(
                params.lazy_adopt_key,
                request_id@,
            ),
        },
{
    match found {
        Err(error) => Err(SliceError::Store(error)),
        Ok(true) => Ok(LookNeed::Answer),
        Ok(false) => Ok(
            LookNeed::Park(
                ReadKind::Whoami {
                    pane_id: pane.clone(),
                    lazy_key: lazy_key(&params.lazy_adopt_key, request_id),
                },
            ),
        ),
    }
}

/// What a report does: with live status it waits for a look.
pub fn prepare_report_read(params: ReportParams) -> (need: LookNeed<'static>)
    ensures
        need == if params.live {
            LookNeed::Park(ReadKind::Report { active: params.active })
        } else {
            LookNeed::Answer
        },
{
    if params.live {
        LookNeed::Park(ReadKind::Report { active: params.active })
    } else {
        LookNeed::Answer
    }
}

} // verus!
