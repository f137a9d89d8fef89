//! Requested launch configuration vs adapter-observed execution metadata.

use vstd::prelude::*;

use crate::cli::{path_under, under};
use crate::json::{
    empty_object, lemma_empty_get, lemma_with, lemma_with_get, lemma_with_is_object, text_view, Json,
    JsonView,
};
use crate::json_text::{json_failure, json_of, parse_json};
use crate::text::{holds, lines, occurs, same, text_lines, texts, trim, trimmed};

verus! {

/// Requested model, provider, or effort. Absence means nobody wrote the field.
#[derive(Debug, Clone, PartialEq, Eq)]
pub struct RequestedAttribution {
    pub model: Option<String>,
    pub provider: Option<String>,
    pub effort: Option<String>,
}

impl Default for RequestedAttribution {
    fn default() -> (requested: Self)
        ensures
            requested == (RequestedAttribution { model: None, provider: None, effort: None }),
    {
        RequestedAttribution { model: None, provider: None, effort: None }
    }
}

/// An object with one more field where there is a text for it.
pub open spec fn with_written(base: JsonView, name: Seq<char>, text: Option<String>) -> JsonView {
    match text {
        Some(text) => base.with(name, text_view(text@)),
        None => base,
    }
}

fn put_written(object: &mut Json, name: &str, text: &Option<String>)
    ensures
        final(object)@ == with_written(old(object)@, name@, *text),
{
    if let Some(text) = text {
        object.put(name, Json::text(text.as_str()));
    }
}

impl RequestedAttribution {
    /// The document of a request: what nobody wrote is left out.
    pub open spec fn view(&self) -> JsonView {
        with_written(
            with_written(
                with_written(empty_object(), "model"@, self.model),
                "provider"@,
                self.provider,
            ),
            "effort"@,
            self.effort,
        )
    }

    /// The document of a request.
    pub fn document(&self) -> (document: Json)
        ensures
            document@ == self@,
    {
        let mut document = Json::object();
        put_written(&mut document, "model", &self.model);
        put_written(&mut document, "provider", &self.provider);
        put_written(&mut document, "effort", &self.effort);
        document
    }
}

/// One observed field. `Undetermined` is explicit and is not an omitted request.
#[derive(Debug, Clone, PartialEq, Eq)]
pub enum ObservedField {
    Undetermined,
    Reported(String),
}

/// The text that a field reports: nothing where it is undetermined.
pub open spec fn reported_of(value: Option<Seq<char>>) -> Option<Seq<char>> {
    match value {
        Some(text) => if text.len() > 0 {
            Some(text)
        } else {
            None
        },
        None => None,
    }
}

impl ObservedField {
    /// What a field reports.
    pub open spec fn view(&self) -> Option<Seq<char>> {
        match self {
            ObservedField::Undetermined => None,
            ObservedField::Reported(value) => Some(value@),
        }
    }

    /// The document of a field.
    pub open spec fn document_view(&self) -> JsonView {
        match self {
            ObservedField::Undetermined => empty_object().with(
                "status"@,
                text_view("undetermined"@),
            ),
            ObservedField::Reported(value) => empty_object().with(
                "status"@,
                text_view("reported"@),
            ).with("value"@, text_view(value@)),
        }
    }

    /// An observation of a value: an absent or empty one is undetermined.
    pub fn reported(value: Option<String>) -> (field: ObservedField)
        ensures
            field@ == reported_of(
                match value {
                    Some(text) => Some(text@),
                    None => None,
                },
            ),
    {
        match value {
            Some(value) => if value.as_str().is_empty() {
                ObservedField::Undetermined
            } else {
                ObservedField::Reported(value)
            },
            None => ObservedField::Undetermined,
        }
    }

    /// The document of a field.
    pub fn document(&self) -> (document: Json)
        ensures
            document@ == self.document_view(),
    {
        match self {
            ObservedField::Undetermined => Json::object().with(
                "status",
                Json::text("undetermined"),
            ),
            ObservedField::Reported(value) => Json::object().with(
                "status",
                Json::text("reported"),
            ).with("value", Json::text(value.as_str())),
        }
    }
}

/// One append-only observation from a named adapter or an explicit non-adapter.
#[derive(Debug, Clone, PartialEq, Eq)]
pub struct ObservedAttribution {
    pub adapter: String,
    pub model: ObservedField,
    pub provider: ObservedField,
    pub effort: ObservedField,
}

/// The view of an observation.
pub struct ObservedView {
    pub adapter: Seq<char>,
    pub model: Option<Seq<char>>,
    pub provider: Option<Seq<char>>,
    pub effort: Option<Seq<char>>,
}

impl ObservedAttribution {
    pub open spec fn view(&self) -> ObservedView {
        ObservedView {
            adapter: self.adapter@,
            model: self.model@,
            provider: self.provider@,
            effort: self.effort@,
        }
    }
}

/// An observation that found nothing.
pub open spec fn undetermined_view(adapter: Seq<char>) -> ObservedView {
    ObservedView { adapter, model: None, provider: None, effort: None }
}

fn undetermined(adapter: &str) -> (observed: ObservedAttribution)
    ensures
        observed@ == undetermined_view(adapter@),
{
    ObservedAttribution {
        adapter: adapter.to_owned(),
        model: ObservedField::Undetermined,
        provider: ObservedField::Undetermined,
        effort: ObservedField::Undetermined,
    }
}

/// The root of a backend that keeps one file of turns per session, with the kind
/// that the backend goes by.
#[derive(Debug, Clone, PartialEq, Eq)]
pub struct TurnRoot {
    pub backend_kind: String,
    pub path: String,
}

/// Roots used when a named adapter may read its own session artifact.
#[derive(Debug, Clone, PartialEq, Eq)]
pub struct SessionRoots {
    pub claude: Option<TurnRoot>,
    pub codex: Option<String>,
    pub opencode: Option<String>,
}

impl Default for SessionRoots {
    fn default() -> (roots: Self)
        ensures
            roots == (SessionRoots { claude: None, codex: None, opencode: None }),
    {
        SessionRoots { claude: None, codex: None, opencode: None }
    }
}

impl SessionRoots {
    /// Default live session roots under the user's home directory. `turn_backend` is
    /// the kind of the backend that keeps one file of turns per session, in a
    /// directory that is named after it. Which kind that is, the caller says.
    pub fn from_home(home: &Option<String>, turn_backend: &str) -> (roots: SessionRoots)
        ensures
            match (home, roots) {
                (
                    Some(home),
                    SessionRoots { claude: Some(claude), codex: Some(codex), opencode: Some(opencode) },
                ) => claude.backend_kind@ == turn_backend@ && claude.path@ == under(
                    home@,
                    "."@ + turn_backend@ + "/projects"@,
                ) && codex@ == under(
                    home@,
                    ".codex/sessions"@,
                ) && opencode@ == under(home@, ".local/share/opencode"@),
                (None, roots) => roots == (SessionRoots {
                    claude: None,
                    codex: None,
                    opencode: None,
                }),
                _ => false,
            },
    {
        match home {
            Some(home) => SessionRoots {
                claude: Some(
                    TurnRoot {
                        backend_kind: turn_backend.to_owned(),
                        path: path_under(
                            home.as_str(),
                            ".".to_owned().concat(turn_backend).concat("/projects").as_str(),
                        ),
                    },
                ),
                codex: Some(path_under(home.as_str(), ".codex/sessions")),
                opencode: Some(path_under(home.as_str(), ".local/share/opencode")),
            },
            None => SessionRoots { claude: None, codex: None, opencode: None },
        }
    }
}

/// A text without surrounding white space, unless nothing is left.
pub open spec fn nonempty(value: JsonView) -> Option<Seq<char>> {
    match value.as_text() {
        Some(text) => if trimmed(text).len() > 0 {
            Some(trimmed(text))
        } else {
            None
        },
        None => None,
    }
}

fn nonempty_str(value: Option<&Json>) -> (text: Option<String>)
    ensures
        match (
            text,
            nonempty(
                match value {
                    Some(value) => value@,
                    None => JsonView::Null,
                },
            ),
        ) {
            (Some(text), Some(meant)) => text@ == meant,
            (None, None) => true,
            _ => false,
        },
{
    match value {
        None => None,
        Some(value) => match value.as_text() {
            None => None,
            Some(text) => {
                let text = trim(text);
                if text.as_str().is_empty() {
                    None
                } else {
                    Some(text)
                }
            },
        },
    }
}

/// The identifier of a native session reference.
pub open spec fn session_of(native_session: Option<JsonView>) -> Option<Seq<char>> {
    match native_session {
        Some(session) => nonempty(session.at("value"@)),
        None => None,
    }
}

/// The view of a value that may be absent.
pub open spec fn optional_json(value: Option<&Json>) -> Option<JsonView> {
    match value {
        Some(value) => Some(value@),
        None => None,
    }
}

/// The identifier of a native session reference: its `value`, where that is a
/// text that is not blank.
pub fn native_session_id(native_session: Option<&Json>) -> (id: Option<String>)
    ensures
        match (id, session_of(optional_json(native_session))) {
            (Some(id), Some(meant)) => id@ == meant,
            (None, None) => true,
            _ => false,
        },
{
    match native_session {
        None => None,
        Some(session) => nonempty_str(session.get("value")),
    }
}

/// Which session artifact has to be read before an observation.
#[derive(Debug, PartialEq, Eq)]
pub enum SessionLookup<'a> {
    /// None: there is no adapter, no session, or no root for it.
    Nothing,
    /// The `.jsonl` file under the root that is named after the session.
    Claude { session_id: String, root: &'a String },
    /// A `.jsonl` file under the root that holds the session's identifier.
    Codex { session_id: String, root: &'a String },
    /// The `.db` stores in the root, in the order of their paths.
    Opencode { session_id: String, root: &'a String },
}

/// Whether a backend keeps one file of turns per session. The backends with another
/// adapter do not, whatever the root says.
pub open spec fn keeps_turns(backend_kind: Seq<char>, roots: SessionRoots) -> bool {
    backend_kind != "codex"@ && backend_kind != "opencode"@ && (roots.claude matches Some(root)
        && root.backend_kind@ == backend_kind)
}

/// The root of a backend that keeps one file of turns per session, where it is one.
fn turn_root<'a>(backend_kind: &str, roots: &'a SessionRoots) -> (path: Option<&'a String>)
    ensures
        match path {
            Some(path) => keeps_turns(backend_kind@, *roots) && *path == roots.claude->0.path,
            None => !keeps_turns(backend_kind@, *roots),
        },
{
    if same(backend_kind, "codex") || same(backend_kind, "opencode") {
        return None;
    }
    match &roots.claude {
        Some(root) => if same(root.backend_kind.as_str(), backend_kind) {
            Some(&root.path)
        } else {
            None
        },
        None => None,
    }
}

/// The root of an adapter.
pub open spec fn root_of(backend_kind: Seq<char>, roots: SessionRoots) -> Option<String> {
    if keeps_turns(backend_kind, roots) {
        Some(roots.claude->0.path)
    } else if backend_kind == "codex"@ {
        roots.codex
    } else if backend_kind == "opencode"@ {
        roots.opencode
    } else {
        None
    }
}

/// Under given roots one backend keeps turns, and every backend without an adapter of its
/// own has no root.
pub proof fn law_one_backend_keeps_turns(first: Seq<char>, second: Seq<char>, roots: SessionRoots)
    requires
        first != second,
        keeps_turns(first, roots),
    ensures
        !keeps_turns(second, roots),
        second != "codex"@ && second != "opencode"@ ==> root_of(second, roots) is None,
{
}

/// Decide which session artifact has to be read before an observation.
pub fn session_lookup<'a>(
    backend_kind: &str,
    native_session: Option<&Json>,
    roots: &'a SessionRoots,
) -> (lookup: SessionLookup<'a>)
    ensures
        match (
            session_of(optional_json(native_session)),
            root_of(backend_kind@, *roots),
        ) {
            (Some(session), Some(wanted)) => match lookup {
                SessionLookup::Claude { session_id, root } => keeps_turns(backend_kind@, *roots)
                    && session_id@ == session && *root == wanted,
                SessionLookup::Codex { session_id, root } => !keeps_turns(backend_kind@, *roots)
                    && backend_kind@ == "codex"@ && session_id@ == session && *root == wanted,
                SessionLookup::Opencode { session_id, root } => !keeps_turns(backend_kind@, *roots)
                    && backend_kind@ == "opencode"@ && session_id@ == session && *root == wanted,
                SessionLookup::Nothing => false,
            },
            _ => lookup is Nothing,
        },
{
    proof {
        reveal_strlit("codex");
        reveal_strlit("opencode");
        assert("codex"@.len() != "opencode"@.len());
    }
    let session_id = match native_session_id(native_session) {
        Some(id) => id,
        None => {
            return SessionLookup::Nothing;
        },
    };
    if let Some(root) = turn_root(backend_kind, roots) {
        return SessionLookup::Claude { session_id, root };
    }
    if same(backend_kind, "codex") {
        match &roots.codex {
            Some(root) => SessionLookup::Codex { session_id, root },
            None => SessionLookup::Nothing,
        }
    } else if same(backend_kind, "opencode") {
        match &roots.opencode {
            Some(root) => SessionLookup::Opencode { session_id, root },
            None => SessionLookup::Nothing,
        }
    } else {
        SessionLookup::Nothing
    }
}

/// Whether a file is the artifact of a session that keeps its turns, by its stem and its
/// extension.
pub fn is_named_after(stem: Option<&str>, extension: Option<&str>, session_id: &str) -> (r: bool)
    ensures
        r == (stem is Some && stem->0@ == session_id@ && extension is Some && extension->0@
            == "jsonl"@),
{
    match (stem, extension) {
        (Some(stem), Some(extension)) => same(stem, session_id) && same(extension, "jsonl"),
        _ => false,
    }
}

/// Whether a file may hold a `codex` session, by its extension.
pub fn is_session_file(extension: Option<&str>) -> (r: bool)
    ensures
        r == (extension is Some && extension->0@ == "jsonl"@),
{
    match extension {
        Some(extension) => same(extension, "jsonl"),
        None => false,
    }
}

/// Whether the text of a file holds a `codex` session.
pub fn holds_session(text: &str, session_id: &str) -> (r: bool)
    ensures
        r == occurs(text@, session_id@),
{
    holds(text, session_id)
}

/// What one `OpenCode` store says of a session.
#[derive(Debug, Clone, PartialEq, Eq)]
pub enum OpencodeLookup {
    /// The newest assistant turn names these.
    Reported { model: Option<String>, provider: Option<String>, effort: Option<String> },
    SessionWithoutTurn,
    Absent,
}

impl OpencodeLookup {
    /// What the two queries of a store mean: its newest assistant turn, or how
    /// many messages of the session it holds.
    pub fn of_queries(
        latest: Option<(Option<String>, Option<String>, Option<String>)>,
        count: Option<i64>,
    ) -> (lookup: OpencodeLookup)
        ensures
            lookup == match latest {
                Some((model, provider, effort)) => OpencodeLookup::Reported {
                    model,
                    provider,
                    effort,
                },
                None => match count {
                    Some(count) => if count > 0 {
                        OpencodeLookup::SessionWithoutTurn
                    } else {
                        OpencodeLookup::Absent
                    },
                    None => OpencodeLookup::Absent,
                },
            },
    {
        match latest {
            Some((model, provider, effort)) => OpencodeLookup::Reported { model, provider, effort },
            None => match count {
                Some(count) if count > 0 => OpencodeLookup::SessionWithoutTurn,
                _ => OpencodeLookup::Absent,
            },
        }
    }
}

/// What was read of a session.
#[derive(Debug, PartialEq, Eq)]
pub enum SessionRead {
    /// Nothing could be found or read.
    Missing,
    /// The text of the artifact.
    Text(String),
    /// What each store says, in the order of their paths.
    Stores(Vec<OpencodeLookup>),
}

/// The view of a line that may be a document.
pub open spec fn line_view(line: Option<Json>) -> Option<JsonView> {
    match line {
        Some(value) => Some(value@),
        None => None,
    }
}

/// The views of lines that may be documents.
pub open spec fn line_views(lines: Seq<Option<Json>>) -> Seq<Option<JsonView>> {
    lines.map_values(|line: Option<Json>| line_view(line))
}

/// The document that a line is, where it is one.
pub open spec fn document_of(line: Seq<char>) -> Option<JsonView> {
    match json_failure(line) {
        Some(_) => None,
        None => Some(json_of(line)),
    }
}

/// The lines of a text, each as a document where it is one.
pub open spec fn document_lines(text: Seq<char>) -> Seq<Option<JsonView>> {
    text_lines(text).map_values(|line: Seq<char>| document_of(line))
}

/// Read the lines of an artifact, each as a document where it is one.
pub fn session_lines(text: &str) -> (documents: Vec<Option<Json>>)
    ensures
        line_views(documents@) == document_lines(text@),
{
    let all = lines(text);
    let ghost meant = text_lines(text@);
    let mut documents: Vec<Option<Json>> = Vec::new();
    let mut i: usize = 0;
    while i < all.len()
        invariant
            i <= all@.len(),
            texts(all@) == meant,
            documents@.len() == i,
            forall|j: int|
                0 <= j < i ==> line_view(#[trigger] documents@[j]) == document_of(meant[j]),
        decreases all@.len() - i,
    {
        assert(all@[i as int]@ == meant[i as int]);
        let document = match parse_json(all[i].as_str()) {
            Ok(value) => Some(value),
            Err(_) => None,
        };
        documents.push(document);
        i = i + 1;
    }
    assert(line_views(documents@) =~= document_lines(text@));
    documents
}

/// Whether a line is a document of that type.
pub open spec fn line_is(line: Option<JsonView>, kind: Seq<char>) -> bool {
    match line {
        Some(value) => value.at("type"@) == text_view(kind),
        None => false,
    }
}

/// What one assistant line of a file of turns names: its model and provider.
pub open spec fn turn_names(line: Option<JsonView>) -> (Option<Seq<char>>, Option<Seq<char>>) {
    match line {
        Some(value) => {
            let message = value.at("message"@);
            (nonempty(message.at("model"@)), nonempty(message.at("provider"@)))
        },
        None => (None, None),
    }
}

/// What a file of turns names: the last assistant line that names a model or a
/// provider.
pub open spec fn claude_names(lines: Seq<Option<JsonView>>) -> (
    Option<Seq<char>>,
    Option<Seq<char>>,
)
    decreases lines.len(),
{
    if lines.len() == 0 {
        (None, None)
    } else {
        let names = turn_names(lines.last());
        if line_is(lines.last(), "assistant"@) && (names.0 is Some || names.1 is Some) {
            names
        } else {
            claude_names(lines.drop_last())
        }
    }
}

fn is_line(line: &Option<Json>, kind: &str) -> (r: bool)
    ensures
        r == line_is(line_view(*line), kind@),
{
    match line {
        Some(value) => match value.text_at("type") {
            Some(text) => same(text, kind),
            None => false,
        },
        None => false,
    }
}

/// A field of a nested object.
fn nested<'a>(value: &'a Json, object: &str, name: &str) -> (field: Option<&'a Json>)
    ensures
        match field {
            Some(field) => field@ == value@.at(object@).at(name@),
            None => value@.at(object@).at(name@) is Null,
        },
{
    match value.get(object) {
        Some(inner) => inner.get(name),
        None => None,
    }
}

/// The view of a text that may be absent.
pub open spec fn shown(text: Option<String>) -> Option<Seq<char>> {
    match text {
        Some(text) => Some(text@),
        None => None,
    }
}

/// Observe a session that keeps its turns: its last assistant turn that names
/// anything.
pub fn observe_claude(backend_kind: &str, lines: &Vec<Option<Json>>) -> (observed: ObservedAttribution)
    ensures
        observed@ == (ObservedView {
            adapter: backend_kind@,
            model: claude_names(line_views(lines@)).0,
            provider: claude_names(line_views(lines@)).1,
            effort: None,
        }),
{
    let ghost views = line_views(lines@);
    let mut i: usize = lines.len();
    let mut model: Option<String> = None;
    let mut provider: Option<String> = None;
    assert(views.take(lines@.len() as int) =~= views);
    while i > 0
        invariant_except_break
            i <= lines@.len(),
            model is None,
            provider is None,
            views == line_views(lines@),
            claude_names(views) == claude_names(views.take(i as int)),
        ensures
            shown(model) == claude_names(views).0,
            shown(provider) == claude_names(views).1,
        decreases i,
    {
        i = i - 1;
        let ghost seen = views.take(i as int + 1);
        assert(seen.last() == line_view(lines@[i as int]));
        assert(seen.drop_last() =~= views.take(i as int));
        if is_line(&lines[i], "assistant") {
            if let Some(value) = &lines[i] {
                let named = nonempty_str(nested(value, "message", "model"));
                let provided = nonempty_str(nested(value, "message", "provider"));
                if named.is_some() || provided.is_some() {
                    model = named;
                    provider = provided;
                    break ;
                }
            }
        }
    }
    proof {
        lemma_names_are_not_empty(views);
    }
    ObservedAttribution {
        adapter: backend_kind.to_owned(),
        model: ObservedField::reported(model),
        provider: ObservedField::reported(provider),
        effort: ObservedField::Undetermined,
    }
}

proof fn lemma_names_are_not_empty(lines: Seq<Option<JsonView>>)
    ensures
        reported_of(claude_names(lines).0) == claude_names(lines).0,
        reported_of(claude_names(lines).1) == claude_names(lines).1,
    decreases lines.len(),
{
    if lines.len() > 0 {
        lemma_names_are_not_empty(lines.drop_last());
    }
}

/// The first line of a `codex` session that describes it.
pub open spec fn codex_meta(lines: Seq<Option<JsonView>>) -> Option<JsonView>
    decreases lines.len(),
{
    if lines.len() == 0 {
        None
    } else if line_is(lines[0], "session_meta"@) {
        lines[0]
    } else {
        codex_meta(lines.skip(1))
    }
}

/// What a `codex` session names.
pub open spec fn codex_view(lines: Seq<Option<JsonView>>) -> ObservedView {
    match codex_meta(lines) {
        Some(meta) => {
            let payload = meta.at("payload"@);
            ObservedView {
                adapter: "codex"@,
                model: nonempty(payload.at("model"@)),
                provider: nonempty(payload.at("model_provider"@)),
                effort: nonempty(payload.at("effort"@)),
            }
        },
        None => undetermined_view("codex"@),
    }
}

/// Observe a `codex` session: the first line that describes it.
pub fn observe_codex(lines: &Vec<Option<Json>>) -> (observed: ObservedAttribution)
    ensures
        observed@ == codex_view(line_views(lines@)),
{
    let ghost views = line_views(lines@);
    let mut i: usize = 0;
    assert(views.skip(0) =~= views);
    while i < lines.len()
        invariant
            i <= lines@.len(),
            views == line_views(lines@),
            codex_view(views) == codex_view(views.skip(i as int)),
        decreases lines@.len() - i,
    {
        assert(views.skip(i as int)[0] == line_view(lines@[i as int]));
        assert(views.skip(i as int).skip(1) =~= views.skip(i as int + 1));
        if is_line(&lines[i], "session_meta") {
            if let Some(value) = &lines[i] {
                return ObservedAttribution {
                    adapter: "codex".to_owned(),
                    model: ObservedField::reported(
                        nonempty_str(nested(value, "payload", "model")),
                    ),
                    provider: ObservedField::reported(
                        nonempty_str(nested(value, "payload", "model_provider")),
                    ),
                    effort: ObservedField::reported(
                        nonempty_str(nested(value, "payload", "effort")),
                    ),
                };
            }
        }
        i = i + 1;
    }
    undetermined("codex")
}

/// The first store that reports a turn of a session.
pub open spec fn first_report(stores: Seq<OpencodeLookup>) -> Option<int>
    decreases stores.len(),
{
    if stores.len() == 0 {
        None
    } else {
        match first_report(stores.drop_last()) {
            Some(i) => Some(i),
            None => if stores.last() is Reported {
                Some(stores.len() - 1)
            } else {
                None
            },
        }
    }
}

/// What the stores of `OpenCode` say of a session: the first that reports a turn,
/// or why none does.
pub open spec fn opencode_of(stores: Seq<OpencodeLookup>, root: Seq<char>) -> (
    ObservedView,
    Option<Seq<char>>,
) {
    let nothing = undetermined_view("opencode"@);
    if stores.len() == 0 {
        (nothing, Some("no OpenCode store under "@ + root))
    } else {
        match first_report(stores) {
            Some(i) => (
                ObservedView {
                    adapter: "opencode"@,
                    model: reported_of(shown(stores[i]->model)),
                    provider: reported_of(shown(stores[i]->provider)),
                    effort: reported_of(shown(stores[i]->effort)),
                },
                None,
            ),
            None => if exists|i: int|
                0 <= i < stores.len() && (#[trigger] stores[i]) is SessionWithoutTurn {
                (
                    nothing,
                    Some(
                        "session has produced no assistant turn yet; observe again after its first reply"@,
                    ),
                )
            } else {
                (nothing, Some("session was not found in any OpenCode store"@))
            },
        }
    }
}

proof fn lemma_first_report(stores: Seq<OpencodeLookup>, at: int)
    requires
        0 <= at < stores.len(),
        stores[at] is Reported,
        forall|j: int| 0 <= j < at ==> !((#[trigger] stores[j]) is Reported),
    ensures
        first_report(stores) == Some(at),
    decreases stores.len(),
{
    let rest = stores.drop_last();
    if at == stores.len() - 1 {
        lemma_no_report(rest);
    } else {
        assert(rest[at] == stores[at]);
        lemma_first_report(rest, at);
    }
}

proof fn lemma_no_report(stores: Seq<OpencodeLookup>)
    requires
        forall|j: int| 0 <= j < stores.len() ==> !((#[trigger] stores[j]) is Reported),
    ensures
        first_report(stores) is None,
    decreases stores.len(),
{
    if stores.len() > 0 {
        lemma_no_report(stores.drop_last());
    }
}

fn copied(text: &Option<String>) -> (r: Option<String>)
    ensures
        shown(r) == shown(*text),
{
    match text {
        Some(text) => Some(text.clone()),
        None => None,
    }
}

/// Observe an `OpenCode` session in its stores.
///
/// One directory holds several stores, so the session is searched for rather than
/// assumed to sit in a default one. Model identity is written on assistant turns
/// only, so a session that has not produced one has nothing to observe yet:
/// genuinely undetermined, and resolved by observing again later rather than by
/// guessing.
pub fn observe_opencode(stores: &Vec<OpencodeLookup>, root: &str) -> (r: (
    ObservedAttribution,
    Option<String>,
))
    ensures
        (r.0@, shown(r.1)) == opencode_of(stores@, root@),
{
    if stores.len() == 0 {
        return (
            undetermined("opencode"),
            Some("no OpenCode store under ".to_owned().concat(root)),
        );
    }
    let mut session_seen = false;
    let mut i: usize = 0;
    while i < stores.len()
        invariant
            i <= stores@.len(),
            stores@.len() > 0,
            forall|j: int| 0 <= j < i ==> !((#[trigger] stores@[j]) is Reported),
            session_seen == exists|j: int|
                0 <= j < i && (#[trigger] stores@[j]) is SessionWithoutTurn,
        decreases stores@.len() - i,
    {
        match &stores[i] {
            OpencodeLookup::Reported { model, provider, effort } => {
                proof {
                    lemma_first_report(stores@, i as int);
                }
                return (
                    ObservedAttribution {
                        adapter: "opencode".to_owned(),
                        model: ObservedField::reported(copied(model)),
                        provider: ObservedField::reported(copied(provider)),
                        effort: ObservedField::reported(copied(effort)),
                    },
                    None,
                );
            },
            OpencodeLookup::SessionWithoutTurn => {
                assert(stores@[i as int] is SessionWithoutTurn);
                session_seen = true;
            },
            OpencodeLookup::Absent => {},
        }
        i = i + 1;
    }
    proof {
        lemma_no_report(stores@);
    }
    let reason = if session_seen {
        "session has produced no assistant turn yet; observe again after its first reply"
    } else {
        "session was not found in any OpenCode store"
    };
    (undetermined("opencode"), Some(reason.to_owned()))
}

/// What an observation gives: the observation, and why where nothing could be
/// determined.
pub open spec fn observation_of(
    backend_kind: Seq<char>,
    session: Option<Seq<char>>,
    roots: SessionRoots,
    read: SessionRead,
) -> (ObservedView, Option<Seq<char>>) {
    if keeps_turns(backend_kind, roots) {
        match (session, read) {
            (Some(_), SessionRead::Text(text)) => (
                ObservedView {
                    adapter: backend_kind,
                    model: claude_names(document_lines(text@)).0,
                    provider: claude_names(document_lines(text@)).1,
                    effort: None,
                },
                None,
            ),
            _ => (undetermined_view(backend_kind), None),
        }
    } else if backend_kind == "codex"@ {
        match (session, roots.codex, read) {
            (Some(_), Some(_), SessionRead::Text(text)) => (codex_view(document_lines(text@)), None),
            _ => (undetermined_view("codex"@), None),
        }
    } else if backend_kind == "opencode"@ {
        match (session, roots.opencode, read) {
            (None, _, _) => (
                undetermined_view("opencode"@),
                Some("no native session is recorded for this incarnation"@),
            ),
            (Some(_), None, _) => (
                undetermined_view("opencode"@),
                Some("no OpenCode session root is configured"@),
            ),
            (Some(_), Some(root), SessionRead::Stores(stores)) => opencode_of(stores@, root@),
            (Some(_), Some(root), _) => opencode_of(Seq::empty(), root@),
        }
    } else {
        (undetermined_view(backend_kind), None)
    }
}

/// Observe, and say why when nothing could be determined. `read` is what the
/// artifact that [`session_lookup`] names gave.
///
/// The reason is diagnostic, not evidence: it explains whether an adapter found
/// no session at all or found one that has not run a turn yet. Those need
/// opposite responses from a caller (look elsewhere, or ask again later) and
/// `undetermined` alone cannot tell them apart. It is deliberately not durable;
/// only the observation itself is.
pub fn observe_detailed(
    backend_kind: &str,
    native_session: Option<&Json>,
    roots: &SessionRoots,
    read: &SessionRead,
) -> (r: (ObservedAttribution, Option<String>))
    ensures
        (r.0@, shown(r.1)) == observation_of(
            backend_kind@,
            session_of(optional_json(native_session)),
            *roots,
            *read,
        ),
{
    let session_id = native_session_id(native_session);
    if turn_root(backend_kind, roots).is_some() {
        match (&session_id, read) {
            (Some(_), SessionRead::Text(text)) => (
                observe_claude(backend_kind, &session_lines(text.as_str())),
                None,
            ),
            _ => (undetermined(backend_kind), None),
        }
    } else if same(backend_kind, "codex") {
        match (&session_id, &roots.codex, read) {
            (Some(_), Some(_), SessionRead::Text(text)) => (
                observe_codex(&session_lines(text.as_str())),
                None,
            ),
            _ => (undetermined("codex"), None),
        }
    } else if same(backend_kind, "opencode") {
        match (&session_id, &roots.opencode, read) {
            (None, _, _) => (
                undetermined("opencode"),
                Some("no native session is recorded for this incarnation".to_owned()),
            ),
            (Some(_), None, _) => (
                undetermined("opencode"),
                Some("no OpenCode session root is configured".to_owned()),
            ),
            (Some(_), Some(root), SessionRead::Stores(stores)) => observe_opencode(
                stores,
                root.as_str(),
            ),
            (Some(_), Some(root), _) => {
                let none: Vec<OpencodeLookup> = Vec::new();
                observe_opencode(&none, root.as_str())
            },
        }
    } else {
        (undetermined(backend_kind), None)
    }
}

/// Observe execution metadata. Never uses requested fields, pane titles, or
/// Herdr's own agent description.
pub fn observe(
    backend_kind: &str,
    native_session: Option<&Json>,
    roots: &SessionRoots,
    read: &SessionRead,
) -> (observed: ObservedAttribution)
    ensures
        observed@ == observation_of(
            backend_kind@,
            session_of(optional_json(native_session)),
            *roots,
            *read,
        ).0,
{
    observe_detailed(backend_kind, native_session, roots, read).0
}

/// An omitted request and an undetermined observation are told apart in the
/// documents: the first is not there, the second is there and says so.
pub proof fn law_omission_is_not_undetermined(
    requested: RequestedAttribution,
    observed: ObservedField,
)
    requires
        requested.model is None,
        observed is Undetermined,
    ensures
        requested@.get("model"@) is None,
        observed.document_view().at("status"@) == text_view("undetermined"@),
{
    reveal_strlit("model");
    reveal_strlit("provider");
    reveal_strlit("effort");
    reveal_strlit("status");
    assert("model"@.len() != "provider"@.len());
    assert("model"@.len() != "effort"@.len());
    let provided = with_written(empty_object(), "provider"@, requested.provider);
    if let Some(provider) = requested.provider {
        lemma_with(empty_object(), "provider"@, text_view(provider@), "model"@);
    }
    if let Some(effort) = requested.effort {
        lemma_with(provided, "effort"@, text_view(effort@), "model"@);
    }
    lemma_with(empty_object(), "status"@, text_view("undetermined"@), "status"@);
}

/// Whether a line is an assistant turn that names a model or a provider.
pub open spec fn names_something(line: Option<JsonView>) -> bool {
    line matches Some(turn) && turn.at("type"@) == text_view("assistant"@) && (nonempty(
        turn.at("message"@).at("model"@),
    ) is Some || nonempty(turn.at("message"@).at("provider"@)) is Some)
}

/// Whether the newest turn that names anything is the one at a place, and names just that.
pub open spec fn is_newest_turn(
    lines: Seq<Option<JsonView>>,
    at: int,
    names: (Option<Seq<char>>, Option<Seq<char>>),
) -> bool {
    &&& 0 <= at < lines.len()
    &&& names_something(lines[at])
    &&& names.0 == nonempty(lines[at]->0.at("message"@).at("model"@))
    &&& names.1 == nonempty(lines[at]->0.at("message"@).at("provider"@))
    &&& forall|later: int| at < later < lines.len() ==> !names_something(#[trigger] lines[later])
}

/// The model and the provider of a session are those of one assistant turn, behind which no
/// turn names either. Nothing is observed only where no turn names anything.
pub proof fn law_newest_turn_is_observed(lines: Seq<Option<JsonView>>)
    ensures
        (exists|at: int| #[trigger] is_newest_turn(lines, at, claude_names(lines))) || (
        claude_names(lines) == (None::<Seq<char>>, None::<Seq<char>>) && forall|i: int|
            0 <= i < lines.len() ==> !names_something(#[trigger] lines[i])),
    decreases lines.len(),
{
    if lines.len() > 0 {
        let last = lines.len() - 1;
        let rest = lines.drop_last();
        if names_something(lines[last]) {
            assert(is_newest_turn(lines, last, claude_names(lines)));
        } else {
            law_newest_turn_is_observed(rest);
            assert forall|i: int| 0 <= i < rest.len() implies rest[i] == lines[i] by {}
            if exists|at: int| is_newest_turn(rest, at, claude_names(rest)) {
                let at = choose|at: int| #[trigger] is_newest_turn(rest, at, claude_names(rest));
                assert forall|later: int| at < later < lines.len() implies !names_something(
                    #[trigger] lines[later],
                ) by {
                    if later < last {
                        assert(!names_something(rest[later]));
                    }
                }
                assert(is_newest_turn(lines, at, claude_names(lines)));
            } else {
                assert forall|i: int| 0 <= i < lines.len() implies !names_something(
                    #[trigger] lines[i],
                ) by {
                    if i < last {
                        assert(!names_something(rest[i]));
                    }
                }
            }
        }
    }
}

/// Whether a line describes a `codex` session.
pub open spec fn describes_session(line: Option<JsonView>) -> bool {
    line matches Some(meta) && meta.at("type"@) == text_view("session_meta"@)
}

/// A `codex` session is observed in the first line that describes it: its model, its
/// provider and its effort, each where it says so.
pub proof fn law_first_description_is_observed(lines: Seq<Option<JsonView>>)
    ensures
        (exists|at: int|
            0 <= at < lines.len() && describes_session(#[trigger] lines[at]) && (forall|before: int|
                0 <= before < at ==> !describes_session(#[trigger] lines[before])) && codex_view(
                lines,
            ).model == nonempty(lines[at]->0.at("payload"@).at("model"@)) && codex_view(
                lines,
            ).provider == nonempty(lines[at]->0.at("payload"@).at("model_provider"@)) && codex_view(
                lines,
            ).effort == nonempty(lines[at]->0.at("payload"@).at("effort"@))) || (codex_view(lines)
            == undetermined_view("codex"@) && forall|i: int|
            0 <= i < lines.len() ==> !describes_session(#[trigger] lines[i])),
    decreases lines.len(),
{
    if lines.len() > 0 {
        if describes_session(lines[0]) {
            assert(codex_meta(lines) == lines[0]);
        } else {
            let rest = lines.skip(1);
            law_first_description_is_observed(rest);
            assert(codex_meta(lines) == codex_meta(rest));
            if exists|at: int|
                0 <= at < rest.len() && describes_session(#[trigger] rest[at]) && (forall|before: int|
                    0 <= before < at ==> !describes_session(#[trigger] rest[before])) && codex_view(
                    rest,
                ).model == nonempty(rest[at]->0.at("payload"@).at("model"@)) && codex_view(
                    rest,
                ).provider == nonempty(rest[at]->0.at("payload"@).at("model_provider"@))
                    && codex_view(rest).effort == nonempty(
                    rest[at]->0.at("payload"@).at("effort"@),
                ) {
                let at = choose|at: int|
                    0 <= at < rest.len() && describes_session(#[trigger] rest[at]) && (forall|
                        before: int,
                    |
                        0 <= before < at ==> !describes_session(#[trigger] rest[before]))
                        && codex_view(rest).model == nonempty(
                        rest[at]->0.at("payload"@).at("model"@),
                    ) && codex_view(rest).provider == nonempty(
                        rest[at]->0.at("payload"@).at("model_provider"@),
                    ) && codex_view(rest).effort == nonempty(
                        rest[at]->0.at("payload"@).at("effort"@),
                    );
                assert(lines[at + 1] == rest[at]);
                assert forall|before: int| 0 <= before < at + 1 implies !describes_session(
                    #[trigger] lines[before],
                ) by {
                    if before > 0 {
                        assert(rest[before - 1] == lines[before]);
                    }
                }
            } else {
                assert forall|i: int| 0 <= i < lines.len() implies !describes_session(
                    #[trigger] lines[i],
                ) by {
                    if i > 0 {
                        assert(rest[i - 1] == lines[i]);
                    }
                }
            }
        }
    }
}

/// The stores of `OpenCode` are heard in their order: the first that reports a turn is what
/// is observed, with no reason given, and a reason is given where none does.
pub proof fn law_first_reporting_store_is_observed(stores: Seq<OpencodeLookup>, root: Seq<char>, at: int)
    requires
        0 <= at < stores.len(),
    ensures
        stores[at] is Reported && (forall|before: int|
            0 <= before < at ==> !((#[trigger] stores[before]) is Reported)) ==> opencode_of(
            stores,
            root,
        ).1 is None && opencode_of(stores, root).0.model == reported_of(shown(stores[at]->model))
            && opencode_of(stores, root).0.provider == reported_of(shown(stores[at]->provider))
            && opencode_of(stores, root).0.effort == reported_of(shown(stores[at]->effort)),
        (forall|i: int| 0 <= i < stores.len() ==> !((#[trigger] stores[i]) is Reported))
            ==> opencode_of(stores, root).1 is Some && opencode_of(stores, root).0
            == undetermined_view("opencode"@),
{
    if stores[at] is Reported && (forall|before: int|
        0 <= before < at ==> !((#[trigger] stores[before]) is Reported)) {
        lemma_first_report(stores, at);
    }
    if forall|i: int| 0 <= i < stores.len() ==> !((#[trigger] stores[i]) is Reported) {
        lemma_no_report(stores);
    }
}

/// An observation is always told under the backend that it is of, and nothing is observed
/// where no session is recorded or nothing of it was read.
pub proof fn law_observation_is_of_its_backend(
    backend_kind: Seq<char>,
    session: Option<Seq<char>>,
    roots: SessionRoots,
    read: SessionRead,
)
    ensures
        observation_of(backend_kind, session, roots, read).0.adapter == backend_kind,
        session is None || read is Missing ==> observation_of(backend_kind, session, roots, read).0
            == undetermined_view(backend_kind),
        backend_kind == "opencode"@ && session is None ==> observation_of(
            backend_kind,
            session,
            roots,
            read,
        ).1 is Some,
{
    reveal_strlit("codex");
    reveal_strlit("opencode");
    assert("codex"@.len() == 5 && "opencode"@.len() == 8);
}

/// What the session file of a backend that keeps turns says is what is observed of it.
pub proof fn law_turns_are_observed(
    backend_kind: Seq<char>,
    session: Seq<char>,
    roots: SessionRoots,
    text: String,
)
    requires
        keeps_turns(backend_kind, roots),
    ensures
        ({
            let lines = document_lines(text@);
            let observed = observation_of(
                backend_kind,
                Some(session),
                roots,
                SessionRead::Text(text),
            ).0;
            (exists|at: int| #[trigger]
                is_newest_turn(lines, at, (observed.model, observed.provider))) || (observed
                == undetermined_view(backend_kind) && forall|i: int|
                0 <= i < lines.len() ==> !names_something(#[trigger] lines[i]))
        }),
{
    law_newest_turn_is_observed(document_lines(text@));
}

/// What was requested is told part by part, and what nobody wrote is left out.
#[verifier::spinoff_prover]
pub proof fn law_request_is_told_part_by_part(requested: RequestedAttribution)
    ensures
        requested@.get("model"@) == match requested.model {
            Some(text) => Some(text_view(text@)),
            None => None,
        },
        requested@.get("provider"@) == match requested.provider {
            Some(text) => Some(text_view(text@)),
            None => None,
        },
        requested@.get("effort"@) == match requested.effort {
            Some(text) => Some(text_view(text@)),
            None => None,
        },
{
    broadcast use {lemma_with_get, lemma_with_is_object, lemma_empty_get};

    reveal_strlit("model");
    reveal_strlit("provider");
    reveal_strlit("effort");
    assert("model"@.len() == 5);
    assert("provider"@.len() == 8);
    assert("effort"@.len() == 6);
}

/// An observed field says whether it was reported, and what.
#[verifier::spinoff_prover]
pub proof fn law_observed_field_is_told(field: ObservedField)
    ensures
        match field {
            ObservedField::Reported(value) => field.document_view().get("status"@) == Some(
                text_view("reported"@),
            ) && field.document_view().get("value"@) == Some(text_view(value@)),
            ObservedField::Undetermined => field.document_view().get("status"@) == Some(
                text_view("undetermined"@),
            ) && field.document_view().get("value"@) is None,
        },
{
    broadcast use {lemma_with_get, lemma_with_is_object, lemma_empty_get};

    reveal_strlit("status");
    reveal_strlit("value");
    assert("status"@.len() == 6);
    assert("value"@.len() == 5);
}

/// What a field names is its text without the white space around it, where anything is left.
#[verifier::spinoff_prover]
pub proof fn law_named_text_is_trimmed(value: JsonView)
    ensures
        nonempty(value) matches Some(named) ==> (value matches JsonView::Text(text) && named
            == trimmed(text) && named.len() > 0),
        value matches JsonView::Text(text) ==> (trimmed(text).len() > 0 ==> nonempty(value) is Some),
        value !is Text ==> nonempty(value) is None,
{
}

/// A session is the one that its reference holds as its value; one that is blank is none.
#[verifier::spinoff_prover]
pub proof fn law_session_is_the_value_of_its_reference(reference: JsonView, text: Seq<char>)
    ensures
        reference.at("value"@) == JsonView::Text(text) && trimmed(text).len() > 0 ==> session_of(
            Some(reference),
        ) == Some(trimmed(text)),
        reference.at("value"@) !is Text ==> session_of(Some(reference)) is None,
        session_of(None) is None,
{
}

/// Each backend is looked for under its own root.
#[verifier::spinoff_prover]
pub proof fn law_backend_has_its_own_root(roots: SessionRoots, backend_kind: Seq<char>)
    ensures
        root_of("codex"@, roots) == roots.codex,
        root_of("opencode"@, roots) == roots.opencode,
        backend_kind != "codex"@ && backend_kind != "opencode"@ ==> (root_of(
            backend_kind,
            roots,
        ) matches Some(path) ==> (roots.claude matches Some(root) && root.path == path
            && root.backend_kind@ == backend_kind)),
{
    reveal_strlit("codex");
    reveal_strlit("opencode");
    assert("codex"@.len() == 5);
    assert("opencode"@.len() == 8);
}

/// A reported text is told unless it is empty.
#[verifier::spinoff_prover]
pub proof fn law_reported_text_is_not_empty(text: Seq<char>)
    ensures
        text.len() > 0 ==> reported_of(Some(text)) == Some(text),
        text.len() == 0 ==> reported_of(Some(text)) is None,
        reported_of(None) is None,
{
}

/// What is observed of a file of turns is what its newest turn names that names a model or a provider;
/// nothing is observed only where no turn names either.
#[verifier::spinoff_prover]
pub proof fn law_observation_is_of_the_newest_turn(
    backend_kind: &str,
    lines: &Vec<Option<Json>>,
    observed: ObservedAttribution,
)
    requires
        call_ensures(observe_claude, (backend_kind, lines), observed),
    ensures
        observed@.adapter == backend_kind@,
        (exists|at: int| #[trigger]
            is_newest_turn(line_views(lines@), at, (observed@.model, observed@.provider))) || (
        observed@.model is None && observed@.provider is None && forall|i: int|
            0 <= i < lines@.len() ==> !names_something(#[trigger] line_views(lines@)[i])),
{
    law_newest_turn_is_observed(line_views(lines@));
}

} // verus!
