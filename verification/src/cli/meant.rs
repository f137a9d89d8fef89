//! What an invocation means: its global flags, its command, and where its bodies come from.

use vstd::prelude::*;

use super::tokens::{stands, stands_behind};
use super::{
    asks_for_help, body_text, globals_from, globals_of, invocation_of, is_one_request,
    is_socket_token, line_count, read_of, under, AdoptArgs, AdoptMeant, BodyRead, BodySource,
    Globals, Invocation, InvocationMeant, StartCommand, StartMeant, Surroundings,
};
use crate::text::{begins, is_blank};

verus! {

/// A start is the one that was meant, part by part; its session is the one that was given, and the
/// default one where none was.
#[verifier::spinoff_prover]
pub proof fn law_start_is_meant_part_by_part(start: StartCommand, meant: StartMeant)
    requires
        start.is_meant(meant),
    ensures
        start.public_name == meant.public_name,
        start.logical_agent_id == meant.logical_agent_id,
        start.parent == meant.parent,
        meant.session matches Some(session) ==> start.herdr_session == session,
        meant.session is None ==> start.herdr_session@ == "default"@,
        start.pane_id == meant.pane_id,
        start.terminal_id == meant.terminal_id,
        start.backend_kind == meant.backend_kind,
        start.backend_args@ == meant.backend_args,
        start.initial_kind@ == meant.initial_kind@,
        start.initial_sender == meant.initial_sender,
        start.body == meant.body,
        start.working_directory == meant.working_directory,
        start.idempotency_key == meant.idempotency_key,
        start.readiness_timeout_ms == meant.readiness_timeout_ms,
        start.keep_open == meant.keep_open,
        start.requested_model == meant.requested_model,
        start.requested_provider == meant.requested_provider,
        start.requested_effort == meant.requested_effort,
        start.supersedes == meant.supersedes,
{
}

/// An adoption is the one that was meant, part by part; its session is the one that was given, and
/// the default one where none was.
#[verifier::spinoff_prover]
pub proof fn law_adoption_is_meant_part_by_part(adopt: AdoptArgs, meant: AdoptMeant)
    requires
        adopt.is_meant(meant),
    ensures
        adopt.pane_id == meant.pane_id,
        adopt.terminal_id == meant.terminal_id,
        adopt.public_name == meant.public_name,
        adopt.backend_kind == meant.backend_kind,
        adopt.logical_agent_id == meant.logical_agent_id,
        meant.session matches Some(session) ==> adopt.herdr_session == session,
        meant.session is None ==> adopt.herdr_session@ == "default"@,
        adopt.backend_args@ == meant.backend_args,
        adopt.requested_model == meant.requested_model,
        adopt.requested_provider == meant.requested_provider,
        adopt.requested_effort == meant.requested_effort,
        adopt.idempotency_key == meant.idempotency_key,
{
}

proof fn lemma_globals(args: Seq<String>, index: int, so_far: Globals)
    requires
        0 <= index,
        so_far.json ==> stands(args, "--json"@),
        so_far.socket matches Some(path) ==> stands_behind(args, "--socket"@, path),
    ensures
        globals_from(args, index, so_far) matches Ok(found) ==> {
            &&& found.json ==> stands(args, "--json"@)
            &&& found.socket matches Some(path) ==> stands_behind(args, "--socket"@, path)
            &&& so_far.json ==> found.json
            &&& so_far.socket is Some ==> found.socket == so_far.socket
        },
    decreases args.len() - index,
{
    if index < args.len() {
        if args[index]@ == "--socket"@ {
            if index + 1 < args.len() {
                let next = Globals {
                    socket: Some(args[index + 1]),
                    json: so_far.json,
                    rest: so_far.rest,
                };
                assert(stands_behind(args, "--socket"@, args[index + 1]));
                lemma_globals(args, index + 2, next);
            }
        } else if args[index]@ == "--json"@ {
            let next = Globals { socket: so_far.socket, json: true, rest: so_far.rest };
            assert(stands(args, "--json"@));
            lemma_globals(args, index + 1, next);
        } else if begins(args[index]@, '-') {
            let next = Globals {
                socket: so_far.socket,
                json: so_far.json,
                rest: so_far.rest.push(args[index]),
            };
            lemma_globals(args, index + 1, next);
        }
    }
}

/// A global flag counts where it was given: the socket is the one behind its flag. What comes first
/// is heard, and a command that comes first is left whole.
#[verifier::spinoff_prover]
pub proof fn law_global_flags_are_heard(args: Seq<String>)
    ensures
        globals_of(args) matches Ok(found) ==> {
            &&& found.json ==> stands(args, "--json"@)
            &&& found.socket matches Some(path) ==> stands_behind(args, "--socket"@, path)
            &&& args.len() > 0 && args[0]@ == "--json"@ ==> found.json
            &&& args.len() > 1 && args[0]@ == "--socket"@ ==> found.socket == Some(args[1])
            &&& args.len() > 0 && !begins(args[0]@, '-') ==> found.rest == args && !found.json
                && found.socket is None
        },
{
    reveal_strlit("--json");
    reveal_strlit("--socket");
    assert("--json"@.len() == 6 && "--socket"@.len() == 8);
    assert(begins("--json"@, '-') && begins("--socket"@, '-'));
    let none = Globals { socket: None, json: false, rest: Seq::empty() };
    lemma_globals(args, 0, none);
    if args.len() > 0 && args[0]@ == "--json"@ {
        assert(stands(args, "--json"@));
        lemma_globals(args, 1, Globals { socket: None, json: true, rest: Seq::empty() });
    } else if args.len() > 1 && args[0]@ == "--socket"@ {
        assert(stands_behind(args, "--socket"@, args[1]));
        lemma_globals(
            args,
            2,
            Globals { socket: Some(args[1]), json: false, rest: Seq::empty() },
        );
    } else if args.len() > 0 && !begins(args[0]@, '-') {
        assert(Seq::<String>::empty() + args.skip(0) =~= args);
    }
}

/// Questions are answered before anything else is looked at, and a command goes to the socket that
/// was named, or to the daemon's own.
#[verifier::spinoff_prover]
#[verifier::rlimit(60)]
pub proof fn law_invocation_is_what_was_asked_for(args: Seq<String>, surroundings: Surroundings)
    ensures
        args.len() == 0 ==> (invocation_of(args, surroundings) matches Ok(meant) && meant
            == InvocationMeant::Plain(Invocation::Help)),
        args.len() == 1 && args[0]@ == "--skill"@ ==> (invocation_of(
            args,
            surroundings,
        ) matches Ok(meant) && meant == InvocationMeant::Plain(Invocation::Skill)),
        args.len() == 1 && (args[0]@ == "--version"@ || args[0]@ == "-V"@) ==> (invocation_of(
            args,
            surroundings,
        ) matches Ok(meant) && meant == InvocationMeant::Plain(Invocation::Version)),
        args.len() > 1 && asks_for_help(args) ==> (invocation_of(args, surroundings) matches Ok(
            meant,
        ) && meant == InvocationMeant::Plain(Invocation::Help)),
        invocation_of(args, surroundings) matches Ok(InvocationMeant::Typed { socket, json, .. })
            ==> (globals_of(args) matches Ok(found) && json == found.json && match found.socket {
            Some(path) => socket == path,
            None => socket == surroundings.default_socket,
        }),
        invocation_of(args, surroundings) matches Ok(
            InvocationMeant::Plain(Invocation::Raw { socket }),
        ) ==> is_socket_token(socket@, surroundings.present@),
{
    reveal_strlit("--skill");
    reveal_strlit("--version");
    reveal_strlit("-V");
    assert("--skill"@.len() == 7 && "--version"@.len() == 9 && "-V"@.len() == 2);
}

/// A body that stands on the command line is taken as it is and needs no reading; any other is what
/// was read of its source, or the reason why it was not.
#[verifier::spinoff_prover]
pub proof fn law_body_is_what_its_source_holds(source: BodySource, read: Result<String, String>)
    ensures
        source matches BodySource::Literal(text) ==> read_of(source) == BodyRead::Nothing && (
        body_text(source, read) matches Ok(body) && body == text@),
        source matches BodySource::File(path) ==> read_of(source) == BodyRead::File(path),
        source is Stdin ==> read_of(source) == BodyRead::Stdin,
        !(source is Literal) ==> (read matches Ok(text) ==> (body_text(source, read) matches Ok(body)
            && body == text@)),
        !(source is Literal) ==> (read matches Err(reason) ==> (body_text(source, read) matches Err(
            told,
        ) && told == reason@)),
{
}

/// A path in a directory is the directory, one slash and the name.
#[verifier::spinoff_prover]
pub proof fn law_path_has_one_slash(directory: Seq<char>, name: Seq<char>)
    ensures
        directory.len() > 0 && directory.last() != '/' ==> under(directory, name) == directory + "/"@
            + name,
        under(directory.push('/'), name) == directory + "/"@ + name,
        under(Seq::empty(), name) == name,
{
    reveal_strlit("/");
    assert(directory.push('/') =~= directory + "/"@);
    assert(directory.push('/').last() == '/');
    assert(Seq::<char>::empty() + name =~= name);
}

proof fn lemma_line_count(s: Seq<char>)
    ensures
        s.len() > 0 ==> line_count(s) >= 1,
        s.len() > 0 && (forall|i: int| 0 <= i < s.len() - 1 ==> #[trigger] s[i] != '\n')
            ==> line_count(s) == 1,
        (exists|i: int| 0 <= i < s.len() - 1 && #[trigger] s[i] == '\n') ==> line_count(s) >= 2,
    decreases s.len(),
{
    if s.len() > 0 {
        let rest = s.drop_last();
        lemma_line_count(rest);
        if s.len() > 1 {
            assert(rest[rest.len() - 1] == s[s.len() - 2]);
            if forall|i: int| 0 <= i < s.len() - 1 ==> #[trigger] s[i] != '\n' {
                assert forall|i: int| 0 <= i < rest.len() - 1 implies #[trigger] rest[i] != '\n' by {
                    assert(s[i] != '\n');
                }
                assert(s[s.len() - 2] != '\n');
            }
            if exists|i: int| 0 <= i < s.len() - 1 && #[trigger] s[i] == '\n' {
                let i = choose|i: int| 0 <= i < s.len() - 1 && #[trigger] s[i] == '\n';
                if i < rest.len() - 1 {
                    assert(rest[i] == '\n');
                }
            }
        }
    }
}

/// One request is one line that is not blank, whether or not a newline ends it; anything behind a
/// newline is another.
pub proof fn law_one_request_is_one_line(s: Seq<char>)
    ensures
        is_one_request(s) <==> !is_blank(s) && forall|i: int|
            0 <= i < s.len() - 1 ==> #[trigger] s[i] != '\n',
{
    lemma_line_count(s);
}

} // verus!
