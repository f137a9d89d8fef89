//! The requests that go out on an open lane.

use vstd::prelude::*;

use crate::herdr_exec::LeaseCmd;
use crate::json::{empty_object, text_view, Json, JsonView};

verus! {

/// The view of a request that goes out on an open lane.
pub struct Sent {
    pub request_id: Seq<char>,
    pub method: Seq<char>,
    pub params: JsonView,
    /// The named point between its write and its response.
    pub pause: Seq<char>,
}

/// Whether a command sends that request.
pub open spec fn sends(cmd: LeaseCmd, sent: Sent) -> bool {
    cmd matches LeaseCmd::Send { request_id, method, params, after_write_pause } && request_id@
        == sent.request_id && method@ == sent.method && params@ == sent.params
        && after_write_pause@ == sent.pause
}

/// A prompt to a pane.
pub open spec fn prompt_sent(
    request_id: Seq<char>,
    pane: Seq<char>,
    text: Seq<char>,
    pause: Seq<char>,
) -> Sent {
    Sent {
        request_id,
        method: "agent.prompt"@,
        params: empty_object().with("target"@, text_view(pane)).with("text"@, text_view(text)),
        pause,
    }
}

/// Prompt a pane.
pub fn send_prompt(request_id: &str, pane: &str, text: &str, pause: &'static str) -> (cmd: LeaseCmd)
    ensures
        sends(cmd, prompt_sent(request_id@, pane@, text@, pause@)),
{
    LeaseCmd::Send {
        request_id: request_id.to_owned(),
        method: "agent.prompt",
        params: Json::object().with("target", Json::text(pane)).with("text", Json::text(text)),
        after_write_pause: pause,
    }
}

/// A rename of the agent in a pane.
pub open spec fn rename_sent(
    request_id: Seq<char>,
    pane: Seq<char>,
    name: Seq<char>,
    pause: Seq<char>,
) -> Sent {
    Sent {
        request_id,
        method: "agent.rename"@,
        params: empty_object().with("target"@, text_view(pane)).with("name"@, text_view(name)),
        pause,
    }
}

/// Rename the agent in a pane.
pub fn send_rename(request_id: &str, pane: &str, name: &str, pause: &'static str) -> (cmd: LeaseCmd)
    ensures
        sends(cmd, rename_sent(request_id@, pane@, name@, pause@)),
{
    LeaseCmd::Send {
        request_id: request_id.to_owned(),
        method: "agent.rename",
        params: Json::object().with("target", Json::text(pane)).with("name", Json::text(name)),
        after_write_pause: pause,
    }
}

} // verus!
