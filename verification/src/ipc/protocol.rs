//! The messages of a conversation.
use vstd::prelude::*;

use crate::capability::Capabilities;

verus! {

/// Declares `serde_json::Value`, a JSON value of any shape.
#[verifier::external_type_specification]
#[verifier::external_body]
pub struct ExValue(serde_json::Value);

/// The members of a JSON object; none of any other JSON value.
pub uninterp spec fn json_members(value: serde_json::Value) -> Map<Seq<char>, serde_json::Value>;

/// The member of a JSON object with a name.
pub open spec fn json_member(value: serde_json::Value, name: Seq<char>) -> Option<
    serde_json::Value,
> {
    if json_members(value).contains_key(name) {
        Some(json_members(value)[name])
    } else {
        None
    }
}

/// Calls `serde_json::Value::get` with a text, and clones what it finds.
/// Believed of it: it finds the object's member of that name, and nothing if
/// there is none or the value is no object; the clone is the same JSON value.
#[verifier::external_body]
pub(crate) fn get_member(value: &serde_json::Value, name: &str) -> (member: Option<
    serde_json::Value,
>)
    ensures
        match member {
            Some(found) => json_members(*value).contains_key(name@) && found == json_members(
                *value,
            )[name@],
            None => !json_members(*value).contains_key(name@),
        },
{
    value.get(name).cloned()
}

/// A message of the editor.
#[derive(Debug, PartialEq)]
pub enum ClientMsg {
    /// The handshake.
    Hello,
    /// The size of the stream.
    Configure { width: u32, height: u32 },
    /// A whole scene.
    Scene { patch: serde_json::Value },
    /// Some of a scene's parameters.
    Params { patch: serde_json::Value },
    /// Begin to stream frames.
    RenderStart,
    /// Pause.
    RenderStop,
    /// Exit the engine.
    Shutdown,
}

/// What an error reply is about.
#[derive(Debug, Clone, Copy, PartialEq, Eq, Structural)]
pub enum ErrorSite {
    /// A message could not be parsed.
    Parse,
    /// A binary message came.
    Binary,
    /// A scene could not be parsed.
    SceneParse,
    /// A scene could not be applied.
    Scene,
    /// The renderer could not be built.
    RenderInit,
    /// A frame could not be rendered.
    RenderFrame,
}

impl ErrorSite {
    /// The site's name in an error reply.
    pub open spec fn text(self) -> Seq<char> {
        match self {
            ErrorSite::Parse => "parse"@,
            ErrorSite::Binary => "binary"@,
            ErrorSite::SceneParse => "scene-parse"@,
            ErrorSite::Scene => "scene"@,
            ErrorSite::RenderInit => "render-init"@,
            ErrorSite::RenderFrame => "render-frame"@,
        }
    }

    /// The site's name in an error reply.
    pub fn name(self) -> (name: &'static str)
        ensures
            name@ == self.text(),
    {
        match self {
            ErrorSite::Parse => "parse",
            ErrorSite::Binary => "binary",
            ErrorSite::SceneParse => "scene-parse",
            ErrorSite::Scene => "scene",
            ErrorSite::RenderInit => "render-init",
            ErrorSite::RenderFrame => "render-frame",
        }
    }
}

/// A message of the engine.
#[derive(Debug, PartialEq, Eq)]
pub enum EngineMsg {
    /// The answer to the handshake.
    Hello { version: String, backend: String, capabilities: Capabilities },
    /// The size and pixel format of the frames that follow.
    FrameConfig { width: u32, height: u32, format: String },
    /// Something went wrong; the conversation goes on.
    Error { site: ErrorSite, message: String },
}

/// A message of the engine, as a value of the specification.
pub enum EngineMsgView {
    Hello { version: Seq<char>, backend: Seq<char>, capabilities: Capabilities },
    FrameConfig { width: u32, height: u32, format: Seq<char> },
    Error { site: ErrorSite, message: Seq<char> },
}

impl View for EngineMsg {
    type V = EngineMsgView;

    open spec fn view(&self) -> EngineMsgView {
        match *self {
            EngineMsg::Hello { version, backend, capabilities } => EngineMsgView::Hello {
                version: version@,
                backend: backend@,
                capabilities,
            },
            EngineMsg::FrameConfig { width, height, format } => EngineMsgView::FrameConfig {
                width,
                height,
                format: format@,
            },
            EngineMsg::Error { site, message } => EngineMsgView::Error { site, message: message@ },
        }
    }
}

/// What the socket delivers.
#[derive(Debug, PartialEq)]
pub enum Inbound {
    /// A text, parsed as a message of the editor; why it is none otherwise.
    Text(Result<ClientMsg, String>),
    Binary,
    Close,
    Ping(Vec<u8>),
    Pong,
    Frame,
}

/// The address to listen on, as a text.
pub fn bind_address(host: &str, port: u16) -> (address: String)
    ensures
        address@ == host@ + ":"@ + crate::text::decimal_text(port as nat),
{
    crate::text::joined(
        crate::text::joined(host, ":").as_str(),
        crate::text::decimal(port as u64).as_str(),
    )
}

/// The port to listen on where none is named.
pub const DEFAULT_PORT: u16 = 9100;

/// Milliseconds between two frames, for about 30 frames per second.
pub const TARGET_FRAME_INTERVAL_MS: u64 = 33;

/// Each error site has a name of its own.
pub proof fn lemma_sites_are_told_apart(one: ErrorSite, other: ErrorSite)
    ensures
        one.text() == other.text() ==> one == other,
        one == ErrorSite::Parse ==> one.text() == "parse"@,
        one == ErrorSite::Binary ==> one.text() == "binary"@,
        one == ErrorSite::SceneParse ==> one.text() == "scene-parse"@,
        one == ErrorSite::Scene ==> one.text() == "scene"@,
        one == ErrorSite::RenderInit ==> one.text() == "render-init"@,
        one == ErrorSite::RenderFrame ==> one.text() == "render-frame"@,
{
    reveal_strlit("parse");
    reveal_strlit("binary");
    reveal_strlit("scene-parse");
    reveal_strlit("scene");
    reveal_strlit("render-init");
    reveal_strlit("render-frame");
    assert("parse"@[0] == 'p');
    assert("scene"@[0] == 's');
    assert("scene-parse"@[0] == 's');
    assert("render-init"@[0] == 'r');
    assert("binary"@.len() == 6);
    assert("render-frame"@.len() == 12);
    assert("scene-parse"@.len() == 11);
    assert("render-init"@.len() == 11);
    assert("parse"@.len() == 5);
    assert("scene"@.len() == 5);
}

/// A message's view shows all that the message holds.
pub proof fn lemma_message_view_shows_all(message: EngineMsg)
    ensures
        message matches EngineMsg::Hello { version, backend, capabilities } ==> message@ == (
        EngineMsgView::Hello { version: version@, backend: backend@, capabilities }),
        message matches EngineMsg::FrameConfig { width, height, format } ==> message@ == (
        EngineMsgView::FrameConfig { width, height, format: format@ }),
        message matches EngineMsg::Error { site, message: text } ==> message@ == (
        EngineMsgView::Error { site, message: text@ }),
{
}

} // verus!
