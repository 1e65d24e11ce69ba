//! The states of a conversation, and what each event makes of them.
use vstd::prelude::*;

use crate::capability::Capabilities;
use crate::ipc::protocol::json_member;
use crate::ipc::protocol::ClientMsg;
use crate::ipc::protocol::EngineMsg;
use crate::ipc::protocol::EngineMsgView;
use crate::ipc::protocol::ErrorSite;
use crate::ipc::protocol::Inbound;
use crate::scene::Camera;
use crate::scene::Light;
use crate::scene::Scene;

verus! {

/// The size of the stream until the editor configures it.
pub const DEFAULT_WIDTH: u32 = 800;

pub const DEFAULT_HEIGHT: u32 = 600;

/// The largest width and height of the stream.
pub const MAX_SIDE: u32 = 4096;

/// Every so many frames one is logged.
pub const HEARTBEAT: u64 = 60;

/// What a session waits for.
#[derive(Debug, PartialEq)]
pub enum Phase {
    /// A message, or the time of the next frame.
    Ready,
    /// A scene to be parsed.
    ParsingScene,
    /// A scene to be applied.
    UpdatingScene,
    /// A camera to be parsed, and then perhaps lights.
    ParsingCamera { lights: Option<serde_json::Value> },
    /// A camera to be applied, and then perhaps lights.
    UpdatingCamera { lights: Option<serde_json::Value> },
    /// Lights to be parsed.
    ParsingLights,
    /// Lights to be applied.
    UpdatingLights,
    /// A renderer to be built.
    Building,
    /// The scene that waited for the renderer to be applied.
    SeedingScene,
    /// The camera that waited for the renderer to be applied.
    SeedingCamera,
    /// The size of the stream to be sent.
    Announcing,
    /// A frame to be rendered.
    Rendering,
    /// A frame to be sent.
    Streaming,
    /// A reply to be sent.
    Replying,
    /// Nothing: the conversation is over.
    Closed,
}

/// What happened.
#[derive(Debug, PartialEq)]
pub enum Event {
    /// The socket delivered something.
    Message(Inbound),
    /// The socket failed.
    RecvFailed,
    /// The socket was closed.
    Disconnected,
    /// A frame is due.
    Tick,
    /// A scene was parsed, or why it was not.
    SceneParsed(Result<Scene, String>),
    /// A camera was parsed, or why it was not.
    CameraParsed(Result<Camera, String>),
    /// Lights were parsed, or why they were not.
    LightsParsed(Result<Vec<Light>, String>),
    /// The renderer was built, or why it was not.
    Built(Result<(), String>),
    /// The renderer was updated, or why it was not.
    Updated(Result<(), String>),
    /// A frame was rendered, or why it was not.
    Rendered(Result<Vec<u8>, String>),
    /// Something was sent, or not.
    Sent(bool),
}

/// How a conversation ends.
#[derive(Debug, Clone, Copy, PartialEq, Eq, Structural)]
pub enum Ending {
    /// The editor has left.
    Left,
    /// Something could not be sent.
    Failed,
    /// The editor asked the whole engine to exit.
    EngineExit,
}

/// What is to be done.
#[derive(Debug, PartialEq)]
pub enum Action {
    /// Wait for the socket, or, while rendering, until a frame is due; the
    /// socket goes first.
    Await,
    ParseScene(serde_json::Value),
    ParseCamera(serde_json::Value),
    ParseLights(serde_json::Value),
    BuildRenderer { width: u32, height: u32 },
    UpdateScene(Scene),
    UpdateCamera(Camera),
    UpdateLights(Vec<Light>),
    RenderFrame,
    SendText(EngineMsg),
    /// Send a frame, and log it if it is a heartbeat.
    SendFrame { pixels: Vec<u8>, heartbeat: bool },
    SendPong(Vec<u8>),
    /// End the conversation.
    Finish(Ending),
}

/// What is to be done, as a value of the specification.
pub enum ActionView {
    Await,
    ParseScene(serde_json::Value),
    ParseCamera(serde_json::Value),
    ParseLights(serde_json::Value),
    BuildRenderer { width: u32, height: u32 },
    UpdateScene(Scene),
    UpdateCamera(Camera),
    UpdateLights(Vec<Light>),
    RenderFrame,
    SendText(EngineMsgView),
    SendFrame { pixels: Seq<u8>, heartbeat: bool },
    SendPong(Seq<u8>),
    Finish(Ending),
}

impl View for Action {
    type V = ActionView;

    open spec fn view(&self) -> ActionView {
        match *self {
            Action::Await => ActionView::Await,
            Action::ParseScene(value) => ActionView::ParseScene(value),
            Action::ParseCamera(value) => ActionView::ParseCamera(value),
            Action::ParseLights(value) => ActionView::ParseLights(value),
            Action::BuildRenderer { width, height } => ActionView::BuildRenderer { width, height },
            Action::UpdateScene(scene) => ActionView::UpdateScene(scene),
            Action::UpdateCamera(camera) => ActionView::UpdateCamera(camera),
            Action::UpdateLights(lights) => ActionView::UpdateLights(lights),
            Action::RenderFrame => ActionView::RenderFrame,
            Action::SendText(message) => ActionView::SendText(message@),
            Action::SendFrame { pixels, heartbeat } => ActionView::SendFrame {
                pixels: pixels@,
                heartbeat,
            },
            Action::SendPong(payload) => ActionView::SendPong(payload@),
            Action::Finish(ending) => ActionView::Finish(ending),
        }
    }
}

/// A conversation, as a value of the specification.
pub struct SessionView {
    /// What hello is answered.
    pub version: Seq<char>,
    pub backend: Seq<char>,
    pub caps: Capabilities,
    /// The size of the renderer, if it is built.
    pub renderer: Option<(u32, u32)>,
    /// Whether frames are to be streamed.
    pub rendering: bool,
    /// The size that frames should have.
    pub want_dims: (u32, u32),
    /// How many frames the renderer made.
    pub frame_counter: u64,
    /// The scene and the camera that wait for the renderer.
    pub pending_scene: Option<Scene>,
    pub pending_camera: Option<Camera>,
    pub phase: Phase,
}

/// A side of the stream, brought within its bounds.
pub open spec fn clamped(side: u32) -> u32 {
    if side < 1 {
        1
    } else if side > MAX_SIDE {
        MAX_SIDE
    } else {
        side
    }
}

impl SessionView {
    /// A conversation that begins.
    pub open spec fn fresh(
        version: Seq<char>,
        backend: Seq<char>,
        caps: Capabilities,
    ) -> SessionView {
        SessionView {
            version,
            backend,
            caps,
            renderer: None,
            rendering: false,
            want_dims: (DEFAULT_WIDTH, DEFAULT_HEIGHT),
            frame_counter: 0,
            pending_scene: None,
            pending_camera: None,
            phase: Phase::Ready,
        }
    }

    /// Whether the session is one that can come about.
    pub open spec fn wf(self) -> bool {
        &&& 1 <= self.want_dims.0 <= MAX_SIDE
        &&& 1 <= self.want_dims.1 <= MAX_SIDE
        // a renderer has the size that is wanted
        &&& self.renderer is Some ==> self.renderer->0 == self.want_dims
        // nothing waits for a renderer that is there
        &&& self.renderer is Some ==> self.pending_scene is None && self.pending_camera is None
        &&& match self.phase {
            Phase::UpdatingScene | Phase::UpdatingLights => self.renderer is Some,
            Phase::UpdatingCamera { lights: _ } => self.renderer is Some,
            Phase::Building => self.rendering && self.renderer is None,
            Phase::SeedingScene => {
                self.rendering && self.renderer is None && self.pending_scene is None
            },
            Phase::SeedingCamera | Phase::Announcing => {
                self.rendering && self.renderer is None && self.pending_scene is None
                    && self.pending_camera is None
            },
            Phase::Rendering | Phase::Streaming => self.rendering && self.renderer is Some,
            _ => true,
        }
    }

    /// Whether an event may come now: the outcome of the last action, and a
    /// tick only while rendering. There are only so many frames to count.
    pub open spec fn expects(self, event: Event) -> bool {
        match self.phase {
            Phase::Ready => match event {
                Event::Message(_) | Event::RecvFailed | Event::Disconnected => true,
                Event::Tick => self.rendering,
                _ => false,
            },
            Phase::ParsingScene => event is SceneParsed,
            Phase::ParsingCamera { lights: _ } => event is CameraParsed,
            Phase::ParsingLights => event is LightsParsed,
            Phase::UpdatingScene | Phase::UpdatingLights | Phase::SeedingScene
            | Phase::SeedingCamera => event is Updated,
            Phase::UpdatingCamera { lights: _ } => event is Updated,
            Phase::Building => event is Built,
            Phase::Rendering => match event {
                Event::Rendered(Ok(_)) => self.frame_counter < u64::MAX,
                Event::Rendered(Err(_)) => true,
                _ => false,
            },
            Phase::Announcing | Phase::Streaming | Phase::Replying => event is Sent,
            Phase::Closed => false,
        }
    }

    /// The session in another phase, with an action.
    pub open spec fn go(self, phase: Phase, action: ActionView) -> (SessionView, ActionView) {
        (SessionView { phase, ..self }, action)
    }

    /// The session at rest.
    pub open spec fn rest(self) -> (SessionView, ActionView) {
        self.go(Phase::Ready, ActionView::Await)
    }

    /// The session with a reply on its way.
    pub open spec fn reply(self, message: EngineMsgView) -> (SessionView, ActionView) {
        self.go(Phase::Replying, ActionView::SendText(message))
    }

    /// The session with an error on its way.
    pub open spec fn reply_error(self, site: ErrorSite, message: Seq<char>) -> (
        SessionView,
        ActionView,
    ) {
        self.reply(EngineMsgView::Error { site, message })
    }

    /// The session at its end.
    pub open spec fn finish(self, ending: Ending) -> (SessionView, ActionView) {
        self.go(Phase::Closed, ActionView::Finish(ending))
    }

    /// The answer to hello.
    pub open spec fn hello(self) -> EngineMsgView {
        EngineMsgView::Hello {
            version: self.version,
            backend: self.backend,
            capabilities: self.caps,
        }
    }

    /// The announcement of the stream's size.
    pub open spec fn frame_config(self) -> EngineMsgView {
        EngineMsgView::FrameConfig {
            width: self.want_dims.0,
            height: self.want_dims.1,
            format: "rgba8unorm"@,
        }
    }

    /// What the lights among changed parameters lead to.
    pub open spec fn on_lights(self, lights: Option<serde_json::Value>) -> (
        SessionView,
        ActionView,
    ) {
        match lights {
            Some(value) => self.go(Phase::ParsingLights, ActionView::ParseLights(value)),
            None => self.rest(),
        }
    }

    /// What changed parameters lead to: first the camera, then the lights;
    /// nothing else counts.
    pub open spec fn on_params(
        self,
        camera: Option<serde_json::Value>,
        lights: Option<serde_json::Value>,
    ) -> (SessionView, ActionView) {
        match camera {
            Some(value) => self.go(
                Phase::ParsingCamera { lights },
                ActionView::ParseCamera(value),
            ),
            None => self.on_lights(lights),
        }
    }

    /// What a message of the editor leads to.
    pub open spec fn on_client_msg(self, message: ClientMsg) -> (SessionView, ActionView) {
        match message {
            ClientMsg::Hello => self.reply(self.hello()),
            ClientMsg::Configure { width, height } => SessionView {
                want_dims: (clamped(width), clamped(height)),
                renderer: None,
                ..self
            }.rest(),
            ClientMsg::Scene { patch } => self.go(
                Phase::ParsingScene,
                ActionView::ParseScene(patch),
            ),
            ClientMsg::Params { patch } => self.on_params(
                json_member(patch, "camera"@),
                json_member(patch, "lights"@),
            ),
            ClientMsg::RenderStart => SessionView { rendering: true, ..self }.rest(),
            ClientMsg::RenderStop => SessionView { rendering: false, ..self }.rest(),
            ClientMsg::Shutdown => self.finish(Ending::EngineExit),
        }
    }

    /// What a delivery of the socket leads to.
    pub open spec fn on_inbound(self, inbound: Inbound) -> (SessionView, ActionView) {
        match inbound {
            Inbound::Text(Ok(message)) => self.on_client_msg(message),
            Inbound::Text(Err(reason)) => self.reply_error(
                ErrorSite::Parse,
                "invalid client message: "@ + reason@,
            ),
            Inbound::Binary => self.reply_error(
                ErrorSite::Binary,
                "binary client → engine not currently expected"@,
            ),
            Inbound::Close => self.finish(Ending::Left),
            Inbound::Ping(payload) => self.go(
                Phase::Replying,
                ActionView::SendPong(payload@),
            ),
            Inbound::Pong | Inbound::Frame => self.rest(),
        }
    }

    /// What a parsed scene leads to: it is applied to the renderer, or waits
    /// for it. It brings a camera of its own, so an older camera waits no more.
    pub open spec fn on_scene(self, scene: Result<Scene, String>) -> (SessionView, ActionView) {
        match scene {
            Ok(scene) => if self.renderer is Some {
                self.go(Phase::UpdatingScene, ActionView::UpdateScene(scene))
            } else {
                SessionView { pending_scene: Some(scene), pending_camera: None, ..self }.rest()
            },
            Err(reason) => self.reply_error(
                ErrorSite::SceneParse,
                "invalid scene patch: "@ + reason@,
            ),
        }
    }

    /// What a parsed camera leads to: it is applied to the renderer, or waits
    /// for it.
    pub open spec fn on_camera(
        self,
        camera: Result<Camera, String>,
        lights: Option<serde_json::Value>,
    ) -> (SessionView, ActionView) {
        match camera {
            Ok(camera) => if self.renderer is Some {
                self.go(Phase::UpdatingCamera { lights }, ActionView::UpdateCamera(camera))
            } else {
                SessionView { pending_camera: Some(camera), ..self }.on_lights(lights)
            },
            Err(_) => self.on_lights(lights),
        }
    }

    /// What parsed lights lead to: they are applied to the renderer. Without
    /// one they are dropped, as the next scene brings lights of its own.
    pub open spec fn on_parsed_lights(self, lights: Result<Vec<Light>, String>) -> (
        SessionView,
        ActionView,
    ) {
        match lights {
            Ok(lights) => if self.renderer is Some {
                self.go(Phase::UpdatingLights, ActionView::UpdateLights(lights))
            } else {
                self.rest()
            },
            Err(_) => self.rest(),
        }
    }

    /// What the time of a frame leads to: a renderer of the wanted size is
    /// built first.
    pub open spec fn on_tick(self) -> (SessionView, ActionView) {
        if self.renderer == Some(self.want_dims) {
            self.go(Phase::Rendering, ActionView::RenderFrame)
        } else {
            self.go(
                Phase::Building,
                ActionView::BuildRenderer { width: self.want_dims.0, height: self.want_dims.1 },
            )
        }
    }

    /// A new renderer gets the camera that waited, and its size is announced.
    pub open spec fn seed_camera(self) -> (SessionView, ActionView) {
        match self.pending_camera {
            Some(camera) => SessionView { pending_camera: None, ..self }.go(
                Phase::SeedingCamera,
                ActionView::UpdateCamera(camera),
            ),
            None => self.go(Phase::Announcing, ActionView::SendText(self.frame_config())),
        }
    }

    /// A new renderer gets the scene that waited, and then the camera.
    pub open spec fn seed_scene(self) -> (SessionView, ActionView) {
        match self.pending_scene {
            Some(scene) => SessionView { pending_scene: None, ..self }.go(
                Phase::SeedingScene,
                ActionView::UpdateScene(scene),
            ),
            None => self.seed_camera(),
        }
    }

    /// What an attempt to build the renderer leads to. If it failed, rendering
    /// stops.
    pub open spec fn on_built(self, built: Result<(), String>) -> (SessionView, ActionView) {
        match built {
            Ok(_) => self.seed_scene(),
            Err(reason) => SessionView { rendering: false, ..self }.reply_error(
                ErrorSite::RenderInit,
                reason@,
            ),
        }
    }

    /// What an attempt to render a frame leads to. If it failed, rendering
    /// stops.
    pub open spec fn on_rendered(self, frame: Result<Vec<u8>, String>) -> (
        SessionView,
        ActionView,
    ) {
        match frame {
            Ok(pixels) => {
                let count = (self.frame_counter + 1) as u64;
                SessionView { frame_counter: count, ..self }.go(
                    Phase::Streaming,
                    ActionView::SendFrame { pixels: pixels@, heartbeat: count % HEARTBEAT == 1 },
                )
            },
            Err(reason) => SessionView { rendering: false, ..self }.reply_error(
                ErrorSite::RenderFrame,
                reason@,
            ),
        }
    }

    /// What an update of the renderer leads to. Only a scene that a message
    /// brought is worth an error.
    pub open spec fn on_updated(self, updated: Result<(), String>) -> (SessionView, ActionView) {
        match self.phase {
            Phase::UpdatingScene => match updated {
                Ok(_) => self.rest(),
                Err(reason) => self.reply_error(ErrorSite::Scene, reason@),
            },
            Phase::UpdatingCamera { lights } => self.on_lights(lights),
            Phase::SeedingScene => self.seed_camera(),
            Phase::SeedingCamera => self.go(
                Phase::Announcing,
                ActionView::SendText(self.frame_config()),
            ),
            _ => self.rest(),
        }
    }

    /// What an attempt to send leads to. Once its size is announced, the
    /// renderer is in use.
    pub open spec fn on_sent(self, sent: bool) -> (SessionView, ActionView) {
        match self.phase {
            Phase::Announcing => if sent {
                SessionView { renderer: Some(self.want_dims), frame_counter: 0, ..self }.go(
                    Phase::Rendering,
                    ActionView::RenderFrame,
                )
            } else {
                self.finish(Ending::Failed)
            },
            Phase::Streaming => if sent {
                self.rest()
            } else {
                self.finish(Ending::Left)
            },
            _ => if sent {
                self.rest()
            } else {
                self.finish(Ending::Failed)
            },
        }
    }

    /// What an event leads to.
    pub open spec fn next(self, event: Event) -> (SessionView, ActionView) {
        match event {
            Event::Message(inbound) => self.on_inbound(inbound),
            Event::RecvFailed | Event::Disconnected => self.finish(Ending::Left),
            Event::Tick => self.on_tick(),
            Event::SceneParsed(scene) => self.on_scene(scene),
            Event::CameraParsed(camera) => self.on_camera(
                camera,
                self.phase->ParsingCamera_lights,
            ),
            Event::LightsParsed(lights) => self.on_parsed_lights(lights),
            Event::Built(built) => self.on_built(built),
            Event::Updated(updated) => self.on_updated(updated),
            Event::Rendered(frame) => self.on_rendered(frame),
            Event::Sent(sent) => self.on_sent(sent),
        }
    }
}

/// An expected event leads to a session that can come about.
pub proof fn lemma_step_keeps_wf(session: SessionView, event: Event)
    requires
        session.wf(),
        session.expects(event),
    ensures
        session.next(event).0.wf(),
{
}

/// An action's view shows all that the action holds.
pub proof fn lemma_action_view_shows_all(action: Action)
    ensures
        action is Await <==> action@ is Await,
        action is RenderFrame <==> action@ is RenderFrame,
        action matches Action::ParseScene(value) ==> action@ == ActionView::ParseScene(value),
        action matches Action::ParseCamera(value) ==> action@ == ActionView::ParseCamera(value),
        action matches Action::ParseLights(value) ==> action@ == ActionView::ParseLights(value),
        action matches Action::BuildRenderer { width, height } ==> action@ == (
        ActionView::BuildRenderer { width, height }),
        action matches Action::UpdateScene(scene) ==> action@ == ActionView::UpdateScene(scene),
        action matches Action::UpdateCamera(camera) ==> action@ == ActionView::UpdateCamera(camera),
        action matches Action::UpdateLights(lights) ==> action@ == ActionView::UpdateLights(lights),
        action matches Action::SendText(message) ==> action@ == ActionView::SendText(message@),
        action matches Action::SendFrame { pixels, heartbeat } ==> action@ == (
        ActionView::SendFrame { pixels: pixels@, heartbeat }),
        action matches Action::SendPong(payload) ==> action@ == ActionView::SendPong(payload@),
        action matches Action::Finish(ending) ==> action@ == ActionView::Finish(ending),
{
}

} // verus!
