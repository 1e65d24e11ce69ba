//! The conversation itself.
//!
//! A [`Session`] decides; its caller acts. Each event yields one action, whose
//! outcome is the next event. The renderer is built only when the first frame
//! is due, so a client that never renders does not pay for it. Scenes and
//! cameras that come earlier wait for it.
use vstd::prelude::*;

use crate::capability::Capabilities;
use crate::ipc::model::clamped;
use crate::ipc::model::lemma_step_keeps_wf;
use crate::ipc::model::Action;
use crate::ipc::model::ActionView;
use crate::ipc::model::Ending;
use crate::ipc::model::Event;
use crate::ipc::model::Phase;
use crate::ipc::model::SessionView;
use crate::ipc::model::DEFAULT_HEIGHT;
use crate::ipc::model::DEFAULT_WIDTH;
use crate::ipc::model::HEARTBEAT;
use crate::ipc::model::MAX_SIDE;
use crate::ipc::protocol::get_member;
use crate::ipc::protocol::json_member;
use crate::ipc::protocol::ClientMsg;
use crate::ipc::protocol::EngineMsg;
use crate::ipc::protocol::ErrorSite;
use crate::ipc::protocol::Inbound;
use crate::scene::Camera;
use crate::scene::Light;
use crate::scene::Scene;
use crate::text::joined;

verus! {

/// The conversation with one editor.
#[derive(Debug)]
pub struct Session {
    version: String,
    backend: String,
    caps: Capabilities,
    renderer: Option<(u32, u32)>,
    rendering: bool,
    want_dims: (u32, u32),
    frame_counter: u64,
    pending_scene: Option<Scene>,
    pending_camera: Option<Camera>,
    phase: Phase,
}

impl View for Session {
    type V = SessionView;

    closed spec fn view(&self) -> SessionView {
        SessionView {
            version: self.version@,
            backend: self.backend@,
            caps: self.caps,
            renderer: self.renderer,
            rendering: self.rendering,
            want_dims: self.want_dims,
            frame_counter: self.frame_counter,
            pending_scene: self.pending_scene,
            pending_camera: self.pending_camera,
            phase: self.phase,
        }
    }
}

fn clamp_side(side: u32) -> (bounded: u32)
    ensures
        bounded == clamped(side),
{
    if side < 1 {
        1
    } else if side > MAX_SIDE {
        MAX_SIDE
    } else {
        side
    }
}

impl Session {
    /// A conversation that begins. Hello will be answered with the given
    /// version, backend and capabilities.
    pub fn new(version: String, backend: String, caps: Capabilities) -> (session: Session)
        ensures
            session@.wf(),
            session@ == SessionView::fresh(version@, backend@, caps),
    {
        Session {
            version,
            backend,
            caps,
            renderer: None,
            rendering: false,
            want_dims: (DEFAULT_WIDTH, DEFAULT_HEIGHT),
            frame_counter: 0,
            pending_scene: None,
            pending_camera: None,
            phase: Phase::Ready,
        }
    }

    /// Whether ticks are wanted.
    pub fn rendering(&self) -> (rendering: bool)
        ensures
            rendering == self@.rendering,
    {
        self.rendering
    }

    /// The size that frames should have.
    pub fn want_dims(&self) -> (dims: (u32, u32))
        ensures
            dims == self@.want_dims,
    {
        self.want_dims
    }

    /// The size of the renderer in use, if there is one.
    pub fn renderer(&self) -> (dims: Option<(u32, u32)>)
        ensures
            dims == self@.renderer,
    {
        self.renderer
    }

    /// How many frames the renderer made.
    pub fn frame_counter(&self) -> (count: u64)
        ensures
            count == self@.frame_counter,
    {
        self.frame_counter
    }

    /// Whether an event may come now.
    pub fn expects(&self, event: &Event) -> (expected: bool)
        ensures
            expected == self@.expects(*event),
    {
        match (&self.phase, event) {
            (Phase::Ready, Event::Message(_)) => true,
            (Phase::Ready, Event::RecvFailed) => true,
            (Phase::Ready, Event::Disconnected) => true,
            (Phase::Ready, Event::Tick) => self.rendering,
            (Phase::ParsingScene, Event::SceneParsed(_)) => true,
            (Phase::ParsingCamera { lights: _ }, Event::CameraParsed(_)) => true,
            (Phase::ParsingLights, Event::LightsParsed(_)) => true,
            (Phase::UpdatingScene, Event::Updated(_)) => true,
            (Phase::UpdatingCamera { lights: _ }, Event::Updated(_)) => true,
            (Phase::UpdatingLights, Event::Updated(_)) => true,
            (Phase::SeedingScene, Event::Updated(_)) => true,
            (Phase::SeedingCamera, Event::Updated(_)) => true,
            (Phase::Building, Event::Built(_)) => true,
            (Phase::Rendering, Event::Rendered(Ok(_))) => self.frame_counter < u64::MAX,
            (Phase::Rendering, Event::Rendered(Err(_))) => true,
            (Phase::Announcing, Event::Sent(_)) => true,
            (Phase::Streaming, Event::Sent(_)) => true,
            (Phase::Replying, Event::Sent(_)) => true,
            _ => false,
        }
    }

    fn rest(&mut self) -> (action: Action)
        ensures
            (final(self)@, action@) == old(self)@.rest(),
    {
        self.phase = Phase::Ready;
        Action::Await
    }

    fn reply(&mut self, message: EngineMsg) -> (action: Action)
        ensures
            (final(self)@, action@) == old(self)@.reply(message@),
    {
        self.phase = Phase::Replying;
        Action::SendText(message)
    }

    fn reply_error(&mut self, site: ErrorSite, message: String) -> (action: Action)
        ensures
            (final(self)@, action@) == old(self)@.reply_error(site, message@),
    {
        self.reply(EngineMsg::Error { site, message })
    }

    fn finish(&mut self, ending: Ending) -> (action: Action)
        ensures
            (final(self)@, action@) == old(self)@.finish(ending),
    {
        self.phase = Phase::Closed;
        Action::Finish(ending)
    }

    fn on_lights(&mut self, lights: Option<serde_json::Value>) -> (action: Action)
        ensures
            (final(self)@, action@) == old(self)@.on_lights(lights),
    {
        match lights {
            Some(value) => {
                self.phase = Phase::ParsingLights;
                Action::ParseLights(value)
            },
            None => self.rest(),
        }
    }

    /// Takes the camera and the lights among changed parameters.
    pub fn on_params(
        &mut self,
        camera: Option<serde_json::Value>,
        lights: Option<serde_json::Value>,
    ) -> (action: Action)
        requires
            old(self)@.wf(),
            old(self)@.phase is Ready,
        ensures
            (final(self)@, action@) == old(self)@.on_params(camera, lights),
            final(self)@.wf(),
    {
        match camera {
            Some(value) => {
                self.phase = Phase::ParsingCamera { lights };
                Action::ParseCamera(value)
            },
            None => self.on_lights(lights),
        }
    }

    fn on_client_msg(&mut self, message: ClientMsg) -> (action: Action)
        requires
            old(self)@.wf(),
            old(self)@.phase is Ready,
        ensures
            (final(self)@, action@) == old(self)@.on_client_msg(message),
            final(self)@.wf(),
    {
        match message {
            ClientMsg::Hello => {
                let hello = EngineMsg::Hello {
                    version: self.version.clone(),
                    backend: self.backend.clone(),
                    capabilities: self.caps.clone(),
                };
                self.reply(hello)
            },
            ClientMsg::Configure { width, height } => {
                self.want_dims = (clamp_side(width), clamp_side(height));
                self.renderer = None;
                self.rest()
            },
            ClientMsg::Scene { patch } => {
                self.phase = Phase::ParsingScene;
                Action::ParseScene(patch)
            },
            ClientMsg::Params { patch } => {
                let camera = get_member(&patch, "camera");
                let lights = get_member(&patch, "lights");
                assert(camera == json_member(patch, "camera"@));
                assert(lights == json_member(patch, "lights"@));
                self.on_params(camera, lights)
            },
            ClientMsg::RenderStart => {
                self.rendering = true;
                self.rest()
            },
            ClientMsg::RenderStop => {
                self.rendering = false;
                self.rest()
            },
            ClientMsg::Shutdown => self.finish(Ending::EngineExit),
        }
    }

    fn on_inbound(&mut self, inbound: Inbound) -> (action: Action)
        requires
            old(self)@.wf(),
            old(self)@.phase is Ready,
        ensures
            (final(self)@, action@) == old(self)@.on_inbound(inbound),
            final(self)@.wf(),
    {
        match inbound {
            Inbound::Text(Ok(message)) => self.on_client_msg(message),
            Inbound::Text(Err(reason)) => self.reply_error(
                ErrorSite::Parse,
                joined("invalid client message: ", reason.as_str()),
            ),
            Inbound::Binary => self.reply_error(
                ErrorSite::Binary,
                "binary client → engine not currently expected".to_owned(),
            ),
            Inbound::Close => self.finish(Ending::Left),
            Inbound::Ping(payload) => {
                self.phase = Phase::Replying;
                Action::SendPong(payload)
            },
            Inbound::Pong => self.rest(),
            Inbound::Frame => self.rest(),
        }
    }

    fn on_scene(&mut self, scene: Result<Scene, String>) -> (action: Action)
        ensures
            (final(self)@, action@) == old(self)@.on_scene(scene),
    {
        match scene {
            Ok(scene) => {
                if self.renderer.is_some() {
                    self.phase = Phase::UpdatingScene;
                    Action::UpdateScene(scene)
                } else {
                    self.pending_scene = Some(scene);
                    self.pending_camera = None;
                    self.rest()
                }
            },
            Err(reason) => self.reply_error(
                ErrorSite::SceneParse,
                joined("invalid scene patch: ", reason.as_str()),
            ),
        }
    }

    fn on_camera(
        &mut self,
        camera: Result<Camera, String>,
        lights: Option<serde_json::Value>,
    ) -> (action: Action)
        ensures
            (final(self)@, action@) == old(self)@.on_camera(camera, lights),
    {
        match camera {
            Ok(camera) => {
                if self.renderer.is_some() {
                    self.phase = Phase::UpdatingCamera { lights };
                    Action::UpdateCamera(camera)
                } else {
                    self.pending_camera = Some(camera);
                    self.on_lights(lights)
                }
            },
            Err(_) => self.on_lights(lights),
        }
    }

    fn on_parsed_lights(&mut self, lights: Result<Vec<Light>, String>) -> (action: Action)
        ensures
            (final(self)@, action@) == old(self)@.on_parsed_lights(lights),
    {
        match lights {
            Ok(lights) => {
                if self.renderer.is_some() {
                    self.phase = Phase::UpdatingLights;
                    Action::UpdateLights(lights)
                } else {
                    self.rest()
                }
            },
            Err(_) => self.rest(),
        }
    }

    fn on_tick(&mut self) -> (action: Action)
        ensures
            (final(self)@, action@) == old(self)@.on_tick(),
    {
        let build = match self.renderer {
            Some(dims) => dims.0 != self.want_dims.0 || dims.1 != self.want_dims.1,
            None => true,
        };
        if build {
            self.phase = Phase::Building;
            Action::BuildRenderer { width: self.want_dims.0, height: self.want_dims.1 }
        } else {
            self.phase = Phase::Rendering;
            Action::RenderFrame
        }
    }

    fn announce(&mut self) -> (action: Action)
        ensures
            (final(self)@, action@) == old(self)@.go(
                Phase::Announcing,
                ActionView::SendText(old(self)@.frame_config()),
            ),
    {
        self.phase = Phase::Announcing;
        Action::SendText(
            EngineMsg::FrameConfig {
                width: self.want_dims.0,
                height: self.want_dims.1,
                format: "rgba8unorm".to_owned(),
            },
        )
    }

    fn seed_camera(&mut self) -> (action: Action)
        ensures
            (final(self)@, action@) == old(self)@.seed_camera(),
    {
        match self.pending_camera.take() {
            Some(camera) => {
                self.phase = Phase::SeedingCamera;
                Action::UpdateCamera(camera)
            },
            None => self.announce(),
        }
    }

    fn seed_scene(&mut self) -> (action: Action)
        ensures
            (final(self)@, action@) == old(self)@.seed_scene(),
    {
        match self.pending_scene.take() {
            Some(scene) => {
                self.phase = Phase::SeedingScene;
                Action::UpdateScene(scene)
            },
            None => self.seed_camera(),
        }
    }

    fn on_built(&mut self, built: Result<(), String>) -> (action: Action)
        ensures
            (final(self)@, action@) == old(self)@.on_built(built),
    {
        match built {
            Ok(_) => self.seed_scene(),
            Err(reason) => {
                self.rendering = false;
                self.reply_error(ErrorSite::RenderInit, reason)
            },
        }
    }

    fn on_rendered(&mut self, frame: Result<Vec<u8>, String>) -> (action: Action)
        requires
            frame is Ok ==> old(self)@.frame_counter < u64::MAX,
        ensures
            (final(self)@, action@) == old(self)@.on_rendered(frame),
    {
        match frame {
            Ok(pixels) => {
                self.frame_counter = self.frame_counter + 1;
                self.phase = Phase::Streaming;
                Action::SendFrame { pixels, heartbeat: self.frame_counter % HEARTBEAT == 1 }
            },
            Err(reason) => {
                self.rendering = false;
                self.reply_error(ErrorSite::RenderFrame, reason)
            },
        }
    }

    fn on_updated(&mut self, updated: Result<(), String>) -> (action: Action)
        ensures
            (final(self)@, action@) == old(self)@.on_updated(updated),
    {
        let mut phase = Phase::Ready;
        std::mem::swap(&mut phase, &mut self.phase);
        match phase {
            Phase::UpdatingScene => match updated {
                Ok(_) => self.rest(),
                Err(reason) => self.reply_error(ErrorSite::Scene, reason),
            },
            Phase::UpdatingCamera { lights } => self.on_lights(lights),
            Phase::SeedingScene => self.seed_camera(),
            Phase::SeedingCamera => self.announce(),
            _ => self.rest(),
        }
    }

    fn on_sent(&mut self, sent: bool) -> (action: Action)
        ensures
            (final(self)@, action@) == old(self)@.on_sent(sent),
    {
        match &self.phase {
            Phase::Announcing => {
                if sent {
                    self.renderer = Some(self.want_dims);
                    self.frame_counter = 0;
                    self.phase = Phase::Rendering;
                    Action::RenderFrame
                } else {
                    self.finish(Ending::Failed)
                }
            },
            Phase::Streaming => {
                if sent {
                    self.rest()
                } else {
                    self.finish(Ending::Left)
                }
            },
            _ => {
                if sent {
                    self.rest()
                } else {
                    self.finish(Ending::Failed)
                }
            },
        }
    }

    /// Takes an event and says what is to be done.
    pub fn step(&mut self, event: Event) -> (action: Action)
        requires
            old(self)@.wf(),
            old(self)@.expects(event),
        ensures
            (final(self)@, action@) == old(self)@.next(event),
            final(self)@.wf(),
    {
        proof {
            lemma_step_keeps_wf(self@, event);
        }
        match event {
            Event::Message(inbound) => self.on_inbound(inbound),
            Event::RecvFailed => self.finish(Ending::Left),
            Event::Disconnected => self.finish(Ending::Left),
            Event::Tick => self.on_tick(),
            Event::SceneParsed(scene) => self.on_scene(scene),
            Event::CameraParsed(camera) => {
                let mut phase = Phase::Ready;
                std::mem::swap(&mut phase, &mut self.phase);
                let lights = match phase {
                    Phase::ParsingCamera { lights } => lights,
                    _ => None,
                };
                self.on_camera(camera, lights)
            },
            Event::LightsParsed(lights) => self.on_parsed_lights(lights),
            Event::Built(built) => self.on_built(built),
            Event::Updated(updated) => self.on_updated(updated),
            Event::Rendered(frame) => self.on_rendered(frame),
            Event::Sent(sent) => self.on_sent(sent),
        }
    }
}

} // verus!
