use gamma_rt_engine::capability::probe;
use gamma_rt_engine::ipc::model::{Action, Ending, Event};
use gamma_rt_engine::ipc::protocol::{ClientMsg, EngineMsg, ErrorSite, Inbound, DEFAULT_PORT, TARGET_FRAME_INTERVAL_MS};
use gamma_rt_engine::ipc::session::Session;
use gamma_rt_engine::render::test_picture::default_test_scene;
use gamma_rt_engine::scalar::{Float3, Scalar};
use gamma_rt_engine::scene::{Camera, Light, Scene};
use serde_json::Value;

fn session() -> Session {
    Session::new("0.1.0".to_string(), "metal".to_string(), probe("macos"))
}

fn say(session: &mut Session, message: ClientMsg) -> Action {
    session.step(Event::Message(Inbound::Text(Ok(message))))
}

fn json(text: &str) -> Value {
    text.parse().unwrap()
}

fn scene() -> Scene {
    default_test_scene()
}

fn camera() -> Camera {
    default_test_scene().camera
}

fn lights() -> Vec<Light> {
    let zero = Scalar::zero();
    let up = Float3 { x: zero, y: Scalar::one(), z: zero };
    vec![Light::Directional { direction: up, color: up, intensity: Scalar::one() }]
}

fn error(site: ErrorSite, message: &str) -> Action {
    Action::SendText(EngineMsg::Error { site, message: message.to_string() })
}

fn frame_config(width: u32, height: u32) -> Action {
    Action::SendText(EngineMsg::FrameConfig { width, height, format: "rgba8unorm".to_string() })
}

/// A session that streams, at rest after its first frame.
fn streaming() -> Session {
    let mut session = session();
    assert_eq!(say(&mut session, ClientMsg::RenderStart), Action::Await);
    assert_eq!(session.step(Event::Tick), Action::BuildRenderer { width: 800, height: 600 });
    assert_eq!(session.step(Event::Built(Ok(()))), frame_config(800, 600));
    assert_eq!(session.step(Event::Sent(true)), Action::RenderFrame);
    assert_eq!(
        session.step(Event::Rendered(Ok(vec![1, 2, 3, 4]))),
        Action::SendFrame { pixels: vec![1, 2, 3, 4], heartbeat: true }
    );
    assert_eq!(session.step(Event::Sent(true)), Action::Await);
    session
}

#[test]
fn constants_of_the_stream() {
    assert_eq!(DEFAULT_PORT, 9100);
    assert_eq!(TARGET_FRAME_INTERVAL_MS, 33);
    assert_eq!(session().want_dims(), (800, 600));
}

#[test]
fn hello_is_answered_without_a_renderer() {
    let mut session = session();
    assert_eq!(
        say(&mut session, ClientMsg::Hello),
        Action::SendText(EngineMsg::Hello {
            version: "0.1.0".to_string(),
            backend: "metal".to_string(),
            capabilities: probe("macos"),
        })
    );
    assert_eq!(session.step(Event::Sent(true)), Action::Await);
    assert_eq!(session.renderer(), None);
    assert!(!session.rendering());
}

#[test]
fn configured_size_is_clamped() {
    let mut session = session();
    for (asked, granted) in [
        ((0, 0), (1, 1)),
        ((1, 4096), (1, 4096)),
        ((4097, u32::MAX), (4096, 4096)),
        ((1280, 720), (1280, 720)),
    ] {
        assert_eq!(say(&mut session, ClientMsg::Configure { width: asked.0, height: asked.1 }), Action::Await);
        assert_eq!(session.want_dims(), granted);
    }
}

#[test]
fn frames_come_only_after_a_start() {
    let mut session = session();
    assert!(!session.expects(&Event::Tick));
    say(&mut session, ClientMsg::RenderStart);
    assert!(session.expects(&Event::Tick));
    say(&mut session, ClientMsg::RenderStop);
    assert!(!session.expects(&Event::Tick));
}

#[test]
fn announcement_comes_before_the_first_frame() {
    let mut session = streaming();
    assert_eq!(session.renderer(), Some((800, 600)));
    assert_eq!(session.step(Event::Tick), Action::RenderFrame);
}

#[test]
fn configure_rebuilds_the_renderer() {
    let mut session = streaming();
    assert_eq!(say(&mut session, ClientMsg::Configure { width: 800, height: 600 }), Action::Await);
    assert_eq!(session.renderer(), None);
    assert_eq!(session.step(Event::Tick), Action::BuildRenderer { width: 800, height: 600 });
    assert_eq!(session.step(Event::Built(Ok(()))), frame_config(800, 600));
    assert_eq!(session.step(Event::Sent(true)), Action::RenderFrame);
}

#[test]
fn every_sixtieth_frame_is_a_heartbeat() {
    let mut session = streaming();
    for count in 2..=121 {
        assert_eq!(session.step(Event::Tick), Action::RenderFrame);
        assert_eq!(
            session.step(Event::Rendered(Ok(vec![]))),
            Action::SendFrame { pixels: vec![], heartbeat: count == 61 || count == 121 }
        );
        assert_eq!(session.step(Event::Sent(true)), Action::Await);
        assert_eq!(session.frame_counter(), count);
    }
}

#[test]
fn scene_and_camera_wait_for_the_renderer() {
    let mut session = session();
    let patch = json("{\"camera\":{\"fov_deg\":60}}");
    assert_eq!(say(&mut session, ClientMsg::Scene { patch: patch.clone() }), Action::ParseScene(patch.clone()));
    assert_eq!(session.step(Event::SceneParsed(Ok(scene()))), Action::Await);
    assert_eq!(
        say(&mut session, ClientMsg::Params { patch: patch.clone() }),
        Action::ParseCamera(json("{\"fov_deg\":60}"))
    );
    assert_eq!(session.step(Event::CameraParsed(Ok(camera()))), Action::Await);
    say(&mut session, ClientMsg::RenderStart);
    session.step(Event::Tick);
    assert_eq!(session.step(Event::Built(Ok(()))), Action::UpdateScene(scene()));
    assert_eq!(session.step(Event::Updated(Err("ignored".to_string()))), Action::UpdateCamera(camera()));
    assert_eq!(session.step(Event::Updated(Err("ignored".to_string()))), frame_config(800, 600));
    assert_eq!(session.step(Event::Sent(true)), Action::RenderFrame);
}

#[test]
fn camera_waits_alone() {
    let mut session = session();
    say(&mut session, ClientMsg::Params { patch: json("{\"camera\":{}}") });
    assert_eq!(session.step(Event::CameraParsed(Ok(camera()))), Action::Await);
    say(&mut session, ClientMsg::RenderStart);
    session.step(Event::Tick);
    assert_eq!(session.step(Event::Built(Ok(()))), Action::UpdateCamera(camera()));
    assert_eq!(session.step(Event::Updated(Ok(()))), frame_config(800, 600));
}

#[test]
fn newer_scene_replaces_a_waiting_camera() {
    let mut session = session();
    say(&mut session, ClientMsg::Params { patch: json("{\"camera\":{}}") });
    session.step(Event::CameraParsed(Ok(camera())));
    say(&mut session, ClientMsg::Scene { patch: Value::Null });
    assert_eq!(session.step(Event::SceneParsed(Ok(scene()))), Action::Await);
    say(&mut session, ClientMsg::RenderStart);
    session.step(Event::Tick);
    assert_eq!(session.step(Event::Built(Ok(()))), Action::UpdateScene(scene()));
    assert_eq!(session.step(Event::Updated(Ok(()))), frame_config(800, 600));
}

#[test]
fn refused_scene_leaves_a_waiting_camera() {
    let mut session = session();
    say(&mut session, ClientMsg::Params { patch: json("{\"camera\":{}}") });
    session.step(Event::CameraParsed(Ok(camera())));
    say(&mut session, ClientMsg::Scene { patch: Value::Null });
    session.step(Event::SceneParsed(Err("null".to_string())));
    session.step(Event::Sent(true));
    say(&mut session, ClientMsg::RenderStart);
    session.step(Event::Tick);
    assert_eq!(session.step(Event::Built(Ok(()))), Action::UpdateCamera(camera()));
}

#[test]
fn frames_have_the_size_configured_last() {
    let mut session = session();
    say(&mut session, ClientMsg::Configure { width: 7, height: 5 });
    say(&mut session, ClientMsg::Configure { width: 3, height: 0 });
    say(&mut session, ClientMsg::RenderStart);
    assert_eq!(session.step(Event::Tick), Action::BuildRenderer { width: 3, height: 1 });
    assert_eq!(session.step(Event::Built(Ok(()))), frame_config(3, 1));
    assert_eq!(session.step(Event::Sent(true)), Action::RenderFrame);
    assert_eq!(
        session.step(Event::Rendered(Ok(vec![9; 12]))),
        Action::SendFrame { pixels: vec![9; 12], heartbeat: true }
    );
}

#[test]
fn waiting_scene_survives_a_failed_build() {
    let mut session = session();
    say(&mut session, ClientMsg::Scene { patch: Value::Null });
    session.step(Event::SceneParsed(Ok(scene())));
    say(&mut session, ClientMsg::RenderStart);
    session.step(Event::Tick);
    assert_eq!(session.step(Event::Built(Err("no GPU".to_string()))), error(ErrorSite::RenderInit, "no GPU"));
    assert!(!session.rendering());
    session.step(Event::Sent(true));
    say(&mut session, ClientMsg::RenderStart);
    session.step(Event::Tick);
    assert_eq!(session.step(Event::Built(Ok(()))), Action::UpdateScene(scene()));
}

#[test]
fn scene_is_applied_to_the_renderer() {
    let mut session = streaming();
    say(&mut session, ClientMsg::Scene { patch: Value::Null });
    assert_eq!(session.step(Event::SceneParsed(Ok(scene()))), Action::UpdateScene(scene()));
    assert_eq!(session.step(Event::Updated(Ok(()))), Action::Await);
    say(&mut session, ClientMsg::Scene { patch: Value::Null });
    session.step(Event::SceneParsed(Ok(scene())));
    assert_eq!(session.step(Event::Updated(Err("bad mesh".to_string()))), error(ErrorSite::Scene, "bad mesh"));
    assert_eq!(session.step(Event::Sent(true)), Action::Await);
    assert!(session.rendering());
}

#[test]
fn scene_that_does_not_parse() {
    let mut session = streaming();
    say(&mut session, ClientMsg::Scene { patch: Value::Null });
    assert_eq!(
        session.step(Event::SceneParsed(Err("missing field `camera`".to_string()))),
        error(ErrorSite::SceneParse, "invalid scene patch: missing field `camera`")
    );
    assert_eq!(session.step(Event::Sent(true)), Action::Await);
}

#[test]
fn params_update_camera_and_lights() {
    let mut session = streaming();
    let patch = json("{\"lights\":[1],\"camera\":{\"a\":2},\"meshes\":3}");
    assert_eq!(say(&mut session, ClientMsg::Params { patch }), Action::ParseCamera(json("{\"a\":2}")));
    assert_eq!(session.step(Event::CameraParsed(Ok(camera()))), Action::UpdateCamera(camera()));
    assert_eq!(session.step(Event::Updated(Err("ignored".to_string()))), Action::ParseLights(json("[1]")));
    assert_eq!(session.step(Event::LightsParsed(Ok(lights()))), Action::UpdateLights(lights()));
    assert_eq!(session.step(Event::Updated(Err("ignored".to_string()))), Action::Await);
}

#[test]
fn params_that_do_not_parse_are_ignored() {
    let mut session = streaming();
    let patch = json("{\"lights\":0,\"camera\":0}");
    say(&mut session, ClientMsg::Params { patch });
    assert_eq!(session.step(Event::CameraParsed(Err("bad".to_string()))), Action::ParseLights(json("0")));
    assert_eq!(session.step(Event::LightsParsed(Err("bad".to_string()))), Action::Await);
}

#[test]
fn params_without_camera_or_lights() {
    let mut session = streaming();
    for patch in ["{}", "{\"material\":1}", "[\"camera\",\"lights\"]", "\"camera\"", "null", "5"] {
        assert_eq!(say(&mut session, ClientMsg::Params { patch: json(patch) }), Action::Await);
    }
    assert_eq!(
        say(&mut session, ClientMsg::Params { patch: json("{\"lights\":[]}") }),
        Action::ParseLights(json("[]"))
    );
}

#[test]
fn params_by_their_members() {
    let mut session = streaming();
    assert_eq!(session.on_params(None, None), Action::Await);
    assert_eq!(session.on_params(None, Some(json("1"))), Action::ParseLights(json("1")));
    session.step(Event::LightsParsed(Err("bad".to_string())));
    assert_eq!(session.on_params(Some(json("2")), Some(json("1"))), Action::ParseCamera(json("2")));
}

#[test]
fn early_lights_are_dropped() {
    let mut session = session();
    say(&mut session, ClientMsg::Params { patch: json("{\"lights\":[]}") });
    assert_eq!(session.step(Event::LightsParsed(Ok(lights()))), Action::Await);
    say(&mut session, ClientMsg::RenderStart);
    session.step(Event::Tick);
    assert_eq!(session.step(Event::Built(Ok(()))), frame_config(800, 600));
}

#[test]
fn bad_messages_are_answered_and_forgotten() {
    let mut session = streaming();
    let before = format!("{:?}", session);
    assert_eq!(
        session.step(Event::Message(Inbound::Text(Err("expected value at line 1".to_string())))),
        error(ErrorSite::Parse, "invalid client message: expected value at line 1")
    );
    assert_eq!(session.step(Event::Sent(true)), Action::Await);
    assert_eq!(
        session.step(Event::Message(Inbound::Binary)),
        error(ErrorSite::Binary, "binary client → engine not currently expected")
    );
    assert_eq!(session.step(Event::Sent(true)), Action::Await);
    assert_eq!(format!("{:?}", session), before);
}

#[test]
fn error_site_names() {
    assert_eq!(ErrorSite::Parse.name(), "parse");
    assert_eq!(ErrorSite::Binary.name(), "binary");
    assert_eq!(ErrorSite::SceneParse.name(), "scene-parse");
    assert_eq!(ErrorSite::Scene.name(), "scene");
    assert_eq!(ErrorSite::RenderInit.name(), "render-init");
    assert_eq!(ErrorSite::RenderFrame.name(), "render-frame");
}

#[test]
fn ping_is_echoed() {
    let mut session = session();
    assert_eq!(session.step(Event::Message(Inbound::Ping(vec![1, 2, 3]))), Action::SendPong(vec![1, 2, 3]));
    assert_eq!(session.step(Event::Sent(true)), Action::Await);
    assert_eq!(session.step(Event::Message(Inbound::Pong)), Action::Await);
    assert_eq!(session.step(Event::Message(Inbound::Frame)), Action::Await);
}

#[test]
fn failed_frame_stops_the_rendering() {
    let mut session = streaming();
    session.step(Event::Tick);
    assert_eq!(session.step(Event::Rendered(Err("lost".to_string()))), error(ErrorSite::RenderFrame, "lost"));
    assert!(!session.rendering());
    assert_eq!(session.step(Event::Sent(true)), Action::Await);
    assert!(!session.expects(&Event::Tick));
}

#[test]
fn conversation_ends_cleanly() {
    for event in [Event::RecvFailed, Event::Disconnected, Event::Message(Inbound::Close)] {
        let mut session = session();
        assert_eq!(session.step(event), Action::Finish(Ending::Left));
        assert!(!session.expects(&Event::Disconnected));
    }
    let mut session = streaming();
    session.step(Event::Tick);
    session.step(Event::Rendered(Ok(vec![])));
    assert_eq!(session.step(Event::Sent(false)), Action::Finish(Ending::Left));
}

#[test]
fn shutdown_exits_the_engine() {
    let mut session = streaming();
    assert_eq!(say(&mut session, ClientMsg::Shutdown), Action::Finish(Ending::EngineExit));
    assert!(!session.expects(&Event::Disconnected));
}

#[test]
fn failed_reply_is_fatal() {
    let mut greeting = session();
    say(&mut greeting, ClientMsg::Hello);
    assert_eq!(greeting.step(Event::Sent(false)), Action::Finish(Ending::Failed));
    let mut starting = session();
    say(&mut starting, ClientMsg::RenderStart);
    starting.step(Event::Tick);
    starting.step(Event::Built(Ok(())));
    assert_eq!(starting.step(Event::Sent(false)), Action::Finish(Ending::Failed));
}
