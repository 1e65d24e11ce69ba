//! What holds of every conversation.
use vstd::prelude::*;

use crate::ipc::protocol::json_members;
use crate::ipc::protocol::ClientMsg;
use crate::ipc::protocol::EngineMsgView;
use crate::ipc::protocol::ErrorSite;
use crate::ipc::protocol::Inbound;
use crate::ipc::model::clamped;
use crate::ipc::model::lemma_step_keeps_wf;
use crate::ipc::model::ActionView;
use crate::ipc::model::Ending;
use crate::ipc::model::Event;
use crate::ipc::model::Phase;
use crate::ipc::model::SessionView;
use crate::ipc::model::DEFAULT_HEIGHT;
use crate::ipc::model::DEFAULT_WIDTH;
use crate::ipc::model::MAX_SIDE;
use crate::scene::Camera;
use crate::scene::Light;
use crate::scene::Scene;

verus! {

/// The session after a run of events.
pub open spec fn after(session: SessionView, events: Seq<Event>) -> SessionView
    decreases events.len(),
{
    if events.len() == 0 {
        session
    } else {
        after(session, events.drop_last()).next(events.last()).0
    }
}

/// The actions that a run of events yields.
pub open spec fn actions(session: SessionView, events: Seq<Event>) -> Seq<ActionView>
    decreases events.len(),
{
    if events.len() == 0 {
        Seq::empty()
    } else {
        actions(session, events.drop_last()).push(
            after(session, events.drop_last()).next(events.last()).1,
        )
    }
}

/// Whether each event of a run was expected when it came.
pub open spec fn legal(session: SessionView, events: Seq<Event>) -> bool
    decreases events.len(),
{
    if events.len() == 0 {
        true
    } else {
        legal(session, events.drop_last()) && after(session, events.drop_last()).expects(
            events.last(),
        )
    }
}

/// Whether a session is one that has just begun.
pub open spec fn begins(session: SessionView) -> bool {
    session == SessionView::fresh(session.version, session.backend, session.caps)
}

/// The announcement of the stream's size and format that was sent last.
pub open spec fn announced(taken: Seq<ActionView>) -> Option<EngineMsgView>
    decreases taken.len(),
{
    if taken.len() == 0 {
        None
    } else {
        match taken.last() {
            ActionView::SendText(message) => if message is FrameConfig {
                Some(message)
            } else {
                announced(taken.drop_last())
            },
            _ => announced(taken.drop_last()),
        }
    }
}

/// The size that the editor configured last, brought within its bounds; the
/// default one if it configured none.
pub open spec fn configured(events: Seq<Event>) -> (u32, u32)
    decreases events.len(),
{
    if events.len() == 0 {
        (DEFAULT_WIDTH, DEFAULT_HEIGHT)
    } else {
        match events.last() {
            Event::Message(Inbound::Text(Ok(ClientMsg::Configure { width, height }))) => (
                clamped(width),
                clamped(height),
            ),
            _ => configured(events.drop_last()),
        }
    }
}

/// Whether each frame that was rendered has four bytes for each pixel of the
/// renderer that made it.
pub open spec fn renders_whole_frames(session: SessionView, events: Seq<Event>) -> bool {
    forall|k: int|
        0 <= k < events.len() ==> (#[trigger] events[k] matches Event::Rendered(Ok(pixels)) ==> {
            let dims = after(session, events.take(k)).renderer->0;
            pixels@.len() == 4 * dims.0 * dims.1
        })
}

/// Whether an action works on frames, announces them, or builds the renderer
/// that makes them.
pub open spec fn streams(action: ActionView) -> bool {
    ||| action is SendFrame
    ||| action is RenderFrame
    ||| action is BuildRenderer
    ||| action matches ActionView::SendText(message) && message is FrameConfig
}

/// Whether an event is the editor's demand to begin streaming.
pub open spec fn starts_rendering(event: Event) -> bool {
    event == Event::Message(Inbound::Text(Ok(ClientMsg::RenderStart)))
}

/// Every run keeps a session one that can come about: in particular the
/// stream's sides stay within their bounds, and a renderer has the size that
/// is wanted.
pub proof fn lemma_run_keeps_wf(session: SessionView, events: Seq<Event>)
    requires
        session.wf(),
        legal(session, events),
    ensures
        after(session, events).wf(),
    decreases events.len(),
{
    if events.len() > 0 {
        lemma_run_keeps_wf(session, events.drop_last());
        lemma_step_keeps_wf(after(session, events.drop_last()), events.last());
    }
}

/// A run up to some event is the beginning of the whole run.
proof fn lemma_run_prefix(session: SessionView, events: Seq<Event>, k: int)
    requires
        0 <= k < events.len(),
        legal(session, events),
    ensures
        actions(session, events).len() == events.len(),
        legal(session, events.take(k)),
        after(session, events.take(k)).expects(events[k]),
        actions(session, events.take(k)) == actions(session, events).take(k),
        actions(session, events)[k] == after(session, events.take(k)).next(events[k]).1,
    decreases events.len(),
{
    let before = events.drop_last();
    lemma_action_count(session, before);
    if k == events.len() - 1 {
        assert(events.take(k) =~= before);
        assert(actions(session, events).take(k) =~= actions(session, before));
    } else {
        lemma_run_prefix(session, before, k);
        assert(before.take(k) =~= events.take(k));
        assert(actions(session, events).take(k) =~= actions(session, before).take(k));
    }
}

proof fn lemma_action_count(session: SessionView, events: Seq<Event>)
    ensures
        actions(session, events).len() == events.len(),
    decreases events.len(),
{
    if events.len() > 0 {
        lemma_action_count(session, events.drop_last());
    }
}

proof fn lemma_announced_is_current(session: SessionView, events: Seq<Event>)
    requires
        begins(session),
        legal(session, events),
    ensures
        ({
            let now = after(session, events);
            &&& now.wf()
            &&& now.renderer is Some || now.phase is Announcing ==> announced(
                actions(session, events),
            ) == Some(now.frame_config())
        }),
    decreases events.len(),
{
    lemma_run_keeps_wf(session, events);
    if events.len() > 0 {
        let before = events.drop_last();
        lemma_announced_is_current(session, before);
        let earlier = after(session, before);
        let taken = actions(session, events);
        assert(taken.drop_last() =~= actions(session, before));
        assert(taken.last() == earlier.next(events.last()).1);
    }
}

/// A frame is sent as it was rendered, only while the client wants frames, from
/// a renderer of the wanted size, and the last announcement before it is of
/// that size.
pub proof fn lemma_frames_follow_their_announcement(
    session: SessionView,
    events: Seq<Event>,
    k: int,
)
    requires
        begins(session),
        legal(session, events),
        0 <= k < events.len(),
        actions(session, events)[k] is SendFrame,
    ensures
        ({
            let then = after(session, events.take(k));
            &&& then.rendering
            &&& then.renderer == Some(then.want_dims)
            &&& announced(actions(session, events).take(k)) == Some(then.frame_config())
            &&& announced(actions(session, events).take(k)) == Some(
                EngineMsgView::FrameConfig {
                    width: then.want_dims.0,
                    height: then.want_dims.1,
                    format: "rgba8unorm"@,
                },
            )
            &&& events[k] matches Event::Rendered(Ok(pixels))
                && actions(session, events)[k]->pixels == pixels@
        }),
{
    lemma_run_prefix(session, events, k);
    lemma_announced_is_current(session, events.take(k));
}

/// The wanted size is always the one that was configured last.
pub proof fn lemma_wanted_size_is_configured(session: SessionView, events: Seq<Event>)
    requires
        begins(session),
        legal(session, events),
    ensures
        after(session, events).want_dims == configured(events),
    decreases events.len(),
{
    if events.len() > 0 {
        lemma_wanted_size_is_configured(session, events.drop_last());
    }
}

/// Every frame that is sent is preceded by an announcement, and holds exactly
/// four bytes for each pixel of the size that was announced last. That size is
/// the one that was configured last, brought within its bounds, or 800 by 600
/// if none was. All this as long as the renderer's frames have the renderer's
/// size.
pub proof fn lemma_frames_fill_their_announced_size(
    session: SessionView,
    events: Seq<Event>,
    k: int,
)
    requires
        begins(session),
        legal(session, events),
        renders_whole_frames(session, events),
        0 <= k < events.len(),
        actions(session, events)[k] is SendFrame,
    ensures
        ({
            let (width, height) = configured(events.take(k));
            &&& announced(actions(session, events).take(k)) == Some(
                EngineMsgView::FrameConfig { width, height, format: "rgba8unorm"@ },
            )
            &&& actions(session, events)[k]->pixels.len() == 4 * width * height
        }),
{
    lemma_frames_follow_their_announcement(session, events, k);
    lemma_run_prefix(session, events, k);
    lemma_wanted_size_is_configured(session, events.take(k));
}

/// Until the client starts the rendering, nothing is built, announced, rendered
/// or streamed: neither before the first start nor after a stop.
pub proof fn lemma_nothing_streams_unasked(session: SessionView, events: Seq<Event>)
    requires
        session.wf(),
        !session.rendering,
        legal(session, events),
        forall|k: int| 0 <= k < events.len() ==> !starts_rendering(#[trigger] events[k]),
    ensures
        !after(session, events).rendering,
        forall|k: int| 0 <= k < events.len() ==> !streams(#[trigger] actions(session, events)[k]),
    decreases events.len(),
{
    if events.len() > 0 {
        let before = events.drop_last();
        assert forall|k: int| 0 <= k < before.len() implies !starts_rendering(
            #[trigger] before[k],
        ) by {
            assert(before[k] == events[k]);
        }
        lemma_nothing_streams_unasked(session, before);
        lemma_run_keeps_wf(session, before);
        lemma_action_count(session, before);
        let earlier = after(session, before);
        assert(!starts_rendering(events[events.len() - 1]));
        assert forall|k: int| 0 <= k < events.len() implies !streams(
            #[trigger] actions(session, events)[k],
        ) by {
            if k < before.len() {
                assert(actions(session, events)[k] == actions(session, before)[k]);
            }
        }
    }
}

/// A client that stops the rendering gets neither a frame nor an announcement
/// until it starts it again.
pub proof fn lemma_stop_stops(session: SessionView, events: Seq<Event>)
    requires
        session.wf(),
        session.phase is Ready,
        legal(
            session.next(Event::Message(Inbound::Text(Ok(ClientMsg::RenderStop)))).0,
            events,
        ),
        forall|k: int| 0 <= k < events.len() ==> !starts_rendering(#[trigger] events[k]),
    ensures
        forall|k: int|
            0 <= k < events.len() ==> !streams(
                #[trigger] actions(
                    session.next(Event::Message(Inbound::Text(Ok(ClientMsg::RenderStop)))).0,
                    events,
                )[k],
            ),
{
    let stop = Event::Message(Inbound::Text(Ok(ClientMsg::RenderStop)));
    lemma_step_keeps_wf(session, stop);
    lemma_nothing_streams_unasked(session.next(stop).0, events);
}

/// The renderer is built lazily: only when a frame is due and there is none,
/// and in the size that is wanted.
pub proof fn lemma_renderer_is_built_lazily(session: SessionView, event: Event)
    requires
        session.wf(),
        session.expects(event),
        session.next(event).1 is BuildRenderer,
    ensures
        event is Tick,
        session.rendering,
        session.renderer is None,
        session.next(event).1 == (ActionView::BuildRenderer {
            width: session.want_dims.0,
            height: session.want_dims.1,
        }),
{
}

/// A scene that comes before the renderer waits for it, whatever happens until
/// then, unless another scene takes its place.
pub proof fn lemma_scene_waits(session: SessionView, events: Seq<Event>)
    requires
        session.wf(),
        session.pending_scene is Some,
        legal(session, events),
        forall|k: int|
            0 <= k < events.len() ==> !(#[trigger] events[k] matches Event::SceneParsed(Ok(_)))
                && !(events[k] matches Event::Built(Ok(_))),
    ensures
        after(session, events).pending_scene == session.pending_scene,
    decreases events.len(),
{
    if events.len() > 0 {
        let before = events.drop_last();
        assert forall|k: int| 0 <= k < before.len() implies !(
            #[trigger] before[k] matches Event::SceneParsed(Ok(_))
        ) && !(before[k] matches Event::Built(Ok(_))) by {
            assert(before[k] == events[k]);
        }
        lemma_scene_waits(session, before);
        lemma_run_keeps_wf(session, before);
        assert(events[events.len() - 1] == events.last());
    }
}

/// A camera that comes before the renderer waits for it, whatever happens
/// until then, unless another camera or a newer scene takes its place.
pub proof fn lemma_camera_waits(session: SessionView, events: Seq<Event>)
    requires
        session.wf(),
        session.pending_camera is Some,
        !(session.phase is SeedingScene),
        legal(session, events),
        forall|k: int|
            0 <= k < events.len() ==> !(#[trigger] events[k] matches Event::CameraParsed(Ok(_)))
                && !(events[k] matches Event::SceneParsed(Ok(_)))
                && !(events[k] matches Event::Built(Ok(_))),
    ensures
        after(session, events).pending_camera == session.pending_camera,
        !(after(session, events).phase is SeedingScene),
    decreases events.len(),
{
    if events.len() > 0 {
        let before = events.drop_last();
        assert forall|k: int| 0 <= k < before.len() implies !(
            #[trigger] before[k] matches Event::CameraParsed(Ok(_))
        ) && !(before[k] matches Event::SceneParsed(Ok(_))) && !(
            before[k] matches Event::Built(Ok(_))
        ) by {
            assert(before[k] == events[k]);
        }
        lemma_camera_waits(session, before);
        lemma_run_keeps_wf(session, before);
        assert(events[events.len() - 1] == events.last());
    }
}

/// A camera that waits is newer than every scene that came: it was parsed
/// behind it. So what a new renderer gets on top of a scene is never an older
/// camera.
pub proof fn lemma_waiting_camera_is_newer(session: SessionView, events: Seq<Event>, k: int)
    requires
        session.wf(),
        legal(session, events),
        0 <= k < events.len(),
        events[k] matches Event::SceneParsed(Ok(_)),
        after(session, events).pending_camera is Some,
    ensures
        exists|j: int|
            k < j < events.len() && #[trigger] events[j] == Event::CameraParsed(
                Ok(after(session, events).pending_camera->0),
            ),
    decreases events.len(),
{
    let before = events.drop_last();
    let last = events.len() - 1;
    let camera = after(session, events).pending_camera->0;
    lemma_run_keeps_wf(session, before);
    assert(events[last] == events.last());
    if k < last && !(events[last] == Event::CameraParsed(Ok(camera))) {
        assert(before[k] == events[k]);
        lemma_waiting_camera_is_newer(session, before, k);
        let j = choose|j: int|
            k < j < before.len() && #[trigger] before[j] == Event::CameraParsed(
                Ok(after(session, before).pending_camera->0),
            );
        assert(events[j] == before[j]);
    }
}

/// The updates that wait for a renderer: the scene, then the camera.
pub open spec fn waiting(session: SessionView) -> Seq<ActionView> {
    let scene = match session.pending_scene {
        Some(scene) => seq![ActionView::UpdateScene(scene)],
        None => Seq::empty(),
    };
    let camera = match session.pending_camera {
        Some(camera) => seq![ActionView::UpdateCamera(camera)],
        None => Seq::empty(),
    };
    scene + camera
}

/// A new renderer gets the scene that waited, then the camera, whether or not
/// they can be applied; then its size is announced, and the first frame is
/// rendered in it.
pub proof fn lemma_new_renderer_is_seeded(
    session: SessionView,
    outcomes: Seq<Result<(), String>>,
)
    requires
        session.wf(),
        session.phase is Building,
        outcomes.len() == waiting(session).len(),
    ensures
        ({
            let events = seq![Event::Built(Ok(()))] + outcomes.map_values(
                |outcome: Result<(), String>| Event::Updated(outcome),
            ) + seq![Event::Sent(true)];
            &&& legal(session, events)
            &&& actions(session, events) == waiting(session) + seq![
                ActionView::SendText(
                    EngineMsgView::FrameConfig {
                        width: session.want_dims.0,
                        height: session.want_dims.1,
                        format: "rgba8unorm"@,
                    },
                ),
                ActionView::RenderFrame,
            ]
            &&& after(session, events) == (SessionView {
                renderer: Some(session.want_dims),
                frame_counter: 0,
                pending_scene: None,
                pending_camera: None,
                phase: Phase::Rendering,
                ..session
            })
        }),
{
    let events = seq![Event::Built(Ok(()))] + outcomes.map_values(
        |outcome: Result<(), String>| Event::Updated(outcome),
    ) + seq![Event::Sent(true)];
    reveal_with_fuel(after, 5);
    reveal_with_fuel(actions, 5);
    reveal_with_fuel(legal, 5);
    let e1 = events.drop_last();
    let e2 = e1.drop_last();
    assert(events.last() == Event::Sent(true));
    assert(e1 =~= seq![Event::Built(Ok(()))] + outcomes.map_values(
        |outcome: Result<(), String>| Event::Updated(outcome),
    ));
    if outcomes.len() == 0 {
        assert(e1 =~= seq![Event::Built(Ok(()))]);
        assert(e2 =~= Seq::empty());
    } else if outcomes.len() == 1 {
        assert(e1 =~= seq![Event::Built(Ok(())), Event::Updated(outcomes[0])]);
        assert(e2 =~= seq![Event::Built(Ok(()))]);
        assert(e2.drop_last() =~= Seq::empty());
    } else {
        assert(e1 =~= seq![
            Event::Built(Ok(())),
            Event::Updated(outcomes[0]),
            Event::Updated(outcomes[1]),
        ]);
        assert(e2 =~= seq![Event::Built(Ok(())), Event::Updated(outcomes[0])]);
        assert(e2.drop_last() =~= seq![Event::Built(Ok(()))]);
        assert(e2.drop_last().drop_last() =~= Seq::empty());
    }
    assert(actions(session, events) =~= waiting(session) + seq![
        ActionView::SendText(session.frame_config()),
        ActionView::RenderFrame,
    ]);
}

/// Lights without a renderer are dropped.
pub proof fn lemma_early_lights_are_dropped(session: SessionView, lights: Vec<Light>)
    requires
        session.phase is ParsingLights,
        session.renderer is None,
    ensures
        session.next(Event::LightsParsed(Ok(lights))) == session.rest(),
        session.next(Event::LightsParsed(Ok(lights))) == (
            SessionView { phase: Phase::Ready, ..session },
            ActionView::Await,
        ),
{
}

/// What the engine cannot make sense of is answered with an error that says
/// so; once that is sent, the session is as it was before.
pub proof fn lemma_bad_messages_change_nothing(session: SessionView, reason: String)
    requires
        session.phase is Ready,
    ensures
        ({
            let garbled = session.next(Event::Message(Inbound::Text(Err(reason))));
            let binary = session.next(Event::Message(Inbound::Binary));
            let parsing = SessionView { phase: Phase::ParsingScene, ..session };
            let refused = parsing.next(Event::SceneParsed(Err(reason)));
            &&& garbled.1 == ActionView::SendText(
                EngineMsgView::Error {
                    site: ErrorSite::Parse,
                    message: "invalid client message: "@ + reason@,
                },
            )
            &&& garbled.0.next(Event::Sent(true)) == (session, ActionView::Await)
            &&& binary.1 == ActionView::SendText(
                EngineMsgView::Error {
                    site: ErrorSite::Binary,
                    message: "binary client → engine not currently expected"@,
                },
            )
            &&& binary.0.next(Event::Sent(true)) == (session, ActionView::Await)
            &&& refused.1 == ActionView::SendText(
                EngineMsgView::Error {
                    site: ErrorSite::SceneParse,
                    message: "invalid scene patch: "@ + reason@,
                },
            )
            &&& refused.0.next(Event::Sent(true)) == (session, ActionView::Await)
            &&& session.rest() == (session, ActionView::Await)
        }),
{
}

/// No error that is reported to the client ends the conversation: it ends only
/// when the client leaves, asks the engine to exit, or something cannot be sent.
/// The engine exits only when it is asked to.
pub proof fn lemma_only_leaving_ends(session: SessionView, event: Event)
    requires
        session.wf(),
        session.expects(event),
    ensures
        session.next(event).1 is Finish <==> session.next(event).0.phase is Closed,
        session.next(event).1 is Finish <==> {
            ||| event is RecvFailed
            ||| event is Disconnected
            ||| event == Event::Message(Inbound::Close)
            ||| event == Event::Message(Inbound::Text(Ok(ClientMsg::Shutdown)))
            ||| event == Event::Sent(false)
        },
        session.next(event).1 == ActionView::Finish(Ending::Failed) <==> event == Event::Sent(
            false,
        ) && !(session.phase is Streaming),
        session.next(event).1 == ActionView::Finish(Ending::EngineExit) <==> event
            == Event::Message(Inbound::Text(Ok(ClientMsg::Shutdown))),
{
}

/// Once a conversation is over, no event may come.
pub proof fn lemma_closed_is_final(session: SessionView, event: Event)
    requires
        session.phase is Closed,
    ensures
        !session.expects(event),
{
}

/// While it is not over, a session always expects some event.
pub proof fn lemma_session_never_stalls(session: SessionView)
    requires
        session.wf(),
        !(session.phase is Closed),
    ensures
        exists|event: Event| session.expects(event),
{
    let event = match session.phase {
        Phase::Ready => Event::Disconnected,
        Phase::ParsingScene => Event::SceneParsed(Err(arbitrary())),
        Phase::ParsingCamera { lights: _ } => Event::CameraParsed(Err(arbitrary())),
        Phase::ParsingLights => Event::LightsParsed(Err(arbitrary())),
        Phase::Building => Event::Built(Ok(())),
        Phase::Rendering => Event::Rendered(Err(arbitrary())),
        Phase::Announcing | Phase::Streaming | Phase::Replying => Event::Sent(true),
        _ => Event::Updated(Ok(())),
    };
    assert(session.expects(event));
}

/// Hello is answered with what the engine is, and touches nothing: no renderer
/// is built for it.
pub proof fn lemma_hello_touches_nothing(session: SessionView)
    requires
        session.phase is Ready,
    ensures
        ({
            let greeted = session.next(Event::Message(Inbound::Text(Ok(ClientMsg::Hello))));
            &&& greeted.1 == ActionView::SendText(
                EngineMsgView::Hello {
                    version: session.version,
                    backend: session.backend,
                    capabilities: session.caps,
                },
            )
            &&& greeted.0.next(Event::Sent(true)) == (session, ActionView::Await)
        }),
{
}

/// A ping is answered with the same payload, and touches nothing.
pub proof fn lemma_ping_is_echoed(session: SessionView, payload: Vec<u8>)
    requires
        session.phase is Ready,
    ensures
        ({
            let pinged = session.next(Event::Message(Inbound::Ping(payload)));
            &&& pinged.1 == ActionView::SendPong(payload@)
            &&& pinged.0.next(Event::Sent(true)) == (session, ActionView::Await)
        }),
{
}

/// A configured size is brought within its bounds, and the next frame waits
/// for a renderer of that size, even if it is the size of before.
pub proof fn lemma_configure_rebuilds(session: SessionView, width: u32, height: u32)
    requires
        session.wf(),
        session.phase is Ready,
        session.rendering,
    ensures
        ({
            let configured = session.next(
                Event::Message(Inbound::Text(Ok(ClientMsg::Configure { width, height }))),
            ).0;
            &&& configured.want_dims == (clamped(width), clamped(height))
            &&& configured.expects(Event::Tick)
            &&& configured.next(Event::Tick).1 == (ActionView::BuildRenderer {
                width: clamped(width),
                height: clamped(height),
            })
        }),
{
}

/// A side within the bounds is kept; any other becomes the nearest bound.
pub proof fn lemma_clamped(side: u32)
    ensures
        1 <= clamped(side) <= MAX_SIDE,
        1 <= side <= 4096 ==> clamped(side) == side,
        side == 0 ==> clamped(side) == 1,
        side > 4096 ==> clamped(side) == 4096,
        clamped(clamped(side)) == clamped(side),
{
}

/// A failure to build the renderer or to render a frame is reported, and stops
/// the rendering; what waits for a renderer keeps waiting.
pub proof fn lemma_render_failure_stops_rendering(session: SessionView, reason: String)
    requires
        session.wf(),
    ensures
        session.phase is Building ==> session.next(Event::Built(Err(reason))) == (
            SessionView { rendering: false, phase: Phase::Replying, ..session },
            ActionView::SendText(
                EngineMsgView::Error { site: ErrorSite::RenderInit, message: reason@ },
            ),
        ),
        session.phase is Rendering ==> session.next(Event::Rendered(Err(reason))) == (
            SessionView { rendering: false, phase: Phase::Replying, ..session },
            ActionView::SendText(
                EngineMsgView::Error { site: ErrorSite::RenderFrame, message: reason@ },
            ),
        ),
{
}

/// The bytes of a frame of any size that a session can want can be counted in
/// 32 bits, as a renderer needs it.
pub proof fn lemma_frames_are_countable(session: SessionView)
    requires
        session.wf(),
    ensures
        4 * session.want_dims.0 * session.want_dims.1 <= u32::MAX,
        4 * session.want_dims.0 <= u32::MAX,
{
    let w = session.want_dims.0 as int;
    let h = session.want_dims.1 as int;
    assert(4 * w * h <= 4 * 4096 * 4096) by (nonlinear_arith)
        requires
            0 <= w <= 4096,
            0 <= h <= 4096,
    ;
}

/// A conversation begins at rest, without a renderer, streaming nothing, with
/// nothing waiting, and with 800 by 600 as the wanted size.
pub proof fn lemma_beginning(session: SessionView)
    requires
        begins(session),
    ensures
        session.wf(),
        session.phase is Ready,
        session.renderer is None,
        !session.rendering,
        session.want_dims == (800u32, 600u32),
        session.frame_counter == 0,
        session.pending_scene is None,
        session.pending_camera is None,
{
}

/// What the engine says it is does not change during a conversation.
pub proof fn lemma_identity_is_kept(session: SessionView, events: Seq<Event>)
    ensures
        after(session, events).version == session.version,
        after(session, events).backend == session.backend,
        after(session, events).caps == session.caps,
    decreases events.len(),
{
    if events.len() > 0 {
        lemma_identity_is_kept(session, events.drop_last());
    }
}

/// In every state that can come about, the wanted sides are from 1 to 4096, a
/// renderer has the wanted size, and nothing waits for a renderer that is there.
pub proof fn lemma_states_that_come_about(session: SessionView)
    requires
        session.wf(),
    ensures
        1 <= session.want_dims.0 <= 4096,
        1 <= session.want_dims.1 <= 4096,
        session.renderer is Some ==> session.renderer == Some(session.want_dims),
        session.renderer is Some ==> session.pending_scene is None && session.pending_camera is None,
{
}

/// Starting and stopping change nothing but whether frames are streamed.
pub proof fn lemma_start_and_stop_only_switch(session: SessionView)
    requires
        session.phase is Ready,
    ensures
        session.next(Event::Message(Inbound::Text(Ok(ClientMsg::RenderStart)))) == (
            SessionView { rendering: true, ..session },
            ActionView::Await,
        ),
        session.next(Event::Message(Inbound::Text(Ok(ClientMsg::RenderStop)))) == (
            SessionView { rendering: false, ..session },
            ActionView::Await,
        ),
{
}

/// After a pause the stream goes on with the renderer it had, and so with its
/// scene: the next frame is rendered, and nothing is built.
pub proof fn lemma_pause_keeps_the_renderer(session: SessionView)
    requires
        session.wf(),
        session.phase is Ready,
        session.renderer is Some,
    ensures
        ({
            let stopped = session.next(Event::Message(Inbound::Text(Ok(ClientMsg::RenderStop)))).0;
            let started = stopped.next(
                Event::Message(Inbound::Text(Ok(ClientMsg::RenderStart))),
            ).0;
            let due = started.next(Event::Tick);
            &&& started.expects(Event::Tick)
            &&& due.1 == ActionView::RenderFrame
            &&& due.0.renderer == session.renderer
        }),
{
}

/// Configuring sets the wanted size and drops the renderer. Whether frames are
/// streamed, and what waits for the renderer, stays as it was.
pub proof fn lemma_configure_changes_only_the_size(session: SessionView, width: u32, height: u32)
    requires
        session.phase is Ready,
    ensures
        ({
            let configured = session.next(
                Event::Message(Inbound::Text(Ok(ClientMsg::Configure { width, height }))),
            );
            let sides = configured.0.want_dims;
            &&& configured == (
                SessionView { want_dims: sides, renderer: None, ..session },
                ActionView::Await,
            )
            &&& 1 <= sides.0 <= 4096 && 1 <= sides.1 <= 4096
            &&& 1 <= width <= 4096 ==> sides.0 == width
            &&& 1 <= height <= 4096 ==> sides.1 == height
            &&& width == 0 ==> sides.0 == 1
            &&& height == 0 ==> sides.1 == 1
            &&& width > 4096 ==> sides.0 == 4096
            &&& height > 4096 ==> sides.1 == 4096
        }),
{
}

/// A frame that is due is rendered if there is a renderer; otherwise one of the
/// wanted size is built. Neither changes anything else.
pub proof fn lemma_due_frame(session: SessionView)
    requires
        session.wf(),
        session.phase is Ready,
        session.rendering,
    ensures
        session.expects(Event::Tick),
        session.renderer is Some ==> session.next(Event::Tick) == (
            SessionView { phase: Phase::Rendering, ..session },
            ActionView::RenderFrame,
        ),
        session.renderer is None ==> session.next(Event::Tick) == (
            SessionView { phase: Phase::Building, ..session },
            ActionView::BuildRenderer { width: session.want_dims.0, height: session.want_dims.1 },
        ),
{
}

/// A rendered frame is counted and sent as it is; once it is sent, the session
/// is at rest, with only the count changed. The first frame and every sixtieth
/// behind it are logged.
pub proof fn lemma_frame_is_counted_and_sent(session: SessionView, pixels: Vec<u8>)
    requires
        session.wf(),
        session.phase is Rendering,
        session.frame_counter < u64::MAX,
    ensures
        ({
            let rendered = session.next(Event::Rendered(Ok(pixels)));
            let sent = rendered.0.next(Event::Sent(true));
            &&& session.expects(Event::Rendered(Ok(pixels)))
            &&& rendered.1 is SendFrame
            &&& rendered.1->pixels == pixels@
            &&& rendered.1->heartbeat <==> session.frame_counter % 60 == 0
            &&& rendered.0.expects(Event::Sent(true))
            &&& sent.1 == ActionView::Await
            &&& sent.0.frame_counter == session.frame_counter + 1
            &&& sent.0 == (SessionView {
                phase: Phase::Ready,
                frame_counter: sent.0.frame_counter,
                ..session
            })
        }),
{
}

/// A scene for a renderer in use is parsed, then applied, and leaves the session
/// as it was. If it cannot be applied, the editor is told why.
pub proof fn lemma_scene_is_applied(
    session: SessionView,
    patch: serde_json::Value,
    scene: Scene,
    reason: String,
)
    requires
        session.wf(),
        session.phase is Ready,
        session.renderer is Some,
    ensures
        ({
            let asked = session.next(Event::Message(Inbound::Text(Ok(ClientMsg::Scene { patch }))));
            let parsed = asked.0.next(Event::SceneParsed(Ok(scene)));
            let refused = parsed.0.next(Event::Updated(Err(reason)));
            &&& asked.1 == ActionView::ParseScene(patch)
            &&& asked.0.expects(Event::SceneParsed(Ok(scene)))
            &&& parsed.1 == ActionView::UpdateScene(scene)
            &&& parsed.0.expects(Event::Updated(Ok(())))
            &&& parsed.0.next(Event::Updated(Ok(()))) == (session, ActionView::Await)
            &&& refused.1 == ActionView::SendText(
                EngineMsgView::Error { site: ErrorSite::Scene, message: reason@ },
            )
            &&& refused.0.expects(Event::Sent(true))
            &&& refused.0.next(Event::Sent(true)) == (session, ActionView::Await)
        }),
{
}

/// Without a renderer, a scene is parsed and waits, in place of any scene or
/// camera that waited; nothing else changes.
pub proof fn lemma_early_scene_is_kept(
    session: SessionView,
    patch: serde_json::Value,
    scene: Scene,
)
    requires
        session.wf(),
        session.phase is Ready,
        session.renderer is None,
    ensures
        ({
            let asked = session.next(Event::Message(Inbound::Text(Ok(ClientMsg::Scene { patch }))));
            &&& asked.1 == ActionView::ParseScene(patch)
            &&& asked.0.expects(Event::SceneParsed(Ok(scene)))
            &&& asked.0.next(Event::SceneParsed(Ok(scene))) == (
                SessionView { pending_scene: Some(scene), pending_camera: None, ..session },
                ActionView::Await,
            )
        }),
{
}

/// Parameters with a camera and lights, for a renderer in use: the message's own
/// camera is parsed and, if it parses, applied; then, whatever became of it, the
/// message's own lights are parsed and, if they parse, applied. In the end the
/// session is as it was.
pub proof fn lemma_camera_and_lights_are_applied(
    session: SessionView,
    patch: serde_json::Value,
    camera: Camera,
    lights: Vec<Light>,
    reason: String,
    camera_applied: Result<(), String>,
    lights_applied: Result<(), String>,
)
    requires
        session.wf(),
        session.phase is Ready,
        session.renderer is Some,
        json_members(patch).contains_key("camera"@),
        json_members(patch).contains_key("lights"@),
    ensures
        ({
            let members = json_members(patch);
            let asked = session.next(
                Event::Message(Inbound::Text(Ok(ClientMsg::Params { patch }))),
            );
            let parsed = asked.0.next(Event::CameraParsed(Ok(camera)));
            let moved = parsed.0.next(Event::Updated(camera_applied));
            let unmoved = asked.0.next(Event::CameraParsed(Err(reason)));
            let lit = moved.0.next(Event::LightsParsed(Ok(lights)));
            &&& asked.1 == ActionView::ParseCamera(members["camera"@])
            &&& asked.0.expects(Event::CameraParsed(Ok(camera)))
            &&& parsed.1 == ActionView::UpdateCamera(camera)
            &&& parsed.0.expects(Event::Updated(camera_applied))
            &&& moved.1 == ActionView::ParseLights(members["lights"@])
            &&& unmoved == moved
            &&& moved.0.expects(Event::LightsParsed(Ok(lights)))
            &&& lit.1 == ActionView::UpdateLights(lights)
            &&& lit.0.expects(Event::Updated(lights_applied))
            &&& lit.0.next(Event::Updated(lights_applied)) == (session, ActionView::Await)
            &&& moved.0.next(Event::LightsParsed(Err(reason))) == (session, ActionView::Await)
        }),
{
}

/// Parameters with a camera alone, for a renderer in use: the camera is parsed
/// and, if it parses, applied, and the session is as it was.
pub proof fn lemma_camera_alone_is_applied(
    session: SessionView,
    patch: serde_json::Value,
    camera: Camera,
    reason: String,
    applied: Result<(), String>,
)
    requires
        session.wf(),
        session.phase is Ready,
        session.renderer is Some,
        json_members(patch).contains_key("camera"@),
        !json_members(patch).contains_key("lights"@),
    ensures
        ({
            let asked = session.next(
                Event::Message(Inbound::Text(Ok(ClientMsg::Params { patch }))),
            );
            let parsed = asked.0.next(Event::CameraParsed(Ok(camera)));
            &&& asked.1 == ActionView::ParseCamera(json_members(patch)["camera"@])
            &&& asked.0.expects(Event::CameraParsed(Ok(camera)))
            &&& parsed.1 == ActionView::UpdateCamera(camera)
            &&& parsed.0.expects(Event::Updated(applied))
            &&& parsed.0.next(Event::Updated(applied)) == (session, ActionView::Await)
            &&& asked.0.next(Event::CameraParsed(Err(reason))) == (session, ActionView::Await)
        }),
{
}

/// Parameters with lights alone: the lights are parsed and, if they parse and
/// there is a renderer, applied. The session is then as it was.
pub proof fn lemma_lights_alone_are_applied(
    session: SessionView,
    patch: serde_json::Value,
    lights: Vec<Light>,
    reason: String,
    applied: Result<(), String>,
)
    requires
        session.wf(),
        session.phase is Ready,
        !json_members(patch).contains_key("camera"@),
        json_members(patch).contains_key("lights"@),
    ensures
        ({
            let asked = session.next(
                Event::Message(Inbound::Text(Ok(ClientMsg::Params { patch }))),
            );
            let parsed = asked.0.next(Event::LightsParsed(Ok(lights)));
            &&& asked.1 == ActionView::ParseLights(json_members(patch)["lights"@])
            &&& asked.0.expects(Event::LightsParsed(Ok(lights)))
            &&& session.renderer is Some ==> {
                &&& parsed.1 == ActionView::UpdateLights(lights)
                &&& parsed.0.expects(Event::Updated(applied))
                &&& parsed.0.next(Event::Updated(applied)) == (session, ActionView::Await)
            }
            &&& session.renderer is None ==> parsed == (session, ActionView::Await)
            &&& asked.0.next(Event::LightsParsed(Err(reason))) == (session, ActionView::Await)
        }),
{
}

/// Parameters with a camera, without a renderer: a camera that parses waits, in
/// place of any that waited, and nothing else changes. Lights in the same
/// message are parsed next, and come to nothing.
pub proof fn lemma_early_camera_is_kept(
    session: SessionView,
    patch: serde_json::Value,
    camera: Camera,
    lights: Result<Vec<Light>, String>,
    reason: String,
)
    requires
        session.wf(),
        session.phase is Ready,
        session.renderer is None,
        json_members(patch).contains_key("camera"@),
    ensures
        ({
            let members = json_members(patch);
            let asked = session.next(
                Event::Message(Inbound::Text(Ok(ClientMsg::Params { patch }))),
            );
            let parsed = asked.0.next(Event::CameraParsed(Ok(camera)));
            let refused = asked.0.next(Event::CameraParsed(Err(reason)));
            let kept = SessionView { pending_camera: Some(camera), ..session };
            &&& asked.1 == ActionView::ParseCamera(members["camera"@])
            &&& asked.0.expects(Event::CameraParsed(Ok(camera)))
            &&& !members.contains_key("lights"@) ==> {
                &&& parsed == (kept, ActionView::Await)
                &&& refused == (session, ActionView::Await)
            }
            &&& members.contains_key("lights"@) ==> {
                &&& parsed.1 == ActionView::ParseLights(members["lights"@])
                &&& refused.1 == parsed.1
                &&& parsed.0.expects(Event::LightsParsed(lights))
                &&& parsed.0.next(Event::LightsParsed(lights)) == (kept, ActionView::Await)
                &&& refused.0.next(Event::LightsParsed(lights)) == (session, ActionView::Await)
            }
        }),
{
}

/// Parameters without a camera and lights, pongs and raw frames do nothing.
pub proof fn lemma_the_rest_is_ignored(session: SessionView, patch: serde_json::Value)
    requires
        session.phase is Ready,
        !json_members(patch).contains_key("camera"@),
        !json_members(patch).contains_key("lights"@),
    ensures
        session.next(Event::Message(Inbound::Text(Ok(ClientMsg::Params { patch })))) == (
            session,
            ActionView::Await,
        ),
        session.next(Event::Message(Inbound::Pong)) == (session, ActionView::Await),
        session.next(Event::Message(Inbound::Frame)) == (session, ActionView::Await),
{
}

/// Something comes from the socket only at rest, a frame is due only at rest
/// and while rendering, and any other event only as the outcome of what was
/// asked for.
pub proof fn lemma_events_come_in_turn(session: SessionView, event: Event)
    ensures
        event is Message || event is RecvFailed || event is Disconnected ==> (session.expects(event)
            <==> session.phase is Ready),
        event is Tick ==> (session.expects(event) <==> session.phase is Ready && session.rendering),
        event is SceneParsed ==> (session.expects(event) <==> session.phase is ParsingScene),
        event is CameraParsed ==> (session.expects(event) <==> session.phase is ParsingCamera),
        event is LightsParsed ==> (session.expects(event) <==> session.phase is ParsingLights),
        event is Built ==> (session.expects(event) <==> session.phase is Building),
        event is Updated ==> (session.expects(event) <==> session.phase is UpdatingScene
            || session.phase is UpdatingCamera || session.phase is UpdatingLights
            || session.phase is SeedingScene || session.phase is SeedingCamera),
        event is Rendered ==> (session.expects(event) <==> session.phase is Rendering && (
        event->Rendered_0 is Ok ==> session.frame_counter < u64::MAX)),
        event is Sent ==> (session.expects(event) <==> session.phase is Announcing
            || session.phase is Streaming || session.phase is Replying),
{
}

/// An ending conversation keeps everything but its phase. A frame that cannot
/// be sent ends it without an error, as the editor is gone.
pub proof fn lemma_endings(session: SessionView)
    ensures
        session.next(Event::RecvFailed) == (
            SessionView { phase: Phase::Closed, ..session },
            ActionView::Finish(Ending::Left),
        ),
        session.next(Event::Disconnected) == (
            SessionView { phase: Phase::Closed, ..session },
            ActionView::Finish(Ending::Left),
        ),
        session.next(Event::Message(Inbound::Close)) == (
            SessionView { phase: Phase::Closed, ..session },
            ActionView::Finish(Ending::Left),
        ),
        session.next(Event::Message(Inbound::Text(Ok(ClientMsg::Shutdown)))) == (
            SessionView { phase: Phase::Closed, ..session },
            ActionView::Finish(Ending::EngineExit),
        ),
        session.phase is Streaming ==> session.next(Event::Sent(false)) == (
            SessionView { phase: Phase::Closed, ..session },
            ActionView::Finish(Ending::Left),
        ),
        session.phase is Replying || session.phase is Announcing ==> session.next(
            Event::Sent(false),
        ) == (SessionView { phase: Phase::Closed, ..session }, ActionView::Finish(Ending::Failed)),
{
}

/// What waits for a renderer that was just built is applied one by one: first
/// the scene, and then all goes on as if none had waited; then the camera in the
/// same way. It does not matter whether it can be applied. With nothing waiting,
/// the size is announced; once that is sent, the renderer is in use, and its
/// first frame is rendered.
pub proof fn lemma_what_waits_is_applied_in_turn(session: SessionView, applied: Result<(), String>)
    requires
        session.wf(),
        session.phase is Building,
    ensures
        ({
            let built = session.next(Event::Built(Ok(())));
            let announced = built.0.next(Event::Sent(true));
            &&& session.pending_scene matches Some(scene) ==> {
                &&& built.1 == ActionView::UpdateScene(scene)
                &&& built.0.expects(Event::Updated(applied))
                &&& built.0.next(Event::Updated(applied)) == (SessionView {
                    pending_scene: None,
                    ..session
                }).next(Event::Built(Ok(())))
            }
            &&& session.pending_scene is None && session.pending_camera is Some ==> {
                &&& built.1 == ActionView::UpdateCamera(session.pending_camera->0)
                &&& built.0.expects(Event::Updated(applied))
                &&& built.0.next(Event::Updated(applied)) == (SessionView {
                    pending_camera: None,
                    ..session
                }).next(Event::Built(Ok(())))
            }
            &&& session.pending_scene is None && session.pending_camera is None ==> {
                &&& built.1 == ActionView::SendText(
                    EngineMsgView::FrameConfig {
                        width: session.want_dims.0,
                        height: session.want_dims.1,
                        format: "rgba8unorm"@,
                    },
                )
                &&& built.0.expects(Event::Sent(true))
                &&& announced.1 == ActionView::RenderFrame
                &&& announced.0 == (SessionView {
                    renderer: Some(session.want_dims),
                    frame_counter: 0,
                    phase: Phase::Rendering,
                    ..session
                })
            }
        }),
{
}

} // verus!
