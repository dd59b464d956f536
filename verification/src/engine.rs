//! The engine core: the session state driver and the frame controller.
//!
//! The runtime owns the session: the driver never invents a state
//! transition, it only reacts to the state the runtime's event stream
//! reports.  Each tick the embedding drains the runtime's pending events,
//! hands the newly observed state (and the external quit flag) to
//! `Engine::update`, performs the one action the transition maps to, and
//! stops cleanly when `update` reports shutdown.  Around that, frames are
//! driven strictly begin/end, begin/end.

use vstd::prelude::*;

use crate::rendering::resources::Resources;
use crate::resources::haptic_context::HapticContext;
use crate::HothamError;
use crate::HothamResult;

verus! {

/// How long the tick loop yields while no session is active, in
/// milliseconds.  This bounds every wait of the loop, so a quit signal is
/// noticed within one such interval.
pub const IDLE_SLEEP_MS: u64 = 100;

/// Frame indices are consumed as 32-bit counters on the GPU side, so the
/// engine wraps them there.
pub const FRAME_INDEX_BOUND: u64 = 0x1_0000_0000;

/// The runtime session states the driver reacts to.
#[derive(Clone, Copy, Debug, PartialEq, Eq, Structural)]
pub enum SessionState {
    /// Nothing observed from the runtime yet.
    Unknown,
    /// No session is running.
    Idle,
    /// The runtime is ready for the session to begin.
    Ready,
    /// The session runs and frame timing is synchronised.
    Synchronized,
    /// The session's output is visible to the user.
    Visible,
    /// The session has the user's focus.
    Focused,
    /// The runtime wants the running session ended.
    Stopping,
    /// The session is lost or about to be; teardown is expected.
    LossPending,
    /// The runtime is going away; the terminal state.
    Exiting,
}

/// The one action a state transition maps to.  The embedding performs it:
/// all of them touch the runtime or the clock, which the engine core never
/// does itself.
#[derive(Clone, Copy, Debug, PartialEq, Eq, Structural)]
pub enum SessionAction {
    /// Keep draining events without waiting; further events are pending.
    ContinueDraining,
    /// Yield the thread for `IDLE_SLEEP_MS` to avoid busy-spinning while no
    /// session is active.
    SleepBriefly,
    /// Ask the runtime to begin the session and start issuing frames.
    BeginSession,
    /// Stop ticking: the runtime is going away.  `update` reports this
    /// transition as `ShuttingDown`.
    SignalShutdown,
    /// End the running session cleanly.
    EndSession,
    /// No state-specific action.
    DoNothing,
}

/// The per-frame scalar state, refreshed once per tick at the start of
/// `Engine::update` and read-only for the rest of the tick.
#[derive(Clone, Copy, Debug, PartialEq, Eq, Structural)]
pub struct FrameContext {
    /// Monotonically increasing frame counter; wraps at
    /// `FRAME_INDEX_BOUND`.
    pub frame_index: u64,
    /// Whether the runtime wants visible content for this frame.
    pub should_render: bool,
    /// When the runtime predicts the frame will be displayed, in runtime
    /// time (nanoseconds).
    pub predicted_display_time: i64,
    /// The session state before the most recent `update`.
    pub previous_state: SessionState,
    /// The session state the most recent `update` observed.
    pub current_state: SessionState,
}

/// The action for one observed state transition.  The table is evaluated on
/// the pair (previous, current), first match wins:
///
/// * Stopping to Idle: keep draining events;
/// * anything to Idle: yield briefly;
/// * Idle to Ready: begin the session;
/// * anything to Exiting: signal shutdown;
/// * anything to Stopping: end the session;
/// * otherwise: nothing.
pub open spec fn spec_transition_action(
    previous: SessionState,
    current: SessionState,
) -> SessionAction {
    if previous == SessionState::Stopping && current == SessionState::Idle {
        SessionAction::ContinueDraining
    } else if current == SessionState::Idle {
        SessionAction::SleepBriefly
    } else if previous == SessionState::Idle && current == SessionState::Ready {
        SessionAction::BeginSession
    } else if current == SessionState::Exiting {
        SessionAction::SignalShutdown
    } else if current == SessionState::Stopping {
        SessionAction::EndSession
    } else {
        SessionAction::DoNothing
    }
}

/// Map one observed state transition to its action.
pub fn transition_action(previous: SessionState, current: SessionState) -> (action: SessionAction)
    ensures
        action == spec_transition_action(previous, current),
{
    match (previous, current) {
        (SessionState::Stopping, SessionState::Idle) => SessionAction::ContinueDraining,
        (_, SessionState::Idle) => SessionAction::SleepBriefly,
        (SessionState::Idle, SessionState::Ready) => SessionAction::BeginSession,
        (_, SessionState::Exiting) => SessionAction::SignalShutdown,
        (_, SessionState::Stopping) => SessionAction::EndSession,
        _ => SessionAction::DoNothing,
    }
}

/// Each row of the transition table fires exactly for the pairs it names,
/// and a pair no row names maps to no action at all.
pub proof fn lemma_transition_table(previous: SessionState, current: SessionState)
    ensures
        previous == SessionState::Stopping && current == SessionState::Idle
            ==> spec_transition_action(previous, current) == SessionAction::ContinueDraining,
        previous != SessionState::Stopping && current == SessionState::Idle
            ==> spec_transition_action(previous, current) == SessionAction::SleepBriefly,
        previous == SessionState::Idle && current == SessionState::Ready
            ==> spec_transition_action(previous, current) == SessionAction::BeginSession,
        current == SessionState::Exiting ==> spec_transition_action(previous, current)
            == SessionAction::SignalShutdown,
        current == SessionState::Stopping ==> spec_transition_action(previous, current)
            == SessionAction::EndSession,
        current != SessionState::Idle && current != SessionState::Exiting && current
            != SessionState::Stopping && !(previous == SessionState::Idle && current
            == SessionState::Ready) ==> spec_transition_action(previous, current)
            == SessionAction::DoNothing,
{
}

/// A lifecycle event of the host platform, as the platform event source
/// reports it.  Only the variants the engine reacts to are distinguished;
/// everything else is `Other`.
#[derive(Clone, Copy, Debug, PartialEq, Eq, Structural)]
pub enum PlatformEvent {
    /// The application came to the foreground.
    Resume,
    /// The application left the foreground.
    Pause,
    /// The platform is tearing the application down.
    Destroy,
    /// An event the engine does not react to.
    Other,
}

/// Whether `Destroy` occurs among the drained events.
pub open spec fn spec_destroy_reached(events: Seq<PlatformEvent>) -> bool {
    exists|i: int| 0 <= i < events.len() && events[i] == PlatformEvent::Destroy
}

/// The foreground flag after processing the drained events in order,
/// starting from `initial`: `Resume` raises it, `Pause` lowers it, and
/// processing stops at the first `Destroy`.
pub open spec fn spec_resumed_after(initial: bool, events: Seq<PlatformEvent>) -> bool
    decreases events.len(),
{
    if events.len() == 0 {
        initial
    } else if events[0] == PlatformEvent::Destroy {
        initial
    } else {
        spec_resumed_after(
            match events[0] {
                PlatformEvent::Resume => true,
                PlatformEvent::Pause => false,
                _ => initial,
            },
            events.drop_first(),
        )
    }
}

/// Process the platform lifecycle events drained this tick, in order:
/// `Resume` and `Pause` track whether the application is in the foreground,
/// and the first `Destroy` raises the quit signal and stops processing at
/// once.  Returns whether teardown was reached.
pub fn process_android_events(
    resumed: &mut bool,
    should_quit: &mut bool,
    events: &Vec<PlatformEvent>,
) -> (destroyed: bool)
    ensures
        destroyed == spec_destroy_reached(events@),
        *final(should_quit) == (*old(should_quit) || spec_destroy_reached(events@)),
        *final(resumed) == spec_resumed_after(*old(resumed), events@),
{
    let ghost initial_resumed: bool = *resumed;
    let ghost initial_quit: bool = *should_quit;
    proof {
        assert(events@.subrange(0, events@.len() as int) =~= events@);
    }
    let mut index: usize = 0;
    while index < events.len()
        invariant
            index <= events@.len(),
            forall|i: int| 0 <= i < index ==> events@[i] != PlatformEvent::Destroy,
            spec_resumed_after(initial_resumed, events@) == spec_resumed_after(
                *resumed,
                events@.subrange(index as int, events@.len() as int),
            ),
            *should_quit == initial_quit,
            *old(should_quit) == initial_quit,
            *old(resumed) == initial_resumed,
        decreases events@.len() - index,
    {
        let ghost suffix = events@.subrange(index as int, events@.len() as int);
        let ghost resumed_at_top: bool = *resumed;
        let event = events[index];
        proof {
            assert(suffix[0] == events@[index as int]);
        }
        match event {
            PlatformEvent::Resume => {
                *resumed = true;
            },
            PlatformEvent::Pause => {
                *resumed = false;
            },
            PlatformEvent::Destroy => {
                *should_quit = true;
                proof {
                    assert(events@[index as int] == PlatformEvent::Destroy);
                    assert(spec_destroy_reached(events@));
                    assert(spec_resumed_after(resumed_at_top, suffix) == resumed_at_top);
                }
                return true;
            },
            PlatformEvent::Other => {},
        }
        index = index + 1;
        proof {
            assert(suffix.drop_first() =~= events@.subrange(index as int, events@.len() as int));
            assert(spec_resumed_after(resumed_at_top, suffix) == spec_resumed_after(
                *resumed,
                suffix.drop_first(),
            ));
        }
    }
    proof {
        assert(events@.subrange(index as int, events@.len() as int) =~= Seq::<
            PlatformEvent,
        >::empty());
        assert(!spec_destroy_reached(events@));
    }
    false
}
/// and the GPU resource arena, with the haptic output state alongside.  The
/// runtime, the devices and the clock stay with the embedding, which feeds
/// observations in and carries actions out.
pub struct Engine {
    /// The most recently observed session state.
    pub session_state: SessionState,
    /// The per-frame scalar state of the current tick.
    pub frame: FrameContext,
    /// Whether a frame is open, that is, `begin_frame` has been called and
    /// `end_frame` has not yet balanced it.
    pub in_frame: bool,
    /// The GPU resource arena.
    pub resources: Resources,
    /// Haptic output state for the current tick.
    pub haptic_context: HapticContext,
}

impl Engine {
    /// The engine is well-formed when its resource arena is and the frame
    /// counter is within its wrapping bound.
    pub open spec fn wf(self) -> bool {
        &&& self.resources.wf()
        &&& self.frame.frame_index < FRAME_INDEX_BOUND
    }

    /// Create the engine core: no state observed yet, no frame open, a
    /// fresh resource arena and no haptic output requested.
    pub fn new() -> (engine: Engine)
        ensures
            engine.wf(),
            engine.session_state == SessionState::Unknown,
            !engine.in_frame,
            engine.frame == (FrameContext {
                frame_index: 0,
                should_render: false,
                predicted_display_time: 0,
                previous_state: SessionState::Unknown,
                current_state: SessionState::Unknown,
            }),
            engine.resources.fresh(),
            engine.haptic_context == (HapticContext {
                left_hand_amplitude_this_frame: 0,
                right_hand_amplitude_this_frame: 0,
            }),
    {
        Engine {
            session_state: SessionState::Unknown,
            frame: FrameContext {
                frame_index: 0,
                should_render: false,
                predicted_display_time: 0,
                previous_state: SessionState::Unknown,
                current_state: SessionState::Unknown,
            },
            in_frame: false,
            resources: Resources::new(),
            haptic_context: HapticContext {
                left_hand_amplitude_this_frame: 0,
                right_hand_amplitude_this_frame: 0,
            },
        }
    }

    /// Advance the session state machine by one tick.
    ///
    /// `current_state` is the state the runtime's drained event stream
    /// reports — at most one authoritative state update is applied per call
    /// — and `quit_requested` is the external quit signal, checked on every
    /// call independently of the state machine so it can never be starved
    /// by a stuck session state.
    ///
    /// Returns the action the transition maps to, for the embedding to
    /// perform, and either the (previous, current) state pair or
    /// `ShuttingDown` exactly when the runtime reached `Exiting` or the
    /// quit signal was raised.  Shutdown is a controlled termination, never
    /// sharing a path with a true failure.
    pub fn update(&mut self, current_state: SessionState, quit_requested: bool) -> (outcome: (
        SessionAction,
        HothamResult<(SessionState, SessionState)>,
    ))
        requires
            !old(self).in_frame,
        ensures
            outcome.0 == spec_transition_action(old(self).session_state, current_state),
            outcome.1 == (if current_state == SessionState::Exiting || quit_requested {
                Err::<(SessionState, SessionState), HothamError>(HothamError::ShuttingDown)
            } else {
                Ok::<(SessionState, SessionState), HothamError>(
                    (old(self).session_state, current_state),
                )
            }),
            final(self).session_state == current_state,
            final(self).frame == (FrameContext {
                previous_state: old(self).session_state,
                current_state,
                ..old(self).frame
            }),
            !final(self).in_frame,
            final(self).resources == old(self).resources,
            final(self).haptic_context == old(self).haptic_context,
    {
        let previous_state = self.session_state;
        self.session_state = current_state;
        self.frame.previous_state = previous_state;
        self.frame.current_state = current_state;

        let action = transition_action(previous_state, current_state);

        let result = if matches!(current_state, SessionState::Exiting) || quit_requested {
            Err(HothamError::ShuttingDown)
        } else {
            Ok((previous_state, current_state))
        };

        (action, result)
    }

    /// Open the frame the runtime has made available.
    ///
    /// The embedding first synchronises input, waits — bounded by the
    /// runtime — for the frame slot, and acquires the view set; it hands in
    /// the runtime's `should_render` flag and predicted display time.  Only
    /// when the runtime wants content does the resource arena rewind to
    /// accept this frame's writes; otherwise the arena is left alone and
    /// the frame is balanced without any GPU work.  Frames alternate
    /// strictly: a frame must not be open.
    pub fn begin_frame(&mut self, should_render: bool, predicted_display_time: i64)
        requires
            !old(self).in_frame,
            old(self).wf(),
        ensures
            final(self).in_frame,
            final(self).wf(),
            final(self).frame == (FrameContext {
                should_render,
                predicted_display_time,
                ..old(self).frame
            }),
            should_render ==> old(self).resources.resets_to(final(self).resources),
            !should_render ==> final(self).resources == old(self).resources,
            final(self).session_state == old(self).session_state,
            final(self).haptic_context == old(self).haptic_context,
    {
        self.frame.should_render = should_render;
        self.frame.predicted_display_time = predicted_display_time;
        self.in_frame = true;
        if should_render {
            self.resources.reset_for_frame();
        }
    }

    /// Close the open frame and advance the frame counter.
    ///
    /// The embedding finalises the submitted GPU work first — only if
    /// `should_render` was set for this frame — and always performs the
    /// runtime's frame-end handshake, which governs timing whether or not
    /// visible content was produced.  Frames alternate strictly: a frame
    /// must be open.
    pub fn end_frame(&mut self)
        requires
            old(self).in_frame,
            old(self).wf(),
        ensures
            !final(self).in_frame,
            final(self).frame == (FrameContext {
                frame_index: (if old(self).frame.frame_index + 1 == FRAME_INDEX_BOUND {
                    0
                } else {
                    old(self).frame.frame_index + 1
                }) as u64,
                ..old(self).frame
            }),
            final(self).session_state == old(self).session_state,
            final(self).resources == old(self).resources,
            final(self).haptic_context == old(self).haptic_context,
            final(self).wf(),
    {
        self.in_frame = false;
        if self.frame.frame_index + 1 == FRAME_INDEX_BOUND {
            self.frame.frame_index = 0;
        } else {
            self.frame.frame_index = self.frame.frame_index + 1;
        }
    }

    /// The most recently observed session state.
    pub fn current_session_state(&self) -> (state: SessionState)
        ensures
            state == self.session_state,
    {
        self.session_state
    }

    /// The per-frame scalar state of the current tick.
    pub fn frame_context(&self) -> (frame: FrameContext)
        ensures
            frame == self.frame,
    {
        self.frame
    }

    /// Whether a frame is open.
    pub fn is_in_frame(&self) -> (in_frame: bool)
        ensures
            in_frame == self.in_frame,
    {
        self.in_frame
    }
}

} // verus!
