//! The frame clock: the life cycle of the platform's display timer, kept as
//! plain state. The platform calls are the caller's; what to call, and
//! when, is decided here.
use vstd::prelude::*;

verus! {

/// The status code of a platform video call.
pub type CVReturn = i32;

/// The status code that reports success.
pub const kCVReturnSuccess: CVReturn = 0;

/// Why no frame clock could be made. Each carries the platform's code.
#[derive(Copy, Clone, Debug, PartialEq, Eq, Structural)]
pub enum CoreAnimError {
    /// The timer could not be given its callback.
    FailedToCreateTimer(CVReturn),
    /// The event handler could not be linked to the timer.
    FailedToLinkOutputHandler(CVReturn),
    /// No display is attached that a timer could follow.
    FailedToConnectToDisplay(CVReturn),
}

/// Where a frame clock is in its life.
#[derive(Copy, Clone, Debug, PartialEq, Eq, Structural)]
pub enum ClockPhase {
    /// The clock holds no platform timer: it never had one, or it was
    /// invalidated.
    Detached,
    /// The clock holds a timer that delivers no ticks.
    Attached,
    /// The clock holds a timer that delivers ticks.
    Running,
}

/// What the caller of `invalidate` has to do to the platform timer.
#[derive(Copy, Clone, Debug, PartialEq, Eq, Structural)]
pub enum InvalidateAction {
    /// Nothing: the clock held no timer.
    Nothing,
    /// Release the timer, which was never started.
    Release,
    /// Stop the timer, then release it.
    StopAndRelease,
}

/// What a frame clock is, mathematically.
pub struct ClockState {
    pub phase: ClockPhase,
    /// The rate asked for, in ticks per second; `None` stands for the
    /// display's own rate.
    pub preferred_frames_per_second: Option<i64>,
}

impl ClockState {
    /// The clock that holds no timer.
    pub open spec fn detached() -> ClockState {
        ClockState { phase: ClockPhase::Detached, preferred_frames_per_second: None }
    }

    /// What making a clock gives, from what the platform reported: whether
    /// it handed out a timer, with which code, and the code with which the
    /// timer took its callback.
    pub open spec fn created(connected: bool, connect_code: CVReturn, callback_code: CVReturn)
        -> Result<ClockState, CoreAnimError> {
        if !connected {
            Err(CoreAnimError::FailedToConnectToDisplay(connect_code))
        } else if callback_code != kCVReturnSuccess {
            Err(CoreAnimError::FailedToCreateTimer(callback_code))
        } else {
            Ok(ClockState { phase: ClockPhase::Attached, preferred_frames_per_second: None })
        }
    }

    /// Whether a tick that arrives now is handed on.
    pub open spec fn delivers_ticks(self) -> bool {
        self.phase == ClockPhase::Running
    }

    /// Whether starting the clock now starts the platform timer.
    pub open spec fn starts_timer(self) -> bool {
        self.phase == ClockPhase::Attached
    }

    /// The clock after it was started.
    pub open spec fn after_start(self) -> ClockState {
        if self.phase == ClockPhase::Attached {
            ClockState { phase: ClockPhase::Running, ..self }
        } else {
            self
        }
    }

    /// What `invalidate` asks of the caller in this state.
    pub open spec fn invalidate_action(self) -> InvalidateAction {
        match self.phase {
            ClockPhase::Detached => InvalidateAction::Nothing,
            ClockPhase::Attached => InvalidateAction::Release,
            ClockPhase::Running => InvalidateAction::StopAndRelease,
        }
    }

    /// The clock after `invalidate`.
    pub open spec fn after_invalidate(self) -> ClockState {
        ClockState { phase: ClockPhase::Detached, ..self }
    }
}

/// A frame clock.
#[derive(Debug)]
pub struct CoreAnimDisplayLink {
    phase: ClockPhase,
    preferred_frames_per_second: Option<i64>,
}

impl CoreAnimDisplayLink {
    /// The clock as a mathematical value.
    pub closed spec fn view(&self) -> ClockState {
        ClockState {
            phase: self.phase,
            preferred_frames_per_second: self.preferred_frames_per_second,
        }
    }

    /// Makes a clock from what the platform reported when it was asked for a
    /// timer: `connected` says whether it handed one out, `connect_code` is
    /// the code of that call, and `callback_code` the code with which the
    /// timer took its callback (of no account where there is no timer).
    /// Without a timer, or with a callback refused, there is no clock.
    pub fn display_link_with_target_and_selector(
        connected: bool,
        connect_code: CVReturn,
        callback_code: CVReturn,
    ) -> (r: Result<CoreAnimDisplayLink, CoreAnimError>)
        ensures
            r is Ok <==> connected && callback_code == kCVReturnSuccess,
            r matches Ok(link) ==> Ok::<ClockState, CoreAnimError>(link@) == ClockState::created(
                connected,
                connect_code,
                callback_code,
            ),
            r matches Err(e) ==> Err::<ClockState, CoreAnimError>(e) == ClockState::created(
                connected,
                connect_code,
                callback_code,
            ),
    {
        if !connected {
            Err(CoreAnimError::FailedToConnectToDisplay(connect_code))
        } else if callback_code != kCVReturnSuccess {
            Err(CoreAnimError::FailedToCreateTimer(callback_code))
        } else {
            Ok(
                CoreAnimDisplayLink {
                    phase: ClockPhase::Attached,
                    preferred_frames_per_second: None,
                },
            )
        }
    }

    /// Where the clock is in its life.
    pub fn phase(&self) -> (r: ClockPhase)
        ensures
            r == self@.phase,
    {
        self.phase
    }

    /// The rate asked for, or `None` for the display's own.
    pub fn preferred_frames_per_second(&self) -> (r: Option<i64>)
        ensures
            r == self@.preferred_frames_per_second,
    {
        self.preferred_frames_per_second
    }

    /// Whether a tick that arrives now is handed on.
    pub fn is_running(&self) -> (r: bool)
        ensures
            r == self@.delivers_ticks(),
    {
        self.phase == ClockPhase::Running
    }

    /// Asks for a rate, in ticks per second.
    pub fn set_preferred_frames_per_second(&mut self, preferred_frames_per_second: i64)
        requires
            preferred_frames_per_second > 0,
        ensures
            final(self)@ == (ClockState {
                preferred_frames_per_second: Some(preferred_frames_per_second),
                ..old(self)@
            }),
    {
        self.preferred_frames_per_second = Some(preferred_frames_per_second);
    }

    /// Starts the clock. Returns `true` where the caller has to start the
    /// platform timer: the clock holds one and it was not running. A clock
    /// without a timer stays as it is, and so does a running one.
    pub fn add_to_run_loop_for_mode(&mut self) -> (start_timer: bool)
        ensures
            start_timer == old(self)@.starts_timer(),
            final(self)@ == old(self)@.after_start(),
    {
        if self.phase == ClockPhase::Attached {
            self.phase = ClockPhase::Running;
            true
        } else {
            false
        }
    }

    /// Starts the clock on the main run loop; see
    /// `add_to_run_loop_for_mode`.
    pub fn add_to_main_run_loop(&mut self) -> (start_timer: bool)
        ensures
            start_timer == old(self)@.starts_timer(),
            final(self)@ == old(self)@.after_start(),
    {
        self.add_to_run_loop_for_mode()
    }

    /// Ends the clock's life: no tick is handed on after this. Says what the
    /// caller has to do to the platform timer, which the clock then no
    /// longer holds; on a clock without a timer that is nothing.
    pub fn invalidate(&mut self) -> (action: InvalidateAction)
        ensures
            action == old(self)@.invalidate_action(),
            final(self)@ == old(self)@.after_invalidate(),
            !final(self)@.delivers_ticks(),
    {
        let action = match self.phase {
            ClockPhase::Detached => InvalidateAction::Nothing,
            ClockPhase::Attached => InvalidateAction::Release,
            ClockPhase::Running => InvalidateAction::StopAndRelease,
        };
        self.phase = ClockPhase::Detached;
        action
    }
}

impl Default for CoreAnimDisplayLink {
    /// The clock that holds no timer.
    fn default() -> (link: Self)
        ensures
            link@ == ClockState::detached(),
    {
        CoreAnimDisplayLink { phase: ClockPhase::Detached, preferred_frames_per_second: None }
    }
}

/// Invalidating is idempotent: a second `invalidate` changes nothing and
/// asks for nothing, so no timer is stopped or released twice. It is safe
/// on a clock that was never started, and on one that never held a timer.
pub proof fn lemma_invalidate_idempotent(s: ClockState)
    ensures
        s.after_invalidate().after_invalidate() == s.after_invalidate(),
        s.after_invalidate().invalidate_action() == InvalidateAction::Nothing,
        s.phase == ClockPhase::Detached ==> s.after_invalidate() == s,
{
}

/// After `invalidate` no tick is handed on, and starting the clock again
/// starts no timer.
pub proof fn lemma_invalidated_stays_silent(s: ClockState)
    ensures
        !s.after_invalidate().delivers_ticks(),
        !s.after_invalidate().starts_timer(),
        s.after_invalidate().after_start() == s.after_invalidate(),
        !s.after_invalidate().after_start().delivers_ticks(),
{
}

/// Starting is idempotent too: the platform timer is started once.
pub proof fn lemma_start_once(s: ClockState)
    ensures
        !s.after_start().starts_timer(),
        s.after_start().after_start() == s.after_start(),
        s.starts_timer() ==> s.after_start().delivers_ticks(),
{
}

} // verus!
