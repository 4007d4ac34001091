use vstd::prelude::*;

verus! {

/// Why a polling pass is starting.
#[derive(Debug, Clone, Copy, PartialEq, Eq, Structural)]
pub enum StartCause {
    Poll,
}

/// Whether the pump loop keeps polling or terminates at its next boundary check.
#[derive(Debug, Clone, Copy, PartialEq, Eq, Structural)]
pub enum ControlFlow {
    Poll,
    Exit,
}

/// The lifecycle stage of a run.
#[derive(Debug, Clone, Copy, PartialEq, Eq, Structural)]
pub enum Phase {
    Idle,
    Starting,
    Polling,
    Exiting,
}

/// What the driver of the loop must do next.
#[derive(Debug, Clone, Copy, PartialEq, Eq, Structural)]
pub enum LoopAction {
    /// Call the handler's `starting`, then release the handler.
    CallStarting,
    /// Drain every queued native message through the dispatch bridge.
    Drain,
    /// Call the handler's `exiting`, then release the handler.
    CallExiting,
    /// The run is over: the handler is detached.
    Finished,
}

/// The abstract state of an `ActiveEventLoop`.
pub struct ActiveState {
    pub control_flow: ControlFlow,
    /// An access to the control-flow cell is in progress further up the call stack.
    pub control_flow_held: bool,
    pub handler_attached: bool,
    /// The handler is exclusively held by a call in progress.
    pub handler_held: bool,
    /// Windows whose back-reference record points at this loop.
    pub windows: Set<u64>,
}

/// The abstract state of an `EventLoop`.
pub struct LoopState {
    pub phase: Phase,
    pub target: ActiveState,
}

/// The control-flow state and the handler slot shared by the loop driver and the
/// dispatch bridge.
pub struct ActiveEventLoop {
    control_flow: ControlFlow,
    control_flow_held: bool,
    handler_attached: bool,
    handler_held: bool,
    windows: Vec<u64>,
}

impl View for ActiveEventLoop {
    type V = ActiveState;

    closed spec fn view(&self) -> ActiveState {
        ActiveState {
            control_flow: self.control_flow,
            control_flow_held: self.control_flow_held,
            handler_attached: self.handler_attached,
            handler_held: self.handler_held,
            windows: self.windows@.to_set(),
        }
    }
}

/// A held handler is always an attached one.
pub open spec fn active_wf(s: ActiveState) -> bool {
    s.handler_held ==> s.handler_attached
}

/// The effect of `set_control_flow`: the value is overwritten unless the cell is
/// held elsewhere, in which case the update is dropped.
pub open spec fn set_control_flow_spec(s: ActiveState, flow: ControlFlow) -> ActiveState {
    if s.control_flow_held {
        s
    } else {
        ActiveState { control_flow: flow, ..s }
    }
}

/// Whether a try-acquire of the handler succeeds.
pub open spec fn handler_available(s: ActiveState) -> bool {
    s.handler_attached && !s.handler_held
}

/// The effect of a try-acquire of the handler.
pub open spec fn acquire_handler_spec(s: ActiveState) -> ActiveState {
    if handler_available(s) {
        ActiveState { handler_held: true, ..s }
    } else {
        s
    }
}

impl ActiveEventLoop {
    pub closed spec fn wf(&self) -> bool {
        active_wf(self@)
    }

    /// A loop that polls, with no handler and no windows.
    pub fn new() -> (r: ActiveEventLoop)
        ensures
            r@.control_flow == ControlFlow::Poll,
            !r@.control_flow_held,
            !r@.handler_attached,
            !r@.handler_held,
            r@.windows == Set::<u64>::empty(),
    {
        let r = ActiveEventLoop {
            control_flow: ControlFlow::Poll,
            control_flow_held: false,
            handler_attached: false,
            handler_held: false,
            windows: Vec::new(),
        };
        assert(r.windows@.to_set() =~= Set::<u64>::empty());
        r
    }

    /// The current control flow.
    pub fn control_flow(&self) -> (r: ControlFlow)
        ensures
            r == self@.control_flow,
    {
        self.control_flow
    }

    /// Requests a control flow. Never blocks and never fails: when the cell is
    /// held by an access further up the call stack the update is dropped.
    pub fn set_control_flow(&mut self, control_flow: ControlFlow)
        ensures
            final(self)@ == set_control_flow_spec(old(self)@, control_flow),
    {
        if !self.control_flow_held {
            self.control_flow = control_flow;
        }
    }

    /// Tries to take exclusive access to the control-flow cell.
    pub fn try_hold_control_flow(&mut self) -> (r: bool)
        ensures
            r == !old(self)@.control_flow_held,
            final(self)@ == (ActiveState { control_flow_held: true, ..old(self)@ }),
    {
        let r = !self.control_flow_held;
        self.control_flow_held = true;
        r
    }

    /// Ends the exclusive access to the control-flow cell taken by `try_hold_control_flow`.
    pub fn release_control_flow(&mut self)
        ensures
            final(self)@ == (ActiveState { control_flow_held: false, ..old(self)@ }),
    {
        self.control_flow_held = false;
    }

    /// Whether a handler is attached and free to be taken.
    pub fn handler_available(&self) -> (r: bool)
        ensures
            r == handler_available(self@),
    {
        self.handler_attached && !self.handler_held
    }

    /// Tries to take exclusive access to the attached handler. A failed attempt
    /// means "no handler present" and changes nothing.
    pub fn try_acquire_handler(&mut self) -> (r: bool)
        requires
            old(self).wf(),
        ensures
            r == handler_available(old(self)@),
            final(self)@ == acquire_handler_spec(old(self)@),
            final(self).wf(),
    {
        if self.handler_attached && !self.handler_held {
            self.handler_held = true;
            true
        } else {
            false
        }
    }

    /// Ends the exclusive access to the handler.
    pub fn release_handler(&mut self)
        requires
            old(self).wf(),
        ensures
            final(self)@ == (ActiveState { handler_held: false, ..old(self)@ }),
            final(self).wf(),
    {
        self.handler_held = false;
    }

    /// Whether `window` has a back-reference record pointing at this loop.
    pub fn has_window(&self, window: u64) -> (r: bool)
        ensures
            r == self@.windows.contains(window),
    {
        let mut i: usize = 0;
        while i < self.windows.len()
            invariant
                0 <= i <= self.windows@.len(),
                forall|j: int| 0 <= j < i ==> self.windows@[j] != window,
            decreases self.windows@.len() - i,
        {
            if self.windows[i] == window {
                assert(self.windows@.to_set().contains(self.windows@[i as int]));
                return true;
            }
            i = i + 1;
        }
        proof {
            if self.windows@.to_set().contains(window) {
                let j = choose|j: int| 0 <= j < self.windows@.len() && self.windows@[j] == window;
                assert(self.windows@[j] == window);
            }
        }
        false
    }

    /// Records a back-reference from `window` to this loop.
    pub fn add_window(&mut self, window: u64)
        requires
            old(self).wf(),
        ensures
            final(self)@ == (ActiveState { windows: old(self)@.windows.insert(window), ..old(self)@ }),
            final(self).wf(),
    {
        self.windows.push(window);
        assert(self.windows@.to_set() =~= old(self).windows@.to_set().insert(window)) by {
            assert(self.windows@ == old(self).windows@.push(window));
            assert forall|w: u64| self.windows@.to_set().contains(w)
                <==> old(self).windows@.to_set().insert(window).contains(w) by {
                if self.windows@.to_set().contains(w) {
                    let j = choose|j: int| 0 <= j < self.windows@.len() && self.windows@[j] == w;
                    if j < old(self).windows@.len() {
                        assert(old(self).windows@[j] == w);
                    }
                }
                if old(self).windows@.to_set().contains(w) {
                    let j = choose|j: int| 0 <= j < old(self).windows@.len() && old(self).windows@[j] == w;
                    assert(self.windows@[j] == w);
                }
                if w == window {
                    assert(self.windows@[old(self).windows@.len() as int] == w);
                }
            }
        }
    }
}

/// The event loop: owns the `ActiveEventLoop` for its whole lifetime and decides,
/// step by step, what the driver of a run must do.
pub struct EventLoop {
    phase: Phase,
    target: ActiveEventLoop,
}

impl View for EventLoop {
    type V = LoopState;

    closed spec fn view(&self) -> LoopState {
        LoopState { phase: self.phase, target: self.target@ }
    }
}

/// The handler is attached exactly while a run is in progress.
pub open spec fn loop_wf(s: LoopState) -> bool {
    &&& active_wf(s.target)
    &&& (s.phase == Phase::Idle <==> !s.target.handler_attached)
}

/// The effect of starting a run: a no-op while a handler is attached, else the
/// handler is attached and the run enters its starting stage.
pub open spec fn begin_run_spec(s: LoopState) -> (LoopState, bool) {
    if s.target.handler_attached {
        (s, false)
    } else {
        (
            LoopState {
                phase: Phase::Starting,
                target: ActiveState { handler_attached: true, handler_held: false, ..s.target },
            },
            true,
        )
    }
}

/// One step of a run, taken while no handler call is in progress.
pub open spec fn step(s: LoopState) -> (LoopState, LoopAction) {
    match s.phase {
        Phase::Idle => (s, LoopAction::Finished),
        Phase::Starting => (
            LoopState {
                phase: Phase::Polling,
                target: ActiveState { handler_held: true, ..s.target },
            },
            LoopAction::CallStarting,
        ),
        Phase::Polling => {
            if s.target.control_flow == ControlFlow::Exit && !s.target.control_flow_held {
                (
                    LoopState {
                        phase: Phase::Exiting,
                        target: ActiveState { handler_held: true, ..s.target },
                    },
                    LoopAction::CallExiting,
                )
            } else {
                (s, LoopAction::Drain)
            }
        },
        Phase::Exiting => (
            LoopState {
                phase: Phase::Idle,
                target: ActiveState { handler_attached: false, handler_held: false, ..s.target },
            },
            LoopAction::Finished,
        ),
    }
}

/// The state after the driver has released the handler.
pub open spec fn released(s: LoopState) -> LoopState {
    LoopState { target: ActiveState { handler_held: false, ..s.target }, ..s }
}

impl Default for EventLoop {
    fn default() -> (r: EventLoop)
        ensures
            r.wf(),
            r@.phase == Phase::Idle,
            r@.target.control_flow == ControlFlow::Poll,
            !r@.target.control_flow_held,
            !r@.target.handler_attached,
            r@.target.windows == Set::<u64>::empty(),
    {
        EventLoop::new()
    }
}

impl EventLoop {
    pub closed spec fn wf(&self) -> bool {
        loop_wf(self@)
    }

    /// An idle loop that polls, with no handler attached.
    pub fn new() -> (r: EventLoop)
        ensures
            r.wf(),
            r@.phase == Phase::Idle,
            r@.target.control_flow == ControlFlow::Poll,
            !r@.target.control_flow_held,
            !r@.target.handler_attached,
            r@.target.windows == Set::<u64>::empty(),
    {
        EventLoop { phase: Phase::Idle, target: ActiveEventLoop::new() }
    }

    /// The state shared with the dispatch bridge and the handler.
    pub fn target(&self) -> (r: &ActiveEventLoop)
        ensures
            r@ == self@.target,
    {
        &self.target
    }

    /// The current stage of the run.
    pub fn phase(&self) -> (r: Phase)
        ensures
            r == self@.phase,
    {
        self.phase
    }

    /// Requests a control flow on the shared state (see `ActiveEventLoop::set_control_flow`).
    pub fn set_control_flow(&mut self, control_flow: ControlFlow)
        requires
            old(self).wf(),
        ensures
            final(self)@ == (LoopState {
                target: set_control_flow_spec(old(self)@.target, control_flow),
                ..old(self)@
            }),
            final(self).wf(),
    {
        self.target.set_control_flow(control_flow);
    }

    /// Tries to take the handler for a call from the dispatch bridge.
    pub fn try_acquire_handler(&mut self) -> (r: bool)
        requires
            old(self).wf(),
        ensures
            r == handler_available(old(self)@.target),
            final(self)@ == (LoopState { target: acquire_handler_spec(old(self)@.target), ..old(self)@ }),
            final(self).wf(),
    {
        self.target.try_acquire_handler()
    }

    /// Ends a handler call.
    pub fn release_handler(&mut self)
        requires
            old(self).wf(),
        ensures
            final(self)@ == released(old(self)@),
            final(self).wf(),
    {
        self.target.release_handler();
    }

    /// Whether `window` has a back-reference record pointing at this loop.
    pub fn has_window(&self, window: u64) -> (r: bool)
        ensures
            r == self@.target.windows.contains(window),
    {
        self.target.has_window(window)
    }

    /// Records a back-reference from `window` to this loop.
    pub fn add_window(&mut self, window: u64)
        requires
            old(self).wf(),
        ensures
            final(self)@ == (LoopState {
                target: ActiveState { windows: old(self)@.target.windows.insert(window), ..old(self)@.target },
                ..old(self)@
            }),
            final(self).wf(),
    {
        self.target.add_window(window);
    }

    /// Starts a run. Returns `false` and changes nothing when a handler is already
    /// attached, that is when a run is in progress.
    pub fn begin_run(&mut self) -> (r: bool)
        requires
            old(self).wf(),
        ensures
            (final(self)@, r) == begin_run_spec(old(self)@),
            final(self).wf(),
    {
        if self.target.handler_attached {
            return false;
        }
        self.target.handler_attached = true;
        self.target.handler_held = false;
        self.phase = Phase::Starting;
        true
    }

    /// Decides the next step of a run. A control-flow cell held elsewhere reads as
    /// "keep polling".
    pub fn next_action(&mut self) -> (r: LoopAction)
        requires
            old(self).wf(),
            !old(self)@.target.handler_held,
        ensures
            (final(self)@, r) == step(old(self)@),
            final(self).wf(),
    {
        match self.phase {
            Phase::Idle => LoopAction::Finished,
            Phase::Starting => {
                self.phase = Phase::Polling;
                self.target.handler_held = true;
                LoopAction::CallStarting
            },
            Phase::Polling => {
                if !self.target.control_flow_held && self.target.control_flow == ControlFlow::Exit {
                    self.phase = Phase::Exiting;
                    self.target.handler_held = true;
                    LoopAction::CallExiting
                } else {
                    LoopAction::Drain
                }
            },
            Phase::Exiting => {
                self.phase = Phase::Idle;
                self.target.handler_attached = false;
                self.target.handler_held = false;
                LoopAction::Finished
            },
        }
    }
}

/// A run started while another is in progress does nothing: the state is left as
/// it was and the driver is told not to proceed.
pub proof fn lemma_nested_run_is_noop(s: LoopState)
    requires
        loop_wf(s),
        s.phase != Phase::Idle,
    ensures
        begin_run_spec(s) == (s, false),
{
}

/// `starting` is requested exactly at the starting stage, which no step re-enters;
/// `exiting` is requested only when leaving the polling stage, and the step after
/// it ends the run, so a new `starting` needs a new top-level run.
pub proof fn lemma_lifecycle_callbacks_once(s: LoopState)
    requires
        loop_wf(s),
        !s.target.handler_held,
    ensures
        (step(s).1 == LoopAction::CallStarting) <==> (s.phase == Phase::Starting),
        step(s).0.phase != Phase::Starting,
        (step(s).1 == LoopAction::CallExiting) ==> ({
            let t = released(step(s).0);
            &&& s.phase == Phase::Polling
            &&& t.phase == Phase::Exiting
            &&& step(t).1 == LoopAction::Finished
            &&& step(t).0.phase == Phase::Idle
            &&& !step(t).0.target.handler_attached
        }),
        loop_wf(step(s).0),
{
}

/// Once the loop observes `Exit` at a boundary check it drains nothing more: the
/// next step calls `exiting` and the one after detaches the handler and ends the
/// run. While the flow is not `Exit`, a polling loop keeps draining.
pub proof fn lemma_exit_terminates(s: LoopState)
    requires
        loop_wf(s),
        s.phase == Phase::Polling,
        !s.target.handler_held,
    ensures
        (s.target.control_flow == ControlFlow::Exit && !s.target.control_flow_held) ==> ({
            let t = released(step(s).0);
            &&& step(s).1 == LoopAction::CallExiting
            &&& step(t).1 == LoopAction::Finished
            &&& step(t).0.phase == Phase::Idle
            &&& !step(t).0.target.handler_attached
        }),
        s.target.control_flow == ControlFlow::Poll ==> step(s) == (s, LoopAction::Drain),
{
}

/// Setting the control flow from a context nested inside another access to the
/// cell drops the inner update and leaves every other part of the state as it
/// was; outside such an access the new value is stored.
pub proof fn lemma_nested_control_flow_update(s: ActiveState, outer: ControlFlow, inner: ControlFlow)
    ensures
        s.control_flow_held ==> set_control_flow_spec(s, inner) == s,
        !s.control_flow_held ==> ({
            let t = set_control_flow_spec(s, outer);
            &&& t.control_flow == outer
            &&& t == (ActiveState { control_flow: outer, ..s })
            &&& set_control_flow_spec(ActiveState { control_flow_held: true, ..t }, inner)
                == (ActiveState { control_flow_held: true, ..t })
        }),
{
}

} // verus!
