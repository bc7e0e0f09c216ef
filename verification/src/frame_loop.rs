//! Decisions of the interactive frame loop: simulation speed, when to ask
//! for a redraw, and which of the two double-buffered grids each frame
//! reads, writes and shows.

use vstd::prelude::*;
use crate::cli::SimMode;

verus! {

/// Number of selectable simulation speeds.
pub const TICK_RATE_COUNT: usize = 8;

/// Simulation speed at position `index`, in steps per second: 1, 2, 5, 10,
/// 20, 30, 60, 120.
pub open spec fn tick_rate_spec(index: int) -> u64 {
    if index == 0 {
        1
    } else if index == 1 {
        2
    } else if index == 2 {
        5
    } else if index == 3 {
        10
    } else if index == 4 {
        20
    } else if index == 5 {
        30
    } else if index == 6 {
        60
    } else {
        120
    }
}

/// Simulation speed at position `index`, in steps per second.
pub fn tick_rate(index: usize) -> (r: u64)
    requires
        index < TICK_RATE_COUNT,
    ensures
        r == tick_rate_spec(index as int),
        r >= 1,
{
    match index {
        0 => 1,
        1 => 2,
        2 => 5,
        3 => 10,
        4 => 20,
        5 => 30,
        6 => 60,
        _ => 120,
    }
}

/// Time between two steps at speed position `index`, in microseconds.
pub fn tick_micros(index: usize) -> (us: u64)
    requires
        index < TICK_RATE_COUNT,
    ensures
        us == 1_000_000u64 / tick_rate_spec(index as int),
{
    1_000_000 / tick_rate(index)
}

/// Speed position a simulation starts at: 10 steps per second for the Game
/// of Life, 30 for Physarum.
pub fn start_tick_index(mode: SimMode) -> (index: usize)
    ensures
        index < TICK_RATE_COUNT,
        index == match mode {
            SimMode::GameOfLife => 3usize,
            SimMode::Physarum => 5usize,
        },
{
    match mode {
        SimMode::GameOfLife => 3,
        SimMode::Physarum => 5,
    }
}

/// State the frame loop keeps between events.
#[derive(Clone, Copy, Debug, PartialEq, Eq, Structural)]
pub struct LoopState {
    /// Position of the current speed among the selectable ones.
    pub tick_index: usize,
    /// Whether a redraw was asked for and has not been delivered yet.
    pub redraw_pending: bool,
}

/// What the window system reported. Events of other windows, and key
/// releases, are filtered out before they get here.
#[derive(Clone, Copy, Debug, PartialEq, Eq, Structural)]
pub enum LoopEvent {
    CloseRequested,
    EscapePressed,
    ArrowUpPressed,
    ArrowDownPressed,
    OtherKeyPressed,
    Resized,
    RedrawRequested,
    /// The event queue is empty; `sigterm` tells whether a termination signal
    /// arrived, `elapsed_micros` how long ago the last step ran.
    AboutToWait { sigterm: bool, elapsed_micros: u64 },
    Other,
}

/// What the frame loop does in answer to an event.
#[derive(Clone, Copy, Debug, PartialEq, Eq, Structural)]
pub enum LoopAction {
    /// Leave the loop.
    Exit,
    /// Report the speed, in steps per second.
    ReportSpeed(u64),
    /// Match the drawable and the uniforms to the new window size.
    SyncDrawableSize,
    /// Run one simulation step, render it, and restart the step clock.
    StepAndRender,
    /// Ask the window for a redraw.
    RequestRedraw,
    /// Nothing to do.
    Nothing,
}

impl LoopState {
    /// A loop that has asked for no redraw, at speed position `tick_index`.
    pub fn new(tick_index: usize) -> (s: LoopState)
        requires
            tick_index < TICK_RATE_COUNT,
        ensures
            s.wf(),
            s.tick_index == tick_index,
            !s.redraw_pending,
    {
        LoopState { tick_index, redraw_pending: false }
    }

    /// The speed position names one of the selectable speeds.
    pub open spec fn wf(self) -> bool {
        self.tick_index < TICK_RATE_COUNT
    }

    /// State and action that follow `event`.
    pub open spec fn next(self, event: LoopEvent) -> (LoopState, LoopAction) {
        match event {
            LoopEvent::CloseRequested | LoopEvent::EscapePressed => (self, LoopAction::Exit),
            LoopEvent::ArrowUpPressed => {
                let t = if self.tick_index + 1 < TICK_RATE_COUNT {
                    (self.tick_index + 1) as usize
                } else {
                    self.tick_index
                };
                (LoopState { tick_index: t, ..self }, LoopAction::ReportSpeed(tick_rate_spec(t as int)))
            },
            LoopEvent::ArrowDownPressed => {
                let t = if self.tick_index > 0 {
                    (self.tick_index - 1) as usize
                } else {
                    0usize
                };
                (LoopState { tick_index: t, ..self }, LoopAction::ReportSpeed(tick_rate_spec(t as int)))
            },
            LoopEvent::Resized => (self, LoopAction::SyncDrawableSize),
            LoopEvent::RedrawRequested => (
                LoopState { redraw_pending: false, ..self },
                LoopAction::StepAndRender,
            ),
            LoopEvent::AboutToWait { sigterm, elapsed_micros } => {
                if sigterm {
                    (self, LoopAction::Exit)
                } else if !self.redraw_pending && elapsed_micros >= 1_000_000u64 / tick_rate_spec(
                    self.tick_index as int,
                ) {
                    (LoopState { redraw_pending: true, ..self }, LoopAction::RequestRedraw)
                } else {
                    (self, LoopAction::Nothing)
                }
            },
            LoopEvent::OtherKeyPressed | LoopEvent::Other => (self, LoopAction::Nothing),
        }
    }

    /// Answers one event: arrow keys change the speed within the selectable
    /// ones, a redraw runs a step, and once the queue is empty a redraw is
    /// asked for when a step is due and none is pending.
    pub fn handle_event(self, event: LoopEvent) -> (r: (LoopState, LoopAction))
        requires
            self.wf(),
        ensures
            r == self.next(event),
            r.0.wf(),
    {
        match event {
            LoopEvent::CloseRequested | LoopEvent::EscapePressed => (self, LoopAction::Exit),
            LoopEvent::ArrowUpPressed => {
                let t = if self.tick_index + 1 < TICK_RATE_COUNT {
                    self.tick_index + 1
                } else {
                    self.tick_index
                };
                (LoopState { tick_index: t, ..self }, LoopAction::ReportSpeed(tick_rate(t)))
            },
            LoopEvent::ArrowDownPressed => {
                let t = if self.tick_index > 0 {
                    self.tick_index - 1
                } else {
                    0
                };
                (LoopState { tick_index: t, ..self }, LoopAction::ReportSpeed(tick_rate(t)))
            },
            LoopEvent::Resized => (self, LoopAction::SyncDrawableSize),
            LoopEvent::RedrawRequested => (LoopState { redraw_pending: false, ..self }, LoopAction::StepAndRender),
            LoopEvent::AboutToWait { sigterm, elapsed_micros } => {
                if sigterm {
                    (self, LoopAction::Exit)
                } else if !self.redraw_pending && elapsed_micros >= tick_micros(self.tick_index) {
                    (LoopState { redraw_pending: true, ..self }, LoopAction::RequestRedraw)
                } else {
                    (self, LoopAction::Nothing)
                }
            },
            LoopEvent::OtherKeyPressed | LoopEvent::Other => (self, LoopAction::Nothing),
        }
    }

    /// Time from the last step until the next one is due, in microseconds.
    pub fn wait_micros(&self) -> (us: u64)
        requires
            self.wf(),
        ensures
            us == 1_000_000u64 / tick_rate_spec(self.tick_index as int),
    {
        tick_micros(self.tick_index)
    }
}

/// Buffers of one simulation step.
#[derive(Clone, Copy, Debug, PartialEq, Eq, Structural)]
pub struct StepBuffers {
    /// The buffer the step reads.
    pub read: usize,
    /// The buffer the step writes.
    pub write: usize,
}

/// Which grid of a double-buffered pair a frame reads, writes and shows.
#[derive(Clone, Copy, Debug, PartialEq, Eq, Structural)]
pub struct FramePlan {
    /// The step to run, if any.
    pub compute: Option<StepBuffers>,
    /// The buffer the frame shows.
    pub render: usize,
}

/// Index of the current buffer of a double-buffered pair.
#[derive(Clone, Copy, Debug)]
pub struct DoubleBuffer {
    current: usize,
}

impl DoubleBuffer {
    #[verifier::type_invariant]
    spec fn inv(self) -> bool {
        self.current < 2
    }

    /// The buffer that holds the latest generation.
    pub closed spec fn current_spec(self) -> int {
        self.current as int
    }

    /// A pair whose first buffer is current.
    pub fn new() -> (b: DoubleBuffer)
        ensures
            b.current_spec() == 0,
    {
        DoubleBuffer { current: 0 }
    }

    /// The buffer that holds the latest generation.
    pub fn current(&self) -> (i: usize)
        ensures
            i == self.current_spec(),
            i < 2,
    {
        proof {
            use_type_invariant(self);
        }
        self.current
    }

    /// The buffer a step reads: the current one.
    pub fn read_index(&self) -> (i: usize)
        ensures
            i == self.current_spec(),
            i < 2,
    {
        proof {
            use_type_invariant(self);
        }
        self.current
    }

    /// The buffer a step writes: the other one.
    pub fn write_index(&self) -> (i: usize)
        ensures
            i == 1 - self.current_spec(),
            i < 2,
    {
        proof {
            use_type_invariant(self);
        }
        1 - self.current
    }

    /// Buffers used by one frame: with `step`, read the current buffer,
    /// write the other one and show it; without, show the current one.
    pub fn plan(&self, step: bool) -> (p: FramePlan)
        ensures
            step ==> p == (FramePlan {
                compute: Some(StepBuffers { read: self.current_spec() as usize, write: (1 - self.current_spec()) as usize }),
                render: (1 - self.current_spec()) as usize,
            }),
            !step ==> p == (FramePlan { compute: None, render: self.current_spec() as usize }),
    {
        let cur = self.read_index();
        let nxt = self.write_index();
        if step {
            FramePlan { compute: Some(StepBuffers { read: cur, write: nxt }), render: nxt }
        } else {
            FramePlan { compute: None, render: cur }
        }
    }

    /// Makes the other buffer current, after a step has written it.
    pub fn swap(&mut self)
        ensures
            final(self).current_spec() == 1 - old(self).current_spec(),
    {
        proof {
            use_type_invariant(&*self);
        }
        self.current = 1 - self.current;
    }

    /// Ends a frame planned with `step`: the buffer written becomes current.
    pub fn finish_frame(&mut self, step: bool)
        ensures
            step ==> final(self).current_spec() == 1 - old(self).current_spec(),
            !step ==> final(self).current_spec() == old(self).current_spec(),
    {
        if step {
            self.swap();
        }
    }
}


/// Faster positions step more often: the speeds rise strictly with their
/// position.
pub proof fn tick_rates_increase(i: int, j: int)
    requires
        0 <= i < j < TICK_RATE_COUNT,
    ensures
        tick_rate_spec(i) < tick_rate_spec(j),
{
}

/// Raising the speed and then lowering it comes back to the state one
/// started from, unless the speed was already the highest.
pub proof fn speed_up_then_down_restores(s: LoopState)
    requires
        s.wf(),
        s.tick_index + 1 < TICK_RATE_COUNT,
    ensures
        s.next(LoopEvent::ArrowUpPressed).0.next(LoopEvent::ArrowDownPressed).0 == s,
{
}

/// Lowering the speed and then raising it comes back to the state one
/// started from, unless the speed was already the lowest.
pub proof fn speed_down_then_up_restores(s: LoopState)
    requires
        s.wf(),
        s.tick_index > 0,
    ensures
        s.next(LoopEvent::ArrowDownPressed).0.next(LoopEvent::ArrowUpPressed).0 == s,
{
}

/// Every event keeps the speed among the selectable ones.
pub proof fn speed_stays_selectable(s: LoopState, e: LoopEvent)
    requires
        s.wf(),
    ensures
        s.next(e).0.wf(),
{
}

/// No redraw is asked for while one is pending, and once one is asked for
/// it is pending until the redraw arrives.
pub proof fn one_redraw_at_a_time(s: LoopState, e: LoopEvent)
    requires
        s.wf(),
    ensures
        s.redraw_pending ==> s.next(e).1 != LoopAction::RequestRedraw,
        s.next(e).1 == LoopAction::RequestRedraw ==> s.next(e).0.redraw_pending,
        s.next(e).0.redraw_pending != s.redraw_pending ==> (e == LoopEvent::RedrawRequested
            || s.next(e).1 == LoopAction::RequestRedraw),
{
}

/// A termination signal always ends the loop.
pub proof fn termination_signal_exits(s: LoopState, elapsed_micros: u64)
    ensures
        s.next(LoopEvent::AboutToWait { sigterm: true, elapsed_micros }).1 == LoopAction::Exit,
{
}

/// The two buffers swap roles on every step: the buffer written is never
/// the one read, and two swaps restore the roles.
pub proof fn buffer_roles_alternate(current: int)
    requires
        0 <= current < 2,
    ensures
        0 <= 1 - current < 2,
        1 - current != current,
        1 - (1 - current) == current,
{
}


/// The speeds, in steps per second, are 1, 2, 5, 10, 20, 30, 60 and 120.
pub proof fn tick_rates_in_numbers()
    ensures
        Seq::new(TICK_RATE_COUNT as nat, |i: int| tick_rate_spec(i)) == seq![1u64, 2, 5, 10, 20, 30, 60, 120],
{
    assert(Seq::new(TICK_RATE_COUNT as nat, |i: int| tick_rate_spec(i)) =~= seq![1u64, 2, 5, 10, 20, 30, 60, 120]);
}

/// A step falls due at the state's own speed: with no signal and no redraw
/// pending, a redraw is asked for exactly when at least one interval of the
/// current speed, one second divided by its steps per second, has elapsed.
pub proof fn step_is_due_at_the_current_speed(s: LoopState, elapsed_micros: u64)
    requires
        s.wf(),
        !s.redraw_pending,
    ensures
        (s.next(LoopEvent::AboutToWait { sigterm: false, elapsed_micros }).1 == LoopAction::RequestRedraw)
            <==> elapsed_micros >= 1_000_000u64 / tick_rate_spec(s.tick_index as int),
        (s.next(LoopEvent::AboutToWait { sigterm: false, elapsed_micros }).1 == LoopAction::RequestRedraw)
            <==> elapsed_micros >= 1_000_000u64 / seq![1u64, 2, 5, 10, 20, 30, 60, 120][s.tick_index as int],
{
    tick_rates_in_numbers();
    let rates = Seq::new(TICK_RATE_COUNT as nat, |i: int| tick_rate_spec(i));
    assert(rates[s.tick_index as int] == tick_rate_spec(s.tick_index as int));
}

} // verus!
