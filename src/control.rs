use vstd::prelude::*;
use crate::door::{Direction, DoorSetpoint, DoorState, DoorStatus, GpioCommand};
use crate::estimator::{elapsed_between, elapsed_since, estimate, estimated, Tracking};
use crate::planner::{plan, planned_outcome, planned_steps, reverse_presses, Step};
use crate::pulse::{
    drives_high, lemma_lowered_concat, lemma_lowered_single, lowered, pin_high, step_levels,
    Level, PulseQueue,
};

verus! {

/// Parameters of the control loop, fixed for its lifetime.
#[derive(Clone, Copy, Debug, PartialEq, Eq, Structural)]
pub struct LoopConfig {
    /// Time for a full traverse, in milliseconds; also the position of a
    /// fully open door.
    pub travel_ms: u64,
    /// Minimum time after reaching one limit before the other is believed.
    pub cooldown_ms: u64,
    /// Ticks a press holds the relay active, and then inactive.
    pub active_ticks: u64,
    /// Ticks of rest between presses.
    pub rest_ticks: u64,
    /// Whether the relay is active when its pin is low.
    pub active_low: bool,
}

/// What one tick asks of the outside: a level to write to the relay pin
/// (`true` for high), and a new snapshot to publish.
#[derive(Clone, Copy, Debug, PartialEq, Eq, Structural)]
pub struct TickOutcome {
    pub pin_high: Option<bool>,
    pub published: Option<DoorState>,
}

/// The abstract state of the controller.
pub ghost struct ControllerView {
    pub config: LoopConfig,
    pub state: DoorState,
    pub track: Tracking,
    pub last_tick: u64,
    pub queue: Seq<Level>,
}

/// The single owner of the door state, the direction and timestamp
/// bookkeeping and the pulse queue.
pub struct DoorController {
    config: LoopConfig,
    state: DoorState,
    track: Tracking,
    last_tick: u64,
    queue: PulseQueue,
}

impl View for DoorController {
    type V = ControllerView;

    closed spec fn view(&self) -> ControllerView {
        ControllerView {
            config: self.config,
            state: self.state,
            track: self.track,
            last_tick: self.last_tick,
            queue: self.queue@,
        }
    }
}

/// The status read from the two limit switches at startup.
pub open spec fn initial_status(close_asserted: bool, open_asserted: bool) -> DoorStatus {
    if close_asserted && !open_asserted {
        DoorStatus::Closed
    } else if open_asserted && !close_asserted {
        DoorStatus::Open
    } else {
        DoorStatus::Ajar
    }
}

/// The setpoint read from the two limit switches at startup.
pub open spec fn initial_setpoint(close_asserted: bool, open_asserted: bool) -> DoorSetpoint {
    if close_asserted && !open_asserted {
        DoorSetpoint::Closed
    } else if open_asserted && !close_asserted {
        DoorSetpoint::Open
    } else {
        DoorSetpoint::Ajar
    }
}

/// The estimator's result for a tick at `now`.
pub open spec fn tick_estimate(v: ControllerView, now: u64, close_asserted: bool, open_asserted: bool) -> (DoorState, Tracking) {
    estimated(
        close_asserted,
        open_asserted,
        v.state,
        v.track,
        now,
        elapsed_since(now, v.last_tick) as u64,
        v.config.travel_ms,
        v.config.cooldown_ms,
    )
}

/// The state and bookkeeping after a tick: the estimate, with the plan for
/// the command, if any, merged over it.
pub open spec fn tick_merged(
    v: ControllerView,
    now: u64,
    close_asserted: bool,
    open_asserted: bool,
    command: Option<GpioCommand>,
) -> (DoorState, Tracking) {
    let est = tick_estimate(v, now, close_asserted, open_asserted);
    match command {
        None => est,
        Some(c) => planned_outcome(c, est.0, est.1, now),
    }
}

/// The queue after the command's presses are appended, before this tick's
/// level is taken.
pub open spec fn tick_queue(
    v: ControllerView,
    now: u64,
    close_asserted: bool,
    open_asserted: bool,
    command: Option<GpioCommand>,
) -> Seq<Level> {
    let est = tick_estimate(v, now, close_asserted, open_asserted);
    match command {
        None => v.queue,
        Some(c) => v.queue + lowered(
            planned_steps(c, est.0.status, est.1.direction),
            v.config.active_ticks as nat,
            v.config.rest_ticks as nat,
        ),
    }
}

/// A toggle appends exactly one press to the pulse queue, whatever the door
/// is doing: `active_ticks` active levels followed by as many inactive ones.
pub proof fn toggle_enqueues_one_press(v: ControllerView, now: u64, close_asserted: bool, open_asserted: bool)
    ensures
        tick_queue(v, now, close_asserted, open_asserted, Some(GpioCommand::Toggle))
            == v.queue + step_levels(Step::Press, v.config.active_ticks as nat, v.config.rest_ticks as nat),
        tick_queue(v, now, close_asserted, open_asserted, Some(GpioCommand::Toggle)).len()
            == v.queue.len() + 2 * v.config.active_ticks,
{
    lemma_lowered_single(Step::Press, v.config.active_ticks as nat, v.config.rest_ticks as nat);
}

/// An open issued while the door is moving down appends two presses
/// separated by one rest.
pub proof fn open_while_closing_enqueues_two_presses(
    v: ControllerView,
    now: u64,
    close_asserted: bool,
    open_asserted: bool,
)
    requires
        tick_estimate(v, now, close_asserted, open_asserted).0.status == DoorStatus::MovingDown,
    ensures
        tick_queue(v, now, close_asserted, open_asserted, Some(GpioCommand::Open)) == v.queue
            + step_levels(Step::Press, v.config.active_ticks as nat, v.config.rest_ticks as nat)
            + step_levels(Step::Rest, v.config.active_ticks as nat, v.config.rest_ticks as nat)
            + step_levels(Step::Press, v.config.active_ticks as nat, v.config.rest_ticks as nat),
{
    let a = v.config.active_ticks as nat;
    let r = v.config.rest_ticks as nat;
    assert(reverse_presses() =~= seq![Step::Press] + seq![Step::Rest] + seq![Step::Press]);
    lemma_lowered_concat(seq![Step::Press] + seq![Step::Rest], seq![Step::Press], a, r);
    lemma_lowered_concat(seq![Step::Press], seq![Step::Rest], a, r);
    lemma_lowered_single(Step::Press, a, r);
    lemma_lowered_single(Step::Rest, a, r);
    assert(tick_queue(v, now, close_asserted, open_asserted, Some(GpioCommand::Open)) =~= v.queue
        + step_levels(Step::Press, a, r) + step_levels(Step::Rest, a, r) + step_levels(Step::Press, a, r));
}

/// An open issued while the door is already open or moving up appends
/// nothing to the pulse queue.
pub proof fn open_while_opening_enqueues_nothing(v: ControllerView, now: u64, close_asserted: bool, open_asserted: bool)
    requires
        tick_estimate(v, now, close_asserted, open_asserted).0.status == DoorStatus::Open
            || tick_estimate(v, now, close_asserted, open_asserted).0.status == DoorStatus::MovingUp,
    ensures
        tick_queue(v, now, close_asserted, open_asserted, Some(GpioCommand::Open)) == v.queue,
{
    assert(v.queue + lowered(Seq::<Step>::empty(), v.config.active_ticks as nat, v.config.rest_ticks as nat) =~= v.queue);
}

impl DoorController {
    pub open spec fn wf(&self) -> bool {
        self@.state.position <= self@.config.travel_ms
    }

    /// Starts the loop from a first reading of the limit switches at `now`.
    pub fn new(config: LoopConfig, close_asserted: bool, open_asserted: bool, now: u64) -> (r: DoorController)
        ensures
            r.wf(),
            r@.config == config,
            r@.state == (DoorState {
                status: initial_status(close_asserted, open_asserted),
                setpoint: initial_setpoint(close_asserted, open_asserted),
                position: 0,
            }),
            r@.track == (Tracking { direction: Direction::Neutral, last_full_open: now, last_full_close: now }),
            r@.last_tick == now,
            r@.queue == Seq::<Level>::empty(),
    {
        let (status, setpoint) = if close_asserted && !open_asserted {
            (DoorStatus::Closed, DoorSetpoint::Closed)
        } else if open_asserted && !close_asserted {
            (DoorStatus::Open, DoorSetpoint::Open)
        } else {
            (DoorStatus::Ajar, DoorSetpoint::Ajar)
        };
        DoorController {
            config,
            state: DoorState { status, setpoint, position: 0 },
            track: Tracking { direction: Direction::Neutral, last_full_open: now, last_full_close: now },
            last_tick: now,
            queue: PulseQueue::new(),
        }
    }

    /// The currently published snapshot.
    pub fn state(&self) -> (r: DoorState)
        ensures
            r == self@.state,
    {
        self.state
    }

    /// The loop's parameters.
    pub fn config(&self) -> (r: LoopConfig)
        ensures
            r == self@.config,
    {
        self.config
    }

    /// The last known direction of travel.
    pub fn direction(&self) -> (r: Direction)
        ensures
            r == self@.track.direction,
    {
        self.track.direction
    }

    /// Number of relay levels still queued.
    pub fn pending_levels(&self) -> (r: usize)
        ensures
            r == self@.queue.len(),
    {
        self.queue.len()
    }

    /// One tick of the control loop at time `now`: estimate the door from the
    /// limit switches, plan the command taken from the mailbox if there is
    /// one, take one level for the relay, and publish the new snapshot only if
    /// it differs from the last one.
    pub fn tick(&mut self, now: u64, close_asserted: bool, open_asserted: bool, command: Option<GpioCommand>) -> (r: TickOutcome)
        requires
            old(self).wf(),
        ensures
            final(self).wf(),
            final(self)@.state.position <= final(self)@.config.travel_ms,
            final(self)@.config == old(self)@.config,
            final(self)@.last_tick == now,
            (final(self)@.state, final(self)@.track) == tick_merged(old(self)@, now, close_asserted, open_asserted, command),
            ({
                let q = tick_queue(old(self)@, now, close_asserted, open_asserted, command);
                if q.len() > 0 {
                    &&& r.pin_high == Some(drives_high(q[0], old(self)@.config.active_low))
                    &&& final(self)@.queue == q.drop_first()
                } else {
                    &&& r.pin_high is None
                    &&& final(self)@.queue == q
                }
            }),
            final(self)@.state == old(self)@.state ==> r.published is None,
            r.published == if final(self)@.state != old(self)@.state {
                Some(final(self)@.state)
            } else {
                None::<DoorState>
            },
    {
        let elapsed = elapsed_between(now, self.last_tick);
        let (est, est_track) = estimate(
            close_asserted,
            open_asserted,
            self.state,
            self.track,
            now,
            elapsed,
            self.config.travel_ms,
            self.config.cooldown_ms,
        );
        let (next, next_track) = match command {
            None => (est, est_track),
            Some(c) => {
                let p = plan(c, est, est_track, now);
                self.queue.enqueue(&p.steps, self.config.active_ticks, self.config.rest_ticks);
                (p.state, p.track)
            },
        };
        let pin = match self.queue.next_level() {
            Some(level) => Some(pin_high(level, self.config.active_low)),
            None => None,
        };
        let published = if next != self.state {
            Some(next)
        } else {
            None
        };
        self.state = next;
        self.track = next_track;
        self.last_tick = now;
        TickOutcome { pin_high: pin, published }
    }
}

} // verus!
