use vstd::prelude::*;

use crate::robot::{
    lemma_run_keeps_ceilings, lemma_run_push, lemma_run_records, lemma_run_same_drive, Command, Robot, RobotModel,
    SensorReadings, Side,
};

verus! {

/// Mission phase of the navigation state machine.
#[derive(Clone, Copy, Debug, PartialEq, Eq, Structural)]
pub enum State {
    FollowingLine,
    FollowingLineAndAvoiding,
    Forward,
    TurningLeft,
    TurningRight,
    ReturnToLine,
    Avoiding,
    Stopped,
}

/// Standard duties and pulse counts, as `NavConfig::default` sets them.
pub const PIVOT_DUTY: u16 = 0xFFFF;
pub const LINE_LEFT_DUTY: u16 = 50_000;
pub const LINE_RIGHT_DUTY: u16 = 45_000;
pub const SPIN_DUTY: u16 = 0xFFFF;
pub const SPIN_TICKS: u32 = 17;
pub const TURN_BACK_DUTY: u16 = 50_000;
pub const TURN_FORWARD_DUTY: u16 = 40_000;
pub const TURN_LEFT_TICKS: u32 = 8;
pub const TURN_RIGHT_TICKS: u32 = 9;
pub const RETREAT_TICKS: u32 = 4;
pub const RETREAT_LEFT_DUTY: u16 = 55_000;
pub const RETREAT_RIGHT_DUTY: u16 = 48_000;
pub const PASS_LEFT_DUTY: u16 = 56_000;
pub const PASS_RIGHT_DUTY: u16 = 46_000;
pub const PASS_TICKS: u32 = 8;
pub const CRUISE_LEFT_DUTY: u16 = 55_000;
pub const CRUISE_RIGHT_DUTY: u16 = 48_000;
pub const FORWARD_LEFT_DUTY: u16 = 55_000;
pub const FORWARD_RIGHT_DUTY: u16 = 46_000;
pub const REJOIN_DUTY: u16 = 50_000;
pub const REJOIN_TICKS: u32 = 4;
pub const SEEK_DUTY: u16 = 45_000;
pub const SEEK_TICKS: u32 = 2;

/// Settings of the navigation rules: thresholds as raw infrared magnitudes and
/// centimetres, duties as PWM values, and wheel-pulse counts of locked maneuvers.
#[derive(Clone, Copy, Debug, PartialEq, Eq, Structural)]
pub struct NavConfig {
    /// Infrared reading above which the line follower sees black.
    pub black_threshold: u16,
    /// Front distance of an obstacle: the line follower goes on while the front
    /// distance exceeds it, an avoiding robot turns away once below it.
    pub obstacle_cm: u16,
    /// Infrared reading above which an avoiding robot has found the line again.
    pub reacquire_threshold: u16,
    /// Side distance above which an avoiding robot has passed the obstacle.
    pub side_clearance_cm: u16,
    /// Side distance above which the robot keeps driving forward past the obstacle.
    pub forward_clearance_cm: u16,
    /// Left infrared reading above which the robot is back on the line.
    pub return_threshold: u16,
    /// Duty of the wheel on the black side when the line follower pivots.
    pub pivot_duty: u16,
    /// Left and right forward duties while following the line.
    pub line_left_duty: u16,
    pub line_right_duty: u16,
    /// Spin to the right: left wheel duty and pulse count.
    pub spin_duty: u16,
    pub spin_ticks: u32,
    /// Turn to the left: left wheel back, right wheel forward, each locked
    /// to its own pulse count.
    pub turn_back_duty: u16,
    pub turn_forward_duty: u16,
    pub turn_left_ticks: u32,
    pub turn_right_ticks: u32,
    /// Backing off in the avoiding phase once the line is seen again.
    pub retreat_ticks: u32,
    pub retreat_left_duty: u16,
    pub retreat_right_duty: u16,
    /// Driving past the obstacle once the side is clear.
    pub pass_left_duty: u16,
    pub pass_right_duty: u16,
    pub pass_ticks: u32,
    /// Driving straight beside the obstacle.
    pub cruise_left_duty: u16,
    pub cruise_right_duty: u16,
    /// Driving forward after the left turn; backing off from there uses the
    /// same duties and `retreat_ticks`.
    pub forward_left_duty: u16,
    pub forward_right_duty: u16,
    /// Left wheel step that ends the return onto the line.
    pub rejoin_duty: u16,
    pub rejoin_ticks: u32,
    /// Left wheel step while still looking for the line.
    pub seek_duty: u16,
    pub seek_ticks: u32,
}

impl NavConfig {
    pub open spec fn standard() -> NavConfig {
        NavConfig {
            black_threshold: 600,
            obstacle_cm: 12,
            reacquire_threshold: 300,
            side_clearance_cm: 50,
            forward_clearance_cm: 30,
            return_threshold: 800,
            pivot_duty: PIVOT_DUTY,
            line_left_duty: LINE_LEFT_DUTY,
            line_right_duty: LINE_RIGHT_DUTY,
            spin_duty: SPIN_DUTY,
            spin_ticks: SPIN_TICKS,
            turn_back_duty: TURN_BACK_DUTY,
            turn_forward_duty: TURN_FORWARD_DUTY,
            turn_left_ticks: TURN_LEFT_TICKS,
            turn_right_ticks: TURN_RIGHT_TICKS,
            retreat_ticks: RETREAT_TICKS,
            retreat_left_duty: RETREAT_LEFT_DUTY,
            retreat_right_duty: RETREAT_RIGHT_DUTY,
            pass_left_duty: PASS_LEFT_DUTY,
            pass_right_duty: PASS_RIGHT_DUTY,
            pass_ticks: PASS_TICKS,
            cruise_left_duty: CRUISE_LEFT_DUTY,
            cruise_right_duty: CRUISE_RIGHT_DUTY,
            forward_left_duty: FORWARD_LEFT_DUTY,
            forward_right_duty: FORWARD_RIGHT_DUTY,
            rejoin_duty: REJOIN_DUTY,
            rejoin_ticks: REJOIN_TICKS,
            seek_duty: SEEK_DUTY,
            seek_ticks: SEEK_TICKS,
        }
    }
}

impl Default for NavConfig {
    fn default() -> (r: Self)
        ensures
            r == NavConfig::standard(),
    {
        NavConfig {
            black_threshold: 600,
            obstacle_cm: 12,
            reacquire_threshold: 300,
            side_clearance_cm: 50,
            forward_clearance_cm: 30,
            return_threshold: 800,
            pivot_duty: PIVOT_DUTY,
            line_left_duty: LINE_LEFT_DUTY,
            line_right_duty: LINE_RIGHT_DUTY,
            spin_duty: SPIN_DUTY,
            spin_ticks: SPIN_TICKS,
            turn_back_duty: TURN_BACK_DUTY,
            turn_forward_duty: TURN_FORWARD_DUTY,
            turn_left_ticks: TURN_LEFT_TICKS,
            turn_right_ticks: TURN_RIGHT_TICKS,
            retreat_ticks: RETREAT_TICKS,
            retreat_left_duty: RETREAT_LEFT_DUTY,
            retreat_right_duty: RETREAT_RIGHT_DUTY,
            pass_left_duty: PASS_LEFT_DUTY,
            pass_right_duty: PASS_RIGHT_DUTY,
            pass_ticks: PASS_TICKS,
            cruise_left_duty: CRUISE_LEFT_DUTY,
            cruise_right_duty: CRUISE_RIGHT_DUTY,
            forward_left_duty: FORWARD_LEFT_DUTY,
            forward_right_duty: FORWARD_RIGHT_DUTY,
            rejoin_duty: REJOIN_DUTY,
            rejoin_ticks: REJOIN_TICKS,
            seek_duty: SEEK_DUTY,
            seek_ticks: SEEK_TICKS,
        }
    }
}

/// Outcome of one poll of a bounded wait for both motors to stop.
#[derive(Clone, Copy, Debug, PartialEq, Eq, Structural)]
pub enum WaitStatus {
    Stopped,
    Waiting,
    TimedOut,
}

/// A wait for both motors to stop that gives up after a number of polls.
pub struct StopWait {
    polls: u32,
    limit: u32,
}

impl StopWait {
    pub closed spec fn polls(self) -> u32 {
        self.polls
    }

    pub closed spec fn limit(self) -> u32 {
        self.limit
    }

    /// A wait that allows `limit` polls that find the motors still running.
    pub fn new(limit: u32) -> (r: StopWait)
        ensures
            r.polls() == 0,
            r.limit() == limit,
    {
        StopWait { polls: 0, limit }
    }

    /// One poll; `stopped` is whether both motors' duties read zero. A running
    /// poll counts against the limit; one past the limit times out.
    pub fn poll(&mut self, stopped: bool) -> (r: WaitStatus)
        ensures
            final(self).limit() == old(self).limit(),
            stopped ==> r == WaitStatus::Stopped && final(self).polls() == old(self).polls(),
            !stopped && old(self).polls() < old(self).limit() ==> r == WaitStatus::Waiting
                && final(self).polls() == old(self).polls() + 1,
            !stopped && old(self).polls() >= old(self).limit() ==> r == WaitStatus::TimedOut
                && final(self).polls() == old(self).polls(),
    {
        if stopped {
            WaitStatus::Stopped
        } else if self.polls < self.limit {
            self.polls = self.polls + 1;
            WaitStatus::Waiting
        } else {
            WaitStatus::TimedOut
        }
    }
}

/// Motor calls of the line follower: when exactly one sensor sees black, the
/// wheel on that side reverses at full duty and the other drives forward; else
/// both drive forward.
pub open spec fn line_commands(r: SensorReadings, c: NavConfig) -> Seq<Command> {
    let left_black = r.left_infrared > c.black_threshold;
    let right_black = r.right_infrared > c.black_threshold;
    if left_black && !right_black {
        seq![
            Command::Backward(Side::Left, c.pivot_duty),
            Command::Forward(Side::Right, c.line_right_duty),
        ]
    } else if !left_black && right_black {
        seq![
            Command::Forward(Side::Left, c.line_left_duty),
            Command::Backward(Side::Right, c.pivot_duty),
        ]
    } else {
        seq![
            Command::Forward(Side::Left, c.line_left_duty),
            Command::Forward(Side::Right, c.line_right_duty),
        ]
    }
}

/// Drive both wheels, lock both for `ticks` pulses, then wait for the stop.
pub open spec fn locked_commands(left: Command, right: Command, ticks: u32) -> Seq<Command> {
    seq![
        left,
        right,
        Command::Lock(Side::Left, ticks),
        Command::Lock(Side::Right, ticks),
        Command::WaitTillStopped,
    ]
}

pub open spec fn line_seen(r: SensorReadings, c: NavConfig) -> bool {
    r.left_infrared > c.reacquire_threshold || r.right_infrared > c.reacquire_threshold
}

/// Motor calls, lock requests and waits of one step from `s`.
pub open spec fn step_commands(s: State, r: SensorReadings, c: NavConfig) -> Seq<Command> {
    match s {
        State::FollowingLine => line_commands(r, c),
        State::FollowingLineAndAvoiding => if r.front_distance > c.obstacle_cm {
            line_commands(r, c)
        } else {
            seq![]
        },
        State::TurningRight => seq![
            Command::Forward(Side::Left, c.spin_duty),
            Command::Forward(Side::Right, 0),
            Command::Lock(Side::Left, c.spin_ticks),
            Command::WaitTillStopped,
        ],
        State::TurningLeft => seq![
            Command::Backward(Side::Left, c.turn_back_duty),
            Command::Forward(Side::Right, c.turn_forward_duty),
            Command::Lock(Side::Left, c.turn_left_ticks),
            Command::Lock(Side::Right, c.turn_right_ticks),
            Command::WaitTillStopped,
        ],
        State::Avoiding => if line_seen(r, c) {
            locked_commands(
                Command::Backward(Side::Left, c.retreat_left_duty),
                Command::Backward(Side::Right, c.retreat_right_duty),
                c.retreat_ticks,
            )
        } else if r.left_distance > c.side_clearance_cm {
            locked_commands(
                Command::Forward(Side::Left, c.pass_left_duty),
                Command::Forward(Side::Right, c.pass_right_duty),
                c.pass_ticks,
            )
        } else if r.front_distance < c.obstacle_cm {
            seq![]
        } else {
            seq![
                Command::Forward(Side::Left, c.cruise_left_duty),
                Command::Forward(Side::Right, c.cruise_right_duty),
            ]
        },
        State::ReturnToLine => if r.left_infrared > c.return_threshold {
            seq![
                Command::Forward(Side::Left, c.rejoin_duty),
                Command::Lock(Side::Left, c.rejoin_ticks),
                Command::WaitTillStopped,
            ]
        } else {
            seq![
                Command::Forward(Side::Left, c.seek_duty),
                Command::Lock(Side::Left, c.seek_ticks),
                Command::WaitTillStopped,
            ]
        },
        State::Forward => if line_seen(r, c) {
            seq![
                Command::Forward(Side::Left, c.forward_left_duty),
                Command::Forward(Side::Right, c.forward_right_duty),
            ] + locked_commands(
                Command::Backward(Side::Left, c.forward_left_duty),
                Command::Backward(Side::Right, c.forward_right_duty),
                c.retreat_ticks,
            )
        } else {
            seq![
                Command::Forward(Side::Left, c.forward_left_duty),
                Command::Forward(Side::Right, c.forward_right_duty),
            ]
        },
        State::Stopped => seq![],
    }
}

/// The phase after one step from `s`.
pub open spec fn next_state(s: State, r: SensorReadings, c: NavConfig) -> State {
    match s {
        State::FollowingLine => State::FollowingLine,
        State::FollowingLineAndAvoiding => if r.front_distance > c.obstacle_cm {
            State::FollowingLineAndAvoiding
        } else {
            State::TurningRight
        },
        State::TurningRight => State::Avoiding,
        State::TurningLeft => State::Forward,
        State::Avoiding => if line_seen(r, c) {
            State::ReturnToLine
        } else if r.left_distance > c.side_clearance_cm {
            State::TurningLeft
        } else if r.front_distance < c.obstacle_cm {
            State::TurningRight
        } else {
            State::Avoiding
        },
        State::ReturnToLine => if r.left_infrared > c.return_threshold {
            State::FollowingLineAndAvoiding
        } else {
            State::ReturnToLine
        },
        State::Forward => if line_seen(r, c) {
            State::ReturnToLine
        } else if r.left_distance > c.forward_clearance_cm {
            State::Forward
        } else {
            State::Avoiding
        },
        State::Stopped => State::Stopped,
    }
}

/// What one step from `s` does to `m`.
pub open spec fn stepped(s: State, m: RobotModel) -> RobotModel {
    m.run(step_commands(s, m.readings, m.config))
}

/// One step is determined by the phase and the sensor snapshot: under the same
/// thresholds, two robots with the same readings move to the same next phase and
/// record the same motor calls; with the same motors and locks as well, they end
/// with the same motors and locks.
pub proof fn lemma_step_deterministic(s: State, a: RobotModel, b: RobotModel)
    requires
        a.readings == b.readings,
        a.config == b.config,
    ensures
        next_state(s, a.readings, a.config) == next_state(s, b.readings, b.config),
        stepped(s, a).commands == a.commands + step_commands(s, b.readings, b.config),
        stepped(s, b).commands == b.commands + step_commands(s, a.readings, a.config),
        stepped(s, a).readings == stepped(s, b).readings,
        (a.left == b.left && a.right == b.right && a.left_lock == b.left_lock && a.right_lock
            == b.right_lock) ==> (stepped(s, a).left == stepped(s, b).left && stepped(s, a).right
            == stepped(s, b).right && stepped(s, a).left_lock == stepped(s, b).left_lock
            && stepped(s, a).right_lock == stepped(s, b).right_lock),
{
    let cmds = step_commands(s, a.readings, a.config);
    lemma_run_records(a, cmds);
    lemma_run_records(b, cmds);
    if a.left == b.left && a.right == b.right && a.left_lock == b.left_lock && a.right_lock
        == b.right_lock {
        lemma_run_same_drive(a, b, cmds);
    }
}

/// The stopped phase is terminal and moves nothing.
pub proof fn lemma_stopped_is_terminal(m: RobotModel)
    ensures
        next_state(State::Stopped, m.readings, m.config) == State::Stopped,
        stepped(State::Stopped, m) == m,
{
}

impl State {
    /// One step of the mission: issues this phase's motor calls on `robot` and
    /// returns the next phase.
    pub fn process_state(self, robot: &mut Robot) -> (r: Self)
        ensures
            r == next_state(self, old(robot)@.readings, old(robot)@.config),
            final(robot)@ == stepped(self, old(robot)@),
            final(robot)@.left.ceiling == old(robot)@.left.ceiling,
            final(robot)@.right.ceiling == old(robot)@.right.ceiling,
            old(robot)@.wf() ==> final(robot)@.wf(),
    {
        proof {
            let m = robot@;
            lemma_run_keeps_ceilings(m, step_commands(self, m.readings, m.config));
        }
        match self {
            State::FollowingLine => following_line(robot),
            State::Stopped => State::Stopped,
            State::FollowingLineAndAvoiding => following_line_and_avoiding(robot),
            State::TurningRight => turning_right(robot),
            State::TurningLeft => turning_left(robot),
            State::Avoiding => avoiding(robot),
            State::Forward => forward(robot),
            State::ReturnToLine => return_to_line(robot),
        }
    }
}

/// Issues `c` as the next command of a step that started from `start` and has
/// issued `done` so far.
fn issue_next(
    robot: &mut Robot,
    c: Command,
    Ghost(start): Ghost<RobotModel>,
    Ghost(done): Ghost<Seq<Command>>,
)
    requires
        old(robot)@ == start.run(done),
    ensures
        final(robot)@ == start.run(done.push(c)),
{
    robot.issue(c);
    proof {
        lemma_run_push(start, done, c);
    }
}

/// Ends a step with a wait until both motors have stopped; the control loop
/// performs the wait.
fn wait_till_stopped(
    robot: &mut Robot,
    Ghost(start): Ghost<RobotModel>,
    Ghost(done): Ghost<Seq<Command>>,
)
    requires
        old(robot)@ == start.run(done),
    ensures
        final(robot)@ == start.run(done.push(Command::WaitTillStopped)),
{
    issue_next(robot, Command::WaitTillStopped, Ghost(start), Ghost(done));
}

fn following_line(robot: &mut Robot) -> (r: State)
    ensures
        r == next_state(State::FollowingLine, old(robot)@.readings, old(robot)@.config),
        final(robot)@ == stepped(State::FollowingLine, old(robot)@),
{
    let ghost start = robot@;
    let ghost cmds = step_commands(State::FollowingLine, start.readings, start.config);
    let readings = robot.get_sensor_readings();
    let config = robot.get_config();
    let left_is_black = readings.left_infrared > config.black_threshold;
    let right_is_black = readings.right_infrared > config.black_threshold;
    let (c1, c2) = if left_is_black && !right_is_black {
        (Command::Backward(Side::Left, config.pivot_duty), Command::Forward(Side::Right, config.line_right_duty))
    } else if !left_is_black && right_is_black {
        (Command::Forward(Side::Left, config.line_left_duty), Command::Backward(Side::Right, config.pivot_duty))
    } else {
        (
            Command::Forward(Side::Left, config.line_left_duty),
            Command::Forward(Side::Right, config.line_right_duty),
        )
    };
    issue_next(robot, c1, Ghost(start), Ghost(Seq::empty()));
    issue_next(robot, c2, Ghost(start), Ghost(Seq::empty().push(c1)));
    proof {
        assert(Seq::empty().push(c1).push(c2) =~= cmds);
    }
    State::FollowingLine
}

fn following_line_and_avoiding(robot: &mut Robot) -> (r: State)
    ensures
        r == next_state(State::FollowingLineAndAvoiding, old(robot)@.readings, old(robot)@.config),
        final(robot)@ == stepped(State::FollowingLineAndAvoiding, old(robot)@),
{
    if robot.get_sensor_readings().front_distance > robot.get_config().obstacle_cm {
        following_line(robot);
        State::FollowingLineAndAvoiding
    } else {
        State::TurningRight
    }
}

fn turning_right(robot: &mut Robot) -> (r: State)
    ensures
        r == next_state(State::TurningRight, old(robot)@.readings, old(robot)@.config),
        final(robot)@ == stepped(State::TurningRight, old(robot)@),
{
    let ghost start = robot@;
    let ghost cmds = step_commands(State::TurningRight, start.readings, start.config);
    let config = robot.get_config();
    let c1 = Command::Forward(Side::Left, config.spin_duty);
    let c2 = Command::Forward(Side::Right, 0);
    let c3 = Command::Lock(Side::Left, config.spin_ticks);
    issue_next(robot, c1, Ghost(start), Ghost(Seq::empty()));
    issue_next(robot, c2, Ghost(start), Ghost(Seq::empty().push(c1)));
    issue_next(robot, c3, Ghost(start), Ghost(Seq::empty().push(c1).push(c2)));
    wait_till_stopped(robot, Ghost(start), Ghost(Seq::empty().push(c1).push(c2).push(c3)));
    proof {
        assert(Seq::empty().push(c1).push(c2).push(c3).push(Command::WaitTillStopped) =~= cmds);
    }
    State::Avoiding
}

fn turning_left(robot: &mut Robot) -> (r: State)
    ensures
        r == next_state(State::TurningLeft, old(robot)@.readings, old(robot)@.config),
        final(robot)@ == stepped(State::TurningLeft, old(robot)@),
{
    let ghost start = robot@;
    let ghost cmds = step_commands(State::TurningLeft, start.readings, start.config);
    let config = robot.get_config();
    let c1 = Command::Backward(Side::Left, config.turn_back_duty);
    let c2 = Command::Forward(Side::Right, config.turn_forward_duty);
    let c3 = Command::Lock(Side::Left, config.turn_left_ticks);
    let c4 = Command::Lock(Side::Right, config.turn_right_ticks);
    issue_next(robot, c1, Ghost(start), Ghost(Seq::empty()));
    issue_next(robot, c2, Ghost(start), Ghost(Seq::empty().push(c1)));
    issue_next(robot, c3, Ghost(start), Ghost(Seq::empty().push(c1).push(c2)));
    issue_next(robot, c4, Ghost(start), Ghost(Seq::empty().push(c1).push(c2).push(c3)));
    let ghost done = Seq::empty().push(c1).push(c2).push(c3).push(c4);
    wait_till_stopped(robot, Ghost(start), Ghost(done));
    proof {
        assert(Seq::empty().push(c1).push(c2).push(c3).push(c4).push(Command::WaitTillStopped)
            =~= cmds);
    }
    State::Forward
}

/// Drives both wheels, locks both for `ticks` pulses and waits: the locked
/// maneuvers of the avoiding phases.
fn locked_maneuver(
    robot: &mut Robot,
    left: Command,
    right: Command,
    ticks: u32,
    Ghost(start): Ghost<RobotModel>,
    Ghost(done): Ghost<Seq<Command>>,
)
    requires
        old(robot)@ == start.run(done),
    ensures
        final(robot)@ == start.run(done + locked_commands(left, right, ticks)),
{
    let lock_left = Command::Lock(Side::Left, ticks);
    let lock_right = Command::Lock(Side::Right, ticks);
    issue_next(robot, left, Ghost(start), Ghost(done));
    issue_next(robot, right, Ghost(start), Ghost(done.push(left)));
    issue_next(robot, lock_left, Ghost(start), Ghost(done.push(left).push(right)));
    issue_next(robot, lock_right, Ghost(start), Ghost(done.push(left).push(right).push(lock_left)));
    wait_till_stopped(
        robot,
        Ghost(start),
        Ghost(done.push(left).push(right).push(lock_left).push(lock_right)),
    );
    assert(done.push(left).push(right).push(lock_left).push(lock_right).push(
        Command::WaitTillStopped,
    ) =~= done + locked_commands(left, right, ticks));
}

fn avoiding(robot: &mut Robot) -> (r: State)
    ensures
        r == next_state(State::Avoiding, old(robot)@.readings, old(robot)@.config),
        final(robot)@ == stepped(State::Avoiding, old(robot)@),
{
    let ghost start = robot@;
    let ghost cmds = step_commands(State::Avoiding, start.readings, start.config);
    let sr = *robot.get_sensor_readings();
    let config = robot.get_config();
    if sr.left_infrared > config.reacquire_threshold || sr.right_infrared
        > config.reacquire_threshold {
        let left = Command::Backward(Side::Left, config.retreat_left_duty);
        let right = Command::Backward(Side::Right, config.retreat_right_duty);
        locked_maneuver(robot, left, right, config.retreat_ticks, Ghost(start), Ghost(Seq::empty()));
        proof {
            assert(Seq::empty() + locked_commands(left, right, config.retreat_ticks) =~= cmds);
        }
        State::ReturnToLine
    } else if sr.left_distance > config.side_clearance_cm {
        let left = Command::Forward(Side::Left, config.pass_left_duty);
        let right = Command::Forward(Side::Right, config.pass_right_duty);
        locked_maneuver(robot, left, right, config.pass_ticks, Ghost(start), Ghost(Seq::empty()));
        proof {
            assert(Seq::empty() + locked_commands(left, right, config.pass_ticks) =~= cmds);
        }
        State::TurningLeft
    } else if sr.front_distance < config.obstacle_cm {
        State::TurningRight
    } else {
        let c1 = Command::Forward(Side::Left, config.cruise_left_duty);
        let c2 = Command::Forward(Side::Right, config.cruise_right_duty);
        issue_next(robot, c1, Ghost(start), Ghost(Seq::empty()));
        issue_next(robot, c2, Ghost(start), Ghost(Seq::empty().push(c1)));
        proof {
            assert(Seq::empty().push(c1).push(c2) =~= cmds);
        }
        State::Avoiding
    }
}

fn return_to_line(robot: &mut Robot) -> (r: State)
    ensures
        r == next_state(State::ReturnToLine, old(robot)@.readings, old(robot)@.config),
        final(robot)@ == stepped(State::ReturnToLine, old(robot)@),
{
    let ghost start = robot@;
    let ghost cmds = step_commands(State::ReturnToLine, start.readings, start.config);
    let config = robot.get_config();
    if robot.get_sensor_readings().left_infrared > config.return_threshold {
        let c1 = Command::Forward(Side::Left, config.rejoin_duty);
        let c2 = Command::Lock(Side::Left, config.rejoin_ticks);
        issue_next(robot, c1, Ghost(start), Ghost(Seq::empty()));
        issue_next(robot, c2, Ghost(start), Ghost(Seq::empty().push(c1)));
        wait_till_stopped(robot, Ghost(start), Ghost(Seq::empty().push(c1).push(c2)));
        proof {
            assert(Seq::empty().push(c1).push(c2).push(Command::WaitTillStopped) =~= cmds);
        }
        return State::FollowingLineAndAvoiding;
    }
    let c1 = Command::Forward(Side::Left, config.seek_duty);
    let c2 = Command::Lock(Side::Left, config.seek_ticks);
    issue_next(robot, c1, Ghost(start), Ghost(Seq::empty()));
    issue_next(robot, c2, Ghost(start), Ghost(Seq::empty().push(c1)));
    wait_till_stopped(robot, Ghost(start), Ghost(Seq::empty().push(c1).push(c2)));
    proof {
        assert(Seq::empty().push(c1).push(c2).push(Command::WaitTillStopped) =~= cmds);
    }
    State::ReturnToLine
}

fn forward(robot: &mut Robot) -> (r: State)
    ensures
        r == next_state(State::Forward, old(robot)@.readings, old(robot)@.config),
        final(robot)@ == stepped(State::Forward, old(robot)@),
{
    let ghost start = robot@;
    let ghost cmds = step_commands(State::Forward, start.readings, start.config);
    let config = robot.get_config();
    let c1 = Command::Forward(Side::Left, config.forward_left_duty);
    let c2 = Command::Forward(Side::Right, config.forward_right_duty);
    let sr = *robot.get_sensor_readings();
    issue_next(robot, c1, Ghost(start), Ghost(Seq::empty()));
    issue_next(robot, c2, Ghost(start), Ghost(Seq::empty().push(c1)));
    if sr.left_infrared > config.reacquire_threshold || sr.right_infrared
        > config.reacquire_threshold {
        let left = Command::Backward(Side::Left, config.forward_left_duty);
        let right = Command::Backward(Side::Right, config.forward_right_duty);
        let ghost driven = Seq::empty().push(c1).push(c2);
        locked_maneuver(robot, left, right, config.retreat_ticks, Ghost(start), Ghost(driven));
        proof {
            assert(driven =~= seq![c1, c2]);
        }
        State::ReturnToLine
    } else if sr.left_distance > config.forward_clearance_cm {
        proof {
            assert(Seq::empty().push(c1).push(c2) =~= cmds);
        }
        State::Forward
    } else {
        proof {
            assert(Seq::empty().push(c1).push(c2) =~= cmds);
        }
        State::Avoiding
    }
}

} // verus!
