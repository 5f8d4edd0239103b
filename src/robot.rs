use vstd::prelude::*;

use crate::states::NavConfig;

verus! {

/// Distance in centimetres.
pub type Cm = u16;

/// One snapshot of every sensor. It is replaced whole, never merged field by field.
#[derive(Clone, Copy, Debug, PartialEq, Eq, Structural)]
pub struct SensorReadings {
    pub front_distance: Cm,
    pub left_distance: Cm,
    pub left_infrared: u16,
    pub right_infrared: u16,
}

impl Default for SensorReadings {
    fn default() -> (r: Self)
        ensures
            r == SensorReadings::zero(),
    {
        SensorReadings { front_distance: 0, left_distance: 0, left_infrared: 0, right_infrared: 0 }
    }
}

impl SensorReadings {
    pub open spec fn zero() -> SensorReadings {
        SensorReadings { front_distance: 0, left_distance: 0, left_infrared: 0, right_infrared: 0 }
    }
}

/// Direction in which a motor turns.
#[derive(Clone, Copy, Debug, PartialEq, Eq, Structural)]
pub enum Dir {
    Fd,
    Bk,
}

/// Which of the two wheels.
#[derive(Clone, Copy, Debug, PartialEq, Eq, Structural)]
pub enum Side {
    Left,
    Right,
}

pub open spec fn min_u16(a: u16, b: u16) -> u16 {
    if a <= b {
        a
    } else {
        b
    }
}

/// The two duty outputs of a motor and the ceiling they share.
pub struct MotorModel {
    pub ceiling: u16,
    pub forward: u16,
    pub backward: u16,
}

impl MotorModel {
    /// At most one output drives the motor, and neither exceeds the ceiling.
    pub open spec fn wf(self) -> bool {
        (self.forward == 0 || self.backward == 0) && self.forward <= self.ceiling
            && self.backward <= self.ceiling
    }

    pub open spec fn driven_forward(self, duty: u16) -> MotorModel {
        MotorModel { ceiling: self.ceiling, forward: min_u16(duty, self.ceiling), backward: 0 }
    }

    pub open spec fn driven_backward(self, duty: u16) -> MotorModel {
        MotorModel { ceiling: self.ceiling, forward: 0, backward: min_u16(duty, self.ceiling) }
    }

    pub open spec fn stopped(self) -> MotorModel {
        MotorModel { ceiling: self.ceiling, forward: 0, backward: 0 }
    }

    /// Duty and direction; a nonzero backward output decides the direction.
    pub open spec fn info(self) -> (u16, Dir) {
        if self.backward == 0 {
            (self.forward, Dir::Fd)
        } else {
            (self.backward, Dir::Bk)
        }
    }
}

/// A motor driven by a forward and a backward PWM duty output.
pub struct Motor {
    max_duty: u16,
    fd_duty: u16,
    bk_duty: u16,
}

impl View for Motor {
    type V = MotorModel;

    closed spec fn view(&self) -> MotorModel {
        MotorModel { ceiling: self.max_duty, forward: self.fd_duty, backward: self.bk_duty }
    }
}

impl Motor {
    #[verifier::type_invariant]
    spec fn outputs_exclusive(self) -> bool {
        self@.wf()
    }

    /// A motor with both outputs at zero, under the ceiling `max_duty`.
    pub fn new(max_duty: u16) -> (r: Motor)
        ensures
            r@ == (MotorModel { ceiling: max_duty, forward: 0, backward: 0 }),
    {
        Motor { max_duty, fd_duty: 0, bk_duty: 0 }
    }

    pub fn forward(&mut self, duty: u16)
        ensures
            final(self)@ == old(self)@.driven_forward(duty),
    {
        let d = if duty <= self.max_duty {
            duty
        } else {
            self.max_duty
        };
        *self = Motor { max_duty: self.max_duty, fd_duty: d, bk_duty: 0 };
    }

    pub fn backward(&mut self, duty: u16)
        ensures
            final(self)@ == old(self)@.driven_backward(duty),
    {
        let d = if duty <= self.max_duty {
            duty
        } else {
            self.max_duty
        };
        *self = Motor { max_duty: self.max_duty, fd_duty: 0, bk_duty: d };
    }

    pub fn stop(&mut self)
        ensures
            final(self)@ == old(self)@.stopped(),
    {
        self.forward(0);
    }

    pub fn get_info(&self) -> (r: (u16, Dir))
        ensures
            r == self@.info(),
    {
        if self.bk_duty == 0 {
            (self.fd_duty, Dir::Fd)
        } else {
            (self.bk_duty, Dir::Bk)
        }
    }

    /// The (forward, backward) output values, as the PWM peripheral reads them.
    pub fn get_outputs(&self) -> (r: (u16, u16))
        ensures
            r == (self@.forward, self@.backward),
    {
        (self.fd_duty, self.bk_duty)
    }

    pub fn get_max_duty(&self) -> (r: u16)
        ensures
            r == self@.ceiling,
    {
        self.max_duty
    }
}

/// Driving forward and then backward with a nonzero duty under a nonzero ceiling
/// leaves the backward output alone nonzero.
pub proof fn lemma_forward_then_backward(m: MotorModel, d: u16, d2: u16)
    requires
        d2 != 0,
        m.ceiling != 0,
    ensures
        m.driven_forward(d).driven_backward(d2).forward == 0,
        m.driven_forward(d).driven_backward(d2).backward != 0,
{
}

/// A forward duty above the ceiling is written as the ceiling.
pub proof fn lemma_forward_clamps(m: MotorModel, d: u16)
    requires
        d > m.ceiling,
    ensures
        m.driven_forward(d).forward == m.ceiling,
        m.driven_forward(d).backward == 0,
{
}

/// A one-shot encoder-tick counter: armed with a target, and disarmed when the
/// target is reached.
pub struct LockModel {
    pub armed: bool,
    pub target: u32,
}

pub struct MotionLock {
    armed: bool,
    target: u32,
}

impl View for MotionLock {
    type V = LockModel;

    closed spec fn view(&self) -> LockModel {
        LockModel { armed: self.armed, target: self.target }
    }
}

impl MotionLock {
    pub fn new() -> (r: MotionLock)
        ensures
            r@ == (LockModel { armed: false, target: 0 }),
    {
        MotionLock { armed: false, target: 0 }
    }

    /// Arms the lock for `ticks` wheel pulses, counted from zero.
    pub fn lock(&mut self, ticks: u32)
        ensures
            final(self)@ == (LockModel { armed: true, target: ticks }),
    {
        self.armed = true;
        self.target = ticks;
    }

    /// The target was reached: the counter disarms itself.
    pub fn release(&mut self)
        ensures
            final(self)@ == (LockModel { armed: false, target: old(self)@.target }),
    {
        self.armed = false;
    }

    pub fn is_locked(&self) -> (r: bool)
        ensures
            r == self@.armed,
    {
        self.armed
    }

    pub fn get_target(&self) -> (r: u32)
        ensures
            r == self@.target,
    {
        self.target
    }
}

/// A call that the navigation logic makes on the robot's motors, in the order made.
#[derive(Clone, Copy, Debug, PartialEq, Eq, Structural)]
pub enum Command {
    Forward(Side, u16),
    Backward(Side, u16),
    Lock(Side, u32),
    /// Block until both motors' duties read zero.
    WaitTillStopped,
}

/// Everything the robot holds.
pub struct RobotModel {
    pub readings: SensorReadings,
    pub left: MotorModel,
    pub right: MotorModel,
    pub left_lock: LockModel,
    pub right_lock: LockModel,
    pub config: NavConfig,
    pub commands: Seq<Command>,
}

impl RobotModel {
    /// The two motors share one duty ceiling.
    pub open spec fn wf(self) -> bool {
        self.left.ceiling == self.right.ceiling
    }

    /// The robot after one command: the motor or lock it names changes, and the
    /// command is recorded.
    pub open spec fn applied(self, c: Command) -> RobotModel {
        let s = RobotModel { commands: self.commands.push(c), ..self };
        match c {
            Command::Forward(Side::Left, d) => RobotModel {
                left: self.left.driven_forward(d),
                ..s
            },
            Command::Forward(Side::Right, d) => RobotModel {
                right: self.right.driven_forward(d),
                ..s
            },
            Command::Backward(Side::Left, d) => RobotModel {
                left: self.left.driven_backward(d),
                ..s
            },
            Command::Backward(Side::Right, d) => RobotModel {
                right: self.right.driven_backward(d),
                ..s
            },
            Command::Lock(Side::Left, t) => RobotModel {
                left_lock: LockModel { armed: true, target: t },
                ..s
            },
            Command::Lock(Side::Right, t) => RobotModel {
                right_lock: LockModel { armed: true, target: t },
                ..s
            },
            Command::WaitTillStopped => s,
        }
    }

    /// The robot after the first `n` commands of `cmds`, in order.
    pub open spec fn run_prefix(self, cmds: Seq<Command>, n: nat) -> RobotModel
        decreases n,
    {
        if n == 0 {
            self
        } else {
            self.run_prefix(cmds, (n - 1) as nat).applied(cmds[n - 1])
        }
    }

    pub open spec fn run(self, cmds: Seq<Command>) -> RobotModel {
        self.run_prefix(cmds, cmds.len())
    }

    /// The robot after the completion event of the lock on `side`: the lock
    /// disarms and both outputs of that motor drop to zero.
    pub open spec fn lock_expired(self, side: Side) -> RobotModel {
        match side {
            Side::Left => RobotModel {
                left: self.left.stopped(),
                left_lock: LockModel { armed: false, target: self.left_lock.target },
                ..self
            },
            Side::Right => RobotModel {
                right: self.right.stopped(),
                right_lock: LockModel { armed: false, target: self.right_lock.target },
                ..self
            },
        }
    }
}

/// Running the commands one by one is running them as a sequence.
pub proof fn lemma_run_push(m: RobotModel, cmds: Seq<Command>, c: Command)
    ensures
        m.run(cmds.push(c)) == m.run(cmds).applied(c),
{
    let s = cmds.push(c);
    assert forall|k: nat| k <= cmds.len() implies m.run_prefix(s, k) == m.run_prefix(cmds, k) by {
        lemma_run_prefix_agree(m, s, cmds, k);
    }
}

proof fn lemma_run_prefix_agree(m: RobotModel, a: Seq<Command>, b: Seq<Command>, k: nat)
    requires
        k <= a.len(),
        k <= b.len(),
        forall|i: int| 0 <= i < k ==> a[i] == b[i],
    ensures
        m.run_prefix(a, k) == m.run_prefix(b, k),
    decreases k,
{
    if k > 0 {
        lemma_run_prefix_agree(m, a, b, (k - 1) as nat);
    }
}

/// Running commands records them after the earlier ones and leaves the readings
/// and thresholds alone.
pub proof fn lemma_run_records(m: RobotModel, cmds: Seq<Command>)
    ensures
        m.run(cmds).commands == m.commands + cmds,
        m.run(cmds).readings == m.readings,
        m.run(cmds).config == m.config,
{
    lemma_run_prefix_records(m, cmds, cmds.len());
    assert(cmds.subrange(0, cmds.len() as int) =~= cmds);
}

proof fn lemma_run_prefix_records(m: RobotModel, cmds: Seq<Command>, n: nat)
    requires
        n <= cmds.len(),
    ensures
        m.run_prefix(cmds, n).commands == m.commands + cmds.subrange(0, n as int),
        m.run_prefix(cmds, n).readings == m.readings,
        m.run_prefix(cmds, n).config == m.config,
    decreases n,
{
    if n == 0 {
        assert(m.commands + cmds.subrange(0, 0) =~= m.commands);
    } else {
        lemma_run_prefix_records(m, cmds, (n - 1) as nat);
        assert((m.commands + cmds.subrange(0, n - 1)).push(cmds[n - 1]) =~= m.commands
            + cmds.subrange(0, n as int));
    }
}

/// Running commands never changes a motor's ceiling.
pub proof fn lemma_run_keeps_ceilings(m: RobotModel, cmds: Seq<Command>)
    ensures
        m.run(cmds).left.ceiling == m.left.ceiling,
        m.run(cmds).right.ceiling == m.right.ceiling,
{
    lemma_run_prefix_keeps_ceilings(m, cmds, cmds.len());
}

proof fn lemma_run_prefix_keeps_ceilings(m: RobotModel, cmds: Seq<Command>, n: nat)
    ensures
        m.run_prefix(cmds, n).left.ceiling == m.left.ceiling,
        m.run_prefix(cmds, n).right.ceiling == m.right.ceiling,
    decreases n,
{
    if n > 0 {
        lemma_run_prefix_keeps_ceilings(m, cmds, (n - 1) as nat);
    }
}

/// Motors and locks after running commands depend on the motors, the locks and
/// the commands alone.
pub proof fn lemma_run_same_drive(a: RobotModel, b: RobotModel, cmds: Seq<Command>)
    requires
        a.left == b.left,
        a.right == b.right,
        a.left_lock == b.left_lock,
        a.right_lock == b.right_lock,
    ensures
        a.run(cmds).left == b.run(cmds).left,
        a.run(cmds).right == b.run(cmds).right,
        a.run(cmds).left_lock == b.run(cmds).left_lock,
        a.run(cmds).right_lock == b.run(cmds).right_lock,
{
    lemma_run_prefix_same_drive(a, b, cmds, cmds.len());
}

proof fn lemma_run_prefix_same_drive(a: RobotModel, b: RobotModel, cmds: Seq<Command>, n: nat)
    requires
        a.left == b.left,
        a.right == b.right,
        a.left_lock == b.left_lock,
        a.right_lock == b.right_lock,
    ensures
        a.run_prefix(cmds, n).left == b.run_prefix(cmds, n).left,
        a.run_prefix(cmds, n).right == b.run_prefix(cmds, n).right,
        a.run_prefix(cmds, n).left_lock == b.run_prefix(cmds, n).left_lock,
        a.run_prefix(cmds, n).right_lock == b.run_prefix(cmds, n).right_lock,
    decreases n,
{
    if n > 0 {
        lemma_run_prefix_same_drive(a, b, cmds, (n - 1) as nat);
    }
}

/// The sensor snapshot, the two motors and their motion locks, owned by the
/// control loop.
pub struct Robot {
    sensors: SensorReadings,
    left_motor: Motor,
    right_motor: Motor,
    left_lock: MotionLock,
    right_lock: MotionLock,
    config: NavConfig,
    commands: Vec<Command>,
}

impl View for Robot {
    type V = RobotModel;

    closed spec fn view(&self) -> RobotModel {
        RobotModel {
            readings: self.sensors,
            left: self.left_motor@,
            right: self.right_motor@,
            left_lock: self.left_lock@,
            right_lock: self.right_lock@,
            config: self.config,
            commands: self.commands@,
        }
    }
}

impl Robot {
    /// A robot with zeroed readings, idle locks, no recorded commands and the
    /// standard thresholds.
    pub fn new(left_motor: Motor, right_motor: Motor) -> (r: Self)
        requires
            left_motor@.ceiling == right_motor@.ceiling,
        ensures
            r@ == (RobotModel {
                readings: SensorReadings::zero(),
                left: left_motor@,
                right: right_motor@,
                left_lock: LockModel { armed: false, target: 0 },
                right_lock: LockModel { armed: false, target: 0 },
                config: NavConfig::standard(),
                commands: Seq::empty(),
            }),
            r@.wf(),
    {
        Self::with_config(left_motor, right_motor, NavConfig::default())
    }

    /// As `new`, with the thresholds of `config`.
    pub fn with_config(left_motor: Motor, right_motor: Motor, config: NavConfig) -> (r: Self)
        requires
            left_motor@.ceiling == right_motor@.ceiling,
        ensures
            r@ == (RobotModel {
                readings: SensorReadings::zero(),
                left: left_motor@,
                right: right_motor@,
                left_lock: LockModel { armed: false, target: 0 },
                right_lock: LockModel { armed: false, target: 0 },
                config: config,
                commands: Seq::empty(),
            }),
            r@.wf(),
    {
        Robot {
            sensors: SensorReadings::default(),
            left_motor,
            right_motor,
            left_lock: MotionLock::new(),
            right_lock: MotionLock::new(),
            config,
            commands: Vec::new(),
        }
    }

    /// Replaces the whole snapshot.
    pub fn update_sensors(&mut self, sr: SensorReadings)
        ensures
            final(self)@ == (RobotModel { readings: sr, ..old(self)@ }),
    {
        self.sensors = sr;
    }

    pub fn get_sensor_readings(&self) -> (r: &SensorReadings)
        ensures
            *r == self@.readings,
    {
        &self.sensors
    }

    pub fn get_config(&self) -> (r: NavConfig)
        ensures
            r == self@.config,
    {
        self.config
    }

    /// The duty ceiling that both motors share.
    pub fn get_max_duty(&self) -> (r: u16)
        ensures
            r == self@.left.ceiling,
            self@.wf() ==> r == self@.right.ceiling,
    {
        self.left_motor.get_max_duty()
    }

    /// The left motor. Driving it keeps its ceiling; a motor put in its place
    /// must have the robot's ceiling for the robot to stay well formed.
    pub fn left_motor(&mut self) -> (m: &mut Motor)
        ensures
            m@ == old(self)@.left,
            final(self)@ == (RobotModel { left: final(m)@, ..old(self)@ }),
    {
        &mut self.left_motor
    }

    /// The right motor, on the same terms as `left_motor`.
    pub fn right_motor(&mut self) -> (m: &mut Motor)
        ensures
            m@ == old(self)@.right,
            final(self)@ == (RobotModel { right: final(m)@, ..old(self)@ }),
    {
        &mut self.right_motor
    }

    /// Makes one motor call, or arms a lock, and records it.
    pub fn issue(&mut self, c: Command)
        ensures
            final(self)@ == old(self)@.applied(c),
    {
        match c {
            Command::Forward(Side::Left, d) => self.left_motor.forward(d),
            Command::Forward(Side::Right, d) => self.right_motor.forward(d),
            Command::Backward(Side::Left, d) => self.left_motor.backward(d),
            Command::Backward(Side::Right, d) => self.right_motor.backward(d),
            Command::Lock(Side::Left, t) => self.left_lock.lock(t),
            Command::Lock(Side::Right, t) => self.right_lock.lock(t),
            Command::WaitTillStopped => {},
        }
        self.commands.push(c);
    }

    /// Arms the left wheel's lock for `ticks` encoder pulses.
    pub fn lock_left_motor(&mut self, ticks: u32)
        ensures
            final(self)@ == old(self)@.applied(Command::Lock(Side::Left, ticks)),
    {
        self.issue(Command::Lock(Side::Left, ticks));
    }

    /// Arms the right wheel's lock for `ticks` encoder pulses.
    pub fn lock_right_motor(&mut self, ticks: u32)
        ensures
            final(self)@ == old(self)@.applied(Command::Lock(Side::Right, ticks)),
    {
        self.issue(Command::Lock(Side::Right, ticks));
    }

    /// Handles the completion event of the lock on `side`: hard stop of that
    /// motor, whatever its direction, and the lock disarms.
    pub fn lock_expired(&mut self, side: Side)
        ensures
            final(self)@ == old(self)@.lock_expired(side),
    {
        match side {
            Side::Left => {
                self.left_lock.release();
                self.left_motor.stop();
            },
            Side::Right => {
                self.right_lock.release();
                self.right_motor.stop();
            },
        }
    }

    pub fn is_locked(&self, side: Side) -> (r: bool)
        ensures
            r == match side {
                Side::Left => self@.left_lock.armed,
                Side::Right => self@.right_lock.armed,
            },
    {
        match side {
            Side::Left => self.left_lock.is_locked(),
            Side::Right => self.right_lock.is_locked(),
        }
    }

    /// Whether both motors' duties read zero: the end of a wait.
    pub fn is_stopped(&self) -> (r: bool)
        ensures
            r == (self@.left.info().0 == 0 && self@.right.info().0 == 0),
    {
        self.left_motor.get_info().0 == 0 && self.right_motor.get_info().0 == 0
    }

    /// Hands out the recorded commands, oldest first, and forgets them.
    pub fn take_commands(&mut self) -> (r: Vec<Command>)
        ensures
            r@ == old(self)@.commands,
            final(self)@ == (RobotModel { commands: Seq::empty(), ..old(self)@ }),
    {
        let mut out: Vec<Command> = Vec::new();
        std::mem::swap(&mut out, &mut self.commands);
        out
    }
}

} // verus!
