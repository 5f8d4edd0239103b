use vstd::prelude::*;

verus! {

/// Which of a motor's two PWM outputs carries the duty.
#[derive(Clone, Copy, Debug, PartialEq, Eq, Structural)]
pub enum Direction {
    Forward,
    Backward,
}

/// The values of a motor's (forward, backward) outputs that drive it at `duty`
/// in `direction`; the other output is zero.
pub fn duty_outputs(duty: u16, direction: Direction) -> (r: (u16, u16))
    ensures
        r == match direction {
            Direction::Forward => (duty, 0u16),
            Direction::Backward => (0u16, duty),
        },
{
    match direction {
        Direction::Forward => (duty, 0),
        Direction::Backward => (0, duty),
    }
}

/// `duty` limited to the range of a 16-bit output, either way round.
pub open spec fn clamped_signed_duty(duty: i32) -> int {
    if duty > 0xFFFF {
        0xFFFF
    } else if duty < -0xFFFF {
        -0xFFFF
    } else {
        duty as int
    }
}

/// The (forward, backward) output values for a signed duty, limited to
/// `u16::MAX` either way: a positive duty goes to the forward output, the size
/// of a negative one to the backward output.
pub fn signed_duty_outputs(duty: i32) -> (r: (u16, u16))
    ensures
        clamped_signed_duty(duty) > 0 ==> r == (clamped_signed_duty(duty) as u16, 0u16),
        clamped_signed_duty(duty) <= 0 ==> r.0 == 0 && r.1 as int == -clamped_signed_duty(duty),
{
    let d: i32 = if duty > 0xFFFF {
        0xFFFF
    } else if duty < -0xFFFF {
        -0xFFFF
    } else {
        duty
    };
    if d > 0 {
        (d as u16, 0)
    } else {
        (0, (-d) as u16)
    }
}

} // verus!
