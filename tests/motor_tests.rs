use my_hal::robot::{Dir, Motor, MotionLock};

#[test]
fn new_motor_is_idle() {
    let m = Motor::new(1000);
    assert_eq!(m.get_outputs(), (0, 0));
    assert_eq!(m.get_info(), (0, Dir::Fd));
    assert_eq!(m.get_max_duty(), 1000);
}

#[test]
fn forward_above_ceiling_is_clamped() {
    let mut m = Motor::new(1000);
    m.forward(5000);
    assert_eq!(m.get_outputs(), (1000, 0));
    assert_eq!(m.get_info(), (1000, Dir::Fd));
}

#[test]
fn forward_below_ceiling_is_kept() {
    let mut m = Motor::new(1000);
    m.forward(999);
    assert_eq!(m.get_outputs(), (999, 0));
}

#[test]
fn backward_above_ceiling_is_clamped() {
    let mut m = Motor::new(u16::MAX);
    m.backward(u16::MAX);
    assert_eq!(m.get_info(), (u16::MAX, Dir::Bk));
    let mut m = Motor::new(300);
    m.backward(301);
    assert_eq!(m.get_outputs(), (0, 300));
}

#[test]
fn forward_then_backward_leaves_one_output() {
    let mut m = Motor::new(60000);
    m.forward(40000);
    m.backward(20000);
    assert_eq!(m.get_outputs(), (0, 20000));
    assert_eq!(m.get_info(), (20000, Dir::Bk));
}

#[test]
fn backward_then_forward_leaves_one_output() {
    let mut m = Motor::new(60000);
    m.backward(40000);
    m.forward(20000);
    assert_eq!(m.get_outputs(), (20000, 0));
    assert_eq!(m.get_info(), (20000, Dir::Fd));
}

#[test]
fn backward_zero_stops_both_outputs() {
    let mut m = Motor::new(60000);
    m.forward(40000);
    m.backward(0);
    assert_eq!(m.get_outputs(), (0, 0));
    assert_eq!(m.get_info(), (0, Dir::Fd));
}

#[test]
fn stop_zeroes_both_outputs() {
    let mut m = Motor::new(60000);
    m.backward(10);
    m.stop();
    assert_eq!(m.get_outputs(), (0, 0));
    assert_eq!(m.get_max_duty(), 60000);
}

#[test]
fn zero_ceiling_keeps_motor_still() {
    let mut m = Motor::new(0);
    m.forward(100);
    assert_eq!(m.get_outputs(), (0, 0));
    m.backward(100);
    assert_eq!(m.get_outputs(), (0, 0));
}

#[test]
fn motion_lock_arms_and_releases() {
    let mut l = MotionLock::new();
    assert!(!l.is_locked());
    l.lock(17);
    assert!(l.is_locked());
    assert_eq!(l.get_target(), 17);
    l.release();
    assert!(!l.is_locked());
    assert_eq!(l.get_target(), 17);
    l.lock(0);
    assert!(l.is_locked());
    assert_eq!(l.get_target(), 0);
}
