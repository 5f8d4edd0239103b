//! Navigation logic for a two-wheeled line-following, obstacle-avoiding robot:
//! ultrasonic edge timing, PWM motor duty outputs, encoder-tick motion locks and
//! the navigation state machine. Register access and interrupts live outside.
pub mod distance;
pub mod robot;
pub mod states;
pub mod timers;
