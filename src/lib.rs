pub mod gamepad;
pub mod graphic;
pub mod input;
pub mod link;
pub mod moving_sum;
pub mod signal;
pub mod vehicle;
pub mod wire;
