pub mod camera;
pub mod frame;
pub mod input;
pub mod orbit;
pub mod pacer;
pub mod parity;
pub mod projection;
pub mod time;
