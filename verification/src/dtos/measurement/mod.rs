pub mod base;
pub mod sample;
pub mod sensor;
