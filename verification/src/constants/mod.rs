pub mod condition;
pub mod distance;
pub mod sensor;
pub mod unit;
