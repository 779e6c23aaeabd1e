pub mod factory;
pub mod sensor;
pub mod utility;
