pub mod configurations;
pub mod measurement;
pub mod response;
