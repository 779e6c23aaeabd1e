pub mod condition;
pub mod error;
pub mod failure;
pub mod kind;
pub mod proximity;
