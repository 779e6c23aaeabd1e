pub mod datetime;
pub mod digits;
pub mod fixed;
pub mod root;
pub mod text;
