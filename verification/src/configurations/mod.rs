pub mod sensors;
