pub mod mag;
