pub mod accel;
