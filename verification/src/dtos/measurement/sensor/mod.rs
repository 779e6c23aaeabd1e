pub mod bh1750;
pub mod bme280;
pub mod ds323x;
pub mod lsm303dlhc;
pub mod vl53l0x;
