pub mod sensor;
