//! Sensing core of an I²C sensor node: typed readings, their classification,
//! the driver registry, the cycle that gathers one report, and the report's
//! wire form.

pub mod abstractions;
pub mod bus;
pub mod config;
pub mod configurations;
pub mod constants;
pub mod dtos;
pub mod enums;
pub mod factories;
pub mod identity;
pub mod sensors;
pub mod services;
pub mod values;
pub mod wire;
