//! Gateway descriptors as the device list declares them.

pub mod modbus;
