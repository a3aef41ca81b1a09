//! Register-level logic for a flight controller's sensor suite: the BMP581
//! barometer, the ICM-45686 inertial unit, the MMC5983 magnetometer and the
//! NEO-M9N GNSS receiver. Every function here builds the bytes that go on the
//! bus or decodes the bytes that come back; moving them is left to the caller.
pub mod bytes;
pub mod bmp581;
pub mod icm45686;
pub mod mmc5983;
pub mod neom9n;
