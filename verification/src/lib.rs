//! Register-level driver for the MCP9600/MCP9601 thermocouple-to-digital
//! converter on a two-wire (I2C) bus.
//!
//! The driver owns a bus transport, converts raw register contents into
//! temperatures (sixteenths of a degree Celsius), runs a three-step
//! self-check (device identity, thermocouple wiring, cold-junction
//! plausibility), and configures the thermocouple type.

pub mod driver;
pub mod mock;
pub mod transport;

pub use driver::Error;
pub use driver::Mcp9601;
pub use driver::SensorData;
pub use driver::Temperature;
