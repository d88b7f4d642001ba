//! The sensor driver: register map, temperature conversion, self-check and
//! thermocouple-type configuration.

use crate::transport::I2cTransport;
use crate::transport::Transaction;
use vstd::prelude::*;

verus! {

/// Bus address of the chip. Provisional: the address pins have not been
/// confirmed against the board schematic.
pub const ADDRESS: u8 = 0x61;

/// Thermocouple-measured (hot-junction) temperature register.
pub const HOT_JUNCTION_REG: u8 = 0x00;
/// Hot-minus-cold junction delta register (defined by the device, unread here).
pub const DELTA_JUNCTION_REG: u8 = 0x01;
/// Ambient reference (cold-junction) temperature register.
pub const COLD_JUNCTION_REG: u8 = 0x02;
/// Start of the unprocessed ADC counts (defined by the device, unread here).
pub const ADC_RAW_START_REG: u8 = 0x03;
/// Status register; bits 4 and 5 flag an open or shorted thermocouple.
pub const STATUS_REG: u8 = 0x04;
/// Thermocouple-type configuration register.
pub const THERMOCOUPLE_CONFIG_REG: u8 = 0x05;
/// Filter and resolution configuration register.
pub const DEVICE_CONFIG_REG: u8 = 0x06;
/// Device identity register; 0x40 and 0x41 are the two supported variants.
pub const DEVICE_ID_REG: u8 = 0x20;

/// The signed 16-bit value encoded big-endian by the bytes `hi`, `lo`.
pub open spec fn sign_extended16(hi: u8, lo: u8) -> int {
    if hi >= 0x80 {
        (hi as int) * 256 + (lo as int) - 0x10000
    } else {
        (hi as int) * 256 + (lo as int)
    }
}

/// A temperature as the device reports it: a signed count of sixteenths of a
/// degree Celsius (the device's registers are scaled 0.0625 degC per count).
#[derive(Clone, Copy, Debug, PartialEq, Eq, Structural)]
pub struct Temperature {
    raw: i16,
}

impl Temperature {
    /// The count of sixteenths of a degree Celsius.
    pub closed spec fn spec_raw(self) -> int {
        self.raw as int
    }

    /// Decodes a two-byte big-endian register payload.
    pub fn from_be_bytes(hi: u8, lo: u8) -> (r: Temperature)
        ensures
            r.spec_raw() == sign_extended16(hi, lo),
    {
        let magnitude: i32 = (hi as i32) * 256 + (lo as i32);
        let value: i32 = if magnitude >= 0x8000 {
            magnitude - 0x10000
        } else {
            magnitude
        };
        Temperature { raw: value as i16 }
    }

    /// The count of sixteenths of a degree Celsius.
    pub fn raw_sixteenths(&self) -> (r: i16)
        ensures
            r as int == self.spec_raw(),
    {
        self.raw
    }
}

/// One reading of both junctions, produced fresh on each query.
#[derive(Clone, Copy, Debug, PartialEq, Eq, Structural)]
pub struct SensorData {
    /// Hot-junction (thermocouple-tip) temperature.
    pub remote_temperature_c: Temperature,
    /// Cold-junction (ambient reference) temperature.
    pub local_temperature_c: Temperature,
}

/// A driver error.
#[derive(Debug, PartialEq)]
pub enum Error<E> {
    /// Bus transport failure, carried verbatim from the transport.
    I2c(E),
    /// The identity register named a device this driver does not support.
    WrongSensor,
    /// The status register flags an open or shorted thermocouple.
    WiringFault,
    /// The cold-junction reading is physically implausible.
    ColdJunctionFault,
    /// The requested thermocouple type is not in the supported set.
    ConfigFault,
}

/// The identity byte names one of the two supported chip variants.
pub open spec fn identity_ok(id: u8) -> bool {
    id == 0x40 || id == 0x41
}

/// The status byte reports no open or short circuit on the thermocouple
/// leads (bits 4 and 5 clear); all other status bits are ignored.
pub open spec fn wiring_ok(status: u8) -> bool {
    status & 0x30 == 0
}

/// Lowest plausible cold-junction reading, in sixteenths of a degree
/// Celsius (-40 degC).
pub const COLD_JUNCTION_MIN_SIXTEENTHS: i16 = -640;

/// Highest plausible cold-junction reading, in sixteenths of a degree
/// Celsius (85 degC).
pub const COLD_JUNCTION_MAX_SIXTEENTHS: i16 = 1360;

/// A cold-junction reading of `raw` sixteenths of a degree is plausible:
/// neither above 85 degC nor below -40 degC.
pub open spec fn cold_junction_ok(raw: int) -> bool {
    COLD_JUNCTION_MIN_SIXTEENTHS <= raw && raw <= COLD_JUNCTION_MAX_SIXTEENTHS
}

/// The configuration byte selecting thermocouple type `t`, or `None` for a
/// type outside the supported set. The upper nibble selects the type; the
/// lower nibble, always zero, keeps the default filter coefficient.
pub open spec fn spec_thermocouple_config(t: char) -> Option<u8> {
    if t == 'K' {
        Some(0x00)
    } else if t == 'J' {
        Some(0x10)
    } else if t == 'T' {
        Some(0x20)
    } else if t == 'N' {
        Some(0x30)
    } else if t == 'S' {
        Some(0x40)
    } else if t == 'E' {
        Some(0x50)
    } else if t == 'B' {
        Some(0x60)
    } else if t == 'R' {
        Some(0x70)
    } else {
        None
    }
}

/// Decides whether the identity byte is acceptable.
pub fn check_identity(id: u8) -> (r: bool)
    ensures
        r == identity_ok(id),
{
    id == 0x40 || id == 0x41
}

/// Decides whether the status byte reports intact wiring.
pub fn check_wiring(status: u8) -> (r: bool)
    ensures
        r == wiring_ok(status),
{
    status & 0x30 == 0
}

/// Decides whether a cold-junction reading is plausible.
pub fn check_cold_junction(t: Temperature) -> (r: bool)
    ensures
        r == cold_junction_ok(t.spec_raw()),
{
    let raw = t.raw_sixteenths();
    COLD_JUNCTION_MIN_SIXTEENTHS <= raw && raw <= COLD_JUNCTION_MAX_SIXTEENTHS
}

/// Looks up the configuration byte for thermocouple type `t`.
pub fn thermocouple_config(t: char) -> (r: Option<u8>)
    ensures
        r == spec_thermocouple_config(t),
{
    match t {
        'K' => Some(0x00),
        'J' => Some(0x10),
        'T' => Some(0x20),
        'N' => Some(0x30),
        'S' => Some(0x40),
        'E' => Some(0x50),
        'B' => Some(0x60),
        'R' => Some(0x70),
        _ => None,
    }
}

/// Transactions `h[i]` and `h[i + 1]` are the identity query: the register
/// address written, then one byte read whose value passes iff `pass`.
pub open spec fn identity_step(h: Seq<Transaction>, i: int, pass: bool) -> bool {
    &&& h[i] == (Transaction::Write { addr: ADDRESS, bytes: seq![DEVICE_ID_REG] })
    &&& h[i + 1] matches Transaction::Read { addr, bytes } && addr == ADDRESS && bytes.len() == 1
        && pass == identity_ok(bytes[0])
}

/// Transactions `h[i]` and `h[i + 1]` are the wiring query: the status
/// register address written, then one byte read that passes iff `pass`.
pub open spec fn wiring_step(h: Seq<Transaction>, i: int, pass: bool) -> bool {
    &&& h[i] == (Transaction::Write { addr: ADDRESS, bytes: seq![STATUS_REG] })
    &&& h[i + 1] matches Transaction::Read { addr, bytes } && addr == ADDRESS && bytes.len() == 1
        && pass == wiring_ok(bytes[0])
}

/// Transactions `h[i]` and `h[i + 1]` are the cold-junction query: the
/// register address written, then two bytes read whose decoded temperature
/// is plausible iff `pass`.
pub open spec fn cold_junction_step(h: Seq<Transaction>, i: int, pass: bool) -> bool {
    &&& h[i] == (Transaction::Write { addr: ADDRESS, bytes: seq![COLD_JUNCTION_REG] })
    &&& h[i + 1] matches Transaction::Read { addr, bytes } && addr == ADDRESS && bytes.len() == 2
        && pass == cold_junction_ok(sign_extended16(bytes[0], bytes[1]))
}

/// The two writes a successful `set_sensor` issues: the thermocouple
/// configuration byte, then zero to restore the default device
/// configuration.
pub open spec fn set_sensor_writes(cfg: u8) -> Seq<Transaction> {
    seq![
        (Transaction::Write { addr: ADDRESS, bytes: seq![THERMOCOUPLE_CONFIG_REG, cfg] }),
        (Transaction::Write { addr: ADDRESS, bytes: seq![DEVICE_CONFIG_REG, 0u8] }),
    ]
}

/// A sensor on the bus transport `I`, which it owns exclusively.
pub struct Mcp9601<I: I2cTransport>(I);

impl<I: I2cTransport> Mcp9601<I> {
    /// The transport this handle owns.
    pub closed spec fn transport(self) -> I {
        self.0
    }

    /// Initializes the driver, taking ownership of the transport.
    /// Performs no bus activity.
    pub fn init(i2c: I) -> (r: Self)
        ensures
            r.transport() == i2c,
    {
        Mcp9601(i2c)
    }

    /// Runs the three-step self-test over the bus: device identity, then
    /// thermocouple wiring, then cold-junction plausibility. Each step is one
    /// register query (address written, contents read), and the first failing
    /// step short-circuits the rest. A transport failure aborts immediately
    /// and is carried verbatim.
    pub fn self_check(&mut self) -> (r: Result<(), Error<I::BusError>>)
        ensures
            old(self).transport().history().is_prefix_of(final(self).transport().history()),
            ({
                let h0 = old(self).transport().history();
                let h = final(self).transport().history();
                let n = h0.len() as int;
                match r {
                    Ok(()) => {
                        &&& h.len() == n + 6
                        &&& identity_step(h, n, true)
                        &&& wiring_step(h, n + 2, true)
                        &&& cold_junction_step(h, n + 4, true)
                    },
                    Err(Error::WrongSensor) => {
                        &&& h.len() == n + 2
                        &&& identity_step(h, n, false)
                    },
                    Err(Error::WiringFault) => {
                        &&& h.len() == n + 4
                        &&& identity_step(h, n, true)
                        &&& wiring_step(h, n + 2, false)
                    },
                    Err(Error::ColdJunctionFault) => {
                        &&& h.len() == n + 6
                        &&& identity_step(h, n, true)
                        &&& wiring_step(h, n + 2, true)
                        &&& cold_junction_step(h, n + 4, false)
                    },
                    Err(Error::I2c(_)) => {
                        &&& h.len() <= n + 5
                        &&& h.len() >= n + 1 ==> h[n] == (Transaction::Write {
                            addr: ADDRESS,
                            bytes: seq![DEVICE_ID_REG],
                        })
                        &&& h.len() >= n + 2 ==> identity_step(h, n, true)
                        &&& h.len() >= n + 3 ==> h[n + 2] == (Transaction::Write {
                            addr: ADDRESS,
                            bytes: seq![STATUS_REG],
                        })
                        &&& h.len() >= n + 4 ==> wiring_step(h, n + 2, true)
                        &&& h.len() == n + 5 ==> h[n + 4] == (Transaction::Write {
                            addr: ADDRESS,
                            bytes: seq![COLD_JUNCTION_REG],
                        })
                    },
                    Err(Error::ConfigFault) => false,
                }
            }),
    {
        // Identity: the device at this address must be a supported variant.
        let cmd: Vec<u8> = vec![DEVICE_ID_REG];
        proof {
            assert(cmd@ =~= seq![DEVICE_ID_REG]);
        }
        match self.0.bus_write(ADDRESS, cmd.as_slice()) {
            Ok(()) => {},
            Err(e) => {
                return Err(Error::I2c(e));
            },
        }
        let mut rd_buffer: Vec<u8> = vec![0u8];
        match self.0.bus_read(ADDRESS, &mut rd_buffer) {
            Ok(()) => {},
            Err(e) => {
                return Err(Error::I2c(e));
            },
        }
        if !check_identity(rd_buffer[0]) {
            return Err(Error::WrongSensor);
        }

        // Wiring: the status register must not flag an open or short circuit.
        let cmd: Vec<u8> = vec![STATUS_REG];
        proof {
            assert(cmd@ =~= seq![STATUS_REG]);
        }
        match self.0.bus_write(ADDRESS, cmd.as_slice()) {
            Ok(()) => {},
            Err(e) => {
                return Err(Error::I2c(e));
            },
        }
        match self.0.bus_read(ADDRESS, &mut rd_buffer) {
            Ok(()) => {},
            Err(e) => {
                return Err(Error::I2c(e));
            },
        }
        if !check_wiring(rd_buffer[0]) {
            return Err(Error::WiringFault);
        }

        // Cold junction: the ambient reference reading must be plausible.
        let cmd: Vec<u8> = vec![COLD_JUNCTION_REG];
        proof {
            assert(cmd@ =~= seq![COLD_JUNCTION_REG]);
        }
        match self.0.bus_write(ADDRESS, cmd.as_slice()) {
            Ok(()) => {},
            Err(e) => {
                return Err(Error::I2c(e));
            },
        }
        let mut t_rd_buffer: Vec<u8> = vec![0u8, 0u8];
        match self.0.bus_read(ADDRESS, &mut t_rd_buffer) {
            Ok(()) => {},
            Err(e) => {
                return Err(Error::I2c(e));
            },
        }
        let value = Temperature::from_be_bytes(t_rd_buffer[0], t_rd_buffer[1]);
        if !check_cold_junction(value) {
            return Err(Error::ColdJunctionFault);
        }
        Ok(())
    }

    /// Reads the thermocouple (hot-junction) temperature: one register query
    /// of two bytes, decoded big-endian signed. No plausibility check is
    /// applied; the caller gets whatever the device reports.
    pub fn get_hot_junction(&mut self) -> (r: Result<Temperature, Error<I::BusError>>)
        ensures
            old(self).transport().history().is_prefix_of(final(self).transport().history()),
            ({
                let h0 = old(self).transport().history();
                let h = final(self).transport().history();
                let n = h0.len() as int;
                match r {
                    Ok(t) => {
                        &&& h.len() == n + 2
                        &&& h[n] == (Transaction::Write {
                            addr: ADDRESS,
                            bytes: seq![HOT_JUNCTION_REG],
                        })
                        &&& h[n + 1] matches Transaction::Read { addr, bytes } && addr == ADDRESS
                            && bytes.len() == 2 && t.spec_raw() == sign_extended16(
                            bytes[0],
                            bytes[1],
                        )
                    },
                    Err(Error::I2c(_)) => {
                        &&& h.len() <= n + 1
                        &&& h.len() == n + 1 ==> h[n] == (Transaction::Write {
                            addr: ADDRESS,
                            bytes: seq![HOT_JUNCTION_REG],
                        })
                    },
                    Err(_) => false,
                }
            }),
    {
        let cmd: Vec<u8> = vec![HOT_JUNCTION_REG];
        proof {
            assert(cmd@ =~= seq![HOT_JUNCTION_REG]);
        }
        match self.0.bus_write(ADDRESS, cmd.as_slice()) {
            Ok(()) => {},
            Err(e) => {
                return Err(Error::I2c(e));
            },
        }
        let mut buffer: Vec<u8> = vec![0u8, 0u8];
        match self.0.bus_read(ADDRESS, &mut buffer) {
            Ok(()) => {},
            Err(e) => {
                return Err(Error::I2c(e));
            },
        }
        let t = Temperature::from_be_bytes(buffer[0], buffer[1]);
        Ok(t)
    }

    /// Configures the thermocouple type: validates the requested type before
    /// any bus activity, then writes the configuration byte and finally zero
    /// to the device-configuration register (default filter and resolution).
    /// An unsupported type fails with `ConfigFault` and writes nothing.
    pub fn set_sensor(&mut self, thermocouple_type: char) -> (r: Result<(), Error<I::BusError>>)
        ensures
            old(self).transport().history().is_prefix_of(final(self).transport().history()),
            ({
                let h0 = old(self).transport().history();
                let h = final(self).transport().history();
                let cfg = spec_thermocouple_config(thermocouple_type);
                match r {
                    Ok(()) => cfg matches Some(c) && h == h0 + set_sensor_writes(c),
                    Err(Error::ConfigFault) => cfg is None && h == h0,
                    Err(Error::I2c(_)) => cfg matches Some(c) && (h == h0 || h == h0.push(
                        (Transaction::Write {
                            addr: ADDRESS,
                            bytes: seq![THERMOCOUPLE_CONFIG_REG, c],
                        }),
                    )),
                    Err(_) => false,
                }
            }),
    {
        let cfg = match thermocouple_config(thermocouple_type) {
            Some(c) => c,
            None => {
                return Err(Error::ConfigFault);
            },
        };
        let ghost h0 = self.0.history();
        let wr_buffer: Vec<u8> = vec![THERMOCOUPLE_CONFIG_REG, cfg];
        proof {
            assert(wr_buffer@ =~= seq![THERMOCOUPLE_CONFIG_REG, cfg]);
        }
        match self.0.bus_write(ADDRESS, wr_buffer.as_slice()) {
            Ok(()) => {},
            Err(e) => {
                return Err(Error::I2c(e));
            },
        }
        let wr_buffer: Vec<u8> = vec![DEVICE_CONFIG_REG, 0u8];
        proof {
            assert(wr_buffer@ =~= seq![DEVICE_CONFIG_REG, 0u8]);
        }
        match self.0.bus_write(ADDRESS, wr_buffer.as_slice()) {
            Ok(()) => {},
            Err(e) => {
                return Err(Error::I2c(e));
            },
        }
        proof {
            assert(self.0.history() =~= h0 + set_sensor_writes(cfg));
        }
        Ok(())
    }

    /// Destroys this driver and releases the transport to the caller.
    /// Performs no bus activity.
    pub fn destroy(self) -> (r: I)
        ensures
            r == self.transport(),
    {
        self.0
    }
}

/// Law: a transport wrapped by `init` and released by `destroy` comes back
/// as the very transport supplied, its transaction log included, so the
/// round trip performs no bus activity.
pub fn transport_round_trip<I: I2cTransport>(transport: I) -> (r: I)
    ensures
        r == transport,
        r.history() == transport.history(),
{
    Mcp9601::init(transport).destroy()
}

} // verus!
