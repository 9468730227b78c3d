//! EMU, the energy management unit.
//!
//! As with the flash controller, a capability does not touch the device: an
//! operation yields the [`Write`] to carry out, and a query takes the value
//! that was read. The operations do not depend on one another.

use vstd::prelude::*;

verus! {

/// `efm32pg12_pac::EMU`, the proof of owning the unit that the device crate
/// hands out. It is declared so that `constrain` can take it; nothing is
/// claimed of it.
#[verifier::external_type_specification]
#[verifier::external_body]
pub struct ExEmuOwner(efm32pg12_pac::EMU);

/// How the device is powered.
#[derive(Clone, Copy, PartialEq, Eq, Debug, Structural)]
pub enum PowerConfig {
    Unconfigured,
    /// The DC-DC converter feeds the digital supply.
    DcdcToDvdd,
}

/// Mode of the DC-DC regulator.
#[derive(Clone, Copy, PartialEq, Eq, Debug, Structural)]
pub enum DcdcMode {
    Bypass,
    LowNoise,
    LowPower,
    Off,
}

/// Voltage scale level, under the names that the status register has for
/// it.
#[derive(Clone, Copy, PartialEq, Eq, Debug, Structural)]
pub enum VScale {
    VScale2,
    VScale0,
    Resv,
}

/// One write to one register of the unit. The field named takes the value
/// given and every other field of that register its reset value.
#[derive(Clone, Copy, PartialEq, Eq, Debug, Structural)]
pub enum Write {
    PwrCfg { pwrcfg: PowerConfig },
    DcdcCtrl { dcdcmode: DcdcMode },
}

/// One reading of the status register. `vscale` is `None` where the field
/// held a value that has no name.
#[derive(Clone, Copy, PartialEq, Eq, Debug, Structural)]
pub struct StatusFlags {
    pub vscale: Option<VScale>,
    pub vscalebusy: bool,
}

/// Gives up the ownership of the unit for a handle on it.
pub trait EMUExt {
    fn constrain(self) -> Emu;
}

/// An owner that stands for no device. The capabilities that come from it
/// ask for the same writes; where they are carried out is up to the caller.
pub struct Detached {
    _private: (),
}

impl Detached {
    pub fn new() -> Detached {
        Detached { _private: () }
    }
}

impl EMUExt for efm32pg12_pac::EMU {
    fn constrain(self) -> Emu {
        Emu { _private: () }
    }
}

impl EMUExt for Detached {
    fn constrain(self) -> Emu {
        Emu { _private: () }
    }
}

/// The capabilities over the unit, one for each register group.
pub struct Ems {
    pub power_cfg: PwrCfg,
    pub dcdc_ctrl: DCDCCtrl,
    pub status: Status,
}

/// The unit as a whole, not yet split.
pub struct Emu {
    _private: (),
}

/// The DC-DC regulator.
pub struct DCDCCtrl {
    _private: (),
}

impl DCDCCtrl {
    /// Puts the regulator in bypass.
    pub fn bypass_mode(&mut self) -> (write: Write)
        ensures
            write == (Write::DcdcCtrl { dcdcmode: DcdcMode::Bypass }),
            *final(self) == *old(self),
    {
        Write::DcdcCtrl { dcdcmode: DcdcMode::Bypass }
    }
}

/// The power configuration.
pub struct PwrCfg {
    _private: (),
}

impl PwrCfg {
    /// Lets the DC-DC converter feed the digital supply.
    pub fn enable(&mut self) -> (write: Write)
        ensures
            write == (Write::PwrCfg { pwrcfg: PowerConfig::DcdcToDvdd }),
            *final(self) == *old(self),
    {
        Write::PwrCfg { pwrcfg: PowerConfig::DcdcToDvdd }
    }
}

/// The status flags. Each query is on one reading of the register.
pub struct Status {
    _private: (),
}

impl Status {
    /// Whether a change of the voltage scale level was still going on.
    pub fn is_vscale_busy(&self, status: &StatusFlags) -> (flag: bool)
        ensures
            flag == status.vscalebusy,
    {
        status.vscalebusy
    }

    /// Whether the voltage scale level was `VScale2`.
    pub fn is_vscale2(&self, status: &StatusFlags) -> (flag: bool)
        ensures
            flag == (status.vscale == Some(VScale::VScale2)),
    {
        match status.vscale {
            Some(VScale::VScale2) => true,
            _ => false,
        }
    }
}

impl Emu {
    /// Gives up the handle for the capabilities.
    pub fn split(self) -> Ems {
        Ems {
            power_cfg: PwrCfg { _private: () },
            dcdc_ctrl: DCDCCtrl { _private: () },
            status: Status { _private: () },
        }
    }
}

} // verus!
