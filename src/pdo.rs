//! Power data objects as advertised by a source, held as their raw 32-bit
//! words and tagged by kind. Field reads go through usbpd's bitfield types.
use usbpd::protocol_layer::message::data::source_capabilities::{
    EprAdjustableVoltageSupply, FixedSupply,
};
use vstd::prelude::*;

verus! {

/// One advertised power data object; each variant carries the raw word.
#[derive(Clone, Copy, Debug, PartialEq, Eq, Structural)]
pub enum Pdo {
    FixedSupply(u32),
    Battery(u32),
    VariableSupply(u32),
    /// Programmable power supply (SPR augmented PDO).
    Pps(u32),
    /// Adjustable voltage supply (EPR augmented PDO).
    Avs(u32),
    /// Augmented PDO of a supply type this library does not know.
    AugmentedUnknown(u32),
    Unknown(u32),
}

/// The raw word of a PDO, whatever its kind.
pub open spec fn word_of(p: Pdo) -> u32 {
    match p {
        Pdo::FixedSupply(w) => w,
        Pdo::Battery(w) => w,
        Pdo::VariableSupply(w) => w,
        Pdo::Pps(w) => w,
        Pdo::Avs(w) => w,
        Pdo::AugmentedUnknown(w) => w,
        Pdo::Unknown(w) => w,
    }
}

/// Fixed supply: EPR mode capable flag (bit 23).
pub open spec fn fixed_epr_bit(w: u32) -> bool {
    (w >> 23u32) & 1u32 == 1u32
}

/// Fixed supply: voltage in 50 mV units (bits 10..=19).
pub open spec fn fixed_voltage_field(w: u32) -> u16 {
    ((w >> 10u32) & 0x3ffu32) as u16
}

/// Fixed supply: maximum current in 10 mA units (bits 0..=9).
pub open spec fn fixed_current_field(w: u32) -> u16 {
    (w & 0x3ffu32) as u16
}

/// AVS: minimum voltage in 100 mV units (bits 8..=15).
pub open spec fn avs_min_voltage_field(w: u32) -> u8 {
    ((w >> 8u32) & 0xffu32) as u8
}

/// AVS: maximum voltage in 100 mV units (bits 17..=25).
pub open spec fn avs_max_voltage_field(w: u32) -> u16 {
    ((w >> 17u32) & 0x1ffu32) as u16
}

/// AVS: power budget (PDP) in 1 W units (bits 0..=7).
pub open spec fn avs_power_field(w: u32) -> u8 {
    (w & 0xffu32) as u8
}

/// True when the PDO is a fixed supply with the EPR mode capable flag set.
pub open spec fn is_epr_capable_fixed(p: Pdo) -> bool {
    match p {
        Pdo::FixedSupply(w) => fixed_epr_bit(w),
        _ => false,
    }
}

/// Relies on usbpd's `FixedSupply::epr_mode_capable`: bit 23 of the word.
#[verifier::external_body]
fn fixed_epr_mode_capable(w: u32) -> (r: bool)
    ensures
        r == fixed_epr_bit(w),
{
    FixedSupply(w).epr_mode_capable()
}

/// Relies on usbpd's `FixedSupply::raw_voltage`: bits 10..=19 of the word.
#[verifier::external_body]
fn fixed_raw_voltage(w: u32) -> (r: u16)
    ensures
        r == fixed_voltage_field(w),
{
    FixedSupply(w).raw_voltage()
}

/// Relies on usbpd's `FixedSupply::raw_max_current`: bits 0..=9 of the word.
#[verifier::external_body]
fn fixed_raw_max_current(w: u32) -> (r: u16)
    ensures
        r == fixed_current_field(w),
{
    FixedSupply(w).raw_max_current()
}

/// Relies on usbpd's `EprAdjustableVoltageSupply::raw_min_voltage`: bits 8..=15.
#[verifier::external_body]
fn avs_raw_min_voltage(w: u32) -> (r: u8)
    ensures
        r == avs_min_voltage_field(w),
{
    EprAdjustableVoltageSupply(w).raw_min_voltage()
}

/// Relies on usbpd's `EprAdjustableVoltageSupply::raw_max_voltage`: bits 17..=25.
#[verifier::external_body]
fn avs_raw_max_voltage(w: u32) -> (r: u16)
    ensures
        r == avs_max_voltage_field(w),
{
    EprAdjustableVoltageSupply(w).raw_max_voltage()
}

/// Relies on usbpd's `EprAdjustableVoltageSupply::raw_pd_power`: bits 0..=7.
#[verifier::external_body]
fn avs_raw_pd_power(w: u32) -> (r: u8)
    ensures
        r == avs_power_field(w),
{
    EprAdjustableVoltageSupply(w).raw_pd_power()
}

impl Pdo {
    /// The raw word of this PDO.
    pub fn word(&self) -> (r: u32)
        ensures
            r == word_of(*self),
    {
        match self {
            Pdo::FixedSupply(w) => *w,
            Pdo::Battery(w) => *w,
            Pdo::VariableSupply(w) => *w,
            Pdo::Pps(w) => *w,
            Pdo::Avs(w) => *w,
            Pdo::AugmentedUnknown(w) => *w,
            Pdo::Unknown(w) => *w,
        }
    }

    /// A zero word fills unused slots of an EPR capabilities message.
    pub fn is_zero_padding(&self) -> (r: bool)
        ensures
            r == (word_of(*self) == 0),
    {
        self.word() == 0
    }

    /// Whether this is a fixed supply advertising EPR mode capability.
    pub fn is_epr_capable_fixed(&self) -> (r: bool)
        ensures
            r == is_epr_capable_fixed(*self),
    {
        match self {
            Pdo::FixedSupply(w) => fixed_epr_mode_capable(*w),
            _ => false,
        }
    }

    /// For a fixed supply: its voltage (50 mV units) and maximum current
    /// (10 mA units); `None` for any other kind.
    pub fn fixed_fields(&self) -> (r: Option<(u16, u16)>)
        ensures
            r == (match *self {
                Pdo::FixedSupply(w) => Some((fixed_voltage_field(w), fixed_current_field(w))),
                _ => None,
            }),
    {
        match self {
            Pdo::FixedSupply(w) => Some((fixed_raw_voltage(*w), fixed_raw_max_current(*w))),
            _ => None,
        }
    }

    /// For an AVS: its minimum and maximum voltage (100 mV units) and its
    /// power budget (1 W units); `None` for any other kind.
    pub fn avs_fields(&self) -> (r: Option<(u8, u16, u8)>)
        ensures
            r == (match *self {
                Pdo::Avs(w) => Some(
                    (avs_min_voltage_field(w), avs_max_voltage_field(w), avs_power_field(w)),
                ),
                _ => None,
            }),
    {
        match self {
            Pdo::Avs(w) => Some(
                (avs_raw_min_voltage(*w), avs_raw_max_voltage(*w), avs_raw_pd_power(*w)),
            ),
            _ => None,
        }
    }
}

} // verus!
