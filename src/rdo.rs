//! Request data objects: the bit-packed words a sink sends to request a
//! contract, built with usbpd's bitfield types, and the AVS unit arithmetic.
use usbpd::protocol_layer::message::data::request::{Avs, FixedVariableSupply};
use vstd::prelude::*;

verus! {

/// A one-bit flag at bit `n` of a word.
pub open spec fn flag_bit(b: bool, n: u32) -> u32 {
    if b {
        1u32 << n
    } else {
        0u32
    }
}

/// The word of a fixed/variable supply request: object position (bits
/// 28..=31), USB communications capable (25), no USB suspend (24), EPR mode
/// capable (22), operating current (10..=19) and maximum operating current
/// (0..=9), both in 10 mA units.
pub open spec fn fixed_rdo_word(
    position: u8,
    usb_comm: bool,
    no_suspend: bool,
    epr: bool,
    operating: u16,
    max_operating: u16,
) -> u32 {
    (((position as u32) & 0xfu32) << 28u32) | flag_bit(usb_comm, 25) | flag_bit(no_suspend, 24)
        | flag_bit(epr, 22) | (((operating as u32) & 0x3ffu32) << 10u32) | ((
    max_operating as u32) & 0x3ffu32)
}

/// The word of an AVS request: object position (bits 28..=31), USB
/// communications capable (25), no USB suspend (24), EPR mode capable (22),
/// output voltage in 25 mV units (9..=20) and operating current in 50 mA
/// units (0..=6).
pub open spec fn avs_rdo_word(
    position: u8,
    usb_comm: bool,
    no_suspend: bool,
    epr: bool,
    voltage: u16,
    current: u16,
) -> u32 {
    (((position as u32) & 0xfu32) << 28u32) | flag_bit(usb_comm, 25) | flag_bit(no_suspend, 24)
        | flag_bit(epr, 22) | (((voltage as u32) & 0xfffu32) << 9u32) | ((current as u32)
        & 0x7fu32)
}

/// The object position field of any request word.
pub open spec fn rdo_position(rdo: u32) -> u32 {
    rdo >> 28u32
}

/// The output voltage field (25 mV units) of an AVS request word.
pub open spec fn avs_rdo_voltage(rdo: u32) -> u32 {
    (rdo >> 9u32) & 0xfffu32
}

/// Relies on usbpd's `FixedVariableSupply` bitfield setters, which mask each
/// value to its field and place it at the documented bits.
#[verifier::external_body]
pub(crate) fn fixed_rdo(
    position: u8,
    usb_comm: bool,
    no_suspend: bool,
    epr: bool,
    operating: u16,
    max_operating: u16,
) -> (r: u32)
    ensures
        r == fixed_rdo_word(position, usb_comm, no_suspend, epr, operating, max_operating),
{
    FixedVariableSupply(0)
        .with_object_position(position)
        .with_usb_communications_capable(usb_comm)
        .with_no_usb_suspend(no_suspend)
        .with_epr_mode_capable(epr)
        .with_raw_operating_current(operating)
        .with_raw_max_operating_current(max_operating)
        .0
}

/// Relies on usbpd's `Avs` bitfield setters, which mask each value to its
/// field and place it at the documented bits.
#[verifier::external_body]
pub(crate) fn avs_rdo(
    position: u8,
    usb_comm: bool,
    no_suspend: bool,
    epr: bool,
    voltage: u16,
    current: u16,
) -> (r: u32)
    ensures
        r == avs_rdo_word(position, usb_comm, no_suspend, epr, voltage, current),
{
    Avs(0)
        .with_object_position(position)
        .with_usb_communications_capable(usb_comm)
        .with_no_usb_suspend(no_suspend)
        .with_epr_mode_capable(epr)
        .with_raw_output_voltage(voltage)
        .with_raw_operating_current(current)
        .0
}

/// A fixed request word carries its object position unchanged.
pub proof fn lemma_fixed_rdo_position(
    position: u8,
    usb_comm: bool,
    no_suspend: bool,
    epr: bool,
    operating: u16,
    max_operating: u16,
)
    requires
        position <= 15,
    ensures
        rdo_position(fixed_rdo_word(position, usb_comm, no_suspend, epr, operating, max_operating))
            == position as u32,
        fixed_rdo_word(position, usb_comm, no_suspend, epr, operating, max_operating) & 0x3ffu32
            == (max_operating as u32) & 0x3ffu32,
{
    let p = position as u32;
    let a = flag_bit(usb_comm, 25);
    let b = flag_bit(no_suspend, 24);
    let e = flag_bit(epr, 22);
    let o = operating as u32;
    let m = max_operating as u32;
    assert((((p & 0xf) << 28) | a | b | e | ((o & 0x3ff) << 10) | (m & 0x3ff)) >> 28 == p)
        by (bit_vector)
        requires
            p <= 15,
            a == 0 || a == 1u32 << 25,
            b == 0 || b == 1u32 << 24,
            e == 0 || e == 1u32 << 22,
    ;
    assert((((p & 0xf) << 28) | a | b | e | ((o & 0x3ff) << 10) | (m & 0x3ff)) & 0x3ff == m
        & 0x3ff) by (bit_vector)
        requires
            a == 0 || a == 1u32 << 25,
            b == 0 || b == 1u32 << 24,
            e == 0 || e == 1u32 << 22,
    ;
}

/// An AVS request word carries its object position and its output voltage
/// field unchanged.
pub proof fn lemma_avs_rdo_fields(
    position: u8,
    usb_comm: bool,
    no_suspend: bool,
    epr: bool,
    voltage: u16,
    current: u16,
)
    requires
        position <= 15,
        voltage <= 0xfff,
    ensures
        rdo_position(avs_rdo_word(position, usb_comm, no_suspend, epr, voltage, current))
            == position as u32,
        avs_rdo_voltage(avs_rdo_word(position, usb_comm, no_suspend, epr, voltage, current))
            == voltage as u32,
{
    let p = position as u32;
    let a = flag_bit(usb_comm, 25);
    let b = flag_bit(no_suspend, 24);
    let e = flag_bit(epr, 22);
    let v = voltage as u32;
    let c = current as u32;
    assert((((p & 0xf) << 28) | a | b | e | ((v & 0xfff) << 9) | (c & 0x7f)) >> 28 == p)
        by (bit_vector)
        requires
            p <= 15,
            a == 0 || a == 1u32 << 25,
            b == 0 || b == 1u32 << 24,
            e == 0 || e == 1u32 << 22,
    ;
    assert(((((p & 0xf) << 28) | a | b | e | ((v & 0xfff) << 9) | (c & 0x7f)) >> 9) & 0xfff == v)
        by (bit_vector)
        requires
            v <= 0xfff,
            a == 0 || a == 1u32 << 25,
            b == 0 || b == 1u32 << 24,
            e == 0 || e == 1u32 << 22,
    ;
}

/// Largest voltage, in mV, that an AVS PDO can advertise (nine bits of 100 mV).
pub const AVS_MAX_MV: u32 = 51100;

/// A voltage in mV as an AVS output voltage field: 25 mV units with the two
/// least significant bits cleared.
pub open spec fn avs_voltage_field(target_mv: u32) -> u16 {
    ((target_mv / 25) as int - (target_mv / 25) as int % 4) as u16
}

/// The largest operating current, in 50 mA units, that a power budget of
/// `pdp_w` watts allows at `volts` volts (each division rounds down).
pub open spec fn avs_max_current_field(pdp_w: u8, volts: u32) -> u16 {
    ((pdp_w as int * 1000 / volts as int) / 50) as u16
}

/// The smaller of a target current and the deliverable one.
pub open spec fn capped(target: u16, deliverable: u16) -> u16 {
    if target > deliverable {
        deliverable
    } else {
        target
    }
}

/// The AVS output voltage field for a voltage in mV.
pub fn avs_voltage_raw(target_mv: u32) -> (r: u16)
    requires
        target_mv <= AVS_MAX_MV,
    ensures
        r == avs_voltage_field(target_mv),
        r as int == (target_mv / 25) as int - (target_mv / 25) as int % 4,
{
    let units: u32 = target_mv / 25;
    let r: u32 = units & !3u32;
    assert(units & !3u32 == units - units % 4) by (bit_vector);
    r as u16
}

/// The largest operating current, in 50 mA units, that a power budget of
/// `pdp_w` watts allows at `volts` volts.
pub fn avs_max_current_raw(pdp_w: u8, volts: u32) -> (r: u16)
    requires
        volts > 0,
    ensures
        r == avs_max_current_field(pdp_w, volts),
        r as int == (pdp_w as int * 1000 / volts as int) / 50,
{
    let pdp_mw: u32 = pdp_w as u32 * 1000;
    let max_ma: u32 = pdp_mw / volts;
    let r: u32 = max_ma / 50;
    assert(r <= 5100);
    r as u16
}

/// The requested current: the target, capped at what the source can deliver.
pub fn capped_current(target: u16, deliverable: u16) -> (r: u16)
    ensures
        r == capped(target, deliverable),
{
    if target > deliverable {
        deliverable
    } else {
        target
    }
}

/// For a voltage in mV that is a multiple of 100 mV, the AVS voltage field
/// decodes back to exactly that voltage, and its two low bits are zero.
pub proof fn lemma_avs_voltage_round_trip(target_mv: u32)
    requires
        target_mv <= AVS_MAX_MV,
        target_mv % 100 == 0,
    ensures
        avs_voltage_field(target_mv) as int * 25 == target_mv as int,
        avs_voltage_field(target_mv) & 3u16 == 0,
{
    let raw = avs_voltage_field(target_mv);
    assert((target_mv / 25) % 4 == 0);
    assert(raw as int == (target_mv / 25) as int);
    assert(raw as int * 25 == target_mv as int);
    assert(raw % 4 == 0);
    assert(raw % 4 == 0 ==> raw & 3u16 == 0) by (bit_vector);
}

} // verus!
