use pd_sink::pdo::Pdo;
use pd_sink::policy::{decide_request, Device, Request, OPERATIONAL_PDP_WATTS};
use pd_sink::rdo::{avs_max_current_raw, avs_voltage_raw, capped_current};
use usbpd::protocol_layer::message::data::request::{Avs, FixedVariableSupply};

fn fixed(mv: u32, ma: u32, epr: bool) -> Pdo {
    let mut w = ((mv / 50) << 10) | (ma / 10);
    if epr {
        w |= 1 << 23;
    }
    Pdo::FixedSupply(w)
}

fn avs(min_mv: u32, max_mv: u32, pdp_w: u32) -> Pdo {
    Pdo::Avs((0b11 << 30) | (0b01 << 28) | ((max_mv / 100) << 17) | ((min_mv / 100) << 8) | pdp_w)
}

fn epr_list(last: Vec<Pdo>) -> Vec<Pdo> {
    let mut pdos = vec![
        fixed(5000, 3000, true),
        fixed(9000, 3000, false),
        fixed(15000, 3000, false),
        fixed(20000, 5000, false),
        Pdo::FixedSupply(0),
        Pdo::FixedSupply(0),
        Pdo::FixedSupply(0),
    ];
    pdos.extend(last);
    pdos
}

#[test]
fn only_5v_gives_fixed_request_at_position_one() {
    let pdos = vec![fixed(5000, 3000, false)];
    let r = decide_request(&pdos);
    let expected = (1u32 << 28) | (1 << 25) | (1 << 24) | (300 << 10) | 300;
    assert_eq!(r, Request::Fixed { rdo: expected });
    assert_eq!(r.object_position(), 1);
    let f = FixedVariableSupply(r.rdo());
    assert_eq!(f.raw_operating_current(), 300);
    assert_eq!(f.raw_max_operating_current(), 300);
    assert!(!f.epr_mode_capable());
}

#[test]
fn avs_current_capped_at_deliverable() {
    let pdos = epr_list(vec![fixed(28000, 5000, false), avs(15000, 28000, 96)]);
    let r = decide_request(&pdos);
    let expected = (9u32 << 28) | (1 << 25) | (1 << 24) | (1 << 22) | (960 << 9) | 80;
    assert_eq!(r, Request::Epr { rdo: expected, pdo: pdos[8] });
    let a = Avs(r.rdo());
    assert_eq!(a.raw_operating_current(), 80);
    assert_eq!(a.raw_output_voltage(), 960);
    assert_eq!(a.object_position(), 9);
    assert!(a.epr_mode_capable());
}

#[test]
fn avs_target_current_when_budget_allows() {
    let pdos = epr_list(vec![avs(15000, 48000, 140)]);
    let r = decide_request(&pdos);
    assert_eq!(r.object_position(), 8);
    assert_eq!(Avs(r.rdo()).raw_operating_current(), 100);
}

#[test]
fn avs_out_of_range_falls_back_to_spr_with_epr_flag() {
    let pdos = epr_list(vec![avs(15000, 20000, 140)]);
    let r = decide_request(&pdos);
    let expected = (4u32 << 28) | (1 << 25) | (1 << 24) | (1 << 22) | (500 << 10) | 500;
    assert_eq!(r, Request::Fixed { rdo: expected });
    assert!(FixedVariableSupply(r.rdo()).epr_mode_capable());
}

#[test]
fn spr_only_epr_capable_source_sets_epr_flag() {
    let pdos = vec![fixed(5000, 3000, true), fixed(20000, 3000, false), fixed(9000, 2000, false)];
    let r = decide_request(&pdos);
    assert_eq!(r.object_position(), 2);
    let f = FixedVariableSupply(r.rdo());
    assert!(f.epr_mode_capable());
    assert_eq!(f.raw_operating_current(), 300);
}

#[test]
fn equal_spr_voltages_take_the_last() {
    let pdos = vec![fixed(5000, 3000, true), fixed(9000, 3000, false), fixed(9000, 2000, false)];
    let r = decide_request(&pdos);
    assert_eq!(r.object_position(), 3);
    assert_eq!(FixedVariableSupply(r.rdo()).raw_operating_current(), 200);
}

#[test]
fn plain_fallback_takes_first_highest_fixed() {
    let pdos = vec![
        fixed(5000, 3000, false),
        fixed(12000, 1500, false),
        fixed(12000, 2000, false),
        Pdo::Pps((0b11 << 30) | (210 << 17) | (33 << 8) | 60),
    ];
    let r = decide_request(&pdos);
    let expected = (2u32 << 28) | (1 << 25) | (1 << 24) | (150 << 10) | 150;
    assert_eq!(r, Request::Fixed { rdo: expected });
}

#[test]
fn epr_entry_fires_once_per_session() {
    let pdos = vec![fixed(5000, 3000, true), fixed(20000, 5000, false)];
    let mut d = Device::new();
    assert_eq!(d.get_event(&pdos), Some(OPERATIONAL_PDP_WATTS));
    assert_eq!(OPERATIONAL_PDP_WATTS, 120);
    assert!(d.entered_epr_mode);
    assert_eq!(d.get_event(&pdos), None);
    assert_eq!(d.get_event(&pdos), None);
    let mut fresh = Device::new();
    assert_eq!(fresh.get_event(&pdos), Some(120));
}

#[test]
fn no_epr_entry_without_epr_capable_first_pdo() {
    let mut d = Device::new();
    assert_eq!(d.get_event(&[fixed(5000, 3000, false)]), None);
    assert_eq!(d.get_event(&[]), None);
    assert!(!d.entered_epr_mode);
}

#[test]
fn device_request_matches_decision() {
    let pdos = vec![fixed(5000, 3000, false), fixed(9000, 2000, false)];
    let d = Device::new();
    assert_eq!(d.request(&pdos), decide_request(&pdos));
    assert_eq!(d.request(&pdos).object_position(), 2);
}

#[test]
fn avs_voltage_round_trip() {
    for mv in [3300u32, 15000, 24000, 28000, 48000] {
        let raw = avs_voltage_raw(mv);
        assert_eq!(raw as u32 * 25, mv);
        assert_eq!(raw & 3, 0);
    }
    assert_eq!(avs_voltage_raw(24000), 960);
    assert_eq!(avs_voltage_raw(24050), 960);
}

#[test]
fn max_current_from_power_budget() {
    assert_eq!(avs_max_current_raw(96, 24), 80);
    assert_eq!(avs_max_current_raw(140, 24), 116);
    assert_eq!(avs_max_current_raw(0, 24), 0);
    assert_eq!(capped_current(100, 80), 80);
    assert_eq!(capped_current(100, 116), 100);
}

#[test]
fn positions_past_fourteen_are_not_requested() {
    let mut pdos = epr_list(vec![Pdo::FixedSupply(0); 7]);
    pdos.push(avs(15000, 28000, 140));
    pdos.push(fixed(48000, 5000, false));
    assert_eq!(pdos.len(), 16);
    let r = decide_request(&pdos);
    assert_eq!(r.object_position(), 4);
    assert!(FixedVariableSupply(r.rdo()).epr_mode_capable());

    let mut plain = vec![fixed(5000, 3000, false); 14];
    plain.push(fixed(20000, 3000, false));
    let r = decide_request(&plain);
    assert_eq!(r.object_position(), 1);
}

#[test]
fn fixed_supply_need_not_come_first() {
    let pdos = vec![
        Pdo::Battery((400 << 20) | (100 << 10) | 100),
        fixed(5000, 3000, false),
        fixed(9000, 2000, false),
    ];
    let r = decide_request(&pdos);
    let expected = (3u32 << 28) | (1 << 25) | (1 << 24) | (200 << 10) | 200;
    assert_eq!(r, Request::Fixed { rdo: expected });
}
