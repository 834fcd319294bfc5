//! The policy decisions of a sink: when to ask for EPR mode, and which power
//! contract to request from the advertised PDOs.
use crate::pdo::{
    avs_max_voltage_field, avs_min_voltage_field, avs_power_field, fixed_current_field,
    fixed_voltage_field, is_epr_capable_fixed, word_of, Pdo,
};
use crate::rdo::{
    avs_max_current_field, avs_max_current_raw, avs_rdo, avs_rdo_voltage, avs_rdo_word,
    avs_voltage_field, avs_voltage_raw, capped, capped_current, fixed_rdo, fixed_rdo_word,
    lemma_avs_rdo_fields, lemma_avs_voltage_round_trip, lemma_fixed_rdo_position, rdo_position,
};
use vstd::prelude::*;

verus! {

/// Target AVS voltage in volts.
pub const TARGET_AVS_VOLTS: u32 = 24;

/// Target AVS voltage in mV.
pub const TARGET_AVS_MV: u32 = 24000;

/// Target AVS operating current in 50 mA units (5 A).
pub const TARGET_AVS_CURRENT_RAW: u16 = 100;

/// Operational power budget announced on EPR mode entry, in watts.
pub const OPERATIONAL_PDP_WATTS: u32 = 120;

/// Number of SPR positions at the head of a capabilities list.
pub const SPR_SLOTS: usize = 7;

/// Highest object position that a request can address.
pub const MAX_POSITION: usize = 14;

/// A request for a power contract.
#[derive(Clone, Copy, Debug, PartialEq, Eq, Structural)]
pub enum Request {
    /// A fixed/variable supply request word.
    Fixed { rdo: u32 },
    /// An EPR request: the request word and a copy of the requested PDO.
    Epr { rdo: u32, pdo: Pdo },
}

pub open spec fn rdo_of(r: Request) -> u32 {
    match r {
        Request::Fixed { rdo } => rdo,
        Request::Epr { rdo, .. } => rdo,
    }
}

impl Request {
    /// The request data object word.
    pub fn rdo(&self) -> (r: u32)
        ensures
            r == rdo_of(*self),
    {
        match self {
            Request::Fixed { rdo } => *rdo,
            Request::Epr { rdo, .. } => *rdo,
        }
    }

    /// The 1-based position of the requested PDO.
    pub fn object_position(&self) -> (r: u8)
        ensures
            r as u32 == rdo_position(rdo_of(*self)),
    {
        let w = self.rdo();
        assert(w >> 28u32 <= 15) by (bit_vector);
        (w >> 28u32) as u8
    }
}

/// Number of positions a request can address in a list of `len` PDOs.
pub open spec fn addressable(len: int) -> int {
    if len < MAX_POSITION as int {
        len
    } else {
        MAX_POSITION as int
    }
}

/// Number of SPR positions present in a list of `len` PDOs.
pub open spec fn spr_count(len: int) -> int {
    if len < SPR_SLOTS as int {
        len
    } else {
        SPR_SLOTS as int
    }
}

/// The source signals EPR capability on its first PDO.
pub open spec fn source_epr_capable(p: Seq<Pdo>) -> bool {
    p.len() > 0 && is_epr_capable_fixed(p[0])
}

/// The list is an EPR capabilities list: it holds PDOs past the SPR positions.
pub open spec fn is_epr_capabilities(p: Seq<Pdo>) -> bool {
    p.len() > SPR_SLOTS as int
}

/// A non-padding AVS PDO whose voltage range holds the target voltage.
pub open spec fn avs_covers_target(q: Pdo) -> bool {
    match q {
        Pdo::Avs(w) => w != 0 && avs_min_voltage_field(w) as int * 100 <= TARGET_AVS_MV as int
            && TARGET_AVS_MV as int <= avs_max_voltage_field(w) as int * 100,
        _ => false,
    }
}

/// Index `i` is an EPR position holding a usable AVS PDO.
pub open spec fn avs_candidate(p: Seq<Pdo>, i: int) -> bool {
    SPR_SLOTS as int <= i < addressable(p.len() as int) && avs_covers_target(p[i])
}

/// Index `i` is the first usable AVS position.
pub open spec fn first_avs(p: Seq<Pdo>, i: int) -> bool {
    avs_candidate(p, i) && forall|j: int| SPR_SLOTS as int <= j < i ==> !avs_candidate(p, j)
}

/// The EPR request for the AVS PDO at index `i`: USB communications capable,
/// no USB suspend, EPR mode capable, the target voltage, and the target
/// current capped at what the PDO's power budget gives at that voltage.
pub open spec fn avs_request(p: Seq<Pdo>, i: int) -> Request {
    Request::Epr {
        rdo: avs_rdo_word(
            (i + 1) as u8,
            true,
            true,
            true,
            avs_voltage_field(TARGET_AVS_MV),
            capped(
                TARGET_AVS_CURRENT_RAW,
                avs_max_current_field(avs_power_field(word_of(p[i])), TARGET_AVS_VOLTS),
            ),
        ),
        pdo: p[i],
    }
}

/// Voltage field of a fixed supply PDO (0 for any other kind).
pub open spec fn fixed_voltage(q: Pdo) -> u16 {
    match q {
        Pdo::FixedSupply(w) => fixed_voltage_field(w),
        _ => 0,
    }
}

/// Index `i` is an SPR position holding a non-padding fixed supply.
pub open spec fn spr_fixed_candidate(p: Seq<Pdo>, i: int) -> bool {
    0 <= i < spr_count(p.len() as int) && p[i] is FixedSupply && word_of(p[i]) != 0
}

/// Index `i` holds the highest SPR fixed voltage, the last one among equals.
pub open spec fn best_spr_fixed(p: Seq<Pdo>, i: int) -> bool {
    &&& spr_fixed_candidate(p, i)
    &&& forall|j: int| spr_fixed_candidate(p, j) ==> fixed_voltage(p[j]) <= fixed_voltage(p[i])
    &&& forall|j: int| i < j && spr_fixed_candidate(p, j) ==> fixed_voltage(p[j]) < fixed_voltage(
        p[i],
    )
}

/// Index `i` is an addressable position holding a fixed supply.
pub open spec fn fixed_candidate(p: Seq<Pdo>, i: int) -> bool {
    0 <= i < addressable(p.len() as int) && p[i] is FixedSupply
}

/// Index `i` holds the highest fixed voltage, the first one among equals.
pub open spec fn best_fixed(p: Seq<Pdo>, i: int) -> bool {
    &&& fixed_candidate(p, i)
    &&& forall|j: int| fixed_candidate(p, j) ==> fixed_voltage(p[j]) <= fixed_voltage(p[i])
    &&& forall|j: int| 0 <= j < i && fixed_candidate(p, j) ==> fixed_voltage(p[j]) < fixed_voltage(
        p[i],
    )
}

/// The fixed request for the PDO at index `i`: USB communications capable,
/// no USB suspend, the given EPR flag, and the PDO's maximum current as both
/// the operating and the maximum operating current.
pub open spec fn fixed_request(p: Seq<Pdo>, i: int, epr: bool) -> Request {
    Request::Fixed {
        rdo: fixed_rdo_word(
            (i + 1) as u8,
            true,
            true,
            epr,
            fixed_current_field(word_of(p[i])),
            fixed_current_field(word_of(p[i])),
        ),
    }
}

/// The list holds a fixed supply at an addressable position.
pub open spec fn has_fixed_supply(p: Seq<Pdo>) -> bool {
    exists|i: int| fixed_candidate(p, i)
}

/// The request a sink makes for the PDO list `p`:
/// the first usable AVS PDO of an EPR list; else, where the source signals
/// EPR capability, its highest SPR fixed supply with the EPR flag set; else
/// its highest fixed supply.
pub open spec fn is_decision(p: Seq<Pdo>, r: Request) -> bool {
    if is_epr_capabilities(p) && exists|i: int| first_avs(p, i) {
        exists|i: int| first_avs(p, i) && r == avs_request(p, i)
    } else if source_epr_capable(p) && exists|i: int| spr_fixed_candidate(p, i) {
        exists|i: int| best_spr_fixed(p, i) && r == fixed_request(p, i, true)
    } else {
        exists|i: int| best_fixed(p, i) && r == fixed_request(p, i, false)
    }
}

/// Looks for the first usable AVS PDO at an EPR position.
fn find_avs(pdos: &[Pdo]) -> (r: Option<usize>)
    ensures
        match r {
            Some(i) => first_avs(pdos@, i as int),
            None => forall|i: int| !avs_candidate(pdos@, i),
        },
{
    let n = pdos.len();
    let limit: usize = if n < MAX_POSITION {
        n
    } else {
        MAX_POSITION
    };
    let mut i: usize = SPR_SLOTS;
    while i < limit
        invariant
            limit as int == addressable(pdos@.len() as int),
            limit <= pdos@.len(),
            SPR_SLOTS <= i,
            forall|j: int| SPR_SLOTS as int <= j < i ==> !avs_candidate(pdos@, j),
        decreases limit - i,
    {
        let q = pdos[i];
        if !q.is_zero_padding() {
            if let Some((min_v, max_v, _)) = q.avs_fields() {
                let min_mv: u32 = min_v as u32 * 100;
                let max_mv: u32 = max_v as u32 * 100;
                if min_mv <= TARGET_AVS_MV && TARGET_AVS_MV <= max_mv {
                    return Some(i);
                }
            }
        }
        i += 1;
    }
    None
}

/// Looks for the highest non-padding fixed supply among the SPR positions,
/// the last one among equal voltages.
fn find_best_spr_fixed(pdos: &[Pdo]) -> (r: Option<usize>)
    ensures
        match r {
            Some(i) => best_spr_fixed(pdos@, i as int),
            None => forall|i: int| !spr_fixed_candidate(pdos@, i),
        },
{
    let n = pdos.len();
    let limit: usize = if n < SPR_SLOTS {
        n
    } else {
        SPR_SLOTS
    };
    let mut best: Option<usize> = None;
    let mut best_v: u16 = 0;
    let mut i: usize = 0;
    while i < limit
        invariant
            limit as int == spr_count(pdos@.len() as int),
            limit <= pdos@.len(),
            i <= limit,
            match best {
                None => forall|j: int| 0 <= j < i ==> !spr_fixed_candidate(pdos@, j),
                Some(b) => {
                    &&& b < i
                    &&& spr_fixed_candidate(pdos@, b as int)
                    &&& best_v == fixed_voltage(pdos@[b as int])
                    &&& forall|j: int|
                        0 <= j < i && spr_fixed_candidate(pdos@, j) ==> fixed_voltage(pdos@[j])
                            <= best_v
                    &&& forall|j: int|
                        b < j < i && spr_fixed_candidate(pdos@, j) ==> fixed_voltage(pdos@[j])
                            < best_v
                },
            },
        decreases limit - i,
    {
        let q = pdos[i];
        if !q.is_zero_padding() {
            if let Some((v, _)) = q.fixed_fields() {
                if best.is_none() || v >= best_v {
                    best = Some(i);
                    best_v = v;
                }
            }
        }
        i += 1;
    }
    best
}

/// Looks for the highest fixed supply among the addressable positions, the
/// first one among equal voltages, as usbpd's `PowerSource::new_fixed` does
/// for the highest voltage. That function, like usbpd's `spr_pdos` and
/// `epr_pdos` behind the two searches above, takes a `SourceCapabilities`,
/// which cannot be built from a list of PDOs outside usbpd; and it panics
/// on a position past 14, which this search never reaches.
fn find_best_fixed(pdos: &[Pdo]) -> (r: Option<usize>)
    ensures
        match r {
            Some(i) => best_fixed(pdos@, i as int),
            None => forall|i: int| !fixed_candidate(pdos@, i),
        },
{
    let n = pdos.len();
    let limit: usize = if n < MAX_POSITION {
        n
    } else {
        MAX_POSITION
    };
    let mut best: Option<usize> = None;
    let mut best_v: u16 = 0;
    let mut i: usize = 0;
    while i < limit
        invariant
            limit as int == addressable(pdos@.len() as int),
            limit <= pdos@.len(),
            i <= limit,
            match best {
                None => forall|j: int| 0 <= j < i ==> !fixed_candidate(pdos@, j),
                Some(b) => {
                    &&& b < i
                    &&& fixed_candidate(pdos@, b as int)
                    &&& best_v == fixed_voltage(pdos@[b as int])
                    &&& forall|j: int|
                        0 <= j < i && fixed_candidate(pdos@, j) ==> fixed_voltage(pdos@[j])
                            <= best_v
                    &&& forall|j: int|
                        0 <= j < b && fixed_candidate(pdos@, j) ==> fixed_voltage(pdos@[j])
                            < best_v
                },
            },
        decreases limit - i,
    {
        if let Some((v, _)) = pdos[i].fixed_fields() {
            if best.is_none() || v > best_v {
                best = Some(i);
                best_v = v;
            }
        }
        i += 1;
    }
    best
}

/// Decides which contract to request from the advertised PDOs `pdos`.
///
/// Every compliant source advertises a 5 V fixed supply, so the final
/// fallback always finds a fixed supply.
pub fn decide_request(pdos: &[Pdo]) -> (r: Request)
    requires
        has_fixed_supply(pdos@),
    ensures
        is_decision(pdos@, r),
{
    let source_epr = pdos[0].is_epr_capable_fixed();
    if pdos.len() > SPR_SLOTS {
        if let Some(i) = find_avs(pdos) {
            let q = pdos[i];
            if let Some((_, _, power)) = q.avs_fields() {
                let deliverable = avs_max_current_raw(power, TARGET_AVS_VOLTS);
                let current = capped_current(TARGET_AVS_CURRENT_RAW, deliverable);
                let voltage = avs_voltage_raw(TARGET_AVS_MV);
                let rdo = avs_rdo((i + 1) as u8, true, true, true, voltage, current);
                return Request::Epr { rdo, pdo: q };
            }
        }
    }
    if source_epr {
        if let Some(i) = find_best_spr_fixed(pdos) {
            if let Some((_, current)) = pdos[i].fixed_fields() {
                let rdo = fixed_rdo((i + 1) as u8, true, true, true, current, current);
                return Request::Fixed { rdo };
            }
        }
    }
    let found = find_best_fixed(pdos);
    let i = found.unwrap();
    let current = match pdos[i].fixed_fields() {
        Some((_, c)) => c,
        None => 0,
    };
    Request::Fixed { rdo: fixed_rdo((i + 1) as u8, true, true, false, current, current) }
}

/// The request is for the PDO `q`: a copy of an AVS PDO for an EPR request,
/// a fixed supply whose maximum current is the one requested for a fixed
/// request.
pub open spec fn requests_pdo(q: Pdo, r: Request) -> bool {
    match r {
        Request::Epr { pdo, .. } => pdo == q && q is Avs,
        Request::Fixed { rdo } => q is FixedSupply && rdo & 0x3ffu32 == fixed_current_field(
            word_of(q),
        ) as u32,
    }
}

proof fn lemma_current_field_fits(w: u32)
    ensures
        (fixed_current_field(w) as u32) & 0x3ffu32 == fixed_current_field(w) as u32,
{
    let m = w & 0x3ffu32;
    assert(m <= 0x3ffu32) by (bit_vector)
        requires
            m == w & 0x3ffu32,
    ;
    assert(fixed_current_field(w) as u32 == m);
    assert(m & 0x3ffu32 == m) by (bit_vector)
        requires
            m <= 0x3ffu32,
    ;
}

/// The object position of a decided request is the 1-based index, within the
/// list it was decided on, of the PDO that it requests.
pub proof fn lemma_request_position(p: Seq<Pdo>, r: Request)
    requires
        is_decision(p, r),
    ensures
        exists|i: int|
            0 <= i < p.len() && rdo_position(rdo_of(r)) == i + 1 && requests_pdo(p[i], r),
{
    if is_epr_capabilities(p) && exists|i: int| first_avs(p, i) {
        let i = choose|i: int| first_avs(p, i) && r == avs_request(p, i);
        let cap = capped(
            TARGET_AVS_CURRENT_RAW,
            avs_max_current_field(avs_power_field(word_of(p[i])), TARGET_AVS_VOLTS),
        );
        lemma_avs_voltage_round_trip(TARGET_AVS_MV);
        lemma_avs_rdo_fields((i + 1) as u8, true, true, true, avs_voltage_field(TARGET_AVS_MV), cap);
        assert(0 <= i < p.len() && rdo_position(rdo_of(r)) == i + 1 && requests_pdo(p[i], r));
    } else if source_epr_capable(p) && exists|i: int| spr_fixed_candidate(p, i) {
        let i = choose|i: int| best_spr_fixed(p, i) && r == fixed_request(p, i, true);
        let c = fixed_current_field(word_of(p[i]));
        lemma_fixed_rdo_position((i + 1) as u8, true, true, true, c, c);
        lemma_current_field_fits(word_of(p[i]));
        assert(0 <= i < p.len() && rdo_position(rdo_of(r)) == i + 1 && requests_pdo(p[i], r));
    } else {
        let i = choose|i: int| best_fixed(p, i) && r == fixed_request(p, i, false);
        let c = fixed_current_field(word_of(p[i]));
        lemma_fixed_rdo_position((i + 1) as u8, true, true, false, c, c);
        lemma_current_field_fits(word_of(p[i]));
        assert(0 <= i < p.len() && rdo_position(rdo_of(r)) == i + 1 && requests_pdo(p[i], r));
    }
}

/// An EPR request that the policy decides carries the target voltage in its
/// 25 mV field exactly, with the field's two low bits zero.
pub proof fn lemma_avs_request_voltage(p: Seq<Pdo>, r: Request)
    requires
        is_decision(p, r),
        r is Epr,
    ensures
        avs_rdo_voltage(rdo_of(r)) * 25 == TARGET_AVS_MV,
        avs_rdo_voltage(rdo_of(r)) & 3u32 == 0,
{
    lemma_request_position(p, r);
    let i = choose|i: int| first_avs(p, i) && r == avs_request(p, i);
    let cap = capped(
        TARGET_AVS_CURRENT_RAW,
        avs_max_current_field(avs_power_field(word_of(p[i])), TARGET_AVS_VOLTS),
    );
    let v = avs_voltage_field(TARGET_AVS_MV);
    lemma_avs_voltage_round_trip(TARGET_AVS_MV);
    lemma_avs_rdo_fields((i + 1) as u8, true, true, true, v, cap);
    assert(v == 960);
    assert(960u32 & 3u32 == 0) by (bit_vector);
}

/// Policy state of one session: created at attach, dropped at detach.
pub struct Device {
    /// Whether EPR mode entry has been asked for in this session.
    pub entered_epr_mode: bool,
}

/// What `get_event` does in state `entered` for the list `p`: the new state,
/// and the power budget (W) of an EPR mode entry, if one is asked for.
pub open spec fn next_event(entered: bool, p: Seq<Pdo>) -> (bool, Option<u32>) {
    if !entered && source_epr_capable(p) {
        (true, Some(OPERATIONAL_PDP_WATTS))
    } else {
        (entered, None)
    }
}

/// The events of a session in state `entered` that sees the announcements
/// `ps` in turn.
pub open spec fn event_trace(entered: bool, ps: Seq<Seq<Pdo>>) -> Seq<Option<u32>>
    decreases ps.len(),
{
    if ps.len() == 0 {
        seq![]
    } else {
        let (e, ev) = next_event(entered, ps[0]);
        seq![ev] + event_trace(e, ps.drop_first())
    }
}

impl Device {
    /// Policy state for a new session.
    pub fn new() -> (r: Device)
        ensures
            !r.entered_epr_mode,
    {
        Device { entered_epr_mode: false }
    }

    /// Asks for EPR mode entry, with the operational power budget in watts,
    /// the first time a source signals EPR capability in this session;
    /// `None` means there is no event to raise.
    pub fn get_event(&mut self, pdos: &[Pdo]) -> (r: Option<u32>)
        ensures
            (final(self).entered_epr_mode, r) == next_event(old(self).entered_epr_mode, pdos@),
    {
        if !self.entered_epr_mode && pdos.len() > 0 && pdos[0].is_epr_capable_fixed() {
            self.entered_epr_mode = true;
            return Some(OPERATIONAL_PDP_WATTS);
        }
        None
    }

    /// The request for the advertised PDOs `pdos`.
    pub fn request(&self, pdos: &[Pdo]) -> (r: Request)
        requires
            has_fixed_supply(pdos@),
        ensures
            is_decision(pdos@, r),
    {
        decide_request(pdos)
    }
}

/// Once EPR mode entry has been asked for, a session raises no more events.
proof fn lemma_no_event_after_entry(ps: Seq<Seq<Pdo>>)
    ensures
        event_trace(true, ps).len() == ps.len(),
        forall|k: int| 0 <= k < ps.len() ==> event_trace(true, ps)[k] is None,
    decreases ps.len(),
{
    if ps.len() > 0 {
        lemma_no_event_after_entry(ps.drop_first());
    }
}

/// A fresh session whose first announcement signals EPR capability asks for
/// EPR mode entry on that announcement and never again, whatever follows.
pub proof fn lemma_epr_entry_once(ps: Seq<Seq<Pdo>>)
    requires
        ps.len() >= 1,
        source_epr_capable(ps[0]),
    ensures
        event_trace(false, ps).len() == ps.len(),
        event_trace(false, ps)[0] == Some(OPERATIONAL_PDP_WATTS),
        forall|k: int| 1 <= k < ps.len() ==> event_trace(false, ps)[k] is None,
{
    lemma_no_event_after_entry(ps.drop_first());
    let t = event_trace(false, ps);
    assert(t == seq![Some(OPERATIONAL_PDP_WATTS)] + event_trace(true, ps.drop_first()));
    assert forall|k: int| 1 <= k < ps.len() implies t[k] is None by {
        assert(t[k] == event_trace(true, ps.drop_first())[k - 1]);
    }
}

} // verus!
