//! Monthly meter readings of a room, and the fees read off them.

use vstd::prelude::*;
use chrono::NaiveDateTime;
use crate::decimal::{Dec, Decimal};
use crate::price_basic::{BasicPriceType, PriceTable};
use crate::text::{i32_of_text, parse_i32};
use crate::property_fee::opt_view;

verus! {

/// The text that the named group `group` of `pattern` captures in the leftmost
/// match of `pattern` in `haystack`; none where the pattern does not compile,
/// does not match, or the group takes no part in the match.
pub uninterp spec fn regex_named_capture_text(
    pattern: Seq<char>,
    group: Seq<char>,
    haystack: Seq<char>,
) -> Option<Seq<char>>;

/// Calls `regex::Regex::new(pattern)`, then `captures(haystack)` and
/// `name(group)` on the result.  The contract claims only that the text
/// captured is a function of the three arguments, named
/// `regex_named_capture_text`; what it is is left to the `regex` crate.
#[verifier::external_body]
fn regex_named_capture(pattern: &str, group: &str, haystack: &str) -> (r: Option<String>)
    ensures
        r matches Some(t) ==> regex_named_capture_text(pattern@, group@, haystack@) == Some(t@),
        r is None ==> regex_named_capture_text(pattern@, group@, haystack@) is None,
{
    let re = match regex::Regex::new(pattern) {
        Ok(re) => re,
        Err(_) => return None,
    };
    let caps = re.captures(haystack)?;
    let m = caps.name(group)?;
    Some(m.as_str().to_string())
}

/// Room numbers such as `A081` or `B203`: a capital letter, then the floor
/// digit, then two more digits.
pub open spec fn floor_pattern() -> Seq<char> {
    "[A-Z](?P<floor>\\d)\\d{2}"@
}

/// The floor that a room number names, as text.
pub open spec fn floor_text(room: Seq<char>) -> Option<Seq<char>> {
    regex_named_capture_text(floor_pattern(), "floor"@, room)
}

/// The lift fee of a room on floor `floor`: the basic fee plus the floor times
/// the fee per floor.
pub open spec fn lift_fee_on_floor(basic: Dec, plus: Dec, floor: i32) -> Dec {
    basic.plus(Dec::whole(floor as int).times(plus))
}

/// The lift fee of a room can be computed: the floor text reads as an `i32`,
/// and the fee fits the machine.
pub open spec fn lift_computable(room: Seq<char>, basic: Dec, plus: Dec) -> bool {
    floor_text(room) matches Some(t) ==> (i32_of_text(t) matches Some(f)
        && Dec::whole(f as int).times_fits(plus) && basic.plus_fits(
        Dec::whole(f as int).times(plus),
    ))
}

/// The lift fee of a room, where both prices are given and its number names a floor.
pub open spec fn lift_fee_of(room: Option<String>, basic: Option<Decimal>, plus: Option<Decimal>) -> Option<Dec> {
    match (basic, plus, room) {
        (Some(b), Some(p), Some(r)) => match floor_text(r@) {
            Some(t) => match i32_of_text(t) {
                Some(f) => Some(lift_fee_on_floor(b@, p@, f)),
                None => None,
            },
            None => None,
        },
        _ => None,
    }
}

pub open spec fn lift_ready(room: Option<String>, basic: Option<Decimal>, plus: Option<Decimal>) -> bool {
    match (basic, plus, room) {
        (Some(b), Some(p), Some(r)) => lift_computable(r@, b@, p@),
        _ => true,
    }
}

/// The readings of a room for one month.
pub struct RoomInfoDetailPo {
    pub id: i64,
    pub room_number: Option<String>,
    pub water_meter_num_before: Option<i64>,
    pub water_meter_num: Option<i64>,
    pub water_meter_sub: Option<i64>,
    pub electricity_meter_num_before: Option<i64>,
    pub electricity_meter_num: Option<i64>,
    pub electricity_meter_sub: Option<i64>,
    pub month_version: Option<String>,
    pub comment: Option<String>,
    pub create_by: Option<String>,
    pub update_by: Option<String>,
    pub create_time: NaiveDateTime,
    pub update_time: NaiveDateTime,
    pub is_delete: bool,
    pub room_owner_name: Option<String>,
    pub delete_at: Option<NaiveDateTime>,
}

/// `price · units`, where both are known.
pub open spec fn priced(price: Option<Decimal>, units: Option<i64>) -> Option<Dec> {
    match (price, units) {
        (Some(p), Some(n)) => Some(p@.times(Dec::whole(n as int))),
        _ => None,
    }
}

pub open spec fn priced_fits(price: Option<Decimal>, units: Option<i64>) -> bool {
    match (price, units) {
        (Some(p), Some(n)) => p@.times_fits(Dec::whole(n as int)),
        _ => true,
    }
}

/// The electricity fee of a month: price times units used.
pub open spec fn electric_fee_of(info: RoomInfoDetailPo, config: PriceTable) -> Option<Dec> {
    priced(config.price(BasicPriceType::ElectricFee), info.electricity_meter_sub)
}

/// The shared electricity fee: shared price times the area.
pub open spec fn electric_share_of(config: PriceTable, room_square: Option<Dec>) -> Option<Dec> {
    match (config.price(BasicPriceType::ElectricShareFee), room_square) {
        (Some(p), Some(sq)) => Some(p@.times(sq)),
        _ => None,
    }
}

pub open spec fn electric_fits(info: RoomInfoDetailPo, config: PriceTable, room_square: Option<Dec>) -> bool {
    &&& priced_fits(config.price(BasicPriceType::ElectricFee), info.electricity_meter_sub)
    &&& match (config.price(BasicPriceType::ElectricShareFee), room_square) {
        (Some(p), Some(sq)) => p@.times_fits(sq),
        _ => true,
    }
}

/// The value of an optional borrowed decimal.
pub open spec fn ref_view(o: Option<&Decimal>) -> Option<Dec> {
    match o {
        Some(d) => Some(d@),
        None => None,
    }
}

/// The water fee (price times units used) and the shared water fee (the water
/// fee times the share rate).
pub open spec fn water_fees_of(info: RoomInfoDetailPo, config: PriceTable) -> Option<(Dec, Dec)> {
    match (info.water_meter_sub, config.price(BasicPriceType::WaterFee), config.price(BasicPriceType::WaterShareFee)) {
        (Some(n), Some(p), Some(sh)) => {
            let total = p@.times(Dec::whole(n as int));
            Some((total, total.times(sh@)))
        },
        _ => None,
    }
}

pub open spec fn water_fits(info: RoomInfoDetailPo, config: PriceTable) -> bool {
    match (info.water_meter_sub, config.price(BasicPriceType::WaterFee), config.price(BasicPriceType::WaterShareFee)) {
        (Some(n), Some(p), Some(sh)) => p@.times_fits(Dec::whole(n as int)) && p@.times(
            Dec::whole(n as int),
        ).times_fits(sh@),
        _ => true,
    }
}

/// The metered fees of a month are prices times quantities: the electricity
/// fee is its price times the units used; the shared electricity fee is the
/// shared price times the room's area, so it grows with the area (a room `k`
/// times as large pays `k` times as much); the water fee is its price times
/// the units used, and the shared water fee is that fee times the share rate.
/// Without a price (or a quantity) there is no fee.
pub proof fn lemma_metered_fees(info: RoomInfoDetailPo, config: PriceTable, sq: Dec, k: int)
    ensures
        config.price(BasicPriceType::ElectricShareFee) is Some ==> electric_share_of(config, Some(sq)) is Some
            && electric_share_of(config, Some(sq)).unwrap().m == config.price(
            BasicPriceType::ElectricShareFee,
        ).unwrap()@.m * sq.m && electric_share_of(config, Some(sq)).unwrap().s == config.price(
            BasicPriceType::ElectricShareFee,
        ).unwrap()@.s + sq.s,
        electric_share_of(config, Some(sq)) is Some ==> electric_share_of(
            config,
            Some((Dec { m: k * sq.m, s: sq.s })),
        ) is Some && electric_share_of(config, Some((Dec { m: k * sq.m, s: sq.s }))).unwrap().m == k
            * electric_share_of(config, Some(sq)).unwrap().m && electric_share_of(
            config,
            Some((Dec { m: k * sq.m, s: sq.s })),
        ).unwrap().s == electric_share_of(config, Some(sq)).unwrap().s,
        config.price(BasicPriceType::ElectricShareFee) is None ==> electric_share_of(config, Some(sq)) is None,
        electric_share_of(config, None) is None,
        config.price(BasicPriceType::ElectricFee) is Some && info.electricity_meter_sub is Some ==> electric_fee_of(
            info,
            config,
        ) is Some && electric_fee_of(info, config).unwrap().m == config.price(
            BasicPriceType::ElectricFee,
        ).unwrap()@.m * info.electricity_meter_sub.unwrap() && electric_fee_of(info, config).unwrap().s
            == config.price(BasicPriceType::ElectricFee).unwrap()@.s,
        info.water_meter_sub is Some && config.price(BasicPriceType::WaterFee) is Some && config.price(
            BasicPriceType::WaterShareFee,
        ) is Some ==> water_fees_of(info, config) is Some && water_fees_of(info, config).unwrap().0.m
            == config.price(BasicPriceType::WaterFee).unwrap()@.m * info.water_meter_sub.unwrap()
            && water_fees_of(info, config).unwrap().1.m == config.price(BasicPriceType::WaterFee).unwrap()@.m
            * info.water_meter_sub.unwrap() * config.price(BasicPriceType::WaterShareFee).unwrap()@.m,
{
    if let Some(p) = config.price(BasicPriceType::ElectricShareFee) {
        let pm = p@.m;
        assert(pm * (k * sq.m) == k * (pm * sq.m)) by (nonlinear_arith);
    }
}

impl RoomInfoDetailPo {
    /// The lift fee: where both prices are given and the room number names a
    /// floor, the basic fee plus the floor times the fee per floor.
    pub fn calculate_lift(&self, basic: Option<Decimal>, plus: Option<Decimal>) -> (r: Option<Decimal>)
        requires
            lift_ready(self.room_number, basic, plus),
        ensures
            opt_view(r) == lift_fee_of(self.room_number, basic, plus),
    {
        if let (Some(basic), Some(plus)) = (basic, plus) {
            if let Some(room_num) = &self.room_number {
                proof {
                    reveal_strlit("[A-Z](?P<floor>\\d)\\d{2}");
                    reveal_strlit("floor");
                }
                let capture = regex_named_capture("[A-Z](?P<floor>\\d)\\d{2}", "floor", room_num.as_str());
                if let Some(text) = capture {
                    let floor_num = parse_i32(text.as_str()).unwrap();
                    let floor = Decimal::from_i64(floor_num as i64);
                    return Some(basic.plus(&floor.times(&plus)));
                }
            }
        }
        None
    }

    /// The lift fee as `calculate_lift` computes it, or `None` where the
    /// floor text of the room number is no `i32` (there `calculate_lift` has
    /// no answer) or the fee does not fit the machine.
    pub fn try_calculate_lift(&self, basic: Option<Decimal>, plus: Option<Decimal>) -> (r: Option<
        Option<Decimal>,
    >)
        ensures
            r is Some <==> lift_ready(self.room_number, basic, plus),
            r matches Some(Some(d)) ==> lift_fee_of(self.room_number, basic, plus) == Some(d@),
            r matches Some(None) ==> lift_fee_of(self.room_number, basic, plus) is None,
    {
        if let (Some(b), Some(p)) = (basic, plus) {
            if let Some(room_num) = &self.room_number {
                proof {
                    reveal_strlit("[A-Z](?P<floor>\\d)\\d{2}");
                    reveal_strlit("floor");
                }
                let capture = regex_named_capture("[A-Z](?P<floor>\\d)\\d{2}", "floor", room_num.as_str());
                if let Some(text) = capture {
                    match parse_i32(text.as_str()) {
                        Some(f) => {
                            let floor = Decimal::from_i64(f as i64);
                            match floor.checked_times(&p) {
                                Some(step) => {
                                    if b.checked_plus(&step).is_none() {
                                        return None;
                                    }
                                },
                                None => {
                                    return None;
                                },
                            }
                        },
                        None => {
                            return None;
                        },
                    }
                }
            }
        }
        Some(self.calculate_lift(basic, plus))
    }

    /// The electricity fee (price times units used) and the shared electricity
    /// fee (shared price times the area), each where its inputs are known.
    pub fn calculate_electric(&self, basic_config: &PriceTable, room_square: Option<&Decimal>) -> (r: (
        Option<Decimal>,
        Option<Decimal>,
    ))
        requires
            electric_fits(*self, *basic_config, ref_view(room_square)),
        ensures
            opt_view(r.0) == electric_fee_of(*self, *basic_config),
            opt_view(r.1) == electric_share_of(*basic_config, ref_view(room_square)),
    {
        let electric_price = basic_config.get_price(BasicPriceType::ElectricFee);
        let electric_share_price = basic_config.get_price(BasicPriceType::ElectricShareFee);
        let mut ele_total = None;
        if let (Some(electric_num), Some(electric_pri)) = (self.electricity_meter_sub, electric_price) {
            ele_total = Some(electric_pri.times(&Decimal::from_i64(electric_num)));
        }
        let mut ele_share = None;
        if let (Some(share_price), Some(square)) = (electric_share_price, room_square) {
            ele_share = Some(share_price.times(square));
        }
        (ele_total, ele_share)
    }

    /// The water fee (price times units used) and the shared water fee (the
    /// water fee times the share rate), where units and both prices are known.
    pub fn calculate_water(&self, basic_config: &PriceTable) -> (r: Option<(Decimal, Decimal)>)
        requires
            water_fits(*self, *basic_config),
        ensures
            match r {
                Some((total, share)) => water_fees_of(*self, *basic_config) == Some((total@, share@)),
                None => water_fees_of(*self, *basic_config) is None,
            },
    {
        let water_price = basic_config.get_price(BasicPriceType::WaterFee);
        let water_share_price = basic_config.get_price(BasicPriceType::WaterShareFee);
        if let (Some(water_num), Some(water_pri), Some(water_share_pri)) = (
            self.water_meter_sub,
            water_price,
            water_share_price,
        ) {
            let water_total = water_pri.times(&Decimal::from_i64(water_num));
            let water_share = water_total.times(&water_share_pri);
            Some((water_total, water_share))
        } else {
            None
        }
    }
}

/// Units used between two readings: the difference where both are known, the
/// current reading where only it is known, else none.
pub open spec fn units_used(before: Option<i64>, now: Option<i64>) -> Option<int> {
    match (before, now) {
        (Some(b), Some(n)) => Some(n - b),
        (None, Some(n)) => Some(n as int),
        _ => None,
    }
}

pub open spec fn units_fit(before: Option<i64>, now: Option<i64>) -> bool {
    match units_used(before, now) {
        Some(u) => i64::MIN <= u <= i64::MAX,
        None => true,
    }
}

/// Units used between two readings, as `units_used` states.
pub fn meter_sub(before: Option<i64>, now: Option<i64>) -> (r: Option<i64>)
    requires
        units_fit(before, now),
    ensures
        r matches Some(v) ==> units_used(before, now) == Some(v as int),
        r is None ==> units_used(before, now) is None,
{
    match (before, now) {
        (Some(b), Some(n)) => Some(n - b),
        (None, Some(n)) => Some(n),
        _ => None,
    }
}

/// A record of readings that derives its units used from its readings.
pub trait ReCalculator: Sized {
    /// The units used fit in an `i64`.
    spec fn readings_fit(&self) -> bool;

    /// The record with the units used derived from the readings.
    fn re_calculate(self) -> Self
        requires
            self.readings_fit(),
    ;
}

/// A change to the readings of a room.
pub struct RoomInfoDetailUpdatePo {
    pub id: i64,
    pub water_meter_num_before: Option<i64>,
    pub water_meter_num: Option<i64>,
    pub water_meter_sub: Option<i64>,
    pub electricity_meter_num_before: Option<i64>,
    pub electricity_meter_num: Option<i64>,
    pub electricity_meter_sub: Option<i64>,
    pub month_version: Option<String>,
    pub comment: Option<String>,
    pub create_by: Option<String>,
    pub update_by: Option<String>,
    pub create_time: Option<NaiveDateTime>,
    pub update_time: Option<NaiveDateTime>,
}

impl RoomInfoDetailUpdatePo {
    /// The four readings that the change leaves open are taken from the stored
    /// record; nothing else changes.
    pub fn full_filed(self, info_po: &RoomInfoDetailPo) -> (r: Self)
        ensures
            r == (RoomInfoDetailUpdatePo {
                water_meter_num_before: if self.water_meter_num_before is None {
                    info_po.water_meter_num_before
                } else {
                    self.water_meter_num_before
                },
                water_meter_num: if self.water_meter_num is None {
                    info_po.water_meter_num
                } else {
                    self.water_meter_num
                },
                electricity_meter_num_before: if self.electricity_meter_num_before is None {
                    info_po.electricity_meter_num_before
                } else {
                    self.electricity_meter_num_before
                },
                electricity_meter_num: if self.electricity_meter_num is None {
                    info_po.electricity_meter_num
                } else {
                    self.electricity_meter_num
                },
                ..self
            }),
    {
        let mut s = self;
        if s.water_meter_num_before.is_none() {
            s.water_meter_num_before = info_po.water_meter_num_before;
        }
        if s.water_meter_num.is_none() {
            s.water_meter_num = info_po.water_meter_num;
        }
        if s.electricity_meter_num_before.is_none() {
            s.electricity_meter_num_before = info_po.electricity_meter_num_before;
        }
        if s.electricity_meter_num.is_none() {
            s.electricity_meter_num = info_po.electricity_meter_num;
        }
        s
    }
}

impl ReCalculator for RoomInfoDetailUpdatePo {
    open spec fn readings_fit(&self) -> bool {
        units_fit(self.water_meter_num_before, self.water_meter_num) && units_fit(
            self.electricity_meter_num_before,
            self.electricity_meter_num,
        )
    }

    /// Sets the water and electricity units used from the readings; nothing
    /// else changes.
    fn re_calculate(self) -> (r: Self)
        ensures
            units_used(self.water_meter_num_before, self.water_meter_num) == match r.water_meter_sub {
                Some(v) => Some(v as int),
                None => None,
            },
            units_used(self.electricity_meter_num_before, self.electricity_meter_num)
                == match r.electricity_meter_sub {
                Some(v) => Some(v as int),
                None => None,
            },
            r == (RoomInfoDetailUpdatePo {
                water_meter_sub: r.water_meter_sub,
                electricity_meter_sub: r.electricity_meter_sub,
                ..self
            }),
    {
        let mut s = self;
        s.water_meter_sub = meter_sub(s.water_meter_num_before, s.water_meter_num);
        s.electricity_meter_sub = meter_sub(s.electricity_meter_num_before, s.electricity_meter_num);
        s
    }
}

/// A new record of readings.
pub struct RoomInfoDetailInsertPo {
    pub room_number: Option<String>,
    pub water_meter_num_before: Option<i64>,
    pub water_meter_num: Option<i64>,
    pub water_meter_sub: Option<i64>,
    pub electricity_meter_num_before: Option<i64>,
    pub electricity_meter_num: Option<i64>,
    pub electricity_meter_sub: Option<i64>,
    pub month_version: Option<String>,
    pub comment: Option<String>,
    pub create_by: Option<String>,
    pub update_by: Option<String>,
    pub create_time: Option<NaiveDateTime>,
    pub update_time: Option<NaiveDateTime>,
    pub room_owner_name: Option<String>,
    pub delete_at: Option<NaiveDateTime>,
}

impl ReCalculator for RoomInfoDetailInsertPo {
    open spec fn readings_fit(&self) -> bool {
        units_fit(self.water_meter_num_before, self.water_meter_num) && units_fit(
            self.electricity_meter_num_before,
            self.electricity_meter_num,
        )
    }

    /// Sets the water and electricity units used from the readings; nothing
    /// else changes.
    fn re_calculate(self) -> (r: Self)
        ensures
            units_used(self.water_meter_num_before, self.water_meter_num) == match r.water_meter_sub {
                Some(v) => Some(v as int),
                None => None,
            },
            units_used(self.electricity_meter_num_before, self.electricity_meter_num)
                == match r.electricity_meter_sub {
                Some(v) => Some(v as int),
                None => None,
            },
            r == (RoomInfoDetailInsertPo {
                water_meter_sub: r.water_meter_sub,
                electricity_meter_sub: r.electricity_meter_sub,
                ..self
            }),
    {
        let mut s = self;
        s.water_meter_sub = meter_sub(s.water_meter_num_before, s.water_meter_num);
        s.electricity_meter_sub = meter_sub(s.electricity_meter_num_before, s.electricity_meter_num);
        s
    }
}

} // verus!
