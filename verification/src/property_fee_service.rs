//! The monthly run: bills for every room from its readings, its owner and the
//! price table; late-payment arrears; edits of a bill; readings of a new month.

use vstd::prelude::*;
use chrono::NaiveDateTime;
use crate::component::FeeCalculator;
use crate::decimal::{Dec, Decimal};
use crate::error::AppError;
use crate::owner_fee::OwnerFeeDetailPo;
use crate::owner_info::{
    management_fee_fits, management_fee_of, part_fee_for, part_fee_ready, OwnerBasicInfoPo, RoomType,
};
use crate::price_basic::{BasicPriceType, PriceTable};
use crate::property_fee::{
    checked_sum_fees, opt_view, opt_views, totals_fit, totals_of, update_of, PropertyFeeDetailInsertPo,
    PropertyFeeDetailPo, PropertyFeeDetailUpdatePo,
};
use crate::room_info::{
    ref_view, electric_fee_of, electric_fits, electric_share_of, lift_fee_of, lift_ready, water_fees_of,
    water_fits, RoomInfoDetailInsertPo, RoomInfoDetailPo,
};
use crate::text::{i64_text, int_text, str_equal};
use crate::grouping::{group_pairs, has_key, is_grouping, values_of};

verus! {

/// The version of a month: `HSMZ-<year>-<month>`.
pub fn init_current_month_version(year: i32, month: u32) -> (r: String)
    ensures
        r@ == "HSMZ-"@ + int_text(year as int) + "-"@ + int_text(month as int),
{
    proof {
        reveal_strlit("HSMZ-");
        reveal_strlit("-");
    }
    let mut s = String::from_str("HSMZ-");
    let y = i64_text(year as i64);
    s.append(y.as_str());
    s.append("-");
    let m = i64_text(month as i64);
    s.append(m.as_str());
    s
}

/// Whether the totals of `existing` with `update_po` applied fit the machine,
/// as `edit_property_fee` needs.
pub fn edit_fits(existing: &PropertyFeeDetailPo, update_po: &PropertyFeeDetailUpdatePo) -> (r: bool)
    ensures
        r == update_of(*existing).updated_with(*update_po).fee_fits(),
{
    let fees = vec![
        pick(update_po.management_fee, existing.management_fee),
        pick(update_po.part_fee, existing.part_fee),
        pick(update_po.lift_fee, existing.lift_fee),
        pick(update_po.machine_room_renovation_fee, existing.machine_room_renovation_fee),
        pick(update_po.electric_fee, existing.electric_fee),
        pick(update_po.electric_share_fee, existing.electric_share_fee),
        pick(update_po.water_fee, existing.water_fee),
        pick(update_po.water_share_fee, existing.water_share_fee),
        pick(update_po.liquidate_fee, existing.liquidate_fee),
    ];
    let ghost u = update_of(*existing).updated_with(*update_po);
    assert(opt_views(fees@) =~= u.fee_items());
    match checked_sum_fees(&fees) {
        Some(total) => match pick(update_po.pre_store_fee, existing.pre_store_fee) {
            Some(p) => total.checked_plus(&p).is_some(),
            None => true,
        },
        None => false,
    }
}

fn pick(new: Option<Decimal>, old: Option<Decimal>) -> (r: Option<Decimal>)
    ensures
        r == crate::property_fee::overridden(old, new),
{
    match new {
        Some(v) => Some(v),
        None => old,
    }
}

/// The refusal of an edit of a bill from which owner-fee lines were generated.
pub fn edit_property_fee(
    existing: &PropertyFeeDetailPo,
    update_po: PropertyFeeDetailUpdatePo,
    owner_fee_exists: bool,
) -> (r: Result<PropertyFeeDetailUpdatePo, AppError>)
    requires
        update_of(*existing).updated_with(update_po).fee_fits(),
    ensures
        existing.room_number is None || existing.record_version is None ==> r
            == Err::<PropertyFeeDetailUpdatePo, AppError>(AppError::DataNotFound),
        existing.room_number is Some && existing.record_version is Some && owner_fee_exists ==> r
            == Err::<PropertyFeeDetailUpdatePo, AppError>(AppError::OwnerFeeDetailExist),
        existing.room_number is Some && existing.record_version is Some && !owner_fee_exists ==> (r
            matches Ok(p) && ({
            let u = update_of(*existing).updated_with(update_po);
            &&& p == (PropertyFeeDetailUpdatePo {
                total_fee: p.total_fee,
                total_charge: p.total_charge,
                ..u
            })
            &&& p.total_fee matches Some(t) && t@ == totals_of(u.fee_items(), opt_view(u.pre_store_fee)).0
            &&& p.total_charge matches Some(c) && c@ == totals_of(u.fee_items(), opt_view(u.pre_store_fee)).1
        })),
{
    if existing.room_number.is_none() || existing.record_version.is_none() {
        return Err(AppError::DataNotFound);
    }
    if owner_fee_exists {
        return Err(AppError::OwnerFeeDetailExist);
    }
    let mut exist_po = PropertyFeeDetailUpdatePo::from(existing);
    exist_po.update(update_po);
    exist_po.fee_calculate();
    Ok(exist_po)
}

/// The sum of the amounts of `lines`, first to last, as `reduce` adds them.
pub open spec fn amount_sum(lines: Seq<OwnerFeeDetailPo>) -> Dec
    decreases lines.len(),
{
    if lines.len() <= 1 {
        if lines.len() == 1 {
            lines[0].amount@
        } else {
            Dec::zero()
        }
    } else {
        amount_sum(lines.drop_last()).plus(lines.last().amount@)
    }
}

pub open spec fn amount_sum_fits(lines: Seq<OwnerFeeDetailPo>) -> bool
    decreases lines.len(),
{
    if lines.len() <= 1 {
        true
    } else {
        amount_sum_fits(lines.drop_last()) && amount_sum(lines.drop_last()).plus_fits(lines.last().amount@)
    }
}

proof fn lemma_amount_sum_fits_prefix(lines: Seq<OwnerFeeDetailPo>, k: int)
    requires
        1 <= k <= lines.len(),
        amount_sum_fits(lines),
    ensures
        amount_sum_fits(lines.take(k)),
    decreases lines.len() - k,
{
    if k < lines.len() {
        assert(lines.take(lines.len() as int) =~= lines);
        lemma_amount_sum_fits_prefix(lines.drop_last(), k);
        assert(lines.drop_last().take(k) =~= lines.take(k));
    } else {
        assert(lines.take(k) =~= lines);
    }
}

/// The arrears of a room: the sum of the amounts of its unpaid lines, none
/// where it has none.
pub fn arrears(lines: &Vec<OwnerFeeDetailPo>) -> (r: Option<Decimal>)
    requires
        amount_sum_fits(lines@),
    ensures
        lines.len() == 0 ==> r is None,
        lines.len() > 0 ==> (r matches Some(d) && d@ == amount_sum(lines@)),
{
    if lines.len() == 0 {
        return None;
    }
    let mut total = lines[0].amount;
    let mut i: usize = 1;
    assert(lines@.take(1).len() == 1);
    while i < lines.len()
        invariant
            1 <= i <= lines.len(),
            amount_sum_fits(lines@),
            total@ == amount_sum(lines@.take(i as int)),
        decreases lines.len() - i,
    {
        proof {
            lemma_amount_sum_fits_prefix(lines@, i + 1);
            let t = lines@.take(i + 1);
            assert(t.drop_last() =~= lines@.take(i as int));
            assert(t.last() == lines@[i as int]);
        }
        total = total.plus(&lines[i].amount);
        i = i + 1;
    }
    assert(lines@.take(i as int) =~= lines@);
    Some(total)
}

/// The arrears of a room as `arrears` answers them, or `None` where a partial
/// sum leaves the machine range.
pub fn checked_arrears(lines: &Vec<OwnerFeeDetailPo>) -> (r: Option<Option<Decimal>>)
    ensures
        r is Some <==> amount_sum_fits(lines@),
        r matches Some(a) ==> (lines.len() == 0 ==> a is None) && (lines.len() > 0 ==> (a matches Some(
            d,
        ) && d@ == amount_sum(lines@))),
{
    if lines.len() == 0 {
        return Some(None);
    }
    let mut total = lines[0].amount;
    let mut i: usize = 1;
    assert(lines@.take(1).len() == 1);
    while i < lines.len()
        invariant
            1 <= i <= lines.len(),
            amount_sum_fits(lines@.take(i as int)),
            total@ == amount_sum(lines@.take(i as int)),
        decreases lines.len() - i,
    {
        let ghost t = lines@.take(i + 1);
        assert(t.drop_last() =~= lines@.take(i as int));
        assert(t.last() == lines@[i as int]);
        match total.checked_plus(&lines[i].amount) {
            Some(next) => {
                total = next;
            },
            None => {
                proof {
                    assert(!amount_sum_fits(t));
                    if amount_sum_fits(lines@) {
                        lemma_amount_sum_fits_prefix(lines@, i + 1);
                    }
                }
                return None;
            },
        }
        i = i + 1;
    }
    assert(lines@.take(i as int) =~= lines@);
    Some(Some(total))
}

/// The owner of room `room`; the later one counts where two have the room, as
/// collecting them into a map by room number does.
pub open spec fn owner_of(owners: Seq<OwnerBasicInfoPo>, room: Seq<char>) -> Option<OwnerBasicInfoPo>
    decreases owners.len(),
{
    if owners.len() == 0 {
        None
    } else if owners.last().room_number@ == room {
        Some(owners.last())
    } else {
        owner_of(owners.drop_last(), room)
    }
}

/// The owner of a room, as `owner_of` states.
pub fn find_owner<'a>(owners: &'a Vec<OwnerBasicInfoPo>, room: &str) -> (r: Option<&'a OwnerBasicInfoPo>)
    ensures
        match r {
            Some(o) => owner_of(owners@, room@) == Some(*o),
            None => owner_of(owners@, room@) is None,
        },
{
    let mut i = owners.len();
    assert(owners@.take(i as int) =~= owners@);
    while i > 0
        invariant
            i <= owners.len(),
            owner_of(owners@, room@) == owner_of(owners@.take(i as int), room@),
        decreases i,
    {
        let ghost prefix = owners@.take(i as int);
        assert(prefix.drop_last() =~= owners@.take(i - 1));
        assert(prefix.last() == owners@[i - 1]);
        if str_equal(owners[i - 1].room_number.as_str(), room) {
            return Some(&owners[i - 1]);
        }
        i = i - 1;
    }
    None
}

/// `room` is among the texts of `set`.
pub open spec fn holds_text(set: Seq<String>, room: Seq<char>) -> bool {
    exists|i: int| 0 <= i < set.len() && #[trigger] set[i]@ == room
}

/// Whether `room` is among the texts of `set`.
pub fn contains_text(set: &Vec<String>, room: &str) -> (r: bool)
    ensures
        r == holds_text(set@, room@),
{
    let mut i: usize = 0;
    while i < set.len()
        invariant
            i <= set.len(),
            forall|k: int| 0 <= k < i ==> #[trigger] set@[k]@ != room@,
        decreases set.len() - i,
    {
        if str_equal(set[i].as_str(), room) {
            return true;
        }
        i = i + 1;
    }
    false
}

/// The fees of the bill of a room, in the order in which they are totalled.
pub open spec fn room_fee_items(
    info: RoomInfoDetailPo,
    owner: OwnerBasicInfoPo,
    config: PriceTable,
    liquidate_fee: Option<Decimal>,
) -> Seq<Option<Dec>> {
    let water = water_fees_of(info, config);
    seq![
        management_fee_of(owner, config),
        part_fee_for(owner, config),
        lift_fee_of(
            info.room_number,
            config.price(BasicPriceType::LiftFeeBasic),
            config.price(BasicPriceType::LiftFeePlus),
        ),
        opt_view(config.price(BasicPriceType::MachineRoomRenovationFee)),
        electric_fee_of(info, config),
        electric_share_of(config, opt_view(owner.room_square)),
        match water {
            Some((t, _)) => Some(t),
            None => None,
        },
        match water {
            Some((_, s)) => Some(s),
            None => None,
        },
        opt_view(liquidate_fee),
    ]
}

/// Every fee of the bill of a room, and its total, can be computed.
pub open spec fn room_fee_ready(
    info: RoomInfoDetailPo,
    owner: OwnerBasicInfoPo,
    config: PriceTable,
    liquidate_fee: Option<Decimal>,
) -> bool {
    &&& management_fee_fits(owner, config)
    &&& part_fee_ready(owner, config)
    &&& lift_ready(
        info.room_number,
        config.price(BasicPriceType::LiftFeeBasic),
        config.price(BasicPriceType::LiftFeePlus),
    )
    &&& electric_fits(info, config, opt_view(owner.room_square))
    &&& water_fits(info, config)
    &&& totals_fit(room_fee_items(info, owner, config, liquidate_fee), None)
}

/// Whether every fee of the bill of a room, and its total, can be computed:
/// each product and sum fits the machine, and the floor in the room number
/// reads as a number.
pub fn room_ready(
    info: &RoomInfoDetailPo,
    owner: &OwnerBasicInfoPo,
    config: &PriceTable,
    liquidate_fee: Option<Decimal>,
) -> (r: bool)
    ensures
        r == room_fee_ready(*info, *owner, *config, liquidate_fee),
{
    // management fee
    let kind = match owner.room_type {
        RoomType::Common => BasicPriceType::ManagementFee,
        RoomType::Business => BasicPriceType::BusinessManageFee,
    };
    if let (Some(square), Some(fee)) = (owner.room_square, config.get_price(kind)) {
        if fee.checked_times(&square).is_none() {
            return false;
        }
    }
    // parking fee
    let car_price = config.get_price(BasicPriceType::CarPartFee);
    let motor_price = config.get_price(BasicPriceType::MotorCyclePartFee);
    let electron_price = config.get_price(BasicPriceType::ElectronCarPartFee);
    if let (Some(car), Some(motor), Some(electron)) = (car_price, motor_price, electron_price) {
        let (car_num, electron_num, motor_num) = match owner.get_vehicle_num() {
            Some(n) => n,
            None => (0, 0, 0),
        };
        let a = car.checked_times(&Decimal::from_u64(car_num));
        let b = motor.checked_times(&Decimal::from_u64(motor_num));
        let c = electron.checked_times(&Decimal::from_u64(electron_num));
        match (a, b, c) {
            (Some(a), Some(b), Some(c)) => match a.checked_plus(&b) {
                Some(ab) => {
                    if ab.checked_plus(&c).is_none() {
                        return false;
                    }
                },
                None => {
                    return false;
                },
            },
            _ => {
                return false;
            },
        }
    }
    // lift fee
    let lift_basic = config.get_price(BasicPriceType::LiftFeeBasic);
    let lift_plus = config.get_price(BasicPriceType::LiftFeePlus);
    if info.try_calculate_lift(lift_basic, lift_plus).is_none() {
        return false;
    }
    // electricity
    if let (Some(units), Some(p)) = (info.electricity_meter_sub, config.get_price(BasicPriceType::ElectricFee)) {
        if p.checked_times(&Decimal::from_i64(units)).is_none() {
            return false;
        }
    }
    let share_price = config.get_price(BasicPriceType::ElectricShareFee);
    match (share_price, owner.room_square) {
        (Some(p), Some(square)) => {
            if p.checked_times(&square).is_none() {
                return false;
            }
        },
        _ => {},
    }
    let square_ref = owner.room_square.as_ref();
    assert(ref_view(square_ref) == opt_view(owner.room_square));
    // water
    if let (Some(units), Some(p), Some(share)) = (
        info.water_meter_sub,
        config.get_price(BasicPriceType::WaterFee),
        config.get_price(BasicPriceType::WaterShareFee),
    ) {
        match p.checked_times(&Decimal::from_i64(units)) {
            Some(total) => {
                if total.checked_times(&share).is_none() {
                    return false;
                }
            },
            None => {
                return false;
            },
        }
    }
    // the total of the fees
    let (ele_total, ele_share) = info.calculate_electric(config, square_ref);
    let (water_total, water_share) = match info.calculate_water(config) {
        Some((t, s)) => (Some(t), Some(s)),
        None => (None, None),
    };
    let fees = vec![
        owner.calculate_management_fee(config),
        owner.calculate_part_fee(config),
        info.calculate_lift(lift_basic, lift_plus),
        config.get_price(BasicPriceType::MachineRoomRenovationFee),
        ele_total,
        ele_share,
        water_total,
        water_share,
        liquidate_fee,
    ];
    assert(opt_views(fees@) =~= room_fee_items(*info, *owner, *config, liquidate_fee));
    checked_sum_fees(&fees).is_some()
}

/// The bill of one room for month `version`, or `None` where a fee of the
/// room cannot be computed (`room_ready` answers no).
pub fn try_property_fee_for_room(
    info: &RoomInfoDetailPo,
    owner: &OwnerBasicInfoPo,
    config: &PriceTable,
    liquidate_fee: Option<Decimal>,
    version: &str,
    operator: &str,
) -> (r: Option<PropertyFeeDetailInsertPo>)
    requires
        info.room_number is Some,
    ensures
        r is Some <==> room_fee_ready(*info, *owner, *config, liquidate_fee),
        r matches Some(b) ==> bill_of(b, *info, *owner, *config, liquidate_fee, version@, operator@),
{
    if room_ready(info, owner, config, liquidate_fee) {
        Some(property_fee_for_room(info, owner, config, liquidate_fee, version, operator))
    } else {
        None
    }
}

/// `bill` is the bill of a room of month `version`, booked by `operator`:
/// every fee from the readings, the owner and the price table, the given
/// late-payment fee, no stored money, and the totals.
pub open spec fn bill_of(
    bill: PropertyFeeDetailInsertPo,
    info: RoomInfoDetailPo,
    owner: OwnerBasicInfoPo,
    config: PriceTable,
    liquidate_fee: Option<Decimal>,
    version: Seq<char>,
    operator: Seq<char>,
) -> bool {
    let items = room_fee_items(info, owner, config, liquidate_fee);
    &&& info.room_number matches Some(n) && bill.room_number@ == n@
    &&& bill.room_owner_name == owner.owner_name
    &&& bill.fee_items() == items
    &&& bill.pre_store_fee is None
    &&& bill.record_version@ == version
    &&& bill.create_by@ == operator
    &&& bill.update_by@ == operator
    &&& bill.create_time is None
    &&& bill.update_time is None
    &&& !bill.is_delete
    &&& bill.delete_at is None
    &&& bill.comment is None
    &&& bill.total_fee matches Some(t) && t@ == totals_of(items, None).0
    &&& bill.total_charge matches Some(c) && c@ == totals_of(items, None).1
}

fn clone_opt(s: &Option<String>) -> (r: Option<String>)
    ensures
        r == *s,
{
    match s {
        Some(t) => Some(t.clone()),
        None => None,
    }
}

/// The bill of one room for month `version`.
pub fn property_fee_for_room(
    info: &RoomInfoDetailPo,
    owner: &OwnerBasicInfoPo,
    config: &PriceTable,
    liquidate_fee: Option<Decimal>,
    version: &str,
    operator: &str,
) -> (r: PropertyFeeDetailInsertPo)
    requires
        info.room_number is Some,
        room_fee_ready(*info, *owner, *config, liquidate_fee),
    ensures
        bill_of(r, *info, *owner, *config, liquidate_fee, version@, operator@),
{
    let machine_room_fee = config.get_price(BasicPriceType::MachineRoomRenovationFee);
    let (ele_total, ele_share) = info.calculate_electric(config, owner.room_square.as_ref());
    let (water_total, water_share) = match info.calculate_water(config) {
        Some((t, s)) => (Some(t), Some(s)),
        None => (None, None),
    };
    let lift_fee_basic = config.get_price(BasicPriceType::LiftFeeBasic);
    let lift_fee_plus = config.get_price(BasicPriceType::LiftFeePlus);
    let lift_fee = info.calculate_lift(lift_fee_basic, lift_fee_plus);
    let room_number = match &info.room_number {
        Some(n) => n.clone(),
        None => String::new(),
    };
    let mut po = PropertyFeeDetailInsertPo {
        room_number,
        room_owner_name: clone_opt(&owner.owner_name),
        management_fee: owner.calculate_management_fee(config),
        part_fee: owner.calculate_part_fee(config),
        lift_fee,
        machine_room_renovation_fee: machine_room_fee,
        electric_fee: ele_total,
        electric_share_fee: ele_share,
        water_fee: water_total,
        water_share_fee: water_share,
        liquidate_fee,
        pre_store_fee: None,
        record_version: String::from_str(version),
        create_by: String::from_str(operator),
        update_by: String::from_str(operator),
        create_time: None,
        update_time: None,
        is_delete: false,
        delete_at: None,
        comment: None,
        total_fee: None,
        total_charge: None,
    };
    assert(po.fee_items() =~= room_fee_items(*info, *owner, *config, liquidate_fee));
    po.fee_calculate();
    po
}

/// Room `i` gets a bill: it has no bill of the month yet and it has an owner.
pub open spec fn room_selected(
    rooms: Seq<RoomInfoDetailPo>,
    existing: Seq<String>,
    owners: Seq<OwnerBasicInfoPo>,
    i: int,
) -> bool {
    &&& !holds_text(existing, rooms[i].room_number.unwrap()@)
    &&& owner_of(owners, rooms[i].room_number.unwrap()@) is Some
}

/// The bills of a month: one bill for each room, in order of the rooms, that
/// has no bill of the month yet and has an owner, made from its readings, its
/// owner, the price table and its late-payment fee.
pub open spec fn month_bills(
    bills: Seq<PropertyFeeDetailInsertPo>,
    rooms: Seq<RoomInfoDetailPo>,
    owners: Seq<OwnerBasicInfoPo>,
    existing: Seq<String>,
    config: PriceTable,
    liquidate_fees: Seq<Option<Decimal>>,
    version: Seq<char>,
    operator: Seq<char>,
) -> bool {
    exists|idx: Seq<int>|
        #[trigger] bills_at(idx, bills, rooms, owners, existing, config, liquidate_fees, version, operator)
}

/// `month_bills` with the room of each bill given: bill `j` is the bill of
/// room `idx[j]`.
pub open spec fn bills_at(
    idx: Seq<int>,
    bills: Seq<PropertyFeeDetailInsertPo>,
    rooms: Seq<RoomInfoDetailPo>,
    owners: Seq<OwnerBasicInfoPo>,
    existing: Seq<String>,
    config: PriceTable,
    liquidate_fees: Seq<Option<Decimal>>,
    version: Seq<char>,
    operator: Seq<char>,
) -> bool {
    idx.len() == bills.len() && (forall|a: int, b: int|
        0 <= a < b < idx.len() ==> #[trigger] idx[a] < #[trigger] idx[b]) && (forall|j: int|
        0 <= j < idx.len() ==> 0 <= #[trigger] idx[j] < rooms.len() && room_selected(
            rooms,
            existing,
            owners,
            idx[j],
        ) && bill_of(
            bills[j],
            rooms[idx[j]],
            owner_of(owners, rooms[idx[j]].room_number.unwrap()@).unwrap(),
            config,
            liquidate_fees[idx[j]],
            version,
            operator,
        )) && (forall|i: int|
        0 <= i < rooms.len() && room_selected(rooms, existing, owners, i) ==> exists|j: int|
            0 <= j < idx.len() && #[trigger] idx[j] == i)
}

/// Of the bills of a month, a room that gets a bill has one, and each bill
/// is that of a room that gets one.
proof fn lemma_month_bills_rooms(
    bills: Seq<PropertyFeeDetailInsertPo>,
    rooms: Seq<RoomInfoDetailPo>,
    owners: Seq<OwnerBasicInfoPo>,
    existing: Seq<String>,
    config: PriceTable,
    liquidate_fees: Seq<Option<Decimal>>,
    version: Seq<char>,
    operator: Seq<char>,
)
    requires
        month_bills(bills, rooms, owners, existing, config, liquidate_fees, version, operator),
    ensures
        forall|i: int|
            0 <= i < rooms.len() && room_selected(rooms, existing, owners, i) ==> exists|j: int|
                0 <= j < bills.len() && (#[trigger] bills[j]).room_number@ == (#[trigger] rooms[i]).room_number.unwrap()@,
        forall|j: int|
            0 <= j < bills.len() ==> exists|i: int|
                0 <= i < rooms.len() && room_selected(rooms, existing, owners, i)
                    && (#[trigger] bills[j]).room_number@ == (#[trigger] rooms[i]).room_number.unwrap()@,
{
    let idx = choose|idx: Seq<int>|
        #[trigger] bills_at(idx, bills, rooms, owners, existing, config, liquidate_fees, version, operator);
    assert forall|i: int| 0 <= i < rooms.len() && room_selected(rooms, existing, owners, i) implies exists|j: int|
        0 <= j < bills.len() && (#[trigger] bills[j]).room_number@ == (#[trigger] rooms[i]).room_number.unwrap()@ by {
        let j = choose|j: int| 0 <= j < idx.len() && #[trigger] idx[j] == i;
        assert(bills[j].room_number@ == rooms[i].room_number.unwrap()@);
    }
    assert forall|j: int| 0 <= j < bills.len() implies exists|i: int|
        0 <= i < rooms.len() && room_selected(rooms, existing, owners, i)
            && (#[trigger] bills[j]).room_number@ == (#[trigger] rooms[i]).room_number.unwrap()@ by {
        let i = idx[j];
        assert(bills[j].room_number@ == rooms[i].room_number.unwrap()@);
    }
}

/// Running the bills of a month again, once the rooms that got bills count as
/// billed, makes no bill: no room gets two bills in one month.
pub proof fn lemma_second_month_run_bills_nothing(
    bills: Seq<PropertyFeeDetailInsertPo>,
    bills2: Seq<PropertyFeeDetailInsertPo>,
    rooms: Seq<RoomInfoDetailPo>,
    owners: Seq<OwnerBasicInfoPo>,
    existing: Seq<String>,
    existing2: Seq<String>,
    config: PriceTable,
    liquidate_fees: Seq<Option<Decimal>>,
    version: Seq<char>,
    operator: Seq<char>,
)
    requires
        month_bills(bills, rooms, owners, existing, config, liquidate_fees, version, operator),
        forall|k: int| 0 <= k < existing.len() ==> holds_text(existing2, #[trigger] existing[k]@),
        forall|j: int| 0 <= j < bills.len() ==> holds_text(existing2, (#[trigger] bills[j]).room_number@),
        month_bills(bills2, rooms, owners, existing2, config, liquidate_fees, version, operator),
    ensures
        bills2.len() == 0,
{
    lemma_month_bills_rooms(bills, rooms, owners, existing, config, liquidate_fees, version, operator);
    lemma_month_bills_rooms(bills2, rooms, owners, existing2, config, liquidate_fees, version, operator);
    if bills2.len() > 0 {
        let i = choose|i: int|
            0 <= i < rooms.len() && room_selected(rooms, existing2, owners, i)
                && (#[trigger] bills2[0]).room_number@ == (#[trigger] rooms[i]).room_number.unwrap()@;
        let room = rooms[i].room_number.unwrap()@;
        assert(!holds_text(existing, room)) by {
            if holds_text(existing, room) {
                let k = choose|k: int| 0 <= k < existing.len() && #[trigger] existing[k]@ == room;
                assert(holds_text(existing2, existing[k]@));
            }
        }
        assert(room_selected(rooms, existing, owners, i));
        let j = choose|j: int|
            0 <= j < bills.len() && (#[trigger] bills[j]).room_number@ == (#[trigger] rooms[i]).room_number.unwrap()@;
        assert(holds_text(existing2, bills[j].room_number@));
    }
}

/// Every room that gets a bill can have its fees computed.
pub open spec fn month_ready(
    rooms: Seq<RoomInfoDetailPo>,
    owners: Seq<OwnerBasicInfoPo>,
    existing: Seq<String>,
    config: PriceTable,
    liquidate_fees: Seq<Option<Decimal>>,
) -> bool {
    forall|i: int|
        0 <= i < rooms.len() && room_selected(rooms, existing, owners, i) ==> room_fee_ready(
            #[trigger] rooms[i],
            owner_of(owners, rooms[i].room_number.unwrap()@).unwrap(),
            config,
            liquidate_fees[i],
        )
}

/// The bills of a month: for every room, in order, that has no bill of the
/// month yet (`exist_room_number`) and has an owner, its bill, with the
/// late-payment fee `liquidate_fees[i]` of room `i`.
pub fn build_property_fees(
    room_info: &Vec<RoomInfoDetailPo>,
    owner_info: &Vec<OwnerBasicInfoPo>,
    exist_room_number: &Vec<String>,
    config: &PriceTable,
    liquidate_fees: &Vec<Option<Decimal>>,
    version: &str,
    operator: &str,
) -> (r: Vec<PropertyFeeDetailInsertPo>)
    requires
        liquidate_fees.len() == room_info.len(),
        forall|i: int| 0 <= i < room_info.len() ==> (#[trigger] room_info@[i]).room_number is Some,
        forall|i: int|
            0 <= i < room_info.len() && room_selected(room_info@, exist_room_number@, owner_info@, i)
                ==> room_fee_ready(
                #[trigger] room_info@[i],
                owner_of(owner_info@, room_info@[i].room_number.unwrap()@).unwrap(),
                *config,
                liquidate_fees@[i],
            ),
    ensures
        month_bills(
            r@,
            room_info@,
            owner_info@,
            exist_room_number@,
            *config,
            liquidate_fees@,
            version@,
            operator@,
        ),
{
    let mut bills: Vec<PropertyFeeDetailInsertPo> = Vec::new();
    let ghost mut idx: Seq<int> = Seq::empty();
    let mut i: usize = 0;
    while i < room_info.len()
        invariant
            i <= room_info.len(),
            liquidate_fees.len() == room_info.len(),
            forall|k: int| 0 <= k < room_info.len() ==> (#[trigger] room_info@[k]).room_number is Some,
            forall|k: int|
                0 <= k < room_info.len() && room_selected(room_info@, exist_room_number@, owner_info@, k)
                    ==> room_fee_ready(
                    #[trigger] room_info@[k],
                    owner_of(owner_info@, room_info@[k].room_number.unwrap()@).unwrap(),
                    *config,
                    liquidate_fees@[k],
                ),
            idx.len() == bills.len(),
            forall|a: int, b: int| 0 <= a < b < idx.len() ==> #[trigger] idx[a] < #[trigger] idx[b],
            forall|j: int|
                0 <= j < idx.len() ==> 0 <= #[trigger] idx[j] < i && room_selected(
                    room_info@,
                    exist_room_number@,
                    owner_info@,
                    idx[j],
                ) && bill_of(
                    bills@[j],
                    room_info@[idx[j]],
                    owner_of(owner_info@, room_info@[idx[j]].room_number.unwrap()@).unwrap(),
                    *config,
                    liquidate_fees@[idx[j]],
                    version@,
                    operator@,
                ),
            forall|k: int|
                0 <= k < i && room_selected(room_info@, exist_room_number@, owner_info@, k) ==> exists|j: int|
                    0 <= j < idx.len() && #[trigger] idx[j] == k,
        decreases room_info.len() - i,
    {
        let info = &room_info[i];
        assert(room_info@[i as int].room_number is Some);
        let room = match &info.room_number {
            Some(n) => n.as_str(),
            None => "",
        };
        if !contains_text(exist_room_number, room) {
            match find_owner(owner_info, room) {
                Some(owner) => {
                    proof {
                        assert(room_selected(room_info@, exist_room_number@, owner_info@, i as int));
                    }
                    let bill = property_fee_for_room(
                        info,
                        owner,
                        config,
                        liquidate_fees[i],
                        version,
                        operator,
                    );
                    let ghost before = bills@;
                    bills.push(bill);
                    proof {
                        let old_idx = idx;
                        idx = idx.push(i as int);
                        assert forall|j: int| 0 <= j < idx.len() implies 0 <= #[trigger] idx[j] < i + 1
                            && room_selected(room_info@, exist_room_number@, owner_info@, idx[j])
                            && bill_of(
                            bills@[j],
                            room_info@[idx[j]],
                            owner_of(owner_info@, room_info@[idx[j]].room_number.unwrap()@).unwrap(),
                            *config,
                            liquidate_fees@[idx[j]],
                            version@,
                            operator@,
                        ) by {
                            if j < old_idx.len() {
                                assert(idx[j] == old_idx[j]);
                                assert(bills@[j] == before[j]);
                            }
                        }
                        assert forall|k: int|
                            0 <= k < i + 1 && room_selected(room_info@, exist_room_number@, owner_info@, k)
                                implies exists|j: int| 0 <= j < idx.len() && #[trigger] idx[j] == k by {
                            if k < i {
                                let j = choose|j: int| 0 <= j < old_idx.len() && #[trigger] old_idx[j] == k;
                                assert(idx[j] == old_idx[j]);
                            } else {
                                assert(idx[old_idx.len() as int] == k);
                            }
                        }
                    }
                },
                None => {},
            }
        }
        i = i + 1;
    }
    assert(bills_at(
        idx,
        bills@,
        room_info@,
        owner_info@,
        exist_room_number@,
        *config,
        liquidate_fees@,
        version@,
        operator@,
    ));
    bills
}

/// The bills of a month as `build_property_fees` makes them, or `None` where
/// a fee of some room that gets a bill cannot be computed.
pub fn try_build_property_fees(
    room_info: &Vec<RoomInfoDetailPo>,
    owner_info: &Vec<OwnerBasicInfoPo>,
    exist_room_number: &Vec<String>,
    config: &PriceTable,
    liquidate_fees: &Vec<Option<Decimal>>,
    version: &str,
    operator: &str,
) -> (r: Option<Vec<PropertyFeeDetailInsertPo>>)
    requires
        liquidate_fees.len() == room_info.len(),
        forall|i: int| 0 <= i < room_info.len() ==> (#[trigger] room_info@[i]).room_number is Some,
    ensures
        r is Some <==> month_ready(room_info@, owner_info@, exist_room_number@, *config, liquidate_fees@),
        r matches Some(bills) ==> month_bills(
            bills@,
            room_info@,
            owner_info@,
            exist_room_number@,
            *config,
            liquidate_fees@,
            version@,
            operator@,
        ),
{
    let mut i: usize = 0;
    while i < room_info.len()
        invariant
            i <= room_info.len(),
            liquidate_fees.len() == room_info.len(),
            forall|k: int| 0 <= k < room_info.len() ==> (#[trigger] room_info@[k]).room_number is Some,
            forall|k: int|
                0 <= k < i && room_selected(room_info@, exist_room_number@, owner_info@, k) ==> room_fee_ready(
                    #[trigger] room_info@[k],
                    owner_of(owner_info@, room_info@[k].room_number.unwrap()@).unwrap(),
                    *config,
                    liquidate_fees@[k],
                ),
        decreases room_info.len() - i,
    {
        let info = &room_info[i];
        assert(room_info@[i as int].room_number is Some);
        let room = match &info.room_number {
            Some(n) => n.as_str(),
            None => "",
        };
        if !contains_text(exist_room_number, room) {
            match find_owner(owner_info, room) {
                Some(owner) => {
                    if !room_ready(info, owner, config, liquidate_fees[i]) {
                        assert(room_selected(room_info@, exist_room_number@, owner_info@, i as int));
                        return None;
                    }
                },
                None => {},
            }
        }
        i = i + 1;
    }
    Some(
        build_property_fees(
            room_info,
            owner_info,
            exist_room_number,
            config,
            liquidate_fees,
            version,
            operator,
        ),
    )
}

/// The readings of the new month of a room: the last readings of the month
/// before become the readings before; the system books them now.
pub open spec fn reading_of(
    row: RoomInfoDetailInsertPo,
    owner: OwnerBasicInfoPo,
    last: Option<RoomInfoDetailPo>,
    version: Seq<char>,
    operator: Seq<char>,
    now: Option<NaiveDateTime>,
    epoch: NaiveDateTime,
) -> bool {
    &&& row.room_number matches Some(n) && n@ == owner.room_number@
    &&& row.room_owner_name == owner.owner_name
    &&& row.water_meter_num_before == match last {
        Some(l) => l.water_meter_num,
        None => None,
    }
    &&& row.electricity_meter_num_before == match last {
        Some(l) => l.electricity_meter_num,
        None => None,
    }
    &&& row.water_meter_num is None && row.water_meter_sub is None
    &&& row.electricity_meter_num is None && row.electricity_meter_sub is None
    &&& row.month_version matches Some(v) && v@ == version
    &&& row.comment is None
    &&& row.create_by matches Some(c) && c@ == operator
    &&& row.update_by matches Some(u) && u@ == operator
    &&& row.create_time == now && row.update_time == now
    &&& row.delete_at == Some(epoch)
}

/// The readings of last month of room `room`; the later one counts where two
/// have the room.
pub open spec fn last_reading(rooms: Seq<RoomInfoDetailPo>, room: Seq<char>) -> Option<RoomInfoDetailPo>
    decreases rooms.len(),
{
    if rooms.len() == 0 {
        None
    } else if rooms.last().room_number matches Some(n) && n@ == room {
        Some(rooms.last())
    } else {
        last_reading(rooms.drop_last(), room)
    }
}

fn find_last_reading<'a>(rooms: &'a Vec<RoomInfoDetailPo>, room: &str) -> (r: Option<&'a RoomInfoDetailPo>)
    ensures
        match r {
            Some(l) => last_reading(rooms@, room@) == Some(*l),
            None => last_reading(rooms@, room@) is None,
        },
{
    let mut i = rooms.len();
    assert(rooms@.take(i as int) =~= rooms@);
    while i > 0
        invariant
            i <= rooms.len(),
            last_reading(rooms@, room@) == last_reading(rooms@.take(i as int), room@),
        decreases i,
    {
        let ghost prefix = rooms@.take(i as int);
        assert(prefix.drop_last() =~= rooms@.take(i - 1));
        assert(prefix.last() == rooms@[i - 1]);
        let matches = match &rooms[i - 1].room_number {
            Some(n) => str_equal(n.as_str(), room),
            None => false,
        };
        if matches {
            return Some(&rooms[i - 1]);
        }
        i = i - 1;
    }
    None
}

/// The rows of readings of a new month: one row for every owner, in order,
/// whose room has no readings of the month yet, with the readings of last
/// month carried over.
pub open spec fn month_readings(
    rows: Seq<RoomInfoDetailInsertPo>,
    owners: Seq<OwnerBasicInfoPo>,
    last: Seq<RoomInfoDetailPo>,
    existing: Seq<String>,
    version: Seq<char>,
    operator: Seq<char>,
    now: Option<NaiveDateTime>,
    epoch: NaiveDateTime,
) -> bool {
    exists|idx: Seq<int>| #[trigger] readings_at(idx, rows, owners, last, existing, version, operator, now, epoch)
}

/// `month_readings` with the owner of each row given: row `j` is that of
/// owner `idx[j]`.
pub open spec fn readings_at(
    idx: Seq<int>,
    rows: Seq<RoomInfoDetailInsertPo>,
    owners: Seq<OwnerBasicInfoPo>,
    last: Seq<RoomInfoDetailPo>,
    existing: Seq<String>,
    version: Seq<char>,
    operator: Seq<char>,
    now: Option<NaiveDateTime>,
    epoch: NaiveDateTime,
) -> bool {
    idx.len() == rows.len() && (forall|a: int, b: int|
        0 <= a < b < idx.len() ==> #[trigger] idx[a] < #[trigger] idx[b]) && (forall|j: int|
        0 <= j < idx.len() ==> 0 <= #[trigger] idx[j] < owners.len() && !holds_text(
            existing,
            owners[idx[j]].room_number@,
        ) && reading_of(
            rows[j],
            owners[idx[j]],
            last_reading(last, owners[idx[j]].room_number@),
            version,
            operator,
            now,
            epoch,
        )) && (forall|i: int|
        0 <= i < owners.len() && !holds_text(existing, #[trigger] owners[i].room_number@)
            ==> exists|j: int| 0 <= j < idx.len() && #[trigger] idx[j] == i)
}

/// Of the readings of a month, an owner whose room has no readings yet has a
/// row, and each row is that of such an owner's room.
proof fn lemma_month_readings_rooms(
    rows: Seq<RoomInfoDetailInsertPo>,
    owners: Seq<OwnerBasicInfoPo>,
    last: Seq<RoomInfoDetailPo>,
    existing: Seq<String>,
    version: Seq<char>,
    operator: Seq<char>,
    now: Option<NaiveDateTime>,
    epoch: NaiveDateTime,
)
    requires
        month_readings(rows, owners, last, existing, version, operator, now, epoch),
    ensures
        forall|i: int|
            0 <= i < owners.len() && !holds_text(existing, (#[trigger] owners[i]).room_number@) ==> exists|j: int|
                0 <= j < rows.len() && (#[trigger] rows[j]).room_number == Some(owners[i].room_number) || (
                rows[j].room_number matches Some(n) && n@ == owners[i].room_number@),
        forall|j: int|
            0 <= j < rows.len() ==> exists|i: int|
                0 <= i < owners.len() && !holds_text(existing, (#[trigger] owners[i]).room_number@)
                    && ((#[trigger] rows[j]).room_number matches Some(n) && n@ == owners[i].room_number@),
{
    let idx = choose|idx: Seq<int>| #[trigger] readings_at(idx, rows, owners, last, existing, version, operator, now, epoch);
    assert forall|i: int| 0 <= i < owners.len() && !holds_text(existing, (#[trigger] owners[i]).room_number@) implies exists|j: int|
        0 <= j < rows.len() && (#[trigger] rows[j]).room_number == Some(owners[i].room_number) || (
        rows[j].room_number matches Some(n) && n@ == owners[i].room_number@) by {
        let j = choose|j: int| 0 <= j < idx.len() && #[trigger] idx[j] == i;
        assert(rows[j].room_number matches Some(n) && n@ == owners[i].room_number@);
    }
    assert forall|j: int| 0 <= j < rows.len() implies exists|i: int|
        0 <= i < owners.len() && !holds_text(existing, (#[trigger] owners[i]).room_number@)
            && ((#[trigger] rows[j]).room_number matches Some(n) && n@ == owners[i].room_number@) by {
        let i = idx[j];
        assert(rows[j].room_number matches Some(n) && n@ == owners[i].room_number@);
    }
}

/// Running the readings of a month again, once the rooms that got rows count
/// as having readings, makes no row: no room gets two rows in one month.
pub proof fn lemma_second_readings_run_makes_nothing(
    rows: Seq<RoomInfoDetailInsertPo>,
    rows2: Seq<RoomInfoDetailInsertPo>,
    owners: Seq<OwnerBasicInfoPo>,
    last: Seq<RoomInfoDetailPo>,
    existing: Seq<String>,
    existing2: Seq<String>,
    version: Seq<char>,
    operator: Seq<char>,
    now: Option<NaiveDateTime>,
    epoch: NaiveDateTime,
)
    requires
        month_readings(rows, owners, last, existing, version, operator, now, epoch),
        forall|k: int| 0 <= k < existing.len() ==> holds_text(existing2, #[trigger] existing[k]@),
        forall|j: int|
            0 <= j < rows.len() ==> ((#[trigger] rows[j]).room_number matches Some(n) && holds_text(existing2, n@)),
        month_readings(rows2, owners, last, existing2, version, operator, now, epoch),
    ensures
        rows2.len() == 0,
{
    lemma_month_readings_rooms(rows, owners, last, existing, version, operator, now, epoch);
    lemma_month_readings_rooms(rows2, owners, last, existing2, version, operator, now, epoch);
    if rows2.len() > 0 {
        let i = choose|i: int|
            0 <= i < owners.len() && !holds_text(existing2, (#[trigger] owners[i]).room_number@)
                && ((#[trigger] rows2[0]).room_number matches Some(n) && n@ == owners[i].room_number@);
        let room = owners[i].room_number@;
        assert(!holds_text(existing, room)) by {
            if holds_text(existing, room) {
                let k = choose|k: int| 0 <= k < existing.len() && #[trigger] existing[k]@ == room;
                assert(holds_text(existing2, existing[k]@));
            }
        }
        let j = choose|j: int|
            0 <= j < rows.len() && (#[trigger] rows[j]).room_number == Some(owners[i].room_number) || (
            rows[j].room_number matches Some(n) && n@ == owners[i].room_number@);
        assert(rows[j].room_number matches Some(n) && holds_text(existing2, n@));
    }
}

/// The readings of a new month: one row for every owner, in order, whose room
/// has no readings of the month yet (`exists_room_info`).
pub fn build_room_readings(
    owner_info_data: &Vec<OwnerBasicInfoPo>,
    last_room_info_data: &Vec<RoomInfoDetailPo>,
    exists_room_info: &Vec<String>,
    current_version: &str,
    operator: &str,
    now: Option<NaiveDateTime>,
    epoch: NaiveDateTime,
) -> (r: Vec<RoomInfoDetailInsertPo>)
    ensures
        month_readings(
            r@,
            owner_info_data@,
            last_room_info_data@,
            exists_room_info@,
            current_version@,
            operator@,
            now,
            epoch,
        ),
{
    let mut rows: Vec<RoomInfoDetailInsertPo> = Vec::new();
    let ghost mut idx: Seq<int> = Seq::empty();
    let mut i: usize = 0;
    while i < owner_info_data.len()
        invariant
            i <= owner_info_data.len(),
            idx.len() == rows.len(),
            forall|a: int, b: int| 0 <= a < b < idx.len() ==> #[trigger] idx[a] < #[trigger] idx[b],
            forall|j: int|
                0 <= j < idx.len() ==> 0 <= #[trigger] idx[j] < i && !holds_text(
                    exists_room_info@,
                    owner_info_data@[idx[j]].room_number@,
                ) && reading_of(
                    rows@[j],
                    owner_info_data@[idx[j]],
                    last_reading(last_room_info_data@, owner_info_data@[idx[j]].room_number@),
                    current_version@,
                    operator@,
                    now,
                    epoch,
                ),
            forall|k: int|
                0 <= k < i && !holds_text(exists_room_info@, #[trigger] owner_info_data@[k].room_number@)
                    ==> exists|j: int| 0 <= j < idx.len() && #[trigger] idx[j] == k,
        decreases owner_info_data.len() - i,
    {
        let owner = &owner_info_data[i];
        if !contains_text(exists_room_info, owner.room_number.as_str()) {
            let last = find_last_reading(last_room_info_data, owner.room_number.as_str());
            let (water_before, electricity_before) = match last {
                Some(l) => (l.water_meter_num, l.electricity_meter_num),
                None => (None, None),
            };
            let row = RoomInfoDetailInsertPo {
                room_number: Some(owner.room_number.clone()),
                room_owner_name: clone_opt(&owner.owner_name),
                water_meter_num_before: water_before,
                water_meter_num: None,
                water_meter_sub: None,
                electricity_meter_num_before: electricity_before,
                electricity_meter_num: None,
                electricity_meter_sub: None,
                month_version: Some(String::from_str(current_version)),
                comment: None,
                create_by: Some(String::from_str(operator)),
                update_by: Some(String::from_str(operator)),
                create_time: now,
                update_time: now,
                delete_at: Some(epoch),
            };
            let ghost before = rows@;
            rows.push(row);
            proof {
                let old_idx = idx;
                idx = idx.push(i as int);
                assert forall|j: int| 0 <= j < idx.len() implies 0 <= #[trigger] idx[j] < i + 1 && !holds_text(
                    exists_room_info@,
                    owner_info_data@[idx[j]].room_number@,
                ) && reading_of(
                    rows@[j],
                    owner_info_data@[idx[j]],
                    last_reading(last_room_info_data@, owner_info_data@[idx[j]].room_number@),
                    current_version@,
                    operator@,
                    now,
                    epoch,
                ) by {
                    if j < old_idx.len() {
                        assert(idx[j] == old_idx[j]);
                        assert(rows@[j] == before[j]);
                    }
                }
                assert forall|k: int|
                    0 <= k < i + 1 && !holds_text(exists_room_info@, #[trigger] owner_info_data@[k].room_number@)
                        implies exists|j: int| 0 <= j < idx.len() && #[trigger] idx[j] == k by {
                    if k < i {
                        let j = choose|j: int| 0 <= j < old_idx.len() && #[trigger] old_idx[j] == k;
                        assert(idx[j] == old_idx[j]);
                    } else {
                        assert(idx[old_idx.len() as int] == k);
                    }
                }
            }
        }
        i = i + 1;
    }
    assert(readings_at(
        idx,
        rows@,
        owner_info_data@,
        last_room_info_data@,
        exists_room_info@,
        current_version@,
        operator@,
        now,
        epoch,
    ));
    rows
}

/// The unpaid lines of the rooms that owe for two lines or more, grouped by
/// room: the rooms are distinct, each group holds all unpaid lines of its room
/// in order, and every room with two unpaid lines or more has its group.
pub open spec fn unpaid_grouping(
    pairs: Seq<(String, OwnerFeeDetailPo)>,
    groups: Seq<(String, Vec<OwnerFeeDetailPo>)>,
) -> bool {
    &&& forall|a: int, b: int|
        0 <= a < b < groups.len() ==> #[trigger] groups[a].0@ != #[trigger] groups[b].0@
    &&& forall|a: int|
        0 <= a < groups.len() ==> (#[trigger] groups[a]).1@ == values_of(pairs, groups[a].0@)
            && groups[a].1.len() >= 2
    &&& forall|i: int|
        0 <= i < pairs.len() && values_of(pairs, pairs[i].0@).len() >= 2 ==> exists|a: int|
            0 <= a < groups.len() && #[trigger] groups[a].0@ == #[trigger] pairs[i].0@
}

/// Groups the unpaid lines by room, keeping the rooms that owe for two lines
/// or more.
pub fn group_unpaid_streams(streams: Vec<OwnerFeeDetailPo>) -> (r: Vec<(String, Vec<OwnerFeeDetailPo>)>)
    ensures
        exists|pairs: Seq<(String, OwnerFeeDetailPo)>|
            pairs.len() == streams.len() && (forall|i: int|
                0 <= i < pairs.len() ==> (#[trigger] pairs[i]).1 == streams@[i] && pairs[i].0@
                    == streams@[i].room_number@) && unpaid_grouping(pairs, r@),
{
    let ghost orig = streams@;
    assert(orig.len() == streams.len());
    let mut rest = streams;
    let mut pairs: Vec<(String, OwnerFeeDetailPo)> = Vec::new();
    let mut i: usize = 0;
    while rest.len() > 0
        invariant
            i <= orig.len(),
            orig.len() <= usize::MAX,
            rest.len() + i == orig.len(),
            rest@ == orig.skip(i as int),
            pairs.len() == i,
            forall|k: int|
                0 <= k < i ==> (#[trigger] pairs@[k]).1 == orig[k] && pairs@[k].0@ == orig[k].room_number@,
        decreases rest.len(),
    {
        let line = rest.remove(0);
        proof {
            assert(orig.skip(i + 1) =~= orig.skip(i as int).remove(0));
            assert(orig[i as int] == line);
        }
        let key = line.room_number.clone();
        pairs.push((key, line));
        i = i + 1;
    }
    let ghost p = pairs@;
    let groups = group_pairs(pairs);
    let ghost g = groups@;
    assert(g.len() == groups.len());
    let mut rest_groups = groups;
    let mut kept: Vec<(String, Vec<OwnerFeeDetailPo>)> = Vec::new();
    let ghost mut idx: Seq<int> = Seq::empty();
    let mut k: usize = 0;
    while rest_groups.len() > 0
        invariant
            k <= g.len(),
            g.len() <= usize::MAX,
            rest_groups.len() + k == g.len(),
            rest_groups@ == g.skip(k as int),
            is_grouping(p, g),
            idx.len() == kept.len(),
            forall|a: int|
                0 <= a < idx.len() ==> 0 <= #[trigger] idx[a] < k && kept@[a] == g[idx[a]]
                    && g[idx[a]].1.len() >= 2,
            forall|a: int, b: int| 0 <= a < b < idx.len() ==> #[trigger] idx[a] < #[trigger] idx[b],
            forall|b: int|
                0 <= b < k && (#[trigger] g[b]).1.len() >= 2 ==> exists|a: int|
                    0 <= a < idx.len() && #[trigger] idx[a] == b,
        decreases rest_groups.len(),
    {
        let grp = rest_groups.remove(0);
        proof {
            assert(g.skip(k + 1) =~= g.skip(k as int).remove(0));
            assert(g[k as int] == grp);
        }
        let ghost old_idx = idx;
        if grp.1.len() >= 2 {
            kept.push(grp);
            proof {
                idx = idx.push(k as int);
                assert forall|b: int| 0 <= b < k + 1 && (#[trigger] g[b]).1.len() >= 2 implies exists|a: int|
                    0 <= a < idx.len() && #[trigger] idx[a] == b by {
                    if b < k {
                        let a = choose|a: int| 0 <= a < old_idx.len() && #[trigger] old_idx[a] == b;
                        assert(idx[a] == old_idx[a]);
                    } else {
                        assert(idx[old_idx.len() as int] == b);
                    }
                }
            }
        }
        k = k + 1;
    }
    proof {
        assert forall|a: int, b: int| 0 <= a < b < kept.len() implies #[trigger] kept@[a].0@ != #[trigger] kept@[b].0@ by {
            assert(idx[a] < idx[b]);
            assert(kept@[a] == g[idx[a]]);
            assert(kept@[b] == g[idx[b]]);
        }
        assert forall|a: int| 0 <= a < kept.len() implies (#[trigger] kept@[a]).1@ == values_of(p, kept@[a].0@)
            && kept@[a].1.len() >= 2 by {
            assert(0 <= idx[a] < g.len());
            assert(kept@[a] == g[idx[a]]);
        }
        assert forall|w: int| 0 <= w < p.len() && values_of(p, p[w].0@).len() >= 2 implies exists|a: int|
            0 <= a < kept.len() && #[trigger] kept@[a].0@ == #[trigger] p[w].0@ by {
            let b = choose|b: int| 0 <= b < g.len() && #[trigger] g[b].0@ == #[trigger] p[w].0@;
            assert(g[b].1@ == values_of(p, g[b].0@));
            let a = choose|a: int| 0 <= a < idx.len() && #[trigger] idx[a] == b;
            assert(kept@[a] == g[b]);
        }
        assert(p.len() == orig.len() && (forall|k2: int|
            0 <= k2 < p.len() ==> (#[trigger] p[k2]).1 == orig[k2] && p[k2].0@ == orig[k2].room_number@));
    }
    kept
}

} // verus!
