//! The owners of the rooms: area, parking and the running balance of a room.

use vstd::prelude::*;
use chrono::NaiveDateTime;
use crate::decimal::{Dec, Decimal};
use crate::error::AppError;
use crate::price_basic::{BasicPriceType, PriceTable};
use crate::property_fee::opt_view;

verus! {

/// The kind of a room, which decides its management price.
#[derive(Clone, Copy, Debug, PartialEq, Eq, Structural)]
pub enum RoomType {
    Common,
    Business,
}

/// What the stored extra information of an owner says about parking: whether
/// it is a JSON object, and for each of `carNumber`, `carNumberElectron` and
/// `motorCycleNumber` the value stored there, where it is a non-negative
/// integer.
#[derive(Clone, Copy, Debug, PartialEq, Eq, Structural)]
pub struct OtherBasic {
    pub is_object: bool,
    pub car_number: Option<u64>,
    pub car_number_electron: Option<u64>,
    pub motor_cycle_number: Option<u64>,
}

/// The parking information that an owner may change.
#[derive(Clone, Copy, Debug, PartialEq, Eq, Structural)]
pub struct OtherPartInfo {
    pub car_number: Option<i32>,
    pub car_number_electron: Option<i32>,
    pub motor_cycle_number: Option<i32>,
}

/// An owner of a room.
#[derive(Debug)]
pub struct OwnerBasicInfoPo {
    pub id: i32,
    pub room_number: String,
    pub owner_name: Option<String>,
    pub room_square: Option<Decimal>,
    pub create_by: Option<String>,
    pub update_by: Option<String>,
    pub is_delete: bool,
    pub comment: Option<String>,
    pub other_basic: Option<OtherBasic>,
    pub amount_balance: Decimal,
    pub room_type: RoomType,
}

/// An owner with the information of the room, as one aggregate.
#[derive(Debug)]
pub struct OwnerBasicInfoAggRoot {
    id: i32,
    room_number: String,
    owner_name: Option<String>,
    room_square: Option<String>,
    create_by: String,
    update_by: String,
    create_time: Option<NaiveDateTime>,
    update_time: Option<NaiveDateTime>,
    is_delete: bool,
    comment: Option<String>,
    other_basic: Option<OtherBasic>,
}

pub open spec fn count_or_zero(n: Option<u64>) -> u64 {
    match n {
        Some(v) => v,
        None => 0,
    }
}

/// The numbers of cars, electric cars and motorcycles: those stored where the
/// information is an object (zero for a missing or unusable entry), else none.
pub open spec fn vehicle_num_of(info: Option<OtherBasic>) -> (u64, u64, u64) {
    match info {
        Some(o) => if o.is_object {
            (
                count_or_zero(o.car_number),
                count_or_zero(o.car_number_electron),
                count_or_zero(o.motor_cycle_number),
            )
        } else {
            (0, 0, 0)
        },
        None => (0, 0, 0),
    }
}

/// What the stored extra information says of a count written as `n`: the
/// count where it is a non-negative number, nothing for a missing or negative
/// one (JSON `null`, or a number that is no `u64`).
pub open spec fn stored_count(n: Option<i32>) -> Option<u64> {
    match n {
        Some(v) => if v >= 0 {
            Some(v as u64)
        } else {
            None
        },
        None => None,
    }
}

/// The extra information as it reads back once `info` is stored as a JSON
/// object.
pub open spec fn stored_other_basic(info: OtherPartInfo) -> OtherBasic {
    OtherBasic {
        is_object: true,
        car_number: stored_count(info.car_number),
        car_number_electron: stored_count(info.car_number_electron),
        motor_cycle_number: stored_count(info.motor_cycle_number),
    }
}

fn count_of(n: Option<i32>) -> (r: Option<u64>)
    ensures
        r == stored_count(n),
{
    match n {
        Some(v) => if v >= 0 {
            Some(v as u64)
        } else {
            None
        },
        None => None,
    }
}

/// The extra information as it reads back once the parking information
/// `info` is stored.
pub fn other_basic_from_part(info: &OtherPartInfo) -> (r: OtherBasic)
    ensures
        r == stored_other_basic(*info),
{
    OtherBasic {
        is_object: true,
        car_number: count_of(info.car_number),
        car_number_electron: count_of(info.car_number_electron),
        motor_cycle_number: count_of(info.motor_cycle_number),
    }
}

/// The vehicles counted from stored parking information are the numbers
/// stored, zero for a missing or negative one.
pub proof fn lemma_vehicle_counts_round_trip(info: OtherPartInfo)
    ensures
        vehicle_num_of(Some(stored_other_basic(info))) == (
            count_or_zero(stored_count(info.car_number)),
            count_or_zero(stored_count(info.car_number_electron)),
            count_or_zero(stored_count(info.motor_cycle_number)),
        ),
        info.car_number matches Some(a) ==> (a >= 0 ==> vehicle_num_of(Some(stored_other_basic(info))).0 == a),
        info.car_number_electron matches Some(b) ==> (b >= 0 ==> vehicle_num_of(Some(stored_other_basic(info))).1 == b),
        info.motor_cycle_number matches Some(c) ==> (c >= 0 ==> vehicle_num_of(Some(stored_other_basic(info))).2 == c),
{
}

/// The numbers of cars, electric cars and motorcycles of an owner; always present.
pub fn get_vehicle_num(vehicle_value: &Option<OtherBasic>) -> (r: Option<(u64, u64, u64)>)
    ensures
        r == Some(vehicle_num_of(*vehicle_value)),
{
    match vehicle_value {
        Some(o) => {
            if o.is_object {
                let car = match o.car_number {
                    Some(v) => v,
                    None => 0,
                };
                let electron = match o.car_number_electron {
                    Some(v) => v,
                    None => 0,
                };
                let motor = match o.motor_cycle_number {
                    Some(v) => v,
                    None => 0,
                };
                Some((car, electron, motor))
            } else {
                Some((0, 0, 0))
            }
        },
        None => Some((0, 0, 0)),
    }
}

/// The price kind of the management fee of a room of kind `t`.
pub open spec fn management_price_kind(t: RoomType) -> BasicPriceType {
    match t {
        RoomType::Common => BasicPriceType::ManagementFee,
        RoomType::Business => BasicPriceType::BusinessManageFee,
    }
}

/// The management fee: the unit price for the kind of room times the area.
pub open spec fn management_fee_of(owner: OwnerBasicInfoPo, config: PriceTable) -> Option<Dec> {
    match (owner.room_square, config.price(management_price_kind(owner.room_type))) {
        (Some(square), Some(fee)) => Some(fee@.times(square@)),
        _ => None,
    }
}

pub open spec fn management_fee_fits(owner: OwnerBasicInfoPo, config: PriceTable) -> bool {
    match (owner.room_square, config.price(management_price_kind(owner.room_type))) {
        (Some(square), Some(fee)) => fee@.times_fits(square@),
        _ => true,
    }
}

/// The parking fee: each price times the number of its vehicles, summed.
pub open spec fn part_fee_of(car: Dec, motor: Dec, electron: Dec, counts: (u64, u64, u64)) -> Dec {
    car.times(Dec::whole(counts.0 as int)).plus(motor.times(Dec::whole(counts.2 as int))).plus(
        electron.times(Dec::whole(counts.1 as int)),
    )
}

pub open spec fn part_fee_fits(car: Dec, motor: Dec, electron: Dec, counts: (u64, u64, u64)) -> bool {
    let a = car.times(Dec::whole(counts.0 as int));
    let b = motor.times(Dec::whole(counts.2 as int));
    let c = electron.times(Dec::whole(counts.1 as int));
    &&& a.fits() && b.fits() && c.fits()
    &&& a.plus_fits(b)
    &&& a.plus(b).plus_fits(c)
}

/// The parking fee of an owner, where all three prices are configured.
pub open spec fn part_fee_for(owner: OwnerBasicInfoPo, config: PriceTable) -> Option<Dec> {
    match (
        config.price(BasicPriceType::CarPartFee),
        config.price(BasicPriceType::MotorCyclePartFee),
        config.price(BasicPriceType::ElectronCarPartFee),
    ) {
        (Some(car), Some(motor), Some(electron)) => Some(
            part_fee_of(car@, motor@, electron@, vehicle_num_of(owner.other_basic)),
        ),
        _ => None,
    }
}

pub open spec fn part_fee_ready(owner: OwnerBasicInfoPo, config: PriceTable) -> bool {
    match (
        config.price(BasicPriceType::CarPartFee),
        config.price(BasicPriceType::MotorCyclePartFee),
        config.price(BasicPriceType::ElectronCarPartFee),
    ) {
        (Some(car), Some(motor), Some(electron)) => part_fee_fits(
            car@,
            motor@,
            electron@,
            vehicle_num_of(owner.other_basic),
        ),
        _ => true,
    }
}

impl OwnerBasicInfoPo {
    /// The management fee of the room, where its area and its unit price are known.
    pub fn calculate_management_fee(&self, basic_config: &PriceTable) -> (r: Option<Decimal>)
        requires
            management_fee_fits(*self, *basic_config),
        ensures
            opt_view(r) == management_fee_of(*self, *basic_config),
    {
        let new_basic_price = match self.room_type {
            RoomType::Common => basic_config.get_price(BasicPriceType::ManagementFee),
            RoomType::Business => basic_config.get_price(BasicPriceType::BusinessManageFee),
        };
        match (&self.room_square, new_basic_price) {
            (Some(square), Some(fee)) => Some(fee.times(square)),
            _ => None,
        }
    }

    /// The numbers of cars, electric cars and motorcycles of the owner.
    pub fn get_vehicle_num(&self) -> (r: Option<(u64, u64, u64)>)
        ensures
            r == Some(vehicle_num_of(self.other_basic)),
    {
        get_vehicle_num(&self.other_basic)
    }

    /// The parking fee: cars, motorcycles and electric cars, each at its price;
    /// none where one of the three prices is not configured.
    pub fn calculate_part_fee(&self, basic_config: &PriceTable) -> (r: Option<Decimal>)
        requires
            part_fee_ready(*self, *basic_config),
        ensures
            opt_view(r) == part_fee_for(*self, *basic_config),
    {
        let car_price = basic_config.get_price(BasicPriceType::CarPartFee);
        let motor_price = basic_config.get_price(BasicPriceType::MotorCyclePartFee);
        let electron_price = basic_config.get_price(BasicPriceType::ElectronCarPartFee);
        match (self.get_vehicle_num(), car_price, motor_price, electron_price) {
            (Some((car_num, electron_num, motor_num)), Some(car), Some(motor), Some(electron)) => {
                let a = car.times(&Decimal::from_u64(car_num));
                let b = motor.times(&Decimal::from_u64(motor_num));
                let c = electron.times(&Decimal::from_u64(electron_num));
                Some(a.plus(&b).plus(&c))
            },
            _ => None,
        }
    }
}

/// Setting a balance must touch exactly one owner.
pub fn update_amount_outcome(update_count: usize) -> (r: Result<(), AppError>)
    ensures
        r is Ok <==> update_count == 1,
        r matches Err(e) ==> e == AppError::DbUpdateError,
{
    if update_count != 1 {
        Err(AppError::DbUpdateError)
    } else {
        Ok(())
    }
}

} // verus!
