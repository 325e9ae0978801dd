//! The price table: one configured unit price per kind of fee.

use vstd::prelude::*;
use crate::decimal::Decimal;
use crate::text::str_equal;

verus! {

/// A kind of configured price.
#[derive(Clone, Copy, Debug, PartialEq, Eq, Structural, Hash)]
pub enum BasicPriceType {
    ManagementFee,
    CarPartFee,
    MotorCyclePartFee,
    MachineRoomRenovationFee,
    ElectricFee,
    ElectricShareFee,
    WaterFee,
    WaterShareFee,
    LiquidateFee,
    PreStoreFee,
    LiftFeeBasic,
    LiftFeePlus,
    BusinessWaterFee,
    BusinessElectricFee,
    BusinessWaterShareFee,
    BusinessElectricShareFee,
    ElectronCarPartFee,
    BusinessManageFee,
}

impl BasicPriceType {
    /// The code under which the price is stored.
    pub open spec fn code(self) -> Seq<char> {
        match self {
            BasicPriceType::ManagementFee => "ManagementFee"@,
            BasicPriceType::CarPartFee => "CarPartFee"@,
            BasicPriceType::MotorCyclePartFee => "MotorCyclePartFee"@,
            BasicPriceType::MachineRoomRenovationFee => "MachineRoomRenovationFee"@,
            BasicPriceType::ElectricFee => "ElectricFee"@,
            BasicPriceType::ElectricShareFee => "ElectricShareFee"@,
            BasicPriceType::WaterFee => "WaterFee"@,
            BasicPriceType::WaterShareFee => "WaterShareFee"@,
            BasicPriceType::LiquidateFee => "LiquidateFee"@,
            BasicPriceType::PreStoreFee => "PreStoreFee"@,
            BasicPriceType::LiftFeeBasic => "LiftFeeBasic"@,
            BasicPriceType::LiftFeePlus => "LiftFeePlus"@,
            BasicPriceType::BusinessWaterFee => "BusinessWaterFee"@,
            BasicPriceType::BusinessElectricFee => "BusinessElectricFee"@,
            BasicPriceType::BusinessWaterShareFee => "BusinessWaterShareFee"@,
            BasicPriceType::BusinessElectricShareFee => "BusinessElectricShareFee"@,
            BasicPriceType::ElectronCarPartFee => "ElectronCarPartFee"@,
            BasicPriceType::BusinessManageFee => "BusinessManageFee"@,
        }
    }

    fn code_str(&self) -> (r: &'static str)
        ensures
            r@ == self.code(),
    {
        proof {
        reveal_strlit("ManagementFee");
        reveal_strlit("CarPartFee");
        reveal_strlit("MotorCyclePartFee");
        reveal_strlit("MachineRoomRenovationFee");
        reveal_strlit("ElectricFee");
        reveal_strlit("ElectricShareFee");
        reveal_strlit("WaterFee");
        reveal_strlit("WaterShareFee");
        reveal_strlit("LiquidateFee");
        reveal_strlit("PreStoreFee");
        reveal_strlit("LiftFeeBasic");
        reveal_strlit("LiftFeePlus");
        reveal_strlit("BusinessWaterFee");
        reveal_strlit("BusinessElectricFee");
        reveal_strlit("BusinessWaterShareFee");
        reveal_strlit("BusinessElectricShareFee");
        reveal_strlit("ElectronCarPartFee");
        reveal_strlit("BusinessManageFee");
        }
        match self {
            BasicPriceType::ManagementFee => "ManagementFee",
            BasicPriceType::CarPartFee => "CarPartFee",
            BasicPriceType::MotorCyclePartFee => "MotorCyclePartFee",
            BasicPriceType::MachineRoomRenovationFee => "MachineRoomRenovationFee",
            BasicPriceType::ElectricFee => "ElectricFee",
            BasicPriceType::ElectricShareFee => "ElectricShareFee",
            BasicPriceType::WaterFee => "WaterFee",
            BasicPriceType::WaterShareFee => "WaterShareFee",
            BasicPriceType::LiquidateFee => "LiquidateFee",
            BasicPriceType::PreStoreFee => "PreStoreFee",
            BasicPriceType::LiftFeeBasic => "LiftFeeBasic",
            BasicPriceType::LiftFeePlus => "LiftFeePlus",
            BasicPriceType::BusinessWaterFee => "BusinessWaterFee",
            BasicPriceType::BusinessElectricFee => "BusinessElectricFee",
            BasicPriceType::BusinessWaterShareFee => "BusinessWaterShareFee",
            BasicPriceType::BusinessElectricShareFee => "BusinessElectricShareFee",
            BasicPriceType::ElectronCarPartFee => "ElectronCarPartFee",
            BasicPriceType::BusinessManageFee => "BusinessManageFee",
        }
    }

    /// The code of the price type.
    pub fn to_string(&self) -> (r: String)
        ensures
            r@ == self.code(),
    {
        String::from_str(self.code_str())
    }
}


/// Distinct price types have distinct codes, so a code names one price type.
pub proof fn lemma_price_codes_distinct(a: BasicPriceType, b: BasicPriceType)
    ensures
        a.code() == b.code() ==> a == b,
{
    reveal_strlit("ManagementFee");
    reveal_strlit("CarPartFee");
    reveal_strlit("MotorCyclePartFee");
    reveal_strlit("MachineRoomRenovationFee");
    reveal_strlit("ElectricFee");
    reveal_strlit("ElectricShareFee");
    reveal_strlit("WaterFee");
    reveal_strlit("WaterShareFee");
    reveal_strlit("LiquidateFee");
    reveal_strlit("PreStoreFee");
    reveal_strlit("LiftFeeBasic");
    reveal_strlit("LiftFeePlus");
    reveal_strlit("BusinessWaterFee");
    reveal_strlit("BusinessElectricFee");
    reveal_strlit("BusinessWaterShareFee");
    reveal_strlit("BusinessElectricShareFee");
    reveal_strlit("ElectronCarPartFee");
    reveal_strlit("BusinessManageFee");
    if a.code() == b.code() {
        match a {
            BasicPriceType::ManagementFee => match b {
                BasicPriceType::ManagementFee => {}
                BasicPriceType::CarPartFee => { assert(a.code().len() == 13); assert(b.code().len() == 10); }
                BasicPriceType::MotorCyclePartFee => { assert(a.code().len() == 13); assert(b.code().len() == 17); }
                BasicPriceType::MachineRoomRenovationFee => { assert(a.code().len() == 13); assert(b.code().len() == 24); }
                BasicPriceType::ElectricFee => { assert(a.code().len() == 13); assert(b.code().len() == 11); }
                BasicPriceType::ElectricShareFee => { assert(a.code().len() == 13); assert(b.code().len() == 16); }
                BasicPriceType::WaterFee => { assert(a.code().len() == 13); assert(b.code().len() == 8); }
                BasicPriceType::WaterShareFee => { assert(a.code()[0] == 'M'); assert(b.code()[0] == 'W'); }
                BasicPriceType::LiquidateFee => { assert(a.code().len() == 13); assert(b.code().len() == 12); }
                BasicPriceType::PreStoreFee => { assert(a.code().len() == 13); assert(b.code().len() == 11); }
                BasicPriceType::LiftFeeBasic => { assert(a.code().len() == 13); assert(b.code().len() == 12); }
                BasicPriceType::LiftFeePlus => { assert(a.code().len() == 13); assert(b.code().len() == 11); }
                BasicPriceType::BusinessWaterFee => { assert(a.code().len() == 13); assert(b.code().len() == 16); }
                BasicPriceType::BusinessElectricFee => { assert(a.code().len() == 13); assert(b.code().len() == 19); }
                BasicPriceType::BusinessWaterShareFee => { assert(a.code().len() == 13); assert(b.code().len() == 21); }
                BasicPriceType::BusinessElectricShareFee => { assert(a.code().len() == 13); assert(b.code().len() == 24); }
                BasicPriceType::ElectronCarPartFee => { assert(a.code().len() == 13); assert(b.code().len() == 18); }
                BasicPriceType::BusinessManageFee => { assert(a.code().len() == 13); assert(b.code().len() == 17); }
            },
            BasicPriceType::CarPartFee => match b {
                BasicPriceType::ManagementFee => { assert(a.code().len() == 10); assert(b.code().len() == 13); }
                BasicPriceType::CarPartFee => {}
                BasicPriceType::MotorCyclePartFee => { assert(a.code().len() == 10); assert(b.code().len() == 17); }
                BasicPriceType::MachineRoomRenovationFee => { assert(a.code().len() == 10); assert(b.code().len() == 24); }
                BasicPriceType::ElectricFee => { assert(a.code().len() == 10); assert(b.code().len() == 11); }
                BasicPriceType::ElectricShareFee => { assert(a.code().len() == 10); assert(b.code().len() == 16); }
                BasicPriceType::WaterFee => { assert(a.code().len() == 10); assert(b.code().len() == 8); }
                BasicPriceType::WaterShareFee => { assert(a.code().len() == 10); assert(b.code().len() == 13); }
                BasicPriceType::LiquidateFee => { assert(a.code().len() == 10); assert(b.code().len() == 12); }
                BasicPriceType::PreStoreFee => { assert(a.code().len() == 10); assert(b.code().len() == 11); }
                BasicPriceType::LiftFeeBasic => { assert(a.code().len() == 10); assert(b.code().len() == 12); }
                BasicPriceType::LiftFeePlus => { assert(a.code().len() == 10); assert(b.code().len() == 11); }
                BasicPriceType::BusinessWaterFee => { assert(a.code().len() == 10); assert(b.code().len() == 16); }
                BasicPriceType::BusinessElectricFee => { assert(a.code().len() == 10); assert(b.code().len() == 19); }
                BasicPriceType::BusinessWaterShareFee => { assert(a.code().len() == 10); assert(b.code().len() == 21); }
                BasicPriceType::BusinessElectricShareFee => { assert(a.code().len() == 10); assert(b.code().len() == 24); }
                BasicPriceType::ElectronCarPartFee => { assert(a.code().len() == 10); assert(b.code().len() == 18); }
                BasicPriceType::BusinessManageFee => { assert(a.code().len() == 10); assert(b.code().len() == 17); }
            },
            BasicPriceType::MotorCyclePartFee => match b {
                BasicPriceType::ManagementFee => { assert(a.code().len() == 17); assert(b.code().len() == 13); }
                BasicPriceType::CarPartFee => { assert(a.code().len() == 17); assert(b.code().len() == 10); }
                BasicPriceType::MotorCyclePartFee => {}
                BasicPriceType::MachineRoomRenovationFee => { assert(a.code().len() == 17); assert(b.code().len() == 24); }
                BasicPriceType::ElectricFee => { assert(a.code().len() == 17); assert(b.code().len() == 11); }
                BasicPriceType::ElectricShareFee => { assert(a.code().len() == 17); assert(b.code().len() == 16); }
                BasicPriceType::WaterFee => { assert(a.code().len() == 17); assert(b.code().len() == 8); }
                BasicPriceType::WaterShareFee => { assert(a.code().len() == 17); assert(b.code().len() == 13); }
                BasicPriceType::LiquidateFee => { assert(a.code().len() == 17); assert(b.code().len() == 12); }
                BasicPriceType::PreStoreFee => { assert(a.code().len() == 17); assert(b.code().len() == 11); }
                BasicPriceType::LiftFeeBasic => { assert(a.code().len() == 17); assert(b.code().len() == 12); }
                BasicPriceType::LiftFeePlus => { assert(a.code().len() == 17); assert(b.code().len() == 11); }
                BasicPriceType::BusinessWaterFee => { assert(a.code().len() == 17); assert(b.code().len() == 16); }
                BasicPriceType::BusinessElectricFee => { assert(a.code().len() == 17); assert(b.code().len() == 19); }
                BasicPriceType::BusinessWaterShareFee => { assert(a.code().len() == 17); assert(b.code().len() == 21); }
                BasicPriceType::BusinessElectricShareFee => { assert(a.code().len() == 17); assert(b.code().len() == 24); }
                BasicPriceType::ElectronCarPartFee => { assert(a.code().len() == 17); assert(b.code().len() == 18); }
                BasicPriceType::BusinessManageFee => { assert(a.code()[0] == 'M'); assert(b.code()[0] == 'B'); }
            },
            BasicPriceType::MachineRoomRenovationFee => match b {
                BasicPriceType::ManagementFee => { assert(a.code().len() == 24); assert(b.code().len() == 13); }
                BasicPriceType::CarPartFee => { assert(a.code().len() == 24); assert(b.code().len() == 10); }
                BasicPriceType::MotorCyclePartFee => { assert(a.code().len() == 24); assert(b.code().len() == 17); }
                BasicPriceType::MachineRoomRenovationFee => {}
                BasicPriceType::ElectricFee => { assert(a.code().len() == 24); assert(b.code().len() == 11); }
                BasicPriceType::ElectricShareFee => { assert(a.code().len() == 24); assert(b.code().len() == 16); }
                BasicPriceType::WaterFee => { assert(a.code().len() == 24); assert(b.code().len() == 8); }
                BasicPriceType::WaterShareFee => { assert(a.code().len() == 24); assert(b.code().len() == 13); }
                BasicPriceType::LiquidateFee => { assert(a.code().len() == 24); assert(b.code().len() == 12); }
                BasicPriceType::PreStoreFee => { assert(a.code().len() == 24); assert(b.code().len() == 11); }
                BasicPriceType::LiftFeeBasic => { assert(a.code().len() == 24); assert(b.code().len() == 12); }
                BasicPriceType::LiftFeePlus => { assert(a.code().len() == 24); assert(b.code().len() == 11); }
                BasicPriceType::BusinessWaterFee => { assert(a.code().len() == 24); assert(b.code().len() == 16); }
                BasicPriceType::BusinessElectricFee => { assert(a.code().len() == 24); assert(b.code().len() == 19); }
                BasicPriceType::BusinessWaterShareFee => { assert(a.code().len() == 24); assert(b.code().len() == 21); }
                BasicPriceType::BusinessElectricShareFee => { assert(a.code()[0] == 'M'); assert(b.code()[0] == 'B'); }
                BasicPriceType::ElectronCarPartFee => { assert(a.code().len() == 24); assert(b.code().len() == 18); }
                BasicPriceType::BusinessManageFee => { assert(a.code().len() == 24); assert(b.code().len() == 17); }
            },
            BasicPriceType::ElectricFee => match b {
                BasicPriceType::ManagementFee => { assert(a.code().len() == 11); assert(b.code().len() == 13); }
                BasicPriceType::CarPartFee => { assert(a.code().len() == 11); assert(b.code().len() == 10); }
                BasicPriceType::MotorCyclePartFee => { assert(a.code().len() == 11); assert(b.code().len() == 17); }
                BasicPriceType::MachineRoomRenovationFee => { assert(a.code().len() == 11); assert(b.code().len() == 24); }
                BasicPriceType::ElectricFee => {}
                BasicPriceType::ElectricShareFee => { assert(a.code().len() == 11); assert(b.code().len() == 16); }
                BasicPriceType::WaterFee => { assert(a.code().len() == 11); assert(b.code().len() == 8); }
                BasicPriceType::WaterShareFee => { assert(a.code().len() == 11); assert(b.code().len() == 13); }
                BasicPriceType::LiquidateFee => { assert(a.code().len() == 11); assert(b.code().len() == 12); }
                BasicPriceType::PreStoreFee => { assert(a.code()[0] == 'E'); assert(b.code()[0] == 'P'); }
                BasicPriceType::LiftFeeBasic => { assert(a.code().len() == 11); assert(b.code().len() == 12); }
                BasicPriceType::LiftFeePlus => { assert(a.code()[0] == 'E'); assert(b.code()[0] == 'L'); }
                BasicPriceType::BusinessWaterFee => { assert(a.code().len() == 11); assert(b.code().len() == 16); }
                BasicPriceType::BusinessElectricFee => { assert(a.code().len() == 11); assert(b.code().len() == 19); }
                BasicPriceType::BusinessWaterShareFee => { assert(a.code().len() == 11); assert(b.code().len() == 21); }
                BasicPriceType::BusinessElectricShareFee => { assert(a.code().len() == 11); assert(b.code().len() == 24); }
                BasicPriceType::ElectronCarPartFee => { assert(a.code().len() == 11); assert(b.code().len() == 18); }
                BasicPriceType::BusinessManageFee => { assert(a.code().len() == 11); assert(b.code().len() == 17); }
            },
            BasicPriceType::ElectricShareFee => match b {
                BasicPriceType::ManagementFee => { assert(a.code().len() == 16); assert(b.code().len() == 13); }
                BasicPriceType::CarPartFee => { assert(a.code().len() == 16); assert(b.code().len() == 10); }
                BasicPriceType::MotorCyclePartFee => { assert(a.code().len() == 16); assert(b.code().len() == 17); }
                BasicPriceType::MachineRoomRenovationFee => { assert(a.code().len() == 16); assert(b.code().len() == 24); }
                BasicPriceType::ElectricFee => { assert(a.code().len() == 16); assert(b.code().len() == 11); }
                BasicPriceType::ElectricShareFee => {}
                BasicPriceType::WaterFee => { assert(a.code().len() == 16); assert(b.code().len() == 8); }
                BasicPriceType::WaterShareFee => { assert(a.code().len() == 16); assert(b.code().len() == 13); }
                BasicPriceType::LiquidateFee => { assert(a.code().len() == 16); assert(b.code().len() == 12); }
                BasicPriceType::PreStoreFee => { assert(a.code().len() == 16); assert(b.code().len() == 11); }
                BasicPriceType::LiftFeeBasic => { assert(a.code().len() == 16); assert(b.code().len() == 12); }
                BasicPriceType::LiftFeePlus => { assert(a.code().len() == 16); assert(b.code().len() == 11); }
                BasicPriceType::BusinessWaterFee => { assert(a.code()[0] == 'E'); assert(b.code()[0] == 'B'); }
                BasicPriceType::BusinessElectricFee => { assert(a.code().len() == 16); assert(b.code().len() == 19); }
                BasicPriceType::BusinessWaterShareFee => { assert(a.code().len() == 16); assert(b.code().len() == 21); }
                BasicPriceType::BusinessElectricShareFee => { assert(a.code().len() == 16); assert(b.code().len() == 24); }
                BasicPriceType::ElectronCarPartFee => { assert(a.code().len() == 16); assert(b.code().len() == 18); }
                BasicPriceType::BusinessManageFee => { assert(a.code().len() == 16); assert(b.code().len() == 17); }
            },
            BasicPriceType::WaterFee => match b {
                BasicPriceType::ManagementFee => { assert(a.code().len() == 8); assert(b.code().len() == 13); }
                BasicPriceType::CarPartFee => { assert(a.code().len() == 8); assert(b.code().len() == 10); }
                BasicPriceType::MotorCyclePartFee => { assert(a.code().len() == 8); assert(b.code().len() == 17); }
                BasicPriceType::MachineRoomRenovationFee => { assert(a.code().len() == 8); assert(b.code().len() == 24); }
                BasicPriceType::ElectricFee => { assert(a.code().len() == 8); assert(b.code().len() == 11); }
                BasicPriceType::ElectricShareFee => { assert(a.code().len() == 8); assert(b.code().len() == 16); }
                BasicPriceType::WaterFee => {}
                BasicPriceType::WaterShareFee => { assert(a.code().len() == 8); assert(b.code().len() == 13); }
                BasicPriceType::LiquidateFee => { assert(a.code().len() == 8); assert(b.code().len() == 12); }
                BasicPriceType::PreStoreFee => { assert(a.code().len() == 8); assert(b.code().len() == 11); }
                BasicPriceType::LiftFeeBasic => { assert(a.code().len() == 8); assert(b.code().len() == 12); }
                BasicPriceType::LiftFeePlus => { assert(a.code().len() == 8); assert(b.code().len() == 11); }
                BasicPriceType::BusinessWaterFee => { assert(a.code().len() == 8); assert(b.code().len() == 16); }
                BasicPriceType::BusinessElectricFee => { assert(a.code().len() == 8); assert(b.code().len() == 19); }
                BasicPriceType::BusinessWaterShareFee => { assert(a.code().len() == 8); assert(b.code().len() == 21); }
                BasicPriceType::BusinessElectricShareFee => { assert(a.code().len() == 8); assert(b.code().len() == 24); }
                BasicPriceType::ElectronCarPartFee => { assert(a.code().len() == 8); assert(b.code().len() == 18); }
                BasicPriceType::BusinessManageFee => { assert(a.code().len() == 8); assert(b.code().len() == 17); }
            },
            BasicPriceType::WaterShareFee => match b {
                BasicPriceType::ManagementFee => { assert(a.code()[0] == 'W'); assert(b.code()[0] == 'M'); }
                BasicPriceType::CarPartFee => { assert(a.code().len() == 13); assert(b.code().len() == 10); }
                BasicPriceType::MotorCyclePartFee => { assert(a.code().len() == 13); assert(b.code().len() == 17); }
                BasicPriceType::MachineRoomRenovationFee => { assert(a.code().len() == 13); assert(b.code().len() == 24); }
                BasicPriceType::ElectricFee => { assert(a.code().len() == 13); assert(b.code().len() == 11); }
                BasicPriceType::ElectricShareFee => { assert(a.code().len() == 13); assert(b.code().len() == 16); }
                BasicPriceType::WaterFee => { assert(a.code().len() == 13); assert(b.code().len() == 8); }
                BasicPriceType::WaterShareFee => {}
                BasicPriceType::LiquidateFee => { assert(a.code().len() == 13); assert(b.code().len() == 12); }
                BasicPriceType::PreStoreFee => { assert(a.code().len() == 13); assert(b.code().len() == 11); }
                BasicPriceType::LiftFeeBasic => { assert(a.code().len() == 13); assert(b.code().len() == 12); }
                BasicPriceType::LiftFeePlus => { assert(a.code().len() == 13); assert(b.code().len() == 11); }
                BasicPriceType::BusinessWaterFee => { assert(a.code().len() == 13); assert(b.code().len() == 16); }
                BasicPriceType::BusinessElectricFee => { assert(a.code().len() == 13); assert(b.code().len() == 19); }
                BasicPriceType::BusinessWaterShareFee => { assert(a.code().len() == 13); assert(b.code().len() == 21); }
                BasicPriceType::BusinessElectricShareFee => { assert(a.code().len() == 13); assert(b.code().len() == 24); }
                BasicPriceType::ElectronCarPartFee => { assert(a.code().len() == 13); assert(b.code().len() == 18); }
                BasicPriceType::BusinessManageFee => { assert(a.code().len() == 13); assert(b.code().len() == 17); }
            },
            BasicPriceType::LiquidateFee => match b {
                BasicPriceType::ManagementFee => { assert(a.code().len() == 12); assert(b.code().len() == 13); }
                BasicPriceType::CarPartFee => { assert(a.code().len() == 12); assert(b.code().len() == 10); }
                BasicPriceType::MotorCyclePartFee => { assert(a.code().len() == 12); assert(b.code().len() == 17); }
                BasicPriceType::MachineRoomRenovationFee => { assert(a.code().len() == 12); assert(b.code().len() == 24); }
                BasicPriceType::ElectricFee => { assert(a.code().len() == 12); assert(b.code().len() == 11); }
                BasicPriceType::ElectricShareFee => { assert(a.code().len() == 12); assert(b.code().len() == 16); }
                BasicPriceType::WaterFee => { assert(a.code().len() == 12); assert(b.code().len() == 8); }
                BasicPriceType::WaterShareFee => { assert(a.code().len() == 12); assert(b.code().len() == 13); }
                BasicPriceType::LiquidateFee => {}
                BasicPriceType::PreStoreFee => { assert(a.code().len() == 12); assert(b.code().len() == 11); }
                BasicPriceType::LiftFeeBasic => { assert(a.code()[2] == 'q'); assert(b.code()[2] == 'f'); }
                BasicPriceType::LiftFeePlus => { assert(a.code().len() == 12); assert(b.code().len() == 11); }
                BasicPriceType::BusinessWaterFee => { assert(a.code().len() == 12); assert(b.code().len() == 16); }
                BasicPriceType::BusinessElectricFee => { assert(a.code().len() == 12); assert(b.code().len() == 19); }
                BasicPriceType::BusinessWaterShareFee => { assert(a.code().len() == 12); assert(b.code().len() == 21); }
                BasicPriceType::BusinessElectricShareFee => { assert(a.code().len() == 12); assert(b.code().len() == 24); }
                BasicPriceType::ElectronCarPartFee => { assert(a.code().len() == 12); assert(b.code().len() == 18); }
                BasicPriceType::BusinessManageFee => { assert(a.code().len() == 12); assert(b.code().len() == 17); }
            },
            BasicPriceType::PreStoreFee => match b {
                BasicPriceType::ManagementFee => { assert(a.code().len() == 11); assert(b.code().len() == 13); }
                BasicPriceType::CarPartFee => { assert(a.code().len() == 11); assert(b.code().len() == 10); }
                BasicPriceType::MotorCyclePartFee => { assert(a.code().len() == 11); assert(b.code().len() == 17); }
                BasicPriceType::MachineRoomRenovationFee => { assert(a.code().len() == 11); assert(b.code().len() == 24); }
                BasicPriceType::ElectricFee => { assert(a.code()[0] == 'P'); assert(b.code()[0] == 'E'); }
                BasicPriceType::ElectricShareFee => { assert(a.code().len() == 11); assert(b.code().len() == 16); }
                BasicPriceType::WaterFee => { assert(a.code().len() == 11); assert(b.code().len() == 8); }
                BasicPriceType::WaterShareFee => { assert(a.code().len() == 11); assert(b.code().len() == 13); }
                BasicPriceType::LiquidateFee => { assert(a.code().len() == 11); assert(b.code().len() == 12); }
                BasicPriceType::PreStoreFee => {}
                BasicPriceType::LiftFeeBasic => { assert(a.code().len() == 11); assert(b.code().len() == 12); }
                BasicPriceType::LiftFeePlus => { assert(a.code()[0] == 'P'); assert(b.code()[0] == 'L'); }
                BasicPriceType::BusinessWaterFee => { assert(a.code().len() == 11); assert(b.code().len() == 16); }
                BasicPriceType::BusinessElectricFee => { assert(a.code().len() == 11); assert(b.code().len() == 19); }
                BasicPriceType::BusinessWaterShareFee => { assert(a.code().len() == 11); assert(b.code().len() == 21); }
                BasicPriceType::BusinessElectricShareFee => { assert(a.code().len() == 11); assert(b.code().len() == 24); }
                BasicPriceType::ElectronCarPartFee => { assert(a.code().len() == 11); assert(b.code().len() == 18); }
                BasicPriceType::BusinessManageFee => { assert(a.code().len() == 11); assert(b.code().len() == 17); }
            },
            BasicPriceType::LiftFeeBasic => match b {
                BasicPriceType::ManagementFee => { assert(a.code().len() == 12); assert(b.code().len() == 13); }
                BasicPriceType::CarPartFee => { assert(a.code().len() == 12); assert(b.code().len() == 10); }
                BasicPriceType::MotorCyclePartFee => { assert(a.code().len() == 12); assert(b.code().len() == 17); }
                BasicPriceType::MachineRoomRenovationFee => { assert(a.code().len() == 12); assert(b.code().len() == 24); }
                BasicPriceType::ElectricFee => { assert(a.code().len() == 12); assert(b.code().len() == 11); }
                BasicPriceType::ElectricShareFee => { assert(a.code().len() == 12); assert(b.code().len() == 16); }
                BasicPriceType::WaterFee => { assert(a.code().len() == 12); assert(b.code().len() == 8); }
                BasicPriceType::WaterShareFee => { assert(a.code().len() == 12); assert(b.code().len() == 13); }
                BasicPriceType::LiquidateFee => { assert(a.code()[2] == 'f'); assert(b.code()[2] == 'q'); }
                BasicPriceType::PreStoreFee => { assert(a.code().len() == 12); assert(b.code().len() == 11); }
                BasicPriceType::LiftFeeBasic => {}
                BasicPriceType::LiftFeePlus => { assert(a.code().len() == 12); assert(b.code().len() == 11); }
                BasicPriceType::BusinessWaterFee => { assert(a.code().len() == 12); assert(b.code().len() == 16); }
                BasicPriceType::BusinessElectricFee => { assert(a.code().len() == 12); assert(b.code().len() == 19); }
                BasicPriceType::BusinessWaterShareFee => { assert(a.code().len() == 12); assert(b.code().len() == 21); }
                BasicPriceType::BusinessElectricShareFee => { assert(a.code().len() == 12); assert(b.code().len() == 24); }
                BasicPriceType::ElectronCarPartFee => { assert(a.code().len() == 12); assert(b.code().len() == 18); }
                BasicPriceType::BusinessManageFee => { assert(a.code().len() == 12); assert(b.code().len() == 17); }
            },
            BasicPriceType::LiftFeePlus => match b {
                BasicPriceType::ManagementFee => { assert(a.code().len() == 11); assert(b.code().len() == 13); }
                BasicPriceType::CarPartFee => { assert(a.code().len() == 11); assert(b.code().len() == 10); }
                BasicPriceType::MotorCyclePartFee => { assert(a.code().len() == 11); assert(b.code().len() == 17); }
                BasicPriceType::MachineRoomRenovationFee => { assert(a.code().len() == 11); assert(b.code().len() == 24); }
                BasicPriceType::ElectricFee => { assert(a.code()[0] == 'L'); assert(b.code()[0] == 'E'); }
                BasicPriceType::ElectricShareFee => { assert(a.code().len() == 11); assert(b.code().len() == 16); }
                BasicPriceType::WaterFee => { assert(a.code().len() == 11); assert(b.code().len() == 8); }
                BasicPriceType::WaterShareFee => { assert(a.code().len() == 11); assert(b.code().len() == 13); }
                BasicPriceType::LiquidateFee => { assert(a.code().len() == 11); assert(b.code().len() == 12); }
                BasicPriceType::PreStoreFee => { assert(a.code()[0] == 'L'); assert(b.code()[0] == 'P'); }
                BasicPriceType::LiftFeeBasic => { assert(a.code().len() == 11); assert(b.code().len() == 12); }
                BasicPriceType::LiftFeePlus => {}
                BasicPriceType::BusinessWaterFee => { assert(a.code().len() == 11); assert(b.code().len() == 16); }
                BasicPriceType::BusinessElectricFee => { assert(a.code().len() == 11); assert(b.code().len() == 19); }
                BasicPriceType::BusinessWaterShareFee => { assert(a.code().len() == 11); assert(b.code().len() == 21); }
                BasicPriceType::BusinessElectricShareFee => { assert(a.code().len() == 11); assert(b.code().len() == 24); }
                BasicPriceType::ElectronCarPartFee => { assert(a.code().len() == 11); assert(b.code().len() == 18); }
                BasicPriceType::BusinessManageFee => { assert(a.code().len() == 11); assert(b.code().len() == 17); }
            },
            BasicPriceType::BusinessWaterFee => match b {
                BasicPriceType::ManagementFee => { assert(a.code().len() == 16); assert(b.code().len() == 13); }
                BasicPriceType::CarPartFee => { assert(a.code().len() == 16); assert(b.code().len() == 10); }
                BasicPriceType::MotorCyclePartFee => { assert(a.code().len() == 16); assert(b.code().len() == 17); }
                BasicPriceType::MachineRoomRenovationFee => { assert(a.code().len() == 16); assert(b.code().len() == 24); }
                BasicPriceType::ElectricFee => { assert(a.code().len() == 16); assert(b.code().len() == 11); }
                BasicPriceType::ElectricShareFee => { assert(a.code()[0] == 'B'); assert(b.code()[0] == 'E'); }
                BasicPriceType::WaterFee => { assert(a.code().len() == 16); assert(b.code().len() == 8); }
                BasicPriceType::WaterShareFee => { assert(a.code().len() == 16); assert(b.code().len() == 13); }
                BasicPriceType::LiquidateFee => { assert(a.code().len() == 16); assert(b.code().len() == 12); }
                BasicPriceType::PreStoreFee => { assert(a.code().len() == 16); assert(b.code().len() == 11); }
                BasicPriceType::LiftFeeBasic => { assert(a.code().len() == 16); assert(b.code().len() == 12); }
                BasicPriceType::LiftFeePlus => { assert(a.code().len() == 16); assert(b.code().len() == 11); }
                BasicPriceType::BusinessWaterFee => {}
                BasicPriceType::BusinessElectricFee => { assert(a.code().len() == 16); assert(b.code().len() == 19); }
                BasicPriceType::BusinessWaterShareFee => { assert(a.code().len() == 16); assert(b.code().len() == 21); }
                BasicPriceType::BusinessElectricShareFee => { assert(a.code().len() == 16); assert(b.code().len() == 24); }
                BasicPriceType::ElectronCarPartFee => { assert(a.code().len() == 16); assert(b.code().len() == 18); }
                BasicPriceType::BusinessManageFee => { assert(a.code().len() == 16); assert(b.code().len() == 17); }
            },
            BasicPriceType::BusinessElectricFee => match b {
                BasicPriceType::ManagementFee => { assert(a.code().len() == 19); assert(b.code().len() == 13); }
                BasicPriceType::CarPartFee => { assert(a.code().len() == 19); assert(b.code().len() == 10); }
                BasicPriceType::MotorCyclePartFee => { assert(a.code().len() == 19); assert(b.code().len() == 17); }
                BasicPriceType::MachineRoomRenovationFee => { assert(a.code().len() == 19); assert(b.code().len() == 24); }
                BasicPriceType::ElectricFee => { assert(a.code().len() == 19); assert(b.code().len() == 11); }
                BasicPriceType::ElectricShareFee => { assert(a.code().len() == 19); assert(b.code().len() == 16); }
                BasicPriceType::WaterFee => { assert(a.code().len() == 19); assert(b.code().len() == 8); }
                BasicPriceType::WaterShareFee => { assert(a.code().len() == 19); assert(b.code().len() == 13); }
                BasicPriceType::LiquidateFee => { assert(a.code().len() == 19); assert(b.code().len() == 12); }
                BasicPriceType::PreStoreFee => { assert(a.code().len() == 19); assert(b.code().len() == 11); }
                BasicPriceType::LiftFeeBasic => { assert(a.code().len() == 19); assert(b.code().len() == 12); }
                BasicPriceType::LiftFeePlus => { assert(a.code().len() == 19); assert(b.code().len() == 11); }
                BasicPriceType::BusinessWaterFee => { assert(a.code().len() == 19); assert(b.code().len() == 16); }
                BasicPriceType::BusinessElectricFee => {}
                BasicPriceType::BusinessWaterShareFee => { assert(a.code().len() == 19); assert(b.code().len() == 21); }
                BasicPriceType::BusinessElectricShareFee => { assert(a.code().len() == 19); assert(b.code().len() == 24); }
                BasicPriceType::ElectronCarPartFee => { assert(a.code().len() == 19); assert(b.code().len() == 18); }
                BasicPriceType::BusinessManageFee => { assert(a.code().len() == 19); assert(b.code().len() == 17); }
            },
            BasicPriceType::BusinessWaterShareFee => match b {
                BasicPriceType::ManagementFee => { assert(a.code().len() == 21); assert(b.code().len() == 13); }
                BasicPriceType::CarPartFee => { assert(a.code().len() == 21); assert(b.code().len() == 10); }
                BasicPriceType::MotorCyclePartFee => { assert(a.code().len() == 21); assert(b.code().len() == 17); }
                BasicPriceType::MachineRoomRenovationFee => { assert(a.code().len() == 21); assert(b.code().len() == 24); }
                BasicPriceType::ElectricFee => { assert(a.code().len() == 21); assert(b.code().len() == 11); }
                BasicPriceType::ElectricShareFee => { assert(a.code().len() == 21); assert(b.code().len() == 16); }
                BasicPriceType::WaterFee => { assert(a.code().len() == 21); assert(b.code().len() == 8); }
                BasicPriceType::WaterShareFee => { assert(a.code().len() == 21); assert(b.code().len() == 13); }
                BasicPriceType::LiquidateFee => { assert(a.code().len() == 21); assert(b.code().len() == 12); }
                BasicPriceType::PreStoreFee => { assert(a.code().len() == 21); assert(b.code().len() == 11); }
                BasicPriceType::LiftFeeBasic => { assert(a.code().len() == 21); assert(b.code().len() == 12); }
                BasicPriceType::LiftFeePlus => { assert(a.code().len() == 21); assert(b.code().len() == 11); }
                BasicPriceType::BusinessWaterFee => { assert(a.code().len() == 21); assert(b.code().len() == 16); }
                BasicPriceType::BusinessElectricFee => { assert(a.code().len() == 21); assert(b.code().len() == 19); }
                BasicPriceType::BusinessWaterShareFee => {}
                BasicPriceType::BusinessElectricShareFee => { assert(a.code().len() == 21); assert(b.code().len() == 24); }
                BasicPriceType::ElectronCarPartFee => { assert(a.code().len() == 21); assert(b.code().len() == 18); }
                BasicPriceType::BusinessManageFee => { assert(a.code().len() == 21); assert(b.code().len() == 17); }
            },
            BasicPriceType::BusinessElectricShareFee => match b {
                BasicPriceType::ManagementFee => { assert(a.code().len() == 24); assert(b.code().len() == 13); }
                BasicPriceType::CarPartFee => { assert(a.code().len() == 24); assert(b.code().len() == 10); }
                BasicPriceType::MotorCyclePartFee => { assert(a.code().len() == 24); assert(b.code().len() == 17); }
                BasicPriceType::MachineRoomRenovationFee => { assert(a.code()[0] == 'B'); assert(b.code()[0] == 'M'); }
                BasicPriceType::ElectricFee => { assert(a.code().len() == 24); assert(b.code().len() == 11); }
                BasicPriceType::ElectricShareFee => { assert(a.code().len() == 24); assert(b.code().len() == 16); }
                BasicPriceType::WaterFee => { assert(a.code().len() == 24); assert(b.code().len() == 8); }
                BasicPriceType::WaterShareFee => { assert(a.code().len() == 24); assert(b.code().len() == 13); }
                BasicPriceType::LiquidateFee => { assert(a.code().len() == 24); assert(b.code().len() == 12); }
                BasicPriceType::PreStoreFee => { assert(a.code().len() == 24); assert(b.code().len() == 11); }
                BasicPriceType::LiftFeeBasic => { assert(a.code().len() == 24); assert(b.code().len() == 12); }
                BasicPriceType::LiftFeePlus => { assert(a.code().len() == 24); assert(b.code().len() == 11); }
                BasicPriceType::BusinessWaterFee => { assert(a.code().len() == 24); assert(b.code().len() == 16); }
                BasicPriceType::BusinessElectricFee => { assert(a.code().len() == 24); assert(b.code().len() == 19); }
                BasicPriceType::BusinessWaterShareFee => { assert(a.code().len() == 24); assert(b.code().len() == 21); }
                BasicPriceType::BusinessElectricShareFee => {}
                BasicPriceType::ElectronCarPartFee => { assert(a.code().len() == 24); assert(b.code().len() == 18); }
                BasicPriceType::BusinessManageFee => { assert(a.code().len() == 24); assert(b.code().len() == 17); }
            },
            BasicPriceType::ElectronCarPartFee => match b {
                BasicPriceType::ManagementFee => { assert(a.code().len() == 18); assert(b.code().len() == 13); }
                BasicPriceType::CarPartFee => { assert(a.code().len() == 18); assert(b.code().len() == 10); }
                BasicPriceType::MotorCyclePartFee => { assert(a.code().len() == 18); assert(b.code().len() == 17); }
                BasicPriceType::MachineRoomRenovationFee => { assert(a.code().len() == 18); assert(b.code().len() == 24); }
                BasicPriceType::ElectricFee => { assert(a.code().len() == 18); assert(b.code().len() == 11); }
                BasicPriceType::ElectricShareFee => { assert(a.code().len() == 18); assert(b.code().len() == 16); }
                BasicPriceType::WaterFee => { assert(a.code().len() == 18); assert(b.code().len() == 8); }
                BasicPriceType::WaterShareFee => { assert(a.code().len() == 18); assert(b.code().len() == 13); }
                BasicPriceType::LiquidateFee => { assert(a.code().len() == 18); assert(b.code().len() == 12); }
                BasicPriceType::PreStoreFee => { assert(a.code().len() == 18); assert(b.code().len() == 11); }
                BasicPriceType::LiftFeeBasic => { assert(a.code().len() == 18); assert(b.code().len() == 12); }
                BasicPriceType::LiftFeePlus => { assert(a.code().len() == 18); assert(b.code().len() == 11); }
                BasicPriceType::BusinessWaterFee => { assert(a.code().len() == 18); assert(b.code().len() == 16); }
                BasicPriceType::BusinessElectricFee => { assert(a.code().len() == 18); assert(b.code().len() == 19); }
                BasicPriceType::BusinessWaterShareFee => { assert(a.code().len() == 18); assert(b.code().len() == 21); }
                BasicPriceType::BusinessElectricShareFee => { assert(a.code().len() == 18); assert(b.code().len() == 24); }
                BasicPriceType::ElectronCarPartFee => {}
                BasicPriceType::BusinessManageFee => { assert(a.code().len() == 18); assert(b.code().len() == 17); }
            },
            BasicPriceType::BusinessManageFee => match b {
                BasicPriceType::ManagementFee => { assert(a.code().len() == 17); assert(b.code().len() == 13); }
                BasicPriceType::CarPartFee => { assert(a.code().len() == 17); assert(b.code().len() == 10); }
                BasicPriceType::MotorCyclePartFee => { assert(a.code()[0] == 'B'); assert(b.code()[0] == 'M'); }
                BasicPriceType::MachineRoomRenovationFee => { assert(a.code().len() == 17); assert(b.code().len() == 24); }
                BasicPriceType::ElectricFee => { assert(a.code().len() == 17); assert(b.code().len() == 11); }
                BasicPriceType::ElectricShareFee => { assert(a.code().len() == 17); assert(b.code().len() == 16); }
                BasicPriceType::WaterFee => { assert(a.code().len() == 17); assert(b.code().len() == 8); }
                BasicPriceType::WaterShareFee => { assert(a.code().len() == 17); assert(b.code().len() == 13); }
                BasicPriceType::LiquidateFee => { assert(a.code().len() == 17); assert(b.code().len() == 12); }
                BasicPriceType::PreStoreFee => { assert(a.code().len() == 17); assert(b.code().len() == 11); }
                BasicPriceType::LiftFeeBasic => { assert(a.code().len() == 17); assert(b.code().len() == 12); }
                BasicPriceType::LiftFeePlus => { assert(a.code().len() == 17); assert(b.code().len() == 11); }
                BasicPriceType::BusinessWaterFee => { assert(a.code().len() == 17); assert(b.code().len() == 16); }
                BasicPriceType::BusinessElectricFee => { assert(a.code().len() == 17); assert(b.code().len() == 19); }
                BasicPriceType::BusinessWaterShareFee => { assert(a.code().len() == 17); assert(b.code().len() == 21); }
                BasicPriceType::BusinessElectricShareFee => { assert(a.code().len() == 17); assert(b.code().len() == 24); }
                BasicPriceType::ElectronCarPartFee => { assert(a.code().len() == 17); assert(b.code().len() == 18); }
                BasicPriceType::BusinessManageFee => {}
            },
        }
    }
}

/// The error text for a code that names no price type.
pub open spec fn invalid_price_type_text(s: Seq<char>) -> Seq<char> {
    "Invalid BasicPriceType for type "@ + s
}

fn match_price_code(s: &str) -> (r: Option<BasicPriceType>)
    ensures
        r matches Some(t) ==> t.code() == s@,
        r is None ==> forall|t: BasicPriceType| #[trigger] t.code() != s@,
{
    proof {
        reveal_strlit("ManagementFee");
        reveal_strlit("CarPartFee");
        reveal_strlit("MotorCyclePartFee");
        reveal_strlit("MachineRoomRenovationFee");
        reveal_strlit("ElectricFee");
        reveal_strlit("ElectricShareFee");
        reveal_strlit("WaterFee");
        reveal_strlit("WaterShareFee");
        reveal_strlit("LiquidateFee");
        reveal_strlit("PreStoreFee");
        reveal_strlit("LiftFeeBasic");
        reveal_strlit("LiftFeePlus");
        reveal_strlit("BusinessWaterFee");
        reveal_strlit("BusinessElectricFee");
        reveal_strlit("BusinessWaterShareFee");
        reveal_strlit("BusinessElectricShareFee");
        reveal_strlit("ElectronCarPartFee");
        reveal_strlit("BusinessManageFee");
    }
    if str_equal(s, "ManagementFee") {
        return Some(BasicPriceType::ManagementFee);
    }
    if str_equal(s, "CarPartFee") {
        return Some(BasicPriceType::CarPartFee);
    }
    if str_equal(s, "MotorCyclePartFee") {
        return Some(BasicPriceType::MotorCyclePartFee);
    }
    if str_equal(s, "MachineRoomRenovationFee") {
        return Some(BasicPriceType::MachineRoomRenovationFee);
    }
    if str_equal(s, "ElectricFee") {
        return Some(BasicPriceType::ElectricFee);
    }
    if str_equal(s, "ElectricShareFee") {
        return Some(BasicPriceType::ElectricShareFee);
    }
    if str_equal(s, "WaterFee") {
        return Some(BasicPriceType::WaterFee);
    }
    if str_equal(s, "WaterShareFee") {
        return Some(BasicPriceType::WaterShareFee);
    }
    if str_equal(s, "LiquidateFee") {
        return Some(BasicPriceType::LiquidateFee);
    }
    if str_equal(s, "PreStoreFee") {
        return Some(BasicPriceType::PreStoreFee);
    }
    if str_equal(s, "LiftFeeBasic") {
        return Some(BasicPriceType::LiftFeeBasic);
    }
    if str_equal(s, "LiftFeePlus") {
        return Some(BasicPriceType::LiftFeePlus);
    }
    if str_equal(s, "BusinessWaterFee") {
        return Some(BasicPriceType::BusinessWaterFee);
    }
    if str_equal(s, "BusinessElectricFee") {
        return Some(BasicPriceType::BusinessElectricFee);
    }
    if str_equal(s, "BusinessWaterShareFee") {
        return Some(BasicPriceType::BusinessWaterShareFee);
    }
    if str_equal(s, "BusinessElectricShareFee") {
        return Some(BasicPriceType::BusinessElectricShareFee);
    }
    if str_equal(s, "ElectronCarPartFee") {
        return Some(BasicPriceType::ElectronCarPartFee);
    }
    if str_equal(s, "BusinessManageFee") {
        return Some(BasicPriceType::BusinessManageFee);
    }
    assert forall|t: BasicPriceType| #[trigger] t.code() != s@ by {
        match t {
            BasicPriceType::ManagementFee => {}
            BasicPriceType::CarPartFee => {}
            BasicPriceType::MotorCyclePartFee => {}
            BasicPriceType::MachineRoomRenovationFee => {}
            BasicPriceType::ElectricFee => {}
            BasicPriceType::ElectricShareFee => {}
            BasicPriceType::WaterFee => {}
            BasicPriceType::WaterShareFee => {}
            BasicPriceType::LiquidateFee => {}
            BasicPriceType::PreStoreFee => {}
            BasicPriceType::LiftFeeBasic => {}
            BasicPriceType::LiftFeePlus => {}
            BasicPriceType::BusinessWaterFee => {}
            BasicPriceType::BusinessElectricFee => {}
            BasicPriceType::BusinessWaterShareFee => {}
            BasicPriceType::BusinessElectricShareFee => {}
            BasicPriceType::ElectronCarPartFee => {}
            BasicPriceType::BusinessManageFee => {}
        }
    }
    None
}

/// Reads a price type from its stored code.
pub fn price_type_from_code(s: &str) -> (r: Result<BasicPriceType, String>)
    ensures
        forall|t: BasicPriceType| #[trigger] t.code() == s@ <==> r == Ok::<BasicPriceType, String>(t),
        r matches Err(e) ==> e@ == invalid_price_type_text(s@),
{
    match match_price_code(s) {
        Some(t0) => {
            assert forall|t: BasicPriceType| #[trigger] t.code() == s@ implies t == t0 by {
                lemma_price_codes_distinct(t, t0);
            }
            Ok(t0)
        },
        None => {
            let mut e = String::from_str("Invalid BasicPriceType for type ");
            proof {
                reveal_strlit("Invalid BasicPriceType for type ");
            }
            e.append(s);
            Err(e)
        },
    }
}

/// How a configured price combines with its base.
#[derive(Clone, Copy, Debug, PartialEq, Eq, Structural)]
pub enum CalculateOperationType {
    Add,
    Sub,
    Mul,
    Div,
}

impl CalculateOperationType {
    /// The code under which the operation is stored.
    pub open spec fn code(self) -> Seq<char> {
        match self {
            CalculateOperationType::Add => "add"@,
            CalculateOperationType::Sub => "subtract"@,
            CalculateOperationType::Mul => "multiply"@,
            CalculateOperationType::Div => "divide"@,
        }
    }
}

/// Reads an operation from its stored code.
pub fn operation_from_code(s: &str) -> (r: Result<CalculateOperationType, String>)
    ensures
        forall|t: CalculateOperationType| #[trigger] t.code() == s@ <==> r == Ok::<CalculateOperationType, String>(t),
        r matches Err(e) ==> e@ == "Invalid CalculateOperationType"@,
{
    proof {
        reveal_strlit("add");
        reveal_strlit("subtract");
        reveal_strlit("multiply");
        reveal_strlit("divide");
        assert("add"@.len() == 3);
        assert("subtract"@.len() == 8);
        assert("multiply"@.len() == 8);
        assert("divide"@.len() == 6);
        assert("subtract"@[0] != "multiply"@[0]);
    }
    if str_equal(s, "add") {
        return Ok(CalculateOperationType::Add);
    }
    if str_equal(s, "subtract") {
        return Ok(CalculateOperationType::Sub);
    }
    if str_equal(s, "multiply") {
        return Ok(CalculateOperationType::Mul);
    }
    if str_equal(s, "divide") {
        return Ok(CalculateOperationType::Div);
    }
    proof {
        reveal_strlit("Invalid CalculateOperationType");
    }
    Err(String::from_str("Invalid CalculateOperationType"))
}

/// A configured price.
#[derive(Debug)]
pub struct PriceBasicPo {
    pub id: i64,
    pub name: Option<String>,
    pub basic_number: Option<Decimal>,
    pub create_by: Option<String>,
    pub update_by: Option<String>,
    pub is_delete: Option<bool>,
    pub operation_type: Option<CalculateOperationType>,
    pub comment: Option<String>,
    pub basic_code: Option<BasicPriceType>,
}

/// The prices by kind; where a kind is configured twice, the later entry counts.
pub struct PriceTable {
    pub entries: Vec<PriceBasicPo>,
}

/// The last price in `prices` of kind `t`.
pub open spec fn last_of_kind(prices: Seq<PriceBasicPo>, t: BasicPriceType) -> Option<PriceBasicPo>
    decreases prices.len(),
{
    if prices.len() == 0 {
        None
    } else if prices.last().basic_code == Some(t) {
        Some(prices.last())
    } else {
        last_of_kind(prices.drop_last(), t)
    }
}

impl PriceTable {
    /// The configured price of kind `t`.
    pub open spec fn lookup(self, t: BasicPriceType) -> Option<PriceBasicPo> {
        last_of_kind(self.entries@, t)
    }

    /// The unit price of kind `t`, where one is configured and has a number.
    pub open spec fn price(self, t: BasicPriceType) -> Option<Decimal> {
        match self.lookup(t) {
            Some(p) => p.basic_number,
            None => None,
        }
    }

    /// The unit price of kind `t`, where one is configured and has a number.
    pub fn get_price(&self, t: BasicPriceType) -> (r: Option<Decimal>)
        ensures
            r == self.price(t),
    {
        let mut i = self.entries.len();
        assert(self.entries@.take(i as int) =~= self.entries@);
        while i > 0
            invariant
                i <= self.entries.len(),
                last_of_kind(self.entries@, t) == last_of_kind(self.entries@.take(i as int), t),
            decreases i,
        {
            let ghost prefix = self.entries@.take(i as int);
            assert(prefix.drop_last() =~= self.entries@.take(i - 1));
            assert(prefix.last() == self.entries@[i - 1]);
            if self.entries[i - 1].basic_code == Some(t) {
                return self.entries[i - 1].basic_number;
            }
            i = i - 1;
        }
        None
    }
}

/// Turning a list of prices into a table by kind.
pub trait PriceBasicConfigGet {
    fn to_price_type_map(self) -> PriceTable;
}

impl PriceBasicConfigGet for Vec<PriceBasicPo> {
    /// The prices that have a kind, each kind answered by its last price.
    fn to_price_type_map(self) -> (r: PriceTable)
        ensures
            forall|t: BasicPriceType| #[trigger] r.lookup(t) == last_of_kind(self@, t),
    {
        let ghost orig = self@;
        let mut entries: Vec<PriceBasicPo> = Vec::new();
        let mut rest = self;
        let mut i: usize = 0;
        assert(orig.len() == rest.len());
        while rest.len() > 0
            invariant
                i <= orig.len(),
                orig.len() <= usize::MAX,
                rest.len() + i == orig.len(),
                rest@ == orig.skip(i as int),
                forall|t: BasicPriceType| #[trigger] last_of_kind(entries@, t) == last_of_kind(orig.take(i as int), t),
            decreases rest.len(),
        {
            let po = rest.remove(0);
            proof {
                assert(orig.skip(i + 1) =~= orig.skip(i as int).remove(0));
                assert(orig.take(i + 1).drop_last() =~= orig.take(i as int));
                assert(orig.take(i + 1).last() == po);
            }
            let ghost before = entries@;
            let ghost code = po.basic_code;
            if po.basic_code.is_some() {
                entries.push(po);
                assert(entries@.drop_last() =~= before);
            }
            proof {
                assert forall|t: BasicPriceType| #[trigger] last_of_kind(entries@, t) == last_of_kind(orig.take(i + 1), t) by {
                    assert(last_of_kind(before, t) == last_of_kind(orig.take(i as int), t));
                }
            }
            i = i + 1;
        }
        assert(orig.take(i as int) =~= orig);
        PriceTable { entries }
    }
}

} // verus!
