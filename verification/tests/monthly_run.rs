use chrono::NaiveDateTime;
use owner_fee_ledger::decimal::Decimal;
use owner_fee_ledger::error::AppError;
use owner_fee_ledger::fee_service::{fees_to_create, management_fee_stream, pre_store_stream, Contains};
use owner_fee_ledger::owner_fee::{DetailType, OwnerFeeDetailPo};
use owner_fee_ledger::owner_info::{OwnerBasicInfoPo, RoomType};
use owner_fee_ledger::price_basic::{BasicPriceType, PriceBasicPo, PriceTable};
use owner_fee_ledger::property_fee::{PropertyFeeDetailPo, PropertyFeeDetailUpdatePo};
use owner_fee_ledger::property_fee_service::{
    arrears, build_property_fees, build_room_readings, room_ready, try_build_property_fees,
    try_property_fee_for_room, contains_text, edit_property_fee,
    find_owner, group_unpaid_streams, init_current_month_version,
};
use owner_fee_ledger::room_info::{ReCalculator, RoomInfoDetailInsertPo, RoomInfoDetailPo, RoomInfoDetailUpdatePo};

fn dec(m: i128, s: u32) -> Decimal {
    Decimal::new(m, s)
}

fn same(a: &Decimal, b: &Decimal) -> bool {
    a.minus(b).is_zero()
}

fn bill(room: &str, version: &str) -> PropertyFeeDetailPo {
    PropertyFeeDetailPo {
        id: 3,
        room_number: Some(room.to_string()),
        room_owner_name: None,
        management_fee: Some(dec(100, 0)),
        part_fee: None,
        machine_room_renovation_fee: None,
        electric_fee: None,
        electric_share_fee: None,
        water_fee: None,
        water_share_fee: None,
        liquidate_fee: None,
        pre_store_fee: Some(dec(20, 0)),
        record_version: Some(version.to_string()),
        create_by: "system".to_string(),
        update_by: "system".to_string(),
        create_time: NaiveDateTime::default(),
        update_time: NaiveDateTime::default(),
        is_delete: false,
        delete_at: None,
        comment: None,
        total_fee: Some(dec(100, 0)),
        lift_fee: None,
        total_charge: dec(120, 0),
    }
}

fn line(stream_id: &str, room: &str, t: DetailType, amount: Decimal, related: &str) -> OwnerFeeDetailPo {
    OwnerFeeDetailPo {
        id: 0,
        stream_id: stream_id.to_string(),
        room_number: room.to_string(),
        owner_name: None,
        detail_type: t,
        amount,
        comment: None,
        create_by: "System".to_string(),
        update_by: "System".to_string(),
        create_time: NaiveDateTime::default(),
        update_time: NaiveDateTime::default(),
        is_delete: false,
        record_id: "R1".to_string(),
        related_order_number: related.to_string(),
    }
}

fn owner(room: &str, square: Decimal) -> OwnerBasicInfoPo {
    OwnerBasicInfoPo {
        id: 1,
        room_number: room.to_string(),
        owner_name: Some("Zhao".to_string()),
        room_square: Some(square),
        create_by: None,
        update_by: None,
        is_delete: false,
        comment: None,
        other_basic: None,
        amount_balance: dec(0, 0),
        room_type: RoomType::Common,
    }
}

fn reading(room: &str, water_sub: Option<i64>, electric_sub: Option<i64>) -> RoomInfoDetailPo {
    RoomInfoDetailPo {
        id: 1,
        room_number: Some(room.to_string()),
        water_meter_num_before: Some(10),
        water_meter_num: Some(20),
        water_meter_sub: water_sub,
        electricity_meter_num_before: Some(100),
        electricity_meter_num: Some(150),
        electricity_meter_sub: electric_sub,
        month_version: Some("HSMZ-2024-4".to_string()),
        comment: None,
        create_by: None,
        update_by: None,
        create_time: NaiveDateTime::default(),
        update_time: NaiveDateTime::default(),
        is_delete: false,
        room_owner_name: None,
        delete_at: None,
    }
}

fn price(code: BasicPriceType, number: Decimal) -> PriceBasicPo {
    PriceBasicPo {
        id: 0,
        name: None,
        basic_number: Some(number),
        create_by: None,
        update_by: None,
        is_delete: None,
        operation_type: None,
        comment: None,
        basic_code: Some(code),
    }
}

#[test]
fn month_versions() {
    assert_eq!(init_current_month_version(2024, 5), "HSMZ-2024-5");
    assert_eq!(init_current_month_version(2023, 12), "HSMZ-2023-12");
}

#[test]
fn bills_already_streamed_are_skipped() {
    let bills = vec![bill("A101", "HSMZ-2024-5"), bill("A102", "HSMZ-2024-5")];
    let existing = vec![line("S1", "A101", DetailType::ManagementFee, dec(100, 0), "HSMZ-2024-5")];
    assert!(existing.contains(&bills[0]));
    assert!(!existing.contains(&bills[1]));
    let todo = fees_to_create(bills, &existing);
    assert_eq!(todo.len(), 1);
    assert_eq!(todo[0].room_number.as_deref(), Some("A102"));
}

#[test]
fn stream_lines_of_a_bill() {
    let b = bill("A101", "HSMZ-2024-5");
    let fee = management_fee_stream(&b).unwrap();
    assert_eq!(fee.stream_type, DetailType::ManagementFee);
    assert_eq!(fee.amount, Some(dec(100, 0)));
    assert_eq!(fee.relative_order_number, "HSMZ-2024-5");
    let mut no_version = bill("A101", "x");
    no_version.record_version = None;
    assert_eq!(management_fee_stream(&no_version).err(), Some(AppError::DataNotExist));

    let pre = pre_store_stream(&b, &vec![]).unwrap();
    assert_eq!(pre.stream_type, DetailType::PreStoreFee);
    assert_eq!(pre.amount, Some(dec(20, 0)));
    let done = vec![line("S1", "A101", DetailType::PreStoreFee, dec(20, 0), "HSMZ-2024-5")];
    assert!(pre_store_stream(&b, &done).is_none());
}

#[test]
fn editing_a_bill() {
    let b = bill("A101", "HSMZ-2024-5");
    let mut change = PropertyFeeDetailUpdatePo::from(&b);
    change.management_fee = Some(dec(150, 0));
    let edited = edit_property_fee(&b, change, false).unwrap();
    assert!(same(&edited.total_fee.unwrap(), &dec(150, 0)));
    assert!(same(&edited.total_charge.unwrap(), &dec(170, 0)));

    let change = PropertyFeeDetailUpdatePo::from(&b);
    assert_eq!(edit_property_fee(&b, change, true).err(), Some(AppError::OwnerFeeDetailExist));
    let mut no_room = bill("A101", "v");
    no_room.room_number = None;
    let change = PropertyFeeDetailUpdatePo::from(&no_room);
    assert_eq!(edit_property_fee(&no_room, change, false).err(), Some(AppError::DataNotFound));
}

#[test]
fn arrears_sum_the_unpaid_lines() {
    let lines = vec![
        line("S1", "A101", DetailType::ManagementFee, dec(10050, 2), "v"),
        line("S2", "A101", DetailType::ManagementFee, dec(50, 0), "v"),
    ];
    assert!(same(&arrears(&lines).unwrap(), &dec(15050, 2)));
    assert_eq!(arrears(&vec![]), None);
}

#[test]
fn unpaid_lines_of_rooms_owing_two_months() {
    let lines = vec![
        line("S1", "A101", DetailType::ManagementFee, dec(1, 0), "v1"),
        line("S2", "A102", DetailType::ManagementFee, dec(1, 0), "v1"),
        line("S3", "A101", DetailType::ManagementFee, dec(1, 0), "v2"),
        line("S4", "A103", DetailType::ManagementFee, dec(1, 0), "v1"),
        line("S5", "A103", DetailType::ManagementFee, dec(1, 0), "v2"),
        line("S6", "A103", DetailType::ManagementFee, dec(1, 0), "v3"),
    ];
    let groups = group_unpaid_streams(lines);
    assert_eq!(groups.len(), 2);
    assert_eq!(groups[0].0, "A101");
    assert_eq!(groups[0].1.iter().map(|l| l.stream_id.as_str()).collect::<Vec<_>>(), vec!["S1", "S3"]);
    assert_eq!(groups[1].0, "A103");
    assert_eq!(groups[1].1.len(), 3);
}

#[test]
fn owners_and_room_lists() {
    let owners = vec![owner("A101", dec(80, 0)), owner("A102", dec(90, 0))];
    assert_eq!(find_owner(&owners, "A102").map(|o| o.room_number.as_str()), Some("A102"));
    assert!(find_owner(&owners, "B1").is_none());
    let rooms = vec!["A101".to_string()];
    assert!(contains_text(&rooms, "A101"));
    assert!(!contains_text(&rooms, "A10"));
}

#[test]
fn bills_of_a_month() {
    let rooms = vec![
        reading("A101", Some(10), Some(50)),
        reading("B203", Some(5), None),
        reading("C301", Some(1), Some(1)),
        reading("A102", None, Some(7)),
    ];
    let owners = vec![owner("A101", dec(80, 0)), owner("B203", dec(100, 0)), owner("A102", dec(10, 0))];
    let existing = vec!["A102".to_string()];
    let config = PriceTable {
        entries: vec![
            price(BasicPriceType::ManagementFee, dec(2, 0)),
            price(BasicPriceType::ElectricFee, dec(5, 1)),
            price(BasicPriceType::WaterFee, dec(3, 0)),
            price(BasicPriceType::WaterShareFee, dec(1, 1)),
            price(BasicPriceType::LiftFeeBasic, dec(10, 0)),
            price(BasicPriceType::LiftFeePlus, dec(1, 0)),
        ],
    };
    let liquidate = vec![None, Some(dec(3, 0)), None, None];
    let bills = build_property_fees(&rooms, &owners, &existing, &config, &liquidate, "HSMZ-2024-5", "system");
    // C301 has no owner, A102 has its bill already
    assert_eq!(bills.len(), 2);
    let a = &bills[0];
    assert_eq!(a.room_number, "A101");
    assert_eq!(a.room_owner_name.as_deref(), Some("Zhao"));
    assert_eq!(a.record_version, "HSMZ-2024-5");
    assert!(same(&a.management_fee.unwrap(), &dec(160, 0)));
    assert!(same(&a.electric_fee.unwrap(), &dec(25, 0)));
    assert!(same(&a.water_fee.unwrap(), &dec(30, 0)));
    assert!(same(&a.water_share_fee.unwrap(), &dec(3, 0)));
    assert!(same(&a.lift_fee.unwrap(), &dec(11, 0)));
    assert_eq!(a.part_fee, None);
    // 160 + 11 + 25 + 30 + 3
    assert!(same(&a.total_fee.unwrap(), &dec(229, 0)));
    assert!(same(&a.total_charge.unwrap(), &dec(229, 0)));
    let b = &bills[1];
    assert_eq!(b.room_number, "B203");
    assert_eq!(b.electric_fee, None);
    assert!(same(&b.lift_fee.unwrap(), &dec(12, 0)));
    assert!(same(&b.liquidate_fee.unwrap(), &dec(3, 0)));
    // 200 + 12 + 15 + 1.5 + 3
    assert!(same(&b.total_fee.unwrap(), &dec(2315, 1)));
}

#[test]
fn readings_of_a_new_month() {
    let owners = vec![owner("A101", dec(80, 0)), owner("A102", dec(90, 0)), owner("A103", dec(70, 0))];
    let last = vec![reading("A101", None, None), reading("A103", None, None)];
    let existing = vec!["A102".to_string()];
    let epoch = NaiveDateTime::default();
    let rows = build_room_readings(&owners, &last, &existing, "HSMZ-2024-6", "system", None, epoch);
    assert_eq!(rows.len(), 2);
    assert_eq!(rows[0].room_number.as_deref(), Some("A101"));
    assert_eq!(rows[0].water_meter_num_before, Some(20));
    assert_eq!(rows[0].electricity_meter_num_before, Some(150));
    assert_eq!(rows[0].water_meter_num, None);
    assert_eq!(rows[0].month_version.as_deref(), Some("HSMZ-2024-6"));
    assert_eq!(rows[1].room_number.as_deref(), Some("A103"));
    assert_eq!(rows[1].delete_at, Some(epoch));
}

#[test]
fn readings_derive_their_units() {
    let row = RoomInfoDetailInsertPo {
        room_number: Some("A101".to_string()),
        water_meter_num_before: Some(10),
        water_meter_num: Some(25),
        water_meter_sub: None,
        electricity_meter_num_before: None,
        electricity_meter_num: Some(40),
        electricity_meter_sub: None,
        month_version: None,
        comment: None,
        create_by: None,
        update_by: None,
        create_time: None,
        update_time: None,
        room_owner_name: None,
        delete_at: None,
    }
    .re_calculate();
    assert_eq!(row.water_meter_sub, Some(15));
    assert_eq!(row.electricity_meter_sub, Some(40));

    let stored = reading("A101", None, None);
    let update = RoomInfoDetailUpdatePo {
        id: 1,
        water_meter_num_before: None,
        water_meter_num: Some(30),
        water_meter_sub: None,
        electricity_meter_num_before: None,
        electricity_meter_num: None,
        electricity_meter_sub: None,
        month_version: None,
        comment: None,
        create_by: None,
        update_by: None,
        create_time: None,
        update_time: None,
    }
    .full_filed(&stored)
    .re_calculate();
    assert_eq!(update.water_meter_num_before, Some(10));
    assert_eq!(update.water_meter_sub, Some(20));
    assert_eq!(update.electricity_meter_sub, Some(50));
}

#[test]
fn bills_are_refused_where_a_fee_overflows() {
    let rooms = vec![reading("A101", Some(10), Some(50))];
    let owners = vec![owner("A101", dec(80, 0))];
    let fine = PriceTable { entries: vec![price(BasicPriceType::ManagementFee, dec(2, 0))] };
    assert!(room_ready(&rooms[0], &owners[0], &fine, None));
    let bills = try_build_property_fees(&rooms, &owners, &vec![], &fine, &vec![None], "v", "system").unwrap();
    assert_eq!(bills.len(), 1);
    assert!(same(&bills[0].total_fee.unwrap(), &dec(160, 0)));
    let one = try_property_fee_for_room(&rooms[0], &owners[0], &fine, None, "v", "system").unwrap();
    assert_eq!(one.room_number, "A101");

    let huge = PriceTable { entries: vec![price(BasicPriceType::ManagementFee, dec(i128::MAX, 0))] };
    assert!(!room_ready(&rooms[0], &owners[0], &huge, None));
    assert!(try_build_property_fees(&rooms, &owners, &vec![], &huge, &vec![None], "v", "system").is_none());
    assert!(try_property_fee_for_room(&rooms[0], &owners[0], &huge, None, "v", "system").is_none());
    // a room that already has its bill is not looked at
    assert_eq!(
        try_build_property_fees(&rooms, &owners, &vec!["A101".to_string()], &huge, &vec![None], "v", "system")
            .map(|b| b.len()),
        Some(0)
    );
}

#[test]
fn a_second_run_books_no_bill_twice() {
    let bills = vec![bill("A101", "HSMZ-2024-5"), bill("A102", "HSMZ-2024-5")];
    let mut lines = vec![line("S1", "A101", DetailType::ManagementFee, dec(100, 0), "HSMZ-2024-5")];
    let first = fees_to_create(bills, &lines);
    assert_eq!(first.len(), 1);
    for b in &first {
        lines.push(line("S2", b.room_number.as_deref().unwrap(), DetailType::ManagementFee, dec(100, 0), "HSMZ-2024-5"));
    }
    let bills = vec![bill("A101", "HSMZ-2024-5"), bill("A102", "HSMZ-2024-5")];
    assert!(fees_to_create(bills, &lines).is_empty());
}

#[test]
fn second_runs_of_a_month_make_nothing() {
    let rooms = vec![reading("A101", Some(10), Some(50)), reading("B203", Some(5), None)];
    let owners = vec![owner("A101", dec(80, 0)), owner("B203", dec(100, 0))];
    let config = PriceTable { entries: vec![price(BasicPriceType::ManagementFee, dec(2, 0))] };
    let liquidate = vec![None, None];
    let first = build_property_fees(&rooms, &owners, &vec![], &config, &liquidate, "v", "system");
    assert_eq!(first.len(), 2);
    let billed: Vec<String> = first.iter().map(|b| b.room_number.clone()).collect();
    assert!(build_property_fees(&rooms, &owners, &billed, &config, &liquidate, "v", "system").is_empty());

    let epoch = NaiveDateTime::default();
    let rows = build_room_readings(&owners, &rooms, &vec![], "v2", "system", None, epoch);
    assert_eq!(rows.len(), 2);
    let with_rows: Vec<String> = rows.iter().map(|r| r.room_number.clone().unwrap()).collect();
    assert!(build_room_readings(&owners, &rooms, &with_rows, "v2", "system", None, epoch).is_empty());
}
