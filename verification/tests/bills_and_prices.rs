use chrono::NaiveDateTime;
use owner_fee_ledger::component::FeeCalculator;
use owner_fee_ledger::decimal::Decimal;
use owner_fee_ledger::price_basic::{
    operation_from_code, price_type_from_code, BasicPriceType, CalculateOperationType,
    PriceBasicConfigGet, PriceBasicPo, PriceTable,
};
use owner_fee_ledger::property_fee::{
    compute_totals, sum_fees, PropertyFeeDetailInsertPo, PropertyFeeDetailPo,
    PropertyFeeDetailUpdatePo,
};
use owner_fee_ledger::sheet_layout::{
    form_plan, header_cells, sum_formula_text, sum_line_cells, work_book_plan, CellStyle, CellValue,
};

fn dec(m: i128, s: u32) -> Decimal {
    Decimal::new(m, s)
}

fn same(a: &Decimal, b: &Decimal) -> bool {
    a.minus(b).is_zero()
}

fn bill(room: &str) -> PropertyFeeDetailPo {
    PropertyFeeDetailPo {
        id: 1,
        room_number: Some(room.to_string()),
        room_owner_name: Some("Wang".to_string()),
        management_fee: Some(dec(12050, 2)),
        part_fee: Some(dec(100, 0)),
        machine_room_renovation_fee: None,
        electric_fee: Some(dec(305, 1)),
        electric_share_fee: None,
        water_fee: Some(dec(12, 0)),
        water_share_fee: Some(dec(3, 0)),
        liquidate_fee: None,
        pre_store_fee: Some(dec(50, 0)),
        record_version: Some("HSMZ-2024-5".to_string()),
        create_by: "system".to_string(),
        update_by: "system".to_string(),
        create_time: NaiveDateTime::default(),
        update_time: NaiveDateTime::default(),
        is_delete: false,
        delete_at: None,
        comment: Some("c".to_string()),
        total_fee: None,
        lift_fee: Some(dec(20, 0)),
        total_charge: dec(0, 0),
    }
}

fn empty_change(id: i64) -> PropertyFeeDetailUpdatePo {
    PropertyFeeDetailUpdatePo {
        id,
        management_fee: None,
        part_fee: None,
        machine_room_renovation_fee: None,
        lift_fee: None,
        electric_fee: None,
        electric_share_fee: None,
        water_fee: None,
        water_share_fee: None,
        liquidate_fee: None,
        pre_store_fee: None,
        update_by: None,
        update_time: None,
        is_delete: None,
        delete_at: None,
        comment: None,
        total_fee: None,
        total_charge: None,
    }
}

fn price(code: Option<BasicPriceType>, number: Option<Decimal>) -> PriceBasicPo {
    PriceBasicPo {
        id: 0,
        name: None,
        basic_number: number,
        create_by: None,
        update_by: None,
        is_delete: None,
        operation_type: None,
        comment: None,
        basic_code: code,
    }
}

#[test]
fn bill_total_sums_the_present_fees() {
    let b = bill("A101");
    // 120.50 + 100 + 20 + 30.5 + 12 + 3
    assert!(same(&b.fee_calculate(), &dec(28600, 2)));
}

#[test]
fn totals_add_the_stored_money() {
    let fees = vec![Some(dec(10, 0)), None, Some(dec(25, 1))];
    assert!(same(&sum_fees(&fees), &dec(125, 1)));
    let (total, charge) = compute_totals(&fees, &Some(dec(5, 0)));
    assert!(same(&total, &dec(125, 1)));
    assert!(same(&charge, &dec(175, 1)));
    let (total, charge) = compute_totals(&vec![], &None);
    assert!(total.is_zero() && charge.is_zero());
}

#[test]
fn update_takes_present_fields_only() {
    let b = bill("A101");
    let mut exist: PropertyFeeDetailUpdatePo = PropertyFeeDetailUpdatePo::from(&b);
    let mut change = empty_change(1);
    change.water_fee = Some(dec(40, 0));
    change.comment = Some("fixed".to_string());
    exist.update(change);
    assert_eq!(exist.water_fee, Some(dec(40, 0)));
    assert_eq!(exist.management_fee, Some(dec(12050, 2)));
    assert_eq!(exist.comment.as_deref(), Some("fixed"));
    exist.fee_calculate();
    // 120.50 + 100 + 20 + 30.5 + 40 + 3 = 314, plus 50 stored
    assert!(same(&exist.total_fee.unwrap(), &dec(314, 0)));
    assert!(same(&exist.total_charge.unwrap(), &dec(364, 0)));
}

#[test]
fn update_with_an_empty_change_changes_nothing_and_twice_is_once() {
    let b = bill("A101");
    let mut x: PropertyFeeDetailUpdatePo = PropertyFeeDetailUpdatePo::from(&b);
    x.update(empty_change(9));
    assert_eq!(x.management_fee, b.management_fee);
    assert_eq!(x.water_fee, b.water_fee);
    assert_eq!(x.comment, b.comment);
    let mut c1 = empty_change(1);
    c1.part_fee = Some(dec(7, 0));
    let mut c2 = empty_change(1);
    c2.part_fee = Some(dec(7, 0));
    x.update(c1);
    let once = x.part_fee;
    x.update(c2);
    assert_eq!(x.part_fee, once);
}

#[test]
fn insert_bill_totals() {
    let mut po = PropertyFeeDetailInsertPo {
        room_number: "A101".to_string(),
        room_owner_name: None,
        management_fee: Some(dec(1, 0)),
        part_fee: None,
        lift_fee: Some(dec(2, 0)),
        machine_room_renovation_fee: None,
        electric_fee: None,
        electric_share_fee: None,
        water_fee: None,
        water_share_fee: None,
        liquidate_fee: Some(dec(5, 1)),
        pre_store_fee: None,
        record_version: "HSMZ-2024-5".to_string(),
        create_by: "system".to_string(),
        update_by: "system".to_string(),
        create_time: None,
        update_time: None,
        is_delete: false,
        delete_at: None,
        comment: None,
        total_fee: None,
        total_charge: None,
    };
    po.fee_calculate();
    assert!(same(&po.total_fee.unwrap(), &dec(35, 1)));
    assert!(same(&po.total_charge.unwrap(), &dec(35, 1)));
}

#[test]
fn price_codes_round_trip() {
    let all = [
        BasicPriceType::ManagementFee,
        BasicPriceType::CarPartFee,
        BasicPriceType::LiftFeeBasic,
        BasicPriceType::LiftFeePlus,
        BasicPriceType::LiquidateFee,
        BasicPriceType::BusinessManageFee,
        BasicPriceType::ElectronCarPartFee,
    ];
    for t in all {
        assert_eq!(price_type_from_code(&t.to_string()), Ok(t));
    }
    assert_eq!(BasicPriceType::ManagementFee.to_string(), "ManagementFee");
}

#[test]
fn unknown_price_code_is_refused() {
    assert_eq!(
        price_type_from_code("Nothing"),
        Err("Invalid BasicPriceType for type Nothing".to_string())
    );
}

#[test]
fn operation_codes() {
    assert_eq!(operation_from_code("add"), Ok(CalculateOperationType::Add));
    assert_eq!(operation_from_code("subtract"), Ok(CalculateOperationType::Sub));
    assert_eq!(operation_from_code("multiply"), Ok(CalculateOperationType::Mul));
    assert_eq!(operation_from_code("divide"), Ok(CalculateOperationType::Div));
    assert_eq!(operation_from_code("mod"), Err("Invalid CalculateOperationType".to_string()));
}

#[test]
fn price_table_answers_the_last_price_of_a_kind() {
    let table = vec![
        price(Some(BasicPriceType::WaterFee), Some(dec(3, 0))),
        price(None, Some(dec(99, 0))),
        price(Some(BasicPriceType::WaterFee), Some(dec(4, 0))),
        price(Some(BasicPriceType::ElectricFee), None),
    ]
    .to_price_type_map();
    assert_eq!(table.get_price(BasicPriceType::WaterFee), Some(dec(4, 0)));
    assert_eq!(table.get_price(BasicPriceType::ElectricFee), None);
    assert_eq!(table.get_price(BasicPriceType::ManagementFee), None);
    let direct = PriceTable { entries: vec![price(Some(BasicPriceType::LiftFeePlus), Some(dec(1, 0)))] };
    assert_eq!(direct.get_price(BasicPriceType::LiftFeePlus), Some(dec(1, 0)));
}

fn formula(v: &CellValue) -> &str {
    match v {
        CellValue::Formula(f) => f.as_str(),
        other => panic!("not a formula: {:?}", other),
    }
}

#[test]
fn sum_formulas() {
    assert_eq!(sum_formula_text(1, 1, 1, 21), "=SUM(B1:B21)");
    assert_eq!(sum_formula_text(1, 22, 8, 22), "=SUM(B22:I22)");
}

#[test]
fn header_row() {
    let h = header_cells(0);
    assert_eq!(h.len(), 12);
    match &h[0].value {
        CellValue::Text(t) => assert_eq!(t, "房间号"),
        other => panic!("{:?}", other),
    }
    match &h[11].value {
        CellValue::Text(t) => assert_eq!(t, "总费用"),
        other => panic!("{:?}", other),
    }
    assert!(h.iter().all(|c| c.row == 0 && c.style == CellStyle::Bold));
}

#[test]
fn sum_line() {
    let s = sum_line_cells(21, 20);
    assert_eq!(s.len(), 12);
    assert_eq!(formula(&s[1].value), "=SUM(B1:B21)");
    assert_eq!(formula(&s[10].value), "=SUM(K1:K21)");
    assert_eq!(formula(&s[11].value), "=SUM(B22:I22)");
}

#[test]
fn one_form() {
    let plan = form_plan(&vec![bill("A101")], 0, 20);
    // header, the bill's row (room, 6 fees, total), 19 empty rows, sum line
    assert_eq!(plan.cells.len(), 12 + 8 + 19 + 12);
    assert_eq!(plan.first_row, 0);
    assert_eq!(plan.next_row, 22);
    assert_eq!(plan.body_first_row, 1);
    assert_eq!(plan.body_last_row, 21);
    let row1: Vec<_> = plan.cells.iter().filter(|c| c.row == 1).collect();
    match &row1[0].value {
        CellValue::Text(t) => assert_eq!(t, "A101"),
        other => panic!("{:?}", other),
    }
    let cols: Vec<u16> = row1.iter().map(|c| c.col).collect();
    assert_eq!(cols, vec![0, 1, 2, 5, 7, 8, 10, 11]);
    match &row1[1].value {
        CellValue::Number(n) => assert_eq!(*n, dec(12050, 2)),
        other => panic!("{:?}", other),
    }
    assert_eq!(formula(&row1[7].value), "=SUM(B2:I2)");
    let row2: Vec<_> = plan.cells.iter().filter(|c| c.row == 2).collect();
    assert_eq!(row2.len(), 1);
    assert_eq!(formula(&row2[0].value), "=SUM(B3:I3)");
}

#[test]
fn work_book_in_forms_of_twenty() {
    let bills: Vec<PropertyFeeDetailPo> = (0..41).map(|i| bill(&format!("A{:03}", i))).collect();
    let plans = work_book_plan(bills);
    assert_eq!(plans.len(), 3);
    assert!(plans.iter().all(|p| p.first_row == 0 && p.next_row == 22));
    assert!(work_book_plan(vec![]).is_empty());
}
