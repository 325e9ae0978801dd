use chrono::NaiveDateTime;
use std::cmp::Ordering;
use owner_fee_ledger::tool_table::{order_number, CountType};
use owner_fee_ledger::decimal::Decimal;
use owner_fee_ledger::error::AppError;
use owner_fee_ledger::fee_service::{
    calculate, checked_balance_after, group_by_record_id, recalculated_balances, try_calculate, manual_adjust_stream, plan_management_fee,
    pre_store_deduction_stream, record_balance, settle_stream, sort_newest_first, undo_line,
    zero_settlement_stream, PostingRoute, StreamAddVal,
};
use owner_fee_ledger::owner_fee::{
    new_owner_fee_detail_stream, new_record, record_action, room_number_like_pattern, DetailType,
    OwnerFeeDetailPo, OwnerFeeDetailRecordPo, RecordAction, StreamId,
};

fn dec(m: i128, s: u32) -> Decimal {
    Decimal::new(m, s)
}

/// Same value, whatever the scale.
fn same(a: &Decimal, b: &Decimal) -> bool {
    let d = a.minus(b);
    d.is_zero()
}

fn line(stream_id: &str, t: DetailType, amount: Decimal, record_id: &str) -> OwnerFeeDetailPo {
    OwnerFeeDetailPo {
        id: 0,
        stream_id: stream_id.to_string(),
        room_number: "A101".to_string(),
        owner_name: None,
        detail_type: t,
        amount,
        comment: None,
        create_by: "System".to_string(),
        update_by: "System".to_string(),
        create_time: NaiveDateTime::default(),
        update_time: NaiveDateTime::default(),
        is_delete: false,
        record_id: record_id.to_string(),
        related_order_number: "-".to_string(),
    }
}

fn record(id: i64, record_id: &str, count: i32, balance: Decimal) -> OwnerFeeDetailRecordPo {
    OwnerFeeDetailRecordPo {
        id,
        record_id: record_id.to_string(),
        room_number: "A101".to_string(),
        count,
        amount_balance: balance,
        comment: None,
        create_by: "system".to_string(),
        update_by: "system".to_string(),
        create_time: NaiveDateTime::default(),
        update_time: NaiveDateTime::default(),
        is_delete: false,
    }
}

#[test]
fn charge_raises_and_payment_lowers_balance() {
    let mut fee = StreamAddVal {
        stream_type: DetailType::ManagementFee,
        room_number: "A101".to_string(),
        amount: Some(dec(10000, 2)),
        relative_order_number: "HSMZ-2024-1".to_string(),
    };
    let after = fee.calculate(&dec(50, 0), None);
    assert_eq!(after, dec(15000, 2));

    let mut paid = StreamAddVal {
        stream_type: DetailType::PreStoreFee,
        room_number: "A101".to_string(),
        amount: Some(dec(30, 0)),
        relative_order_number: "-".to_string(),
    };
    let after = paid.calculate(&dec(100, 0), None);
    assert_eq!(after, dec(70, 0));
}

#[test]
fn liquidated_damages_take_the_computed_amount() {
    let mut damages = StreamAddVal {
        stream_type: DetailType::LiquidatedDamages,
        room_number: "A101".to_string(),
        amount: None,
        relative_order_number: "-".to_string(),
    };
    let after = damages.calculate(&dec(200, 0), Some(dec(250, 2)));
    assert_eq!(damages.amount, Some(dec(250, 2)));
    assert_eq!(after, dec(20250, 2));
}

#[test]
fn undoing_a_line_gives_back_the_balance() {
    let balance = dec(12345, 2);
    let amount = dec(678, 1);
    for t in [
        DetailType::ManagementFee,
        DetailType::LiquidatedDamages,
        DetailType::PreStoreFee,
        DetailType::SettlementFee,
        DetailType::PreStoreDeduction,
        DetailType::AdjustOrder,
    ] {
        let mut v = StreamAddVal {
            stream_type: t,
            room_number: "A101".to_string(),
            amount: Some(amount),
            relative_order_number: "-".to_string(),
        };
        let after = v.calculate(&balance, Some(amount));
        let before = undo_line(t, &after, &amount);
        assert!(same(&before, &balance));
    }
}

#[test]
fn management_fee_fully_covered_by_stored_money() {
    let plan = plan_management_fee(&dec(-200, 0), Some(dec(100, 0))).unwrap();
    assert_eq!(plan.pre_store_amount, Some(dec(100, 0)));
    assert!(plan.amount.is_zero());
    assert!(plan.settle_at_zero);
}

#[test]
fn management_fee_partly_covered_by_stored_money() {
    let plan = plan_management_fee(&dec(-30, 0), Some(dec(100, 0))).unwrap();
    assert!(same(&plan.pre_store_amount.unwrap(), &dec(30, 0)));
    assert!(same(&plan.amount, &dec(70, 0)));
    assert!(!plan.settle_at_zero);
    // the deduction and the charged part add up to the fee
    let total = plan.pre_store_amount.unwrap().plus(&plan.amount);
    assert!(same(&total, &dec(100, 0)));
}

#[test]
fn management_fee_without_stored_money_is_charged_whole() {
    let plan = plan_management_fee(&dec(20, 0), Some(dec(100, 0))).unwrap();
    assert_eq!(plan.pre_store_amount, None);
    assert_eq!(plan.amount, dec(100, 0));
    assert!(!plan.settle_at_zero);
}

#[test]
fn management_fee_without_amount_is_refused() {
    match plan_management_fee(&dec(20, 0), None) {
        Err(AppError::BusinessError { message, code }) => {
            assert_eq!(message, "amount is required");
            assert_eq!(code, 1001);
        }
        other => panic!("unexpected {:?}", other),
    }
}

#[test]
fn posting_routes() {
    let mk = |t| StreamAddVal {
        stream_type: t,
        room_number: "A101".to_string(),
        amount: Some(dec(1, 0)),
        relative_order_number: "-".to_string(),
    };
    assert_eq!(mk(DetailType::ManagementFee).posting_route(), PostingRoute::ManagementFee);
    assert_eq!(
        mk(DetailType::SettlementFee).posting_route(),
        PostingRoute::Direct { settles_related: true }
    );
    assert_eq!(
        mk(DetailType::PreStoreFee).posting_route(),
        PostingRoute::Direct { settles_related: false }
    );
}

#[test]
fn helper_streams() {
    let d = pre_store_deduction_stream("A101", dec(5, 0));
    assert_eq!(d.stream_type, DetailType::PreStoreDeduction);
    assert_eq!(d.relative_order_number, "--");
    assert_eq!(d.amount, Some(dec(5, 0)));
    let z = zero_settlement_stream("A101", "HSMZ2024010100001");
    assert_eq!(z.stream_type, DetailType::SettlementFee);
    assert_eq!(z.relative_order_number, "HSMZ2024010100001");
    assert!(z.amount.unwrap().is_zero());
    let m = manual_adjust_stream(dec(9, 0), "B203".to_string());
    assert_eq!(m.stream_type, DetailType::AdjustOrder);
    assert_eq!(m.relative_order_number, "-");
    assert_eq!(m.room_number, "B203");
}

#[test]
fn settling_twice_is_refused() {
    let common = line("HSMZ01", DetailType::ManagementFee, dec(100, 0), "R1");
    let existing = vec![line("HSMZ02", DetailType::SettlementFee, dec(100, 0), "R1")];
    match settle_stream(common, &existing) {
        Err(AppError::BusinessError { message, code }) => {
            assert_eq!(message, "已有结算流水");
            assert_eq!(code, 1001);
        }
        other => panic!("unexpected {:?}", other),
    }
    let common = line("HSMZ01", DetailType::ManagementFee, dec(100, 0), "R1");
    let v = settle_stream(common, &vec![]).unwrap();
    assert_eq!(v.stream_type, DetailType::SettlementFee);
    assert_eq!(v.relative_order_number, "HSMZ01");
    assert_eq!(v.amount, Some(dec(100, 0)));
}

#[test]
fn sorting_puts_the_newest_first_and_keeps_ties_in_order() {
    let lines = vec![
        line("HSMZ2024010100001", DetailType::ManagementFee, dec(1, 0), "R1"),
        line("HSMZ2024010100003", DetailType::ManagementFee, dec(2, 0), "R1"),
        line("HSMZ2024010100002", DetailType::ManagementFee, dec(3, 0), "R1"),
        line("HSMZ2024010100003", DetailType::PreStoreFee, dec(4, 0), "R1"),
    ];
    let sorted = sort_newest_first(lines);
    let ids: Vec<(&str, Decimal)> = sorted.iter().map(|l| (l.stream_id.as_str(), l.amount)).collect();
    assert_eq!(
        ids,
        vec![
            ("HSMZ2024010100003", dec(2, 0)),
            ("HSMZ2024010100003", dec(4, 0)),
            ("HSMZ2024010100002", dec(3, 0)),
            ("HSMZ2024010100001", dec(1, 0)),
        ]
    );
}

#[test]
fn balances_are_recovered_newest_first() {
    let lines = vec![
        line("HSMZ01", DetailType::ManagementFee, dec(100, 0), "R1"),
        line("HSMZ02", DetailType::PreStoreFee, dec(30, 0), "R1"),
        line("HSMZ03", DetailType::ManagementFee, dec(10, 0), "R1"),
    ];
    let r = calculate(lines, dec(80, 0));
    assert_eq!(r.len(), 3);
    assert_eq!(r[0].0, "HSMZ03");
    assert!(same(&r[0].1, &dec(80, 0)));
    assert_eq!(r[1].0, "HSMZ02");
    assert!(same(&r[1].1, &dec(70, 0)));
    assert_eq!(r[2].0, "HSMZ01");
    assert!(same(&r[2].1, &dec(100, 0)));
}

#[test]
fn records_open_and_count() {
    assert_eq!(
        record_action(dec(5, 0), None, 3),
        RecordAction::Insert { count: 1, amount_balance: dec(5, 0) }
    );
    let r = record(7, "R1", 2, dec(1, 0));
    assert_eq!(
        record_action(dec(5, 0), Some(&r), 3),
        RecordAction::Update { id: 7, count: 3, amount_balance: dec(5, 0) }
    );
    let full = record(7, "R1", 3, dec(1, 0));
    assert_eq!(
        record_action(dec(5, 0), Some(&full), 3),
        RecordAction::Insert { count: 1, amount_balance: dec(5, 0) }
    );
    let n = new_record("R9", "A101", dec(5, 0));
    assert_eq!(n.count, 1);
    assert_eq!(n.create_by, "system");
    assert_eq!(n.record_id, "R9");
}

#[test]
fn record_balance_takes_the_last_record() {
    let records = vec![record(1, "R1", 1, dec(1, 0)), record(2, "R2", 1, dec(2, 0)), record(3, "R1", 1, dec(3, 0))];
    assert_eq!(record_balance(&records, "R1"), Some(dec(3, 0)));
    assert_eq!(record_balance(&records, "R2"), Some(dec(2, 0)));
    assert_eq!(record_balance(&records, "R3"), None);
}

#[test]
fn lines_grouped_by_record() {
    let lines = vec![
        line("S1", DetailType::ManagementFee, dec(1, 0), "R2"),
        line("S2", DetailType::ManagementFee, dec(1, 0), "R1"),
        line("S3", DetailType::ManagementFee, dec(1, 0), "R2"),
    ];
    let groups = group_by_record_id(lines);
    assert_eq!(groups.len(), 2);
    assert_eq!(groups[0].0, "R2");
    let ids: Vec<&str> = groups[0].1.iter().map(|l| l.stream_id.as_str()).collect();
    assert_eq!(ids, vec!["S1", "S3"]);
    assert_eq!(groups[1].0, "R1");
    assert_eq!(groups[1].1.len(), 1);
}

#[test]
fn stream_numbers_and_inserted_lines() {
    let number = order_number(CountType::OwnerFeeSeqNumber, "20240101", 42);
    assert_eq!(StreamId::from_count("20240101", Some(number)).content, "HSMZ20240101HSMZ2024010100042");
    assert_eq!(StreamId::from_count("20240101", None).content, "HSMZ2024010100001");
    assert_eq!(StreamId::from_content("X").content, "X");
    assert_eq!(room_number_like_pattern("A1"), "A1%");
    let p = new_owner_fee_detail_stream("S1", "A101", Some("Li"), DetailType::SettlementFee, dec(3, 0), "R1", "S0");
    assert_eq!(p.create_by, "System");
    assert_eq!(p.owner_name.as_deref(), Some("Li"));
    assert_eq!(p.related_order_number, "S0");
}

#[test]
fn lines_are_equal_by_stream_number() {
    let a = line("S1", DetailType::ManagementFee, dec(1, 0), "R1");
    let b = line("S1", DetailType::PreStoreFee, dec(2, 0), "R2");
    let c = line("S2", DetailType::ManagementFee, dec(1, 0), "R1");
    assert!(a == b);
    assert!(a != c);
}

#[test]
fn lines_are_ordered_by_stream_number() {
    let a = line("HSMZ01", DetailType::ManagementFee, dec(1, 0), "R1");
    let b = line("HSMZ02", DetailType::ManagementFee, dec(1, 0), "R1");
    let a2 = line("HSMZ01", DetailType::PreStoreFee, dec(9, 0), "R2");
    assert_eq!(a.partial_cmp(&b), Some(Ordering::Less));
    assert_eq!(b.partial_cmp(&a), Some(Ordering::Greater));
    assert_eq!(a.partial_cmp(&a2), Some(Ordering::Equal));
    assert!(a < b);
}

#[test]
fn checked_recalculation() {
    let lines = vec![
        line("HSMZ01", DetailType::ManagementFee, dec(100, 0), "R1"),
        line("HSMZ02", DetailType::PreStoreFee, dec(30, 0), "R1"),
    ];
    let r = try_calculate(lines, dec(70, 0)).unwrap();
    assert_eq!(r[0].0, "HSMZ02");
    assert!(same(&r[1].1, &dec(100, 0)));
    // undoing the newest charge of -1 from the largest balance leaves the range
    let lines = vec![
        line("HSMZ01", DetailType::ManagementFee, dec(1, 0), "R1"),
        line("HSMZ02", DetailType::ManagementFee, dec(-1, 0), "R1"),
    ];
    assert!(try_calculate(lines, dec(i128::MAX, 0)).is_none());
    // a single line is never undone
    let lines = vec![line("HSMZ02", DetailType::ManagementFee, dec(-1, 0), "R1")];
    assert_eq!(try_calculate(lines, dec(i128::MAX, 0)).unwrap().len(), 1);
}

#[test]
fn checked_booking() {
    assert_eq!(checked_balance_after(DetailType::ManagementFee, &dec(5, 0), &dec(2, 0)), Some(dec(7, 0)));
    assert_eq!(checked_balance_after(DetailType::AdjustOrder, &dec(5, 0), &dec(2, 0)), Some(dec(3, 0)));
    assert_eq!(checked_balance_after(DetailType::PreStoreFee, &dec(i128::MIN, 0), &dec(1, 0)), None);
    let v = StreamAddVal {
        stream_type: DetailType::PreStoreFee,
        room_number: "A101".to_string(),
        amount: Some(dec(1, 0)),
        relative_order_number: "-".to_string(),
    };
    assert!(v.can_calculate(&dec(5, 0), None));
    assert!(!v.can_calculate(&dec(i128::MIN, 0), None));
    let d = StreamAddVal {
        stream_type: DetailType::LiquidatedDamages,
        room_number: "A101".to_string(),
        amount: None,
        relative_order_number: "-".to_string(),
    };
    assert!(!d.can_calculate(&dec(5, 0), None));
    assert!(d.can_calculate(&dec(5, 0), Some(dec(1, 0))));
}

#[test]
fn balances_recalculated_record_by_record() {
    let lines = || {
        vec![
            line("HSMZ01", DetailType::ManagementFee, dec(100, 0), "R1"),
            line("HSMZ02", DetailType::ManagementFee, dec(40, 0), "R2"),
            line("HSMZ03", DetailType::PreStoreFee, dec(30, 0), "R1"),
        ]
    };
    let records = vec![record(1, "R1", 2, dec(70, 0)), record(2, "R2", 1, dec(40, 0))];
    let r = recalculated_balances(lines(), &records).unwrap();
    assert_eq!(r.len(), 2);
    assert_eq!(r[0].0, "R1");
    assert_eq!(r[0].1.len(), 2);
    assert_eq!(r[0].1[0].0, "HSMZ03");
    assert!(same(&r[0].1[0].1, &dec(70, 0)));
    assert_eq!(r[0].1[1].0, "HSMZ01");
    assert!(same(&r[0].1[1].1, &dec(100, 0)));
    assert_eq!(r[1].0, "R2");
    assert_eq!(r[1].1.len(), 1);
    assert!(same(&r[1].1[0].1, &dec(40, 0)));

    let only_r1 = vec![record(1, "R1", 2, dec(70, 0))];
    assert_eq!(recalculated_balances(lines(), &only_r1), None);
}
