use chrono::NaiveDateTime;
use owner_fee_ledger::approve::{
    account_free, approve_action, change_room_auth, ApproveAction, ApproveState, ApproveType,
    BindingRoomValue, UserCreateValue, WeChartUserCreateValue,
};
use owner_fee_ledger::attachment::{AttachmentInsertPo, AttachmentStatus};
use owner_fee_ledger::decimal::Decimal;
use owner_fee_ledger::error::AppError;
use owner_fee_ledger::owner_info::{
    get_vehicle_num, other_basic_from_part, OtherPartInfo, update_amount_outcome, OtherBasic, OwnerBasicInfoPo, RoomType,
};
use owner_fee_ledger::password::{
    fast_login_check, generate_password, password_of_uuid, parse_password, prepare_account, registration, sns_url, valid_has_being_bind,
    valid_room_number, verify_password, Password,
};
use owner_fee_ledger::price_basic::{BasicPriceType, PriceBasicPo, PriceTable};
use owner_fee_ledger::room_info::{meter_sub, RoomInfoDetailPo};
use owner_fee_ledger::tool_table::{counter_text, order_number, CountType};
use owner_fee_ledger::user::{
    attach_relations, contains_like_pattern, relate_rows, system_operator_name, RoleType, UserPo,
    UserRelateRoomPo,
};

fn dec(m: i128, s: u32) -> Decimal {
    Decimal::new(m, s)
}

fn same(a: &Decimal, b: &Decimal) -> bool {
    a.minus(b).is_zero()
}

fn user(account_id: &str, password: &str) -> UserPo {
    UserPo {
        id: 1,
        account_id: account_id.to_string(),
        account: "li".to_string(),
        password: password.to_string(),
        name: "Li".to_string(),
        role_type: RoleType::User,
        create_by: "system".to_string(),
        update_by: "system".to_string(),
        create_time: NaiveDateTime::default(),
        update_time: NaiveDateTime::default(),
        comment: None,
        is_delete: false,
    }
}

fn price(code: BasicPriceType, number: Decimal) -> PriceBasicPo {
    PriceBasicPo {
        id: 0,
        name: None,
        basic_number: Some(number),
        create_by: None,
        update_by: None,
        is_delete: None,
        operation_type: None,
        comment: None,
        basic_code: Some(code),
    }
}

fn owner(room_type: RoomType, square: Option<Decimal>, other: Option<OtherBasic>) -> OwnerBasicInfoPo {
    OwnerBasicInfoPo {
        id: 1,
        room_number: "A101".to_string(),
        owner_name: Some("Li".to_string()),
        room_square: square,
        create_by: None,
        update_by: None,
        is_delete: false,
        comment: None,
        other_basic: other,
        amount_balance: dec(0, 0),
        room_type,
    }
}

fn room(number: Option<&str>) -> RoomInfoDetailPo {
    RoomInfoDetailPo {
        id: 1,
        room_number: number.map(|n| n.to_string()),
        water_meter_num_before: Some(100),
        water_meter_num: Some(112),
        water_meter_sub: None,
        electricity_meter_num_before: Some(1000),
        electricity_meter_num: Some(1250),
        electricity_meter_sub: None,
        month_version: None,
        comment: None,
        create_by: None,
        update_by: None,
        create_time: NaiveDateTime::default(),
        update_time: NaiveDateTime::default(),
        is_delete: false,
        room_owner_name: None,
        delete_at: None,
    }
}

#[test]
fn password_is_hmac_sha256_in_base64() {
    let p = parse_password("what do ya want for nothing?", "Jefe").unwrap();
    assert_eq!(p, "W9zBRr9gdU5qBCQmCJV1x1oAPwidJzmDnexYuWTsOEM=");
    assert_eq!(parse_password("123456", "key").unwrap(), "TfgfVdcIrhcg1fZe9C80ddwWj6I/3kJKxZRPh8MJsF8=");
    assert_ne!(parse_password("123456", "key").unwrap(), "123456");
}

#[test]
fn verify_password_accepts_only_the_encoded_one() {
    let stored = parse_password("123456", "key").unwrap();
    let ok = verify_password(user("U1", &stored), "123456", "key").unwrap();
    assert_eq!(ok.account_id, "U1");
    assert_eq!(verify_password(user("U1", &stored), "654321", "key"), Err(AppError::UserPasswordError));
    assert_eq!(verify_password(user("U1", "123456"), "123456", "key"), Err(AppError::UserPasswordError));
}

#[test]
fn new_accounts_store_the_encoded_password() {
    let value = UserCreateValue { account: "li".to_string(), name: "Li".to_string(), binding_room_number: None };
    let po = value.to_insert_po();
    assert_eq!(po.password, "li");
    assert_eq!(po.raw_password(), "li");
    assert_eq!(po.create_by, "system");
    let ready = prepare_account(po, "ACC1".to_string(), "key").unwrap();
    assert_eq!(ready.account_id.as_deref(), Some("ACC1"));
    assert_eq!(ready.password, parse_password("li", "key").unwrap());
    assert_eq!(ready.account, "li");
    assert_eq!("abc".raw_password(), "abc");
}

#[test]
fn mini_program_accounts() {
    let value = WeChartUserCreateValue { nick_name: "nick".to_string(), code: "c".to_string(), binding_room_number: None };
    let po = value.to_insert_po("SESSION".to_string());
    assert_eq!(po.password.chars().count(), 12);
    assert_ne!(po.password, value.to_insert_po("SESSION".to_string()).password);
    assert_eq!(po.account, "nick");
    assert_eq!(po.relate_user_id.as_deref(), Some("SESSION"));
    let r = registration("nick", "SESSION".to_string(), false, false).unwrap();
    assert_eq!(r.password.chars().count(), 12);
    assert_eq!(r.name, "nick");
    assert_eq!(r.role_type, RoleType::User);
    assert_eq!(
        registration("nick", "SESSION".to_string(), true, false).err(),
        Some(AppError::AccountExist)
    );
    assert_eq!(
        registration("nick", "SESSION".to_string(), false, true).err(),
        Some(AppError::AccountExist)
    );
    assert_eq!(sns_url("api.weixin.qq.com"), "https://api.weixin.qq.com/sns/jscode2session");
}

#[test]
fn quick_login_needs_an_earlier_login() {
    assert_eq!(fast_login_check(true, false), Err(AppError::AccountNotSupportFastLogin));
    assert_eq!(fast_login_check(true, true), Ok(()));
    assert_eq!(fast_login_check(false, false), Ok(()));
}

#[test]
fn room_checks() {
    let rooms = Some(vec!["A101".to_string(), "A102".to_string()]);
    assert_eq!(valid_room_number(&rooms, &vec![true, true]), Ok(()));
    assert_eq!(valid_room_number(&rooms, &vec![true, false]), Err(AppError::RoomIsNotExist));
    assert_eq!(valid_room_number(&None, &vec![]), Ok(()));
    assert_eq!(valid_has_being_bind(&rooms, &vec![false, false]), Ok(()));
    assert_eq!(valid_has_being_bind(&rooms, &vec![false, true]), Err(AppError::RoomHasBeenBind));
    assert_eq!(valid_has_being_bind(&None, &vec![]), Ok(()));
}

#[test]
fn approvals() {
    assert_eq!(approve_action(None, ApproveType::CreateUser), Err(AppError::ApproveStateError));
    assert_eq!(approve_action(Some(ApproveState::Pending), ApproveType::CreateUser), Err(AppError::ApproveStateError));
    assert_eq!(
        approve_action(Some(ApproveState::Approved), ApproveType::BindingRooms),
        Ok(ApproveAction::Carry(ApproveType::BindingRooms))
    );
    assert_eq!(approve_action(Some(ApproveState::Rejected), ApproveType::ChangeRoomInfo), Ok(ApproveAction::Nothing));
    assert_eq!(ApproveState::Pending.to_string(), "待审批");
    assert_eq!(ApproveState::Approved.to_string(), "已通过");
    assert_eq!(ApproveState::Rejected.to_string(), "已拒绝");
    assert_eq!(ApproveType::CreateUser.to_string(), "创建用户");
    assert_eq!(ApproveType::WeChartCreateUser.to_string(), "微信小程序创建用户");
    assert_eq!(ApproveType::BindingRooms.to_string(), "绑定房间");
    assert_eq!(ApproveType::ChangeRoomInfo.to_string(), "修改房间信息");
    assert_eq!(ApproveState::default(), ApproveState::Pending);
    assert_eq!(ApproveType::default(), ApproveType::CreateUser);
    assert_eq!(change_room_auth(&None, "A101"), Err(AppError::NoAuth));
    assert_eq!(change_room_auth(&Some(vec![]), "A101"), Err(AppError::NoAuth));
    let mine = Some(vec!["A101".to_string(), "B203".to_string()]);
    assert_eq!(change_room_auth(&mine, "B203"), Ok(()));
    assert_eq!(change_room_auth(&mine, "C301"), Err(AppError::NoAuth));
    assert_eq!(account_free(true), Err(AppError::UserAccountExist));
    assert_eq!(account_free(false), Ok(()));
}

#[test]
fn binding_rooms() {
    let v = BindingRoomValue { binding_room_number: vec!["A101".to_string(), "B203".to_string()] };
    assert_eq!(v.get_room_ref(), vec!["A101", "B203"]);
    let rows = relate_rows("ACC1", &v.get_room_ref());
    assert_eq!(rows.len(), 2);
    assert_eq!(rows[1].relate_account_id, "ACC1");
    assert_eq!(rows[1].relate_number, "B203");
    assert_eq!(contains_like_pattern("li"), "%li%");
}

#[test]
fn users_with_their_rooms() {
    let users = vec![user("U1", "x"), user("U2", "x"), user("U1", "y")];
    let relations = vec![
        UserRelateRoomPo { id: 1, relate_account_id: "U1".to_string(), relate_number: "A101".to_string() },
        UserRelateRoomPo { id: 2, relate_account_id: "U1".to_string(), relate_number: "A102".to_string() },
    ];
    let r = attach_relations(users, relations);
    assert_eq!(r.len(), 3);
    assert_eq!(r[0].1, Some(vec!["A101".to_string(), "A102".to_string()]));
    assert_eq!(r[1].1, None);
    assert_eq!(r[2].1, None);
    assert_eq!(system_operator_name(), "system");
    assert_eq!(RoleType::default(), RoleType::User);
}

#[test]
fn order_numbers() {
    assert_eq!(CountType::OwnerFeeSeqNumber.into_code(), "OwnerFeeSeqNumber");
    assert_eq!(order_number(CountType::OwnerFeeSeqNumber, "20240101", 7), "HSMZ2024010100007");
    assert_eq!(order_number(CountType::OwnerFeeRecordSeqNumber, "20240101", 1), "R-HSMZ2024010100001");
    assert_eq!(order_number(CountType::ApproveOrderNumber, "20240101", 123456), "SP-HSMZ20240101123456");
    assert_eq!(counter_text(0), "00000");
    assert_eq!(counter_text(99999), "99999");
    for n in [0u64, 1, 9, 10, 42, 12345, 100000, u64::MAX] {
        assert_eq!(counter_text(n), format!("{:05}", n));
    }
}

#[test]
fn uploads() {
    let id = AttachmentInsertPo::uuid_v7();
    assert_eq!(id.len(), 36);
    let dashes: Vec<usize> = id.char_indices().filter(|(_, c)| *c == '-').map(|(i, _)| i).collect();
    assert_eq!(dashes, vec![8, 13, 18, 23]);
    assert_ne!(AttachmentInsertPo::uuid_v7(), id);
    let token = AttachmentInsertPo::upload_token(id.clone(), "a.png");
    assert_eq!(token.oss_file_name, Some(format!("picture_extract/{}", id)));
    assert_eq!(token.attachment_file_name.as_deref(), Some("a.png"));
    assert_eq!(token.status, AttachmentStatus::Init);
}

#[test]
fn vehicles_and_owner_fees() {
    let other = OtherBasic { is_object: true, car_number: Some(2), car_number_electron: Some(1), motor_cycle_number: None };
    assert_eq!(get_vehicle_num(&Some(other)), Some((2, 1, 0)));
    assert_eq!(get_vehicle_num(&None), Some((0, 0, 0)));
    let table = PriceTable {
        entries: vec![
            price(BasicPriceType::ManagementFee, dec(25, 1)),
            price(BasicPriceType::BusinessManageFee, dec(4, 0)),
            price(BasicPriceType::CarPartFee, dec(100, 0)),
            price(BasicPriceType::MotorCyclePartFee, dec(20, 0)),
            price(BasicPriceType::ElectronCarPartFee, dec(50, 0)),
        ],
    };
    let common = owner(RoomType::Common, Some(dec(1000, 1)), Some(other));
    assert!(same(&common.calculate_management_fee(&table).unwrap(), &dec(250, 0)));
    assert!(same(&common.calculate_part_fee(&table).unwrap(), &dec(250, 0)));
    let business = owner(RoomType::Business, Some(dec(50, 0)), None);
    assert!(same(&business.calculate_management_fee(&table).unwrap(), &dec(200, 0)));
    assert!(business.calculate_part_fee(&table).unwrap().is_zero());
    let no_square = owner(RoomType::Common, None, None);
    assert_eq!(no_square.calculate_management_fee(&table), None);
    assert_eq!(update_amount_outcome(1), Ok(()));
    assert_eq!(update_amount_outcome(0), Err(AppError::DbUpdateError));
}

#[test]
fn lift_fee_by_floor() {
    let basic = Some(dec(10, 0));
    let plus = Some(dec(5, 1));
    assert!(same(&room(Some("A081")).calculate_lift(basic, plus).unwrap(), &dec(10, 0)));
    assert!(same(&room(Some("B203")).calculate_lift(basic, plus).unwrap(), &dec(11, 0)));
    assert!(same(&room(Some("xxB905")).calculate_lift(basic, plus).unwrap(), &dec(145, 1)));
    assert_eq!(room(Some("101")).calculate_lift(basic, plus), None);
    assert_eq!(room(None).calculate_lift(basic, plus), None);
    assert_eq!(room(Some("A101")).calculate_lift(None, plus), None);
}

#[test]
fn meter_readings() {
    assert_eq!(meter_sub(Some(100), Some(112)), Some(12));
    assert_eq!(meter_sub(None, Some(112)), Some(112));
    assert_eq!(meter_sub(Some(100), None), None);
}

#[test]
fn token_information_of_an_account() {
    let info = user("U7", "x").create_info();
    assert_eq!(info.account_id, "U7");
    assert_eq!(info.account, "li");
    assert_eq!(info.name, "Li");
    assert_eq!(info.role_type, "User");
    assert_eq!(RoleType::SubManager.name_text(), format!("{:?}", RoleType::SubManager));
}

#[test]
fn stored_parking_reads_back() {
    let info = OtherPartInfo { car_number: Some(2), car_number_electron: Some(-1), motor_cycle_number: None };
    let stored = other_basic_from_part(&info);
    assert_eq!(get_vehicle_num(&Some(stored)), Some((2, 0, 0)));
    assert_eq!(generate_password().chars().count(), 12);
    assert_eq!(password_of_uuid("0190a1b2-c3d4-7e5f-8a6b-1c2d3e4f5a6b"), "1c2d3e4f5a6b");
}

#[test]
fn binding_needs_unbound_rooms() {
    let rooms = Some(vec!["A101".to_string()]);
    assert_eq!(valid_has_being_bind(&rooms, &vec![true]), Err(AppError::RoomHasBeenBind));
    assert_eq!(valid_has_being_bind(&rooms, &vec![false]), Ok(()));
}

#[test]
fn order_numbers_sort_by_counter() {
    let a = order_number(CountType::OwnerFeeSeqNumber, "20240101", 9);
    let b = order_number(CountType::OwnerFeeSeqNumber, "20240101", 10);
    assert!(owner_fee_ledger::text::str_less(&a, &b));
}
