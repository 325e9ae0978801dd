//! The owner-fee stream: one line per charge or payment of a room, and the
//! records that batch those lines.

use vstd::prelude::*;
use chrono::NaiveDateTime;
use crate::decimal::{lemma_at_own_scale, Dec, Decimal};
use std::cmp::Ordering;
use vstd::std_specs::cmp::PartialOrdSpecImpl;
use crate::text::{seq_less, str_less};

verus! {

/// The kind of a line of the owner-fee stream.
#[derive(Clone, Copy, Debug, PartialEq, Eq, Structural)]
pub enum DetailType {
    /// The monthly management fee (a charge).
    ManagementFee,
    /// Damages for late payment (a charge).
    LiquidatedDamages,
    /// Money paid in ahead of the bills (a payment).
    PreStoreFee,
    /// A bill settled (a payment).
    SettlementFee,
    /// Stored money taken back to cover a bill (a charge).
    PreStoreDeduction,
    /// A manual adjustment, booked as money paid in (a payment).
    AdjustOrder,
}

impl DetailType {
    /// A charge raises what the owner owes; every other kind lowers it.
    pub open spec fn is_charge(self) -> bool {
        self is ManagementFee || self is LiquidatedDamages || self is PreStoreDeduction
    }

    pub fn raises_balance(&self) -> (r: bool)
        ensures
            r == self.is_charge(),
    {
        match self {
            DetailType::ManagementFee | DetailType::LiquidatedDamages
            | DetailType::PreStoreDeduction => true,
            _ => false,
        }
    }
}

/// The balance (what the owner owes) after a line of kind `t` over `amount`.
pub open spec fn balance_after(t: DetailType, balance: Dec, amount: Dec) -> Dec {
    if t.is_charge() {
        balance.plus(amount)
    } else {
        balance.minus(amount)
    }
}

/// The balance before a line of kind `t` over `amount`, given the balance after it.
pub open spec fn balance_before(t: DetailType, after: Dec, amount: Dec) -> Dec {
    if t.is_charge() {
        after.minus(amount)
    } else {
        after.plus(amount)
    }
}

pub open spec fn balance_after_fits(t: DetailType, balance: Dec, amount: Dec) -> bool {
    if t.is_charge() {
        balance.plus_fits(amount)
    } else {
        balance.minus_fits(amount)
    }
}

pub open spec fn balance_before_fits(t: DetailType, after: Dec, amount: Dec) -> bool {
    if t.is_charge() {
        after.minus_fits(amount)
    } else {
        after.plus_fits(amount)
    }
}

/// How each kind of line moves the balance (what the owner owes): a
/// settlement, money paid in and an adjustment lower it by the line's amount;
/// a management fee, damages and a pre-store deduction raise it by the amount.
/// Undoing a line moves the balance back the other way.
pub proof fn lemma_line_moves_balance(b: Dec, a: Dec)
    ensures
        balance_after(DetailType::SettlementFee, b, a) == b.minus(a),
        balance_after(DetailType::PreStoreFee, b, a) == b.minus(a),
        balance_after(DetailType::AdjustOrder, b, a) == b.minus(a),
        balance_after(DetailType::ManagementFee, b, a) == b.plus(a),
        balance_after(DetailType::LiquidatedDamages, b, a) == b.plus(a),
        balance_after(DetailType::PreStoreDeduction, b, a) == b.plus(a),
        balance_before(DetailType::SettlementFee, b, a) == b.plus(a),
        balance_before(DetailType::PreStoreFee, b, a) == b.plus(a),
        balance_before(DetailType::AdjustOrder, b, a) == b.plus(a),
        balance_before(DetailType::ManagementFee, b, a) == b.minus(a),
        balance_before(DetailType::LiquidatedDamages, b, a) == b.minus(a),
        balance_before(DetailType::PreStoreDeduction, b, a) == b.minus(a),
{
}

/// A payment of a positive amount leaves the owner owing less than before,
/// and a charge of a positive amount leaves the owner owing more.
pub proof fn lemma_payment_lowers_charge_raises(t: DetailType, b: Dec, a: Dec)
    requires
        a.is_positive(),
    ensures
        (t is SettlementFee || t is PreStoreFee || t is AdjustOrder) ==> balance_after(t, b, a).less_than(b),
        (t is ManagementFee || t is LiquidatedDamages || t is PreStoreDeduction) ==> b.less_than(
            balance_after(t, b, a),
        ),
{
    let s = crate::decimal::max_nat(b.s, a.s);
    crate::decimal::lemma_scaled_monotone(a.m, 0, (s - a.s) as nat);
    assert(crate::decimal::pow10(0) == 1);
    assert(a.at(s) >= a.m);
    lemma_at_own_scale(b.minus(a));
    lemma_at_own_scale(b.plus(a));
}

/// One line of the owner-fee stream.
#[derive(Debug)]
pub struct OwnerFeeDetailPo {
    pub id: i64,
    pub stream_id: String,
    pub room_number: String,
    pub owner_name: Option<String>,
    pub detail_type: DetailType,
    pub amount: Decimal,
    pub comment: Option<String>,
    pub create_by: String,
    pub update_by: String,
    pub create_time: NaiveDateTime,
    pub update_time: NaiveDateTime,
    pub is_delete: bool,
    pub record_id: String,
    pub related_order_number: String,
}

/// Two lines are the same line when their stream numbers agree.
impl PartialEq for OwnerFeeDetailPo {
    fn eq(&self, other: &Self) -> (r: bool) {
        self.stream_id == other.stream_id
    }
}

impl vstd::std_specs::cmp::PartialEqSpecImpl for OwnerFeeDetailPo {
    open spec fn obeys_eq_spec() -> bool {
        true
    }

    open spec fn eq_spec(&self, other: &OwnerFeeDetailPo) -> bool {
        self.stream_id@ == other.stream_id@
    }
}

/// The order of two stream numbers.
pub open spec fn stream_order(a: Seq<char>, b: Seq<char>) -> Ordering {
    if seq_less(a, b) {
        Ordering::Less
    } else if a == b {
        Ordering::Equal
    } else {
        Ordering::Greater
    }
}

/// Lines are ordered by their stream numbers.
impl PartialOrd for OwnerFeeDetailPo {
    fn partial_cmp(&self, other: &Self) -> (r: Option<Ordering>) {
        if str_less(self.stream_id.as_str(), other.stream_id.as_str()) {
            Some(Ordering::Less)
        } else if self.stream_id == other.stream_id {
            Some(Ordering::Equal)
        } else {
            Some(Ordering::Greater)
        }
    }
}

impl PartialOrdSpecImpl for OwnerFeeDetailPo {
    open spec fn obeys_partial_cmp_spec() -> bool {
        true
    }

    open spec fn partial_cmp_spec(&self, other: &OwnerFeeDetailPo) -> Option<Ordering> {
        Some(stream_order(self.stream_id@, other.stream_id@))
    }
}

/// The number of a line of the stream.
#[derive(Debug)]
pub struct StreamId {
    pub content: String,
}

impl StreamId {
    /// A stream number with the given text.
    pub fn from_content(content: &str) -> (r: StreamId)
        ensures
            r.content@ == content@,
    {
        StreamId { content: String::from_str(content) }
    }

    /// A new stream number: `HSMZ`, the date stamp (`%Y%m%d`), then the
    /// number that the daily counter handed out, or `00001` where it handed
    /// out none.  The counter's number (`order_number`) carries `HSMZ` and the
    /// date itself, so a number made here holds them twice.
    pub fn from_count(date_stamp: &str, count: Option<String>) -> (r: StreamId)
        ensures
            r.content@ == "HSMZ"@ + date_stamp@ + match count {
                Some(c) => c@,
                None => "00001"@,
            },
    {
        proof {
            reveal_strlit("HSMZ");
            reveal_strlit("00001");
        }
        let mut content = String::from_str("HSMZ");
        content.append(date_stamp);
        match count {
            Some(c) => content.append(c.as_str()),
            None => content.append("00001"),
        }
        StreamId { content }
    }
}

/// The pattern that finds room numbers starting with `value`.
pub fn room_number_like_pattern(value: &str) -> (r: String)
    ensures
        r@ == value@ + "%"@,
{
    proof {
        reveal_strlit("%");
    }
    let mut s = String::from_str(value);
    s.append("%");
    s
}

/// A new line of the stream, as the system books it.
#[derive(Debug)]
pub struct OwnerFeeDetailInsertPo {
    pub stream_id: String,
    pub room_number: String,
    pub owner_name: Option<String>,
    pub detail_type: DetailType,
    pub amount: Decimal,
    pub comment: Option<String>,
    pub create_by: String,
    pub update_by: String,
    pub record_id: String,
    pub related_order_number: String,
}

/// A new line of the stream to be stored: booked by
/// `System`, without a comment.
pub fn new_owner_fee_detail_stream(
    param_stream_id: &str,
    param_room_number: &str,
    param_owner_name: Option<&str>,
    param_detail_type: DetailType,
    param_amount: Decimal,
    param_record_id: &str,
    param_relative_order_number: &str,
) -> (r: OwnerFeeDetailInsertPo)
    ensures
        r.stream_id@ == param_stream_id@,
        r.room_number@ == param_room_number@,
        r.owner_name matches Some(n) ==> param_owner_name matches Some(p) && n@ == p@,
        r.owner_name is None ==> param_owner_name is None,
        r.detail_type == param_detail_type,
        r.amount == param_amount,
        r.comment is None,
        r.create_by@ == "System"@,
        r.update_by@ == "System"@,
        r.record_id@ == param_record_id@,
        r.related_order_number@ == param_relative_order_number@,
{
    proof {
        reveal_strlit("System");
    }
    OwnerFeeDetailInsertPo {
        stream_id: String::from_str(param_stream_id),
        room_number: String::from_str(param_room_number),
        owner_name: match param_owner_name {
            Some(n) => Some(String::from_str(n)),
            None => None,
        },
        detail_type: param_detail_type,
        amount: param_amount,
        comment: None,
        create_by: String::from_str("System"),
        update_by: String::from_str("System"),
        record_id: String::from_str(param_record_id),
        related_order_number: String::from_str(param_relative_order_number),
    }
}

/// A record that batches the lines of a room, with the balance after its newest line.
#[derive(Debug)]
pub struct OwnerFeeDetailRecordPo {
    pub id: i64,
    pub record_id: String,
    pub room_number: String,
    pub count: i32,
    pub amount_balance: Decimal,
    pub comment: Option<String>,
    pub create_by: String,
    pub update_by: String,
    pub create_time: NaiveDateTime,
    pub update_time: NaiveDateTime,
    pub is_delete: bool,
}

/// What booking a line does to the records of its room.
#[derive(Debug, PartialEq, Eq)]
pub enum RecordAction {
    /// Open a new record, counting one line, with the new balance.
    Insert { count: i32, amount_balance: Decimal },
    /// Count one more line on record `id` and set its balance.
    Update { id: i64, count: i32, amount_balance: Decimal },
}

/// How a line with balance `amount_balance` is recorded, given the newest
/// record of its room.
pub open spec fn recorded(amount_balance: Decimal, newest: Option<OwnerFeeDetailRecordPo>, record_max: i32) -> RecordAction {
    match newest {
        Some(rec) => if rec.count < record_max {
            RecordAction::Update { id: rec.id, count: (rec.count + 1) as i32, amount_balance }
        } else {
            RecordAction::Insert { count: 1, amount_balance }
        },
        None => RecordAction::Insert { count: 1, amount_balance },
    }
}

/// The number of lines a record counts after the action.
pub open spec fn count_after(action: RecordAction) -> i32 {
    match action {
        RecordAction::Insert { count, .. } => count,
        RecordAction::Update { count, .. } => count,
    }
}

/// The balance a record holds after the action.
pub open spec fn balance_recorded(action: RecordAction) -> Decimal {
    match action {
        RecordAction::Insert { amount_balance, .. } => amount_balance,
        RecordAction::Update { amount_balance, .. } => amount_balance,
    }
}

/// Every record counts between one and `record_max` lines: where the newest
/// record keeps to that bound, so does the record that takes the next line,
/// and that record holds the balance after the line.
pub proof fn lemma_record_count_bounded(
    amount_balance: Decimal,
    newest: Option<OwnerFeeDetailRecordPo>,
    record_max: i32,
)
    requires
        record_max >= 1,
        newest matches Some(rec) ==> 1 <= rec.count <= record_max,
    ensures
        1 <= count_after(recorded(amount_balance, newest, record_max)) <= record_max,
        balance_recorded(recorded(amount_balance, newest, record_max)) == amount_balance,
{
}

/// Decides how a line is recorded: a new record where the room has none yet
/// or its newest record holds `record_max` lines or more, else the newest
/// record counts one more line.  Either way the record takes the new balance.
pub fn record_action(p_amount_balance: Decimal, newest: Option<&OwnerFeeDetailRecordPo>, record_max: i32) -> (r:
    RecordAction)
    ensures
        r == recorded(
            p_amount_balance,
            match newest {
                Some(rec) => Some(*rec),
                None => None,
            },
            record_max,
        ),
{
    match newest {
        Some(rec) => {
            if rec.count >= record_max {
                RecordAction::Insert { count: 1, amount_balance: p_amount_balance }
            } else {
                RecordAction::Update { id: rec.id, count: rec.count + 1, amount_balance: p_amount_balance }
            }
        },
        None => RecordAction::Insert { count: 1, amount_balance: p_amount_balance },
    }
}

/// A new record.
#[derive(Debug)]
pub struct OwnerFeeDetailRecordInsertPo {
    pub record_id: String,
    pub room_number: String,
    pub count: i32,
    pub amount_balance: Decimal,
    pub comment: Option<String>,
    pub create_by: String,
    pub update_by: String,
    pub is_delete: bool,
}

/// A new record as `record_action` opens it: one line, booked by `system`.
pub fn new_record(record_id: &str, room_number: &str, amount_balance: Decimal) -> (r: OwnerFeeDetailRecordInsertPo)
    ensures
        r.record_id@ == record_id@,
        r.room_number@ == room_number@,
        r.count == 1,
        r.amount_balance == amount_balance,
        r.comment is None,
        r.create_by@ == "system"@,
        r.update_by@ == "system"@,
        !r.is_delete,
{
    proof {
        reveal_strlit("system");
    }
    OwnerFeeDetailRecordInsertPo {
        record_id: String::from_str(record_id),
        room_number: String::from_str(room_number),
        count: 1,
        amount_balance,
        comment: None,
        create_by: String::from_str("system"),
        update_by: String::from_str("system"),
        is_delete: false,
    }
}

} // verus!
