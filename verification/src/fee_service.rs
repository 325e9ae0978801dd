//! The rules of posting to the owner-fee stream: how a line moves the balance,
//! how a management fee is covered by stored money, and how the balance after
//! every line is recovered from the balance of its record.

use vstd::prelude::*;
use crate::decimal::{Dec, Decimal};
use crate::error::AppError;
use crate::owner_fee::{
    balance_after, balance_after_fits, balance_before, balance_before_fits, DetailType,
    OwnerFeeDetailPo,
};
use crate::grouping::{group_pairs, is_grouping};
use crate::property_fee::PropertyFeeDetailPo;
use crate::owner_fee::OwnerFeeDetailRecordPo;
use crate::text::{lemma_seq_less_total, lemma_seq_less_transitive, seq_less, str_less};

verus! {

/// A line to be added to the owner-fee stream.
#[derive(Debug)]
pub struct StreamAddVal {
    pub stream_type: DetailType,
    pub room_number: String,
    pub amount: Option<Decimal>,
    pub relative_order_number: String,
}

impl StreamAddVal {
    /// The balance after this line, given the balance before it.
    ///
    /// A charge raises the balance by its amount, any other line lowers it.  For
    /// late-payment damages the amount is not given by the caller but computed
    /// from the balance and the configured rate; that amount is handed in as
    /// `liquidated_damages` and recorded on the line.
    pub fn calculate(&mut self, amount_balance: &Decimal, liquidated_damages: Option<Decimal>) -> (r:
        Decimal)
        requires
            old(self).stream_type is LiquidatedDamages ==> liquidated_damages is Some
                && amount_balance@.plus_fits(liquidated_damages.unwrap()@),
            !(old(self).stream_type is LiquidatedDamages) ==> old(self).amount is Some
                && balance_after_fits(
                old(self).stream_type,
                amount_balance@,
                old(self).amount.unwrap()@,
            ),
        ensures
            old(self).stream_type is LiquidatedDamages ==> final(self).amount == liquidated_damages
                && final(self).stream_type == old(self).stream_type
                && final(self).room_number == old(self).room_number
                && final(self).relative_order_number == old(self).relative_order_number,
            !(old(self).stream_type is LiquidatedDamages) ==> *final(self) == *old(self),
            final(self).amount is Some,
            r@ == balance_after(final(self).stream_type, amount_balance@, final(self).amount.unwrap()@),
    {
        match self.stream_type {
            DetailType::LiquidatedDamages => {
                let damages = liquidated_damages.unwrap();
                self.amount = Some(damages);
                amount_balance.plus(&damages)
            },
            DetailType::ManagementFee | DetailType::PreStoreDeduction => {
                let amount = self.amount.unwrap();
                amount_balance.plus(&amount)
            },
            DetailType::PreStoreFee | DetailType::SettlementFee | DetailType::AdjustOrder => {
                let amount = self.amount.unwrap();
                amount_balance.minus(&amount)
            },
        }
    }
}

/// The balance after a line of kind `t` over `amount`, or `None` where it
/// leaves the machine range.
pub fn checked_balance_after(t: DetailType, balance: &Decimal, amount: &Decimal) -> (r: Option<Decimal>)
    ensures
        r is Some <==> balance_after_fits(t, balance@, amount@),
        r matches Some(d) ==> d@ == balance_after(t, balance@, amount@),
{
    if t.raises_balance() {
        balance.checked_plus(amount)
    } else {
        balance.checked_minus(amount)
    }
}

impl StreamAddVal {
    /// Whether `calculate` may be called with these arguments: the amount
    /// (for damages, the computed damages) is there and the new balance fits.
    pub fn can_calculate(&self, amount_balance: &Decimal, liquidated_damages: Option<Decimal>) -> (r: bool)
        ensures
            r == ((self.stream_type is LiquidatedDamages ==> liquidated_damages is Some
                && amount_balance@.plus_fits(liquidated_damages.unwrap()@)) && (!(self.stream_type is LiquidatedDamages)
                ==> self.amount is Some && balance_after_fits(
                self.stream_type,
                amount_balance@,
                self.amount.unwrap()@,
            ))),
    {
        let amount = match self.stream_type {
            DetailType::LiquidatedDamages => liquidated_damages,
            _ => self.amount,
        };
        match amount {
            Some(a) => checked_balance_after(self.stream_type, amount_balance, &a).is_some(),
            None => false,
        }
    }
}

/// Undoing a line after applying it gives back the balance before it.
pub proof fn lemma_balance_round_trip(t: DetailType, balance: Dec, amount: Dec)
    ensures
        balance_before(t, balance_after(t, balance, amount), amount).same_value(balance),
        balance_after(t, balance_before(t, balance, amount), amount).same_value(balance),
{
    crate::decimal::lemma_plus_minus_cancel(balance, amount);
}

/// How a management fee is booked against the owner's stored money.
#[derive(Debug)]
pub struct ManagementFeePlan {
    /// Stored money taken back first, as a pre-store deduction line, if any.
    pub pre_store_amount: Option<Decimal>,
    /// The amount of the management-fee line itself.
    pub amount: Decimal,
    /// The fee line is settled at once, by a settlement line of zero.
    pub settle_at_zero: bool,
}

/// The amount that is required and missing.
pub open spec fn amount_required_error(e: AppError) -> bool {
    &&& e matches AppError::BusinessError { message, code }
    &&& message@ == "amount is required"@
    &&& code == 1001
}

/// What covering a fee of `fee` with a balance of `balance` needs to fit the machine.
pub open spec fn management_fee_fits(balance: Dec, fee: Dec) -> bool {
    &&& balance.plus_fits(fee)
    &&& balance.plus(fee).aligned_fit(fee)
    &&& fee.minus_fits(balance.plus(fee))
}

/// Decides how a management fee of `amount` is booked for a room whose balance
/// is `amount_balance` (a negative balance is money stored in advance).
///
/// Where the stored money covers the whole fee, all of it is deducted, the fee
/// line is of zero and it is settled at once.  Where it covers part of it,
/// that part is deducted and the rest is charged.  Otherwise the whole fee is
/// charged.
pub fn plan_management_fee(amount_balance: &Decimal, amount: Option<Decimal>) -> (r: Result<
    ManagementFeePlan,
    AppError,
>)
    requires
        amount matches Some(fee) ==> management_fee_fits(amount_balance@, fee@),
    ensures
        r is Err <==> amount is None,
        r matches Err(e) ==> amount_required_error(e),
        r matches Ok(plan) ==> {
            let fee = amount.unwrap()@;
            let after = amount_balance@.plus(fee);
            &&& !after.is_positive() ==> plan.pre_store_amount == Some(amount.unwrap())
                && plan.amount@ == Dec::zero()
            &&& after.is_positive() && after.less_than(fee) ==> (plan.pre_store_amount matches Some(
                p,
            ) && p@ == fee.minus(after) && plan.amount@ == after)
            &&& after.is_positive() && !after.less_than(fee) ==> plan.pre_store_amount is None
                && plan.amount == amount.unwrap()
            &&& plan.settle_at_zero == plan.amount@.is_zero()
        },
{
    let fee = match amount {
        Some(fee) => fee,
        None => {
            proof {
                reveal_strlit("amount is required");
            }
            return Err(
                AppError::BusinessError { message: String::from_str("amount is required"), code: 1001 },
            );
        },
    };
    let after = amount_balance.plus(&fee);
    let plan = if !after.is_positive() {
        ManagementFeePlan { pre_store_amount: Some(fee), amount: Decimal::zero(), settle_at_zero: true }
    } else if after.less_than(&fee) {
        let deducted = fee.minus(&after);
        ManagementFeePlan {
            pre_store_amount: Some(deducted),
            amount: after,
            settle_at_zero: after.is_zero(),
        }
    } else {
        ManagementFeePlan { pre_store_amount: None, amount: fee, settle_at_zero: fee.is_zero() }
    };
    Ok(plan)
}

/// Whether `plan_management_fee` may be called: where a fee is given, covering
/// it fits the machine.
pub fn management_fee_can_plan(amount_balance: &Decimal, amount: Option<Decimal>) -> (r: bool)
    ensures
        r == (amount matches Some(fee) ==> management_fee_fits(amount_balance@, fee@)),
{
    match amount {
        Some(fee) => match amount_balance.checked_plus(&fee) {
            Some(after) => fee.checked_minus(&after).is_some(),
            None => false,
        },
        None => true,
    }
}

/// Booking a management fee by the plan moves the balance exactly by the fee:
/// the deduction and the fee line together add up to the fee.
#[verifier::spinoff_prover]
pub proof fn lemma_management_fee_moves_balance_by_fee(
    balance: Dec,
    fee: Dec,
    pre_store: Option<Dec>,
    charged: Dec,
)
    requires
        ({
            let after = balance.plus(fee);
            &&& !after.is_positive() ==> pre_store == Some(fee) && charged == Dec::zero()
            &&& after.is_positive() && after.less_than(fee) ==> pre_store == Some(fee.minus(after))
                && charged == after
            &&& after.is_positive() && !after.less_than(fee) ==> pre_store is None && charged
                == fee
        }),
    ensures
        ({
            let deducted = match pre_store {
                Some(p) => balance_after(DetailType::PreStoreDeduction, balance, p),
                None => balance,
            };
            balance_after(DetailType::ManagementFee, deducted, charged).same_value(
                balance_after(DetailType::ManagementFee, balance, fee),
            )
        }),
{
    let after = balance.plus(fee);
    let s = crate::decimal::max_nat(balance.s, fee.s);
    assert(after.s == s);
    crate::decimal::lemma_at_own_scale(after);
    if !after.is_positive() {
        // the deduction is the whole fee, the fee line is of zero
        let deducted = balance.plus(fee);
        crate::decimal::lemma_zero_at(charged, s);
        let total = deducted.plus(charged);
        assert(total.s == s);
        assert(total.m == after.m);
        assert(total == after);
    } else if after.less_than(fee) {
        // the deduction is the stored part, the fee line the rest
        let p = fee.minus(after);
        assert(p.s == s);
        assert(p.m == fee.at(s) - after.m);
        crate::decimal::lemma_at_own_scale(p);
        let deducted = balance.plus(p);
        assert(deducted.s == s);
        assert(deducted.m == balance.at(s) + p.m);
        assert(deducted.m == 0);
        crate::decimal::lemma_zero_at(deducted, s);
        let total = deducted.plus(charged);
        assert(total.s == s);
        assert(total.m == after.m);
        assert(total == after);
    }
}

/// `x` inserted into `sorted` (newest first) after every line whose stream
/// number is not older than its own: equal numbers keep their order of arrival.
pub open spec fn insert_newest_first(sorted: Seq<OwnerFeeDetailPo>, x: OwnerFeeDetailPo) -> Seq<
    OwnerFeeDetailPo,
>
    decreases sorted.len(),
{
    if sorted.len() == 0 {
        seq![x]
    } else if seq_less(sorted[0].stream_id@, x.stream_id@) {
        seq![x] + sorted
    } else {
        seq![sorted[0]] + insert_newest_first(sorted.drop_first(), x)
    }
}

/// The lines ordered by stream number, the largest (newest) first; a stable
/// sort, as `sort_by` with the reversed order of the stream numbers.
pub open spec fn newest_first(lines: Seq<OwnerFeeDetailPo>) -> Seq<OwnerFeeDetailPo>
    decreases lines.len(),
{
    if lines.len() == 0 {
        lines
    } else {
        insert_newest_first(newest_first(lines.drop_last()), lines.last())
    }
}

/// Inserting at the first position whose line is older than `x` is the same as
/// the recursive insertion.
proof fn lemma_insert_at_first_older(sorted: Seq<OwnerFeeDetailPo>, x: OwnerFeeDetailPo, j: int)
    requires
        0 <= j <= sorted.len(),
        forall|k: int| 0 <= k < j ==> !seq_less(#[trigger] sorted[k].stream_id@, x.stream_id@),
        j < sorted.len() ==> seq_less(sorted[j].stream_id@, x.stream_id@),
    ensures
        insert_newest_first(sorted, x) == sorted.insert(j, x),
    decreases sorted.len(),
{
    if sorted.len() == 0 {
        assert(sorted.insert(j, x) =~= seq![x]);
    } else if j == 0 {
        assert(sorted.insert(0, x) =~= seq![x] + sorted);
    } else {
        let rest = sorted.drop_first();
        assert forall|k: int| 0 <= k < j - 1 implies !seq_less(
            #[trigger] rest[k].stream_id@,
            x.stream_id@,
        ) by {
            assert(rest[k] == sorted[k + 1]);
        }
        if j < sorted.len() {
            assert(rest[j - 1] == sorted[j]);
        }
        lemma_insert_at_first_older(rest, x, j - 1);
        assert(!seq_less(sorted[0].stream_id@, x.stream_id@));
        assert(seq![sorted[0]] + rest.insert(j - 1, x) =~= sorted.insert(j, x));
    }
}

/// No line comes before a line with a larger (newer) stream number.
pub open spec fn is_newest_first(lines: Seq<OwnerFeeDetailPo>) -> bool {
    forall|i: int, j: int|
        0 <= i < j < lines.len() ==> !seq_less(
            #[trigger] lines[i].stream_id@,
            #[trigger] lines[j].stream_id@,
        )
}

/// Inserting into an ordered list keeps it ordered and adds exactly the new
/// line.
proof fn lemma_insert_newest_first(sorted: Seq<OwnerFeeDetailPo>, x: OwnerFeeDetailPo)
    ensures
        insert_newest_first(sorted, x).to_multiset() == sorted.to_multiset().insert(x),
        is_newest_first(sorted) ==> is_newest_first(insert_newest_first(sorted, x)),
    decreases sorted.len(),
{
    broadcast use vstd::seq_lib::group_to_multiset_ensures;

    let r = insert_newest_first(sorted, x);
    if sorted.len() == 0 {
        assert(r =~= sorted.insert(0, x));
    } else if seq_less(sorted[0].stream_id@, x.stream_id@) {
        assert(r =~= sorted.insert(0, x));
        if is_newest_first(sorted) {
            assert forall|i: int, j: int| 0 <= i < j < r.len() implies !seq_less(
                #[trigger] r[i].stream_id@,
                #[trigger] r[j].stream_id@,
            ) by {
                if i == 0 {
                    let y = sorted[j - 1].stream_id@;
                    if j - 1 > 0 {
                        assert(!seq_less(sorted[0].stream_id@, y));
                    }
                    lemma_seq_less_total(sorted[0].stream_id@, y);
                    if seq_less(y, sorted[0].stream_id@) {
                        lemma_seq_less_transitive(y, sorted[0].stream_id@, x.stream_id@);
                    }
                    lemma_seq_less_total(x.stream_id@, y);
                } else {
                    assert(r[i] == sorted[i - 1] && r[j] == sorted[j - 1]);
                }
            }
        }
    } else {
        let rest = sorted.drop_first();
        let tail = insert_newest_first(rest, x);
        lemma_insert_newest_first(rest, x);
        assert(r =~= tail.insert(0, sorted[0]));
        assert(sorted =~= rest.insert(0, sorted[0]));
        assert(r.to_multiset() =~= sorted.to_multiset().insert(x));
        if is_newest_first(sorted) {
            assert(is_newest_first(rest)) by {
                assert forall|i: int, j: int| 0 <= i < j < rest.len() implies !seq_less(
                    #[trigger] rest[i].stream_id@,
                    #[trigger] rest[j].stream_id@,
                ) by {
                    assert(rest[i] == sorted[i + 1] && rest[j] == sorted[j + 1]);
                }
            }
            assert forall|i: int, j: int| 0 <= i < j < r.len() implies !seq_less(
                #[trigger] r[i].stream_id@,
                #[trigger] r[j].stream_id@,
            ) by {
                if i == 0 {
                    let y = r[j];
                    assert(y == tail[j - 1]);
                    assert(tail.contains(y));
                    assert(tail.to_multiset().count(y) > 0);
                    if y != x {
                        assert(rest.to_multiset().count(y) > 0);
                        assert(rest.contains(y));
                        let k = choose|k: int| 0 <= k < rest.len() && rest[k] == y;
                        assert(sorted[k + 1] == y);
                    }
                } else {
                    assert(r[i] == tail[i - 1] && r[j] == tail[j - 1]);
                }
            }
        }
    }
}

/// Sorting newest first orders the lines by stream number, the newest first,
/// and keeps every line: the result holds the same lines as the input, each
/// as often.
pub proof fn lemma_newest_first_sorts(lines: Seq<OwnerFeeDetailPo>)
    ensures
        is_newest_first(newest_first(lines)),
        newest_first(lines).to_multiset() == lines.to_multiset(),
    decreases lines.len(),
{
    broadcast use vstd::seq_lib::group_to_multiset_ensures;

    if lines.len() > 0 {
        let init = lines.drop_last();
        lemma_newest_first_sorts(init);
        lemma_insert_newest_first(newest_first(init), lines.last());
        assert(lines =~= init.push(lines.last()));
    } else {
        assert(is_newest_first(lines));
    }
}

/// The lines ordered newest first, as `newest_first` states.
pub fn sort_newest_first(lines: Vec<OwnerFeeDetailPo>) -> (r: Vec<OwnerFeeDetailPo>)
    ensures
        r@ == newest_first(lines@),
        is_newest_first(r@),
        r@.to_multiset() == lines@.to_multiset(),
{
    proof {
        lemma_newest_first_sorts(lines@);
    }
    let ghost orig = lines@;
    assert(orig.len() == lines.len());
    let mut rest = lines;
    let mut sorted: Vec<OwnerFeeDetailPo> = Vec::new();
    let mut i: usize = 0;
    assert(orig.take(0) =~= Seq::<OwnerFeeDetailPo>::empty());
    while rest.len() > 0
        invariant
            i <= orig.len(),
            orig.len() <= usize::MAX,
            rest.len() + i == orig.len(),
            rest@ == orig.skip(i as int),
            sorted@ == newest_first(orig.take(i as int)),
        decreases rest.len(),
    {
        let x = rest.remove(0);
        let mut j: usize = 0;
        while j < sorted.len() && !str_less(sorted[j].stream_id.as_str(), x.stream_id.as_str())
            invariant
                j <= sorted.len(),
                forall|k: int|
                    0 <= k < j ==> !seq_less(#[trigger] sorted@[k].stream_id@, x.stream_id@),
            decreases sorted.len() - j,
        {
            j = j + 1;
        }
        proof {
            lemma_insert_at_first_older(sorted@, x, j as int);
            assert(orig.take(i + 1).drop_last() =~= orig.take(i as int));
            assert(orig[i as int] == x);
            assert(orig.skip(i + 1) =~= orig.skip(i as int).remove(0));
        }
        sorted.insert(j, x);
        i = i + 1;
    }
    assert(orig.take(i as int) =~= orig);
    sorted
}

/// The balance before the `i` newest lines of `lines` took effect, given the
/// balance `newest` after all of them.
pub open spec fn balance_at(lines: Seq<OwnerFeeDetailPo>, newest: Dec, i: nat) -> Dec
    decreases i,
{
    if i == 0 || i > lines.len() {
        newest
    } else {
        balance_before(
            lines[i - 1].detail_type,
            balance_at(lines, newest, (i - 1) as nat),
            lines[i - 1].amount@,
        )
    }
}

/// Undoing the first `n` lines stays within the machine range.
pub open spec fn undo_fits(lines: Seq<OwnerFeeDetailPo>, newest: Dec, n: nat) -> bool
    decreases n,
{
    if n == 0 || n > lines.len() {
        true
    } else {
        undo_fits(lines, newest, (n - 1) as nat) && balance_before_fits(
            lines[n - 1].detail_type,
            balance_at(lines, newest, (n - 1) as nat),
            lines[n - 1].amount@,
        )
    }
}

/// `v` lists each line of `lines`, newest first, by stream number with the
/// balance after it, given the balance `newest` after all of them.
pub open spec fn recovered_balances(v: Seq<(String, Decimal)>, lines: Seq<OwnerFeeDetailPo>, newest: Dec) -> bool {
    &&& v.len() == lines.len()
    &&& forall|i: int|
        0 <= i < v.len() ==> #[trigger] v[i].0@ == newest_first(lines)[i].stream_id@ && v[i].1@
            == balance_at(newest_first(lines), newest, i as nat)
}

/// Booking each line again on the balance recovered before it gives back the
/// balance recovered after it: the recovered balances replay the stream.
pub proof fn lemma_recovered_balances_replay(lines: Seq<OwnerFeeDetailPo>, newest: Dec, i: nat)
    requires
        i < lines.len(),
    ensures
        balance_after(
            lines[i as int].detail_type,
            balance_at(lines, newest, i + 1),
            lines[i as int].amount@,
        ).same_value(balance_at(lines, newest, i)),
{
    lemma_balance_round_trip(lines[i as int].detail_type, balance_at(lines, newest, i), lines[i as int].amount@);
}

/// Recovers the balance after every line of one record.
///
/// The lines are taken newest first; the newest line is given the balance of
/// the record, and each older line the balance left once the newer lines are
/// undone.  The result lists each stream number with its balance, newest
/// first.
pub fn calculate(relative_stream: Vec<OwnerFeeDetailPo>, p_amount: Decimal) -> (r: Vec<
    (String, Decimal),
>)
    requires
        relative_stream.len() > 0,
        undo_fits(newest_first(relative_stream@), p_amount@, (relative_stream.len() - 1) as nat),
    ensures
        recovered_balances(r@, relative_stream@, p_amount@),
{
    proof {
        lemma_newest_first_len(relative_stream@);
    }
    let ghost orig = relative_stream@;
    let sorted = sort_newest_first(relative_stream);
    let result = balances_newest_first(sorted, p_amount);
    assert(recovered_balances(result@, orig, p_amount@));
    result
}

/// The balances of `calculate`, or `None` where undoing a line leaves the
/// machine range.
pub fn try_calculate(relative_stream: Vec<OwnerFeeDetailPo>, p_amount: Decimal) -> (r: Option<
    Vec<(String, Decimal)>,
>)
    requires
        relative_stream.len() > 0,
    ensures
        r is Some <==> undo_fits(
            newest_first(relative_stream@),
            p_amount@,
            (relative_stream.len() - 1) as nat,
        ),
        r matches Some(v) ==> recovered_balances(v@, relative_stream@, p_amount@),
{
    proof {
        lemma_newest_first_len(relative_stream@);
    }
    let ghost n = relative_stream.len();
    let ghost orig = relative_stream@;
    let sorted = sort_newest_first(relative_stream);
    let mut balance = p_amount;
    let mut i: usize = 0;
    while i + 1 < sorted.len()
        invariant
            sorted@ == newest_first(orig),
            orig == relative_stream@,
            orig.len() == n,
            sorted.len() == n,
            n > 0,
            i < n,
            undo_fits(sorted@, p_amount@, i as nat),
            balance@ == balance_at(sorted@, p_amount@, i as nat),
        decreases n - i,
    {
        let line = &sorted[i];
        let next = if line.detail_type.raises_balance() {
            balance.checked_minus(&line.amount)
        } else {
            balance.checked_plus(&line.amount)
        };
        match next {
            Some(b) => {
                balance = b;
            },
            None => {
                proof {
                    assert(!balance_before_fits(
                        sorted@[i as int].detail_type,
                        balance_at(sorted@, p_amount@, i as nat),
                        sorted@[i as int].amount@,
                    ));
                    assert(!undo_fits(sorted@, p_amount@, (i + 1) as nat));
                    if undo_fits(sorted@, p_amount@, (n - 1) as nat) {
                        lemma_undo_fits_prefix(sorted@, p_amount@, (i + 1) as nat, (n - 1) as nat);
                    }
                }
                return None;
            },
        }
        i = i + 1;
    }
    let result = balances_newest_first(sorted, p_amount);
    assert(recovered_balances(result@, orig, p_amount@));
    Some(result)
}

/// The balance after each of the lines, given newest first, and the balance
/// `p_amount` after all of them.
#[verifier::rlimit(40)]
fn balances_newest_first(sorted: Vec<OwnerFeeDetailPo>, p_amount: Decimal) -> (r: Vec<(String, Decimal)>)
    requires
        sorted.len() > 0,
        undo_fits(sorted@, p_amount@, (sorted.len() - 1) as nat),
    ensures
        r.len() == sorted.len(),
        forall|i: int|
            0 <= i < r.len() ==> #[trigger] r@[i].0@ == sorted@[i].stream_id@ && r@[i].1@ == balance_at(
                sorted@,
                p_amount@,
                i as nat,
            ),
{
    let ghost n = sorted.len();
    let mut result: Vec<(String, Decimal)> = Vec::new();
    let mut balance = p_amount;
    let mut i: usize = 0;
    while i < sorted.len()
        invariant
            sorted.len() == n,
            n > 0,
            i <= n,
            result.len() == i,
            undo_fits(sorted@, p_amount@, (n - 1) as nat),
            i < n ==> balance@ == balance_at(sorted@, p_amount@, i as nat),
            forall|k: int| 0 <= k < i ==> entry_matches(#[trigger] result@[k], sorted@, p_amount@, k),
        decreases n - i,
    {
        let line = &sorted[i];
        let id = line.stream_id.clone();
        assert(id@ == sorted@[i as int].stream_id@);
        let ghost before = result@;
        result.push((id, balance));
        assert forall|k: int| 0 <= k < i + 1 implies entry_matches(#[trigger] result@[k], sorted@, p_amount@, k) by {
            if k < i {
                assert(result@[k] == before[k]);
            }
        }
        let ghost pushed = result@;
        if i + 1 < sorted.len() {
            proof {
                lemma_undo_fits_prefix(sorted@, p_amount@, (i + 1) as nat, (n - 1) as nat);
            }
            balance = undo_line(line.detail_type, &balance, &line.amount);
        }
        assert(result@ == pushed);
        i = i + 1;
    }
    assert forall|k: int| 0 <= k < result.len() implies #[trigger] result@[k].0@ == sorted@[k].stream_id@
        && result@[k].1@ == balance_at(sorted@, p_amount@, k as nat) by {
        assert(entry_matches(result@[k], sorted@, p_amount@, k));
    }
    result
}

/// Entry `k` of the result of `calculate` names line `k` and its balance.
pub open spec fn entry_matches(entry: (String, Decimal), sorted: Seq<OwnerFeeDetailPo>, newest: Dec, k: int) -> bool {
    entry.0@ == sorted[k].stream_id@ && entry.1@ == balance_at(sorted, newest, k as nat)
}

proof fn lemma_newest_first_len(lines: Seq<OwnerFeeDetailPo>)
    ensures
        newest_first(lines).len() == lines.len(),
    decreases lines.len(),
{
    if lines.len() > 0 {
        lemma_newest_first_len(lines.drop_last());
        lemma_insert_len(newest_first(lines.drop_last()), lines.last());
    }
}

proof fn lemma_insert_len(sorted: Seq<OwnerFeeDetailPo>, x: OwnerFeeDetailPo)
    ensures
        insert_newest_first(sorted, x).len() == sorted.len() + 1,
    decreases sorted.len(),
{
    if sorted.len() > 0 {
        lemma_insert_len(sorted.drop_first(), x);
    }
}

proof fn lemma_undo_fits_prefix(lines: Seq<OwnerFeeDetailPo>, newest: Dec, m: nat, n: nat)
    requires
        m <= n <= lines.len(),
        undo_fits(lines, newest, n),
    ensures
        undo_fits(lines, newest, m),
    decreases n - m,
{
    if m < n {
        lemma_undo_fits_prefix(lines, newest, m, (n - 1) as nat);
    }
}

/// The balance before a line, given the balance after it.
pub fn undo_line(t: DetailType, after: &Decimal, amount: &Decimal) -> (r: Decimal)
    requires
        balance_before_fits(t, after@, amount@),
    ensures
        r@ == balance_before(t, after@, amount@),
{
    if t.raises_balance() {
        after.minus(amount)
    } else {
        after.plus(amount)
    }
}

/// Where a new line goes when it is booked.
#[derive(Debug, PartialEq, Eq)]
pub enum PostingRoute {
    /// A management fee, booked against the stored money by `plan_management_fee`.
    ManagementFee,
    /// Any other line, booked directly; a settlement also marks the line it settles.
    Direct { settles_related: bool },
}

impl StreamAddVal {
    /// How this line is booked: a management fee goes through
    /// `plan_management_fee`, any other line directly, and a settlement also
    /// marks the line it settles.
    pub fn posting_route(&self) -> (r: PostingRoute)
        ensures
            self.stream_type is ManagementFee ==> r == PostingRoute::ManagementFee,
            !(self.stream_type is ManagementFee) ==> r == (PostingRoute::Direct {
                settles_related: self.stream_type is SettlementFee,
            }),
    {
        match self.stream_type {
            DetailType::ManagementFee => PostingRoute::ManagementFee,
            DetailType::SettlementFee => PostingRoute::Direct { settles_related: true },
            _ => PostingRoute::Direct { settles_related: false },
        }
    }
}

fn copy_text(s: &str) -> (r: String)
    ensures
        r@ == s@,
{
    String::from_str(s)
}

/// The deduction of stored money that covers a management fee; it has no
/// order number of its own (`--`).
pub fn pre_store_deduction_stream(room_number: &str, amount: Decimal) -> (r: StreamAddVal)
    ensures
        r.stream_type == DetailType::PreStoreDeduction,
        r.room_number@ == room_number@,
        r.amount == Some(amount),
        r.relative_order_number@ == "--"@,
{
    proof {
        reveal_strlit("--");
    }
    StreamAddVal {
        stream_type: DetailType::PreStoreDeduction,
        room_number: copy_text(room_number),
        amount: Some(amount),
        relative_order_number: copy_text("--"),
    }
}

/// The settlement of zero that closes a management fee covered in full.
pub fn zero_settlement_stream(room_number: &str, fee_stream_id: &str) -> (r: StreamAddVal)
    ensures
        r.stream_type == DetailType::SettlementFee,
        r.room_number@ == room_number@,
        r.amount == Some(Decimal { mantissa: 0, scale: 0 }),
        r.relative_order_number@ == fee_stream_id@,
{
    StreamAddVal {
        stream_type: DetailType::SettlementFee,
        room_number: copy_text(room_number),
        amount: Some(Decimal::zero()),
        relative_order_number: copy_text(fee_stream_id),
    }
}

/// Some line of `existing` is a pre-store line.
pub open spec fn has_pre_store(existing: Seq<OwnerFeeDetailPo>) -> bool {
    exists|i: int| 0 <= i < existing.len() && (#[trigger] existing[i]).detail_type is PreStoreFee
}

/// The pre-store line that a bill asks for, given the lines that refer to it:
/// none where one of them is a pre-store line or the bill stores no money,
/// else a pre-store line of the stored money, referring to the bill's version.
pub open spec fn pre_store_line(fee: PropertyFeeDetailPo, existing: Seq<OwnerFeeDetailPo>) -> Option<StreamAddVal> {
    if has_pre_store(existing) {
        None
    } else {
        match fee.pre_store_fee {
            Some(p) => Some(
                StreamAddVal {
                    stream_type: DetailType::PreStoreFee,
                    room_number: fee.room_number.unwrap(),
                    amount: Some(p),
                    relative_order_number: fee.record_version.unwrap(),
                },
            ),
            None => None,
        }
    }
}

/// Booking the pre-store line that a bill asks for leaves nothing more to
/// book for it: with the booked line among the lines that refer to the bill,
/// the bill asks for none.
pub proof fn lemma_pre_store_at_most_once(
    fee: PropertyFeeDetailPo,
    existing: Seq<OwnerFeeDetailPo>,
    booked: OwnerFeeDetailPo,
)
    requires
        pre_store_line(fee, existing) matches Some(v) && booked.detail_type == v.stream_type,
    ensures
        pre_store_line(fee, existing.push(booked)) is None,
{
    assert(existing.push(booked)[existing.len() as int] == booked);
}

/// The pre-store line that a property bill asks for: none where a pre-store
/// line of the bill exists already (`existing` are the lines of the room that
/// refer to the bill) or the bill stores no money.
pub fn pre_store_stream(fee: &PropertyFeeDetailPo, existing: &Vec<OwnerFeeDetailPo>) -> (r: Option<StreamAddVal>)
    requires
        fee.room_number is Some,
        fee.record_version is Some,
    ensures
        r == pre_store_line(*fee, existing@),
{
    let mut i: usize = 0;
    while i < existing.len()
        invariant
            i <= existing.len(),
            forall|k: int| 0 <= k < i ==> !((#[trigger] existing@[k]).detail_type is PreStoreFee),
        decreases existing.len() - i,
    {
        if existing[i].detail_type == DetailType::PreStoreFee {
            return None;
        }
        i = i + 1;
    }
    match fee.pre_store_fee {
        Some(pre_store) => {
            let room_number = match &fee.room_number {
                Some(r) => r.clone(),
                None => String::new(),
            };
            let version = match &fee.record_version {
                Some(v) => v.clone(),
                None => String::new(),
            };
            Some(StreamAddVal {
                stream_type: DetailType::PreStoreFee,
                room_number,
                amount: Some(pre_store),
                relative_order_number: version,
            })
        },
        None => None,
    }
}

/// The management-fee line of a property bill: its total fee, referring to
/// the bill's version; an error where the bill has no room or no version.
pub fn management_fee_stream(property_fee: &PropertyFeeDetailPo) -> (r: Result<StreamAddVal, AppError>)
    ensures
        r is Ok <==> property_fee.room_number is Some && property_fee.record_version is Some,
        r matches Err(e) ==> e == AppError::DataNotExist,
        r matches Ok(v) ==> v.stream_type == DetailType::ManagementFee
            && v.room_number@ == property_fee.room_number.unwrap()@
            && v.amount == property_fee.total_fee
            && v.relative_order_number@ == property_fee.record_version.unwrap()@,
{
    let room_number = match &property_fee.room_number {
        Some(r) => r.clone(),
        None => {
            return Err(AppError::DataNotExist);
        },
    };
    let version = match &property_fee.record_version {
        Some(v) => v.clone(),
        None => {
            return Err(AppError::DataNotExist);
        },
    };
    Ok(StreamAddVal {
        stream_type: DetailType::ManagementFee,
        room_number,
        amount: property_fee.total_fee,
        relative_order_number: version,
    })
}

/// A line of the stream refers to a property bill: same room, and the bill's
/// version is the line's related order number.
pub open spec fn refers_to(line: OwnerFeeDetailPo, po: PropertyFeeDetailPo) -> bool {
    &&& po.room_number matches Some(r) && r@ == line.room_number@
    &&& po.record_version matches Some(v) && v@ == line.related_order_number@
}

/// Whether some line of the stream refers to a property bill.
pub trait Contains {
    fn contains(&self, po: &PropertyFeeDetailPo) -> bool;
}

impl Contains for Vec<OwnerFeeDetailPo> {
    /// Some line refers to the bill `po`.
    fn contains(&self, po: &PropertyFeeDetailPo) -> (r: bool)
        ensures
            r == exists|i: int| 0 <= i < self.len() && refers_to(#[trigger] self@[i], *po),
    {
        let mut i: usize = 0;
        while i < self.len()
            invariant
                i <= self.len(),
                forall|k: int| 0 <= k < i ==> !refers_to(#[trigger] self@[k], *po),
            decreases self.len() - i,
        {
            let line = &self[i];
            let room_matches = match &po.room_number {
                Some(r) => *r == line.room_number,
                None => false,
            };
            let version_matches = match &po.record_version {
                Some(v) => *v == line.related_order_number,
                None => false,
            };
            if room_matches && version_matches {
                return true;
            }
            i = i + 1;
        }
        false
    }
}

/// No line of `existing` refers to the bill `po`.
pub open spec fn unreferenced(existing: Seq<OwnerFeeDetailPo>, po: PropertyFeeDetailPo) -> bool {
    !(exists|i: int| 0 <= i < existing.len() && refers_to(#[trigger] existing[i], po))
}

/// A stream line stands for a bill only when it is of the bill's room and its
/// related order number is the bill's version: a line of another room, or one
/// related to another version (say, last month's bill of the same room), leaves
/// the bill unreferenced; a line of the bill's room related to its version
/// makes it referenced.
pub proof fn lemma_reference_needs_room_and_version(existing: Seq<OwnerFeeDetailPo>, po: PropertyFeeDetailPo)
    ensures
        (forall|i: int|
            0 <= i < existing.len() ==> po.record_version.unwrap()@ != (#[trigger] existing[i]).related_order_number@)
            ==> unreferenced(existing, po),
        (forall|i: int|
            0 <= i < existing.len() ==> po.room_number.unwrap()@ != (#[trigger] existing[i]).room_number@)
            ==> unreferenced(existing, po),
        po.record_version is None ==> unreferenced(existing, po),
        po.room_number is None ==> unreferenced(existing, po),
        (exists|i: int|
            0 <= i < existing.len() && po.room_number is Some && po.record_version is Some
                && po.room_number.unwrap()@ == (#[trigger] existing[i]).room_number@
                && po.record_version.unwrap()@ == existing[i].related_order_number@) ==> !unreferenced(existing, po),
{
    if exists|i: int|
        0 <= i < existing.len() && po.room_number is Some && po.record_version is Some
            && po.room_number.unwrap()@ == (#[trigger] existing[i]).room_number@
            && po.record_version.unwrap()@ == existing[i].related_order_number@ {
        let i = choose|i: int|
            0 <= i < existing.len() && po.room_number is Some && po.record_version is Some
                && po.room_number.unwrap()@ == (#[trigger] existing[i]).room_number@
                && po.record_version.unwrap()@ == existing[i].related_order_number@;
        assert(refers_to(existing[i], po));
    }
}

/// The bills that no line of the stream refers to yet, in order.
pub fn fees_to_create(property_fee: Vec<PropertyFeeDetailPo>, exist_owner_fees: &Vec<OwnerFeeDetailPo>) -> (r: Vec<
    PropertyFeeDetailPo,
>)
    ensures
        r@ == property_fee@.filter(|po: PropertyFeeDetailPo| unreferenced(exist_owner_fees@, po)),
{
    let ghost existing = exist_owner_fees@;
    let ghost pred = |po: PropertyFeeDetailPo| unreferenced(existing, po);
    let ghost orig = property_fee@;
    assert(orig.len() == property_fee.len());
    let mut rest = property_fee;
    let mut kept: Vec<PropertyFeeDetailPo> = Vec::new();
    let mut i: usize = 0;
    assert(orig.take(0) =~= Seq::<PropertyFeeDetailPo>::empty());
    assert(orig.take(0).filter(pred) =~= Seq::<PropertyFeeDetailPo>::empty()) by {
        reveal(Seq::filter);
    }
    while rest.len() > 0
        invariant
            i <= orig.len(),
            orig.len() <= usize::MAX,
            rest.len() + i == orig.len(),
            rest@ == orig.skip(i as int),
            existing == exist_owner_fees@,
            pred == (|po: PropertyFeeDetailPo| unreferenced(existing, po)),
            kept@ == orig.take(i as int).filter(pred),
        decreases rest.len(),
    {
        let po = rest.remove(0);
        proof {
            assert(orig.skip(i + 1) =~= orig.skip(i as int).remove(0));
            assert(orig.take(i + 1).drop_last() =~= orig.take(i as int));
            assert(orig.take(i + 1).last() == po);
            reveal(Seq::filter);
        }
        let found = exist_owner_fees.contains(&po);
        assert(unreferenced(existing, po) == !found);
        assert(pred(po) == unreferenced(existing, po));
        if !found {
            kept.push(po);
        }
        i = i + 1;
    }
    assert(orig.take(i as int) =~= orig);
    kept
}

proof fn lemma_filter_none<A>(s: Seq<A>, pred: spec_fn(A) -> bool)
    requires
        forall|i: int| 0 <= i < s.len() ==> !pred(#[trigger] s[i]),
    ensures
        s.filter(pred).len() == 0,
    decreases s.len(),
{
    reveal(Seq::filter);
    if s.len() > 0 {
        assert forall|i: int| 0 <= i < s.drop_last().len() implies !pred(#[trigger] s.drop_last()[i]) by {
            assert(s.drop_last()[i] == s[i]);
        }
        lemma_filter_none(s.drop_last(), pred);
        assert(!pred(s[s.len() - 1]));
    }
}

/// Booking the bills that `fees_to_create` answers leaves none for a second
/// run: where the lines after the first run keep every line from before and
/// refer to every bill that no earlier line referred to, no bill is answered
/// again.
pub proof fn lemma_fees_to_create_once(
    fees: Seq<PropertyFeeDetailPo>,
    before: Seq<OwnerFeeDetailPo>,
    after: Seq<OwnerFeeDetailPo>,
)
    requires
        forall|i: int| 0 <= i < before.len() ==> after.contains(#[trigger] before[i]),
        forall|j: int| 0 <= j < fees.len() && unreferenced(before, #[trigger] fees[j]) ==> !unreferenced(after, fees[j]),
    ensures
        fees.filter(|po: PropertyFeeDetailPo| unreferenced(after, po)).len() == 0,
{
    let pred = |po: PropertyFeeDetailPo| unreferenced(after, po);
    assert forall|j: int| 0 <= j < fees.len() implies !pred(#[trigger] fees[j]) by {
        if !unreferenced(before, fees[j]) {
            let i = choose|i: int| 0 <= i < before.len() && refers_to(#[trigger] before[i], fees[j]);
            assert(after.contains(before[i]));
            let k = choose|k: int| 0 <= k < after.len() && after[k] == before[i];
            assert(refers_to(after[k], fees[j]));
        }
    }
    lemma_filter_none(fees, pred);
}

/// A manual adjustment of `amount` for a room: an adjustment line without an
/// order number of its own (`-`).
pub fn manual_adjust_stream(amount: Decimal, room_number: String) -> (r: StreamAddVal)
    ensures
        r.stream_type == DetailType::AdjustOrder,
        r.room_number == room_number,
        r.amount == Some(amount),
        r.relative_order_number@ == "-"@,
{
    proof {
        reveal_strlit("-");
    }
    StreamAddVal {
        stream_type: DetailType::AdjustOrder,
        room_number,
        amount: Some(amount),
        relative_order_number: copy_text("-"),
    }
}

/// The settlement of a line: refused where the line has settlement lines
/// already, else a settlement line of the same room and amount, referring to
/// the settled line's stream number.
pub fn settle_stream(common_stream: OwnerFeeDetailPo, deduction_streams: &Vec<OwnerFeeDetailPo>) -> (r: Result<
    StreamAddVal,
    AppError,
>)
    ensures
        r is Err <==> deduction_streams.len() > 0,
        r matches Err(e) ==> (e matches AppError::BusinessError { message, code } && message@
            == "已有结算流水"@ && code == 1001),
        r matches Ok(v) ==> v.stream_type == DetailType::SettlementFee && v.room_number
            == common_stream.room_number && v.amount == Some(common_stream.amount)
            && v.relative_order_number == common_stream.stream_id,
{
    if deduction_streams.len() > 0 {
        proof {
            reveal_strlit("已有结算流水");
        }
        return Err(AppError::BusinessError { message: copy_text("已有结算流水"), code: 1001 });
    }
    Ok(StreamAddVal {
        stream_type: DetailType::SettlementFee,
        room_number: common_stream.room_number,
        amount: Some(common_stream.amount),
        relative_order_number: common_stream.stream_id,
    })
}

/// The balance of the last record named `record_id`, as a map from record
/// number to balance answers.
pub open spec fn record_balance_of(records: Seq<OwnerFeeDetailRecordPo>, record_id: Seq<char>) -> Option<Decimal>
    decreases records.len(),
{
    if records.len() == 0 {
        None
    } else if records.last().record_id@ == record_id {
        Some(records.last().amount_balance)
    } else {
        record_balance_of(records.drop_last(), record_id)
    }
}

/// The balance of record `record_id`; the later record counts where two have the number.
pub fn record_balance(records: &Vec<OwnerFeeDetailRecordPo>, record_id: &str) -> (r: Option<Decimal>)
    ensures
        r == record_balance_of(records@, record_id@),
{
    let mut i = records.len();
    assert(records@.take(i as int) =~= records@);
    while i > 0
        invariant
            i <= records.len(),
            record_balance_of(records@, record_id@) == record_balance_of(records@.take(i as int), record_id@),
        decreases i,
    {
        let ghost prefix = records@.take(i as int);
        assert(prefix.drop_last() =~= records@.take(i - 1));
        assert(prefix.last() == records@[i - 1]);
        if crate::text::str_equal(records[i - 1].record_id.as_str(), record_id) {
            return Some(records[i - 1].amount_balance);
        }
        i = i - 1;
    }
    None
}

/// The lines grouped by record number.
pub fn group_by_record_id(lines: Vec<OwnerFeeDetailPo>) -> (r: Vec<(String, Vec<OwnerFeeDetailPo>)>)
    ensures
        exists|pairs: Seq<(String, OwnerFeeDetailPo)>| record_pairs(pairs, lines@) && is_grouping(pairs, r@),
{
    let ghost orig = lines@;
    assert(orig.len() == lines.len());
    let mut rest = lines;
    let mut pairs: Vec<(String, OwnerFeeDetailPo)> = Vec::new();
    let mut i: usize = 0;
    while rest.len() > 0
        invariant
            i <= orig.len(),
            orig.len() <= usize::MAX,
            rest.len() + i == orig.len(),
            rest@ == orig.skip(i as int),
            pairs.len() == i,
            forall|k: int|
                0 <= k < i ==> (#[trigger] pairs@[k]).1 == orig[k] && pairs@[k].0@ == orig[k].record_id@,
        decreases rest.len(),
    {
        let line = rest.remove(0);
        proof {
            assert(orig.skip(i + 1) =~= orig.skip(i as int).remove(0));
            assert(orig[i as int] == line);
        }
        let key = line.record_id.clone();
        pairs.push((key, line));
        i = i + 1;
    }
    let ghost p = pairs@;
    let r = group_pairs(pairs);
    assert(record_pairs(p, orig) && is_grouping(p, r@));
    r
}

/// Each line with its record number, in order.
pub open spec fn record_pairs(pairs: Seq<(String, OwnerFeeDetailPo)>, lines: Seq<OwnerFeeDetailPo>) -> bool {
    &&& pairs.len() == lines.len()
    &&& forall|i: int|
        0 <= i < pairs.len() ==> (#[trigger] pairs[i]).1 == lines[i] && pairs[i].0@ == lines[i].record_id@
}

/// The lines of a record can be recalculated: the record exists, it has
/// lines, and undoing them from its balance stays within the machine range.
pub open spec fn group_recalculable(
    group: (String, Vec<OwnerFeeDetailPo>),
    records: Seq<OwnerFeeDetailRecordPo>,
) -> bool {
    &&& record_balance_of(records, group.0@) is Some
    &&& group.1.len() > 0
    &&& undo_fits(
        newest_first(group.1@),
        record_balance_of(records, group.0@).unwrap()@,
        (group.1.len() - 1) as nat,
    )
}

/// `v` lists, for each record of `groups`, its number and the balance after
/// each of its lines, recovered from the record's balance.
pub open spec fn recalculated_groups(
    v: Seq<(String, Vec<(String, Decimal)>)>,
    groups: Seq<(String, Vec<OwnerFeeDetailPo>)>,
    records: Seq<OwnerFeeDetailRecordPo>,
) -> bool {
    &&& v.len() == groups.len()
    &&& forall|k: int|
        0 <= k < v.len() ==> (#[trigger] v[k]).0@ == groups[k].0@ && recovered_balances(
            v[k].1@,
            groups[k].1@,
            record_balance_of(records, groups[k].0@).unwrap()@,
        )
}

/// The balance after every line of the given lines, record by record: the
/// lines are grouped by record number and each group is recovered from the
/// balance of its record.  `None` where a group has no record or its undoing
/// leaves the machine range.
pub fn recalculated_balances(lines: Vec<OwnerFeeDetailPo>, records: &Vec<OwnerFeeDetailRecordPo>) -> (r: Option<
    Vec<(String, Vec<(String, Decimal)>)>,
>)
    ensures
        exists|pairs: Seq<(String, OwnerFeeDetailPo)>, groups: Seq<(String, Vec<OwnerFeeDetailPo>)>|
            record_pairs(pairs, lines@) && is_grouping(pairs, groups) && (r is Some <==> forall|k: int|
                0 <= k < groups.len() ==> group_recalculable(#[trigger] groups[k], records@)) && (r matches Some(v)
                ==> recalculated_groups(v@, groups, records@)),
{
    let ghost orig = lines@;
    let groups = group_by_record_id(lines);
    let ghost g = groups@;
    let ghost p = choose|pairs: Seq<(String, OwnerFeeDetailPo)>| record_pairs(pairs, orig) && is_grouping(pairs, g);
    assert(g.len() == groups.len());
    let mut rest = groups;
    let mut out: Vec<(String, Vec<(String, Decimal)>)> = Vec::new();
    let mut k: usize = 0;
    while rest.len() > 0
        invariant
            k <= g.len(),
            g.len() <= usize::MAX,
            rest.len() + k == g.len(),
            rest@ == g.skip(k as int),
            orig == lines@,
            record_pairs(p, orig),
            is_grouping(p, g),
            forall|j: int| 0 <= j < k ==> group_recalculable(#[trigger] g[j], records@),
            out.len() == k,
            forall|j: int|
                0 <= j < k ==> (#[trigger] out@[j]).0@ == g[j].0@ && recovered_balances(
                    out@[j].1@,
                    g[j].1@,
                    record_balance_of(records@, g[j].0@).unwrap()@,
                ),
        decreases rest.len(),
    {
        let (key, group) = rest.remove(0);
        proof {
            assert(g.skip(k + 1) =~= g.skip(k as int).remove(0));
            assert(g[k as int] == (key, group));
        }
        let balance = match record_balance(records, key.as_str()) {
            Some(b) => b,
            None => {
                assert(!group_recalculable(g[k as int], records@));
                assert(record_pairs(p, lines@) && is_grouping(p, g));
                return None;
            },
        };
        if group.len() == 0 {
            assert(!group_recalculable(g[k as int], records@));
            assert(record_pairs(p, lines@) && is_grouping(p, g));
            return None;
        }
        match try_calculate(group, balance) {
            Some(v) => {
                let ghost before = out@;
                out.push((key, v));
                assert forall|j: int|
                    0 <= j < k + 1 implies (#[trigger] out@[j]).0@ == g[j].0@ && recovered_balances(
                    out@[j].1@,
                    g[j].1@,
                    record_balance_of(records@, g[j].0@).unwrap()@,
                ) by {
                    if j < k {
                        assert(out@[j] == before[j]);
                    }
                }
            },
            None => {
                assert(!group_recalculable(g[k as int], records@));
                assert(record_pairs(p, lines@) && is_grouping(p, g));
                return None;
            },
        }
        k = k + 1;
    }
    assert(recalculated_groups(out@, g, records@));
    Some(out)
}

} // verus!
