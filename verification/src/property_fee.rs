//! The monthly property bill of a room and its totals.

use vstd::prelude::*;
use chrono::NaiveDateTime;
use crate::component::FeeCalculator;
use crate::decimal::{Dec, Decimal};

verus! {

/// The value of an optional decimal.
pub open spec fn opt_view(o: Option<Decimal>) -> Option<Dec> {
    match o {
        Some(d) => Some(d@),
        None => None,
    }
}

/// The values of a list of optional decimals.
pub open spec fn opt_views(fees: Seq<Option<Decimal>>) -> Seq<Option<Dec>> {
    fees.map_values(|o: Option<Decimal>| opt_view(o))
}

/// `total` with `fee` added, where there is a fee.
pub open spec fn add_fee(total: Dec, fee: Option<Dec>) -> Dec {
    match fee {
        Some(f) => total.plus(f),
        None => total,
    }
}

pub open spec fn add_fee_fits(total: Dec, fee: Option<Dec>) -> bool {
    match fee {
        Some(f) => total.plus_fits(f),
        None => true,
    }
}

/// The sum of the first `n` fees that are present, starting from zero.
pub open spec fn fee_sum(fees: Seq<Option<Dec>>, n: nat) -> Dec
    decreases n,
{
    if n == 0 || n > fees.len() {
        Dec::zero()
    } else {
        add_fee(fee_sum(fees, (n - 1) as nat), fees[n - 1])
    }
}

/// Every partial sum of the first `n` fees fits the machine.
pub open spec fn fee_sum_fits(fees: Seq<Option<Dec>>, n: nat) -> bool
    decreases n,
{
    if n == 0 || n > fees.len() {
        true
    } else {
        fee_sum_fits(fees, (n - 1) as nat) && add_fee_fits(fee_sum(fees, (n - 1) as nat), fees[n - 1])
    }
}

/// The sum of all fees that are present.
pub open spec fn total_of(fees: Seq<Option<Dec>>) -> Dec {
    fee_sum(fees, fees.len())
}

pub open spec fn total_fits(fees: Seq<Option<Dec>>) -> bool {
    fee_sum_fits(fees, fees.len())
}

/// `fee`, where there is one, added to `total`.
pub fn add_present(total: &Decimal, fee: &Option<Decimal>) -> (r: Decimal)
    requires
        add_fee_fits(total@, opt_view(*fee)),
    ensures
        r@ == add_fee(total@, opt_view(*fee)),
{
    match fee {
        Some(f) => total.plus(f),
        None => *total,
    }
}

/// The sum of the fees that are present.
pub fn sum_fees(fees: &Vec<Option<Decimal>>) -> (r: Decimal)
    requires
        total_fits(opt_views(fees@)),
    ensures
        r@ == total_of(opt_views(fees@)),
{
    let ghost v = opt_views(fees@);
    let mut total = Decimal::zero();
    let mut i: usize = 0;
    while i < fees.len()
        invariant
            i <= fees.len(),
            v == opt_views(fees@),
            v.len() == fees.len(),
            total_fits(v),
            total@ == fee_sum(v, i as nat),
        decreases fees.len() - i,
    {
        proof {
            lemma_fee_sum_fits_prefix(v, (i + 1) as nat, fees.len() as nat);
            assert(v[i as int] == opt_view(fees@[i as int]));
        }
        total = add_present(&total, &fees[i]);
        i = i + 1;
    }
    total
}

/// The sum of the fees that are present, or `None` where a partial sum does
/// not fit the machine.
pub fn checked_sum_fees(fees: &Vec<Option<Decimal>>) -> (r: Option<Decimal>)
    ensures
        r is Some <==> total_fits(opt_views(fees@)),
        r matches Some(d) ==> d@ == total_of(opt_views(fees@)),
{
    let ghost v = opt_views(fees@);
    let mut total = Decimal::zero();
    let mut i: usize = 0;
    while i < fees.len()
        invariant
            i <= fees.len(),
            v == opt_views(fees@),
            v.len() == fees.len(),
            fee_sum_fits(v, i as nat),
            total@ == fee_sum(v, i as nat),
        decreases fees.len() - i,
    {
        assert(v[i as int] == opt_view(fees@[i as int]));
        match fees[i] {
            Some(f) => match total.checked_plus(&f) {
                Some(t) => {
                    total = t;
                },
                None => {
                    proof {
                        if fee_sum_fits(v, v.len()) {
                            lemma_fee_sum_fits_prefix(v, (i + 1) as nat, v.len());
                        }
                    }
                    return None;
                },
            },
            None => {},
        }
        i = i + 1;
    }
    Some(total)
}

proof fn lemma_fee_sum_fits_prefix(fees: Seq<Option<Dec>>, m: nat, n: nat)
    requires
        m <= n <= fees.len(),
        fee_sum_fits(fees, n),
    ensures
        fee_sum_fits(fees, m),
    decreases n - m,
{
    if m < n {
        lemma_fee_sum_fits_prefix(fees, m, (n - 1) as nat);
    }
}

/// The property bill of a room for one month.
pub struct PropertyFeeDetailPo {
    pub id: i64,
    pub room_number: Option<String>,
    pub room_owner_name: Option<String>,
    pub management_fee: Option<Decimal>,
    pub part_fee: Option<Decimal>,
    pub machine_room_renovation_fee: Option<Decimal>,
    pub electric_fee: Option<Decimal>,
    pub electric_share_fee: Option<Decimal>,
    pub water_fee: Option<Decimal>,
    pub water_share_fee: Option<Decimal>,
    pub liquidate_fee: Option<Decimal>,
    pub pre_store_fee: Option<Decimal>,
    pub record_version: Option<String>,
    pub create_by: String,
    pub update_by: String,
    pub create_time: NaiveDateTime,
    pub update_time: NaiveDateTime,
    pub is_delete: bool,
    pub delete_at: Option<NaiveDateTime>,
    pub comment: Option<String>,
    pub total_fee: Option<Decimal>,
    pub lift_fee: Option<Decimal>,
    pub total_charge: Decimal,
}

impl PropertyFeeDetailPo {
    /// The fees that make up the total, stored money not among them.
    pub open spec fn fee_items(&self) -> Seq<Option<Dec>> {
        opt_views(
            seq![
                self.management_fee,
                self.part_fee,
                self.lift_fee,
                self.machine_room_renovation_fee,
                self.electric_fee,
                self.electric_share_fee,
                self.water_fee,
                self.water_share_fee,
                self.liquidate_fee,
            ],
        )
    }

    /// The sum of the fees of the bill, leaving out the stored money.
    pub fn fee_calculate(&self) -> (r: Decimal)
        requires
            total_fits(self.fee_items()),
        ensures
            r@ == total_of(self.fee_items()),
    {
        let fees = vec![
            self.management_fee,
            self.part_fee,
            self.lift_fee,
            self.machine_room_renovation_fee,
            self.electric_fee,
            self.electric_share_fee,
            self.water_fee,
            self.water_share_fee,
            self.liquidate_fee,
        ];
        assert(opt_views(fees@) =~= self.fee_items());
        sum_fees(&fees)
    }
}

/// A change to a property bill: each field that is present replaces the stored one.
pub struct PropertyFeeDetailUpdatePo {
    pub id: i64,
    pub management_fee: Option<Decimal>,
    pub part_fee: Option<Decimal>,
    pub machine_room_renovation_fee: Option<Decimal>,
    pub lift_fee: Option<Decimal>,
    pub electric_fee: Option<Decimal>,
    pub electric_share_fee: Option<Decimal>,
    pub water_fee: Option<Decimal>,
    pub water_share_fee: Option<Decimal>,
    pub liquidate_fee: Option<Decimal>,
    pub pre_store_fee: Option<Decimal>,
    pub update_by: Option<String>,
    pub update_time: Option<NaiveDateTime>,
    pub is_delete: Option<bool>,
    pub delete_at: Option<NaiveDateTime>,
    pub comment: Option<String>,
    pub total_fee: Option<Decimal>,
    pub total_charge: Option<Decimal>,
}

/// `new` where it is present, else `old`.
pub open spec fn overridden<T>(old: Option<T>, new: Option<T>) -> Option<T> {
    if new is Some {
        new
    } else {
        old
    }
}

impl PropertyFeeDetailUpdatePo {
    pub open spec fn fee_items(&self) -> Seq<Option<Dec>> {
        opt_views(
            seq![
                self.management_fee,
                self.part_fee,
                self.lift_fee,
                self.machine_room_renovation_fee,
                self.electric_fee,
                self.electric_share_fee,
                self.water_fee,
                self.water_share_fee,
                self.liquidate_fee,
            ],
        )
    }

    /// `self` with every fee and the comment that `update_po` holds taking the
    /// place of the stored one; nothing else changes.
    pub open spec fn updated_with(self, update_po: PropertyFeeDetailUpdatePo) -> PropertyFeeDetailUpdatePo {
        PropertyFeeDetailUpdatePo {
            management_fee: overridden(self.management_fee, update_po.management_fee),
            part_fee: overridden(self.part_fee, update_po.part_fee),
            machine_room_renovation_fee: overridden(
                self.machine_room_renovation_fee,
                update_po.machine_room_renovation_fee,
            ),
            lift_fee: overridden(self.lift_fee, update_po.lift_fee),
            electric_fee: overridden(self.electric_fee, update_po.electric_fee),
            electric_share_fee: overridden(self.electric_share_fee, update_po.electric_share_fee),
            water_fee: overridden(self.water_fee, update_po.water_fee),
            water_share_fee: overridden(self.water_share_fee, update_po.water_share_fee),
            liquidate_fee: overridden(self.liquidate_fee, update_po.liquidate_fee),
            pre_store_fee: overridden(self.pre_store_fee, update_po.pre_store_fee),
            comment: overridden(self.comment, update_po.comment),
            ..self
        }
    }

    /// Takes over every fee and the comment that `update_po` holds.
    pub fn update(&mut self, update_po: PropertyFeeDetailUpdatePo)
        ensures
            *final(self) == old(self).updated_with(update_po),
    {
        if update_po.management_fee.is_some() {
            self.management_fee = update_po.management_fee;
        }
        if update_po.part_fee.is_some() {
            self.part_fee = update_po.part_fee;
        }
        if update_po.machine_room_renovation_fee.is_some() {
            self.machine_room_renovation_fee = update_po.machine_room_renovation_fee;
        }
        if update_po.lift_fee.is_some() {
            self.lift_fee = update_po.lift_fee;
        }
        if update_po.electric_fee.is_some() {
            self.electric_fee = update_po.electric_fee;
        }
        if update_po.electric_share_fee.is_some() {
            self.electric_share_fee = update_po.electric_share_fee;
        }
        if update_po.water_fee.is_some() {
            self.water_fee = update_po.water_fee;
        }
        if update_po.water_share_fee.is_some() {
            self.water_share_fee = update_po.water_share_fee;
        }
        if update_po.liquidate_fee.is_some() {
            self.liquidate_fee = update_po.liquidate_fee;
        }
        if update_po.pre_store_fee.is_some() {
            self.pre_store_fee = update_po.pre_store_fee;
        }
        if update_po.comment.is_some() {
            self.comment = update_po.comment;
        }
    }
}

/// A change that holds no fee, no stored money and no comment.
pub open spec fn changes_nothing(c: PropertyFeeDetailUpdatePo) -> bool {
    &&& c.management_fee is None
    &&& c.part_fee is None
    &&& c.machine_room_renovation_fee is None
    &&& c.lift_fee is None
    &&& c.electric_fee is None
    &&& c.electric_share_fee is None
    &&& c.water_fee is None
    &&& c.water_share_fee is None
    &&& c.liquidate_fee is None
    &&& c.pre_store_fee is None
    &&& c.comment is None
}

/// Applying a change that holds nothing leaves the bill as it was.
pub proof fn lemma_update_with_nothing(bill: PropertyFeeDetailUpdatePo, c: PropertyFeeDetailUpdatePo)
    requires
        changes_nothing(c),
    ensures
        bill.updated_with(c) == bill,
{
}

/// Applying the same change twice is the same as applying it once.
pub proof fn lemma_update_idempotent(bill: PropertyFeeDetailUpdatePo, c: PropertyFeeDetailUpdatePo)
    ensures
        bill.updated_with(c).updated_with(c) == bill.updated_with(c),
{
}

/// Applying one change and then another is the same as applying once the
/// first change overridden by the second: the later value of a field wins.
pub proof fn lemma_update_composes(
    bill: PropertyFeeDetailUpdatePo,
    first: PropertyFeeDetailUpdatePo,
    second: PropertyFeeDetailUpdatePo,
)
    ensures
        bill.updated_with(first).updated_with(second) == bill.updated_with(first.updated_with(second)),
{
}

/// The totals of a bill: the total of the fees, and that total with the stored
/// money added.
pub open spec fn totals_of(fees: Seq<Option<Dec>>, pre_store_fee: Option<Dec>) -> (Dec, Dec) {
    (total_of(fees), add_fee(total_of(fees), pre_store_fee))
}

pub open spec fn totals_fit(fees: Seq<Option<Dec>>, pre_store_fee: Option<Dec>) -> bool {
    total_fits(fees) && add_fee_fits(total_of(fees), pre_store_fee)
}

/// Both totals of a bill, as `(total_fee, total_charge)`.
pub fn compute_totals(fees: &Vec<Option<Decimal>>, pre_store_fee: &Option<Decimal>) -> (r: (
    Decimal,
    Decimal,
))
    requires
        totals_fit(opt_views(fees@), opt_view(*pre_store_fee)),
    ensures
        (r.0@, r.1@) == totals_of(opt_views(fees@), opt_view(*pre_store_fee)),
{
    let total_fee = sum_fees(fees);
    let total_charge = add_present(&total_fee, pre_store_fee);
    (total_fee, total_charge)
}

impl FeeCalculator for PropertyFeeDetailUpdatePo {
    open spec fn fee_fits(&self) -> bool {
        totals_fit(self.fee_items(), opt_view(self.pre_store_fee))
    }

    /// Sets `total_fee` to the sum of the fees and `total_charge` to that sum
    /// with the stored money added; nothing else changes.
    fn fee_calculate(&mut self)
        ensures
            final(self).total_fee matches Some(t) && t@ == totals_of(
                old(self).fee_items(),
                opt_view(old(self).pre_store_fee),
            ).0,
            final(self).total_charge matches Some(c) && c@ == totals_of(
                old(self).fee_items(),
                opt_view(old(self).pre_store_fee),
            ).1,
            *final(self) == (PropertyFeeDetailUpdatePo {
                total_fee: final(self).total_fee,
                total_charge: final(self).total_charge,
                ..*old(self)
            }),
    {
        let fees = vec![
            self.management_fee,
            self.part_fee,
            self.lift_fee,
            self.machine_room_renovation_fee,
            self.electric_fee,
            self.electric_share_fee,
            self.water_fee,
            self.water_share_fee,
            self.liquidate_fee,
        ];
        assert(opt_views(fees@) =~= self.fee_items());
        let (total_fee, total_charge) = compute_totals(&fees, &self.pre_store_fee);
        self.total_fee = Some(total_fee);
        self.total_charge = Some(total_charge);
    }
}

/// A new property bill.
pub struct PropertyFeeDetailInsertPo {
    pub room_number: String,
    pub room_owner_name: Option<String>,
    pub management_fee: Option<Decimal>,
    pub part_fee: Option<Decimal>,
    pub lift_fee: Option<Decimal>,
    pub machine_room_renovation_fee: Option<Decimal>,
    pub electric_fee: Option<Decimal>,
    pub electric_share_fee: Option<Decimal>,
    pub water_fee: Option<Decimal>,
    pub water_share_fee: Option<Decimal>,
    pub liquidate_fee: Option<Decimal>,
    pub pre_store_fee: Option<Decimal>,
    pub record_version: String,
    pub create_by: String,
    pub update_by: String,
    pub create_time: Option<NaiveDateTime>,
    pub update_time: Option<NaiveDateTime>,
    pub is_delete: bool,
    pub delete_at: Option<NaiveDateTime>,
    pub comment: Option<String>,
    pub total_fee: Option<Decimal>,
    pub total_charge: Option<Decimal>,
}

impl PropertyFeeDetailInsertPo {
    pub open spec fn fee_items(&self) -> Seq<Option<Dec>> {
        opt_views(
            seq![
                self.management_fee,
                self.part_fee,
                self.lift_fee,
                self.machine_room_renovation_fee,
                self.electric_fee,
                self.electric_share_fee,
                self.water_fee,
                self.water_share_fee,
                self.liquidate_fee,
            ],
        )
    }

    pub open spec fn fee_fits(&self) -> bool {
        totals_fit(self.fee_items(), opt_view(self.pre_store_fee))
    }

    /// Sets `total_fee` to the sum of the fees and `total_charge` to that sum
    /// with the stored money added; nothing else changes.
    pub fn fee_calculate(&mut self)
        requires
            old(self).fee_fits(),
        ensures
            final(self).total_fee matches Some(t) && t@ == totals_of(
                old(self).fee_items(),
                opt_view(old(self).pre_store_fee),
            ).0,
            final(self).total_charge matches Some(c) && c@ == totals_of(
                old(self).fee_items(),
                opt_view(old(self).pre_store_fee),
            ).1,
            *final(self) == (PropertyFeeDetailInsertPo {
                total_fee: final(self).total_fee,
                total_charge: final(self).total_charge,
                ..*old(self)
            }),
    {
        let fees = vec![
            self.management_fee,
            self.part_fee,
            self.lift_fee,
            self.machine_room_renovation_fee,
            self.electric_fee,
            self.electric_share_fee,
            self.water_fee,
            self.water_share_fee,
            self.liquidate_fee,
        ];
        assert(opt_views(fees@) =~= self.fee_items());
        let (total_fee, total_charge) = compute_totals(&fees, &self.pre_store_fee);
        self.total_fee = Some(total_fee);
        self.total_charge = Some(total_charge);
    }
}

/// The change that writes a stored bill back as it is.
pub open spec fn update_of(po: PropertyFeeDetailPo) -> PropertyFeeDetailUpdatePo {
    PropertyFeeDetailUpdatePo {
        id: po.id,
        management_fee: po.management_fee,
        part_fee: po.part_fee,
        machine_room_renovation_fee: po.machine_room_renovation_fee,
        lift_fee: po.lift_fee,
        electric_fee: po.electric_fee,
        electric_share_fee: po.electric_share_fee,
        water_fee: po.water_fee,
        water_share_fee: po.water_share_fee,
        liquidate_fee: po.liquidate_fee,
        pre_store_fee: po.pre_store_fee,
        update_by: Some(po.update_by),
        update_time: Some(po.update_time),
        is_delete: Some(po.is_delete),
        delete_at: po.delete_at,
        comment: po.comment,
        total_fee: po.total_fee,
        total_charge: Some(po.total_charge),
    }
}

fn clone_text(s: &Option<String>) -> (r: Option<String>)
    ensures
        r == *s,
{
    match s {
        Some(t) => Some(t.clone()),
        None => None,
    }
}

impl From<&PropertyFeeDetailPo> for PropertyFeeDetailUpdatePo {
    /// Every field of the bill, as a change.
    fn from(po: &PropertyFeeDetailPo) -> (r: Self) {
        PropertyFeeDetailUpdatePo {
            id: po.id,
            management_fee: po.management_fee,
            part_fee: po.part_fee,
            machine_room_renovation_fee: po.machine_room_renovation_fee,
            lift_fee: po.lift_fee,
            electric_fee: po.electric_fee,
            electric_share_fee: po.electric_share_fee,
            water_fee: po.water_fee,
            water_share_fee: po.water_share_fee,
            liquidate_fee: po.liquidate_fee,
            pre_store_fee: po.pre_store_fee,
            update_by: Some(po.update_by.clone()),
            update_time: Some(po.update_time),
            is_delete: Some(po.is_delete),
            delete_at: po.delete_at,
            comment: clone_text(&po.comment),
            total_fee: po.total_fee,
            total_charge: Some(po.total_charge),
        }
    }
}

impl vstd::std_specs::convert::FromSpecImpl<&PropertyFeeDetailPo> for PropertyFeeDetailUpdatePo {
    open spec fn obeys_from_spec() -> bool {
        true
    }

    open spec fn from_spec(po: &PropertyFeeDetailPo) -> PropertyFeeDetailUpdatePo {
        update_of(*po)
    }
}

} // verus!
