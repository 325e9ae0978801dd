//! Daily counters and the order numbers built from them.

use vstd::prelude::*;
use crate::text::{digit_char, digits, lemma_seq_less_common_prefix, seq_less, u64_text};

verus! {

/// A daily counter.
#[derive(Clone, Copy, Debug, PartialEq, Eq, Structural)]
pub enum CountType {
    OwnerFeeSeqNumber,
    OwnerFeeRecordSeqNumber,
    ApproveOrderNumber,
}

impl CountType {
    /// The code under which the counter is stored.
    pub open spec fn code(self) -> Seq<char> {
        match self {
            CountType::OwnerFeeSeqNumber => "OwnerFeeSeqNumber"@,
            CountType::OwnerFeeRecordSeqNumber => "OwnerFeeRecordSeqNumber"@,
            CountType::ApproveOrderNumber => "ApproveOrderNumber"@,
        }
    }

    /// The prefix of the numbers that the counter hands out.
    pub open spec fn prefix(self) -> Seq<char> {
        match self {
            CountType::OwnerFeeSeqNumber => "HSMZ"@,
            CountType::OwnerFeeRecordSeqNumber => "R-HSMZ"@,
            CountType::ApproveOrderNumber => "SP-HSMZ"@,
        }
    }

    /// The code under which the counter is stored, as its conversion into a
    /// `String` gives it.
    pub fn into_code(&self) -> (r: String)
        ensures
            r@ == self.code(),
    {
        proof {
            reveal_strlit("OwnerFeeSeqNumber");
            reveal_strlit("OwnerFeeRecordSeqNumber");
            reveal_strlit("ApproveOrderNumber");
        }
        match self {
            CountType::OwnerFeeSeqNumber => String::from_str("OwnerFeeSeqNumber"),
            CountType::OwnerFeeRecordSeqNumber => String::from_str("OwnerFeeRecordSeqNumber"),
            CountType::ApproveOrderNumber => String::from_str("ApproveOrderNumber"),
        }
    }

    fn prefix_str(&self) -> (r: &'static str)
        ensures
            r@ == self.prefix(),
    {
        proof {
            reveal_strlit("HSMZ");
            reveal_strlit("R-HSMZ");
            reveal_strlit("SP-HSMZ");
        }
        match self {
            CountType::OwnerFeeSeqNumber => "HSMZ",
            CountType::OwnerFeeRecordSeqNumber => "R-HSMZ",
            CountType::ApproveOrderNumber => "SP-HSMZ",
        }
    }
}

/// `d` padded on the left with zeros to five characters, as `{:05}` writes a
/// number: `00001`, `00002`, ...; longer texts stay as they are.
pub open spec fn padded5(d: Seq<char>) -> Seq<char> {
    if d.len() < 5 {
        Seq::new((5 - d.len()) as nat, |i: int| '0') + d
    } else {
        d
    }
}

/// The five digits of `n` (below 100000), leading zeros included.
pub open spec fn five_digits(n: nat) -> Seq<char> {
    seq![
        digit_char((n / 10000) % 10),
        digit_char((n / 1000) % 10),
        digit_char((n / 100) % 10),
        digit_char((n / 10) % 10),
        digit_char(n % 10),
    ]
}

proof fn lemma_padded_five(n: nat)
    requires
        n < 100000,
    ensures
        padded5(digits(n)) == five_digits(n),
{
    if n < 10 {
        assert(digits(n) == seq![digit_char(n)]);
        assert(padded5(digits(n)) =~= five_digits(n));
    } else if n < 100 {
        assert(digits(n / 10) == seq![digit_char(n / 10)]);
        assert(digits(n) =~= seq![digit_char(n / 10), digit_char(n % 10)]);
        assert(padded5(digits(n)) =~= five_digits(n));
    } else if n < 1000 {
        assert(digits(n / 100) == seq![digit_char(n / 100)]);
        assert(digits(n / 10) =~= seq![digit_char(n / 100), digit_char((n / 10) % 10)]);
        assert(digits(n) =~= seq![digit_char(n / 100), digit_char((n / 10) % 10), digit_char(n % 10)]);
        assert(padded5(digits(n)) =~= five_digits(n));
    } else if n < 10000 {
        assert(digits(n / 1000) == seq![digit_char(n / 1000)]);
        assert(digits(n / 100) =~= seq![digit_char(n / 1000), digit_char((n / 100) % 10)]);
        assert(digits(n / 10) =~= seq![
            digit_char(n / 1000),
            digit_char((n / 100) % 10),
            digit_char((n / 10) % 10),
        ]);
        assert(digits(n) =~= seq![
            digit_char(n / 1000),
            digit_char((n / 100) % 10),
            digit_char((n / 10) % 10),
            digit_char(n % 10),
        ]);
        assert(padded5(digits(n)) =~= five_digits(n));
    } else {
        assert(digits(n / 10000) == seq![digit_char(n / 10000)]);
        assert(digits(n / 1000) =~= seq![digit_char(n / 10000), digit_char((n / 1000) % 10)]);
        assert(digits(n / 100) =~= seq![
            digit_char(n / 10000),
            digit_char((n / 1000) % 10),
            digit_char((n / 100) % 10),
        ]);
        assert(digits(n / 10) =~= seq![
            digit_char(n / 10000),
            digit_char((n / 1000) % 10),
            digit_char((n / 100) % 10),
            digit_char((n / 10) % 10),
        ]);
        assert(digits(n) =~= five_digits(n));
    }
}

proof fn lemma_digit_char_less(x: nat, y: nat)
    requires
        x < y < 10,
    ensures
        digit_char(x) < digit_char(y),
{
}

proof fn lemma_five_digits_less(a: nat, b: nat)
    requires
        a < b < 100000,
    ensures
        seq_less(five_digits(a), five_digits(b)),
{
    let sa = five_digits(a);
    let sb = five_digits(b);
    let a4 = a / 10000;
    let b4 = b / 10000;
    let a3 = a / 1000;
    let b3 = b / 1000;
    let a2 = a / 100;
    let b2 = b / 100;
    let a1 = a / 10;
    let b1 = b / 10;
    assert(a4 <= b4 && a3 <= b3 && a2 <= b2 && a1 <= b1) by (nonlinear_arith)
        requires
            a < b,
            a4 == a / 10000,
            b4 == b / 10000,
            a3 == a / 1000,
            b3 == b / 1000,
            a2 == a / 100,
            b2 == b / 100,
            a1 == a / 10,
            b1 == b / 10,
    ;
    let d1 = sa.drop_first();
    let e1 = sb.drop_first();
    let d2 = d1.drop_first();
    let e2 = e1.drop_first();
    let d3 = d2.drop_first();
    let e3 = e2.drop_first();
    let d4 = d3.drop_first();
    let e4 = e3.drop_first();
    if a4 < b4 {
        lemma_digit_char_less(a4 % 10, b4 % 10);
    } else {
        assert(a4 == b4);
        assert(a3 / 10 == a4 && b3 / 10 == b4);
        if a3 < b3 {
            assert(a3 % 10 < b3 % 10);
            lemma_digit_char_less(a3 % 10, b3 % 10);
            assert(seq_less(d1, e1));
        } else {
            assert(a3 == b3);
            assert(a2 / 10 == a3 && b2 / 10 == b3);
            if a2 < b2 {
                assert(a2 % 10 < b2 % 10);
                lemma_digit_char_less(a2 % 10, b2 % 10);
                assert(seq_less(d2, e2));
                assert(seq_less(d1, e1));
            } else {
                assert(a2 == b2);
                assert(a1 / 10 == a2 && b1 / 10 == b2);
                if a1 < b1 {
                    assert(a1 % 10 < b1 % 10);
                    lemma_digit_char_less(a1 % 10, b1 % 10);
                    assert(seq_less(d3, e3));
                    assert(seq_less(d2, e2));
                    assert(seq_less(d1, e1));
                } else {
                    assert(a1 == b1);
                    assert(a / 10 == a1 && b / 10 == b1);
                    assert(a % 10 < b % 10);
                    lemma_digit_char_less(a % 10, b % 10);
                    assert(seq_less(d4, e4));
                    assert(seq_less(d3, e3));
                    assert(seq_less(d2, e2));
                    assert(seq_less(d1, e1));
                }
            }
        }
    }
}

/// Within one day the numbers that a counter hands out sort as its values do
/// (below 100000): the later number is the larger one.
pub proof fn lemma_order_numbers_follow_counter(count_type: CountType, date_stamp: Seq<char>, a: nat, b: nat)
    requires
        a < b < 100000,
    ensures
        seq_less(
            count_type.prefix() + date_stamp + padded5(digits(a)),
            count_type.prefix() + date_stamp + padded5(digits(b)),
        ),
{
    lemma_padded_five(a);
    lemma_padded_five(b);
    lemma_five_digits_less(a, b);
    lemma_seq_less_common_prefix(count_type.prefix() + date_stamp, five_digits(a), five_digits(b));
}

/// The text of a counter value, five digits at least.
pub fn counter_text(value: u64) -> (r: String)
    ensures
        r@ == padded5(digits(value as nat)),
{
    let d = u64_text(value);
    let n = d.as_str().unicode_len();
    let mut s = String::new();
    let mut k: usize = n;
    while k < 5
        invariant
            n <= k <= 5 || (n > 5 && k == n),
            n == d@.len(),
            s@ == Seq::new((k - n) as nat, |i: int| '0'),
        decreases 5 - k,
    {
        proof {
            reveal_strlit("0");
        }
        s.append("0");
        assert(s@ =~= Seq::new((k + 1 - n) as nat, |i: int| '0'));
        k = k + 1;
    }
    s.append(d.as_str());
    assert(s@ =~= padded5(digits(value as nat)));
    s
}

/// The number handed out by counter `count_type`: its prefix, the date
/// stamp (`%Y%m%d`) and the value of the counter in five digits at least.
pub fn order_number(count_type: CountType, date_stamp: &str, value: u64) -> (r: String)
    ensures
        r@ == count_type.prefix() + date_stamp@ + padded5(digits(value as nat)),
{
    let mut s = String::from_str(count_type.prefix_str());
    s.append(date_stamp);
    let c = counter_text(value);
    s.append(c.as_str());
    s
}

} // verus!
