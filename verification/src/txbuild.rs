//! Canonical transaction requests.
//!
//! Turns recipient/amount/fee/UTXO-selection flags into one canonical,
//! backend-agnostic transaction request, rejecting contradictory
//! combinations before any backend is touched.  Pure validation and
//! normalization: no network or signing side effects.

use vstd::prelude::*;
use crate::btc::{address_valid, check_address, network_id, parse_btc_amount, parsed_amount, Network};
use crate::errors::Error;

verus! {

/// A requested payment: an address and an amount in satoshi.
/// `amount == None` means "drain all remaining value to this address".
#[derive(Clone, Debug)]
pub struct Recipient {
    pub address: String,
    pub amount: Option<u64>,
}

/// A forced fee rate, stored in hundredths of a satoshi per virtual byte
/// so that the whole core stays in integer arithmetic.
#[derive(Clone, Copy, PartialEq, Eq, Structural, Debug)]
pub struct FeeRate {
    pub centi_sat_per_vb: u64,
}

/// The floor on a forced fee rate: one satoshi per virtual byte.
pub const MIN_FEE_RATE_CENTI: u64 = 100;

/// Where the funds go: either explicit amounts per address, or the whole
/// remaining balance to one address.
#[derive(Clone, Debug)]
pub enum SpendingConfig {
    Recipients(Vec<(String, u64)>),
    DrainAll(String),
}

/// An override of the backend's own fee estimation.
#[derive(Clone, Copy, PartialEq, Eq, Structural, Debug)]
pub enum FeePolicy {
    Absolute { amount: u64 },
    Rate { rate: FeeRate },
}

/// A constraint on which unspent outputs the backend may pick.
#[derive(Clone, Debug)]
pub enum UtxoSelection {
    /// These outputs must be spent; others may still be added.
    Include { utxos: Vec<String> },
    /// These outputs must not be spent.
    Exclude { utxos: Vec<String> },
    /// `included` must be spent, `excluded` must not.
    IncludeExclude { included: Vec<String>, excluded: Vec<String> },
    /// Exactly this set of outputs is available to the selection.
    UseOnly { utxos: Vec<String> },
}

/// One canonical, backend-agnostic transaction request.  `None` in
/// `fee_policy` or `utxo_selection` leaves the decision to the backend;
/// `disable_rbf` is `Some(true)` only on an explicit opt-out.
#[derive(Clone, Debug)]
pub struct TransactionRequest {
    pub spending_config: SpendingConfig,
    pub fee_policy: Option<FeePolicy>,
    pub utxo_selection: Option<UtxoSelection>,
    pub disable_rbf: Option<bool>,
}

/// The views of a sequence of strings.
pub open spec fn string_views(v: Seq<String>) -> Seq<Seq<char>> {
    v.map_values(|s: String| s@)
}

/// Whether `v` holds a string whose view is `s`.
pub open spec fn holds_string(v: Seq<String>, s: Seq<char>) -> bool {
    string_views(v).contains(s)
}

/// Whether `out` is `inp` with duplicates collapsed: same set of strings,
/// each exactly once.
pub open spec fn is_dedup_of(out: Seq<String>, inp: Seq<String>) -> bool {
    &&& string_views(out).no_duplicates()
    &&& string_views(out).to_set() == string_views(inp).to_set()
}

/// Whether `v` holds a string equal to `s`.
pub fn contains_string(v: &Vec<String>, s: &String) -> (r: bool)
    ensures
        r == holds_string(v@, s@),
{
    let mut i: usize = 0;
    while i < v.len()
        invariant
            i <= v@.len(),
            forall|k: int| 0 <= k < i ==> string_views(v@)[k] != s@,
        decreases v@.len() - i,
    {
        if v[i] == *s {
            assert(string_views(v@)[i as int] == s@);
            return true;
        }
        i = i + 1;
    }
    false
}

/// Collapses duplicates, keeping the first occurrence of each string.
pub fn dedup_strings(v: &Vec<String>) -> (r: Vec<String>)
    ensures
        is_dedup_of(r@, v@),
        r@.len() == 0 <==> v@.len() == 0,
{
    let mut r: Vec<String> = Vec::new();
    let mut i: usize = 0;
    while i < v.len()
        invariant
            i <= v@.len(),
            string_views(r@).no_duplicates(),
            string_views(r@).to_set() == string_views(v@.take(i as int)).to_set(),
            r@.len() == 0 <==> i == 0,
        decreases v@.len() - i,
    {
        let ghost prev = r@;
        let ghost x = v@[i as int]@;
        if !contains_string(&r, &v[i]) {
            r.push(v[i].clone());
            proof {
                assert(string_views(r@) =~= string_views(prev).push(x));
                assert forall|p: int, q: int|
                    0 <= p < q < string_views(r@).len() implies string_views(r@)[p]
                    != string_views(r@)[q] by {
                    if q == string_views(prev).len() {
                        if string_views(r@)[p] == string_views(r@)[q] {
                            assert(string_views(prev)[p] == x);
                            assert(string_views(prev).contains(x));
                        }
                    }
                }
                string_views(prev).lemma_push_to_set_commute(x);
            }
        } else {
            proof {
                assert(string_views(prev).to_set().contains(x));
                assert(string_views(prev).to_set().insert(x) =~= string_views(prev).to_set());
            }
        }
        proof {
            assert(v@.take(i as int + 1) =~= v@.take(i as int).push(v@[i as int]));
            assert(string_views(v@.take(i as int + 1)) =~= string_views(v@.take(i as int)).push(
                x,
            ));
            string_views(v@.take(i as int)).lemma_push_to_set_commute(x);
            assert(string_views(r@).to_set() =~= string_views(v@.take(i as int + 1)).to_set());
        }
        i = i + 1;
    }
    assert(v@.take(v@.len() as int) =~= v@);
    r
}

/// How many times `c` occurs in `s`.
pub open spec fn count_char(s: Seq<char>, c: char) -> int
    decreases s.len(),
{
    if s.len() == 0 {
        0
    } else {
        count_char(s.drop_last(), c) + if s.last() == c {
            1int
        } else {
            0int
        }
    }
}

/// A count of occurrences is never negative.
pub proof fn lemma_count_char_nonneg(s: Seq<char>, c: char)
    ensures
        count_char(s, c) >= 0,
    decreases s.len(),
{
    if s.len() > 0 {
        lemma_count_char_nonneg(s.drop_last(), c);
    }
}

/// A character occurs zero times exactly when no position holds it.
pub proof fn lemma_count_char_zero(s: Seq<char>, c: char)
    ensures
        count_char(s, c) == 0 <==> (forall|i: int| 0 <= i < s.len() ==> s[i] != c),
    decreases s.len(),
{
    if s.len() > 0 {
        lemma_count_char_nonneg(s.drop_last(), c);
        lemma_count_char_zero(s.drop_last(), c);
        assert(forall|i: int| 0 <= i < s.len() - 1 ==> s.drop_last()[i] == s[i]);
        if count_char(s, c) == 0 {
            assert(s.last() != c);
            assert forall|i: int| 0 <= i < s.len() implies s[i] != c by {
                if i < s.len() - 1 {
                    assert(s.drop_last()[i] != c);
                }
            }
        } else {
            if forall|i: int| 0 <= i < s.len() ==> s[i] != c {
                assert(s[s.len() - 1] != c);
                assert forall|i: int| 0 <= i < s.len() - 1 implies s.drop_last()[i] != c by {
                    assert(s[i] != c);
                }
                assert(count_char(s.drop_last(), c) == 0);
            }
        }
    }
}

/// Counting one more character extends the count by its match.
pub proof fn lemma_count_char_take_step(s: Seq<char>, c: char, i: int)
    requires
        0 <= i < s.len(),
    ensures
        count_char(s.take(i + 1), c) == count_char(s.take(i), c) + if s[i] == c {
            1int
        } else {
            0int
        },
{
    assert(s.take(i + 1).drop_last() =~= s.take(i));
    assert(s.take(i + 1).last() == s[i]);
}

/// The position of the first occurrence of `c` in `s` (the length of `s`
/// when it does not occur).
pub open spec fn first_index_of(s: Seq<char>, c: char) -> int
    decreases s.len(),
{
    if s.len() == 0 {
        0
    } else if s[0] == c {
        0
    } else {
        1 + first_index_of(s.drop_first(), c)
    }
}

/// The two parts of `s` around its first occurrence of `c`.  Meaningful
/// whenever `c` occurs at all; with a single occurrence these are exactly
/// the parts before and after it.
pub open spec fn split_at_first(s: Seq<char>, c: char) -> (Seq<char>, Seq<char>) {
    let i = first_index_of(s, c);
    (s.take(i), s.skip(i + 1))
}

/// A position holding `c` with no occurrence before it is the first one.
pub proof fn lemma_first_index_of(s: Seq<char>, c: char, i: int)
    requires
        0 <= i < s.len(),
        s[i] == c,
        count_char(s.take(i), c) == 0,
    ensures
        first_index_of(s, c) == i,
    decreases s.len(),
{
    lemma_count_char_zero(s.take(i), c);
    if i == 0 {
    } else {
        assert(s.take(i)[0] == s[0]);
        assert(s[0] != c);
        let t = s.drop_first();
        assert(t[i - 1] == c);
        assert forall|k: int| 0 <= k < i - 1 implies #[trigger] t.take(i - 1)[k] != c by {
            assert(s.take(i)[k + 1] != c);
        }
        lemma_count_char_zero(t.take(i - 1), c);
        lemma_first_index_of(t, c, i - 1);
    }
}

/// Whether `c` is a decimal digit.
pub open spec fn is_ascii_digit(c: char) -> bool {
    '0' <= c && c <= '9'
}

/// The numeric value of a decimal digit.
pub open spec fn digit_value(c: char) -> int {
    c as int - 48
}

/// How many decimal digits `s` holds.
pub open spec fn count_digits(s: Seq<char>) -> int
    decreases s.len(),
{
    if s.len() == 0 {
        0
    } else {
        count_digits(s.drop_last()) + if is_ascii_digit(s.last()) {
            1int
        } else {
            0int
        }
    }
}

/// Counting one more character extends the digit count by its match.
pub proof fn lemma_count_digits_take_step(s: Seq<char>, i: int)
    requires
        0 <= i < s.len(),
    ensures
        count_digits(s.take(i + 1)) == count_digits(s.take(i)) + if is_ascii_digit(s[i]) {
            1int
        } else {
            0int
        },
{
    assert(s.take(i + 1).drop_last() =~= s.take(i));
    assert(s.take(i + 1).last() == s[i]);
}

/// Whether every position of `s` holds a decimal digit.
pub open spec fn all_digits(s: Seq<char>) -> bool {
    forall|i: int| 0 <= i < s.len() ==> is_ascii_digit(s[i])
}

/// The value of a string of decimal digits, most significant first.
pub open spec fn digits_value(s: Seq<char>) -> int
    decreases s.len(),
{
    if s.len() == 0 {
        0
    } else {
        digits_value(s.drop_last()) * 10 + digit_value(s.last())
    }
}

/// The value of a digit string is never negative.
pub proof fn lemma_digits_value_nonneg(s: Seq<char>)
    requires
        all_digits(s),
    ensures
        digits_value(s) >= 0,
    decreases s.len(),
{
    if s.len() > 0 {
        assert(forall|i: int| 0 <= i < s.len() - 1 ==> s.drop_last()[i] == s[i]);
        lemma_digits_value_nonneg(s.drop_last());
        assert(is_ascii_digit(s[s.len() - 1]));
    }
}

/// A prefix of a digit string is worth no more than the whole.
pub proof fn lemma_digits_value_prefix(s: Seq<char>, i: int)
    requires
        all_digits(s),
        0 <= i <= s.len(),
    ensures
        digits_value(s.take(i)) <= digits_value(s),
    decreases s.len(),
{
    if i == s.len() {
        assert(s.take(i) =~= s);
    } else {
        assert(forall|k: int| 0 <= k < s.len() - 1 ==> s.drop_last()[k] == s[k]);
        lemma_digits_value_nonneg(s.drop_last());
        assert(is_ascii_digit(s[s.len() - 1]));
        assert(s.drop_last().take(i) =~= s.take(i));
        lemma_digits_value_prefix(s.drop_last(), i);
    }
}

/// Occurrences split across a cut: the count over `s` is the count before
/// position `i` plus the count from it on.
pub proof fn lemma_count_char_split(s: Seq<char>, c: char, i: int)
    requires
        0 <= i <= s.len(),
    ensures
        count_char(s, c) == count_char(s.take(i), c) + count_char(s.skip(i), c),
    decreases s.len(),
{
    if i == s.len() {
        assert(s.take(i) =~= s);
        assert(s.skip(i) =~= Seq::<char>::empty());
    } else {
        let t = s.drop_last();
        assert(t.take(i) =~= s.take(i));
        assert(s.skip(i).drop_last() =~= t.skip(i));
        assert(s.skip(i).last() == s.last());
        lemma_count_char_split(t, c, i);
    }
}

/// The integer part of a fee-rate string: everything before the first dot.
pub open spec fn fee_int_part(s: Seq<char>) -> Seq<char> {
    if count_char(s, '.') == 0 {
        s
    } else {
        split_at_first(s, '.').0
    }
}

/// The fractional part of a fee-rate string: everything after the first
/// dot, empty when there is none.
pub open spec fn fee_frac_part(s: Seq<char>) -> Seq<char> {
    if count_char(s, '.') == 0 {
        Seq::<char>::empty()
    } else {
        split_at_first(s, '.').1
    }
}

/// Whether `s` is a plain decimal number: at most one dot, digits
/// everywhere else, at least one digit.
pub open spec fn valid_fee_rate_string(s: Seq<char>) -> bool {
    &&& count_char(s, '.') <= 1
    &&& forall|i: int| 0 <= i < s.len() ==> is_ascii_digit(s[i]) || s[i] == '.'
    &&& count_digits(s) >= 1
}

/// The first two fractional digits, in hundredths; further digits are
/// ignored.
pub open spec fn frac_centi(f: Seq<char>) -> int {
    if f.len() == 0 {
        0
    } else if f.len() == 1 {
        10 * digit_value(f[0])
    } else {
        10 * digit_value(f[0]) + digit_value(f[1])
    }
}

/// The value of a fee-rate string in hundredths of a satoshi per virtual
/// byte, truncated to two decimal places.
pub open spec fn fee_rate_centi(s: Seq<char>) -> int {
    100 * digits_value(fee_int_part(s)) + frac_centi(fee_frac_part(s))
}

/// Parses one `<ADDRESS>:<AMOUNT>` recipient flag.  The string must hold
/// exactly one `:`; the part after it is either `all` (drain) or a
/// denominated Bitcoin amount.  The address part is carried through
/// unvalidated here; the builder checks it against the network.
pub fn parse_recipient(val: &str) -> (r: Result<Recipient, Error>)
    ensures
        ({
            let s = val@;
            if count_char(s, ':') != 1 {
                r == Err::<Recipient, Error>(Error::InvalidRecipient)
            } else {
                let parts = split_at_first(s, ':');
                let a = parts.0;
                let m = parts.1;
                if m == "all"@ {
                    match r {
                        Ok(rec) => rec.address@ == a && rec.amount is None,
                        Err(_) => false,
                    }
                } else {
                    match parsed_amount(m) {
                        Some(v) => match r {
                            Ok(rec) => rec.address@ == a && rec.amount == Some(v),
                            Err(_) => false,
                        },
                        None => r == Err::<Recipient, Error>(Error::InvalidAmount),
                    }
                }
            }
        }),
{
    let n = val.unicode_len();
    let mut i: usize = 0;
    let mut found: bool = false;
    let mut colon_idx: usize = 0;
    let mut count: usize = 0;
    while i < n
        invariant
            n == val@.len(),
            i <= n,
            count <= i,
            count == count_char(val@.take(i as int), ':'),
            !found ==> count == 0,
            found ==> colon_idx < i && val@[colon_idx as int] == ':' && count_char(
                val@.take(colon_idx as int),
                ':',
            ) == 0,
        decreases n - i,
    {
        let c = val.get_char(i);
        proof {
            lemma_count_char_take_step(val@, ':', i as int);
        }
        if c == ':' {
            if !found {
                found = true;
                colon_idx = i;
            }
            count = count + 1;
        }
        i = i + 1;
    }
    proof {
        assert(val@.take(n as int) =~= val@);
    }
    if count != 1 {
        return Err(Error::InvalidRecipient);
    }
    let addr = val.substring_char(0, colon_idx);
    let amt = val.substring_char(colon_idx + 1, n);
    proof {
        let s = val@;
        lemma_first_index_of(s, ':', colon_idx as int);
        assert(addr@ =~= split_at_first(s, ':').0);
        assert(amt@ =~= split_at_first(s, ':').1);
    }
    let amt_string = String::from_str(amt);
    let all_string = String::from_str("all");
    if amt_string == all_string {
        Ok(Recipient { address: String::from_str(addr), amount: None })
    } else {
        match parse_btc_amount(amt) {
            Some(v) => Ok(Recipient { address: String::from_str(addr), amount: Some(v) }),
            None => Err(Error::InvalidAmount),
        }
    }
}

/// Parses a forced fee rate given as a plain decimal number of satoshi
/// per virtual byte, keeping two decimal places, and rejects rates under
/// one satoshi per virtual byte.
pub fn parse_fee_rate(val: &str) -> (r: Result<FeeRate, Error>)
    ensures
        ({
            let s = val@;
            if !valid_fee_rate_string(s) {
                r == Err::<FeeRate, Error>(Error::InvalidFeeRate)
            } else if fee_rate_centi(s) > u64::MAX as int {
                r == Err::<FeeRate, Error>(Error::InvalidFeeRate)
            } else if fee_rate_centi(s) < MIN_FEE_RATE_CENTI {
                r == Err::<FeeRate, Error>(Error::FeeRateTooLow)
            } else {
                match r {
                    Ok(fr) => fr.centi_sat_per_vb == fee_rate_centi(s),
                    Err(_) => false,
                }
            }
        }),
{
    let ghost s = val@;
    let n = val.unicode_len();
    let mut i: usize = 0;
    let mut dots: usize = 0;
    let mut dot_found: bool = false;
    let mut dot_idx: usize = 0;
    let mut digits: usize = 0;
    let mut ok: bool = true;
    while i < n
        invariant
            s == val@,
            n == s.len(),
            i <= n,
            dots <= i,
            digits <= i,
            dots == count_char(s.take(i as int), '.'),
            digits == count_digits(s.take(i as int)),
            ok == (forall|k: int| 0 <= k < i ==> is_ascii_digit(#[trigger] s[k]) || s[k] == '.'),
            !dot_found ==> dots == 0,
            dot_found ==> dot_idx < i && s[dot_idx as int] == '.' && count_char(
                s.take(dot_idx as int),
                '.',
            ) == 0,
        decreases n - i,
    {
        let c = val.get_char(i);
        proof {
            lemma_count_char_take_step(s, '.', i as int);
            lemma_count_digits_take_step(s, i as int);
        }
        if c == '.' {
            if !dot_found {
                dot_found = true;
                dot_idx = i;
            }
            dots = dots + 1;
        } else if '0' <= c && c <= '9' {
            digits = digits + 1;
        } else {
            ok = false;
        }
        i = i + 1;
    }
    proof {
        assert(s.take(n as int) =~= s);
    }
    if !ok || dots > 1 || digits == 0 {
        return Err(Error::InvalidFeeRate);
    }

    let int_end: usize = if dot_found {
        dot_idx
    } else {
        n
    };
    proof {
        assert(s.take(n as int) =~= s);
        assert(count_char(s, '.') == dots);
        if dot_found {
            lemma_count_char_zero(s, '.');
            assert(s[dot_idx as int] == '.');
            assert(count_char(s, '.') != 0);
            lemma_first_index_of(s, '.', dot_idx as int);
            assert(fee_int_part(s) =~= s.take(int_end as int));
        } else {
            assert(fee_int_part(s) =~= s.take(int_end as int));
        }
        assert forall|k: int| 0 <= k < int_end implies is_ascii_digit(
            #[trigger] s.take(int_end as int)[k],
        ) by {
            if s[k] == '.' {
                if dot_found {
                    lemma_count_char_zero(s.take(dot_idx as int), '.');
                    assert(s.take(dot_idx as int)[k] == '.');
                } else {
                    lemma_count_char_zero(s, '.');
                }
            }
        }
        assert(all_digits(s.take(int_end as int)));
    }

    let mut acc: u128 = 0;
    let mut i: usize = 0;
    while i < int_end
        invariant
            s == val@,
            n == s.len(),
            int_end <= n,
            i <= int_end,
            valid_fee_rate_string(s),
            fee_int_part(s) == s.take(int_end as int),
            all_digits(s.take(int_end as int)),
            acc <= u64::MAX as u128,
            acc as int == digits_value(s.take(i as int)),
        decreases int_end - i,
    {
        let c = val.get_char(i);
        proof {
            assert(s.take(int_end as int)[i as int] == s[i as int]);
            assert(is_ascii_digit(s[i as int]));
            assert(s.take(i as int + 1).drop_last() =~= s.take(i as int));
            assert(s.take(i as int + 1).last() == s[i as int]);
        }
        let d: u32 = (c as u32) - 48;
        acc = acc * 10 + (d as u128);
        if acc > u64::MAX as u128 {
            proof {
                assert(s.take(int_end as int).take(i as int + 1) =~= s.take(i as int + 1));
                lemma_digits_value_prefix(s.take(int_end as int), i as int + 1);
                lemma_digits_value_nonneg(s.take(int_end as int));
                assert forall|k: int|
                    0 <= k < fee_frac_part(s).len() implies is_ascii_digit(
                    #[trigger] fee_frac_part(s)[k],
                ) by {
                    lemma_count_char_nonneg(s, '.');
                    if count_char(s, '.') == 0 {
                        assert(fee_frac_part(s).len() == 0);
                    }
                    lemma_frac_part_digits(s, k);
                }
                assert(frac_centi(fee_frac_part(s)) >= 0);
                assert(fee_rate_centi(s) > u64::MAX as int);
            }
            return Err(Error::InvalidFeeRate);
        }
        i = i + 1;
    }

    let mut frac: u64 = 0;
    if dot_found {
        proof {
            lemma_first_index_of(s, '.', dot_idx as int);
            assert(fee_frac_part(s) =~= s.skip(dot_idx as int + 1));
        }
        if dot_idx + 1 < n {
            let c1 = val.get_char(dot_idx + 1);
            proof {
                assert(fee_frac_part(s)[0] == s[dot_idx as int + 1]);
                lemma_frac_part_digits(s, 0);
            }
            frac = 10 * ((c1 as u32 - 48) as u64);
            if dot_idx + 2 < n {
                let c2 = val.get_char(dot_idx + 2);
                proof {
                    assert(fee_frac_part(s)[1] == s[dot_idx as int + 2]);
                    lemma_frac_part_digits(s, 1);
                }
                frac = frac + (c2 as u32 - 48) as u64;
            }
        }
    }
    proof {
        assert(frac as int == frac_centi(fee_frac_part(s)));
    }

    let centi_wide: u128 = acc * 100 + frac as u128;
    proof {
        assert(centi_wide as int == fee_rate_centi(s));
    }
    if centi_wide > u64::MAX as u128 {
        return Err(Error::InvalidFeeRate);
    }
    let centi: u64 = centi_wide as u64;
    if centi < MIN_FEE_RATE_CENTI {
        return Err(Error::FeeRateTooLow);
    }
    Ok(FeeRate { centi_sat_per_vb: centi })
}

/// Every character after the first dot of a valid fee-rate string is a
/// digit.
pub proof fn lemma_frac_part_digits(s: Seq<char>, k: int)
    requires
        valid_fee_rate_string(s),
        count_char(s, '.') == 1,
        0 <= k < fee_frac_part(s).len(),
    ensures
        is_ascii_digit(fee_frac_part(s)[k]),
{
    let i = first_index_of(s, '.');
    lemma_first_index_exists(s, '.');
    lemma_count_char_split(s, '.', i);
    lemma_count_char_split(s.skip(i), '.', 1);
    assert(s.skip(i).take(1) =~= seq![s[i]]);
    assert(count_char(seq![s[i]], '.') == 1) by {
        assert(seq![s[i]].drop_last() =~= Seq::<char>::empty());
        assert(count_char(Seq::<char>::empty(), '.') == 0);
        assert(seq![s[i]].last() == '.');
    }
    assert(s.skip(i).skip(1) =~= s.skip(i + 1));
    lemma_count_char_nonneg(s.take(i), '.');
    lemma_count_char_nonneg(s.skip(i + 1), '.');
    lemma_count_char_zero(s.skip(i + 1), '.');
    assert(fee_frac_part(s) == s.skip(i + 1));
    assert(s.skip(i + 1)[k] == s[i + 1 + k]);
    assert(is_ascii_digit(s[i + 1 + k]) || s[i + 1 + k] == '.');
}

/// When a character occurs, its first index is a real occurrence with
/// nothing equal before it.
pub proof fn lemma_first_index_exists(s: Seq<char>, c: char)
    requires
        count_char(s, c) >= 1,
    ensures
        0 <= first_index_of(s, c) < s.len(),
        s[first_index_of(s, c)] == c,
        count_char(s.take(first_index_of(s, c)), c) == 0,
    decreases s.len(),
{
    lemma_count_char_zero(s, c);
    lemma_count_char_nonneg(s, c);
    if s.len() > 0 {
        if s[0] == c {
            assert(s.take(0) =~= Seq::<char>::empty());
        } else {
            let t = s.drop_first();
            assert(count_char(s, c) == count_char(s.take(1), c) + count_char(s.skip(1), c)) by {
                lemma_count_char_split(s, c, 1);
            }
            assert(s.take(1) =~= seq![s[0]]);
            assert(count_char(seq![s[0]], c) == 0) by {
                assert(seq![s[0]].drop_last() =~= Seq::<char>::empty());
                assert(count_char(Seq::<char>::empty(), c) == 0);
                assert(seq![s[0]].last() == s[0]);
            }
            assert(s.skip(1) =~= t);
            lemma_first_index_exists(t, c);
            let j = first_index_of(t, c);
            assert(first_index_of(s, c) == 1 + j);
            assert(s[1 + j] == t[j]);
            assert(s.take(1 + j).drop_first() =~= t.take(j));
            lemma_count_char_split(s.take(1 + j), c, 1);
            assert(s.take(1 + j).take(1) =~= seq![s[0]]);
            assert(count_char(seq![s[0]], c) == 0);
            assert(s.take(1 + j).skip(1) =~= t.take(j));
        }
    }
}

/// Whether every recipient carries an explicit amount.
pub open spec fn all_have_amount(rs: Seq<Recipient>) -> bool {
    forall|i: int| 0 <= i < rs.len() ==> rs[i].amount is Some
}

/// Whether every recipient address is valid for the network.
pub open spec fn all_addresses_valid(rs: Seq<Recipient>, network: Network) -> bool {
    forall|i: int| 0 <= i < rs.len() ==> address_valid(rs[i].address@, network_id(network))
}

/// Whether `sc` is the canonical spending configuration for `rs`: explicit
/// pairs when every amount is given, otherwise a drain to the single
/// recipient.
pub open spec fn spending_config_ok(sc: SpendingConfig, rs: Seq<Recipient>) -> bool {
    if all_have_amount(rs) {
        match sc {
            SpendingConfig::Recipients(list) => {
                &&& list@.len() == rs.len()
                &&& forall|i: int|
                    0 <= i < rs.len() ==> (#[trigger] list@[i]).0@ == rs[i].address@ && Some(
                        list@[i].1,
                    ) == rs[i].amount
            },
            SpendingConfig::DrainAll(_) => false,
        }
    } else {
        match sc {
            SpendingConfig::Recipients(_) => false,
            SpendingConfig::DrainAll(a) => rs.len() == 1 && a@ == rs[0].address@,
        }
    }
}

/// The canonical fee policy: an absolute fee wins over a rate; neither
/// leaves the decision to the backend.
pub open spec fn spec_fee_policy(fee_rate: Option<FeeRate>, fee_absolute: Option<u64>) -> Option<
    FeePolicy,
> {
    if fee_absolute is Some {
        Some(FeePolicy::Absolute { amount: fee_absolute->0 })
    } else if fee_rate is Some {
        Some(FeePolicy::Rate { rate: fee_rate->0 })
    } else {
        None
    }
}

/// Whether `u` is the canonical selection for the given (not yet
/// deduplicated) lists: both non-empty combine, a lone inclusion list is
/// exclusive only under the flag, and empty lists leave the backend free.
pub open spec fn utxo_selection_ok(
    u: Option<UtxoSelection>,
    inc: Seq<String>,
    exc: Seq<String>,
    include_only: bool,
) -> bool {
    if inc.len() > 0 && exc.len() > 0 {
        match u {
            Some(UtxoSelection::IncludeExclude { included, excluded }) => is_dedup_of(included@, inc)
                && is_dedup_of(excluded@, exc),
            _ => false,
        }
    } else if inc.len() > 0 && include_only {
        match u {
            Some(UtxoSelection::UseOnly { utxos }) => is_dedup_of(utxos@, inc),
            _ => false,
        }
    } else if inc.len() > 0 {
        match u {
            Some(UtxoSelection::Include { utxos }) => is_dedup_of(utxos@, inc),
            _ => false,
        }
    } else if exc.len() > 0 {
        match u {
            Some(UtxoSelection::Exclude { utxos }) => is_dedup_of(utxos@, exc),
            _ => false,
        }
    } else {
        u is None
    }
}

/// Builds the canonical transaction request from the command-line flags,
/// or reports the first contradiction: an address of the wrong network,
/// more than one recipient while an amount is left to "drain", or a forced
/// fee rate under one satoshi per virtual byte.  Nothing is attempted
/// against a backend before these checks pass.
pub fn build_transaction_request(
    recipients: Vec<Recipient>,
    fee_rate: Option<FeeRate>,
    fee_absolute: Option<u64>,
    include_list: Vec<String>,
    exclude_list: Vec<String>,
    include_only: bool,
    disable_rbf: bool,
    network: Network,
) -> (r: Result<TransactionRequest, Error>)
    requires
        recipients@.len() >= 1,
        !(fee_rate is Some && fee_absolute is Some),
        include_only ==> exclude_list@.len() == 0,
    ensures
        ({
            let rs = recipients@;
            if !all_addresses_valid(rs, network) {
                r == Err::<TransactionRequest, Error>(Error::InvalidAddressNetwork)
            } else if !all_have_amount(rs) && rs.len() != 1 {
                r == Err::<TransactionRequest, Error>(Error::AmbiguousDrainTarget)
            } else if fee_rate is Some && fee_rate->0.centi_sat_per_vb < MIN_FEE_RATE_CENTI {
                r == Err::<TransactionRequest, Error>(Error::FeeRateTooLow)
            } else {
                match r {
                    Ok(req) => {
                        &&& spending_config_ok(req.spending_config, rs)
                        &&& req.fee_policy == spec_fee_policy(fee_rate, fee_absolute)
                        &&& utxo_selection_ok(
                            req.utxo_selection,
                            include_list@,
                            exclude_list@,
                            include_only,
                        )
                        &&& req.disable_rbf == if disable_rbf {
                            Some(true)
                        } else {
                            None::<bool>
                        }
                    },
                    Err(_) => false,
                }
            }
        }),
{
    let n = recipients.len();
    let mut i: usize = 0;
    while i < n
        invariant
            n == recipients@.len(),
            i <= n,
            forall|k: int|
                0 <= k < i ==> address_valid(
                    #[trigger] recipients@[k].address@,
                    network_id(network),
                ),
        decreases n - i,
    {
        if !check_address(recipients[i].address.as_str(), network) {
            return Err(Error::InvalidAddressNetwork);
        }
        i = i + 1;
    }

    let mut all_amounts: bool = true;
    let mut i: usize = 0;
    while i < n
        invariant
            n == recipients@.len(),
            i <= n,
            all_amounts == (forall|k: int| 0 <= k < i ==> recipients@[k].amount is Some),
        decreases n - i,
    {
        if recipients[i].amount.is_none() {
            all_amounts = false;
        }
        i = i + 1;
    }

    let spending_config = if all_amounts {
        let mut list: Vec<(String, u64)> = Vec::new();
        let mut i: usize = 0;
        while i < n
            invariant
                n == recipients@.len(),
                i <= n,
                all_have_amount(recipients@),
                list@.len() == i,
                forall|k: int|
                    0 <= k < i ==> (#[trigger] list@[k]).0@ == recipients@[k].address@ && Some(
                        list@[k].1,
                    ) == recipients@[k].amount,
            decreases n - i,
        {
            assert(recipients@[i as int].amount is Some);
            let amount = recipients[i].amount.unwrap();
            list.push((recipients[i].address.clone(), amount));
            i = i + 1;
        }
        SpendingConfig::Recipients(list)
    } else if n == 1 {
        SpendingConfig::DrainAll(recipients[0].address.clone())
    } else {
        return Err(Error::AmbiguousDrainTarget);
    };

    let fee_policy = match (fee_absolute, fee_rate) {
        (Some(amount), _) => Some(FeePolicy::Absolute { amount }),
        (None, Some(rate)) => {
            if rate.centi_sat_per_vb < MIN_FEE_RATE_CENTI {
                return Err(Error::FeeRateTooLow);
            }
            Some(FeePolicy::Rate { rate })
        },
        (None, None) => None,
    };

    let utxo_selection = if include_list.len() > 0 && exclude_list.len() > 0 {
        Some(
            UtxoSelection::IncludeExclude {
                included: dedup_strings(&include_list),
                excluded: dedup_strings(&exclude_list),
            },
        )
    } else if include_list.len() > 0 {
        if include_only {
            Some(UtxoSelection::UseOnly { utxos: dedup_strings(&include_list) })
        } else {
            Some(UtxoSelection::Include { utxos: dedup_strings(&include_list) })
        }
    } else if exclude_list.len() > 0 {
        Some(UtxoSelection::Exclude { utxos: dedup_strings(&exclude_list) })
    } else {
        None
    };

    let disable_rbf = if disable_rbf {
        Some(true)
    } else {
        None
    };

    Ok(TransactionRequest { spending_config, fee_policy, utxo_selection, disable_rbf })
}

} // verus!
