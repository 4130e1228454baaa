use crate::error::CliError;
use crate::text::{decimal, digit_char};
use crate::uint::{u256_modulus, word_base, Uint256};
use vstd::prelude::*;
use vstd::string::StringSliceAdditionalSpecFns;
use vstd::utf8::{encode_utf8, is_ascii_chars, is_ascii_chars_encode_utf8, is_continuation_byte};

verus! {

/// An ASCII decimal digit byte.
pub open spec fn is_digit_byte(b: u8) -> bool {
    48 <= b <= 57
}

/// Every byte is an ASCII decimal digit.
pub open spec fn all_digits(s: Seq<u8>) -> bool {
    forall|i: int| 0 <= i < s.len() ==> is_digit_byte(#[trigger] s[i])
}

/// The value of a sequence of decimal digit bytes, most significant first
/// (the empty sequence has value 0).
pub open spec fn digits_value(s: Seq<u8>) -> nat
    decreases s.len(),
{
    if s.len() == 0 {
        0
    } else {
        digits_value(s.drop_last()) * 10 + ((s.last() as int - 48) as nat)
    }
}

/// Ten to the power `n`.
pub open spec fn pow10(n: nat) -> nat
    decreases n,
{
    if n == 0 {
        1
    } else {
        10 * pow10((n - 1) as nat)
    }
}

/// 2^255: the largest magnitude of a negative `I256`.
pub open spec fn i256_limit() -> nat {
    u256_modulus() / 2
}

/// The bytes of an amount without the underscores (`_`) that `parse_units` drops.
pub open spec fn without_underscores(s: Seq<u8>) -> Seq<u8>
    decreases s.len(),
{
    if s.len() == 0 {
        s
    } else if s.last() == 95 {
        without_underscores(s.drop_last())
    } else {
        without_underscores(s.drop_last()).push(s.last())
    }
}

/// `i` is the position of the first `.` of `s`.
pub open spec fn is_first_dot(s: Seq<u8>, i: int) -> bool {
    &&& 0 <= i < s.len()
    &&& s[i] == 46
    &&& forall|j: int| 0 <= j < i ==> s[j] != 46
}

/// The position of the first `.` of `s`, or -1.
pub open spec fn first_dot(s: Seq<u8>) -> int {
    if exists|i: int| is_first_dot(s, i) {
        choose|i: int| is_first_dot(s, i)
    } else {
        -1
    }
}

/// The digits of an amount once its first `.` is taken out.
pub open spec fn units_body(t: Seq<u8>) -> Seq<u8> {
    if first_dot(t) >= 0 {
        t.remove(first_dot(t))
    } else {
        t
    }
}

/// How many bytes follow the first `.` of an amount (0 without one).
pub open spec fn units_fraction_len(t: Seq<u8>) -> nat {
    if first_dot(t) >= 0 {
        (t.len() - first_dot(t) - 1) as nat
    } else {
        0
    }
}

/// `ethers::utils::parse_units(amount, units)` returns, with a value or an
/// error, rather than panicking. Over the amount's bytes with `_` removed, and
/// its first `.` taken out (leaving `frac` bytes after it), the function
///   - cuts the fraction to `units` places by slicing the string, which panics
///     at a byte that is not a character boundary (a UTF-8 continuation byte);
///   - for an amount that starts with `-`, parses the magnitude after the sign
///     (an `I256` takes at most 2^255) and multiplies the signed value by
///     10^(units - frac) (an `I256` power, at most 2^255 - 1), asserting
///     against overflow;
///   - otherwise parses a `U256` and multiplies it by 10^(units - frac) with
///     `*=`, which panics when the product reaches 2^256.
/// It measures the fraction length as a `u32`, so longer amounts are left out.
pub open spec fn parse_units_returns(amount: Seq<u8>, units: nat) -> bool {
    let t = without_underscores(amount);
    let body = units_body(t);
    let frac = units_fraction_len(t);
    &&& amount.len() < 0x1_0000_0000
    &&& if frac > units {
        let cut = body.len() - (frac - units);
        !(cut < body.len() && is_continuation_byte(body[cut]))
    } else if t.len() > 0 && t[0] == 45 {
        let abs = body.drop_first();
        !(all_digits(abs) && digits_value(abs) <= i256_limit() && units - frac <= 76
            && digits_value(abs) * pow10((units - frac) as nat) > i256_limit())
    } else {
        !(all_digits(body) && digits_value(body) < u256_modulus() && units - frac <= 77
            && digits_value(body) * pow10((units - frac) as nat) >= u256_modulus())
    }
}

/// A longer run of digits is worth at least its prefix.
proof fn lemma_digits_value_prefix(s: Seq<u8>, i: int)
    requires
        all_digits(s),
        0 <= i <= s.len(),
    ensures
        digits_value(s.take(i)) <= digits_value(s),
    decreases s.len(),
{
    if i < s.len() {
        let p = s.drop_last();
        assert(all_digits(p)) by {
            assert forall|j: int| 0 <= j < p.len() implies is_digit_byte(#[trigger] p[j]) by {
                assert(p[j] == s[j]);
            }
        }
        lemma_digits_value_prefix(p, i);
        assert(s.take(i) =~= p.take(i));
    } else {
        assert(s.take(i) =~= s);
    }
}

/// Multiplying by a larger power of ten gives at least as much.
proof fn lemma_pow10_monotone(a: nat, j: nat, k: nat)
    requires
        j <= k,
    ensures
        a * pow10(j) <= a * pow10(k),
        pow10(j) >= 1,
    decreases k,
{
    if k > j {
        lemma_pow10_monotone(a, j, (k - 1) as nat);
        assert(a * pow10((k - 1) as nat) <= a * pow10(k)) by (nonlinear_arith)
            requires
                pow10(k) == 10 * pow10((k - 1) as nat),
        ;
    } else if j > 0 {
        lemma_pow10_monotone(a, (j - 1) as nat, (j - 1) as nat);
    }
}

/// The value of the digits `s[start..]`, or `None` when a byte there is not a
/// digit or the value reaches 2^256 (the cases in which `U256::from_dec_str`
/// fails).
fn digits_u256(s: &[u8], start: usize) -> (r: Option<Uint256>)
    requires
        start <= s@.len(),
    ensures
        r is None <==> !(all_digits(s@.skip(start as int)) && digits_value(s@.skip(start as int))
            < u256_modulus()),
        r matches Some(v) ==> v@ == digits_value(s@.skip(start as int)),
{
    let ghost sub = s@.skip(start as int);
    let mut acc = Uint256::zero();
    let mut i = start;
    while i < s.len()
        invariant
            start <= i <= s@.len(),
            sub == s@.skip(start as int),
            all_digits(sub.take(i - start)),
            acc@ == digits_value(sub.take(i - start)),
        decreases s@.len() - i,
    {
        let b = s[i];
        let ghost p = sub.take(i - start);
        let ghost q = sub.take(i - start + 1);
        assert(q.drop_last() =~= p);
        assert(q.last() == b);
        if b < 48 || b > 57 {
            assert(!is_digit_byte(sub[i - start]));
            return None;
        }
        let (next, overflow) = acc.mul10_add((b - 48) as u64);
        assert(digits_value(q) == acc@ * 10 + (b - 48));
        if overflow {
            proof {
                if all_digits(sub) {
                    lemma_digits_value_prefix(sub, i - start + 1);
                }
            }
            return None;
        }
        acc = next;
        i = i + 1;
        assert(all_digits(sub.take(i - start))) by {
            assert forall|j: int| 0 <= j < q.len() implies is_digit_byte(#[trigger] q[j]) by {
                if j < p.len() {
                    assert(q[j] == p[j]);
                }
            }
        }
    }
    assert(sub.take(i - start) =~= sub);
    Some(acc)
}

/// Whether `v * 10^k` reaches 2^256 (with `limit` absent) or exceeds `limit`.
fn scaled_exceeds(v: &Uint256, k: u64, limit: Option<&Uint256>) -> (b: bool)
    ensures
        b == (match limit {
            None => v@ * pow10(k as nat) >= u256_modulus(),
            Some(l) => v@ * pow10(k as nat) > l@,
        }),
{
    let mut cur = *v;
    let mut j: u64 = 0;
    proof {
        if let Some(l) = limit {
            l.lemma_bound();
        }
    }
    assert(pow10(0) == 1);
    assert(v@ * pow10(0) == v@);
    while j < k
        invariant
            j <= k,
            cur@ == v@ * pow10(j as nat),
            limit matches Some(l) ==> l@ < u256_modulus(),
        decreases k - j,
    {
        let (next, overflow) = cur.mul10_add(0);
        assert(v@ * pow10((j + 1) as nat) == 10 * cur@) by (nonlinear_arith)
            requires
                cur@ == v@ * pow10(j as nat),
                pow10((j + 1) as nat) == 10 * pow10(j as nat),
        ;
        if overflow {
            proof {
                lemma_pow10_monotone(v@, (j + 1) as nat, k as nat);
            }
            return true;
        }
        cur = next;
        j = j + 1;
    }
    proof {
        cur.lemma_bound();
    }
    match limit {
        None => false,
        Some(l) => l.lt(&cur),
    }
}

/// 2^255 as a `Uint256`.
fn i256_limit_u256() -> (r: Uint256)
    ensures
        r@ == i256_limit(),
{
    let r = Uint256 { words: [0, 0, 0, 0x8000_0000_0000_0000] };
    assert(r.words@[0] == 0 && r.words@[1] == 0 && r.words@[2] == 0);
    assert(r.words@[3] == 0x8000_0000_0000_0000);
    assert(r@ == i256_limit()) by (nonlinear_arith)
        requires
            r@ == 0 + word_base() * (0 + word_base() * (0 + word_base() * 0x8000_0000_0000_0000)),
            word_base() == 0x1_0000_0000_0000_0000,
            i256_limit() == (word_base() * word_base() * word_base() * word_base()) / 2,
    ;
    r
}

/// Whether `ethers::utils::parse_units(amount, decimals)` returns rather than
/// panics (see `parse_units_returns`).
pub fn parse_units_completes(amount: &str, decimals: u8) -> (b: bool)
    ensures
        b == parse_units_returns(amount.spec_bytes(), decimals as nat),
{
    let bytes = amount.as_bytes();
    let n = bytes.len();
    if n as u64 >= 0x1_0000_0000u64 {
        return false;
    }
    let mut t: Vec<u8> = Vec::new();
    let mut i: usize = 0;
    while i < n
        invariant
            i <= n,
            n == bytes@.len(),
            t@ == without_underscores(bytes@.take(i as int)),
        decreases n - i,
    {
        let ghost q = bytes@.take(i + 1);
        assert(q.drop_last() =~= bytes@.take(i as int));
        if bytes[i] != 95 {
            t.push(bytes[i]);
        }
        i = i + 1;
    }
    assert(bytes@.take(n as int) =~= bytes@);
    let ghost ts = t@;
    let tl = t.len();
    let mut di: usize = 0;
    while di < tl && t[di] != 46
        invariant
            di <= tl,
            tl == ts.len(),
            t@ == ts,
            forall|j: int| 0 <= j < di ==> ts[j] != 46,
        decreases tl - di,
    {
        di = di + 1;
    }
    let found = di < tl;
    proof {
        if found {
            assert(is_first_dot(ts, di as int));
            assert forall|i2: int| is_first_dot(ts, i2) implies i2 == di by {
                if i2 < di {
                    assert(ts[i2] != 46);
                } else if i2 > di {
                    assert(ts[di as int] == 46);
                }
            }
            assert(first_dot(ts) == di);
        } else {
            assert forall|i2: int| !is_first_dot(ts, i2) by {
                if 0 <= i2 < ts.len() {
                    assert(ts[i2] != 46);
                }
            }
            assert(first_dot(ts) == -1);
        }
    }
    let mut body: Vec<u8> = Vec::new();
    let mut j: usize = 0;
    while j < tl
        invariant
            j <= tl,
            tl == ts.len(),
            t@ == ts,
            di <= tl,
            found == (di < tl),
            body@ == (if found && di < j { ts.take(j as int).remove(di as int) } else {
                ts.take(j as int)
            }),
        decreases tl - j,
    {
        let ghost old_body = body@;
        if !(found && j == di) {
            body.push(t[j]);
        }
        proof {
            let tj1 = ts.take(j + 1);
            assert(tj1 =~= ts.take(j as int).push(ts[j as int]));
            if found && di < j {
                assert(tj1.remove(di as int) =~= ts.take(j as int).remove(di as int).push(
                    ts[j as int],
                ));
            } else if found && di == j {
                assert(tj1.remove(di as int) =~= ts.take(j as int));
            }
        }
        j = j + 1;
    }
    assert(ts.take(tl as int) =~= ts);
    assert(body@ == units_body(ts));
    let frac: usize = if found {
        tl - di - 1
    } else {
        0
    };
    assert(frac == units_fraction_len(ts));
    let units = decimals as usize;
    if frac > units {
        let cut = body.len() - (frac - units);
        return !(cut < body.len() && body[cut] >= 0x80 && body[cut] <= 0xbf);
    }
    let k = (units - frac) as u64;
    if tl > 0 && t[0] == 45 {
        match digits_u256(body.as_slice(), 1) {
            None => {
                assert(body@.skip(1) =~= body@.drop_first());
                true
            },
            Some(abs) => {
                assert(body@.skip(1) =~= body@.drop_first());
                let limit = i256_limit_u256();
                if limit.lt(&abs) || k > 76 {
                    return true;
                }
                let exceeds = scaled_exceeds(&abs, k, Some(&limit));
                !exceeds
            },
        }
    } else {
        match digits_u256(body.as_slice(), 0) {
            None => {
                assert(body@.skip(0) =~= body@);
                true
            },
            Some(v) => {
                assert(body@.skip(0) =~= body@);
                if k > 77 {
                    return true;
                }
                let over = scaled_exceeds(&v, k, None);
                !over
            },
        }
    }
}

/// The value of an amount written as digits, one `.` and digits, scaled to
/// `units` decimal places, when `parse_units` gives it: a longer fraction is
/// cut to `units` places, a shorter one is scaled up by the missing powers of
/// ten; `None` where the value would not fit in 256 bits.
pub open spec fn plain_decimal_value(b: Seq<u8>, units: nat) -> Option<nat> {
    let p = first_dot(b);
    if p >= 0 && all_digits(b.take(p)) && all_digits(b.skip(p + 1)) {
        let body = b.remove(p);
        let frac = (b.len() - p - 1) as nat;
        if frac > units {
            let kept = body.take(body.len() - (frac - units));
            if digits_value(kept) < u256_modulus() {
                Some(digits_value(kept))
            } else {
                None
            }
        } else if units - frac <= 77 && digits_value(body) * pow10((units - frac) as nat)
            < u256_modulus() {
            Some(digits_value(body) * pow10((units - frac) as nat))
        } else {
            None
        }
    } else {
        None
    }
}

/// The value that `parse_units` is stated to give an amount that, once its
/// underscores are dropped, is plain digits (scaled by 10^units) or digits
/// with one `.`; `None` for other amounts (a sign among them) and for values
/// that do not fit in 256 bits.
pub open spec fn stated_units_value(amount: Seq<char>, units: nat) -> Option<nat> {
    let b = without_underscores(encode_utf8(amount));
    if all_digits(b) && units <= 77 && digits_value(b) * pow10(units) < u256_modulus() {
        Some(digits_value(b) * pow10(units))
    } else {
        plain_decimal_value(b, units)
    }
}

/// Without underscores, the stated value is that of the digits or of the
/// decimal amount itself.
proof fn lemma_stated_units_value(amount: Seq<char>, units: nat)
    ensures
        ({
            let b = encode_utf8(amount);
            &&& all_digits(b) && units <= 77 && digits_value(b) * pow10(units) < u256_modulus()
                ==> stated_units_value(amount, units) == Some(digits_value(b) * pow10(units))
            &&& plain_decimal_value(b, units) is Some ==> stated_units_value(amount, units)
                == plain_decimal_value(b, units)
        }),
{
    let b = encode_utf8(amount);
    if all_digits(b) {
        assert forall|i: int| 0 <= i < b.len() implies #[trigger] b[i] != 95 by {
            assert(is_digit_byte(b[i]));
        }
        lemma_without_underscores_id(b);
    }
    if plain_decimal_value(b, units) is Some {
        let p = first_dot(b);
        assert(p >= 0);
        assert(exists|i: int| is_first_dot(b, i));
        assert(is_first_dot(b, p));
        assert forall|i: int| 0 <= i < b.len() implies #[trigger] b[i] != 95 by {
            if i < p {
                assert(b.take(p)[i] == b[i]);
                assert(is_digit_byte(b.take(p)[i]));
            } else if i > p {
                assert(b.skip(p + 1)[i - p - 1] == b[i]);
                assert(is_digit_byte(b.skip(p + 1)[i - p - 1]));
            }
        }
        lemma_without_underscores_id(b);
        assert(!is_digit_byte(b[p]));
    }
}

/// The amount, once its underscores are dropped, starts with `-`, and
/// `parse_units` reads it as a signed `I256`.
pub open spec fn is_signed_amount(amount: Seq<char>) -> bool {
    let t = without_underscores(encode_utf8(amount));
    t.len() > 0 && t[0] == 45
}

/// What `parse_units` gives an unsigned amount, from its source: with the
/// underscores dropped and the first `.` taken out, a fraction longer than
/// `units` is cut to `units` places and the digits that are left are read;
/// otherwise the digits are read and scaled by the missing powers of ten
/// (10^78 and up overflow into an error). `None` where a byte that is read is
/// not a digit, or the number reaches 2^256.
pub open spec fn unsigned_units_value(amount: Seq<char>, units: nat) -> Option<nat> {
    let t = without_underscores(encode_utf8(amount));
    let body = units_body(t);
    let frac = units_fraction_len(t);
    if frac > units {
        let kept = body.take(body.len() - (frac - units));
        if all_digits(kept) && digits_value(kept) < u256_modulus() {
            Some(digits_value(kept))
        } else {
            None
        }
    } else if all_digits(body) && digits_value(body) < u256_modulus() && units - frac <= 77 {
        Some(digits_value(body) * pow10((units - frac) as nat))
    } else {
        None
    }
}

/// What `ethers::utils::parse_units(amount, units)` turns into a `U256`: the
/// value, or `None` for an error. (A negative amount comes back as the
/// two's-complement bits of the `I256` it parses to.)
pub uninterp spec fn parse_units_value(amount: Seq<char>, units: nat) -> Option<nat>;

/// `ethers::utils::parse_units(amount, units)`, converted into a `U256`. Its
/// source is summarised by `parse_units_returns` for when it returns. It drops
/// every `_` first; then for a plain run of digits its documentation gives the
/// value, the digits times 10^units when that fits in 256 bits, and for digits
/// with one `.` its source gives `plain_decimal_value` (`stated_units_value`).
/// For an unsigned amount its source gives `unsigned_units_value`, an error
/// included. The value of a signed amount, which comes back as the
/// two's-complement bits of an `I256`, is left to the name
/// `parse_units_value`.
#[verifier::external_body]
fn ethers_parse_units(amount: &str, units: u8) -> (r: Option<Uint256>)
    requires
        parse_units_returns(amount.spec_bytes(), units as nat),
    ensures
        match r {
            Some(v) => parse_units_value(amount@, units as nat) == Some(v@),
            None => parse_units_value(amount@, units as nat) is None,
        },
        stated_units_value(amount@, units as nat) is Some ==> r is Some && r.unwrap()@ == stated_units_value(amount@, units as nat)->0,
        !is_signed_amount(amount@) ==> (r is Some <==> unsigned_units_value(amount@, units as nat) is Some),
        !is_signed_amount(amount@) && r is Some ==> r.unwrap()@ == unsigned_units_value(amount@, units as nat)->0,
{
    match ethers::utils::parse_units(amount, usize::from(units)) {
        Ok(p) => {
            let v: ethers::types::U256 = p.into();
            Some(Uint256 { words: v.0 })
        },
        Err(_) => None,
    }
}

/// `U256::from_dec_str`: it takes the bytes one by one, refuses any that is
/// not an ASCII digit and any value that reaches 2^256, and reads the empty
/// string as zero.
#[verifier::external_body]
fn u256_from_dec_str(s: &str) -> (r: Option<Uint256>)
    ensures
        r is Some <==> (all_digits(s.spec_bytes()) && digits_value(s.spec_bytes())
            < u256_modulus()),
        r matches Some(v) ==> v@ == digits_value(s.spec_bytes()),
{
    match ethers::types::U256::from_dec_str(s) {
        Ok(v) => Some(Uint256 { words: v.0 }),
        Err(_) => None,
    }
}

/// `s` padded on the left with `0` to `width` characters.
pub open spec fn zero_pad(s: Seq<char>, width: nat) -> Seq<char> {
    if s.len() >= width {
        s
    } else {
        Seq::new((width - s.len()) as nat, |i: int| '0') + s
    }
}

/// A base-unit amount written in whole units with `units` decimal places:
/// the integer part, a `.`, and the remainder padded with zeros to `units`
/// digits (a single `0` when `units` is zero).
pub open spec fn units_text(v: nat, units: nat) -> Seq<char> {
    decimal(v / pow10(units)) + seq!['.'] + zero_pad(decimal(v % pow10(units)), units)
}

/// `ethers::utils::format_units(value, units)` for a `U256`: an error when
/// `units` is 78 or more (10^78 exceeds 2^256), and otherwise the quotient by
/// 10^units, a `.`, and the remainder padded with `0` to `units` digits.
#[verifier::external_body]
fn ethers_format_units(value: &Uint256, units: u8) -> (r: Option<String>)
    ensures
        r is Some <==> units < 78,
        r matches Some(s) ==> s@ == units_text(value@, units as nat),
{
    match ethers::utils::format_units(ethers::types::U256(value.words), usize::from(units)) {
        Ok(s) => Some(s),
        Err(_) => None,
    }
}

/// Scales a decimal amount to base units of a token with `decimals` places,
/// as `parse_units` does; the error names the amount and the decimals.
pub fn parse_amount_units(value: &str, decimals: u8) -> (r: Result<Uint256, CliError>)
    requires
        parse_units_returns(value.spec_bytes(), decimals as nat),
    ensures
        match r {
            Ok(v) => parse_units_value(value@, decimals as nat) == Some(v@),
            Err(e) => parse_units_value(value@, decimals as nat) is None && e.is_invalid_amount(value@, decimals),
        },
        all_digits(value.spec_bytes()) && decimals <= 77 && digits_value(value.spec_bytes()) * pow10(decimals as nat) < u256_modulus() ==> r is Ok && r.unwrap()@ == digits_value(value.spec_bytes()) * pow10(decimals as nat),
        plain_decimal_value(value.spec_bytes(), decimals as nat) is Some ==> r is Ok && r.unwrap()@ == plain_decimal_value(value.spec_bytes(), decimals as nat)->0,
        stated_units_value(value@, decimals as nat) matches Some(v) ==> r matches Ok(x) && x@ == v && parse_units_value(value@, decimals as nat) == Some(v),
        !is_signed_amount(value@) ==> (r is Ok <==> unsigned_units_value(value@, decimals as nat) is Some),
        !is_signed_amount(value@) && r is Ok ==> r.unwrap()@ == unsigned_units_value(value@, decimals as nat)->0,
        !is_signed_amount(value@) ==> parse_units_value(value@, decimals as nat) == unsigned_units_value(value@, decimals as nat),
{
    proof {
        lemma_stated_units_value(value@, decimals as nat);
    }
    match ethers_parse_units(value, decimals) {
        Some(v) => Ok(v),
        None => Err(CliError::InvalidAmount { value: value.to_owned(), decimals }),
    }
}

/// Reads a raw base-unit amount: decimal digits only, below 2^256 (the empty
/// amount reads as zero).
pub fn parse_amount_raw(value: &str) -> (r: Result<Uint256, CliError>)
    ensures
        r is Ok <==> (all_digits(value.spec_bytes()) && digits_value(value.spec_bytes())
            < u256_modulus()),
        r matches Ok(v) ==> v@ == digits_value(value.spec_bytes()),
        r matches Err(e) ==> e.is_invalid_raw_amount(value@),
{
    match u256_from_dec_str(value) {
        Some(v) => Ok(v),
        None => Err(CliError::InvalidRawAmount { value: value.to_owned() }),
    }
}

/// Reads an amount of a token with `decimals` places: as raw base units when
/// `raw` is set, else as a decimal amount in whole units.
pub fn parse_token_amount(amount: &str, decimals: u8, raw: bool) -> (r: Result<Uint256, CliError>)
    requires
        !raw ==> parse_units_returns(amount.spec_bytes(), decimals as nat),
    ensures
        raw ==> (r is Ok <==> (all_digits(amount.spec_bytes()) && digits_value(
            amount.spec_bytes(),
        ) < u256_modulus())),
        raw ==> (r matches Ok(v) ==> v@ == digits_value(amount.spec_bytes())),
        raw ==> (r matches Err(e) ==> e.is_invalid_raw_amount(amount@)),
        !raw ==> match r {
            Ok(v) => parse_units_value(amount@, decimals as nat) == Some(v@),
            Err(e) => parse_units_value(amount@, decimals as nat) is None && e.is_invalid_amount(amount@, decimals),
        },
        !raw ==> (stated_units_value(amount@, decimals as nat) matches Some(v) ==> r matches Ok(x) && x@ == v),
        !raw && !is_signed_amount(amount@) ==> (r is Ok <==> unsigned_units_value(amount@, decimals as nat) is Some),
        !raw && !is_signed_amount(amount@) && r is Ok ==> r.unwrap()@ == unsigned_units_value(amount@, decimals as nat)->0,
{
    if raw {
        parse_amount_raw(amount)
    } else {
        parse_amount_units(amount, decimals)
    }
}

/// How `format_token_amount` writes an amount of a token with `decimals` places.
pub open spec fn token_amount_text(v: nat, decimals: u8) -> Seq<char> {
    if decimals < 78 {
        units_text(v, decimals as nat)
    } else {
        decimal(v)
    }
}

/// Formats a base-unit amount in whole units with `decimals` places, as
/// `format_units` does, or as the raw decimal number when `format_units`
/// refuses the decimals.
pub fn format_token_amount(value: &Uint256, decimals: u8) -> (s: String)
    ensures
        s@ == token_amount_text(value@, decimals),
{
    match ethers_format_units(value, decimals) {
        Some(s) => s,
        None => value.to_decimal_string(),
    }
}

/// Turns minutes into seconds; the error names the argument when the seconds
/// do not fit in 64 bits.
pub fn minutes_to_seconds_u256(minutes: u64, label: &str) -> (r: Result<Uint256, CliError>)
    ensures
        r is Ok <==> minutes * 60 <= u64::MAX,
        r matches Ok(v) ==> v@ == minutes * 60,
        r matches Err(e) ==> e.is_overflow_on(label@),
{
    match minutes.checked_mul(60) {
        Some(seconds) => Ok(Uint256::from_u64(seconds)),
        None => Err(CliError::Overflow { label: label.to_owned() }),
    }
}

/// The bytes of an ASCII text.
pub open spec fn ascii_bytes(s: Seq<char>) -> Seq<u8> {
    s.map_values(|c: char| c as u8)
}

/// The decimal text of a number is ASCII digits whose value is the number.
proof fn lemma_decimal_digits(n: nat)
    ensures
        is_ascii_chars(decimal(n)),
        all_digits(ascii_bytes(decimal(n))),
        digits_value(ascii_bytes(decimal(n))) == n,
    decreases n,
{
    let d = decimal(n);
    if n < 10 {
        let b = ascii_bytes(d);
        assert(b.len() == 1);
        assert(b[0] == (n + 48) as u8);
        assert(b.drop_last() =~= Seq::<u8>::empty());
        assert(digits_value(b.drop_last()) == 0);
        assert(b.last() == (n + 48) as u8);
        assert(digits_value(b) == n);
    } else {
        lemma_decimal_digits(n / 10);
        let p = decimal(n / 10);
        let c = digit_char(n % 10);
        assert(d =~= p.push(c));
        assert(ascii_bytes(d) =~= ascii_bytes(p).push(c as u8));
        assert(ascii_bytes(d).drop_last() =~= ascii_bytes(p));
        assert(c as u8 == (n % 10 + 48) as u8);
        assert(ascii_bytes(d).last() == (n % 10 + 48) as u8);
        assert(digits_value(ascii_bytes(d)) == digits_value(ascii_bytes(p)) * 10 + n % 10);
        assert((n / 10) * 10 + n % 10 == n);
        assert forall|i: int| 0 <= i < d.len() implies '\0' <= #[trigger] d[i] <= '\u{7f}' by {
            if i < p.len() {
                assert(d[i] == p[i]);
            }
        }
        assert forall|i: int| 0 <= i < ascii_bytes(d).len() implies is_digit_byte(
            #[trigger] ascii_bytes(d)[i],
        ) by {
            if i < p.len() {
                assert(ascii_bytes(d)[i] == ascii_bytes(p)[i]);
            }
        }
    }
}

/// The decimal text of an amount reads back as that amount: its UTF-8 bytes
/// are decimal digits whose value is the amount, so that `parse_amount_raw`
/// of what `Uint256::to_decimal_string` (and `format_ts`) print returns the
/// amount unchanged.
pub proof fn lemma_raw_amount_roundtrip(v: Uint256)
    ensures
        all_digits(encode_utf8(decimal(v@))),
        digits_value(encode_utf8(decimal(v@))) == v@,
        digits_value(encode_utf8(decimal(v@))) < u256_modulus(),
{
    lemma_decimal_digits(v@);
    is_ascii_chars_encode_utf8(decimal(v@));
    assert(encode_utf8(decimal(v@)) =~= ascii_bytes(decimal(v@)));
    v.lemma_bound();
}

/// The value of two runs of digits side by side.
proof fn lemma_digits_value_concat(a: Seq<u8>, b: Seq<u8>)
    ensures
        digits_value(a + b) == digits_value(a) * pow10(b.len()) + digits_value(b),
    decreases b.len(),
{
    if b.len() == 0 {
        assert(a + b =~= a);
        assert(pow10(0) == 1);
    } else {
        let b1 = b.drop_last();
        lemma_digits_value_concat(a, b1);
        assert((a + b).drop_last() =~= a + b1);
        assert((a + b).last() == b.last());
        let l = (b.last() as int - 48) as nat;
        assert(digits_value(a + b) == digits_value(a + b1) * 10 + l);
        assert(digits_value(b) == digits_value(b1) * 10 + l);
        assert(pow10(b.len()) == 10 * pow10(b1.len()));
        assert(digits_value(a + b) == digits_value(a) * pow10(b.len()) + digits_value(b)) by (
        nonlinear_arith)
            requires
                digits_value(a + b) == digits_value(a + b1) * 10 + l,
                digits_value(b) == digits_value(b1) * 10 + l,
                pow10(b.len()) == 10 * pow10(b1.len()),
                digits_value(a + b1) == digits_value(a) * pow10(b1.len()) + digits_value(b1),
        ;
    }
}

/// Leading zeros are worth nothing.
proof fn lemma_zeros_value(k: nat)
    ensures
        digits_value(Seq::new(k, |i: int| 48u8)) == 0,
        all_digits(Seq::new(k, |i: int| 48u8)),
    decreases k,
{
    if k > 0 {
        lemma_zeros_value((k - 1) as nat);
        assert(Seq::new(k, |i: int| 48u8).drop_last() =~= Seq::new((k - 1) as nat, |i: int| 48u8));
    }
}

/// Powers of ten multiply by adding exponents.
proof fn lemma_pow10_add(a: nat, b: nat)
    ensures
        pow10(a + b) == pow10(a) * pow10(b),
    decreases a,
{
    if a > 0 {
        lemma_pow10_add((a - 1) as nat, b);
        assert(pow10(a + b) == 10 * pow10((a - 1 + b) as nat));
        assert(pow10(a) * pow10(b) == 10 * pow10((a - 1 + b) as nat)) by (nonlinear_arith)
            requires
                pow10(a) == 10 * pow10((a - 1) as nat),
                pow10((a - 1 + b) as nat) == pow10((a - 1) as nat) * pow10(b),
        ;
    } else {
        assert(pow10(0) == 1);
    }
}

/// A number below 10^k has at most k digits.
proof fn lemma_decimal_len(n: nat, k: nat)
    requires
        k >= 1,
        n < pow10(k),
    ensures
        1 <= decimal(n).len() <= k,
    decreases n,
{
    if n >= 10 {
        if k == 1 {
            assert(pow10(1) == 10 * pow10(0));
            assert(pow10(0) == 1);
        } else {
            assert(pow10(k) == 10 * pow10((k - 1) as nat));
            assert(n / 10 < pow10((k - 1) as nat)) by (nonlinear_arith)
                requires
                    n < 10 * pow10((k - 1) as nat),
            ;
            lemma_decimal_len(n / 10, (k - 1) as nat);
        }
    }
}

/// 2^256 is below 10^80.
proof fn lemma_modulus_below_pow10_80()
    ensures
        u256_modulus() < pow10(80),
{
    assert(pow10(20) == 100000000000000000000) by {
        reveal_with_fuel(pow10, 21);
    }
    lemma_pow10_add(20, 20);
    lemma_pow10_add(40, 40);
    let b = word_base();
    let p = pow10(20);
    assert(b < p);
    assert(b * b * b * b < p * p * p * p) by (nonlinear_arith)
        requires
            0 < b < p,
    ;
    assert(pow10(80) == p * p * p * p) by (nonlinear_arith)
        requires
            pow10(40) == p * p,
            pow10(80) == pow10(40) * pow10(40),
    ;
}

/// A text without underscores is left as it is.
proof fn lemma_without_underscores_id(s: Seq<u8>)
    requires
        forall|i: int| 0 <= i < s.len() ==> #[trigger] s[i] != 95,
    ensures
        without_underscores(s) == s,
    decreases s.len(),
{
    if s.len() > 0 {
        let p = s.drop_last();
        assert forall|i: int| 0 <= i < p.len() implies #[trigger] p[i] != 95 by {
            assert(p[i] == s[i]);
        }
        lemma_without_underscores_id(p);
        assert(p.push(s.last()) =~= s);
    }
}

/// The bytes of a padded number: the zeros, then the digits.
proof fn lemma_zero_pad_bytes(x: Seq<char>, width: nat)
    ensures
        ascii_bytes(zero_pad(x, width)) =~= (if x.len() >= width {
            ascii_bytes(x)
        } else {
            Seq::new((width - x.len()) as nat, |i: int| 48u8) + ascii_bytes(x)
        }),
        zero_pad(x, width).len() == (if x.len() >= width {
            x.len()
        } else {
            width
        }),
{
}

/// A formatted amount parses back to itself: for a token with fewer than 78
/// decimals, `parse_amount_units` of what `format_token_amount` prints
/// returns the amount unchanged, and the text is one that `parse_units`
/// accepts without panicking.
#[verifier::rlimit(40)]
pub proof fn lemma_token_amount_roundtrip(v: Uint256, decimals: u8)
    requires
        decimals < 78,
    ensures
        parse_units_returns(encode_utf8(token_amount_text(v@, decimals)), decimals as nat),
        plain_decimal_value(encode_utf8(token_amount_text(v@, decimals)), decimals as nat) == Some(
            v@,
        ),
{
    let d = decimals as nat;
    let pw = pow10(d);
    lemma_pow10_monotone(1, 0, d);
    let q = v@ / pw;
    let r = v@ % pw;
    assert(v@ == pw * q + r && r < pw) by {
        vstd::arithmetic::div_mod::lemma_fundamental_div_mod(v@ as int, pw as int);
    }
    v.lemma_bound();
    let int_text = decimal(q);
    let frac_text = zero_pad(decimal(r), d);
    let text = token_amount_text(v@, decimals);
    assert(text == int_text + seq!['.'] + frac_text);
    lemma_decimal_digits(q);
    lemma_decimal_digits(r);
    let ib = ascii_bytes(int_text);
    let fb = ascii_bytes(frac_text);
    lemma_zero_pad_bytes(decimal(r), d);
    lemma_zeros_value((d - decimal(r).len()) as nat);
    // The fraction is digits worth r, and exactly d long when d >= 1.
    if decimal(r).len() < d {
        let z = Seq::new((d - decimal(r).len()) as nat, |i: int| 48u8);
        lemma_digits_value_concat(z, ascii_bytes(decimal(r)));
        assert(0 * pow10(ascii_bytes(decimal(r)).len()) == 0);
        assert forall|i: int| 0 <= i < fb.len() implies is_digit_byte(#[trigger] fb[i]) by {
            if i < z.len() {
                assert(fb[i] == z[i]);
            } else {
                assert(fb[i] == ascii_bytes(decimal(r))[i - z.len()]);
            }
        }
    }
    assert(all_digits(fb));
    assert(digits_value(fb) == r);
    if d >= 1 {
        lemma_decimal_len(r, d);
    }
    assert(d >= 1 ==> fb.len() == d);
    assert(d == 0 ==> r == 0 && fb =~= seq![48u8]);
    // The whole text is ASCII, so its UTF-8 bytes are its characters.
    assert(is_ascii_chars(frac_text)) by {
        assert forall|i: int| 0 <= i < frac_text.len() implies '\0' <= #[trigger] frac_text[i] <= '\u{7f}' by {
            if decimal(r).len() < d {
                let k = d - decimal(r).len();
                if i >= k {
                    assert(frac_text[i] == decimal(r)[i - k]);
                }
            }
        }
    }
    assert(is_ascii_chars(text)) by {
        assert forall|i: int| 0 <= i < text.len() implies '\0' <= #[trigger] text[i] <= '\u{7f}' by {
            if i < int_text.len() {
                assert(text[i] == int_text[i]);
            } else if i > int_text.len() {
                assert(text[i] == frac_text[i - int_text.len() - 1]);
            }
        }
    }
    is_ascii_chars_encode_utf8(text);
    let b = encode_utf8(text);
    assert(b =~= ib + seq![46u8] + fb) by {
        assert forall|i: int| 0 <= i < b.len() implies b[i] == (ib + seq![46u8] + fb)[i] by {
            assert(b[i] == text[i] as u8);
            if i < int_text.len() {
                assert(text[i] == int_text[i]);
            } else if i > int_text.len() {
                assert(text[i] == frac_text[i - int_text.len() - 1]);
            }
        }
    }
    let p = ib.len() as int;
    assert(is_first_dot(b, p)) by {
        assert forall|j: int| 0 <= j < p implies b[j] != 46 by {
            assert(b[j] == ib[j]);
        }
    }
    assert forall|i2: int| is_first_dot(b, i2) implies i2 == p by {
        if i2 < p {
            assert(b[i2] == ib[i2]);
        }
    }
    assert(first_dot(b) == p);
    assert(b.take(p) =~= ib);
    assert(b.skip(p + 1) =~= fb);
    let body = b.remove(p);
    assert(body =~= ib + fb);
    assert(forall|i: int| 0 <= i < b.len() ==> #[trigger] b[i] != 95) by {
        assert forall|i: int| 0 <= i < b.len() implies #[trigger] b[i] != 95 by {
            if i < p {
                assert(b[i] == ib[i]);
            } else if i > p {
                assert(b[i] == fb[i - p - 1]);
            }
        }
    }
    lemma_without_underscores_id(b);
    assert(units_body(b) == body);
    assert(units_fraction_len(b) == fb.len());
    // Length: at most 80 integer digits, the dot, and at most 77 decimals.
    lemma_modulus_below_pow10_80();
    lemma_pow10_monotone(1, 0, 80);
    assert(q <= v@) by (nonlinear_arith)
        requires
            v@ == pw * q + r,
            pw >= 1,
            r >= 0,
    ;
    lemma_decimal_len(q, 80);
    assert(b.len() < 0x1_0000_0000);
    lemma_digits_value_concat(ib, fb);
    assert(ib.len() >= 1);
    assert(b[0] == ib[0]);
    if d >= 1 {
        assert(digits_value(body) == q * pw + r);
        assert(digits_value(body) == v@) by (nonlinear_arith)
            requires
                digits_value(body) == q * pw + r,
                v@ == pw * q + r,
        ;
        assert(pow10(0) == 1);
        assert(fb.len() == d);
        assert((d - fb.len()) as nat == 0);
        assert(digits_value(body) * pow10(0) == v@);
    } else {
        assert(pw == 1) by {
            assert(pow10(0) == 1);
        }
        assert(q == v@) by (nonlinear_arith)
            requires
                v@ == pw * q + r,
                pw == 1,
                r < pw,
        ;
        assert(body.take(body.len() - 1) =~= ib);
        assert(body[body.len() - 1] == 48);
    }
}

/// Different numbers print differently.
pub proof fn lemma_decimal_injective(a: nat, b: nat)
    ensures
        decimal(a) == decimal(b) ==> a == b,
{
    lemma_decimal_digits(a);
    lemma_decimal_digits(b);
}

} // verus!
