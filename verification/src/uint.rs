use crate::text::decimal;
use vstd::prelude::*;

verus! {

/// The base of one 64-bit word.
pub open spec fn word_base() -> nat {
    0x1_0000_0000_0000_0000
}

/// 2^256, one past the largest value of a `Uint256`.
pub open spec fn u256_modulus() -> nat {
    word_base() * word_base() * word_base() * word_base()
}

/// The value of four little-endian words.
pub open spec fn words_value(w0: u64, w1: u64, w2: u64, w3: u64) -> nat {
    (w0 + word_base() * (w1 + word_base() * (w2 + word_base() * w3))) as nat
}

/// An unsigned 256-bit integer, as four 64-bit words, least significant first
/// (the layout of the `U256` that the chain bindings read and write).
#[derive(Clone, Copy, Debug, PartialEq, Eq)]
pub struct Uint256 {
    pub words: [u64; 4],
}

impl View for Uint256 {
    type V = nat;

    open spec fn view(&self) -> nat {
        words_value(self.words@[0], self.words@[1], self.words@[2], self.words@[3])
    }
}

/// Splitting a number at one word: the high part decides, the low word breaks ties.
proof fn lemma_split_word_order(l1: nat, h1: nat, l2: nat, h2: nat)
    requires
        l1 < word_base(),
        l2 < word_base(),
    ensures
        (l1 + word_base() * h1 < l2 + word_base() * h2) <==> (h1 < h2 || (h1 == h2 && l1 < l2)),
        (l1 + word_base() * h1 == l2 + word_base() * h2) <==> (h1 == h2 && l1 == l2),
{
    let b = word_base();
    assert((l1 + b * h1 < l2 + b * h2) <==> (h1 < h2 || (h1 == h2 && l1 < l2))) by (nonlinear_arith)
        requires
            l1 < b,
            l2 < b,
            b > 0,
    ;
    assert((l1 + b * h1 == l2 + b * h2) <==> (h1 == h2 && l1 == l2)) by (nonlinear_arith)
        requires
            l1 < b,
            l2 < b,
            b > 0,
    ;
}

/// A value below 2^256 fits in four words.
proof fn lemma_words_value_bound(w0: u64, w1: u64, w2: u64, w3: u64)
    ensures
        words_value(w0, w1, w2, w3) < u256_modulus(),
        (w1 == 0 && w2 == 0 && w3 == 0) <==> words_value(w0, w1, w2, w3) < word_base(),
{
    let b = word_base();
    let h2 = w2 + b * w3;
    let h1 = w1 + b * h2;
    assert(w3 < b);
    assert(h2 < b * b) by (nonlinear_arith)
        requires
            w2 < b,
            w3 < b,
            h2 == w2 + b * w3,
    ;
    assert(h1 < b * b * b) by (nonlinear_arith)
        requires
            w1 < b,
            h2 < b * b,
            h1 == w1 + b * h2,
    ;
    assert(w0 + b * h1 < b * b * b * b) by (nonlinear_arith)
        requires
            w0 < b,
            h1 < b * b * b,
    ;
    assert((h1 == 0) <==> (w0 + b * h1 < b)) by (nonlinear_arith)
        requires
            w0 < b,
            h1 >= 0,
    ;
    assert((h1 == 0) <==> (w1 == 0 && h2 == 0)) by (nonlinear_arith)
        requires
            h1 == w1 + b * h2,
            w1 >= 0,
            h2 >= 0,
            b > 0,
    ;
    assert((h2 == 0) <==> (w2 == 0 && w3 == 0)) by (nonlinear_arith)
        requires
            h2 == w2 + b * w3,
            w2 >= 0,
            w3 >= 0,
            b > 0,
    ;
}

impl Uint256 {
    /// Every `Uint256` is below 2^256.
    pub proof fn lemma_bound(self)
        ensures
            self@ < u256_modulus(),
    {
        lemma_words_value_bound(self.words@[0], self.words@[1], self.words@[2], self.words@[3]);
    }

    /// The value of a `u64`, as `U256::from` makes it.
    pub fn from_u64(x: u64) -> (r: Uint256)
        ensures
            r@ == x,
    {
        let r = Uint256 { words: [x, 0, 0, 0] };
        assert(r@ == x) by {
            assert(r.words@[1] == 0 && r.words@[2] == 0 && r.words@[3] == 0);
        }
        r
    }

    /// Zero.
    pub fn zero() -> (r: Uint256)
        ensures
            r@ == 0,
    {
        Uint256::from_u64(0)
    }

    /// Whether the value fits in a `u64` (is at most `u64::MAX`).
    pub fn fits_u64(&self) -> (b: bool)
        ensures
            b == (self@ <= u64::MAX),
    {
        proof {
            lemma_words_value_bound(self.words@[0], self.words@[1], self.words@[2], self.words@[3]);
        }
        self.words[1] == 0 && self.words[2] == 0 && self.words[3] == 0
    }

    /// The value as a `u64`; `as_u64` of `U256` panics on larger values.
    pub fn as_u64(&self) -> (r: u64)
        requires
            self@ <= u64::MAX,
        ensures
            r == self@,
    {
        proof {
            lemma_words_value_bound(self.words@[0], self.words@[1], self.words@[2], self.words@[3]);
        }
        self.words[0]
    }

    /// `self < other`, as the ordering of `U256` compares.
    pub fn lt(&self, other: &Uint256) -> (b: bool)
        ensures
            b == (self@ < other@),
    {
        let ghost bb = word_base();
        let ghost a = self.words@;
        let ghost c = other.words@;
        let ghost ah2: nat = (a[2] + bb * a[3]) as nat;
        let ghost ch2: nat = (c[2] + bb * c[3]) as nat;
        let ghost ah1: nat = (a[1] + bb * ah2) as nat;
        let ghost ch1: nat = (c[1] + bb * ch2) as nat;
        proof {
            lemma_split_word_order(a[2] as nat, a[3] as nat, c[2] as nat, c[3] as nat);
            lemma_split_word_order(a[1] as nat, ah2, c[1] as nat, ch2);
            lemma_split_word_order(a[0] as nat, ah1, c[0] as nat, ch1);
        }
        if self.words[3] != other.words[3] {
            self.words[3] < other.words[3]
        } else if self.words[2] != other.words[2] {
            self.words[2] < other.words[2]
        } else if self.words[1] != other.words[1] {
            self.words[1] < other.words[1]
        } else {
            self.words[0] < other.words[0]
        }
    }

    /// `self == other` in value.
    pub fn equals(&self, other: &Uint256) -> (b: bool)
        ensures
            b == (self@ == other@),
    {
        let x = self.lt(other);
        let y = other.lt(self);
        !x && !y
    }

    /// Decimal rendering, as `Display` of `U256` prints it.
    pub fn to_decimal_string(&self) -> (s: String)
        ensures
            s@ == decimal(self@),
    {
        u256_display(self)
    }
}

/// `Display` of `ethers::types::U256`: the decimal digits of the value, without
/// sign or leading zeros ("0" for zero). Its source builds the digits by
/// repeated division by ten.
#[verifier::external_body]
fn u256_display(v: &Uint256) -> (s: String)
    ensures
        s@ == decimal(v@),
{
    ethers::types::U256(v.words).to_string()
}

/// One word step of multiplying by ten: `10 * x + carry_in == low + 2^64 * carry_out`.
fn mul10_word(x: u64, carry_in: u64) -> (r: (u64, u64))
    requires
        carry_in < 10,
    ensures
        10 * x + carry_in == r.0 + word_base() * r.1,
        r.1 < 10,
{
    let t: u128 = (x as u128) * 10 + (carry_in as u128);
    let low: u128 = t % 0x1_0000_0000_0000_0000u128;
    let high: u128 = t / 0x1_0000_0000_0000_0000u128;
    assert(t == low + word_base() * high) by {
        vstd::arithmetic::div_mod::lemma_fundamental_div_mod(t as int, word_base() as int);
    }
    assert(high < 10) by (nonlinear_arith)
        requires
            t == low + 0x1_0000_0000_0000_0000 * high,
            t < 10 * 0x1_0000_0000_0000_0000,
            low >= 0,
    ;
    (low as u64, high as u64)
}

impl Uint256 {
    /// `10 * self + digit`, with whether the exact result reaches 2^256.
    pub fn mul10_add(&self, digit: u64) -> (r: (Uint256, bool))
        requires
            digit < 10,
        ensures
            r.1 <==> 10 * self@ + digit >= u256_modulus(),
            !r.1 ==> r.0@ == 10 * self@ + digit,
    {
        let (y0, c1) = mul10_word(self.words[0], digit);
        let (y1, c2) = mul10_word(self.words[1], c1);
        let (y2, c3) = mul10_word(self.words[2], c2);
        let (y3, c4) = mul10_word(self.words[3], c3);
        let r = Uint256 { words: [y0, y1, y2, y3] };
        let ghost b = word_base();
        let ghost x0 = self.words@[0];
        let ghost x1 = self.words@[1];
        let ghost x2 = self.words@[2];
        let ghost x3 = self.words@[3];
        assert(r.words@[0] == y0 && r.words@[1] == y1 && r.words@[2] == y2 && r.words@[3] == y3);
        let ghost xx2: int = x2 + b * x3;
        let ghost xx1: int = x1 + b * xx2;
        let ghost yy2: int = y2 + b * y3;
        let ghost yy1: int = y1 + b * yy2;
        assert(10 * xx2 + c2 == yy2 + b * b * c4) by (nonlinear_arith)
            requires
                10 * x2 + c2 == y2 + b * c3,
                10 * x3 + c3 == y3 + b * c4,
                xx2 == x2 + b * x3,
                yy2 == y2 + b * y3,
        ;
        assert(10 * xx1 + c1 == yy1 + b * b * b * c4) by (nonlinear_arith)
            requires
                10 * x1 + c1 == y1 + b * c2,
                10 * xx2 + c2 == yy2 + b * b * c4,
                xx1 == x1 + b * xx2,
                yy1 == y1 + b * yy2,
        ;
        assert(10 * (x0 + b * xx1) + digit == (y0 + b * yy1) + b * b * b * b * c4) by (nonlinear_arith)
            requires
                10 * x0 + digit == y0 + b * c1,
                10 * xx1 + c1 == yy1 + b * b * b * c4,
        ;
        assert(r@ + u256_modulus() * c4 == 10 * self@ + digit);
        proof {
            r.lemma_bound();
        }
        (r, c4 != 0)
    }
}

} // verus!
