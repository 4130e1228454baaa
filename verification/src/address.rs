use vstd::prelude::*;
use vstd::string::StringSliceAdditionalSpecFns;
use vstd::utf8::{encode_utf8, is_ascii_chars, is_ascii_chars_encode_utf8};

verus! {

/// A 20-byte account or contract address.
#[derive(Clone, Copy, Debug, PartialEq, Eq)]
pub struct Address {
    pub bytes: [u8; 20],
}

impl View for Address {
    type V = Seq<u8>;

    open spec fn view(&self) -> Seq<u8> {
        self.bytes@
    }
}

/// The lower-case hexadecimal digit of a value below 16.
pub open spec fn hex_digit_lower(n: nat) -> char {
    if n < 10 {
        (n + 48) as char
    } else {
        (n + 87) as char
    }
}

/// Two lower-case hexadecimal digits per byte.
pub open spec fn hex_lower(bytes: Seq<u8>) -> Seq<char>
    decreases bytes.len(),
{
    if bytes.len() == 0 {
        seq![]
    } else {
        hex_lower(bytes.drop_last()) + seq![
            hex_digit_lower((bytes.last() / 16) as nat),
            hex_digit_lower((bytes.last() % 16) as nat),
        ]
    }
}

/// How an address prints with `{:?}`: `0x` and forty lower-case hex digits.
pub open spec fn address_text(bytes: Seq<u8>) -> Seq<char> {
    seq!['0', 'x'] + hex_lower(bytes)
}

/// A hexadecimal digit byte, of either case.
pub open spec fn is_hex_byte(c: u8) -> bool {
    (48 <= c <= 57) || (65 <= c <= 70) || (97 <= c <= 102)
}

/// The value of a hexadecimal digit byte.
pub open spec fn hex_value(c: u8) -> nat {
    if 48 <= c <= 57 {
        (c - 48) as nat
    } else if 65 <= c <= 70 {
        (c - 55) as nat
    } else {
        (c - 87) as nat
    }
}

/// The whitespace bytes that hex decoding skips.
pub open spec fn is_hex_space(c: u8) -> bool {
    c == 32 || c == 13 || c == 10 || c == 9
}

/// The bytes of `s` without the whitespace that hex decoding skips.
pub open spec fn without_hex_spaces(s: Seq<u8>) -> Seq<u8>
    decreases s.len(),
{
    if s.len() == 0 {
        s
    } else if is_hex_space(s.last()) {
        without_hex_spaces(s.drop_last())
    } else {
        without_hex_spaces(s.drop_last()).push(s.last())
    }
}

/// The text after one leading `0x`, if there is one.
pub open spec fn strip_hex_prefix(s: Seq<u8>) -> Seq<u8> {
    if s.len() >= 2 && s[0] == 48 && s[1] == 120 {
        s.skip(2)
    } else {
        s
    }
}

/// The address that a text names: after one optional `0x`, and with spaces,
/// tabs and line breaks skipped, exactly forty hexadecimal digits of either
/// case, two per byte, most significant first.
pub open spec fn parse_address_bytes(s: Seq<u8>) -> Option<Seq<u8>> {
    let h = without_hex_spaces(strip_hex_prefix(s));
    if h.len() == 40 && (forall|i: int| 0 <= i < 40 ==> is_hex_byte(#[trigger] h[i])) {
        Some(Seq::new(20, |i: int| (hex_value(h[2 * i]) * 16 + hex_value(h[2 * i + 1])) as u8))
    } else {
        None
    }
}

/// `FromStr` of `ethers::types::Address` (`H160`): it strips one leading `0x`
/// and decodes the rest as hexadecimal, skipping spaces, tabs and line breaks,
/// and accepts exactly twenty bytes.
#[verifier::external_body]
fn h160_from_str(s: &str) -> (r: Option<Address>)
    ensures
        match r {
            Some(a) => parse_address_bytes(s.spec_bytes()) == Some(a@),
            None => parse_address_bytes(s.spec_bytes()) is None,
        },
{
    match s.parse::<ethers::types::Address>() {
        Ok(a) => Some(Address { bytes: a.0 }),
        Err(_) => None,
    }
}

/// The one-character string of a lower-case hexadecimal digit.
fn hex_digit_str(n: u8) -> (s: &'static str)
    requires
        n < 16,
    ensures
        s@ == seq![hex_digit_lower(n as nat)],
{
    proof {
        reveal_strlit("0");
        reveal_strlit("1");
        reveal_strlit("2");
        reveal_strlit("3");
        reveal_strlit("4");
        reveal_strlit("5");
        reveal_strlit("6");
        reveal_strlit("7");
        reveal_strlit("8");
        reveal_strlit("9");
        reveal_strlit("a");
        reveal_strlit("b");
        reveal_strlit("c");
        reveal_strlit("d");
        reveal_strlit("e");
        reveal_strlit("f");
    }
    match n {
        0 => "0",
        1 => "1",
        2 => "2",
        3 => "3",
        4 => "4",
        5 => "5",
        6 => "6",
        7 => "7",
        8 => "8",
        9 => "9",
        10 => "a",
        11 => "b",
        12 => "c",
        13 => "d",
        14 => "e",
        _ => "f",
    }
}

/// `0x` and two lower-case hex digits per byte, as `{:#x}` (and so `{:?}`)
/// of `ethers`' fixed-size hashes writes them.
fn hex_text(bytes: &[u8]) -> (s: String)
    ensures
        s@ == address_text(bytes@),
{
    proof {
        reveal_strlit("0x");
    }
    let mut s = "0x".to_owned();
    let mut i: usize = 0;
    while i < bytes.len()
        invariant
            i <= bytes@.len(),
            s@ == address_text(bytes@.take(i as int)),
        decreases bytes@.len() - i,
    {
        let b = bytes[i];
        assert(bytes@.take(i + 1).drop_last() =~= bytes@.take(i as int));
        assert(bytes@.take(i + 1).last() == b);
        s.append(hex_digit_str(b / 16));
        s.append(hex_digit_str(b % 16));
        i = i + 1;
    }
    assert(bytes@.take(bytes@.len() as int) =~= bytes@);
    s
}

impl Address {
    /// Parses an address as `str::parse::<Address>` does.
    pub fn parse(s: &str) -> (r: Option<Address>)
        ensures
            match r {
                Some(a) => parse_address_bytes(s.spec_bytes()) == Some(a@),
                None => parse_address_bytes(s.spec_bytes()) is None,
            },
    {
        h160_from_str(s)
    }

    /// The address as `{:?}` prints it.
    pub fn to_text(&self) -> (s: String)
        ensures
            s@ == address_text(self@),
    {
        hex_text(&self.bytes)
    }
}

/// Where each byte's two digits stand in its hex text.
proof fn lemma_hex_lower_layout(bytes: Seq<u8>)
    ensures
        hex_lower(bytes).len() == 2 * bytes.len(),
        forall|i: int|
            0 <= i < bytes.len() ==> hex_lower(bytes)[2 * i] == hex_digit_lower(
                (bytes[i] / 16) as nat,
            ) && hex_lower(bytes)[2 * i + 1] == hex_digit_lower((bytes[i] % 16) as nat),
    decreases bytes.len(),
{
    if bytes.len() > 0 {
        let p = bytes.drop_last();
        lemma_hex_lower_layout(p);
        let h = hex_lower(bytes);
        assert forall|i: int| 0 <= i < bytes.len() implies h[2 * i] == hex_digit_lower(
            (bytes[i] / 16) as nat,
        ) && h[2 * i + 1] == hex_digit_lower((bytes[i] % 16) as nat) by {
            if i < p.len() {
                assert(h[2 * i] == hex_lower(p)[2 * i]);
                assert(h[2 * i + 1] == hex_lower(p)[2 * i + 1]);
                assert(bytes[i] == p[i]);
            }
        }
    }
}

/// A hex digit written by `hex_digit_lower` is an ASCII hex digit of that value.
proof fn lemma_hex_digit_byte(n: nat)
    requires
        n < 16,
    ensures
        '\0' <= hex_digit_lower(n) <= '\u{7f}',
        is_hex_byte(hex_digit_lower(n) as u8),
        !is_hex_space(hex_digit_lower(n) as u8),
        hex_value(hex_digit_lower(n) as u8) == n,
{
}

/// A text without whitespace is left as it is.
proof fn lemma_without_hex_spaces_id(s: Seq<u8>)
    requires
        forall|i: int| 0 <= i < s.len() ==> !is_hex_space(#[trigger] s[i]),
    ensures
        without_hex_spaces(s) == s,
    decreases s.len(),
{
    if s.len() > 0 {
        let p = s.drop_last();
        assert forall|i: int| 0 <= i < p.len() implies !is_hex_space(#[trigger] p[i]) by {
            assert(p[i] == s[i]);
        }
        lemma_without_hex_spaces_id(p);
        assert(p.push(s.last()) =~= s);
    }
}

/// An address reads back from its printed form: parsing the text that `{:?}`
/// prints for an address gives the same address.
pub proof fn lemma_address_text_roundtrip(a: Address)
    ensures
        parse_address_bytes(encode_utf8(address_text(a@))) == Some(a@),
{
    let t = address_text(a@);
    let h = hex_lower(a@);
    lemma_hex_lower_layout(a@);
    assert forall|i: int| 0 <= i < t.len() implies '\0' <= #[trigger] t[i] <= '\u{7f}' by {
        if i >= 2 {
            let j = (i - 2) / 2;
            if (i - 2) % 2 == 0 {
                assert(i - 2 == 2 * j);
                lemma_hex_digit_byte((a@[j] / 16) as nat);
            } else {
                assert(i - 2 == 2 * j + 1);
                lemma_hex_digit_byte((a@[j] % 16) as nat);
            }
        }
    }
    assert(is_ascii_chars(t));
    is_ascii_chars_encode_utf8(t);
    let b = encode_utf8(t);
    assert(b.len() == 42);
    assert(b[0] == 48 && b[1] == 120);
    let rest = b.skip(2);
    assert(strip_hex_prefix(b) == rest);
    assert forall|i: int| 0 <= i < 40 implies rest[i] == h[i] as u8 && is_hex_byte(#[trigger] rest[i]) && !is_hex_space(rest[i]) by {
        assert(rest[i] == b[i + 2]);
        assert(t[i + 2] == h[i]);
        let j = i / 2;
        if i % 2 == 0 {
            assert(i == 2 * j);
            lemma_hex_digit_byte((a@[j] / 16) as nat);
        } else {
            assert(i == 2 * j + 1);
            lemma_hex_digit_byte((a@[j] % 16) as nat);
        }
    }
    lemma_without_hex_spaces_id(rest);
    let decoded = Seq::new(20, |i: int| (hex_value(rest[2 * i]) * 16 + hex_value(rest[2 * i + 1])) as u8);
    assert forall|i: int| 0 <= i < 20 implies decoded[i] == a@[i] by {
        lemma_hex_digit_byte((a@[i] / 16) as nat);
        lemma_hex_digit_byte((a@[i] % 16) as nat);
        assert(rest[2 * i] == h[2 * i] as u8);
        assert(rest[2 * i + 1] == h[2 * i + 1] as u8);
    }
    assert(decoded =~= a@);
}

/// A 32-byte transaction hash.
#[derive(Clone, Copy, Debug, PartialEq, Eq)]
pub struct TxHash {
    pub bytes: [u8; 32],
}

impl View for TxHash {
    type V = Seq<u8>;

    open spec fn view(&self) -> Seq<u8> {
        self.bytes@
    }
}

impl TxHash {
    /// The hash as `{:?}` prints it.
    pub fn to_text(&self) -> (s: String)
        ensures
            s@ == address_text(self@),
    {
        hex_text(&self.bytes)
    }
}

} // verus!
