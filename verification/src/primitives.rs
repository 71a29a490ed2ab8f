//! Plain-value models of the EVM words the SDK handles: 20-byte addresses,
//! 256-bit unsigned integers and 32-byte hashes, with their textual forms.

use vstd::arithmetic::power::pow;
use vstd::prelude::*;
use vstd::string::StringExecFns;

verus! {

/// An Ethereum address, 20 bytes in length.
#[derive(Debug, Clone, Copy, PartialEq, Eq, Hash)]
pub struct Address(pub [u8; 20]);

/// A 256-bit unsigned integer, as four little-endian 64-bit limbs.
#[derive(Debug, Clone, Copy, PartialEq, Eq, Hash)]
pub struct U256 {
    /// The limbs, least significant first.
    pub limbs: [u64; 4],
}

/// A 32-byte word, such as a deliverable reference or an attestation reason.
#[derive(Debug, Clone, Copy, PartialEq, Eq, Hash)]
pub struct B256(pub [u8; 32]);

/// The character of a decimal digit.
pub open spec fn digit_char(d: int) -> char {
    seq!['0', '1', '2', '3', '4', '5', '6', '7', '8', '9'][d]
}

/// The decimal representation of a natural number, without leading zeros.
pub open spec fn decimal(n: nat) -> Seq<char>
    decreases n,
{
    if n < 10 {
        seq![digit_char(n as int)]
    } else {
        decimal(n / 10).push(digit_char((n % 10) as int))
    }
}

/// The value of four little-endian 64-bit limbs.
pub open spec fn limbs_value(l: Seq<u64>) -> nat {
    (l[0] + l[1] * 0x1_0000_0000_0000_0000nat + l[2] * 0x1_0000_0000_0000_0000_0000_0000_0000_0000nat
        + l[3] * 0x1_0000_0000_0000_0000_0000_0000_0000_0000_0000_0000_0000_0000nat) as nat
}

/// The value of a byte string read as a big-endian unsigned integer.
pub open spec fn be_value(s: Seq<u8>) -> nat
    decreases s.len(),
{
    if s.len() == 0 {
        0
    } else {
        be_value(s.drop_last()) * 256 + s.last() as nat
    }
}

/// A big-endian byte string is below `256` to the power of its length.
pub proof fn lemma_be_value_bound(s: Seq<u8>)
    ensures
        be_value(s) < pow(256, s.len()),
    decreases s.len(),
{
    reveal(pow);
    if s.len() > 0 {
        lemma_be_value_bound(s.drop_last());
        let v = be_value(s.drop_last());
        let p = pow(256, (s.len() - 1) as nat);
        assert(pow(256, s.len()) == 256 * p);
        assert(v * 256 + (s.last() as nat) < 256 * p) by (nonlinear_arith)
            requires
                v < p,
                s.last() < 256,
        ;
    }
}

/// Reading a concatenation big-endian: the leading part is shifted by the
/// length of the trailing part.
pub proof fn lemma_be_value_concat(a: Seq<u8>, c: Seq<u8>)
    ensures
        be_value(a + c) == be_value(a) * pow(256, c.len()) + be_value(c),
    decreases c.len(),
{
    reveal(pow);
    if c.len() == 0 {
        assert(a + c =~= a);
    } else {
        let c1 = c.drop_last();
        assert((a + c).drop_last() =~= a + c1);
        assert((a + c).last() == c.last());
        lemma_be_value_concat(a, c1);
        let va = be_value(a);
        let p1 = pow(256, c1.len());
        assert(pow(256, c.len()) == 256 * p1);
        assert((va * p1 + be_value(c1)) * 256 + c.last() as nat == va * (256 * p1) + (be_value(
            c1,
        ) * 256 + c.last() as nat)) by (nonlinear_arith);
    }
}

/// `256` to the power of 8, 16 and 24, as limb weights.
pub proof fn lemma_limb_weights()
    ensures
        pow(256, 8) == 0x1_0000_0000_0000_0000nat,
        pow(256, 16) == 0x1_0000_0000_0000_0000_0000_0000_0000_0000nat,
        pow(256, 24) == 0x1_0000_0000_0000_0000_0000_0000_0000_0000_0000_0000_0000_0000nat,
{
    reveal_with_fuel(pow, 25);
}

/// The value of a decimal digit character.
pub open spec fn digit_value(c: char) -> int {
    c as int - '0' as int
}

/// The value of a string of decimal digits read positionally, most
/// significant digit first.
pub open spec fn digits_value(s: Seq<char>) -> int
    decreases s.len(),
{
    if s.len() == 0 {
        0
    } else {
        digits_value(s.drop_last()) * 10 + digit_value(s.last())
    }
}

/// Each digit character is worth its digit.
proof fn lemma_digit_char_value(d: int)
    requires
        0 <= d < 10,
    ensures
        digit_value(digit_char(d)) == d,
        '0' <= digit_char(d) <= '9',
        digit_char(d) == '0' <==> d == 0,
{
    assert('0' as int == 48 && '1' as int == 49 && '2' as int == 50 && '3' as int == 51
        && '4' as int == 52 && '5' as int == 53 && '6' as int == 54 && '7' as int == 55
        && '8' as int == 56 && '9' as int == 57);
    let t = seq!['0', '1', '2', '3', '4', '5', '6', '7', '8', '9'];
    if d == 0 { assert(digit_char(d) == t[0]); }
    else if d == 1 { assert(digit_char(d) == t[1]); }
    else if d == 2 { assert(digit_char(d) == t[2]); }
    else if d == 3 { assert(digit_char(d) == t[3]); }
    else if d == 4 { assert(digit_char(d) == t[4]); }
    else if d == 5 { assert(digit_char(d) == t[5]); }
    else if d == 6 { assert(digit_char(d) == t[6]); }
    else if d == 7 { assert(digit_char(d) == t[7]); }
    else if d == 8 { assert(digit_char(d) == t[8]); }
    else { assert(digit_char(d) == t[9]); }
}

/// `decimal(n)` is the decimal numeral of `n`: it is made of the characters
/// `'0'` to `'9'` only, read positionally it is worth `n`, and it has no
/// leading zero (zero itself is the single digit `"0"`).
pub proof fn lemma_decimal_is_numeral(n: nat)
    ensures
        decimal(n).len() >= 1,
        forall|i: int| 0 <= i < decimal(n).len() ==> '0' <= #[trigger] decimal(n)[i] <= '9',
        digits_value(decimal(n)) == n,
        decimal(n)[0] == '0' ==> n == 0 && decimal(n).len() == 1,
    decreases n,
{
    if n < 10 {
        lemma_digit_char_value(n as int);
        let s = decimal(n);
        assert(s =~= seq![digit_char(n as int)]);
        assert(s.drop_last() =~= Seq::<char>::empty());
        assert(digits_value(s.drop_last()) == 0);
        assert(s.last() == digit_char(n as int));
        assert(digits_value(s) == digits_value(s.drop_last()) * 10 + digit_value(s.last()));
    } else {
        lemma_decimal_is_numeral(n / 10);
        lemma_digit_char_value((n % 10) as int);
        let p = decimal(n / 10);
        let s = decimal(n);
        assert(s == p.push(digit_char((n % 10) as int)));
        assert(s.drop_last() =~= p);
        assert(s[0] == p[0]);
        assert(digits_value(s) == digits_value(p) * 10 + digit_value(s.last()));
        assert(s.last() == digit_char((n % 10) as int));
        assert(digits_value(s) == (n / 10) * 10 + n % 10);
        assert forall|i: int| 0 <= i < s.len() implies '0' <= #[trigger] s[i] <= '9' by {
            if i < p.len() {
                assert(s[i] == p[i]);
            }
        }
    }
}

/// The value of four limbs weighs each limb by its position: limb `k` counts
/// `256^(8k)` times.
pub proof fn lemma_limbs_value_positional(l: Seq<u64>)
    ensures
        limbs_value(l) == l[0] + l[1] * pow(256, 8) + l[2] * pow(256, 16) + l[3] * pow(256, 24),
{
    lemma_limb_weights();
}

/// The lower-case hexadecimal character of a nibble.
pub open spec fn hex_lower(d: int) -> char {
    seq!['0', '1', '2', '3', '4', '5', '6', '7', '8', '9', 'a', 'b', 'c', 'd', 'e', 'f'][d]
}

/// The upper-case hexadecimal character of a nibble.
pub open spec fn hex_upper(d: int) -> char {
    seq!['0', '1', '2', '3', '4', '5', '6', '7', '8', '9', 'A', 'B', 'C', 'D', 'E', 'F'][d]
}

/// The `i`-th nibble of a byte string, most significant nibble of each byte first.
pub open spec fn nibble(bytes: Seq<u8>, i: int) -> int {
    if i % 2 == 0 {
        bytes[i / 2] as int / 16
    } else {
        bytes[i / 2] as int % 16
    }
}

/// The two nibbles of each byte recompose it: the high one counts sixteen
/// times, and both are hexadecimal digits.
pub proof fn lemma_nibbles_recompose(bytes: Seq<u8>, k: int)
    requires
        0 <= k < bytes.len(),
    ensures
        nibble(bytes, 2 * k) * 16 + nibble(bytes, 2 * k + 1) == bytes[k] as int,
        0 <= nibble(bytes, 2 * k) < 16,
        0 <= nibble(bytes, 2 * k + 1) < 16,
{
    assert((2 * k) % 2 == 0 && (2 * k) / 2 == k);
    assert((2 * k + 1) % 2 == 1 && (2 * k + 1) / 2 == k);
}

/// A character that spells nibble `d` in hexadecimal, in either case where
/// the digit is a letter.
pub open spec fn spells_nibble(c: char, d: int) -> bool {
    c == hex_lower(d) || c == hex_upper(d)
}

/// The EIP-55 checksummed text of an address: `0x` followed by its forty
/// hexadecimal digits, each letter's case chosen by the address's hash.
pub uninterp spec fn eip55_text(bytes: Seq<u8>) -> Seq<char>;

/// What every EIP-55 text of `bytes` looks like: `0x` and one hexadecimal
/// digit per nibble, in order.
pub open spec fn is_hex_text_of(text: Seq<char>, bytes: Seq<u8>) -> bool {
    &&& text.len() == 2 + 2 * bytes.len()
    &&& text[0] == '0'
    &&& text[1] == 'x'
    &&& forall|i: int| 0 <= i < 2 * bytes.len() ==> spells_nibble(#[trigger] text[2 + i], nibble(bytes, i))
}

/// Calls `alloy::primitives::Address::to_checksum` with no chain id.
///
/// alloy writes `0x`, then the lower-case hex encoding of the 20 bytes, and
/// turns a digit to upper case when it is a letter and the matching nibble of
/// the Keccak-256 hash of the lower-case digits is at least 8. The contract
/// names the result and states its shape; which letters are upper case is
/// left unsaid, since it rests on the hash.
#[verifier::external_body]
fn checksum_text(bytes: [u8; 20]) -> (r: String)
    ensures
        r@ == eip55_text(bytes@),
        is_hex_text_of(r@, bytes@),
{
    alloy::primitives::Address::new(bytes).to_checksum(None)
}

/// Calls `Display` of `alloy::primitives::U256` (ruint's `Uint<256, 4>`), built
/// from the same little-endian limbs.
///
/// ruint prints the value in decimal, without sign, prefix or leading zeros.
#[verifier::external_body]
fn u256_decimal_text(limbs: [u64; 4]) -> (r: String)
    ensures
        r@ == decimal(limbs_value(limbs@)),
{
    alloy::primitives::U256::from_limbs(limbs).to_string()
}

/// The text of one decimal digit.
fn digit_str(d: u64) -> (r: &'static str)
    requires
        d < 10,
    ensures
        r@ == seq![digit_char(d as int)],
{
    proof {
        reveal_strlit("0");
        reveal_strlit("1");
        reveal_strlit("2");
        reveal_strlit("3");
        reveal_strlit("4");
        reveal_strlit("5");
        reveal_strlit("6");
        reveal_strlit("7");
        reveal_strlit("8");
        reveal_strlit("9");
    }
    match d {
        0 => "0",
        1 => "1",
        2 => "2",
        3 => "3",
        4 => "4",
        5 => "5",
        6 => "6",
        7 => "7",
        8 => "8",
        _ => "9",
    }
}

/// Appends the decimal representation of `n` to `s`.
pub fn push_decimal(s: &mut String, n: u64)
    ensures
        final(s)@ == old(s)@ + decimal(n as nat),
    decreases n,
{
    if n >= 10 {
        push_decimal(s, n / 10);
    }
    let d = digit_str(n % 10);
    s.append(d);
    assert(final(s)@ == old(s)@ + decimal(n as nat)) by {
        if n >= 10 {
            assert(decimal(n as nat) == decimal((n / 10) as nat).push(digit_char((n % 10) as int)));
        }
    }
}

impl Address {
    /// The zero address.
    pub fn zero() -> (r: Address)
        ensures
            r.0@ == Seq::new(20, |_i: int| 0u8),
    {
        Address([0u8; 20])
    }

    /// An address whose twenty bytes all equal `byte`.
    pub fn repeat_byte(byte: u8) -> (r: Address)
        ensures
            r.0@ == Seq::new(20, |_i: int| byte),
    {
        Address([byte; 20])
    }

    /// Returns `true` if every byte of the address is zero.
    pub fn is_zero(&self) -> (r: bool)
        ensures
            r <==> (forall|i: int| 0 <= i < 20 ==> self.0@[i] == 0u8),
    {
        let mut i: usize = 0;
        while i < 20
            invariant
                i <= 20,
                forall|j: int| 0 <= j < i ==> self.0@[j] == 0u8,
            decreases 20 - i,
        {
            if self.0[i] != 0 {
                return false;
            }
            i = i + 1;
        }
        true
    }

    /// The EIP-55 checksummed text of the address, as its `Display` prints it.
    pub fn to_string(&self) -> (r: String)
        ensures
            r@ == eip55_text(self.0@),
            is_hex_text_of(r@, self.0@),
    {
        checksum_text(self.0)
    }
}

impl U256 {
    /// Zero.
    pub fn zero() -> (r: U256)
        ensures
            r.value() == 0,
            r.limbs@ == Seq::new(4, |_i: int| 0u64),
    {
        U256 { limbs: [0u64; 4] }
    }

    /// The integer value.
    pub open spec fn value(&self) -> nat {
        limbs_value(self.limbs@)
    }

    /// The decimal text of the value, as its `Display` prints it.
    pub fn to_string(&self) -> (r: String)
        ensures
            r@ == decimal(self.value()),
    {
        u256_decimal_text(self.limbs)
    }
}

/// The big-endian value of the eight bytes of `b` starting at `start`.
fn be_u64(b: &[u8; 32], start: usize) -> (r: u64)
    requires
        start + 8 <= 32,
    ensures
        r == be_value(b@.subrange(start as int, start + 8)),
{
    let mut acc: u64 = 0;
    let mut j: usize = 0;
    while j < 8
        invariant
            j <= 8,
            start + 8 <= 32,
            acc == be_value(b@.subrange(start as int, start + j)),
        decreases 8 - j,
    {
        proof {
            lemma_be_value_bound(b@.subrange(start as int, start + j));
            lemma_limb_weights();
            reveal(pow);
            assert(pow(256, j as nat) <= pow(256, 7)) by {
                vstd::arithmetic::power::lemma_pow_increases(256, j as nat, 7);
            }
            assert(pow(256, 8) == 256 * pow(256, 7));
            assert(acc * 256 + 255 < pow(256, 8)) by (nonlinear_arith)
                requires
                    acc < pow(256, j as nat),
                    pow(256, j as nat) <= pow(256, 7),
                    pow(256, 8) == 256 * pow(256, 7),
            ;
            assert(b@.subrange(start as int, start + j + 1).drop_last() =~= b@.subrange(
                start as int,
                start + j,
            ));
        }
        acc = acc * 256 + b[start + j] as u64;
        j = j + 1;
    }
    acc
}

impl U256 {
    /// The integer whose big-endian encoding is `bytes`, as an ABI word holds it.
    pub fn from_be_bytes(bytes: [u8; 32]) -> (r: U256)
        ensures
            r.value() == be_value(bytes@),
    {
        let l3 = be_u64(&bytes, 0);
        let l2 = be_u64(&bytes, 8);
        let l1 = be_u64(&bytes, 16);
        let l0 = be_u64(&bytes, 24);
        let r = U256 { limbs: [l0, l1, l2, l3] };
        proof {
            let s = bytes@;
            let s0 = s.subrange(0, 8);
            let s1 = s.subrange(8, 16);
            let s2 = s.subrange(16, 24);
            let s3 = s.subrange(24, 32);
            assert(s =~= ((s0 + s1) + s2) + s3);
            lemma_be_value_concat((s0 + s1) + s2, s3);
            lemma_be_value_concat(s0 + s1, s2);
            lemma_be_value_concat(s0, s1);
            lemma_limb_weights();
            let w: nat = 0x1_0000_0000_0000_0000nat;
            assert(((be_value(s0) * w + be_value(s1)) * w + be_value(s2)) * w + be_value(s3)
                == be_value(s3) + be_value(s2) * w + be_value(s1) * (w * w) + be_value(s0) * (w
                * w * w)) by (nonlinear_arith);
            assert(w * w == 0x1_0000_0000_0000_0000_0000_0000_0000_0000nat);
            assert(w * w * w == 0x1_0000_0000_0000_0000_0000_0000_0000_0000_0000_0000_0000_0000nat);
            assert(r.limbs@ =~= seq![l0, l1, l2, l3]);
        }
        r
    }
}

impl From<u64> for U256 {
    fn from(v: u64) -> (r: U256) {
        U256 { limbs: [v, 0, 0, 0] }
    }
}

impl vstd::std_specs::convert::FromSpecImpl<u64> for U256 {
    open spec fn obeys_from_spec() -> bool {
        true
    }

    open spec fn from_spec(v: u64) -> U256 {
        U256 { limbs: [v, 0, 0, 0] }
    }
}

impl B256 {
    /// The all-zero word.
    pub fn zero() -> (r: B256)
        ensures
            r.0@ == Seq::new(32, |_i: int| 0u8),
    {
        B256([0u8; 32])
    }
}

} // verus!
