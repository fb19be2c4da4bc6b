//! Text as UTF-16 code units, the form in which Windows hands strings to
//! processes, and the conversions this library needs into that form.
use vstd::prelude::*;

verus! {

/// The UTF-16 code units of one character.
pub open spec fn utf16_of_char(c: char) -> Seq<u16> {
    if (c as u32) < 0x10000 {
        seq![c as u16]
    } else {
        let v = (c as u32) - 0x10000;
        seq![(0xd800 + v / 0x400) as u16, (0xdc00 + v % 0x400) as u16]
    }
}

/// The UTF-16 encoding of a sequence of characters.
pub open spec fn utf16_encode(s: Seq<char>) -> Seq<u16>
    decreases s.len(),
{
    if s.len() == 0 {
        seq![]
    } else {
        utf16_encode(s.drop_last()) + utf16_of_char(s.last())
    }
}

/// Calls `str::encode_utf16` and collects the code units. Its contract
/// claims what the standard library documents: the string encoded as UTF-16,
/// character by character, with characters above U+FFFF written as a
/// surrogate pair.
#[verifier::external_body]
pub(crate) fn encode_utf16(s: &str) -> (res: Vec<u16>)
    ensures
        res@ == utf16_encode(s@),
{
    s.encode_utf16().collect()
}

/// The code units of an optional text.
pub open spec fn opt_units(o: Option<Vec<u16>>) -> Option<Seq<u16>> {
    match o {
        Some(v) => Some(v@),
        None => None,
    }
}

/// The UTF-16 code unit of an ASCII digit.
pub open spec fn digit(d: nat) -> u16 {
    (0x30 + d) as u16
}

/// The decimal representation of `n`, without leading zeros.
pub open spec fn decimal(n: nat) -> Seq<u16>
    decreases n,
{
    if n < 10 {
        seq![digit(n)]
    } else {
        decimal(n / 10).push(digit(n % 10))
    }
}

/// The decimal representation of `n` as UTF-16 code units, as `u32`'s
/// `Display` writes it.
pub fn decimal_u32(n: u32) -> (res: Vec<u16>)
    ensures
        res@ == decimal(n as nat),
    decreases n,
{
    if n < 10 {
        let mut v: Vec<u16> = Vec::new();
        v.push(0x30 + n as u16);
        v
    } else {
        let mut v = decimal_u32(n / 10);
        v.push(0x30 + (n % 10) as u16);
        v
    }
}

/// The number that the decimal digits `ds` stand for.
pub open spec fn digits_value(ds: Seq<u16>) -> int
    decreases ds.len(),
{
    if ds.len() == 0 {
        0
    } else {
        digits_value(ds.drop_last()) * 10 + (ds.last() - 0x30)
    }
}

/// The decimal form of `n` is a non-empty run of ASCII digits, without a
/// leading zero unless it is `0` itself, that stands for `n`.
pub proof fn law_decimal(n: nat)
    ensures
        decimal(n).len() > 0,
        forall|i: int| 0 <= i < decimal(n).len() ==> 0x30 <= #[trigger] decimal(n)[i] <= 0x39,
        decimal(n).len() > 1 ==> decimal(n)[0] != 0x30,
        n > 0 ==> decimal(n)[0] != 0x30,
        digits_value(decimal(n)) == n,
    decreases n,
{
    if n < 10 {
        assert(decimal(n).drop_last() =~= Seq::<u16>::empty());
        assert(digits_value(Seq::<u16>::empty()) == 0);
    } else {
        law_decimal(n / 10);
        let d = decimal(n / 10);
        assert(decimal(n) == d.push(digit(n % 10)));
        assert(decimal(n).drop_last() =~= d);
        assert(decimal(n)[0] == d[0]);
        assert(n == (n / 10) * 10 + n % 10);
        assert(digit(n % 10) - 0x30 == n % 10);
        assert(digits_value(decimal(n)) == digits_value(d) * 10 + n % 10);
    }
}

/// A text of characters below U+10000 has one code unit per character: the
/// character's own number.
pub proof fn lemma_utf16_bmp(s: Seq<char>)
    requires
        forall|i: int| 0 <= i < s.len() ==> (#[trigger] s[i] as u32) < 0x10000,
    ensures
        utf16_encode(s) == Seq::new(s.len(), |i: int| s[i] as u16),
    decreases s.len(),
{
    if s.len() > 0 {
        lemma_utf16_bmp(s.drop_last());
        assert(utf16_encode(s) =~= Seq::new(s.len(), |i: int| s[i] as u16));
    } else {
        assert(utf16_encode(s) =~= Seq::new(s.len(), |i: int| s[i] as u16));
    }
}

} // verus!
