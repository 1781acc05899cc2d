//! Decimal text of integers and the byte sink that the descriptor is written to.

use vstd::prelude::*;
use vstd::string::StringSliceAdditionalSpecFns;
use vstd::utf8::encode_utf8;

verus! {

/// The ASCII byte of the decimal digit `d`.
pub open spec fn digit_byte(d: nat) -> u8
    recommends
        d < 10,
{
    (48 + d) as u8
}

/// The decimal digits of `n`, most significant first, without leading zeros.
pub open spec fn decimal(n: nat) -> Seq<u8>
    decreases n,
{
    if n < 10 {
        seq![digit_byte(n)]
    } else {
        decimal(n / 10).push(digit_byte(n % 10))
    }
}

/// The decimal text of a signed value: a minus sign before the digits of a
/// negative one, no sign otherwise.
pub open spec fn signed_decimal(v: int) -> Seq<u8> {
    if v < 0 {
        seq![45u8] + decimal((-v) as nat)
    } else {
        decimal(v as nat)
    }
}

/// A flag as the single character `1` or `0`.
pub open spec fn flag_text(b: bool) -> Seq<u8> {
    if b {
        seq![49u8]
    } else {
        seq![48u8]
    }
}

/// The number that a run of decimal digits stands for.
pub open spec fn decimal_value(digits: Seq<u8>) -> nat
    decreases digits.len(),
{
    if digits.len() == 0 {
        0
    } else {
        (decimal_value(digits.drop_last()) * 10 + (digits.last() - 48)) as nat
    }
}

/// Every byte of `digits` is an ASCII digit.
pub open spec fn all_digits(digits: Seq<u8>) -> bool {
    forall|i: int| 0 <= i < digits.len() ==> 48 <= #[trigger] digits[i] <= 57
}

/// Reading the decimal text of a number gives the number back: the text is
/// not empty, holds digits only and has the value `n`.
pub proof fn lemma_decimal_round_trip(n: nat)
    ensures
        decimal(n).len() >= 1,
        all_digits(decimal(n)),
        decimal_value(decimal(n)) == n,
    decreases n,
{
    if n < 10 {
        let d = decimal(n);
        assert(d.drop_last() =~= Seq::<u8>::empty());
        assert(decimal_value(d.drop_last()) == 0);
    } else {
        lemma_decimal_round_trip(n / 10);
        let d = decimal(n);
        assert(d.drop_last() =~= decimal(n / 10));
    }
}

/// The text of a number of two or more digits does not start with `0`.
pub proof fn lemma_decimal_no_leading_zero(n: nat)
    ensures
        n >= 10 ==> decimal(n)[0] != 48,
        n < 10 ==> decimal(n).len() == 1,
        decimal(n).len() >= 1,
    decreases n,
{
    if n >= 10 {
        lemma_decimal_no_leading_zero(n / 10);
        if n / 10 < 10 {
            assert(decimal(n / 10)[0] == digit_byte(n / 10));
        }
    }
}

/// Appends the decimal digits of `value` to `out`.
pub fn push_decimal(out: &mut Vec<u8>, value: u64)
    ensures
        final(out)@ == old(out)@ + decimal(value as nat),
    decreases value,
{
    if value >= 10 {
        push_decimal(out, value / 10);
    }
    let digit: u8 = (value % 10) as u8;
    out.push(48u8 + digit);
    assert(out@ =~= old(out)@ + decimal(value as nat));
}

/// Appends the bytes of `bytes` to `out`.
pub fn push_bytes(out: &mut Vec<u8>, bytes: &[u8])
    ensures
        final(out)@ == old(out)@ + bytes@,
{
    let mut i: usize = 0;
    while i < bytes.len()
        invariant
            i <= bytes.len(),
            out@ == old(out)@ + bytes@.subrange(0, i as int),
        decreases bytes.len() - i,
    {
        out.push(bytes[i]);
        i += 1;
        assert(out@ =~= old(out)@ + bytes@.subrange(0, i as int));
    }
    assert(bytes@.subrange(0, i as int) =~= bytes@);
}

/// Writes text and numbers, as the descriptor wants them, to a byte buffer.
pub struct PrintWriter {
    buffer: Vec<u8>,
}

impl PrintWriter {
    /// The bytes written so far.
    pub closed spec fn view(&self) -> Seq<u8> {
        self.buffer@
    }

    /// A writer that goes on after the bytes of `buffer`.
    pub fn new(buffer: Vec<u8>) -> (out: PrintWriter)
        ensures
            out@ == buffer@,
    {
        PrintWriter { buffer }
    }

    /// Hands the buffer back.
    pub fn into_bytes(self) -> (bytes: Vec<u8>)
        ensures
            bytes@ == self@,
    {
        self.buffer
    }

    /// Appends the UTF-8 bytes of `text`.
    pub fn write_str(&mut self, text: &str)
        ensures
            final(self)@ == old(self)@ + text.spec_bytes(),
    {
        push_bytes(&mut self.buffer, text.as_bytes());
    }

    /// Appends the UTF-8 bytes of `text`.
    pub fn write_string(&mut self, text: &String)
        ensures
            final(self)@ == old(self)@ + encode_utf8(text@),
    {
        push_bytes(&mut self.buffer, text.as_str().as_bytes());
    }

    /// Appends `1` for true and `0` for false.
    pub fn write_bool(&mut self, value: bool)
        ensures
            final(self)@ == old(self)@ + flag_text(value),
    {
        let digit: u8 = if value { 49 } else { 48 };
        self.buffer.push(digit);
        assert(self.buffer@ =~= old(self).buffer@ + flag_text(value));
    }

    /// Appends the decimal digits of `value`.
    pub fn write_u8(&mut self, value: u8)
        ensures
            final(self)@ == old(self)@ + decimal(value as nat),
    {
        push_decimal(&mut self.buffer, value as u64);
    }

    /// Appends the decimal text of `value`, with a minus sign if it is negative.
    pub fn write_i32(&mut self, value: i32)
        ensures
            final(self)@ == old(self)@ + signed_decimal(value as int),
    {
        if value < 0 {
            self.buffer.push(45u8);
            let magnitude: u64 = (-(value as i64)) as u64;
            push_decimal(&mut self.buffer, magnitude);
            assert(self.buffer@ =~= old(self).buffer@ + signed_decimal(value as int));
        } else {
            push_decimal(&mut self.buffer, value as u64);
        }
    }

    /// Appends the decimal digits of `value`.
    pub fn write_u32(&mut self, value: u32)
        ensures
            final(self)@ == old(self)@ + decimal(value as nat),
    {
        push_decimal(&mut self.buffer, value as u64);
    }

    /// Appends the decimal digits of `value`.
    pub fn write_u64(&mut self, value: u64)
        ensures
            final(self)@ == old(self)@ + decimal(value as nat),
    {
        push_decimal(&mut self.buffer, value);
    }

    /// Appends the decimal digits of `value`.
    pub fn write_usize(&mut self, value: usize)
        ensures
            final(self)@ == old(self)@ + decimal(value as nat),
    {
        push_decimal(&mut self.buffer, value as u64);
    }
}

} // verus!
