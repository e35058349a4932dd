//! Primitive PDF objects and how they are written.

use vstd::prelude::*;
use vstd::string::is_ascii;

use crate::encode::{
    abs, all_ascii, ascii, padded_digits, real_enc, trim_zeros, zeros, DOT, hex_digit, hex_pair, int_enc, is_regular, name_byte_enc, name_enc,
    name_escape, name_plain, nat_digits, str_byte_enc, str_enc, str_escape, hex_body, BACKSLASH,
    HASH, LANGLE, LPAREN, MINUS, RANGLE, RPAREN, SLASH, SPACE, ZERO,
};

verus! {

/// The bytes of a static ASCII text.
pub(crate) fn static_bytes(s: &'static str) -> (b: &'static [u8])
    requires
        is_ascii(s),
    ensures
        b@ == ascii(s@),
{
    proof {
        vstd::string::is_ascii_spec_bytes(s);
    }
    let b = s.as_bytes();
    assert(b@ =~= ascii(s@));
    b
}

/// Appends all of `bytes`.
pub(crate) fn push_all(buf: &mut Vec<u8>, bytes: &[u8])
    ensures
        final(buf)@ == old(buf)@ + bytes@,
{
    let mut i: usize = 0;
    while i < bytes.len()
        invariant
            i <= bytes@.len(),
            buf@ == old(buf)@ + bytes@.take(i as int),
        decreases bytes@.len() - i,
    {
        buf.push(bytes[i]);
        i += 1;
        assert(bytes@.take(i as int) =~= bytes@.take(i - 1) + seq![bytes@[i - 1]]);
    }
    assert(bytes@.take(i as int) =~= bytes@);
}

/// A value that can be written as a PDF object.
pub trait Primitive: Sized {
    /// The bytes that the value is written as.
    spec fn encoding(&self) -> Seq<u8>;

    /// Write the value into a buffer.
    fn write(self, buf: &mut Vec<u8>)
        ensures
            final(buf)@ == old(buf)@ + self.encoding(),
    ;
}

impl Primitive for bool {
    open spec fn encoding(&self) -> Seq<u8> {
        if *self {
            ascii("true"@)
        } else {
            ascii("false"@)
        }
    }

    fn write(self, buf: &mut Vec<u8>) {
        proof {
            reveal_strlit("true");
            reveal_strlit("false");
        }
        if self {
            push_all(buf, static_bytes("true"));
        } else {
            push_all(buf, static_bytes("false"));
        }
    }
}

/// Appends the decimal digits of `n`.
fn push_digits(buf: &mut Vec<u8>, n: u64)
    ensures
        final(buf)@ == old(buf)@ + nat_digits(n as nat),
    decreases n,
{
    if n >= 10 {
        push_digits(buf, n / 10);
    }
    buf.push(ZERO + (n % 10) as u8);
}

/// Appends `n` zero digits.
fn push_zeros(buf: &mut Vec<u8>, n: usize)
    ensures
        final(buf)@ == old(buf)@ + zeros(n as nat),
{
    let mut i: usize = 0;
    while i < n
        invariant
            i <= n,
            buf@ == old(buf)@ + zeros(i as nat),
        decreases n - i,
    {
        buf.push(ZERO);
        i += 1;
        assert(zeros(i as nat) =~= zeros((i - 1) as nat) + seq![ZERO]);
    }
}

/// Appends the bytes of `src` from `from` up to `to`.
fn push_range(buf: &mut Vec<u8>, src: &[u8], from: usize, to: usize)
    requires
        from <= to <= src@.len(),
    ensures
        final(buf)@ == old(buf)@ + src@.subrange(from as int, to as int),
{
    let mut i: usize = from;
    while i < to
        invariant
            from <= i <= to,
            to <= src@.len(),
            buf@ == old(buf)@ + src@.subrange(from as int, i as int),
        decreases to - i,
    {
        buf.push(src[i]);
        i += 1;
        assert(src@.subrange(from as int, i as int) =~= src@.subrange(from as int, i - 1) + seq![src@[i - 1]]);
    }
}

impl Primitive for i32 {
    open spec fn encoding(&self) -> Seq<u8> {
        int_enc(*self as int)
    }

    fn write(self, buf: &mut Vec<u8>) {
        if self < 0 {
            buf.push(MINUS);
            let magnitude: i64 = -(self as i64);
            push_digits(buf, magnitude as u64);
        } else {
            push_digits(buf, self as u64);
        }
    }
}

/// A real number, `units / 10^scale`, written in decimal.
#[derive(Clone, Copy, Debug, PartialEq, Eq, Structural, Hash)]
pub struct Real {
    /// The number times `10^scale`.
    pub units: i64,
    /// How many decimal places `units` holds.
    pub scale: u8,
}

impl Real {
    /// The number `units / 10^scale`.
    pub fn new(units: i64, scale: u8) -> (r: Real)
        ensures
            r.units == units,
            r.scale == scale,
    {
        Real { units, scale }
    }

    /// Whether the number is below zero.
    pub open spec fn is_negative(self) -> bool {
        self.units < 0
    }
}

impl Primitive for Real {
    open spec fn encoding(&self) -> Seq<u8> {
        real_enc(self.units as int, self.scale as nat)
    }

    fn write(self, buf: &mut Vec<u8>) {
        let padded = padded_digits_of(self.units, self.scale);
        let split = padded.len() - self.scale as usize;
        let end = fraction_end(padded.as_slice(), split);
        let ghost start = buf@;
        if self.units < 0 {
            buf.push(MINUS);
        }
        push_range(buf, padded.as_slice(), 0, split);
        if end > split {
            buf.push(DOT);
            push_range(buf, padded.as_slice(), split, end);
        }
        assert(buf@ =~= start + self.encoding());
    }
}

/// The digits of `|units|` with zeros in front, so that at least one digit
/// stands before the last `scale` ones.
fn padded_digits_of(units: i64, scale: u8) -> (v: Vec<u8>)
    ensures
        v@ == padded_digits(units as int, scale as nat),
{
    let magnitude: u64 = if units < 0 {
        (-(units as i128)) as u64
    } else {
        units as u64
    };
    assert(magnitude == abs(units as int));
    let mut digits: Vec<u8> = Vec::new();
    push_digits(&mut digits, magnitude);
    let scale = scale as usize;
    let mut padded: Vec<u8> = Vec::new();
    if digits.len() <= scale {
        push_zeros(&mut padded, scale + 1 - digits.len());
    }
    push_all(&mut padded, digits.as_slice());
    assert(padded@ =~= padded_digits(units as int, scale as nat));
    padded
}

/// Where the fraction digits from `split` on end once the zeros that end
/// them are dropped.
fn fraction_end(padded: &[u8], split: usize) -> (end: usize)
    requires
        split <= padded@.len(),
    ensures
        split <= end <= padded@.len(),
        trim_zeros(padded@.subrange(split as int, padded@.len() as int)) == padded@.subrange(
            split as int,
            end as int,
        ),
{
    let mut end = padded.len();
    while end > split && padded[end - 1] == ZERO
        invariant
            split <= end <= padded@.len(),
            trim_zeros(padded@.subrange(split as int, end as int)) == trim_zeros(
                padded@.subrange(split as int, padded@.len() as int),
            ),
        decreases end,
    {
        assert(padded@.subrange(split as int, end as int).drop_last() =~= padded@.subrange(
            split as int,
            end - 1,
        ));
        end -= 1;
    }
    end
}

/// A name object, written as `/` and its bytes, each escaped where needed.
#[derive(Clone, Copy, Debug, PartialEq, Eq, Hash)]
pub struct Name<'a>(pub &'a [u8]);

/// Whether `b` is neither white space nor a delimiter.
fn regular(b: u8) -> (r: bool)
    ensures
        r == is_regular(b),
{
    !(b == 0 || b == 9 || b == 10 || b == 12 || b == 13 || b == 32 || b == 40 || b == 41 || b
        == 60 || b == 62 || b == 91 || b == 93 || b == 123 || b == 125 || b == 47 || b == 37)
}

/// An upper-case hexadecimal digit.
fn hex(n: u8) -> (r: u8)
    requires
        n < 16,
    ensures
        r == hex_digit(n),
{
    if n < 10 {
        ZERO + n
    } else {
        55 + n
    }
}

/// Appends the two hexadecimal digits of `b`.
fn push_hex(buf: &mut Vec<u8>, b: u8)
    ensures
        final(buf)@ == old(buf)@ + hex_pair(b),
{
    buf.push(hex(b / 16));
    buf.push(hex(b % 16));
    assert(final(buf)@ =~= old(buf)@ + hex_pair(b));
}

impl<'a> Primitive for Name<'a> {
    open spec fn encoding(&self) -> Seq<u8> {
        name_enc(self.0@)
    }

    fn write(self, buf: &mut Vec<u8>) {
        buf.push(SLASH);
        let mut i: usize = 0;
        while i < self.0.len()
            invariant
                i <= self.0@.len(),
                buf@ == old(buf)@ + seq![SLASH] + name_escape(self.0@.take(i as int)),
            decreases self.0@.len() - i,
        {
            let b = self.0[i];
            let ghost before = buf@;
            if b != HASH && 33 <= b && b <= 126 && regular(b) {
                buf.push(b);
            } else {
                buf.push(HASH);
                push_hex(buf, b);
            }
            assert(buf@ =~= before + name_byte_enc(b));
            i += 1;
            assert(self.0@.take(i as int).drop_last() =~= self.0@.take(i - 1));
        }
        assert(self.0@.take(i as int) =~= self.0@);
    }
}

/// A string object, written as a literal string when every byte is ASCII
/// and as a hexadecimal string otherwise.
#[derive(Clone, Copy, Debug, PartialEq, Eq, Hash)]
pub struct Str<'a>(pub &'a [u8]);

/// Whether every byte of `s` is ASCII.
fn check_ascii(s: &[u8]) -> (r: bool)
    ensures
        r == all_ascii(s@),
{
    let mut i: usize = 0;
    while i < s.len()
        invariant
            i <= s@.len(),
            forall|j: int| 0 <= j < i ==> #[trigger] s@[j] < 128,
        decreases s@.len() - i,
    {
        if s[i] >= 128 {
            return false;
        }
        i += 1;
    }
    true
}

/// Appends what one byte of a literal string becomes.
fn push_str_byte(buf: &mut Vec<u8>, b: u8)
    ensures
        final(buf)@ == old(buf)@ + str_byte_enc(b),
{
    if b == BACKSLASH || b == LPAREN || b == RPAREN {
        buf.push(BACKSLASH);
        buf.push(b);
    } else if 32 <= b && b <= 126 {
        buf.push(b);
    } else if b == 10 {
        buf.push(BACKSLASH);
        buf.push(110);
    } else if b == 13 {
        buf.push(BACKSLASH);
        buf.push(114);
    } else if b == 9 {
        buf.push(BACKSLASH);
        buf.push(116);
    } else if b == 8 {
        buf.push(BACKSLASH);
        buf.push(98);
    } else if b == 12 {
        buf.push(BACKSLASH);
        buf.push(102);
    } else {
        buf.push(BACKSLASH);
        buf.push(ZERO + b / 64);
        buf.push(ZERO + (b / 8) % 8);
        buf.push(ZERO + b % 8);
    }
    assert(final(buf)@ =~= old(buf)@ + str_byte_enc(b));
}

impl<'a> Primitive for Str<'a> {
    open spec fn encoding(&self) -> Seq<u8> {
        str_enc(self.0@)
    }

    fn write(self, buf: &mut Vec<u8>) {
        let s = self.0;
        let ghost start = buf@;
        if check_ascii(s) {
            buf.push(LPAREN);
            let mut i: usize = 0;
            while i < s.len()
                invariant
                    i <= s@.len(),
                    buf@ == start + seq![LPAREN] + str_escape(s@.take(i as int)),
                decreases s@.len() - i,
            {
                push_str_byte(buf, s[i]);
                i += 1;
                assert(s@.take(i as int).drop_last() =~= s@.take(i - 1));
            }
            assert(s@.take(i as int) =~= s@);
            buf.push(RPAREN);
        } else {
            buf.push(LANGLE);
            let mut i: usize = 0;
            while i < s.len()
                invariant
                    i <= s@.len(),
                    buf@ == start + seq![LANGLE] + hex_body(s@.take(i as int)),
                decreases s@.len() - i,
            {
                push_hex(buf, s[i]);
                i += 1;
                assert(s@.take(i as int).drop_last() =~= s@.take(i - 1));
            }
            assert(s@.take(i as int) =~= s@);
            buf.push(RANGLE);
        }
    }
}

/// A reference to an indirect object, written as `id 0 R`.
#[derive(Clone, Copy, Debug, PartialEq, Eq, Hash)]
pub struct Ref(i32);

impl Ref {
    #[verifier::type_invariant]
    spec fn positive(self) -> bool {
        self.0 > 0
    }

    /// The object number.
    pub closed spec fn id(self) -> int {
        self.0 as int
    }

    /// A reference to the object with number `id`; the number must be
    /// positive.
    pub fn new(id: i32) -> (r: Ref)
        requires
            id > 0,
        ensures
            r.id() == id,
    {
        Ref(id)
    }

    /// The object number.
    pub fn get(self) -> (r: i32)
        ensures
            r == self.id(),
            r > 0,
    {
        proof {
            use_type_invariant(&self);
        }
        self.0
    }
}

impl Primitive for Ref {
    open spec fn encoding(&self) -> Seq<u8> {
        int_enc(self.id()) + seq![SPACE, ZERO, SPACE, 82u8]
    }

    fn write(self, buf: &mut Vec<u8>) {
        self.get().write(buf);
        buf.push(SPACE);
        buf.push(ZERO);
        buf.push(SPACE);
        buf.push(82);
        assert(final(buf)@ =~= old(buf)@ + self.encoding());
    }
}

} // verus!
