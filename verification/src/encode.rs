//! Mathematical description of the bytes that the writers produce.

use vstd::prelude::*;

verus! {

/// `\n`
pub const NEWLINE: u8 = 10;

/// ` `
pub const SPACE: u8 = 32;

/// `/`
pub const SLASH: u8 = 47;

/// `#`
pub const HASH: u8 = 35;

/// `-`
pub const MINUS: u8 = 45;

/// `0`
pub const ZERO: u8 = 48;

/// `.`
pub const DOT: u8 = 46;

/// `(`
pub const LPAREN: u8 = 40;

/// `)`
pub const RPAREN: u8 = 41;

/// `\`
pub const BACKSLASH: u8 = 92;

/// `<`
pub const LANGLE: u8 = 60;

/// `>`
pub const RANGLE: u8 = 62;

/// `[`
pub const LBRACKET: u8 = 91;

/// `]`
pub const RBRACKET: u8 = 93;

/// The bytes of an ASCII text, one byte per character.
pub open spec fn ascii(s: Seq<char>) -> Seq<u8> {
    s.map_values(|c: char| c as u8)
}

/// `n` spaces.
pub open spec fn spaces(n: nat) -> Seq<u8> {
    Seq::new(n, |i: int| SPACE)
}

/// The space that separates a token from the one before it, if there is one.
pub open spec fn separator(first: bool) -> Seq<u8> {
    if first {
        Seq::empty()
    } else {
        seq![SPACE]
    }
}

/// The tokens, separated by single spaces.
pub open spec fn sep_join(items: Seq<Seq<u8>>) -> Seq<u8>
    decreases items.len(),
{
    if items.len() == 0 {
        Seq::empty()
    } else if items.len() == 1 {
        items[0]
    } else {
        sep_join(items.drop_last()) + seq![SPACE] + items.last()
    }
}

/// One line of a content stream: the operands, then the operator, separated
/// by spaces and ended by a newline.
pub open spec fn op_line(operands: Seq<Seq<u8>>, operator: Seq<u8>) -> Seq<u8> {
    sep_join(operands.push(operator)) + seq![NEWLINE]
}

/// The bytes without the newline that ends them, if they end with one.
pub open spec fn trim_newline(s: Seq<u8>) -> Seq<u8> {
    if s.len() > 0 && s.last() == NEWLINE {
        s.drop_last()
    } else {
        s
    }
}

/// The lines, each ended by a newline.
pub open spec fn lines_stream(lines: Seq<Seq<u8>>) -> Seq<u8>
    decreases lines.len(),
{
    if lines.len() == 0 {
        Seq::empty()
    } else {
        lines_stream(lines.drop_last()) + lines.last() + seq![NEWLINE]
    }
}

/// The lines, separated by newlines.
pub open spec fn newline_join(lines: Seq<Seq<u8>>) -> Seq<u8>
    decreases lines.len(),
{
    if lines.len() == 0 {
        Seq::empty()
    } else if lines.len() == 1 {
        lines[0]
    } else {
        newline_join(lines.drop_last()) + seq![NEWLINE] + lines.last()
    }
}

/// An array object with the given items.
pub open spec fn array_enc(items: Seq<Seq<u8>>) -> Seq<u8> {
    seq![LBRACKET] + sep_join(items) + seq![RBRACKET]
}

/// One entry of a dictionary whose entries are indented by `indent`.
pub open spec fn dict_entry(indent: nat, key: Seq<u8>, value: Seq<u8>) -> Seq<u8> {
    seq![NEWLINE] + spaces(indent) + key + seq![SPACE] + value
}

/// What closes a dictionary whose entries are indented by `indent` and that
/// holds `len` entries.
pub open spec fn dict_close(indent: nat, len: int) -> Seq<u8> {
    if len != 0 {
        seq![NEWLINE] + spaces((if indent >= 2 { indent - 2 } else { 0 }) as nat) + seq![RANGLE, RANGLE]
    } else {
        seq![RANGLE, RANGLE]
    }
}

/// The decimal digits of a natural number, most significant first.
pub open spec fn nat_digits(n: nat) -> Seq<u8>
    decreases n,
{
    if n < 10 {
        seq![(ZERO + n) as u8]
    } else {
        nat_digits(n / 10) + seq![(ZERO + n % 10) as u8]
    }
}

/// The decimal form of an integer.
pub open spec fn int_enc(i: int) -> Seq<u8> {
    if i < 0 {
        seq![MINUS] + nat_digits((-i) as nat)
    } else {
        nat_digits(i as nat)
    }
}

/// `n` zero digits.
pub open spec fn zeros(n: nat) -> Seq<u8> {
    Seq::new(n, |i: int| ZERO)
}

/// The digits without the zeros that end them.
pub open spec fn trim_zeros(s: Seq<u8>) -> Seq<u8>
    decreases s.len(),
{
    if s.len() > 0 && s.last() == ZERO {
        trim_zeros(s.drop_last())
    } else {
        s
    }
}

/// The absolute value.
pub open spec fn abs(i: int) -> nat {
    if i < 0 {
        (-i) as nat
    } else {
        i as nat
    }
}

/// The digits of `|units|`, with zeros in front so that at least one digit
/// stands before the last `scale` ones.
pub open spec fn padded_digits(units: int, scale: nat) -> Seq<u8> {
    let d = nat_digits(abs(units));
    if d.len() > scale {
        d
    } else {
        zeros((scale + 1 - d.len()) as nat) + d
    }
}

/// The decimal form of the number `units / 10^scale`: a minus sign when it
/// is negative, the digits of the whole part, and, when the number is not
/// whole, a point and the digits of the fraction without the zeros that end
/// them.
pub open spec fn real_enc(units: int, scale: nat) -> Seq<u8> {
    let padded = padded_digits(units, scale);
    let split = padded.len() - scale;
    let whole = padded.subrange(0, split);
    let fraction = trim_zeros(padded.subrange(split, padded.len() as int));
    (if units < 0 {
        seq![MINUS]
    } else {
        Seq::empty()
    }) + whole + (if fraction.len() == 0 {
        Seq::empty()
    } else {
        seq![DOT] + fraction
    })
}

/// An upper-case hexadecimal digit.
pub open spec fn hex_digit(n: u8) -> u8 {
    if n < 10 {
        (ZERO + n) as u8
    } else {
        (55 + n) as u8
    }
}

/// The two hexadecimal digits of a byte.
pub open spec fn hex_pair(b: u8) -> Seq<u8> {
    seq![hex_digit(b / 16), hex_digit(b % 16)]
}

/// Whether a byte is neither white space nor a delimiter.
pub open spec fn is_regular(b: u8) -> bool {
    !(b == 0 || b == 9 || b == 10 || b == 12 || b == 13 || b == 32 || b == 40 || b == 41 || b
        == 60 || b == 62 || b == 91 || b == 93 || b == 123 || b == 125 || b == 47 || b == 37)
}

/// Whether a byte stands for itself inside a name.
pub open spec fn name_plain(b: u8) -> bool {
    b != HASH && 33 <= b <= 126 && is_regular(b)
}

/// What one byte of a name becomes: itself, or `#` and its hexadecimal code.
pub open spec fn name_byte_enc(b: u8) -> Seq<u8> {
    if name_plain(b) {
        seq![b]
    } else {
        seq![HASH] + hex_pair(b)
    }
}

/// The bytes of a name after escaping, without the leading slash.
pub open spec fn name_escape(s: Seq<u8>) -> Seq<u8>
    decreases s.len(),
{
    if s.len() == 0 {
        Seq::empty()
    } else {
        name_escape(s.drop_last()) + name_byte_enc(s.last())
    }
}

/// A name object.
pub open spec fn name_enc(s: Seq<u8>) -> Seq<u8> {
    seq![SLASH] + name_escape(s)
}

/// Whether every byte is ASCII.
pub open spec fn all_ascii(s: Seq<u8>) -> bool {
    forall|i: int| 0 <= i < s.len() ==> #[trigger] s[i] < 128
}

/// What one byte of a literal string becomes.
pub open spec fn str_byte_enc(b: u8) -> Seq<u8> {
    if b == BACKSLASH || b == LPAREN || b == RPAREN {
        seq![BACKSLASH, b]
    } else if 32 <= b <= 126 {
        seq![b]
    } else if b == 10 {
        seq![BACKSLASH, 110]
    } else if b == 13 {
        seq![BACKSLASH, 114]
    } else if b == 9 {
        seq![BACKSLASH, 116]
    } else if b == 8 {
        seq![BACKSLASH, 98]
    } else if b == 12 {
        seq![BACKSLASH, 102]
    } else {
        seq![BACKSLASH, (ZERO + b / 64) as u8, (ZERO + (b / 8) % 8) as u8, (ZERO + b % 8) as u8]
    }
}

/// The escaped body of a literal string.
pub open spec fn str_escape(s: Seq<u8>) -> Seq<u8>
    decreases s.len(),
{
    if s.len() == 0 {
        Seq::empty()
    } else {
        str_escape(s.drop_last()) + str_byte_enc(s.last())
    }
}

/// The hexadecimal body of a hexadecimal string.
pub open spec fn hex_body(s: Seq<u8>) -> Seq<u8>
    decreases s.len(),
{
    if s.len() == 0 {
        Seq::empty()
    } else {
        hex_body(s.drop_last()) + hex_pair(s.last())
    }
}

/// A string object: a literal string when every byte is ASCII, else a
/// hexadecimal string.
pub open spec fn str_enc(s: Seq<u8>) -> Seq<u8> {
    if all_ascii(s) {
        seq![LPAREN] + str_escape(s) + seq![RPAREN]
    } else {
        seq![LANGLE] + hex_body(s) + seq![RANGLE]
    }
}

/// Joining one more token.
pub proof fn lemma_sep_join_push(items: Seq<Seq<u8>>, x: Seq<u8>)
    ensures
        sep_join(items.push(x)) == if items.len() == 0 {
            x
        } else {
            sep_join(items) + seq![SPACE] + x
        },
{
    assert(items.push(x).drop_last() =~= items);
}

/// Joining two runs of tokens.
pub proof fn lemma_sep_join_concat(a: Seq<Seq<u8>>, b: Seq<Seq<u8>>)
    ensures
        sep_join(a + b) == if a.len() == 0 {
            sep_join(b)
        } else if b.len() == 0 {
            sep_join(a)
        } else {
            sep_join(a) + seq![SPACE] + sep_join(b)
        },
    decreases b.len(),
{
    if b.len() == 0 {
        assert(a + b =~= a);
    } else if a.len() == 0 {
        assert(a + b =~= b);
    } else {
        lemma_sep_join_concat(a, b.drop_last());
        assert((a + b).drop_last() =~= a + b.drop_last());
        assert((a + b).last() == b.last());
        if b.len() == 1 {
            assert(b.drop_last() =~= Seq::<Seq<u8>>::empty());
            assert(a + b.drop_last() =~= a);
        }
    }
}

/// A line whose operands are the given tokens.
pub proof fn lemma_op_line(operands: Seq<Seq<u8>>, operator: Seq<u8>)
    ensures
        op_line(operands, operator) == if operands.len() == 0 {
            operator + seq![NEWLINE]
        } else {
            sep_join(operands) + seq![SPACE] + operator + seq![NEWLINE]
        },
{
    lemma_sep_join_push(operands, operator);
}

} // verus!
