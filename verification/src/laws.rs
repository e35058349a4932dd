//! Properties of the written bytes that hold for all inputs.

use vstd::prelude::*;

use crate::object::tokens_enc;
use crate::encode::{array_enc, lemma_op_line, lemma_sep_join_push, op_line, separator, sep_join, LBRACKET, RBRACKET, SPACE, 
    hex_digit, int_enc, is_regular, lines_stream, name_byte_enc, name_escape, name_plain,
    nat_digits, newline_join, trim_newline, hex_body, hex_pair, str_byte_enc, str_enc, str_escape,
    all_ascii, padded_digits, real_enc, trim_zeros, zeros, abs, DOT, BACKSLASH, HASH, LANGLE, LPAREN, MINUS, NEWLINE, RANGLE, RPAREN, ZERO,
};

verus! {

/// The number that a run of decimal digits stands for.
pub open spec fn digits_value(s: Seq<u8>) -> int
    decreases s.len(),
{
    if s.len() == 0 {
        0
    } else {
        digits_value(s.drop_last()) * 10 + (s.last() - ZERO)
    }
}

/// The integer that a decimal form stands for.
pub open spec fn int_value(s: Seq<u8>) -> int {
    if s.len() > 0 && s[0] == MINUS {
        -digits_value(s.skip(1))
    } else {
        digits_value(s)
    }
}

proof fn lemma_nat_digits(n: nat)
    ensures
        nat_digits(n).len() > 0,
        ZERO <= nat_digits(n)[0] <= ZERO + 9,
        digits_value(nat_digits(n)) == n,
    decreases n,
{
    let d = nat_digits(n);
    if n >= 10 {
        lemma_nat_digits(n / 10);
        assert(d.drop_last() =~= nat_digits(n / 10));
        assert(d.last() == (ZERO + n % 10) as u8);
        assert(((ZERO + n % 10) as u8) - ZERO == n % 10);
        assert((n / 10) * 10 + n % 10 == n);
        assert(digits_value(d) == digits_value(d.drop_last()) * 10 + (d.last() - ZERO));
    } else {
        assert(d.drop_last() =~= Seq::<u8>::empty());
        assert(d.last() == (ZERO + n) as u8);
        assert(((ZERO + n) as u8) - ZERO == n);
        assert(digits_value(d) == digits_value(d.drop_last()) * 10 + (d.last() - ZERO));
    }
}

/// An integer is written in decimal: reading the digits back gives the
/// integer.
pub proof fn law_integer_roundtrip(i: int)
    ensures
        int_value(int_enc(i)) == i,
{
    if i < 0 {
        lemma_nat_digits((-i) as nat);
        assert((seq![MINUS] + nat_digits((-i) as nat)).skip(1) =~= nat_digits((-i) as nat));
    } else {
        lemma_nat_digits(i as nat);
    }
}

/// An operation started with `Content::op`, given its operands with
/// `Operation::operands` and ended with `Operation::finish` appends one line:
/// the operands and then the operator, separated by single spaces.
pub proof fn law_operation_line(prefix: Seq<u8>, operands: Seq<Seq<u8>>, operator: Seq<u8>)
    ensures
        prefix + tokens_enc(true, operands) + separator(operands.len() == 0) + operator + seq![NEWLINE]
            == prefix + op_line(operands, operator),
{
    lemma_op_line(operands, operator);
    if operands.len() == 0 {
        assert(prefix + tokens_enc(true, operands) + separator(true) + operator + seq![NEWLINE]
            =~= prefix + (operator + seq![NEWLINE]));
    } else {
        assert(prefix + tokens_enc(true, operands) + separator(false) + operator + seq![NEWLINE]
            =~= prefix + (sep_join(operands) + seq![SPACE] + operator + seq![NEWLINE]));
    }
}

/// Tokens written one at a time, as by repeated calls of
/// `Operation::operand`, `Operation::obj` or `Array::item`: each is preceded
/// by a space unless it is the first.
pub open spec fn written_one_by_one(tokens: Seq<Seq<u8>>) -> Seq<u8>
    decreases tokens.len(),
{
    if tokens.len() == 0 {
        Seq::empty()
    } else {
        written_one_by_one(tokens.drop_last()) + separator(tokens.len() == 1) + tokens.last()
    }
}

/// Writing tokens one at a time gives the same bytes as writing them all at
/// once with `Operation::operands` or `Array::items`: the tokens separated by
/// single spaces, with no space before the first or after the last.
pub proof fn law_one_by_one(tokens: Seq<Seq<u8>>)
    ensures
        written_one_by_one(tokens) == sep_join(tokens),
        written_one_by_one(tokens) == tokens_enc(true, tokens),
    decreases tokens.len(),
{
    if tokens.len() > 0 {
        let init = tokens.drop_last();
        law_one_by_one(init);
        lemma_sep_join_push(init, tokens.last());
        assert(init.push(tokens.last()) =~= tokens);
        assert(written_one_by_one(tokens) =~= written_one_by_one(init) + separator(init.len() == 0)
            + tokens.last());
    }
}

/// An operation whose operands are written one at a time and that is then
/// finished appends one line: the operands and the operator, separated by
/// single spaces, and a newline.
pub proof fn law_operation_one_by_one(prefix: Seq<u8>, operands: Seq<Seq<u8>>, operator: Seq<u8>)
    ensures
        prefix + written_one_by_one(operands) + separator(operands.len() == 0) + operator + seq![
            NEWLINE,
        ] == prefix + op_line(operands, operator),
{
    law_one_by_one(operands);
    law_operation_line(prefix, operands, operator);
}

/// A text showing operation with positioned items, written item by item
/// through `ShowPositioned::items` and `PositionedItems` and then finished,
/// appends one line: the array of the items, a space, the operator and a
/// newline.
pub proof fn law_positioned_line(prefix: Seq<u8>, items: Seq<Seq<u8>>, operator: Seq<u8>)
    ensures
        prefix + seq![LBRACKET] + written_one_by_one(items) + seq![RBRACKET] + seq![SPACE]
            + operator + seq![NEWLINE] == prefix + op_line(seq![array_enc(items)], operator),
{
    law_one_by_one(items);
    law_operation_line(prefix, seq![array_enc(items)], operator);
    assert(sep_join(seq![array_enc(items)]) == array_enc(items));
    assert(prefix + seq![LBRACKET] + written_one_by_one(items) + seq![RBRACKET] + seq![SPACE]
        + operator + seq![NEWLINE] =~= prefix + tokens_enc(true, seq![array_enc(items)])
        + separator(false) + operator + seq![NEWLINE]);
}

/// Every line of a stream of lines ends with a newline; so a nonempty stream
/// does.
pub proof fn law_lines_end_with_newline(lines: Seq<Seq<u8>>)
    ensures
        lines.len() > 0 ==> lines_stream(lines).len() > 0 && lines_stream(lines).last() == NEWLINE,
        lines.len() == 0 ==> lines_stream(lines).len() == 0,
{
}

/// A content stream stays a stream of lines: every content operator appends
/// `op_line(operands, operator)`, which makes one more line, the operands
/// and the operator separated by single spaces.
pub proof fn law_content_operation(lines: Seq<Seq<u8>>, operands: Seq<Seq<u8>>, operator: Seq<u8>)
    ensures
        lines_stream(lines) + op_line(operands, operator) == lines_stream(
            lines.push(sep_join(operands.push(operator))),
        ),
{
    let next = lines.push(sep_join(operands.push(operator)));
    assert(next.drop_last() =~= lines);
    assert(lines_stream(lines) + op_line(operands, operator) =~= lines_stream(lines) + sep_join(
        operands.push(operator),
    ) + seq![NEWLINE]);
}

/// Whether the bytes are a stream of lines, each ended by a newline.
pub open spec fn is_line_stream(s: Seq<u8>) -> bool {
    exists|lines: Seq<Seq<u8>>| s == lines_stream(lines)
}

/// The empty stream is a stream of no lines.
pub proof fn law_empty_line_stream()
    ensures
        is_line_stream(Seq::<u8>::empty()),
{
    assert(Seq::<u8>::empty() == lines_stream(Seq::<Seq<u8>>::empty()));
}

/// Appending an operation's line to a stream of lines gives a stream of
/// lines: every content operator keeps a content stream a stream of
/// newline-ended lines.
pub broadcast proof fn law_line_stream_grows(s: Seq<u8>, operands: Seq<Seq<u8>>, operator: Seq<u8>)
    requires
        is_line_stream(s),
    ensures
        #[trigger] is_line_stream(s + op_line(operands, operator)),
{
    let lines = choose|lines: Seq<Seq<u8>>| s == lines_stream(lines);
    law_content_operation(lines, operands, operator);
}

/// The bytes of a sequence of operations, each given by its operands and its
/// operator.
pub open spec fn operations_stream(ops: Seq<(Seq<Seq<u8>>, Seq<u8>)>) -> Seq<u8>
    decreases ops.len(),
{
    if ops.len() == 0 {
        Seq::empty()
    } else {
        operations_stream(ops.drop_last()) + op_line(ops.last().0, ops.last().1)
    }
}

/// The line of an operation: its operands and operator separated by spaces.
pub open spec fn operation_text(op: (Seq<Seq<u8>>, Seq<u8>)) -> Seq<u8> {
    sep_join(op.0.push(op.1))
}

/// A content stream made of any sequence of operations is the stream of
/// their lines, one per operation; finishing it gives those lines separated
/// by newlines.
pub proof fn law_operations_are_lines(ops: Seq<(Seq<Seq<u8>>, Seq<u8>)>)
    ensures
        operations_stream(ops) == lines_stream(ops.map_values(|o: (Seq<Seq<u8>>, Seq<u8>)| operation_text(o))),
        ops.len() > 0 ==> trim_newline(operations_stream(ops)) == newline_join(
            ops.map_values(|o: (Seq<Seq<u8>>, Seq<u8>)| operation_text(o)),
        ),
    decreases ops.len(),
{
    let lines = ops.map_values(|o: (Seq<Seq<u8>>, Seq<u8>)| operation_text(o));
    if ops.len() > 0 {
        let init = ops.drop_last();
        law_operations_are_lines(init);
        let init_lines = init.map_values(|o: (Seq<Seq<u8>>, Seq<u8>)| operation_text(o));
        assert(lines.drop_last() =~= init_lines);
        law_content_operation(init_lines, ops.last().0, ops.last().1);
        assert(init_lines.push(operation_text(ops.last())) =~= lines);
        law_finished_lines(lines);
    } else {
        assert(lines =~= Seq::<Seq<u8>>::empty());
    }
}

/// A stream of lines, each ended by a newline, is finished into the lines
/// separated by newlines: the newline after the last line is dropped.
pub proof fn law_finished_lines(lines: Seq<Seq<u8>>)
    requires
        lines.len() > 0,
    ensures
        trim_newline(lines_stream(lines)) == newline_join(lines),
    decreases lines.len(),
{
    let init = lines.drop_last();
    let s = lines_stream(lines);
    assert(s.drop_last() =~= lines_stream(init) + lines.last());
    if lines.len() == 1 {
        assert(init =~= Seq::<Seq<u8>>::empty());
        assert(lines_stream(init) =~= Seq::<u8>::empty());
        assert(s.drop_last() =~= lines[0]);
    } else {
        law_finished_lines(init);
        let t = lines_stream(init);
        assert(t.last() == NEWLINE);
        assert(t =~= t.drop_last() + seq![NEWLINE]);
    }
}

/// The value of an upper-case hexadecimal digit.
pub open spec fn hex_value(c: u8) -> int {
    if c <= ZERO + 9 {
        c - ZERO
    } else {
        c - 55
    }
}

/// The bytes of a name that its escaped form stands for, read from left to
/// right: `#` and two hexadecimal digits stand for one byte, any other byte
/// for itself.
pub open spec fn name_unescape(t: Seq<u8>) -> Seq<u8>
    decreases t.len(),
{
    if t.len() == 0 {
        Seq::empty()
    } else if t[0] == HASH && t.len() >= 3 {
        seq![(hex_value(t[1]) * 16 + hex_value(t[2])) as u8] + name_unescape(t.skip(3))
    } else {
        seq![t[0]] + name_unescape(t.skip(1))
    }
}

/// Whether a byte may stand inside a name token: printable, neither white
/// space nor a delimiter.
pub open spec fn token_byte(b: u8) -> bool {
    33 <= b <= 126 && is_regular(b)
}

proof fn lemma_name_escape_concat(a: Seq<u8>, b: Seq<u8>)
    ensures
        name_escape(a + b) == name_escape(a) + name_escape(b),
    decreases b.len(),
{
    if b.len() == 0 {
        assert(a + b =~= a);
        assert(name_escape(a) + name_escape(b) =~= name_escape(a));
    } else {
        lemma_name_escape_concat(a, b.drop_last());
        assert((a + b).drop_last() =~= a + b.drop_last());
        assert((a + b).last() == b.last());
    }
}

proof fn lemma_name_escape_single(x: u8)
    ensures
        name_escape(seq![x]) == name_byte_enc(x),
{
    assert(seq![x].drop_last() =~= Seq::<u8>::empty());
    assert(name_escape(Seq::<u8>::empty()) + name_byte_enc(x) =~= name_byte_enc(x));
}

proof fn lemma_hex_digit(n: u8)
    requires
        n < 16,
    ensures
        hex_value(hex_digit(n)) == n,
        token_byte(hex_digit(n)),
{
}

/// A name is read back from its escaped form: escaping loses nothing.
pub proof fn law_name_roundtrip(s: Seq<u8>)
    ensures
        name_unescape(name_escape(s)) == s,
    decreases s.len(),
{
    if s.len() == 0 {
        assert(name_escape(s) =~= Seq::<u8>::empty());
    } else {
        let x = s[0];
        let rest = s.skip(1);
        assert(s =~= seq![x] + rest);
        lemma_name_escape_concat(seq![x], rest);
        lemma_name_escape_single(x);
        law_name_roundtrip(rest);
        let t = name_byte_enc(x) + name_escape(rest);
        if name_plain(x) {
            assert(t[0] == x);
            assert(t.skip(1) =~= name_escape(rest));
        } else {
            lemma_hex_digit(x / 16);
            lemma_hex_digit(x % 16);
            assert(t[0] == HASH);
            assert(t[1] == hex_digit(x / 16));
            assert(t[2] == hex_digit(x % 16));
            assert(t.skip(3) =~= name_escape(rest));
            assert((x / 16) * 16 + x % 16 == x);
        }
        assert(name_unescape(t) =~= seq![x] + rest);
    }
}

/// An escaped name is a single token: every byte is printable and neither
/// white space nor a delimiter.
pub proof fn law_name_is_one_token(s: Seq<u8>)
    ensures
        forall|i: int| 0 <= i < name_escape(s).len() ==> token_byte(#[trigger] name_escape(s)[i]),
    decreases s.len(),
{
    if s.len() > 0 {
        law_name_is_one_token(s.drop_last());
        let x = s.last();
        let e = name_byte_enc(x);
        if !name_plain(x) {
            lemma_hex_digit(x / 16);
            lemma_hex_digit(x % 16);
        }
        assert(forall|j: int| 0 <= j < e.len() ==> token_byte(#[trigger] e[j]));
        let a = name_escape(s.drop_last());
        assert forall|i: int| 0 <= i < name_escape(s).len() implies token_byte(
            #[trigger] name_escape(s)[i],
        ) by {
            if i < a.len() {
                assert(name_escape(s)[i] == a[i]);
            } else {
                assert(name_escape(s)[i] == e[i - a.len()]);
            }
        }
    }
}

/// The byte that three octal digits stand for.
pub open spec fn octal_value(a: u8, b: u8, c: u8) -> int {
    (a - ZERO) * 64 + (b - ZERO) * 8 + (c - ZERO)
}

/// The bytes that the body of a literal string stands for, read from left
/// to right.
pub open spec fn str_unescape(t: Seq<u8>) -> Seq<u8>
    decreases t.len(),
{
    if t.len() == 0 {
        Seq::empty()
    } else if t[0] == BACKSLASH && t.len() >= 2 {
        let c = t[1];
        if c == 110 {
            seq![10u8] + str_unescape(t.skip(2))
        } else if c == 114 {
            seq![13u8] + str_unescape(t.skip(2))
        } else if c == 116 {
            seq![9u8] + str_unescape(t.skip(2))
        } else if c == 98 {
            seq![8u8] + str_unescape(t.skip(2))
        } else if c == 102 {
            seq![12u8] + str_unescape(t.skip(2))
        } else if ZERO <= c <= ZERO + 7 && t.len() >= 4 {
            seq![octal_value(c, t[2], t[3]) as u8] + str_unescape(t.skip(4))
        } else {
            seq![c] + str_unescape(t.skip(2))
        }
    } else {
        seq![t[0]] + str_unescape(t.skip(1))
    }
}

/// The bytes that the body of a hexadecimal string stands for.
pub open spec fn hex_unbody(t: Seq<u8>) -> Seq<u8>
    decreases t.len(),
{
    if t.len() < 2 {
        Seq::empty()
    } else {
        seq![(hex_value(t[0]) * 16 + hex_value(t[1])) as u8] + hex_unbody(t.skip(2))
    }
}

/// The bytes that a string object stands for.
pub open spec fn str_value(t: Seq<u8>) -> Seq<u8> {
    if t.len() >= 2 && t[0] == LPAREN {
        str_unescape(t.subrange(1, t.len() - 1))
    } else if t.len() >= 2 && t[0] == LANGLE {
        hex_unbody(t.subrange(1, t.len() - 1))
    } else {
        Seq::empty()
    }
}

proof fn lemma_str_escape_concat(a: Seq<u8>, b: Seq<u8>)
    ensures
        str_escape(a + b) == str_escape(a) + str_escape(b),
    decreases b.len(),
{
    if b.len() == 0 {
        assert(a + b =~= a);
        assert(str_escape(a) + str_escape(b) =~= str_escape(a));
    } else {
        lemma_str_escape_concat(a, b.drop_last());
        assert((a + b).drop_last() =~= a + b.drop_last());
        assert((a + b).last() == b.last());
    }
}

proof fn lemma_hex_body_concat(a: Seq<u8>, b: Seq<u8>)
    ensures
        hex_body(a + b) == hex_body(a) + hex_body(b),
    decreases b.len(),
{
    if b.len() == 0 {
        assert(a + b =~= a);
        assert(hex_body(a) + hex_body(b) =~= hex_body(a));
    } else {
        lemma_hex_body_concat(a, b.drop_last());
        assert((a + b).drop_last() =~= a + b.drop_last());
        assert((a + b).last() == b.last());
    }
}

proof fn lemma_str_byte_roundtrip(x: u8, rest: Seq<u8>)
    ensures
        str_unescape(str_byte_enc(x) + rest) == seq![x] + str_unescape(rest),
{
    let t = str_byte_enc(x) + rest;
    if x == BACKSLASH || x == LPAREN || x == RPAREN {
        assert(t.skip(2) =~= rest);
    } else if 32 <= x <= 126 {
        assert(t.skip(1) =~= rest);
    } else if x == 10 || x == 13 || x == 9 || x == 8 || x == 12 {
        assert(t.skip(2) =~= rest);
    } else {
        assert(t.skip(4) =~= rest);
        assert((x / 64) * 64 + ((x / 8) % 8) * 8 + x % 8 == x) by (bit_vector);
        assert(t[1] == (ZERO + x / 64) as u8);
        assert(t[2] == (ZERO + (x / 8) % 8) as u8);
        assert(t[3] == (ZERO + x % 8) as u8);
    }
}

proof fn lemma_str_unescape_escape(s: Seq<u8>)
    ensures
        str_unescape(str_escape(s)) == s,
    decreases s.len(),
{
    if s.len() == 0 {
        assert(str_escape(s) =~= Seq::<u8>::empty());
    } else {
        let x = s[0];
        let rest = s.skip(1);
        assert(s =~= seq![x] + rest);
        lemma_str_escape_concat(seq![x], rest);
        assert(seq![x].drop_last() =~= Seq::<u8>::empty());
        assert(str_escape(Seq::<u8>::empty()) + str_byte_enc(x) =~= str_byte_enc(x));
        assert(str_escape(seq![x]) =~= str_byte_enc(x));
        lemma_str_byte_roundtrip(x, str_escape(rest));
        lemma_str_unescape_escape(rest);
        assert(seq![x] + rest =~= s);
    }
}

proof fn lemma_hex_unbody_body(s: Seq<u8>)
    ensures
        hex_unbody(hex_body(s)) == s,
    decreases s.len(),
{
    if s.len() == 0 {
        assert(hex_body(s) =~= Seq::<u8>::empty());
    } else {
        let x = s[0];
        let rest = s.skip(1);
        assert(s =~= seq![x] + rest);
        lemma_hex_body_concat(seq![x], rest);
        assert(seq![x].drop_last() =~= Seq::<u8>::empty());
        assert(hex_body(Seq::<u8>::empty()) + hex_pair(x) =~= hex_pair(x));
        assert(hex_body(seq![x]) =~= hex_pair(x));
        lemma_hex_unbody_body(rest);
        lemma_hex_digit(x / 16);
        lemma_hex_digit(x % 16);
        let t = hex_pair(x) + hex_body(rest);
        assert(t.skip(2) =~= hex_body(rest));
        assert((x / 16) * 16 + x % 16 == x);
        assert(hex_unbody(t) =~= seq![x] + rest);
    }
}

/// A string is read back from the string object it is written as: the
/// escaping of a literal string and the digits of a hexadecimal string lose
/// nothing.
pub proof fn law_string_roundtrip(s: Seq<u8>)
    ensures
        str_value(str_enc(s)) == s,
{
    if all_ascii(s) {
        let t = str_enc(s);
        assert(t.subrange(1, t.len() - 1) =~= str_escape(s));
        lemma_str_unescape_escape(s);
    } else {
        let t = str_enc(s);
        assert(t.subrange(1, t.len() - 1) =~= hex_body(s));
        lemma_hex_unbody_body(s);
    }
}

/// `10^n`.
pub open spec fn pow10(n: nat) -> nat
    decreases n,
{
    if n == 0 {
        1
    } else {
        10 * pow10((n - 1) as nat)
    }
}

/// Where the first decimal point stands, or the length when there is none.
pub open spec fn dot_index(s: Seq<u8>) -> nat
    decreases s.len(),
{
    if s.len() == 0 || s[0] == DOT {
        0
    } else {
        1 + dot_index(s.skip(1))
    }
}

/// The number that a decimal form stands for, times `10^scale`, for a form
/// with at most `scale` digits after the point.
pub open spec fn real_scaled_value(t: Seq<u8>, scale: nat) -> int {
    let negative = t.len() > 0 && t[0] == MINUS;
    let body = if negative {
        t.skip(1)
    } else {
        t
    };
    let k = dot_index(body);
    let whole = body.take(k as int);
    let fraction = if k < body.len() {
        body.skip(k + 1int)
    } else {
        Seq::empty()
    };
    let magnitude = (digits_value(whole) * pow10(fraction.len()) + digits_value(fraction)) * pow10(
        (scale - fraction.len()) as nat,
    );
    if negative {
        -magnitude
    } else {
        magnitude
    }
}

/// Whether every byte is a decimal digit.
pub open spec fn all_digits(s: Seq<u8>) -> bool {
    forall|i: int| 0 <= i < s.len() ==> ZERO <= #[trigger] s[i] <= ZERO + 9
}

proof fn lemma_nat_digits_are_digits(n: nat)
    ensures
        all_digits(nat_digits(n)),
    decreases n,
{
    if n >= 10 {
        lemma_nat_digits_are_digits(n / 10);
        let d = nat_digits(n);
        assert forall|i: int| 0 <= i < d.len() implies ZERO <= #[trigger] d[i] <= ZERO + 9 by {
            if i < d.len() - 1 {
                assert(d[i] == nat_digits(n / 10)[i]);
            }
        }
    }
}

proof fn lemma_times_one(one: nat, x: int)
    requires
        one == 1,
    ensures
        one * x == x,
        x * one == x,
{
}

proof fn lemma_pow10_add(a: nat, b: nat)
    ensures
        pow10(a) * pow10(b) == pow10(a + b),
    decreases a,
{
    if a > 0 {
        lemma_pow10_add((a - 1) as nat, b);
        let x = pow10((a - 1) as nat);
        let y = pow10(b);
        assert(pow10(a) == 10 * x);
        assert((a + b - 1) as nat == (a - 1) as nat + b);
        assert(pow10(a + b) == 10 * pow10((a + b - 1) as nat));
        assert((10 * x) * y == 10 * (x * y)) by (nonlinear_arith);
        assert(x * y == pow10((a - 1) as nat + b));
        assert(pow10(a) * y == (10 * x) * y);
        assert(pow10(a) * pow10(b) == pow10(a + b));
    } else {
        lemma_times_one(pow10(a), pow10(b) as int);
    }
}

proof fn lemma_digits_value_concat(a: Seq<u8>, b: Seq<u8>)
    ensures
        digits_value(a + b) == digits_value(a) * pow10(b.len()) + digits_value(b),
    decreases b.len(),
{
    if b.len() == 0 {
        assert(a + b =~= a);
        lemma_times_one(pow10(b.len()), digits_value(a));
    } else {
        lemma_digits_value_concat(a, b.drop_last());
        assert((a + b).drop_last() =~= a + b.drop_last());
        assert((a + b).last() == b.last());
        let va = digits_value(a);
        let p = pow10((b.len() - 1) as nat);
        let vb = digits_value(b.drop_last());
        assert(digits_value(a + b) == digits_value(a + b.drop_last()) * 10 + (b.last() - ZERO));
        assert(digits_value(b) == vb * 10 + (b.last() - ZERO));
        assert(pow10(b.len()) == 10 * p);
        assert((va * p + vb) * 10 == va * (10 * p) + vb * 10) by (nonlinear_arith);
    }
}

proof fn lemma_zeros_value(n: nat)
    ensures
        digits_value(zeros(n)) == 0,
    decreases n,
{
    if n > 0 {
        assert(zeros(n).drop_last() =~= zeros((n - 1) as nat));
        lemma_zeros_value((n - 1) as nat);
    }
}

proof fn lemma_trim_zeros(s: Seq<u8>)
    ensures
        trim_zeros(s).len() <= s.len(),
        trim_zeros(s) =~= s.take(trim_zeros(s).len() as int),
        digits_value(s) == digits_value(trim_zeros(s)) * pow10((s.len() - trim_zeros(s).len()) as nat),
    decreases s.len(),
{
    if s.len() > 0 && s.last() == ZERO {
        lemma_trim_zeros(s.drop_last());
        let t = trim_zeros(s.drop_last());
        let k = (s.drop_last().len() - t.len()) as nat;
        assert(trim_zeros(s) == t);
        assert(digits_value(s) == digits_value(s.drop_last()) * 10 + (s.last() - ZERO));
        assert(digits_value(s) == digits_value(s.drop_last()) * 10);
        assert((s.len() - t.len()) as nat == k + 1);
        assert(pow10(k + 1) == 10 * pow10(k));
        assert(digits_value(t) * pow10(k) * 10 == digits_value(t) * (10 * pow10(k))) by (nonlinear_arith);
        assert(t =~= s.take(t.len() as int));
    } else {
        assert(trim_zeros(s) == s);
        assert(s =~= s.take(s.len() as int));
        lemma_times_one(pow10(0), digits_value(s));
    }
}

proof fn lemma_dot_index(a: Seq<u8>, b: Seq<u8>)
    requires
        all_digits(a),
    ensures
        dot_index(a + b) == a.len() + dot_index(b),
    decreases a.len(),
{
    if a.len() > 0 {
        assert((a + b)[0] == a[0]);
        assert((a + b).skip(1) =~= a.skip(1) + b);
        lemma_dot_index(a.skip(1), b);
    } else {
        assert(a + b =~= b);
    }
}

proof fn lemma_padded(units: int, scale: nat)
    ensures
        padded_digits(units, scale).len() > scale,
        all_digits(padded_digits(units, scale)),
        digits_value(padded_digits(units, scale)) == abs(units),
{
    let d = nat_digits(abs(units));
    let padded = padded_digits(units, scale);
    lemma_nat_digits(abs(units));
    lemma_nat_digits_are_digits(abs(units));
    if d.len() <= scale {
        let z = zeros((scale + 1 - d.len()) as nat);
        lemma_digits_value_concat(z, d);
        lemma_zeros_value((scale + 1 - d.len()) as nat);
        assert forall|i: int| 0 <= i < padded.len() implies ZERO <= #[trigger] padded[i] <= ZERO
            + 9 by {
            if i >= z.len() {
                assert(padded[i] == d[i - z.len()]);
            }
        }
    }
}

proof fn lemma_split_value(whole: Seq<u8>, full: Seq<u8>)
    ensures
        ({
            let fraction = trim_zeros(full);
            let f = fraction.len();
            (digits_value(whole) * pow10(f) + digits_value(fraction)) * pow10(
                (full.len() - f) as nat,
            ) == digits_value(whole + full)
        }),
{
    let fraction = trim_zeros(full);
    let f = fraction.len();
    lemma_trim_zeros(full);
    lemma_digits_value_concat(whole, full);
    let g = (full.len() - f) as nat;
    lemma_pow10_add(f, g);
    assert(f + g == full.len());
    let vw = digits_value(whole);
    let vf = digits_value(fraction);
    assert((vw * pow10(f) + vf) * pow10(g) == vw * (pow10(f) * pow10(g)) + vf * pow10(g))
        by (nonlinear_arith);
}

proof fn lemma_parse_parts(negative: bool, whole: Seq<u8>, fraction: Seq<u8>, scale: nat)
    requires
        whole.len() > 0,
        all_digits(whole),
        fraction.len() <= scale,
    ensures
        ({
            let tail = if fraction.len() == 0 {
                Seq::<u8>::empty()
            } else {
                seq![DOT] + fraction
            };
            let t = (if negative {
                seq![MINUS]
            } else {
                Seq::<u8>::empty()
            }) + whole + tail;
            let magnitude = (digits_value(whole) * pow10(fraction.len()) + digits_value(fraction))
                * pow10((scale - fraction.len()) as nat);
            real_scaled_value(t, scale) == if negative {
                -magnitude
            } else {
                magnitude
            }
        }),
{
    let tail = if fraction.len() == 0 {
        Seq::<u8>::empty()
    } else {
        seq![DOT] + fraction
    };
    let body = whole + tail;
    lemma_dot_index(whole, tail);
    if fraction.len() == 0 {
        assert(tail.len() == 0);
        assert(body.take(whole.len() as int) =~= whole);
    } else {
        assert(tail[0] == DOT);
        assert(body.take(whole.len() as int) =~= whole);
        assert(body.skip(whole.len() + 1int) =~= fraction);
    }
    let sign = if negative {
        seq![MINUS]
    } else {
        Seq::<u8>::empty()
    };
    let t = sign + whole + tail;
    if negative {
        assert(t =~= seq![MINUS] + body);
        assert(t.skip(1) =~= body);
    } else {
        assert(t =~= body);
        assert(t[0] == whole[0]);
    }
}

/// A real number is written in decimal: reading the written form back gives
/// the number, `units / 10^scale`.
pub proof fn law_real_roundtrip(units: int, scale: nat)
    ensures
        real_scaled_value(real_enc(units, scale), scale) == units,
{
    let padded = padded_digits(units, scale);
    lemma_padded(units, scale);
    let split = padded.len() - scale;
    let whole = padded.subrange(0, split);
    let full = padded.subrange(split, padded.len() as int);
    assert(padded =~= whole + full);
    assert(all_digits(whole));
    lemma_split_value(whole, full);
    lemma_trim_zeros(full);
    lemma_parse_parts(units < 0, whole, trim_zeros(full), scale);
    assert(full.len() == scale);
}

} // verus!
