//! Content streams: a sequence of operations, one per line, each made of
//! operands and an operator.

use vstd::prelude::*;
use vstd::string::{is_ascii, StringSliceAdditionalSpecFns};

use crate::encode::{
    array_enc, ascii, int_enc, lemma_op_line, lemma_sep_join_concat, lemma_sep_join_push, name_enc, op_line,
    separator, sep_join, trim_newline, LBRACKET, NEWLINE, RBRACKET, SPACE,
};
use crate::laws::{is_line_stream, law_empty_line_stream};
use crate::object::{encodings, tokens_enc, Array, Obj};
use crate::primitive::{push_all, static_bytes, Name, Primitive, Real, Str};

verus! {

broadcast use crate::laws::law_line_stream_grows;

/// A builder for a content stream.
pub struct Content {
    buf: Vec<u8>,
}

impl View for Content {
    type V = Seq<u8>;

    /// The bytes written so far.
    closed spec fn view(&self) -> Seq<u8> {
        self.buf@
    }
}

/// Core methods.
impl Content {
    /// Create a new content stream with the default buffer capacity
    /// (currently 1 KB).
    pub fn new() -> (c: Content)
        ensures
            c@ == Seq::<u8>::empty(),
            is_line_stream(c@),
    {
        proof {
            law_empty_line_stream();
        }
        Self::with_capacity(1024)
    }

    /// Create a new content stream with the specified initial buffer capacity.
    pub fn with_capacity(capacity: usize) -> (c: Content)
        ensures
            c@ == Seq::<u8>::empty(),
            is_line_stream(c@),
    {
        proof {
            law_empty_line_stream();
        }
        Content { buf: Vec::with_capacity(capacity) }
    }

    /// Start writing an arbitrary operation. The operator is written when
    /// the operation is finished with [`Operation::finish`].
    pub fn op<'a>(&'a mut self, operator: &'a str) -> (o: Operation<'a>)
        ensures
            o.buf@ == old(self)@,
            o.op == operator,
            o.first,
            final(o.buf)@ == final(self)@,
    {
        Operation::start(&mut self.buf, operator)
    }

    /// Return the raw constructed byte stream, without the newline that ends
    /// the last operation.
    pub fn finish(self) -> (r: Vec<u8>)
        ensures
            r@ == trim_newline(self@),
    {
        let mut buf = self.buf;
        let n = buf.len();
        if n > 0 && buf[n - 1] == NEWLINE {
            buf.pop();
        }
        buf
    }

    /// An operation without operands.
    fn simple(&mut self, operator: &'static str)
        requires
            is_ascii(operator),
        ensures
            final(self)@ == old(self)@ + op_line(seq![], ascii(operator@)),
    {
        proof {
            vstd::string::is_ascii_spec_bytes(operator);
            lemma_op_line(seq![], ascii(operator@));
        }
        assert(operator.spec_bytes() =~= ascii(operator@));
        self.op(operator).finish();
    }

    /// An operation with one operand.
    fn unary<T: Primitive>(&mut self, operator: &'static str, value: T)
        requires
            is_ascii(operator),
        ensures
            final(self)@ == old(self)@ + op_line(seq![value.encoding()], ascii(operator@)),
    {
        proof {
            vstd::string::is_ascii_spec_bytes(operator);
            lemma_op_line(seq![value.encoding()], ascii(operator@));
        }
        assert(operator.spec_bytes() =~= ascii(operator@));
        let mut o = self.op(operator);
        o.operand(value);
        o.finish();
    }

    /// An operation with the given operands.
    fn nary<T: Primitive + Copy>(&mut self, operator: &'static str, values: &[T])
        requires
            is_ascii(operator),
        ensures
            final(self)@ == old(self)@ + op_line(encodings(values@), ascii(operator@)),
    {
        proof {
            vstd::string::is_ascii_spec_bytes(operator);
            lemma_op_line(encodings(values@), ascii(operator@));
        }
        assert(operator.spec_bytes() =~= ascii(operator@));
        let mut o = self.op(operator);
        o.operands(values);
        o.finish();
    }

    /// An operation with two operands.
    fn binary<A: Primitive, B: Primitive>(&mut self, operator: &'static str, a: A, b: B)
        requires
            is_ascii(operator),
        ensures
            final(self)@ == old(self)@ + op_line(seq![a.encoding(), b.encoding()], ascii(operator@)),
    {
        proof {
            vstd::string::is_ascii_spec_bytes(operator);
            lemma_op_line(seq![a.encoding(), b.encoding()], ascii(operator@));
            lemma_sep_join_push(seq![a.encoding()], b.encoding());
            assert(seq![a.encoding()].push(b.encoding()) =~= seq![a.encoding(), b.encoding()]);
        }
        assert(operator.spec_bytes() =~= ascii(operator@));
        let mut o = self.op(operator);
        o.operand(a);
        o.operand(b);
        o.finish();
    }

    /// An operation with the given operands and then one more.
    fn nary_then<T: Primitive + Copy, U: Primitive>(&mut self, operator: &'static str, values: &[T], last: U)
        requires
            is_ascii(operator),
        ensures
            final(self)@ == old(self)@ + op_line(encodings(values@).push(last.encoding()), ascii(operator@)),
    {
        proof {
            vstd::string::is_ascii_spec_bytes(operator);
            lemma_op_line(encodings(values@).push(last.encoding()), ascii(operator@));
            lemma_sep_join_push(encodings(values@), last.encoding());
        }
        assert(operator.spec_bytes() =~= ascii(operator@));
        let mut o = self.op(operator);
        o.operands(values);
        o.operand(last);
        o.finish();
    }
}

/// General graphics state.
impl Content {
    /// `w`: Set the stroke line width.
    ///
    /// The width must not be negative.
    pub fn set_line_width(&mut self, width: Real) -> (res: &mut Self)
        requires
            !width.is_negative(),
        ensures
            res@ == old(self)@ + op_line(seq![width.encoding()], ascii("w"@)),
            is_line_stream(old(self)@) ==> is_line_stream(res@),
            *final(self) == *final(res),
    {
        proof {
            reveal_strlit("w");
        }
        self.unary("w", width);
        self
    }

    /// `J`: Set the line cap style.
    pub fn set_line_cap(&mut self, cap: LineCapStyle) -> (res: &mut Self)
        ensures
            res@ == old(self)@ + op_line(seq![int_enc(cap.code())], ascii("J"@)),
            is_line_stream(old(self)@) ==> is_line_stream(res@),
            *final(self) == *final(res),
    {
        proof {
            reveal_strlit("J");
        }
        self.unary("J", cap.to_int());
        self
    }

    /// `j`: Set the line join style.
    pub fn set_line_join(&mut self, join: LineJoinStyle) -> (res: &mut Self)
        ensures
            res@ == old(self)@ + op_line(seq![int_enc(join.code())], ascii("j"@)),
            is_line_stream(old(self)@) ==> is_line_stream(res@),
            *final(self) == *final(res),
    {
        proof {
            reveal_strlit("j");
        }
        self.unary("j", join.to_int());
        self
    }

    /// `M`: Set the miter limit.
    pub fn set_miter_limit(&mut self, limit: Real) -> (res: &mut Self)
        ensures
            res@ == old(self)@ + op_line(seq![limit.encoding()], ascii("M"@)),
            is_line_stream(old(self)@) ==> is_line_stream(res@),
            *final(self) == *final(res),
    {
        proof {
            reveal_strlit("M");
        }
        self.unary("M", limit);
        self
    }

    /// `d`: Set the line dash pattern.
    pub fn set_dash_pattern(&mut self, array: &[Real], phase: Real) -> (res: &mut Self)
        requires
            array@.len() <= i32::MAX,
        ensures
            res@ == old(self)@ + op_line(
                seq![array_enc(encodings(array@)), phase.encoding()],
                ascii("d"@),
            ),
            is_line_stream(old(self)@) ==> is_line_stream(res@),
            *final(self) == *final(res),
    {
        proof {
            reveal_strlit("d");
            vstd::string::is_ascii_spec_bytes("d");
        }
        let ghost start = self@;
        let ghost items = array_enc(encodings(array@));
        let mut op = self.op("d");
        let mut list = op.obj().array();
        list.items(array);
        list.finish();
        op.operand(phase);
        op.finish();
        proof {
            assert("d".spec_bytes() =~= ascii("d"@));
            assert(tokens_enc(true, encodings(array@)) == sep_join(encodings(array@)));
            lemma_op_line(seq![items, phase.encoding()], ascii("d"@));
            lemma_sep_join_push(seq![items], phase.encoding());
            assert(seq![items].push(phase.encoding()) =~= seq![items, phase.encoding()]);
            assert(self@ =~= start + op_line(seq![items, phase.encoding()], ascii("d"@)));
        }
        self
    }

    /// `ri`: Set the color rendering intent to the parameter. PDF 1.1+.
    pub fn set_rendering_intent(&mut self, intent: RenderingIntent) -> (res: &mut Self)
        ensures
            res@ == old(self)@ + op_line(seq![name_enc(intent.name_bytes())], ascii("ri"@)),
            is_line_stream(old(self)@) ==> is_line_stream(res@),
            *final(self) == *final(res),
    {
        proof {
            reveal_strlit("ri");
        }
        self.unary("ri", intent.to_name());
        self
    }

    /// `i`: Set the flatness tolerance in device pixels.
    ///
    /// The tolerance must lie between 0 and 100.
    pub fn set_flatness(&mut self, tolerance: i32) -> (res: &mut Self)
        requires
            0 <= tolerance <= 100,
        ensures
            res@ == old(self)@ + op_line(seq![int_enc(tolerance as int)], ascii("i"@)),
            is_line_stream(old(self)@) ==> is_line_stream(res@),
            *final(self) == *final(res),
    {
        proof {
            reveal_strlit("i");
        }
        self.unary("i", tolerance);
        self
    }

    /// `gs`: Set the parameters from an `ExtGState` dictionary. PDF 1.2+.
    pub fn set_parameters(&mut self, dict: Name) -> (res: &mut Self)
        ensures
            res@ == old(self)@ + op_line(seq![dict.encoding()], ascii("gs"@)),
            is_line_stream(old(self)@) ==> is_line_stream(res@),
            *final(self) == *final(res),
    {
        proof {
            reveal_strlit("gs");
        }
        self.unary("gs", dict);
        self
    }

}

/// Special graphics state.
impl Content {
    /// `q`: Save the graphics state on the stack.
    pub fn save_state(&mut self) -> (res: &mut Self)
        ensures
            res@ == old(self)@ + op_line(seq![], ascii("q"@)),
            is_line_stream(old(self)@) ==> is_line_stream(res@),
            *final(self) == *final(res),
    {
        proof {
            reveal_strlit("q");
        }
        self.simple("q");
        self
    }

    /// `Q`: Restore the graphics state from the stack.
    pub fn restore_state(&mut self) -> (res: &mut Self)
        ensures
            res@ == old(self)@ + op_line(seq![], ascii("Q"@)),
            is_line_stream(old(self)@) ==> is_line_stream(res@),
            *final(self) == *final(res),
    {
        proof {
            reveal_strlit("Q");
        }
        self.simple("Q");
        self
    }

    /// `cm`: Pre-concatenate the `matrix` with the current transformation
    /// matrix.
    pub fn transform(&mut self, matrix: [Real; 6]) -> (res: &mut Self)
        ensures
            res@ == old(self)@ + op_line(encodings(matrix@), ascii("cm"@)),
            is_line_stream(old(self)@) ==> is_line_stream(res@),
            *final(self) == *final(res),
    {
        proof {
            reveal_strlit("cm");
        }
        self.nary("cm", &matrix);
        self
    }

}

/// Path construction.
impl Content {
    /// `m`: Begin a new subpath at (x, y).
    pub fn move_to(&mut self, x: Real, y: Real) -> (res: &mut Self)
        ensures
            res@ == old(self)@ + op_line(seq![x.encoding(), y.encoding()], ascii("m"@)),
            is_line_stream(old(self)@) ==> is_line_stream(res@),
            *final(self) == *final(res),
    {
        proof {
            reveal_strlit("m");
        }
        let values = [x, y];
        self.nary("m", &values);
        assert(encodings(values@) =~= seq![x.encoding(), y.encoding()]);
        self
    }

    /// `l`: Append a straight line to (x, y).
    pub fn line_to(&mut self, x: Real, y: Real) -> (res: &mut Self)
        ensures
            res@ == old(self)@ + op_line(seq![x.encoding(), y.encoding()], ascii("l"@)),
            is_line_stream(old(self)@) ==> is_line_stream(res@),
            *final(self) == *final(res),
    {
        proof {
            reveal_strlit("l");
        }
        let values = [x, y];
        self.nary("l", &values);
        assert(encodings(values@) =~= seq![x.encoding(), y.encoding()]);
        self
    }

    /// `c`: Append a cubic Bézier segment to (x3, y3) with (x1, y1), (x2, y2)
    /// as control points.
    pub fn cubic_to(&mut self, x1: Real, y1: Real, x2: Real, y2: Real, x3: Real, y3: Real) -> (res: &mut Self)
        ensures
            res@ == old(self)@ + op_line(seq![x1.encoding(), y1.encoding(), x2.encoding(), y2.encoding(), x3.encoding(), y3.encoding()], ascii("c"@)),
            is_line_stream(old(self)@) ==> is_line_stream(res@),
            *final(self) == *final(res),
    {
        proof {
            reveal_strlit("c");
        }
        let values = [x1, y1, x2, y2, x3, y3];
        self.nary("c", &values);
        assert(encodings(values@) =~= seq![x1.encoding(), y1.encoding(), x2.encoding(), y2.encoding(), x3.encoding(), y3.encoding()]);
        self
    }

    /// `v`: Append a cubic Bézier segment to (x3, y3) with (x2, y2) as control
    /// point.
    pub fn cubic_to_initial(&mut self, x2: Real, y2: Real, x3: Real, y3: Real) -> (res: &mut Self)
        ensures
            res@ == old(self)@ + op_line(seq![x2.encoding(), y2.encoding(), x3.encoding(), y3.encoding()], ascii("v"@)),
            is_line_stream(old(self)@) ==> is_line_stream(res@),
            *final(self) == *final(res),
    {
        proof {
            reveal_strlit("v");
        }
        let values = [x2, y2, x3, y3];
        self.nary("v", &values);
        assert(encodings(values@) =~= seq![x2.encoding(), y2.encoding(), x3.encoding(), y3.encoding()]);
        self
    }

    /// `y`: Append a cubic Bézier segment to (x3, y3) with (x1, y1) as control
    /// point.
    pub fn cubic_to_final(&mut self, x1: Real, y1: Real, x3: Real, y3: Real) -> (res: &mut Self)
        ensures
            res@ == old(self)@ + op_line(seq![x1.encoding(), y1.encoding(), x3.encoding(), y3.encoding()], ascii("y"@)),
            is_line_stream(old(self)@) ==> is_line_stream(res@),
            *final(self) == *final(res),
    {
        proof {
            reveal_strlit("y");
        }
        let values = [x1, y1, x3, y3];
        self.nary("y", &values);
        assert(encodings(values@) =~= seq![x1.encoding(), y1.encoding(), x3.encoding(), y3.encoding()]);
        self
    }

    /// `h`: Close the current subpath with a straight line.
    pub fn close_path(&mut self) -> (res: &mut Self)
        ensures
            res@ == old(self)@ + op_line(seq![], ascii("h"@)),
            is_line_stream(old(self)@) ==> is_line_stream(res@),
            *final(self) == *final(res),
    {
        proof {
            reveal_strlit("h");
        }
        self.simple("h");
        self
    }

    /// `re`: Append a rectangle to the current path.
    pub fn rect(&mut self, x: Real, y: Real, width: Real, height: Real) -> (res: &mut Self)
        ensures
            res@ == old(self)@ + op_line(seq![x.encoding(), y.encoding(), width.encoding(), height.encoding()], ascii("re"@)),
            is_line_stream(old(self)@) ==> is_line_stream(res@),
            *final(self) == *final(res),
    {
        proof {
            reveal_strlit("re");
        }
        let values = [x, y, width, height];
        self.nary("re", &values);
        assert(encodings(values@) =~= seq![x.encoding(), y.encoding(), width.encoding(), height.encoding()]);
        self
    }

}

/// Path painting.
impl Content {
    /// `S`: Stroke the current path.
    pub fn stroke(&mut self) -> (res: &mut Self)
        ensures
            res@ == old(self)@ + op_line(seq![], ascii("S"@)),
            is_line_stream(old(self)@) ==> is_line_stream(res@),
            *final(self) == *final(res),
    {
        proof {
            reveal_strlit("S");
        }
        self.simple("S");
        self
    }

    /// `s`: Close the current path and then stroke it.
    pub fn close_and_stroke(&mut self) -> (res: &mut Self)
        ensures
            res@ == old(self)@ + op_line(seq![], ascii("s"@)),
            is_line_stream(old(self)@) ==> is_line_stream(res@),
            *final(self) == *final(res),
    {
        proof {
            reveal_strlit("s");
        }
        self.simple("s");
        self
    }

    /// `f`: Fill the current path using the nonzero winding number rule.
    pub fn fill_nonzero(&mut self) -> (res: &mut Self)
        ensures
            res@ == old(self)@ + op_line(seq![], ascii("f"@)),
            is_line_stream(old(self)@) ==> is_line_stream(res@),
            *final(self) == *final(res),
    {
        proof {
            reveal_strlit("f");
        }
        self.simple("f");
        self
    }

    /// `f*`: Fill the current path using the even-odd rule.
    pub fn fill_even_odd(&mut self) -> (res: &mut Self)
        ensures
            res@ == old(self)@ + op_line(seq![], ascii("f*"@)),
            is_line_stream(old(self)@) ==> is_line_stream(res@),
            *final(self) == *final(res),
    {
        proof {
            reveal_strlit("f*");
        }
        self.simple("f*");
        self
    }

    /// `B`: Fill the current path using the nonzero winding number rule and
    /// then stroke it.
    pub fn fill_nonzero_and_stroke(&mut self) -> (res: &mut Self)
        ensures
            res@ == old(self)@ + op_line(seq![], ascii("B"@)),
            is_line_stream(old(self)@) ==> is_line_stream(res@),
            *final(self) == *final(res),
    {
        proof {
            reveal_strlit("B");
        }
        self.simple("B");
        self
    }

    /// `B*`: Fill the current path using the even-odd rule and then stroke it.
    pub fn fill_even_odd_and_stroke(&mut self) -> (res: &mut Self)
        ensures
            res@ == old(self)@ + op_line(seq![], ascii("B*"@)),
            is_line_stream(old(self)@) ==> is_line_stream(res@),
            *final(self) == *final(res),
    {
        proof {
            reveal_strlit("B*");
        }
        self.simple("B*");
        self
    }

    /// `b`: Close the current path, fill it using the nonzero winding number
    /// rule and then stroke it.
    pub fn close_fill_nonzero_and_stroke(&mut self) -> (res: &mut Self)
        ensures
            res@ == old(self)@ + op_line(seq![], ascii("b"@)),
            is_line_stream(old(self)@) ==> is_line_stream(res@),
            *final(self) == *final(res),
    {
        proof {
            reveal_strlit("b");
        }
        self.simple("b");
        self
    }

    /// `b*`: Close the current path, fill it using the even-odd rule and then
    /// stroke it.
    pub fn close_fill_even_odd_and_stroke(&mut self) -> (res: &mut Self)
        ensures
            res@ == old(self)@ + op_line(seq![], ascii("b*"@)),
            is_line_stream(old(self)@) ==> is_line_stream(res@),
            *final(self) == *final(res),
    {
        proof {
            reveal_strlit("b*");
        }
        self.simple("b*");
        self
    }

    /// `n`: End the current path without filling or stroking it.
    ///
    /// This is primarily used for clipping paths.
    pub fn end_path(&mut self) -> (res: &mut Self)
        ensures
            res@ == old(self)@ + op_line(seq![], ascii("n"@)),
            is_line_stream(old(self)@) ==> is_line_stream(res@),
            *final(self) == *final(res),
    {
        proof {
            reveal_strlit("n");
        }
        self.simple("n");
        self
    }

}

/// Clipping paths.
impl Content {
    /// `W`: Intersect the current clipping path with the current path using the
    /// nonzero winding number rule.
    pub fn clip_nonzero(&mut self) -> (res: &mut Self)
        ensures
            res@ == old(self)@ + op_line(seq![], ascii("W"@)),
            is_line_stream(old(self)@) ==> is_line_stream(res@),
            *final(self) == *final(res),
    {
        proof {
            reveal_strlit("W");
        }
        self.simple("W");
        self
    }

    /// `W*`: Intersect the current clipping path with the current path using
    /// the even-odd rule.
    pub fn clip_even_odd(&mut self) -> (res: &mut Self)
        ensures
            res@ == old(self)@ + op_line(seq![], ascii("W*"@)),
            is_line_stream(old(self)@) ==> is_line_stream(res@),
            *final(self) == *final(res),
    {
        proof {
            reveal_strlit("W*");
        }
        self.simple("W*");
        self
    }

}

/// Text objects.
impl Content {
    /// `BT`: Begin a text object.
    pub fn begin_text(&mut self) -> (res: &mut Self)
        ensures
            res@ == old(self)@ + op_line(seq![], ascii("BT"@)),
            is_line_stream(old(self)@) ==> is_line_stream(res@),
            *final(self) == *final(res),
    {
        proof {
            reveal_strlit("BT");
        }
        self.simple("BT");
        self
    }

    /// `ET`: End a text object.
    pub fn end_text(&mut self) -> (res: &mut Self)
        ensures
            res@ == old(self)@ + op_line(seq![], ascii("ET"@)),
            is_line_stream(old(self)@) ==> is_line_stream(res@),
            *final(self) == *final(res),
    {
        proof {
            reveal_strlit("ET");
        }
        self.simple("ET");
        self
    }

}

/// Text state.
impl Content {
    /// `Tc`: Set the character spacing.
    pub fn set_char_spacing(&mut self, spacing: Real) -> (res: &mut Self)
        ensures
            res@ == old(self)@ + op_line(seq![spacing.encoding()], ascii("Tc"@)),
            is_line_stream(old(self)@) ==> is_line_stream(res@),
            *final(self) == *final(res),
    {
        proof {
            reveal_strlit("Tc");
        }
        self.unary("Tc", spacing);
        self
    }

    /// `Tw`: Set the word spacing.
    pub fn set_word_spacing(&mut self, spacing: Real) -> (res: &mut Self)
        ensures
            res@ == old(self)@ + op_line(seq![spacing.encoding()], ascii("Tw"@)),
            is_line_stream(old(self)@) ==> is_line_stream(res@),
            *final(self) == *final(res),
    {
        proof {
            reveal_strlit("Tw");
        }
        self.unary("Tw", spacing);
        self
    }

    /// `Tz`: Set the horizontal scaling.
    pub fn set_horizontal_scaling(&mut self, scaling: Real) -> (res: &mut Self)
        ensures
            res@ == old(self)@ + op_line(seq![scaling.encoding()], ascii("Tz"@)),
            is_line_stream(old(self)@) ==> is_line_stream(res@),
            *final(self) == *final(res),
    {
        proof {
            reveal_strlit("Tz");
        }
        self.unary("Tz", scaling);
        self
    }

    /// `TL`: Set the leading.
    pub fn set_leading(&mut self, leading: Real) -> (res: &mut Self)
        ensures
            res@ == old(self)@ + op_line(seq![leading.encoding()], ascii("TL"@)),
            is_line_stream(old(self)@) ==> is_line_stream(res@),
            *final(self) == *final(res),
    {
        proof {
            reveal_strlit("TL");
        }
        self.unary("TL", leading);
        self
    }

    /// `Tf`: Set font and font size.
    pub fn set_font(&mut self, font: Name, size: Real) -> (res: &mut Self)
        ensures
            res@ == old(self)@ + op_line(seq![font.encoding(), size.encoding()], ascii("Tf"@)),
            is_line_stream(old(self)@) ==> is_line_stream(res@),
            *final(self) == *final(res),
    {
        proof {
            reveal_strlit("Tf");
        }
        self.binary("Tf", font, size);
        self
    }

    /// `Tr`: Set the text rendering mode.
    pub fn set_text_rendering_mode(&mut self, mode: TextRenderingMode) -> (res: &mut Self)
        ensures
            res@ == old(self)@ + op_line(seq![int_enc(mode.code())], ascii("Tr"@)),
            is_line_stream(old(self)@) ==> is_line_stream(res@),
            *final(self) == *final(res),
    {
        proof {
            reveal_strlit("Tr");
        }
        self.unary("Tr", mode.to_int());
        self
    }

    /// `Ts`: Set the rise.
    pub fn set_rise(&mut self, rise: Real) -> (res: &mut Self)
        ensures
            res@ == old(self)@ + op_line(seq![rise.encoding()], ascii("Ts"@)),
            is_line_stream(old(self)@) ==> is_line_stream(res@),
            *final(self) == *final(res),
    {
        proof {
            reveal_strlit("Ts");
        }
        self.unary("Ts", rise);
        self
    }

}

/// Text positioning.
impl Content {
    /// `Td`: Move to the start of the next line.
    pub fn next_line(&mut self, x: Real, y: Real) -> (res: &mut Self)
        ensures
            res@ == old(self)@ + op_line(seq![x.encoding(), y.encoding()], ascii("Td"@)),
            is_line_stream(old(self)@) ==> is_line_stream(res@),
            *final(self) == *final(res),
    {
        proof {
            reveal_strlit("Td");
        }
        let values = [x, y];
        self.nary("Td", &values);
        assert(encodings(values@) =~= seq![x.encoding(), y.encoding()]);
        self
    }

    /// `TD`: Move to the start of the next line and set the text state's
    /// leading parameter to `-y`.
    pub fn next_line_and_set_leading(&mut self, x: Real, y: Real) -> (res: &mut Self)
        ensures
            res@ == old(self)@ + op_line(seq![x.encoding(), y.encoding()], ascii("TD"@)),
            is_line_stream(old(self)@) ==> is_line_stream(res@),
            *final(self) == *final(res),
    {
        proof {
            reveal_strlit("TD");
        }
        let values = [x, y];
        self.nary("TD", &values);
        assert(encodings(values@) =~= seq![x.encoding(), y.encoding()]);
        self
    }

    /// `Tm`: Set the text matrix.
    pub fn set_text_matrix(&mut self, matrix: [Real; 6]) -> (res: &mut Self)
        ensures
            res@ == old(self)@ + op_line(encodings(matrix@), ascii("Tm"@)),
            is_line_stream(old(self)@) ==> is_line_stream(res@),
            *final(self) == *final(res),
    {
        proof {
            reveal_strlit("Tm");
        }
        self.nary("Tm", &matrix);
        self
    }

    /// `T*`: Move to the start of the next line, determing the vertical offset
    /// through the text state's leading parameter.
    pub fn next_line_using_leading(&mut self) -> (res: &mut Self)
        ensures
            res@ == old(self)@ + op_line(seq![], ascii("T*"@)),
            is_line_stream(old(self)@) ==> is_line_stream(res@),
            *final(self) == *final(res),
    {
        proof {
            reveal_strlit("T*");
        }
        self.simple("T*");
        self
    }

}

/// Text showing.
impl Content {
    /// `Tj`: Show text.
    ///
    /// The encoding of the text depends on the font.
    pub fn show(&mut self, text: Str) -> (res: &mut Self)
        ensures
            res@ == old(self)@ + op_line(seq![text.encoding()], ascii("Tj"@)),
            is_line_stream(old(self)@) ==> is_line_stream(res@),
            *final(self) == *final(res),
    {
        proof {
            reveal_strlit("Tj");
        }
        self.unary("Tj", text);
        self
    }

    /// `'`: Move to the next line and show text.
    pub fn next_line_show(&mut self, text: Str) -> (res: &mut Self)
        ensures
            res@ == old(self)@ + op_line(seq![text.encoding()], ascii("'"@)),
            is_line_stream(old(self)@) ==> is_line_stream(res@),
            *final(self) == *final(res),
    {
        proof {
            reveal_strlit("'");
        }
        self.unary("'", text);
        self
    }

    /// `"`: Move to the next line, show text and set the text state's word and
    /// character spacing.
    pub fn next_line_show_and_set_word_and_char_spacing(
        &mut self,
        word_spacing: Real,
        char_spacing: Real,
        text: Str,
    ) -> (res: &mut Self)
        ensures
            res@ == old(self)@ + op_line(
                seq![word_spacing.encoding(), char_spacing.encoding(), text.encoding()],
                ascii("\""@),
            ),
            is_line_stream(old(self)@) ==> is_line_stream(res@),
            *final(self) == *final(res),
    {
        proof {
            reveal_strlit("\"");
        }
        let values = [word_spacing, char_spacing];
        self.nary_then("\"", &values, text);
        assert(encodings(values@).push(text.encoding()) =~= seq![
            word_spacing.encoding(),
            char_spacing.encoding(),
            text.encoding(),
        ]);
        self
    }

    /// `TJ`: Show text with individual glyph positioning. Write the operator
    /// with [`ShowPositioned::finish`].
    pub fn show_positioned(&mut self) -> (s: ShowPositioned<'_>)
        ensures
            s.op.buf@ == old(self)@,
            s.op.op.spec_bytes() == ascii("TJ"@),
            s.op.first,
            final(s.op.buf)@ == final(self)@,
    {
        proof {
            reveal_strlit("TJ");
            vstd::string::is_ascii_spec_bytes("TJ");
        }
        assert("TJ".spec_bytes() =~= ascii("TJ"@));
        ShowPositioned::start(self.op("TJ"))
    }

}

/// Type 3 fonts.
///
/// These operators are only allowed in Type 3 glyph descriptions.
impl Content {
    /// `d0`: Starts a Type 3 glyph that contains color information.
    /// - `wx` defines the glyph's width
    /// - `wy` is set to 0 automatically
    pub fn start_color_glyph(&mut self, wx: Real) -> (res: &mut Self)
        ensures
            res@ == old(self)@ + op_line(seq![wx.encoding(), int_enc(0)], ascii("d0"@)),
            is_line_stream(old(self)@) ==> is_line_stream(res@),
            *final(self) == *final(res),
    {
        proof {
            reveal_strlit("d0");
        }
        self.binary("d0", wx, 0i32);
        self
    }

    /// `d1`: Starts a Type 3 glyph that contains only shape information.
    /// - `wx` defines the glyph's width
    /// - `wy` is set to 0 automatically
    /// - `ll_x` and `ll_y` define the lower-left corner of the glyph bounding box
    /// - `ur_x` and `ur_y` define the upper-right corner of the glyph bounding box
    pub fn start_shape_glyph(
        &mut self,
        wx: Real,
        ll_x: Real,
        ll_y: Real,
        ur_x: Real,
        ur_y: Real,
    ) -> (res: &mut Self)
        ensures
            res@ == old(self)@ + op_line(
                seq![
                    wx.encoding(),
                    int_enc(0),
                    ll_x.encoding(),
                    ll_y.encoding(),
                    ur_x.encoding(),
                    ur_y.encoding(),
                ],
                ascii("d1"@),
            ),
            is_line_stream(old(self)@) ==> is_line_stream(res@),
            *final(self) == *final(res),
    {
        proof {
            reveal_strlit("d1");
            vstd::string::is_ascii_spec_bytes("d1");
        }
        let ghost start = self@;
        let corners = [ll_x, ll_y, ur_x, ur_y];
        let mut op = self.op("d1");
        op.operand(wx);
        op.operand(0i32);
        op.operands(&corners);
        op.finish();
        proof {
            let head = seq![wx.encoding(), int_enc(0)];
            let all = head + encodings(corners@);
            assert("d1".spec_bytes() =~= ascii("d1"@));
            assert(sep_join(head) == wx.encoding() + seq![SPACE] + int_enc(0)) by {
                lemma_sep_join_push(seq![wx.encoding()], int_enc(0));
                assert(seq![wx.encoding()].push(int_enc(0)) =~= head);
            }
            lemma_sep_join_concat(head, encodings(corners@));
            lemma_op_line(all, ascii("d1"@));
            assert(all =~= seq![
                wx.encoding(),
                int_enc(0),
                ll_x.encoding(),
                ll_y.encoding(),
                ur_x.encoding(),
                ur_y.encoding(),
            ]);
            assert(self@ =~= start + op_line(all, ascii("d1"@)));
        }
        self
    }

}

/// Color.
impl Content {
    /// `CS`: Set the stroke color space to the parameter. PDF 1.1+.
    ///
    /// The parameter must be the name of a parameter-less color space or of a
    /// color space dictionary within the current resource dictionary.
    pub fn set_stroke_color_space(&mut self, space: ColorSpaceOperand) -> (res: &mut Self)
        ensures
            res@ == old(self)@ + op_line(seq![name_enc(space.name_bytes())], ascii("CS"@)),
            is_line_stream(old(self)@) ==> is_line_stream(res@),
            *final(self) == *final(res),
    {
        proof {
            reveal_strlit("CS");
        }
        self.unary("CS", space.to_name());
        self
    }

    /// `cs`: Set the fill color space to the parameter. PDF 1.1+.
    ///
    /// The parameter must be the name of a parameter-less color space or of a
    /// color space dictionary within the current resource dictionary.
    pub fn set_fill_color_space(&mut self, space: ColorSpaceOperand) -> (res: &mut Self)
        ensures
            res@ == old(self)@ + op_line(seq![name_enc(space.name_bytes())], ascii("cs"@)),
            is_line_stream(old(self)@) ==> is_line_stream(res@),
            *final(self) == *final(res),
    {
        proof {
            reveal_strlit("cs");
        }
        self.unary("cs", space.to_name());
        self
    }

    /// `SCN`: Set the stroke color to the parameter within the current color
    /// space. PDF 1.2+.
    pub fn set_stroke_color(&mut self, color: &[Real]) -> (res: &mut Self)
        ensures
            res@ == old(self)@ + op_line(encodings(color@), ascii("SCN"@)),
            is_line_stream(old(self)@) ==> is_line_stream(res@),
            *final(self) == *final(res),
    {
        proof {
            reveal_strlit("SCN");
        }
        self.nary("SCN", &color);
        self
    }

    /// `SCN`: Set the stroke pattern. PDF 1.2+.
    ///
    /// The `name` parameter is the name of a pattern. If this is an uncolored
    /// pattern, a tint color in the current `Pattern` base color space must be
    /// given, otherwise, the `tint` slice shall remain empty.
    pub fn set_stroke_pattern(&mut self, tint: &[Real], name: Name) -> (res: &mut Self)
        ensures
            res@ == old(self)@ + op_line(encodings(tint@).push(name.encoding()), ascii("SCN"@)),
            is_line_stream(old(self)@) ==> is_line_stream(res@),
            *final(self) == *final(res),
    {
        proof {
            reveal_strlit("SCN");
        }
        self.nary_then("SCN", tint, name);
        self
    }

    /// `scn`: Set the fill color to the parameter within the current color
    /// space. PDF 1.2+.
    pub fn set_fill_color(&mut self, color: &[Real]) -> (res: &mut Self)
        ensures
            res@ == old(self)@ + op_line(encodings(color@), ascii("scn"@)),
            is_line_stream(old(self)@) ==> is_line_stream(res@),
            *final(self) == *final(res),
    {
        proof {
            reveal_strlit("scn");
        }
        self.nary("scn", &color);
        self
    }

    /// `scn`: Set the fill pattern. PDF 1.2+.
    ///
    /// The `name` parameter is the name of a pattern. If this is an uncolored
    /// pattern, a tint color in the current `Pattern` base color space must be
    /// given, otherwise, the `tint` slice shall remain empty.
    pub fn set_fill_pattern(&mut self, tint: &[Real], name: Name) -> (res: &mut Self)
        ensures
            res@ == old(self)@ + op_line(encodings(tint@).push(name.encoding()), ascii("scn"@)),
            is_line_stream(old(self)@) ==> is_line_stream(res@),
            *final(self) == *final(res),
    {
        proof {
            reveal_strlit("scn");
        }
        self.nary_then("scn", tint, name);
        self
    }

    /// `G`: Set the stroke color to the parameter and the color space to
    /// `DeviceGray`.
    pub fn set_stroke_gray(&mut self, gray: Real) -> (res: &mut Self)
        ensures
            res@ == old(self)@ + op_line(seq![gray.encoding()], ascii("G"@)),
            is_line_stream(old(self)@) ==> is_line_stream(res@),
            *final(self) == *final(res),
    {
        proof {
            reveal_strlit("G");
        }
        self.unary("G", gray);
        self
    }

    /// `g`: Set the fill color to the parameter and the color space to
    /// `DeviceGray`.
    pub fn set_fill_gray(&mut self, gray: Real) -> (res: &mut Self)
        ensures
            res@ == old(self)@ + op_line(seq![gray.encoding()], ascii("g"@)),
            is_line_stream(old(self)@) ==> is_line_stream(res@),
            *final(self) == *final(res),
    {
        proof {
            reveal_strlit("g");
        }
        self.unary("g", gray);
        self
    }

    /// `RG`: Set the stroke color to the parameter and the color space to
    /// `DeviceRGB`.
    pub fn set_stroke_rgb(&mut self, r: Real, g: Real, b: Real) -> (res: &mut Self)
        ensures
            res@ == old(self)@ + op_line(seq![r.encoding(), g.encoding(), b.encoding()], ascii("RG"@)),
            is_line_stream(old(self)@) ==> is_line_stream(res@),
            *final(self) == *final(res),
    {
        proof {
            reveal_strlit("RG");
        }
        let values = [r, g, b];
        self.nary("RG", &values);
        assert(encodings(values@) =~= seq![r.encoding(), g.encoding(), b.encoding()]);
        self
    }

    /// `rg`: Set the fill color to the parameter and the color space to
    /// `DeviceRGB`.
    pub fn set_fill_rgb(&mut self, r: Real, g: Real, b: Real) -> (res: &mut Self)
        ensures
            res@ == old(self)@ + op_line(seq![r.encoding(), g.encoding(), b.encoding()], ascii("rg"@)),
            is_line_stream(old(self)@) ==> is_line_stream(res@),
            *final(self) == *final(res),
    {
        proof {
            reveal_strlit("rg");
        }
        let values = [r, g, b];
        self.nary("rg", &values);
        assert(encodings(values@) =~= seq![r.encoding(), g.encoding(), b.encoding()]);
        self
    }

    /// `K`: Set the stroke color to the parameter and the color space to
    /// `DeviceCMYK`.
    pub fn set_stroke_cmyk(&mut self, c: Real, m: Real, y: Real, k: Real) -> (res: &mut Self)
        ensures
            res@ == old(self)@ + op_line(seq![c.encoding(), m.encoding(), y.encoding(), k.encoding()], ascii("K"@)),
            is_line_stream(old(self)@) ==> is_line_stream(res@),
            *final(self) == *final(res),
    {
        proof {
            reveal_strlit("K");
        }
        let values = [c, m, y, k];
        self.nary("K", &values);
        assert(encodings(values@) =~= seq![c.encoding(), m.encoding(), y.encoding(), k.encoding()]);
        self
    }

    /// `k`: Set the fill color to the parameter and the color space to
    /// `DeviceCMYK`.
    pub fn set_fill_cmyk(&mut self, c: Real, m: Real, y: Real, k: Real) -> (res: &mut Self)
        ensures
            res@ == old(self)@ + op_line(seq![c.encoding(), m.encoding(), y.encoding(), k.encoding()], ascii("k"@)),
            is_line_stream(old(self)@) ==> is_line_stream(res@),
            *final(self) == *final(res),
    {
        proof {
            reveal_strlit("k");
        }
        let values = [c, m, y, k];
        self.nary("k", &values);
        assert(encodings(values@) =~= seq![c.encoding(), m.encoding(), y.encoding(), k.encoding()]);
        self
    }

}

/// Shading patterns.
impl Content {
    /// `sh`: Fill the whole drawing area with the specified shading.
    pub fn shading(&mut self, shading: Name) -> (res: &mut Self)
        ensures
            res@ == old(self)@ + op_line(seq![shading.encoding()], ascii("sh"@)),
            is_line_stream(old(self)@) ==> is_line_stream(res@),
            *final(self) == *final(res),
    {
        proof {
            reveal_strlit("sh");
        }
        self.unary("sh", shading);
        self
    }

}

/// XObjects.
impl Content {
    /// `Do`: Write an external object.
    pub fn x_object(&mut self, name: Name) -> (res: &mut Self)
        ensures
            res@ == old(self)@ + op_line(seq![name.encoding()], ascii("Do"@)),
            is_line_stream(old(self)@) ==> is_line_stream(res@),
            *final(self) == *final(res),
    {
        proof {
            reveal_strlit("Do");
        }
        self.unary("Do", name);
        self
    }

}

/// Compatibility.
impl Content {
    /// `BX`: Begin a compatability section.
    pub fn begin_compat(&mut self) -> (res: &mut Self)
        ensures
            res@ == old(self)@ + op_line(seq![], ascii("BX"@)),
            is_line_stream(old(self)@) ==> is_line_stream(res@),
            *final(self) == *final(res),
    {
        proof {
            reveal_strlit("BX");
        }
        self.simple("BX");
        self
    }

    /// `EX`: End a compatability section.
    pub fn end_compat(&mut self) -> (res: &mut Self)
        ensures
            res@ == old(self)@ + op_line(seq![], ascii("EX"@)),
            is_line_stream(old(self)@) ==> is_line_stream(res@),
            *final(self) == *final(res),
    {
        proof {
            reveal_strlit("EX");
        }
        self.simple("EX");
        self
    }

}

/// Writer for an _operation_ in a content stream. Write the operator with
/// [`Operation::finish`].
///
/// This struct is created by [`Content::op`].
pub struct Operation<'a> {
    /// The buffer of the content stream.
    pub buf: &'a mut Vec<u8>,
    /// The operator, written last.
    pub op: &'a str,
    /// Whether no operand was written yet.
    pub first: bool,
}

impl<'a> Operation<'a> {
    /// Start an operation with the operator `op` at the end of `buf`.
    pub(crate) fn start(buf: &'a mut Vec<u8>, op: &'a str) -> (o: Operation<'a>)
        ensures
            *o.buf == *old(buf),
            o.op == op,
            o.first,
            *final(o.buf) == *final(buf),
    {
        Operation { buf, op, first: true }
    }

    /// Write a primitive operand.
    pub fn operand<T: Primitive>(&mut self, value: T) -> (r: &mut Self)
        ensures
            r.buf@ == old(self).buf@ + separator(old(self).first) + value.encoding(),
            !r.first,
            r.op == old(self).op,
            *final(r.buf) == *final(old(self).buf),
            *final(self) == *final(r),
    {
        self.obj().primitive(value);
        self
    }

    /// Write a sequence of primitive operands.
    pub fn operands<T: Primitive + Copy>(&mut self, values: &[T]) -> (r: &mut Self)
        ensures
            r.buf@ == old(self).buf@ + tokens_enc(old(self).first, encodings(values@)),
            r.first == (old(self).first && values@.len() == 0),
            r.op == old(self).op,
            *final(r.buf) == *final(old(self).buf),
            *final(self) == *final(r),
    {
        let ghost start = self.buf@;
        let ghost first0 = self.first;
        let mut i: usize = 0;
        while i < values.len()
            invariant
                i <= values@.len(),
                self.first == (first0 && i == 0),
                self.op == old(self).op,
                self.buf@ == start + tokens_enc(first0, encodings(values@.take(i as int))),
                *final(self.buf) == *final(old(self).buf),
            decreases values@.len() - i,
        {
            let v = values[i];
            self.operand(v);
            i += 1;
            proof {
                let prev = encodings(values@.take(i - 1));
                assert(encodings(values@.take(i as int)) =~= prev.push(v.encoding()));
                crate::encode::lemma_sep_join_push(prev, v.encoding());
            }
        }
        assert(values@.take(i as int) =~= values@);
        self
    }

    /// Write an arbitrary object operand.
    pub fn obj(&mut self) -> (o: Obj<'_>)
        ensures
            o.buf@ == old(self).buf@ + separator(old(self).first),
            o.indent == 0,
            final(self).buf@ == final(o.buf)@,
            !final(self).first,
            final(self).op == old(self).op,
            *final(final(self).buf) == *final(old(self).buf),
    {
        if !self.first {
            self.buf.push(SPACE);
        }
        self.first = false;
        Obj::direct(self.buf, 0)
    }

    /// Write the operator and end the line.
    pub fn finish(self)
        ensures
            final(self.buf)@ == old(self.buf)@ + separator(self.first) + self.op.spec_bytes()
                + seq![NEWLINE],
    {
        if !self.first {
            self.buf.push(SPACE);
        }
        push_all(self.buf, self.op.as_bytes());
        self.buf.push(NEWLINE);
    }
}


/// Writer for an _individual glyph positioning operation_. Write the
/// operator with [`ShowPositioned::finish`].
///
/// This struct is created by [`Content::show_positioned`].
pub struct ShowPositioned<'a> {
    /// The operation.
    pub op: Operation<'a>,
}

impl<'a> ShowPositioned<'a> {
    /// Wrap the operation.
    pub(crate) fn start(op: Operation<'a>) -> (s: ShowPositioned<'a>)
        ensures
            *s.op.buf == *old(op.buf),
            s.op.op == op.op,
            s.op.first == op.first,
            *final(s.op.buf) == *final(op.buf),
    {
        ShowPositioned { op }
    }

    /// Write the array of strings and adjustments. Required. Write its `]`
    /// with [`PositionedItems::finish`].
    pub fn items(&mut self) -> (p: PositionedItems<'_>)
        ensures
            p.array.buf@ == old(self).op.buf@ + separator(old(self).op.first) + seq![LBRACKET],
            p.array.len == 0,
            p.array.indent == 0,
            final(self).op.buf@ == final(p.array.buf)@,
            !final(self).op.first,
            final(self).op.op == old(self).op.op,
            *final(final(self).op.buf) == *final(old(self).op.buf),
    {
        PositionedItems::new(self.op.obj())
    }

    /// Write the operator and end the line.
    pub fn finish(self)
        ensures
            final(self.op.buf)@ == old(self.op.buf)@ + separator(self.op.first)
                + self.op.op.spec_bytes() + seq![NEWLINE],
    {
        self.op.finish();
    }
}

/// Writer for a _positioned items array_. Write `]` with
/// [`PositionedItems::finish`].
///
/// This struct is created by [`ShowPositioned::items`].
pub struct PositionedItems<'a> {
    /// The array.
    pub array: Array<'a>,
}

impl<'a> PositionedItems<'a> {
    /// Start the array as the object `obj`.
    pub(crate) fn new(obj: Obj<'a>) -> (p: PositionedItems<'a>)
        ensures
            p.array.buf@ == old(obj.buf)@ + seq![LBRACKET],
            p.array.len == 0,
            p.array.indent == obj.indent,
            *final(p.array.buf) == *final(obj.buf),
    {
        PositionedItems { array: obj.array() }
    }

    /// Show a continous string without adjustments.
    ///
    /// The encoding of the text depends on the font.
    pub fn show(&mut self, text: Str) -> (r: &mut Self)
        requires
            old(self).array.len < i32::MAX,
        ensures
            r.array.buf@ == old(self).array.buf@ + separator(old(self).array.len == 0) + text.encoding(),
            r.array.len == old(self).array.len + 1,
            r.array.indent == old(self).array.indent,
            *final(r.array.buf) == *final(old(self).array.buf),
            *final(self) == *final(r),
    {
        self.array.item(text);
        self
    }

    /// Specify an adjustment between two glyphs.
    ///
    /// The `amount` is specified in thousands of units of text space and is
    /// subtracted from the current writing-mode dependent coordinate.
    pub fn adjust(&mut self, amount: Real) -> (r: &mut Self)
        requires
            old(self).array.len < i32::MAX,
        ensures
            r.array.buf@ == old(self).array.buf@ + separator(old(self).array.len == 0) + amount.encoding(),
            r.array.len == old(self).array.len + 1,
            r.array.indent == old(self).array.indent,
            *final(r.array.buf) == *final(old(self).array.buf),
            *final(self) == *final(r),
    {
        self.array.item(amount);
        self
    }

    /// Write `]`.
    pub fn finish(self)
        ensures
            final(self.array.buf)@ == old(self.array.buf)@ + seq![RBRACKET],
    {
        self.array.finish();
    }
}

/// A color space operand to the [`CS`](Content::set_stroke_color_space) or
/// [`cs`](Content::set_fill_color_space) operator.
///
/// These are either the predefined, parameter-less color spaces like
/// `DeviceGray` or the ones defined by the user, accessed through the `Named`
/// variant. A custom color space of types like `CalRGB` or `Pattern` can be set
/// by registering it with the `color_spaces` dictionary of the resources.
#[derive(Debug, Copy, Clone, Eq, PartialEq, Hash)]
pub enum ColorSpaceOperand<'a> {
    /// The `DeviceGray` color space.
    DeviceGray,
    /// The `DeviceRGB` color space.
    DeviceRgb,
    /// The `DeviceCMYK` color space.
    DeviceCmyk,
    /// The `Pattern` color space.
    Pattern,
    /// A named color space defined the current resource dictionary.
    Named(Name<'a>),
}

impl<'a> ColorSpaceOperand<'a> {
    /// The bytes of the name that stands for the color space.
    pub open spec fn name_bytes(self) -> Seq<u8> {
        match self {
            ColorSpaceOperand::DeviceGray => ascii("DeviceGray"@),
            ColorSpaceOperand::DeviceRgb => ascii("DeviceRGB"@),
            ColorSpaceOperand::DeviceCmyk => ascii("DeviceCMYK"@),
            ColorSpaceOperand::Pattern => ascii("Pattern"@),
            ColorSpaceOperand::Named(name) => name.0@,
        }
    }

    /// The name written for the value.
    pub(crate) fn to_name(self) -> (r: Name<'a>)
        ensures
            r.0@ == self.name_bytes(),
    {
        match self {
            Self::DeviceGray => {
                proof {
                    reveal_strlit("DeviceGray");
                }
                Name(static_bytes("DeviceGray"))
            },
            Self::DeviceRgb => {
                proof {
                    reveal_strlit("DeviceRGB");
                }
                Name(static_bytes("DeviceRGB"))
            },
            Self::DeviceCmyk => {
                proof {
                    reveal_strlit("DeviceCMYK");
                }
                Name(static_bytes("DeviceCMYK"))
            },
            Self::Pattern => {
                proof {
                    reveal_strlit("Pattern");
                }
                Name(static_bytes("Pattern"))
            },
            Self::Named(name) => name,
        }
    }
}

/// How to terminate lines.
#[derive(Debug, Copy, Clone, Eq, PartialEq, Structural, Hash)]
pub enum LineCapStyle {
    /// Square the line of at the endpoints of the path.
    ButtCap,
    /// Round the line off at its end with a semicircular arc as wide as the
    /// stroke.
    RoundCap,
    /// End the line with a square cap that protrudes by half the width of the
    /// stroke.
    ProjectingSquareCap,
}

impl LineCapStyle {
    /// The number that stands for the value in a content stream.
    pub open spec fn code(self) -> int {
        match self {
            LineCapStyle::ButtCap => 0,
            LineCapStyle::RoundCap => 1,
            LineCapStyle::ProjectingSquareCap => 2,
        }
    }

    /// The number written for the value.
    pub(crate) fn to_int(self) -> (r: i32)
        ensures
            r == self.code(),
    {
        match self {
            Self::ButtCap => 0,
            Self::RoundCap => 1,
            Self::ProjectingSquareCap => 2,
        }
    }
}

/// How to join lines at corners.
#[derive(Debug, Copy, Clone, Eq, PartialEq, Structural, Hash)]
pub enum LineJoinStyle {
    /// Join the lines with a sharp corner where the outsides of the lines
    /// intersect.
    MiterJoin,
    /// Join the lines with a smooth circular segment.
    RoundJoin,
    /// End both lines with butt caps and join them with a triangle.
    BevelJoin,
}

impl LineJoinStyle {
    /// The number that stands for the value in a content stream.
    pub open spec fn code(self) -> int {
        match self {
            LineJoinStyle::MiterJoin => 0,
            LineJoinStyle::RoundJoin => 1,
            LineJoinStyle::BevelJoin => 2,
        }
    }

    /// The number written for the value.
    pub(crate) fn to_int(self) -> (r: i32)
        ensures
            r == self.code(),
    {
        match self {
            Self::MiterJoin => 0,
            Self::RoundJoin => 1,
            Self::BevelJoin => 2,
        }
    }
}

/// How the output device should aim to render colors.
#[derive(Debug, Copy, Clone, Eq, PartialEq, Structural, Hash)]
pub enum RenderingIntent {
    /// Only consider the light source, not the output's white point.
    AbsoluteColorimetric,
    /// Consider both the light source and the output's white point.
    RelativeColorimetric,
    /// Preserve saturation.
    Saturation,
    /// Preserve a pleasing visual appearance.
    Perceptual,
}

impl RenderingIntent {
    /// The bytes of the name that stands for the value.
    pub open spec fn name_bytes(self) -> Seq<u8> {
        match self {
            RenderingIntent::AbsoluteColorimetric => ascii("AbsoluteColorimetric"@),
            RenderingIntent::RelativeColorimetric => ascii("RelativeColorimetric"@),
            RenderingIntent::Saturation => ascii("Saturation"@),
            RenderingIntent::Perceptual => ascii("Perceptual"@),
        }
    }

    /// The name written for the value.
    pub(crate) fn to_name(self) -> (r: Name<'static>)
        ensures
            r.0@ == self.name_bytes(),
    {
        match self {
            Self::AbsoluteColorimetric => {
                proof {
                    reveal_strlit("AbsoluteColorimetric");
                }
                Name(static_bytes("AbsoluteColorimetric"))
            },
            Self::RelativeColorimetric => {
                proof {
                    reveal_strlit("RelativeColorimetric");
                }
                Name(static_bytes("RelativeColorimetric"))
            },
            Self::Saturation => {
                proof {
                    reveal_strlit("Saturation");
                }
                Name(static_bytes("Saturation"))
            },
            Self::Perceptual => {
                proof {
                    reveal_strlit("Perceptual");
                }
                Name(static_bytes("Perceptual"))
            },
        }
    }
}

/// How to render text.
#[derive(Debug, Copy, Clone, Eq, PartialEq, Structural, Hash)]
pub enum TextRenderingMode {
    /// Just fill the text.
    Fill,
    /// Just stroke the text.
    Stroke,
    /// First fill and then stroke the text.
    FillStroke,
    /// Don't fill and don't stroke the text.
    Invisible,
    /// Fill the text, then apply the text outlines to the current clipping
    /// path.
    FillClip,
    /// Stroke the text, then apply the text outlines to the current clipping
    /// path.
    StrokeClip,
    /// First fill, then stroke the text and finally apply the text outlines to
    /// the current clipping path.
    FillStrokeClip,
    /// Apply the text outlines to the current clipping path.
    Clip,
}

impl TextRenderingMode {
    /// The number that stands for the value in a content stream.
    pub open spec fn code(self) -> int {
        match self {
            TextRenderingMode::Fill => 0,
            TextRenderingMode::Stroke => 1,
            TextRenderingMode::FillStroke => 2,
            TextRenderingMode::Invisible => 3,
            TextRenderingMode::FillClip => 4,
            TextRenderingMode::StrokeClip => 5,
            TextRenderingMode::FillStrokeClip => 6,
            TextRenderingMode::Clip => 7,
        }
    }

    /// The number written for the value.
    pub(crate) fn to_int(self) -> (r: i32)
        ensures
            r == self.code(),
    {
        match self {
            Self::Fill => 0,
            Self::Stroke => 1,
            Self::FillStroke => 2,
            Self::Invisible => 3,
            Self::FillClip => 4,
            Self::StrokeClip => 5,
            Self::FillStrokeClip => 6,
            Self::Clip => 7,
        }
    }
}

} // verus!
