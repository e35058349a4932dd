use pdf_writer::{
    ColorSpaceOperand, Content, LineCapStyle, LineJoinStyle, Name, Real, RenderingIntent, Str,
    TextRenderingMode,
};

fn whole(n: i64) -> Real {
    Real::new(n, 0)
}

#[test]
fn finish_drops_only_the_last_newline() {
    assert_eq!(Content::new().finish(), b"");
    assert_eq!(Content::with_capacity(0).finish(), b"");
    let mut content = Content::new();
    content.stroke();
    assert_eq!(content.finish(), b"S");
    let mut content = Content::new();
    content.save_state().restore_state();
    assert_eq!(content.finish(), b"q\nQ");
}

#[test]
fn arbitrary_operations() {
    let mut content = Content::new();
    {
        let mut op = content.op("xy");
        op.operand(1i32).operands(&[Name(b"A"), Name(b"B")]);
        op.obj().array().finish();
        op.finish();
    }
    {
        let op = content.op("BI");
        op.finish();
    }
    {
        let mut op = content.op("z");
        op.operands::<i32>(&[]);
        op.finish();
    }
    assert_eq!(content.finish(), b"1 /A /B [] xy\nBI\nz");
}

#[test]
fn general_graphics_state_operators() {
    let mut content = Content::new();
    content
        .set_line_width(Real::new(15, 1))
        .set_line_cap(LineCapStyle::ProjectingSquareCap)
        .set_line_join(LineJoinStyle::MiterJoin)
        .set_miter_limit(whole(4))
        .set_dash_pattern(&[], whole(0))
        .set_rendering_intent(RenderingIntent::Perceptual)
        .set_flatness(50)
        .set_parameters(Name(b"GS1"))
        .transform([whole(1), whole(0), whole(0), whole(1), whole(10), Real::new(-205, 1)]);
    assert_eq!(
        content.finish(),
        b"1.5 w\n2 J\n0 j\n4 M\n[] 0 d\n/Perceptual ri\n50 i\n/GS1 gs\n1 0 0 1 10 -20.5 cm"
    );
}

#[test]
fn path_operators() {
    let mut content = Content::new();
    content
        .move_to(whole(1), whole(2))
        .line_to(whole(3), whole(4))
        .cubic_to(whole(1), whole(2), whole(3), whole(4), whole(5), whole(6))
        .cubic_to_initial(whole(7), whole(8), whole(9), whole(10))
        .cubic_to_final(whole(11), whole(12), whole(13), whole(14))
        .close_path()
        .stroke()
        .close_and_stroke()
        .fill_nonzero()
        .fill_even_odd()
        .fill_nonzero_and_stroke()
        .fill_even_odd_and_stroke()
        .close_fill_nonzero_and_stroke()
        .close_fill_even_odd_and_stroke()
        .end_path()
        .clip_nonzero()
        .clip_even_odd();
    assert_eq!(
        content.finish(),
        b"1 2 m\n3 4 l\n1 2 3 4 5 6 c\n7 8 9 10 v\n11 12 13 14 y\nh\nS\ns\nf\nf*\nB\nB*\nb\nb*\nn\nW\nW*"
    );
}

#[test]
fn text_operators() {
    let mut content = Content::new();
    content
        .begin_text()
        .set_char_spacing(Real::new(5, 1))
        .set_word_spacing(whole(1))
        .set_horizontal_scaling(whole(100))
        .set_leading(whole(14))
        .set_text_rendering_mode(TextRenderingMode::Clip)
        .set_text_rendering_mode(TextRenderingMode::FillStroke)
        .set_rise(whole(-3))
        .next_line(whole(10), whole(20))
        .next_line_and_set_leading(whole(0), whole(-14))
        .set_text_matrix([whole(1), whole(0), whole(0), whole(1), whole(72), whole(700)])
        .next_line_using_leading()
        .show(Str(b"Hi"))
        .next_line_show(Str(b"(x)"))
        .next_line_show_and_set_word_and_char_spacing(whole(1), whole(2), Str(b"y"))
        .end_text();
    assert_eq!(
        content.finish(),
        b"BT\n0.5 Tc\n1 Tw\n100 Tz\n14 TL\n7 Tr\n2 Tr\n-3 Ts\n10 20 Td\n0 -14 TD\n1 0 0 1 72 700 Tm\nT*\n(Hi) Tj\n(\\(x\\)) '\n1 2 (y) \"\nET"
    );
}

#[test]
fn type3_glyph_operators() {
    let mut content = Content::new();
    content
        .start_color_glyph(whole(500))
        .start_shape_glyph(whole(500), whole(0), whole(-10), whole(480), whole(700));
    assert_eq!(content.finish(), b"500 0 d0\n500 0 0 -10 480 700 d1");
}

#[test]
fn color_operators() {
    let mut content = Content::new();
    content
        .set_stroke_color_space(ColorSpaceOperand::DeviceRgb)
        .set_fill_color_space(ColorSpaceOperand::Named(Name(b"Cs1")))
        .set_fill_color_space(ColorSpaceOperand::DeviceGray)
        .set_stroke_color_space(ColorSpaceOperand::DeviceCmyk)
        .set_fill_color_space(ColorSpaceOperand::Pattern)
        .set_stroke_color(&[Real::new(5, 1)])
        .set_fill_color(&[whole(1), whole(0), whole(0)])
        .set_stroke_pattern(&[], Name(b"P1"))
        .set_stroke_gray(Real::new(25, 2))
        .set_fill_gray(whole(1))
        .set_stroke_rgb(whole(1), whole(0), whole(0))
        .set_fill_rgb(whole(0), Real::new(5, 1), whole(1))
        .set_stroke_cmyk(whole(0), whole(0), whole(0), whole(1))
        .set_fill_cmyk(whole(1), whole(1), whole(0), whole(0));
    assert_eq!(
        content.finish(),
        b"/DeviceRGB CS\n/Cs1 cs\n/DeviceGray cs\n/DeviceCMYK CS\n/Pattern cs\n0.5 SCN\n1 0 0 scn\n/P1 SCN\n0.25 G\n1 g\n1 0 0 RG\n0 0.5 1 rg\n0 0 0 1 K\n1 1 0 0 k"
    );
}

#[test]
fn shading_xobject_and_compatibility_operators() {
    let mut content = Content::new();
    content
        .shading(Name(b"Sh1"))
        .x_object(Name(b"Im 1"))
        .begin_compat()
        .end_compat();
    assert_eq!(content.finish(), b"/Sh1 sh\n/Im#201 Do\nBX\nEX");
}
