use pdf_writer::{
    BlendMode, Dict, ExtGraphicsState, LineCapStyle, LineJoinStyle, MaskType, Name, Obj,
    Primitive, ProcSet, Real, Ref, RenderingIntent, Resources, Str,
};

/// The bytes that a primitive value is written as.
fn written<T: Primitive>(value: T) -> Vec<u8> {
    let mut buf = Vec::new();
    Obj::direct(&mut buf, 0).primitive(value);
    buf
}

#[test]
fn integers_are_written_in_decimal() {
    assert_eq!(written(0i32), b"0");
    assert_eq!(written(7i32), b"7");
    assert_eq!(written(1234i32), b"1234");
    assert_eq!(written(-42i32), b"-42");
    assert_eq!(written(i32::MAX), b"2147483647");
    assert_eq!(written(i32::MIN), b"-2147483648");
}

#[test]
fn reals_are_written_without_needless_digits() {
    assert_eq!(written(Real::new(35, 1)), b"3.5");
    assert_eq!(written(Real::new(12, 0)), b"12");
    assert_eq!(written(Real::new(1200, 2)), b"12");
    assert_eq!(written(Real::new(1205, 3)), b"1.205");
    assert_eq!(written(Real::new(1250, 3)), b"1.25");
    assert_eq!(written(Real::new(7, 3)), b"0.007");
    assert_eq!(written(Real::new(-5, 1)), b"-0.5");
    assert_eq!(written(Real::new(-100, 2)), b"-1");
    assert_eq!(written(Real::new(0, 4)), b"0");
    assert_eq!(written(Real::new(i64::MIN, 0)), b"-9223372036854775808");
    assert_eq!(written(Real::new(i64::MAX, 18)), b"9.223372036854775807");
    assert_eq!(written(Real::new(1, 20)), b"0.00000000000000000001");
}

#[test]
fn booleans_are_written_as_keywords() {
    assert_eq!(written(true), b"true");
    assert_eq!(written(false), b"false");
}

#[test]
fn names_escape_delimiters_and_number_signs() {
    assert_eq!(written(Name(b"Type")), b"/Type");
    assert_eq!(written(Name(b"")), b"/");
    assert_eq!(written(Name(b"A B#")), b"/A#20B#23");
    assert_eq!(written(Name(b"(x)/[y]")), b"/#28x#29#2F#5By#5D");
    assert_eq!(written(Name(&[0xE9, 0x0A])), b"/#E9#0A");
    assert_eq!(written(Name(b"a~!")), b"/a~!");
}

#[test]
fn ascii_strings_are_literal_with_escapes() {
    assert_eq!(written(Str(b"AB")), b"(AB)");
    assert_eq!(written(Str(b"")), b"()");
    assert_eq!(written(Str(b"a(b)\\")), b"(a\\(b\\)\\\\)");
    assert_eq!(written(Str(b"line\nbreak\ttab\r")), b"(line\\nbreak\\ttab\\r)");
    assert_eq!(written(Str(&[8, 12, 1, 127])), b"(\\b\\f\\001\\177)");
}

#[test]
fn other_strings_are_hexadecimal() {
    assert_eq!(written(Str(&[0xC3, 0xA9])), b"<C3A9>");
    assert_eq!(written(Str(&[b'a', 0xFF, 0x00])), b"<61FF00>");
}

#[test]
fn references_are_written_with_generation_zero() {
    let id = Ref::new(5);
    assert_eq!(id.get(), 5);
    assert_eq!(written(id), b"5 0 R");
    assert_eq!(written(Ref::new(123)), b"123 0 R");
}

#[test]
fn arrays_separate_items_by_spaces() {
    let mut buf = Vec::new();
    let mut array = Obj::direct(&mut buf, 0).array();
    assert!(array.is_empty());
    array.item(1i32).item(Name(b"A"));
    array.items(&[Real::new(5, 1), Real::new(2, 0)]);
    array.push().array().finish();
    assert_eq!(array.len(), 5);
    array.finish();
    assert_eq!(buf, b"[1 /A 0.5 2 []]");
}

#[test]
fn empty_dictionaries_stay_on_one_line() {
    let mut buf = Vec::new();
    Obj::direct(&mut buf, 0).dict().finish();
    assert_eq!(buf, b"<<>>");
}

#[test]
fn dictionaries_indent_nested_entries() {
    let mut buf = Vec::new();
    let mut dict: Dict = Obj::direct(&mut buf, 0).dict();
    dict.pair(Name(b"Count"), 3i32);
    {
        let mut inner = dict.insert(Name(b"Inner")).dict();
        inner.pair(Name(b"Flag"), false);
        assert_eq!(inner.len(), 1);
        inner.finish();
    }
    assert_eq!(dict.len(), 2);
    dict.finish();
    assert_eq!(buf, b"<<\n  /Count 3\n  /Inner <<\n    /Flag false\n  >>\n>>");
}

#[test]
fn graphics_state_parameters() {
    let mut buf = Vec::new();
    let mut state = ExtGraphicsState::start(Obj::direct(&mut buf, 0));
    state
        .line_width(Real::new(2, 0))
        .line_cap(LineCapStyle::RoundCap)
        .line_join(LineJoinStyle::BevelJoin)
        .miter_limit(Real::new(105, 1))
        .dash_pattern(&[Real::new(3, 0), Real::new(1, 0)], Real::new(0, 0))
        .rendering_intent(RenderingIntent::RelativeColorimetric)
        .overprint(true)
        .overprint_fill(false)
        .font(Name(b"F1"), Real::new(12, 0))
        .blend_mode(BlendMode::Multiply)
        .stroking_alpha(Real::new(5, 1))
        .non_stroking_alpha(Real::new(25, 2))
        .alpha_source(false)
        .text_knockout(true)
        .stroke_adjustment(true)
        .flatness(Real::new(1, 0))
        .smoothness(Real::new(2, 2));
    state.finish();
    assert_eq!(
        buf,
        b"<<\n  /Type /ExtGState\n  /LW 2\n  /LC 1\n  /LJ 2\n  /ML 10.5\n  /D [[3 1] 0]\n  /RI /RelativeColorimetric\n  /OP true\n  /op false\n  /Font [/F1 12]\n  /BM /Multiply\n  /CA 0.5\n  /ca 0.25\n  /AIS false\n  /TK true\n  /SA true\n  /FL 1\n  /SM 0.02\n>>".to_vec()
    );
}

#[test]
fn graphics_state_functions() {
    let mut buf = Vec::new();
    let mut state = ExtGraphicsState::start(Obj::direct(&mut buf, 0));
    state
        .black_generation(Ref::new(1))
        .black_generation_default()
        .undercolor_removal(Ref::new(2))
        .undercolor_removal_default()
        .transfer(Ref::new(3))
        .transfer_default()
        .halftone(Ref::new(4))
        .halftone_default()
        .soft_mask_name(Name(b"None"));
    state.finish();
    assert_eq!(
        buf,
        b"<<\n  /Type /ExtGState\n  /BG 1 0 R\n  /BG2 /Default\n  /UCR 2 0 R\n  /UCR2 /Default\n  /TR 3 0 R\n  /TR2 /Default\n  /HT 4 0 R\n  /HT /Default\n  /SMask /None\n>>".to_vec()
    );
}

#[test]
fn soft_mask_dictionary_is_nested() {
    let mut buf = Vec::new();
    let mut state = ExtGraphicsState::start(Obj::direct(&mut buf, 0));
    {
        let mut mask = state.soft_mask();
        mask.subtype(MaskType::Luminosity)
            .group(Ref::new(3))
            .backdrop(&[Real::new(0, 0), Real::new(5, 1), Real::new(1, 0)])
            .transfer_function(Ref::new(9));
        mask.finish();
    }
    state.finish();
    assert_eq!(
        buf,
        b"<<\n  /Type /ExtGState\n  /SMask <<\n    /Type /Mask\n    /S /Luminosity\n    /G 3 0 R\n    /BC [0 0.5 1]\n    /TR 9 0 R\n  >>\n>>".to_vec()
    );
}

#[test]
fn resources_list_procedure_sets() {
    let mut buf = Vec::new();
    let mut resources = Resources::start(Obj::direct(&mut buf, 0));
    resources.proc_sets_all();
    resources.proc_sets(&[ProcSet::Text, ProcSet::ImageIndexed]);
    resources.proc_sets(&[]);
    resources.finish();
    assert_eq!(
        buf,
        b"<<\n  /ProcSet [/PDF /Text /ImageB /ImageC /ImageI]\n  /ProcSet [/Text /ImageI]\n  /ProcSet []\n>>".to_vec()
    );
}

#[test]
fn resources_open_sub_dictionaries() {
    let mut buf = Vec::new();
    let mut resources = Resources::start(Obj::direct(&mut buf, 0));
    {
        let mut x_objects = resources.x_objects();
        x_objects.pair(Name(b"Im1"), Ref::new(2));
        x_objects.finish();
    }
    resources.fonts().finish();
    resources.color_spaces().finish();
    resources.patterns().finish();
    resources.shadings().finish();
    {
        let mut states = resources.ext_g_states();
        states.pair(Name(b"GS1"), Ref::new(7));
        states.finish();
    }
    resources.finish();
    assert_eq!(
        buf,
        b"<<\n  /XObject <<\n    /Im1 2 0 R\n  >>\n  /Font <<>>\n  /ColorSpace <<>>\n  /Pattern <<>>\n  /Shading <<>>\n  /ExtGState <<\n    /GS1 7 0 R\n  >>\n>>".to_vec()
    );
}
