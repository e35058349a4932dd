//! The numbers and names that stand for the values of the enumerations, as
//! PDF defines them.

use vstd::prelude::*;

use crate::content::{ColorSpaceOperand, LineCapStyle, LineJoinStyle, RenderingIntent, TextRenderingMode};
use crate::primitive::{Name, Primitive};
use crate::resources::{BlendMode, MaskType, ProcSet};
use crate::encode::{ascii, int_enc, lemma_op_line, name_enc, name_escape, op_line, NEWLINE, SPACE};

verus! {

/// Whether every byte is an ASCII letter.
pub open spec fn all_letters(s: Seq<u8>) -> bool {
    forall|i: int| 0 <= i < s.len() ==> (65 <= #[trigger] s[i] <= 90 || 97 <= s[i] <= 122)
}

/// A name made of letters is written as itself.
proof fn lemma_letters_escape(s: Seq<u8>)
    requires
        all_letters(s),
    ensures
        name_escape(s) == s,
    decreases s.len(),
{
    if s.len() > 0 {
        lemma_letters_escape(s.drop_last());
        assert(s.drop_last() + seq![s.last()] =~= s);
    }
}

/// The predefined color spaces are written as the names PDF gives them,
/// different predefined color spaces are written differently, and a named
/// color space is written as its name.
pub proof fn law_color_space_names(a: ColorSpaceOperand, b: ColorSpaceOperand, name: Name)
    ensures
        name_enc(ColorSpaceOperand::DeviceGray.name_bytes()) == ascii("/DeviceGray"@),
        name_enc(ColorSpaceOperand::DeviceRgb.name_bytes()) == ascii("/DeviceRGB"@),
        name_enc(ColorSpaceOperand::DeviceCmyk.name_bytes()) == ascii("/DeviceCMYK"@),
        name_enc(ColorSpaceOperand::Pattern.name_bytes()) == ascii("/Pattern"@),
        name_enc(ColorSpaceOperand::Named(name).name_bytes()) == name.encoding(),
        a != b && !(a is Named) && !(b is Named) ==> name_enc(a.name_bytes()) != name_enc(
            b.name_bytes(),
        ),
{
    reveal_strlit("DeviceGray");
    reveal_strlit("/DeviceGray");
    reveal_strlit("DeviceRGB");
    reveal_strlit("/DeviceRGB");
    reveal_strlit("DeviceCMYK");
    reveal_strlit("/DeviceCMYK");
    reveal_strlit("Pattern");
    reveal_strlit("/Pattern");
    lemma_letters_escape(ascii("DeviceGray"@));
    lemma_letters_escape(ascii("DeviceRGB"@));
    lemma_letters_escape(ascii("DeviceCMYK"@));
    lemma_letters_escape(ascii("Pattern"@));
    assert(name_enc(ColorSpaceOperand::DeviceGray.name_bytes()) =~= ascii("/DeviceGray"@));
    assert(name_enc(ColorSpaceOperand::DeviceRgb.name_bytes()) =~= ascii("/DeviceRGB"@));
    assert(name_enc(ColorSpaceOperand::DeviceCmyk.name_bytes()) =~= ascii("/DeviceCMYK"@));
    assert(name_enc(ColorSpaceOperand::Pattern.name_bytes()) =~= ascii("/Pattern"@));
    if a != b && !(a is Named) && !(b is Named) {
        let x = name_enc(a.name_bytes());
        let y = name_enc(b.name_bytes());
        assert(x.len() != y.len() || x[1] != y[1] || x[x.len() - 1] != y[y.len() - 1]);
    }
}

/// A line with one operand: the operand, a space, the operator and a newline.
pub proof fn law_single_operand_line(x: Seq<u8>, operator: Seq<u8>)
    ensures
        op_line(seq![x], operator) == x + seq![SPACE] + operator + seq![NEWLINE],
{
    lemma_op_line(seq![x], operator);
}

/// The line cap styles are written as the numbers PDF gives them (butt 0,
/// round 1, projecting square 2), `set_line_cap` writes the line `n J`, and
/// different styles are written differently.
pub proof fn law_line_cap_numbers(a: LineCapStyle, b: LineCapStyle)
    ensures
        int_enc(LineCapStyle::ButtCap.code()) == ascii("0"@),
        int_enc(LineCapStyle::RoundCap.code()) == ascii("1"@),
        int_enc(LineCapStyle::ProjectingSquareCap.code()) == ascii("2"@),
        op_line(seq![int_enc(LineCapStyle::ButtCap.code())], ascii("J"@)) == ascii("0 J\n"@),
        op_line(seq![int_enc(LineCapStyle::RoundCap.code())], ascii("J"@)) == ascii("1 J\n"@),
        op_line(seq![int_enc(LineCapStyle::ProjectingSquareCap.code())], ascii("J"@)) == ascii("2 J\n"@),
        a != b ==> int_enc(a.code()) != int_enc(b.code()),
{
    reveal_strlit("J");
    reveal_strlit("0");
    reveal_strlit("0 J\n");
    reveal_strlit("1");
    reveal_strlit("1 J\n");
    reveal_strlit("2");
    reveal_strlit("2 J\n");
    assert(int_enc(LineCapStyle::ButtCap.code()) =~= ascii("0"@));
    law_single_operand_line(int_enc(LineCapStyle::ButtCap.code()), ascii("J"@));
    assert(op_line(seq![int_enc(LineCapStyle::ButtCap.code())], ascii("J"@)) =~= ascii("0 J\n"@));
    assert(int_enc(LineCapStyle::RoundCap.code()) =~= ascii("1"@));
    law_single_operand_line(int_enc(LineCapStyle::RoundCap.code()), ascii("J"@));
    assert(op_line(seq![int_enc(LineCapStyle::RoundCap.code())], ascii("J"@)) =~= ascii("1 J\n"@));
    assert(int_enc(LineCapStyle::ProjectingSquareCap.code()) =~= ascii("2"@));
    law_single_operand_line(int_enc(LineCapStyle::ProjectingSquareCap.code()), ascii("J"@));
    assert(op_line(seq![int_enc(LineCapStyle::ProjectingSquareCap.code())], ascii("J"@)) =~= ascii("2 J\n"@));
    if a != b {
        assert(int_enc(a.code())[0] != int_enc(b.code())[0]);
    }
}

/// The line join styles are written as the numbers PDF gives them (miter 0,
/// round 1, bevel 2), `set_line_join` writes the line `n j`, and different
/// styles are written differently.
pub proof fn law_line_join_numbers(a: LineJoinStyle, b: LineJoinStyle)
    ensures
        int_enc(LineJoinStyle::MiterJoin.code()) == ascii("0"@),
        int_enc(LineJoinStyle::RoundJoin.code()) == ascii("1"@),
        int_enc(LineJoinStyle::BevelJoin.code()) == ascii("2"@),
        op_line(seq![int_enc(LineJoinStyle::MiterJoin.code())], ascii("j"@)) == ascii("0 j\n"@),
        op_line(seq![int_enc(LineJoinStyle::RoundJoin.code())], ascii("j"@)) == ascii("1 j\n"@),
        op_line(seq![int_enc(LineJoinStyle::BevelJoin.code())], ascii("j"@)) == ascii("2 j\n"@),
        a != b ==> int_enc(a.code()) != int_enc(b.code()),
{
    reveal_strlit("j");
    reveal_strlit("0");
    reveal_strlit("0 j\n");
    reveal_strlit("1");
    reveal_strlit("1 j\n");
    reveal_strlit("2");
    reveal_strlit("2 j\n");
    assert(int_enc(LineJoinStyle::MiterJoin.code()) =~= ascii("0"@));
    law_single_operand_line(int_enc(LineJoinStyle::MiterJoin.code()), ascii("j"@));
    assert(op_line(seq![int_enc(LineJoinStyle::MiterJoin.code())], ascii("j"@)) =~= ascii("0 j\n"@));
    assert(int_enc(LineJoinStyle::RoundJoin.code()) =~= ascii("1"@));
    law_single_operand_line(int_enc(LineJoinStyle::RoundJoin.code()), ascii("j"@));
    assert(op_line(seq![int_enc(LineJoinStyle::RoundJoin.code())], ascii("j"@)) =~= ascii("1 j\n"@));
    assert(int_enc(LineJoinStyle::BevelJoin.code()) =~= ascii("2"@));
    law_single_operand_line(int_enc(LineJoinStyle::BevelJoin.code()), ascii("j"@));
    assert(op_line(seq![int_enc(LineJoinStyle::BevelJoin.code())], ascii("j"@)) =~= ascii("2 j\n"@));
    if a != b {
        assert(int_enc(a.code())[0] != int_enc(b.code())[0]);
    }
}

/// The text rendering modes are written as the numbers PDF gives them (fill
/// 0, stroke 1, fill and stroke 2, invisible 3, and the clipping variants
/// 4 to 7), `set_text_rendering_mode` writes the line `n Tr`, and different
/// modes are written differently.
pub proof fn law_text_rendering_mode_numbers(a: TextRenderingMode, b: TextRenderingMode)
    ensures
        int_enc(TextRenderingMode::Fill.code()) == ascii("0"@),
        int_enc(TextRenderingMode::Stroke.code()) == ascii("1"@),
        int_enc(TextRenderingMode::FillStroke.code()) == ascii("2"@),
        int_enc(TextRenderingMode::Invisible.code()) == ascii("3"@),
        int_enc(TextRenderingMode::FillClip.code()) == ascii("4"@),
        int_enc(TextRenderingMode::StrokeClip.code()) == ascii("5"@),
        int_enc(TextRenderingMode::FillStrokeClip.code()) == ascii("6"@),
        int_enc(TextRenderingMode::Clip.code()) == ascii("7"@),
        op_line(seq![int_enc(TextRenderingMode::Fill.code())], ascii("Tr"@)) == ascii("0 Tr\n"@),
        op_line(seq![int_enc(TextRenderingMode::Stroke.code())], ascii("Tr"@)) == ascii("1 Tr\n"@),
        op_line(seq![int_enc(TextRenderingMode::FillStroke.code())], ascii("Tr"@)) == ascii("2 Tr\n"@),
        op_line(seq![int_enc(TextRenderingMode::Invisible.code())], ascii("Tr"@)) == ascii("3 Tr\n"@),
        op_line(seq![int_enc(TextRenderingMode::FillClip.code())], ascii("Tr"@)) == ascii("4 Tr\n"@),
        op_line(seq![int_enc(TextRenderingMode::StrokeClip.code())], ascii("Tr"@)) == ascii("5 Tr\n"@),
        op_line(seq![int_enc(TextRenderingMode::FillStrokeClip.code())], ascii("Tr"@)) == ascii("6 Tr\n"@),
        op_line(seq![int_enc(TextRenderingMode::Clip.code())], ascii("Tr"@)) == ascii("7 Tr\n"@),
        a != b ==> int_enc(a.code()) != int_enc(b.code()),
{
    reveal_strlit("Tr");
    reveal_strlit("0");
    reveal_strlit("0 Tr\n");
    reveal_strlit("1");
    reveal_strlit("1 Tr\n");
    reveal_strlit("2");
    reveal_strlit("2 Tr\n");
    reveal_strlit("3");
    reveal_strlit("3 Tr\n");
    reveal_strlit("4");
    reveal_strlit("4 Tr\n");
    reveal_strlit("5");
    reveal_strlit("5 Tr\n");
    reveal_strlit("6");
    reveal_strlit("6 Tr\n");
    reveal_strlit("7");
    reveal_strlit("7 Tr\n");
    assert(int_enc(TextRenderingMode::Fill.code()) =~= ascii("0"@));
    law_single_operand_line(int_enc(TextRenderingMode::Fill.code()), ascii("Tr"@));
    assert(op_line(seq![int_enc(TextRenderingMode::Fill.code())], ascii("Tr"@)) =~= ascii("0 Tr\n"@));
    assert(int_enc(TextRenderingMode::Stroke.code()) =~= ascii("1"@));
    law_single_operand_line(int_enc(TextRenderingMode::Stroke.code()), ascii("Tr"@));
    assert(op_line(seq![int_enc(TextRenderingMode::Stroke.code())], ascii("Tr"@)) =~= ascii("1 Tr\n"@));
    assert(int_enc(TextRenderingMode::FillStroke.code()) =~= ascii("2"@));
    law_single_operand_line(int_enc(TextRenderingMode::FillStroke.code()), ascii("Tr"@));
    assert(op_line(seq![int_enc(TextRenderingMode::FillStroke.code())], ascii("Tr"@)) =~= ascii("2 Tr\n"@));
    assert(int_enc(TextRenderingMode::Invisible.code()) =~= ascii("3"@));
    law_single_operand_line(int_enc(TextRenderingMode::Invisible.code()), ascii("Tr"@));
    assert(op_line(seq![int_enc(TextRenderingMode::Invisible.code())], ascii("Tr"@)) =~= ascii("3 Tr\n"@));
    assert(int_enc(TextRenderingMode::FillClip.code()) =~= ascii("4"@));
    law_single_operand_line(int_enc(TextRenderingMode::FillClip.code()), ascii("Tr"@));
    assert(op_line(seq![int_enc(TextRenderingMode::FillClip.code())], ascii("Tr"@)) =~= ascii("4 Tr\n"@));
    assert(int_enc(TextRenderingMode::StrokeClip.code()) =~= ascii("5"@));
    law_single_operand_line(int_enc(TextRenderingMode::StrokeClip.code()), ascii("Tr"@));
    assert(op_line(seq![int_enc(TextRenderingMode::StrokeClip.code())], ascii("Tr"@)) =~= ascii("5 Tr\n"@));
    assert(int_enc(TextRenderingMode::FillStrokeClip.code()) =~= ascii("6"@));
    law_single_operand_line(int_enc(TextRenderingMode::FillStrokeClip.code()), ascii("Tr"@));
    assert(op_line(seq![int_enc(TextRenderingMode::FillStrokeClip.code())], ascii("Tr"@)) =~= ascii("6 Tr\n"@));
    assert(int_enc(TextRenderingMode::Clip.code()) =~= ascii("7"@));
    law_single_operand_line(int_enc(TextRenderingMode::Clip.code()), ascii("Tr"@));
    assert(op_line(seq![int_enc(TextRenderingMode::Clip.code())], ascii("Tr"@)) =~= ascii("7 Tr\n"@));
    if a != b {
        assert(int_enc(a.code())[0] != int_enc(b.code())[0]);
    }
}

/// The rendering intents are written as the names PDF gives them, and
/// different intents are written differently.
pub proof fn law_rendering_intent_names(a: RenderingIntent, b: RenderingIntent)
    ensures
        name_enc(RenderingIntent::AbsoluteColorimetric.name_bytes()) == ascii("/AbsoluteColorimetric"@),
        name_enc(RenderingIntent::RelativeColorimetric.name_bytes()) == ascii("/RelativeColorimetric"@),
        name_enc(RenderingIntent::Saturation.name_bytes()) == ascii("/Saturation"@),
        name_enc(RenderingIntent::Perceptual.name_bytes()) == ascii("/Perceptual"@),
        a != b ==> name_enc(a.name_bytes()) != name_enc(b.name_bytes()),
{
    reveal_strlit("AbsoluteColorimetric");
    reveal_strlit("/AbsoluteColorimetric");
    reveal_strlit("RelativeColorimetric");
    reveal_strlit("/RelativeColorimetric");
    reveal_strlit("Saturation");
    reveal_strlit("/Saturation");
    reveal_strlit("Perceptual");
    reveal_strlit("/Perceptual");
    lemma_letters_escape(ascii("AbsoluteColorimetric"@));
    lemma_letters_escape(ascii("RelativeColorimetric"@));
    lemma_letters_escape(ascii("Saturation"@));
    lemma_letters_escape(ascii("Perceptual"@));
    assert(name_enc(RenderingIntent::AbsoluteColorimetric.name_bytes()) =~= ascii("/AbsoluteColorimetric"@));
    assert(name_enc(RenderingIntent::RelativeColorimetric.name_bytes()) =~= ascii("/RelativeColorimetric"@));
    assert(name_enc(RenderingIntent::Saturation.name_bytes()) =~= ascii("/Saturation"@));
    assert(name_enc(RenderingIntent::Perceptual.name_bytes()) =~= ascii("/Perceptual"@));
    if a != b {
        let x = name_enc(a.name_bytes());
        let y = name_enc(b.name_bytes());
        assert(x.len() != y.len() || x[1] != y[1] || x[x.len() - 1] != y[y.len() - 1]);
    }
}

/// The blend modes are written as the names PDF gives them, and different
/// blend modes are written differently.
pub proof fn law_blend_mode_names(a: BlendMode, b: BlendMode)
    ensures
        name_enc(BlendMode::Normal.name_bytes()) == ascii("/Normal"@),
        name_enc(BlendMode::Multiply.name_bytes()) == ascii("/Multiply"@),
        name_enc(BlendMode::Screen.name_bytes()) == ascii("/Screen"@),
        name_enc(BlendMode::Overlay.name_bytes()) == ascii("/Overlay"@),
        name_enc(BlendMode::Darken.name_bytes()) == ascii("/Darken"@),
        name_enc(BlendMode::Lighten.name_bytes()) == ascii("/Lighten"@),
        name_enc(BlendMode::ColorDodge.name_bytes()) == ascii("/ColorDodge"@),
        name_enc(BlendMode::ColorBurn.name_bytes()) == ascii("/ColorBurn"@),
        name_enc(BlendMode::HardLight.name_bytes()) == ascii("/HardLight"@),
        name_enc(BlendMode::SoftLight.name_bytes()) == ascii("/SoftLight"@),
        name_enc(BlendMode::Difference.name_bytes()) == ascii("/Difference"@),
        name_enc(BlendMode::Exclusion.name_bytes()) == ascii("/Exclusion"@),
        name_enc(BlendMode::Hue.name_bytes()) == ascii("/Hue"@),
        name_enc(BlendMode::Saturation.name_bytes()) == ascii("/Saturation"@),
        name_enc(BlendMode::Color.name_bytes()) == ascii("/Color"@),
        name_enc(BlendMode::Luminosity.name_bytes()) == ascii("/Luminosity"@),
        a != b ==> name_enc(a.name_bytes()) != name_enc(b.name_bytes()),
{
    reveal_strlit("Normal");
    reveal_strlit("/Normal");
    reveal_strlit("Multiply");
    reveal_strlit("/Multiply");
    reveal_strlit("Screen");
    reveal_strlit("/Screen");
    reveal_strlit("Overlay");
    reveal_strlit("/Overlay");
    reveal_strlit("Darken");
    reveal_strlit("/Darken");
    reveal_strlit("Lighten");
    reveal_strlit("/Lighten");
    reveal_strlit("ColorDodge");
    reveal_strlit("/ColorDodge");
    reveal_strlit("ColorBurn");
    reveal_strlit("/ColorBurn");
    reveal_strlit("HardLight");
    reveal_strlit("/HardLight");
    reveal_strlit("SoftLight");
    reveal_strlit("/SoftLight");
    reveal_strlit("Difference");
    reveal_strlit("/Difference");
    reveal_strlit("Exclusion");
    reveal_strlit("/Exclusion");
    reveal_strlit("Hue");
    reveal_strlit("/Hue");
    reveal_strlit("Saturation");
    reveal_strlit("/Saturation");
    reveal_strlit("Color");
    reveal_strlit("/Color");
    reveal_strlit("Luminosity");
    reveal_strlit("/Luminosity");
    lemma_letters_escape(ascii("Normal"@));
    lemma_letters_escape(ascii("Multiply"@));
    lemma_letters_escape(ascii("Screen"@));
    lemma_letters_escape(ascii("Overlay"@));
    lemma_letters_escape(ascii("Darken"@));
    lemma_letters_escape(ascii("Lighten"@));
    lemma_letters_escape(ascii("ColorDodge"@));
    lemma_letters_escape(ascii("ColorBurn"@));
    lemma_letters_escape(ascii("HardLight"@));
    lemma_letters_escape(ascii("SoftLight"@));
    lemma_letters_escape(ascii("Difference"@));
    lemma_letters_escape(ascii("Exclusion"@));
    lemma_letters_escape(ascii("Hue"@));
    lemma_letters_escape(ascii("Saturation"@));
    lemma_letters_escape(ascii("Color"@));
    lemma_letters_escape(ascii("Luminosity"@));
    assert(name_enc(BlendMode::Normal.name_bytes()) =~= ascii("/Normal"@));
    assert(name_enc(BlendMode::Multiply.name_bytes()) =~= ascii("/Multiply"@));
    assert(name_enc(BlendMode::Screen.name_bytes()) =~= ascii("/Screen"@));
    assert(name_enc(BlendMode::Overlay.name_bytes()) =~= ascii("/Overlay"@));
    assert(name_enc(BlendMode::Darken.name_bytes()) =~= ascii("/Darken"@));
    assert(name_enc(BlendMode::Lighten.name_bytes()) =~= ascii("/Lighten"@));
    assert(name_enc(BlendMode::ColorDodge.name_bytes()) =~= ascii("/ColorDodge"@));
    assert(name_enc(BlendMode::ColorBurn.name_bytes()) =~= ascii("/ColorBurn"@));
    assert(name_enc(BlendMode::HardLight.name_bytes()) =~= ascii("/HardLight"@));
    assert(name_enc(BlendMode::SoftLight.name_bytes()) =~= ascii("/SoftLight"@));
    assert(name_enc(BlendMode::Difference.name_bytes()) =~= ascii("/Difference"@));
    assert(name_enc(BlendMode::Exclusion.name_bytes()) =~= ascii("/Exclusion"@));
    assert(name_enc(BlendMode::Hue.name_bytes()) =~= ascii("/Hue"@));
    assert(name_enc(BlendMode::Saturation.name_bytes()) =~= ascii("/Saturation"@));
    assert(name_enc(BlendMode::Color.name_bytes()) =~= ascii("/Color"@));
    assert(name_enc(BlendMode::Luminosity.name_bytes()) =~= ascii("/Luminosity"@));
    if a != b {
        let x = name_enc(a.name_bytes());
        let y = name_enc(b.name_bytes());
        assert(x.len() != y.len() || x[1] != y[1] || x[x.len() - 1] != y[y.len() - 1]);
    }
}

/// The procedure sets are written as the names PDF gives them, and different
/// procedure sets are written differently.
pub proof fn law_proc_set_names(a: ProcSet, b: ProcSet)
    ensures
        name_enc(ProcSet::Pdf.name_bytes()) == ascii("/PDF"@),
        name_enc(ProcSet::Text.name_bytes()) == ascii("/Text"@),
        name_enc(ProcSet::ImageGrayscale.name_bytes()) == ascii("/ImageB"@),
        name_enc(ProcSet::ImageColor.name_bytes()) == ascii("/ImageC"@),
        name_enc(ProcSet::ImageIndexed.name_bytes()) == ascii("/ImageI"@),
        a != b ==> name_enc(a.name_bytes()) != name_enc(b.name_bytes()),
{
    reveal_strlit("PDF");
    reveal_strlit("/PDF");
    reveal_strlit("Text");
    reveal_strlit("/Text");
    reveal_strlit("ImageB");
    reveal_strlit("/ImageB");
    reveal_strlit("ImageC");
    reveal_strlit("/ImageC");
    reveal_strlit("ImageI");
    reveal_strlit("/ImageI");
    lemma_letters_escape(ascii("PDF"@));
    lemma_letters_escape(ascii("Text"@));
    lemma_letters_escape(ascii("ImageB"@));
    lemma_letters_escape(ascii("ImageC"@));
    lemma_letters_escape(ascii("ImageI"@));
    assert(name_enc(ProcSet::Pdf.name_bytes()) =~= ascii("/PDF"@));
    assert(name_enc(ProcSet::Text.name_bytes()) =~= ascii("/Text"@));
    assert(name_enc(ProcSet::ImageGrayscale.name_bytes()) =~= ascii("/ImageB"@));
    assert(name_enc(ProcSet::ImageColor.name_bytes()) =~= ascii("/ImageC"@));
    assert(name_enc(ProcSet::ImageIndexed.name_bytes()) =~= ascii("/ImageI"@));
    if a != b {
        let x = name_enc(a.name_bytes());
        let y = name_enc(b.name_bytes());
        assert(x.len() != y.len() || x[1] != y[1] || x[x.len() - 1] != y[y.len() - 1]);
    }
}

/// The soft mask subtypes are written as the names PDF gives them, and
/// different subtypes are written differently.
pub proof fn law_mask_type_names(a: MaskType, b: MaskType)
    ensures
        name_enc(MaskType::Alpha.name_bytes()) == ascii("/Alpha"@),
        name_enc(MaskType::Luminosity.name_bytes()) == ascii("/Luminosity"@),
        a != b ==> name_enc(a.name_bytes()) != name_enc(b.name_bytes()),
{
    reveal_strlit("Alpha");
    reveal_strlit("/Alpha");
    reveal_strlit("Luminosity");
    reveal_strlit("/Luminosity");
    lemma_letters_escape(ascii("Alpha"@));
    lemma_letters_escape(ascii("Luminosity"@));
    assert(name_enc(MaskType::Alpha.name_bytes()) =~= ascii("/Alpha"@));
    assert(name_enc(MaskType::Luminosity.name_bytes()) =~= ascii("/Luminosity"@));
    if a != b {
        let x = name_enc(a.name_bytes());
        let y = name_enc(b.name_bytes());
        assert(x.len() != y.len() || x[1] != y[1] || x[x.len() - 1] != y[y.len() - 1]);
    }
}

} // verus!
