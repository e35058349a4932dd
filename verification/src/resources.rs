//! Resource dictionaries and graphics state parameter dictionaries.

use vstd::prelude::*;
use vstd::string::is_ascii;

use crate::content::{LineCapStyle, LineJoinStyle, RenderingIntent};
use crate::encode::{array_enc, ascii, dict_close, dict_entry, int_enc, lemma_sep_join_push, name_enc, sep_join, LANGLE};
use crate::object::{appended_entry, encodings, name_key, nested_indent, tokens_enc, Array, Dict, Obj};
use crate::primitive::{static_bytes, Name, Primitive, Real, Ref};

verus! {

/// Writes a pair whose key is a static ASCII name.
fn put<T: Primitive>(dict: &mut Dict, key: &'static str, value: T)
    requires
        is_ascii(key),
        old(dict).len < i32::MAX,
    ensures
        appended_entry(*old(dict), *final(dict), name_key(key@), value.encoding()),
        *final(final(dict).buf) == *final(old(dict).buf),
{
    dict.pair(Name(static_bytes(key)), value);
}

/// The name `Default`.
fn default_name() -> (n: Name<'static>)
    ensures
        n.0@ == ascii("Default"@),
{
    proof {
        reveal_strlit("Default");
    }
    Name(static_bytes("Default"))
}

/// The names of procedure sets.
pub open spec fn proc_set_names(sets: Seq<ProcSet>) -> Seq<Seq<u8>> {
    sets.map_values(|s: ProcSet| name_enc(s.name_bytes()))
}

/// Writes the names of procedure sets into an empty array.
fn write_proc_sets(list: &mut Array, sets: &[ProcSet])
    requires
        old(list).len == 0,
        sets@.len() <= i32::MAX,
    ensures
        final(list).buf@ == old(list).buf@ + sep_join(proc_set_names(sets@)),
        final(list).len == sets@.len(),
        *final(final(list).buf) == *final(old(list).buf),
{
    let mut i: usize = 0;
    while i < sets.len()
        invariant
            i <= sets@.len(),
            sets@.len() <= i32::MAX,
            list.len == i,
            list.buf@ == old(list).buf@ + sep_join(proc_set_names(sets@.take(i as int))),
            *final(list.buf) == *final(old(list).buf),
        decreases sets@.len() - i,
    {
        let name = sets[i].to_name();
        list.item(name);
        i += 1;
        proof {
            let prev = proc_set_names(sets@.take(i - 1));
            assert(proc_set_names(sets@.take(i as int)) =~= prev.push(name.encoding()));
            lemma_sep_join_push(prev, name.encoding());
        }
    }
    assert(sets@.take(i as int) =~= sets@);
}

/// Writer for a _resource dictionary_. Write `>>` with
/// [`Resources::finish`].
pub struct Resources<'a> {
    /// The dictionary.
    pub dict: Dict<'a>,
}

impl<'a> Resources<'a> {
    /// Start writing a resource dictionary as the object `obj`.
    pub fn start(obj: Obj<'a>) -> (r: Resources<'a>)
        ensures
            r.dict.buf@ == old(obj.buf)@ + seq![LANGLE, LANGLE],
            r.dict.indent == nested_indent(obj.indent),
            r.dict.len == 0,
            *final(r.dict.buf) == *final(obj.buf),
    {
        Resources { dict: obj.dict() }
    }

    /// Start writing the `/XObject` dictionary.
    ///
    /// Relevant types: image and form XObjects.
    pub fn x_objects(&mut self) -> (d: Dict<'_>)
        requires
            old(self).dict.len < i32::MAX,
        ensures
            d.buf@ == old(self).dict.buf@ + dict_entry(
                old(self).dict.indent as nat,
                name_key("XObject"@),
                seq![LANGLE, LANGLE],
            ),
            d.indent == nested_indent(old(self).dict.indent),
            d.len == 0,
            final(self).dict.buf@ == final(d.buf)@,
            final(self).dict.len == old(self).dict.len + 1,
            final(self).dict.indent == old(self).dict.indent,
            *final(final(self).dict.buf) == *final(old(self).dict.buf),
    {
        proof {
            reveal_strlit("XObject");
        }
        self.dict.insert(Name(static_bytes("XObject"))).dict()
    }

    /// Start writing the `/Font` dictionary.
    pub fn fonts(&mut self) -> (d: Dict<'_>)
        requires
            old(self).dict.len < i32::MAX,
        ensures
            d.buf@ == old(self).dict.buf@ + dict_entry(
                old(self).dict.indent as nat,
                name_key("Font"@),
                seq![LANGLE, LANGLE],
            ),
            d.indent == nested_indent(old(self).dict.indent),
            d.len == 0,
            final(self).dict.buf@ == final(d.buf)@,
            final(self).dict.len == old(self).dict.len + 1,
            final(self).dict.indent == old(self).dict.indent,
            *final(final(self).dict.buf) == *final(old(self).dict.buf),
    {
        proof {
            reveal_strlit("Font");
        }
        self.dict.insert(Name(static_bytes("Font"))).dict()
    }

    /// Start writing the `/ColorSpace` dictionary. PDF 1.1+.
    pub fn color_spaces(&mut self) -> (d: Dict<'_>)
        requires
            old(self).dict.len < i32::MAX,
        ensures
            d.buf@ == old(self).dict.buf@ + dict_entry(
                old(self).dict.indent as nat,
                name_key("ColorSpace"@),
                seq![LANGLE, LANGLE],
            ),
            d.indent == nested_indent(old(self).dict.indent),
            d.len == 0,
            final(self).dict.buf@ == final(d.buf)@,
            final(self).dict.len == old(self).dict.len + 1,
            final(self).dict.indent == old(self).dict.indent,
            *final(final(self).dict.buf) == *final(old(self).dict.buf),
    {
        proof {
            reveal_strlit("ColorSpace");
        }
        self.dict.insert(Name(static_bytes("ColorSpace"))).dict()
    }

    /// Start writing the `/Pattern` dictionary. PDF 1.2+.
    pub fn patterns(&mut self) -> (d: Dict<'_>)
        requires
            old(self).dict.len < i32::MAX,
        ensures
            d.buf@ == old(self).dict.buf@ + dict_entry(
                old(self).dict.indent as nat,
                name_key("Pattern"@),
                seq![LANGLE, LANGLE],
            ),
            d.indent == nested_indent(old(self).dict.indent),
            d.len == 0,
            final(self).dict.buf@ == final(d.buf)@,
            final(self).dict.len == old(self).dict.len + 1,
            final(self).dict.indent == old(self).dict.indent,
            *final(final(self).dict.buf) == *final(old(self).dict.buf),
    {
        proof {
            reveal_strlit("Pattern");
        }
        self.dict.insert(Name(static_bytes("Pattern"))).dict()
    }

    /// Start writing the `/Shading` dictionary. PDF 1.3+.
    pub fn shadings(&mut self) -> (d: Dict<'_>)
        requires
            old(self).dict.len < i32::MAX,
        ensures
            d.buf@ == old(self).dict.buf@ + dict_entry(
                old(self).dict.indent as nat,
                name_key("Shading"@),
                seq![LANGLE, LANGLE],
            ),
            d.indent == nested_indent(old(self).dict.indent),
            d.len == 0,
            final(self).dict.buf@ == final(d.buf)@,
            final(self).dict.len == old(self).dict.len + 1,
            final(self).dict.indent == old(self).dict.indent,
            *final(final(self).dict.buf) == *final(old(self).dict.buf),
    {
        proof {
            reveal_strlit("Shading");
        }
        self.dict.insert(Name(static_bytes("Shading"))).dict()
    }

    /// Start writing the `/ExtGState` dictionary. PDF 1.2+.
    ///
    /// Relevant types: [`ExtGraphicsState`].
    pub fn ext_g_states(&mut self) -> (d: Dict<'_>)
        requires
            old(self).dict.len < i32::MAX,
        ensures
            d.buf@ == old(self).dict.buf@ + dict_entry(
                old(self).dict.indent as nat,
                name_key("ExtGState"@),
                seq![LANGLE, LANGLE],
            ),
            d.indent == nested_indent(old(self).dict.indent),
            d.len == 0,
            final(self).dict.buf@ == final(d.buf)@,
            final(self).dict.len == old(self).dict.len + 1,
            final(self).dict.indent == old(self).dict.indent,
            *final(final(self).dict.buf) == *final(old(self).dict.buf),
    {
        proof {
            reveal_strlit("ExtGState");
        }
        self.dict.insert(Name(static_bytes("ExtGState"))).dict()
    }

    /// Set the `/ProcSet` attribute.
    ///
    /// This defines what procedure sets are sent to an output device when
    /// printing the file as PostScript. The attribute is only used for PDFs
    /// with versions below 1.4.
    pub fn proc_sets(&mut self, sets: &[ProcSet]) -> (res: &mut Self)
        requires
            old(self).dict.len < i32::MAX,
            sets@.len() <= i32::MAX,
        ensures
            appended_entry(
                old(self).dict,
                res.dict,
                name_key("ProcSet"@),
                array_enc(proc_set_names(sets@)),
            ),
            *final(res.dict.buf) == *final(old(self).dict.buf),
            *final(self) == *final(res),
    {
        proof {
            reveal_strlit("ProcSet");
        }
        let ghost before = self.dict.buf@;
        let mut list = self.dict.insert(Name(static_bytes("ProcSet"))).array();
        write_proc_sets(&mut list, sets);
        list.finish();
        assert(self.dict.buf@ =~= before + dict_entry(
            self.dict.indent as nat,
            name_key("ProcSet"@),
            array_enc(proc_set_names(sets@)),
        ));
        self
    }

    /// Set the `/ProcSet` attribute to all available procedure sets.
    ///
    /// The PDF 1.7 specification recommends that modern PDFs either omit the
    /// attribute or specify all available procedure sets, as this function
    /// does.
    pub fn proc_sets_all(&mut self) -> (res: &mut Self)
        requires
            old(self).dict.len < i32::MAX,
        ensures
            appended_entry(
                old(self).dict,
                res.dict,
                name_key("ProcSet"@),
                array_enc(
                    proc_set_names(
                        seq![
                            ProcSet::Pdf,
                            ProcSet::Text,
                            ProcSet::ImageGrayscale,
                            ProcSet::ImageColor,
                            ProcSet::ImageIndexed,
                        ],
                    ),
                ),
            ),
            *final(res.dict.buf) == *final(old(self).dict.buf),
            *final(self) == *final(res),
    {
        let sets = [
            ProcSet::Pdf,
            ProcSet::Text,
            ProcSet::ImageGrayscale,
            ProcSet::ImageColor,
            ProcSet::ImageIndexed,
        ];
        assert(sets@ =~= seq![
            ProcSet::Pdf,
            ProcSet::Text,
            ProcSet::ImageGrayscale,
            ProcSet::ImageColor,
            ProcSet::ImageIndexed,
        ]);
        self.proc_sets(&sets)
    }

    /// Write `>>`.
    pub fn finish(self)
        ensures
            final(self.dict.buf)@ == old(self.dict.buf)@ + dict_close(
                self.dict.indent as nat,
                self.dict.len as int,
            ),
    {
        self.dict.finish();
    }
}

/// What procedure sets to send to a PostScript printer or other output device.
///
/// This enumeration provides compatibilty for printing PDFs of versions 1.3 and
/// below.
#[derive(Debug, Copy, Clone, Eq, PartialEq, Structural, Hash)]
pub enum ProcSet {
    /// Painting and graphics state.
    Pdf,
    /// Text.
    Text,
    /// Grayscale images and masks.
    ImageGrayscale,
    /// Color images.
    ImageColor,
    /// Images with color tables.
    ImageIndexed,
}

impl ProcSet {
    /// The bytes of the name that stands for the value.
    pub open spec fn name_bytes(self) -> Seq<u8> {
        match self {
            ProcSet::Pdf => ascii("PDF"@),
            ProcSet::Text => ascii("Text"@),
            ProcSet::ImageGrayscale => ascii("ImageB"@),
            ProcSet::ImageColor => ascii("ImageC"@),
            ProcSet::ImageIndexed => ascii("ImageI"@),
        }
    }

    /// The name written for the value.
    pub(crate) fn to_name(self) -> (r: Name<'static>)
        ensures
            r.0@ == self.name_bytes(),
    {
        match self {
            Self::Pdf => {
                proof {
                    reveal_strlit("PDF");
                }
                Name(static_bytes("PDF"))
            },
            Self::Text => {
                proof {
                    reveal_strlit("Text");
                }
                Name(static_bytes("Text"))
            },
            Self::ImageGrayscale => {
                proof {
                    reveal_strlit("ImageB");
                }
                Name(static_bytes("ImageB"))
            },
            Self::ImageColor => {
                proof {
                    reveal_strlit("ImageC");
                }
                Name(static_bytes("ImageC"))
            },
            Self::ImageIndexed => {
                proof {
                    reveal_strlit("ImageI");
                }
                Name(static_bytes("ImageI"))
            },
        }
    }
}


/// Writer for a _dictionary with additional parameters for the graphics state._
/// Write `>>` with [`ExtGraphicsState::finish`].
pub struct ExtGraphicsState<'a> {
    /// The dictionary.
    pub dict: Dict<'a>,
}

impl<'a> ExtGraphicsState<'a> {
    /// Start writing a graphics state parameter dictionary as the object
    /// `obj`; its `/Type` is written at once.
    pub fn start(obj: Obj<'a>) -> (g: ExtGraphicsState<'a>)
        ensures
            g.dict.buf@ == old(obj.buf)@ + seq![LANGLE, LANGLE] + dict_entry(
                nested_indent(obj.indent) as nat,
                name_key("Type"@),
                name_key("ExtGState"@),
            ),
            g.dict.indent == nested_indent(obj.indent),
            g.dict.len == 1,
            *final(g.dict.buf) == *final(obj.buf),
    {
        proof {
            reveal_strlit("Type");
            reveal_strlit("ExtGState");
        }
        let mut dict = obj.dict();
        dict.pair(Name(static_bytes("Type")), Name(static_bytes("ExtGState")));
        ExtGraphicsState { dict }
    }

    /// `LW`: Set the line width. PDF 1.3+.
    pub fn line_width(&mut self, width: Real) -> (res: &mut Self)
        requires
            old(self).dict.len < i32::MAX,
        ensures
            appended_entry(old(self).dict, res.dict, name_key("LW"@), width.encoding()),
            *final(res.dict.buf) == *final(old(self).dict.buf),
            *final(self) == *final(res),
    {
        proof {
            reveal_strlit("LW");
        }
        put(&mut self.dict, "LW", width);
        self
    }

    /// `LC`: Set the line cap style. PDF 1.3+.
    pub fn line_cap(&mut self, cap: LineCapStyle) -> (res: &mut Self)
        requires
            old(self).dict.len < i32::MAX,
        ensures
            appended_entry(old(self).dict, res.dict, name_key("LC"@), int_enc(cap.code())),
            *final(res.dict.buf) == *final(old(self).dict.buf),
            *final(self) == *final(res),
    {
        proof {
            reveal_strlit("LC");
        }
        put(&mut self.dict, "LC", cap.to_int());
        self
    }

    /// `LJ`: Set the line join style. PDF 1.3+.
    pub fn line_join(&mut self, join: LineJoinStyle) -> (res: &mut Self)
        requires
            old(self).dict.len < i32::MAX,
        ensures
            appended_entry(old(self).dict, res.dict, name_key("LJ"@), int_enc(join.code())),
            *final(res.dict.buf) == *final(old(self).dict.buf),
            *final(self) == *final(res),
    {
        proof {
            reveal_strlit("LJ");
        }
        put(&mut self.dict, "LJ", join.to_int());
        self
    }

    /// `ML`: Set the miter limit. PDF 1.3+.
    pub fn miter_limit(&mut self, limit: Real) -> (res: &mut Self)
        requires
            old(self).dict.len < i32::MAX,
        ensures
            appended_entry(old(self).dict, res.dict, name_key("ML"@), limit.encoding()),
            *final(res.dict.buf) == *final(old(self).dict.buf),
            *final(self) == *final(res),
    {
        proof {
            reveal_strlit("ML");
        }
        put(&mut self.dict, "ML", limit);
        self
    }

    /// `D`: Set the dash pattern. PDF 1.3+.
    pub fn dash_pattern(&mut self, pattern: &[Real], phase: Real) -> (res: &mut Self)
        requires
            old(self).dict.len < i32::MAX,
            pattern@.len() <= i32::MAX,
        ensures
            appended_entry(
                old(self).dict,
                res.dict,
                name_key("D"@),
                array_enc(seq![array_enc(encodings(pattern@)), phase.encoding()]),
            ),
            *final(res.dict.buf) == *final(old(self).dict.buf),
            *final(self) == *final(res),
    {
        proof {
            reveal_strlit("D");
        }
        let ghost before = self.dict.buf@;
        let ghost inner_enc = array_enc(encodings(pattern@));
        let mut outer = self.dict.insert(Name(static_bytes("D"))).array();
        let mut inner = outer.push().array();
        inner.items(pattern);
        inner.finish();
        outer.item(phase);
        outer.finish();
        proof {
            assert(tokens_enc(true, encodings(pattern@)) == sep_join(encodings(pattern@)));
            lemma_sep_join_push(seq![inner_enc], phase.encoding());
            assert(seq![inner_enc].push(phase.encoding()) =~= seq![inner_enc, phase.encoding()]);
            assert(self.dict.buf@ =~= before + dict_entry(
                self.dict.indent as nat,
                name_key("D"@),
                array_enc(seq![inner_enc, phase.encoding()]),
            ));
        }
        self
    }

    /// `RI`: Set the rendering intent. PDF 1.3+.
    pub fn rendering_intent(&mut self, intent: RenderingIntent) -> (res: &mut Self)
        requires
            old(self).dict.len < i32::MAX,
        ensures
            appended_entry(old(self).dict, res.dict, name_key("RI"@), name_enc(intent.name_bytes())),
            *final(res.dict.buf) == *final(old(self).dict.buf),
            *final(self) == *final(res),
    {
        proof {
            reveal_strlit("RI");
        }
        put(&mut self.dict, "RI", intent.to_name());
        self
    }

    /// `OP`: Set the overprint mode for all operations, except if an `op` entry
    /// is present. If so, only influence the stroking operations. PDF 1.2+.
    pub fn overprint(&mut self, overprint: bool) -> (res: &mut Self)
        requires
            old(self).dict.len < i32::MAX,
        ensures
            appended_entry(old(self).dict, res.dict, name_key("OP"@), overprint.encoding()),
            *final(res.dict.buf) == *final(old(self).dict.buf),
            *final(self) == *final(res),
    {
        proof {
            reveal_strlit("OP");
        }
        put(&mut self.dict, "OP", overprint);
        self
    }

    /// `op`: Set the overprint mode for fill operations. PDF 1.3+.
    pub fn overprint_fill(&mut self, overprint: bool) -> (res: &mut Self)
        requires
            old(self).dict.len < i32::MAX,
        ensures
            appended_entry(old(self).dict, res.dict, name_key("op"@), overprint.encoding()),
            *final(res.dict.buf) == *final(old(self).dict.buf),
            *final(self) == *final(res),
    {
        proof {
            reveal_strlit("op");
        }
        put(&mut self.dict, "op", overprint);
        self
    }

    /// `Font`: Set the font. PDF 1.3+.
    pub fn font(&mut self, font: Name, size: Real) -> (res: &mut Self)
        requires
            old(self).dict.len < i32::MAX,
        ensures
            appended_entry(
                old(self).dict,
                res.dict,
                name_key("Font"@),
                array_enc(seq![font.encoding(), size.encoding()]),
            ),
            *final(res.dict.buf) == *final(old(self).dict.buf),
            *final(self) == *final(res),
    {
        proof {
            reveal_strlit("Font");
        }
        let ghost before = self.dict.buf@;
        let mut list = self.dict.insert(Name(static_bytes("Font"))).array();
        list.item(font);
        list.item(size);
        list.finish();
        proof {
            lemma_sep_join_push(seq![font.encoding()], size.encoding());
            assert(seq![font.encoding()].push(size.encoding()) =~= seq![font.encoding(), size.encoding()]);
            assert(self.dict.buf@ =~= before + dict_entry(
                self.dict.indent as nat,
                name_key("Font"@),
                array_enc(seq![font.encoding(), size.encoding()]),
            ));
        }
        self
    }

    /// `BG`: Set the black generation function.
    pub fn black_generation(&mut self, func: Ref) -> (res: &mut Self)
        requires
            old(self).dict.len < i32::MAX,
        ensures
            appended_entry(old(self).dict, res.dict, name_key("BG"@), func.encoding()),
            *final(res.dict.buf) == *final(old(self).dict.buf),
            *final(self) == *final(res),
    {
        proof {
            reveal_strlit("BG");
        }
        put(&mut self.dict, "BG", func);
        self
    }

    /// `BG2`: Set the black-generation function back to the function that has
    /// been in effect at the beginning of the page. PDF 1.3+.
    pub fn black_generation_default(&mut self) -> (res: &mut Self)
        requires
            old(self).dict.len < i32::MAX,
        ensures
            appended_entry(old(self).dict, res.dict, name_key("BG2"@), name_key("Default"@)),
            *final(res.dict.buf) == *final(old(self).dict.buf),
            *final(self) == *final(res),
    {
        proof {
            reveal_strlit("BG2");
        }
        put(&mut self.dict, "BG2", default_name());
        self
    }

    /// `UCR`: Set the undercolor removal function.
    pub fn undercolor_removal(&mut self, func: Ref) -> (res: &mut Self)
        requires
            old(self).dict.len < i32::MAX,
        ensures
            appended_entry(old(self).dict, res.dict, name_key("UCR"@), func.encoding()),
            *final(res.dict.buf) == *final(old(self).dict.buf),
            *final(self) == *final(res),
    {
        proof {
            reveal_strlit("UCR");
        }
        put(&mut self.dict, "UCR", func);
        self
    }

    /// `UCR2`: Set the undercolor removal function back to the function that
    /// has been in effect at the beginning of the page. PDF 1.3+.
    pub fn undercolor_removal_default(&mut self) -> (res: &mut Self)
        requires
            old(self).dict.len < i32::MAX,
        ensures
            appended_entry(old(self).dict, res.dict, name_key("UCR2"@), name_key("Default"@)),
            *final(res.dict.buf) == *final(old(self).dict.buf),
            *final(self) == *final(res),
    {
        proof {
            reveal_strlit("UCR2");
        }
        put(&mut self.dict, "UCR2", default_name());
        self
    }

    /// `TR`: Set the transfer function.
    pub fn transfer(&mut self, func: Ref) -> (res: &mut Self)
        requires
            old(self).dict.len < i32::MAX,
        ensures
            appended_entry(old(self).dict, res.dict, name_key("TR"@), func.encoding()),
            *final(res.dict.buf) == *final(old(self).dict.buf),
            *final(self) == *final(res),
    {
        proof {
            reveal_strlit("TR");
        }
        put(&mut self.dict, "TR", func);
        self
    }

    /// `TR2`: Set the transfer function back to the function that has been in
    /// effect at the beginning of the page. PDF 1.3+.
    pub fn transfer_default(&mut self) -> (res: &mut Self)
        requires
            old(self).dict.len < i32::MAX,
        ensures
            appended_entry(old(self).dict, res.dict, name_key("TR2"@), name_key("Default"@)),
            *final(res.dict.buf) == *final(old(self).dict.buf),
            *final(self) == *final(res),
    {
        proof {
            reveal_strlit("TR2");
        }
        put(&mut self.dict, "TR2", default_name());
        self
    }

    /// `HT`: Set the halftone.
    pub fn halftone(&mut self, ht: Ref) -> (res: &mut Self)
        requires
            old(self).dict.len < i32::MAX,
        ensures
            appended_entry(old(self).dict, res.dict, name_key("HT"@), ht.encoding()),
            *final(res.dict.buf) == *final(old(self).dict.buf),
            *final(self) == *final(res),
    {
        proof {
            reveal_strlit("HT");
        }
        put(&mut self.dict, "HT", ht);
        self
    }

    /// `HT`: Set the halftone back to the halftone that has been in effect at
    /// the beginning of the page.
    pub fn halftone_default(&mut self) -> (res: &mut Self)
        requires
            old(self).dict.len < i32::MAX,
        ensures
            appended_entry(old(self).dict, res.dict, name_key("HT"@), name_key("Default"@)),
            *final(res.dict.buf) == *final(old(self).dict.buf),
            *final(self) == *final(res),
    {
        proof {
            reveal_strlit("HT");
        }
        put(&mut self.dict, "HT", default_name());
        self
    }

    /// `FL`: Set the flatness tolerance. PDF 1.3+.
    pub fn flatness(&mut self, tolerance: Real) -> (res: &mut Self)
        requires
            old(self).dict.len < i32::MAX,
        ensures
            appended_entry(old(self).dict, res.dict, name_key("FL"@), tolerance.encoding()),
            *final(res.dict.buf) == *final(old(self).dict.buf),
            *final(self) == *final(res),
    {
        proof {
            reveal_strlit("FL");
        }
        put(&mut self.dict, "FL", tolerance);
        self
    }

    /// `SM`: Set the smoothness tolerance. PDF 1.3+.
    pub fn smoothness(&mut self, tolerance: Real) -> (res: &mut Self)
        requires
            old(self).dict.len < i32::MAX,
        ensures
            appended_entry(old(self).dict, res.dict, name_key("SM"@), tolerance.encoding()),
            *final(res.dict.buf) == *final(old(self).dict.buf),
            *final(self) == *final(res),
    {
        proof {
            reveal_strlit("SM");
        }
        put(&mut self.dict, "SM", tolerance);
        self
    }

    /// `SA`: Set automatic stroke adjustment.
    pub fn stroke_adjustment(&mut self, adjust: bool) -> (res: &mut Self)
        requires
            old(self).dict.len < i32::MAX,
        ensures
            appended_entry(old(self).dict, res.dict, name_key("SA"@), adjust.encoding()),
            *final(res.dict.buf) == *final(old(self).dict.buf),
            *final(self) == *final(res),
    {
        proof {
            reveal_strlit("SA");
        }
        put(&mut self.dict, "SA", adjust);
        self
    }

    /// `BM`: Set the blend mode. PDF 1.4+.
    pub fn blend_mode(&mut self, mode: BlendMode) -> (res: &mut Self)
        requires
            old(self).dict.len < i32::MAX,
        ensures
            appended_entry(old(self).dict, res.dict, name_key("BM"@), name_enc(mode.name_bytes())),
            *final(res.dict.buf) == *final(old(self).dict.buf),
            *final(self) == *final(res),
    {
        proof {
            reveal_strlit("BM");
        }
        put(&mut self.dict, "BM", mode.to_name());
        self
    }

    /// `SMask`: Set the soft mask using a dictionary. PDF 1.4+. Write its
    /// `>>` with [`SoftMask::finish`].
    pub fn soft_mask(&mut self) -> (m: SoftMask<'_>)
        requires
            old(self).dict.len < i32::MAX,
        ensures
            m.dict.buf@ == old(self).dict.buf@ + dict_entry(
                old(self).dict.indent as nat,
                name_key("SMask"@),
                seq![LANGLE, LANGLE] + dict_entry(
                    nested_indent(old(self).dict.indent) as nat,
                    name_key("Type"@),
                    name_key("Mask"@),
                ),
            ),
            m.dict.indent == nested_indent(old(self).dict.indent),
            m.dict.len == 1,
            final(self).dict.buf@ == final(m.dict.buf)@,
            final(self).dict.len == old(self).dict.len + 1,
            final(self).dict.indent == old(self).dict.indent,
            *final(final(self).dict.buf) == *final(old(self).dict.buf),
    {
        proof {
            reveal_strlit("SMask");
        }
        let ghost before = self.dict.buf@;
        let ghost indent = self.dict.indent;
        let m = SoftMask::start(self.dict.insert(Name(static_bytes("SMask"))));
        assert(m.dict.buf@ =~= before + dict_entry(
            indent as nat,
            name_key("SMask"@),
            seq![LANGLE, LANGLE] + dict_entry(
                nested_indent(indent) as nat,
                name_key("Type"@),
                name_key("Mask"@),
            ),
        ));
        m
    }

    /// `SMask`: Set the soft mask using a name. PDF 1.4+.
    pub fn soft_mask_name(&mut self, mask: Name) -> (res: &mut Self)
        requires
            old(self).dict.len < i32::MAX,
        ensures
            appended_entry(old(self).dict, res.dict, name_key("SMask"@), mask.encoding()),
            *final(res.dict.buf) == *final(old(self).dict.buf),
            *final(self) == *final(res),
    {
        proof {
            reveal_strlit("SMask");
        }
        put(&mut self.dict, "SMask", mask);
        self
    }

    /// `CA`: Set the stroking alpha constant. PDF 1.4+.
    pub fn stroking_alpha(&mut self, alpha: Real) -> (res: &mut Self)
        requires
            old(self).dict.len < i32::MAX,
        ensures
            appended_entry(old(self).dict, res.dict, name_key("CA"@), alpha.encoding()),
            *final(res.dict.buf) == *final(old(self).dict.buf),
            *final(self) == *final(res),
    {
        proof {
            reveal_strlit("CA");
        }
        put(&mut self.dict, "CA", alpha);
        self
    }

    /// `ca`: Set the non-stroking alpha constant. PDF 1.4+.
    pub fn non_stroking_alpha(&mut self, alpha: Real) -> (res: &mut Self)
        requires
            old(self).dict.len < i32::MAX,
        ensures
            appended_entry(old(self).dict, res.dict, name_key("ca"@), alpha.encoding()),
            *final(res.dict.buf) == *final(old(self).dict.buf),
            *final(self) == *final(res),
    {
        proof {
            reveal_strlit("ca");
        }
        put(&mut self.dict, "ca", alpha);
        self
    }

    /// `AIS`: Set the alpha source flag. `CA` and `ca` values as well as the
    /// `SMask` will be interpreted as shape instead of opacity. PDF 1.4+.
    pub fn alpha_source(&mut self, source: bool) -> (res: &mut Self)
        requires
            old(self).dict.len < i32::MAX,
        ensures
            appended_entry(old(self).dict, res.dict, name_key("AIS"@), source.encoding()),
            *final(res.dict.buf) == *final(old(self).dict.buf),
            *final(self) == *final(res),
    {
        proof {
            reveal_strlit("AIS");
        }
        put(&mut self.dict, "AIS", source);
        self
    }

    /// `TK`: Set the text knockout flag. PDF 1.4+.
    pub fn text_knockout(&mut self, knockout: bool) -> (res: &mut Self)
        requires
            old(self).dict.len < i32::MAX,
        ensures
            appended_entry(old(self).dict, res.dict, name_key("TK"@), knockout.encoding()),
            *final(res.dict.buf) == *final(old(self).dict.buf),
            *final(self) == *final(res),
    {
        proof {
            reveal_strlit("TK");
        }
        put(&mut self.dict, "TK", knockout);
        self
    }

    /// Write `>>`.
    pub fn finish(self)
        ensures
            final(self.dict.buf)@ == old(self.dict.buf)@ + dict_close(
                self.dict.indent as nat,
                self.dict.len as int,
            ),
    {
        self.dict.finish();
    }
}

/// How to blend source and backdrop.
#[derive(Debug, Copy, Clone, Eq, PartialEq, Structural, Hash)]
pub enum BlendMode {
    /// The `Normal` blend mode.
    Normal,
    /// The `Multiply` blend mode.
    Multiply,
    /// The `Screen` blend mode.
    Screen,
    /// The `Overlay` blend mode.
    Overlay,
    /// The `Darken` blend mode.
    Darken,
    /// The `Lighten` blend mode.
    Lighten,
    /// The `ColorDodge` blend mode.
    ColorDodge,
    /// The `ColorBurn` blend mode.
    ColorBurn,
    /// The `HardLight` blend mode.
    HardLight,
    /// The `SoftLight` blend mode.
    SoftLight,
    /// The `Difference` blend mode.
    Difference,
    /// The `Exclusion` blend mode.
    Exclusion,
    /// The `Hue` blend mode.
    Hue,
    /// The `Saturation` blend mode.
    Saturation,
    /// The `Color` blend mode.
    Color,
    /// The `Luminosity` blend mode.
    Luminosity,
}

impl BlendMode {
    /// The bytes of the name that stands for the value.
    pub open spec fn name_bytes(self) -> Seq<u8> {
        match self {
            BlendMode::Normal => ascii("Normal"@),
            BlendMode::Multiply => ascii("Multiply"@),
            BlendMode::Screen => ascii("Screen"@),
            BlendMode::Overlay => ascii("Overlay"@),
            BlendMode::Darken => ascii("Darken"@),
            BlendMode::Lighten => ascii("Lighten"@),
            BlendMode::ColorDodge => ascii("ColorDodge"@),
            BlendMode::ColorBurn => ascii("ColorBurn"@),
            BlendMode::HardLight => ascii("HardLight"@),
            BlendMode::SoftLight => ascii("SoftLight"@),
            BlendMode::Difference => ascii("Difference"@),
            BlendMode::Exclusion => ascii("Exclusion"@),
            BlendMode::Hue => ascii("Hue"@),
            BlendMode::Saturation => ascii("Saturation"@),
            BlendMode::Color => ascii("Color"@),
            BlendMode::Luminosity => ascii("Luminosity"@),
        }
    }

    /// The name written for the value.
    pub(crate) fn to_name(self) -> (r: Name<'static>)
        ensures
            r.0@ == self.name_bytes(),
    {
        match self {
            Self::Normal => {
                proof {
                    reveal_strlit("Normal");
                }
                Name(static_bytes("Normal"))
            },
            Self::Multiply => {
                proof {
                    reveal_strlit("Multiply");
                }
                Name(static_bytes("Multiply"))
            },
            Self::Screen => {
                proof {
                    reveal_strlit("Screen");
                }
                Name(static_bytes("Screen"))
            },
            Self::Overlay => {
                proof {
                    reveal_strlit("Overlay");
                }
                Name(static_bytes("Overlay"))
            },
            Self::Darken => {
                proof {
                    reveal_strlit("Darken");
                }
                Name(static_bytes("Darken"))
            },
            Self::Lighten => {
                proof {
                    reveal_strlit("Lighten");
                }
                Name(static_bytes("Lighten"))
            },
            Self::ColorDodge => {
                proof {
                    reveal_strlit("ColorDodge");
                }
                Name(static_bytes("ColorDodge"))
            },
            Self::ColorBurn => {
                proof {
                    reveal_strlit("ColorBurn");
                }
                Name(static_bytes("ColorBurn"))
            },
            Self::HardLight => {
                proof {
                    reveal_strlit("HardLight");
                }
                Name(static_bytes("HardLight"))
            },
            Self::SoftLight => {
                proof {
                    reveal_strlit("SoftLight");
                }
                Name(static_bytes("SoftLight"))
            },
            Self::Difference => {
                proof {
                    reveal_strlit("Difference");
                }
                Name(static_bytes("Difference"))
            },
            Self::Exclusion => {
                proof {
                    reveal_strlit("Exclusion");
                }
                Name(static_bytes("Exclusion"))
            },
            Self::Hue => {
                proof {
                    reveal_strlit("Hue");
                }
                Name(static_bytes("Hue"))
            },
            Self::Saturation => {
                proof {
                    reveal_strlit("Saturation");
                }
                Name(static_bytes("Saturation"))
            },
            Self::Color => {
                proof {
                    reveal_strlit("Color");
                }
                Name(static_bytes("Color"))
            },
            Self::Luminosity => {
                proof {
                    reveal_strlit("Luminosity");
                }
                Name(static_bytes("Luminosity"))
            },
        }
    }
}


/// Writer for a _soft mask dictionary_. Write `>>` with [`SoftMask::finish`].
///
/// This struct is created by [`ExtGraphicsState::soft_mask`].
pub struct SoftMask<'a> {
    /// The dictionary.
    pub dict: Dict<'a>,
}

impl<'a> SoftMask<'a> {
    /// Start writing a soft mask dictionary as the object `obj`; its `/Type`
    /// is written at once.
    pub fn start(obj: Obj<'a>) -> (m: SoftMask<'a>)
        ensures
            m.dict.buf@ == old(obj.buf)@ + seq![LANGLE, LANGLE] + dict_entry(
                nested_indent(obj.indent) as nat,
                name_key("Type"@),
                name_key("Mask"@),
            ),
            m.dict.indent == nested_indent(obj.indent),
            m.dict.len == 1,
            *final(m.dict.buf) == *final(obj.buf),
    {
        proof {
            reveal_strlit("Type");
            reveal_strlit("Mask");
        }
        let mut dict = obj.dict();
        dict.pair(Name(static_bytes("Type")), Name(static_bytes("Mask")));
        SoftMask { dict }
    }

    /// `S`: Set the soft mask subtype. Required.
    pub fn subtype(&mut self, subtype: MaskType) -> (res: &mut Self)
        requires
            old(self).dict.len < i32::MAX,
        ensures
            appended_entry(old(self).dict, res.dict, name_key("S"@), name_enc(subtype.name_bytes())),
            *final(res.dict.buf) == *final(old(self).dict.buf),
            *final(self) == *final(res),
    {
        proof {
            reveal_strlit("S");
        }
        put(&mut self.dict, "S", subtype.to_name());
        self
    }

    /// `G`: Set the soft mask. Must be a transparency group XObject. The group
    /// has to have a color space set in the `/CS` attribute if the mask subtype
    /// is `Luminosity`. Required.
    pub fn group(&mut self, group: Ref) -> (res: &mut Self)
        requires
            old(self).dict.len < i32::MAX,
        ensures
            appended_entry(old(self).dict, res.dict, name_key("G"@), group.encoding()),
            *final(res.dict.buf) == *final(old(self).dict.buf),
            *final(self) == *final(res),
    {
        proof {
            reveal_strlit("G");
        }
        put(&mut self.dict, "G", group);
        self
    }

    /// `BC`: Set the background color for the transparency group. Only
    /// applicable if the mask subtype is `Luminosity`. Has to be set in the
    /// group's color space.
    pub fn backdrop(&mut self, color: &[Real]) -> (res: &mut Self)
        requires
            old(self).dict.len < i32::MAX,
            color@.len() <= i32::MAX,
        ensures
            appended_entry(old(self).dict, res.dict, name_key("BC"@), array_enc(encodings(color@))),
            *final(res.dict.buf) == *final(old(self).dict.buf),
            *final(self) == *final(res),
    {
        proof {
            reveal_strlit("BC");
        }
        let ghost before = self.dict.buf@;
        let mut list = self.dict.insert(Name(static_bytes("BC"))).array();
        list.items(color);
        list.finish();
        assert(tokens_enc(true, encodings(color@)) == sep_join(encodings(color@)));
        assert(self.dict.buf@ =~= before + dict_entry(
            self.dict.indent as nat,
            name_key("BC"@),
            array_enc(encodings(color@)),
        ));
        self
    }

    /// `TR`: A function that maps from the group's output values to the mask
    /// opacity.
    pub fn transfer_function(&mut self, function: Ref) -> (res: &mut Self)
        requires
            old(self).dict.len < i32::MAX,
        ensures
            appended_entry(old(self).dict, res.dict, name_key("TR"@), function.encoding()),
            *final(res.dict.buf) == *final(old(self).dict.buf),
            *final(self) == *final(res),
    {
        proof {
            reveal_strlit("TR");
        }
        put(&mut self.dict, "TR", function);
        self
    }

    /// Write `>>`.
    pub fn finish(self)
        ensures
            final(self.dict.buf)@ == old(self.dict.buf)@ + dict_close(
                self.dict.indent as nat,
                self.dict.len as int,
            ),
    {
        self.dict.finish();
    }
}

/// What property in the mask influences the target alpha.
#[derive(Debug, Copy, Clone, Eq, PartialEq, Structural, Hash)]
pub enum MaskType {
    /// The alpha values from the mask are applied to the target.
    Alpha,
    /// A single-channel luminosity value is calculated for the colors in the
    /// mask.
    Luminosity,
}

impl MaskType {
    /// The bytes of the name that stands for the value.
    pub open spec fn name_bytes(self) -> Seq<u8> {
        match self {
            MaskType::Alpha => ascii("Alpha"@),
            MaskType::Luminosity => ascii("Luminosity"@),
        }
    }

    /// The name written for the value.
    pub(crate) fn to_name(self) -> (r: Name<'static>)
        ensures
            r.0@ == self.name_bytes(),
    {
        match self {
            Self::Alpha => {
                proof {
                    reveal_strlit("Alpha");
                }
                Name(static_bytes("Alpha"))
            },
            Self::Luminosity => {
                proof {
                    reveal_strlit("Luminosity");
                }
                Name(static_bytes("Luminosity"))
            },
        }
    }
}

} // verus!
