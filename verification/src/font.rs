//! The font handle wrapper.
//!
//! A `CTFont` owns exactly one reference to a font object in the system's
//! store.  Every constructor follows the create rule — the object it
//! yields starts with one reference, held by the wrapper — and `release`
//! consumes the wrapper, so the one reference is given up exactly once.

use vstd::prelude::*;
use vstd::string::StringExecFns;

use crate::font_descriptor::{
    CTFontDescriptor, CTFontDescriptorV, CTFontOrientation, CTFontSymbolicTraits, CTFontTraits,
};
use crate::system::{
    FontData, FontDataV, FontSystem, FontTable, FontTableV, GlyphAdvance, MAX_ADVANCE, Rect,
    desc_matches, faces_view, first_desc_match, first_desc_match_from, font_created,
    font_released, gfont_created,
};
use crate::{DEFAULT_FONT_SIZE, FontError};

verus! {

/// Does face `f` answer to `name`?  A name-based lookup accepts either
/// the PostScript name or the family name.
pub open spec fn name_matches(n: Seq<char>, f: FontDataV) -> bool {
    f.postscript_name == n || f.family_name == n
}

/// Index of the first face at or after `i` that answers to `n`, or -1.
pub open spec fn first_name_match_from(avail: Seq<FontDataV>, n: Seq<char>, i: int) -> int
    decreases avail.len() - i,
{
    if i < 0 || i >= avail.len() {
        -1
    } else if name_matches(n, avail[i]) {
        i
    } else {
        first_name_match_from(avail, n, i + 1)
    }
}

/// Index of the first face that answers to `n`, or -1 if none does.
pub open spec fn first_name_match(avail: Seq<FontDataV>, n: Seq<char>) -> int {
    first_name_match_from(avail, n, 0)
}

proof fn lemma_first_name_match_from(avail: Seq<FontDataV>, n: Seq<char>, i: int)
    requires
        0 <= i <= avail.len(),
    ensures
        ({
            let k = first_name_match_from(avail, n, i);
            &&& (k == -1 <==> forall|j: int|
                i <= j < avail.len() ==> !name_matches(n, #[trigger] avail[j]))
            &&& (k != -1 ==> i <= k < avail.len() && name_matches(n, avail[k]))
        }),
    decreases avail.len() - i,
{
    if i < avail.len() && !name_matches(n, avail[i]) {
        lemma_first_name_match_from(avail, n, i + 1);
    }
}

/// A name-based lookup succeeds exactly when some installed face answers
/// to the name.
pub proof fn lemma_first_name_match(avail: Seq<FontDataV>, n: Seq<char>)
    ensures
        first_name_match(avail, n) == -1 <==> (forall|j: int|
            0 <= j < avail.len() ==> !name_matches(n, #[trigger] avail[j])),
        first_name_match(avail, n) != -1 ==> 0 <= first_name_match(avail, n) < avail.len()
            && name_matches(n, avail[first_name_match(avail, n)]),
{
    lemma_first_name_match_from(avail, n, 0);
}

/// The face a descriptor-based construction instantiates: the first
/// matching face, or — since the native call is total — the first
/// installed face when nothing matches.
pub open spec fn matched_face(avail: Seq<FontDataV>, d: CTFontDescriptorV) -> FontDataV {
    if first_desc_match(avail, d) >= 0 {
        avail[first_desc_match(avail, d)]
    } else {
        avail[0]
    }
}

/// The point size a constructor instantiates at: the caller's size if it
/// gave one, else the descriptor's size attribute, else the default.
pub open spec fn effective_size(d: CTFontDescriptorV, pt_size: i64) -> i64 {
    if pt_size != 0 {
        pt_size
    } else {
        match d.size {
            Option::Some(s) => s,
            Option::None => DEFAULT_FONT_SIZE,
        }
    }
}

/// Does face `f` answer to `name`, executably.
fn font_matches_name(f: &FontData, name: &String) -> (r: bool)
    ensures
        r == name_matches(name@, f@),
{
    f.postscript_name == *name || f.family_name == *name
}

/// Find the first installed face answering to `name`.
fn find_name_match(available: &Vec<FontData>, name: &String) -> (r: Option<usize>)
    ensures
        match r {
            Option::Some(i) => i as int == first_name_match(faces_view(available@), name@)
                && (i as int) < available@.len(),
            Option::None => first_name_match(faces_view(available@), name@) == -1,
        },
{
    let ghost avail = faces_view(available@);
    let mut i: usize = 0;
    while i < available.len()
        invariant
            0 <= i <= available.len(),
            avail == faces_view(available@),
            avail.len() == available@.len(),
            first_name_match(avail, name@) == first_name_match_from(avail, name@, i as int),
        decreases available.len() - i,
    {
        if font_matches_name(&available[i], name) {
            proof {
                assert(avail[i as int] == available@[i as int]@);
            }
            return Option::Some(i);
        }
        proof {
            assert(avail[i as int] == available@[i as int]@);
        }
        i = i + 1;
    }
    Option::None
}

/// Does face `f` satisfy descriptor `d`, executably.
pub(crate) fn font_matches_descriptor(d: &CTFontDescriptor, f: &FontData) -> (r: bool)
    ensures
        r == desc_matches(d@, f@),
{
    let family_ok = match &d.family {
        Option::Some(n) => *n == f.family_name,
        Option::None => true,
    };
    let style_ok = match &d.style {
        Option::Some(n) => *n == f.face_name,
        Option::None => true,
    };
    family_ok && style_ok
}

/// Find the first installed face satisfying descriptor `d`.
fn find_desc_match(available: &Vec<FontData>, d: &CTFontDescriptor) -> (r: Option<usize>)
    ensures
        match r {
            Option::Some(i) => i as int == first_desc_match(faces_view(available@), d@)
                && (i as int) < available@.len(),
            Option::None => first_desc_match(faces_view(available@), d@) == -1,
        },
{
    let ghost avail = faces_view(available@);
    let mut i: usize = 0;
    while i < available.len()
        invariant
            0 <= i <= available.len(),
            avail == faces_view(available@),
            avail.len() == available@.len(),
            first_desc_match(avail, d@) == first_desc_match_from(avail, d@, i as int),
        decreases available.len() - i,
    {
        if font_matches_descriptor(d, &available[i]) {
            proof {
                assert(avail[i as int] == available@[i as int]@);
            }
            return Option::Some(i);
        }
        proof {
            assert(avail[i as int] == available@[i as int]@);
        }
        i = i + 1;
    }
    Option::None
}

/// An owned font handle.  The wrapper holds the one reference its
/// constructor created; `release` gives it up and consumes the wrapper,
/// so it cannot be released twice.
pub struct CTFont {
    handle: usize,
}

impl CTFont {
    /// The handle this wrapper owns, as a store index.
    pub closed spec fn id(self) -> int {
        self.handle as int
    }

    /// Construct a font over the face behind a graphics-font handle.
    /// The native call is total over a valid (non-null) handle, so a live
    /// handle is a precondition, not a failure path.
    pub fn new_from_graphics_font(sys: &mut FontSystem, gfont: usize, pt_size: i64) -> (f: CTFont)
        requires
            old(sys).wf(),
            old(sys).gfont_live(gfont as int),
        ensures
            final(sys).wf(),
            font_created(
                *old(sys),
                *final(sys),
                old(sys).gfont_data(gfont as int),
                if pt_size != 0 {
                    pt_size
                } else {
                    DEFAULT_FONT_SIZE
                },
                f.id(),
            ),
            f.id() == old(sys).fonts.len(),
    {
        let data = sys.gfonts.borrow(gfont).clone();
        let size = if pt_size != 0 {
            pt_size
        } else {
            DEFAULT_FONT_SIZE
        };
        proof {
            assert(sys.gfonts.live(gfont as int));
        }
        let h = sys.create_font(data, size);
        CTFont { handle: h }
    }

    /// Construct a font from a descriptor.  The native call is total: it
    /// falls back to the system's first face when nothing matches the
    /// descriptor.  A zero point size asks for the descriptor's size
    /// attribute, or the default size if the descriptor has none.
    pub fn new_from_descriptor(sys: &mut FontSystem, desc: &CTFontDescriptor, pt_size: i64) -> (f:
        CTFont)
        requires
            old(sys).wf(),
        ensures
            final(sys).wf(),
            font_created(
                *old(sys),
                *final(sys),
                matched_face(old(sys).avail(), desc@),
                effective_size(desc@, pt_size),
                f.id(),
            ),
            f.id() == old(sys).fonts.len(),
    {
        let idx = match find_desc_match(&sys.available, desc) {
            Option::Some(i) => i,
            Option::None => 0,
        };
        let data = sys.available[idx].clone();
        let size = if pt_size != 0 {
            pt_size
        } else {
            match desc.size {
                Option::Some(s) => s,
                Option::None => DEFAULT_FONT_SIZE,
            }
        };
        proof {
            assert(old(sys).avail()[idx as int] == old(sys).available@[idx as int]@);
            assert(font_data_wf_of(*old(sys), idx as int));
        }
        let h = sys.create_font(data, size);
        CTFont { handle: h }
    }

    /// Look a font up by name — PostScript or family.  This is the one
    /// constructor with an observable failure: it returns the not-found
    /// error exactly when no installed face answers to the name, and then
    /// leaves the system untouched.
    pub fn new_from_name(sys: &mut FontSystem, name: &str, pt_size: i64) -> (r: Result<
        CTFont,
        FontError,
    >)
        requires
            old(sys).wf(),
        ensures
            final(sys).wf(),
            ({
                let k = first_name_match(old(sys).avail(), name@);
                match r {
                    Result::Ok(f) => k >= 0 && f.id() == old(sys).fonts.len() && font_created(
                        *old(sys),
                        *final(sys),
                        old(sys).avail()[k],
                        if pt_size != 0 {
                            pt_size
                        } else {
                            DEFAULT_FONT_SIZE
                        },
                        f.id(),
                    ),
                    Result::Err(e) => k == -1 && e == FontError::NotFound && *final(sys) == *old(
                        sys,
                    ),
                }
            }),
            r is Ok <==> exists|j: int|
                0 <= j < old(sys).avail().len() && name_matches(name@, #[trigger] old(
                    sys,
                ).avail()[j]),
    {
        proof {
            lemma_first_name_match(old(sys).avail(), name@);
        }
        let name_string = name.to_owned();
        match find_name_match(&sys.available, &name_string) {
            Option::Some(i) => {
                let data = sys.available[i].clone();
                let size = if pt_size != 0 {
                    pt_size
                } else {
                    DEFAULT_FONT_SIZE
                };
                proof {
                    assert(old(sys).avail()[i as int] == old(sys).available@[i as int]@);
                    assert(font_data_wf_of(*old(sys), i as int));
                }
                let h = sys.create_font(data, size);
                Result::Ok(CTFont { handle: h })
            },
            Option::None => Result::Err(FontError::NotFound),
        }
    }

    /// A new wrapper over the same face at a different point size.  The
    /// original wrapper and its font are untouched.
    pub fn clone_with_font_size(&self, sys: &mut FontSystem, size: i64) -> (f: CTFont)
        requires
            old(sys).wf(),
            old(sys).font_live(self.id()),
        ensures
            final(sys).wf(),
            font_created(*old(sys), *final(sys), old(sys).font_data(self.id()), size, f.id()),
            f.id() == old(sys).fonts.len(),
    {
        let data = sys.fonts.borrow(self.handle).data.clone();
        proof {
            assert(sys.fonts.live(self.handle as int));
        }
        let h = sys.create_font(data, size);
        CTFont { handle: h }
    }

    /// A fresh, caller-owned graphics-font handle over this font's face.
    /// The caller tracks its lifetime independently and must release it.
    pub fn copy_to_graphics_font(&self, sys: &mut FontSystem) -> (g: usize)
        requires
            old(sys).wf(),
            old(sys).font_live(self.id()),
        ensures
            final(sys).wf(),
            gfont_created(*old(sys), *final(sys), old(sys).font_data(self.id()), g as int),
    {
        let data = sys.fonts.borrow(self.handle).data.clone();
        proof {
            assert(sys.fonts.live(self.handle as int));
        }
        sys.register_graphics_font(data)
    }

    /// Give up the wrapper's reference.  Consuming `self` is what makes
    /// the release happen exactly once per wrapper.
    pub fn release(self, sys: &mut FontSystem)
        requires
            old(sys).wf(),
            old(sys).font_live(self.id()),
        ensures
            final(sys).wf(),
            font_released(*old(sys), *final(sys), self.id()),
    {
        sys.release_font(self.handle);
    }
}

/// Face data `h` points at, phrased so the quantifiers in `wf` apply.
spec fn font_data_wf_of(sys: FontSystem, i: int) -> bool {
    crate::system::font_data_wf(sys.available@[i]@)
}

/// The name keys a font's name dictionary is queried under.
#[derive(Clone, Copy, Debug, PartialEq, Eq, Structural)]
pub enum CTFontNameKey {
    Family,
    SubFamily,
    Style,
    Unique,
    Full,
    PostScript,
}

/// The entry a face's name dictionary holds under a key.  The four
/// required names are always present in a well-formed face; the style
/// and full names may be absent.
pub open spec fn name_for(d: FontDataV, k: CTFontNameKey) -> Option<Seq<char>> {
    match k {
        CTFontNameKey::Family => Option::Some(d.family_name),
        CTFontNameKey::SubFamily => Option::Some(d.face_name),
        CTFontNameKey::Style => d.style_name,
        CTFontNameKey::Unique => Option::Some(d.unique_name),
        CTFontNameKey::Full => d.full_name,
        CTFontNameKey::PostScript => Option::Some(d.postscript_name),
    }
}

/// Look one name up in a font's name dictionary.
pub fn get_string_by_name_key(sys: &FontSystem, font: &CTFont, name_key: CTFontNameKey) -> (r:
    Option<String>)
    requires
        sys.wf(),
        sys.font_live(font.id()),
    ensures
        ({
            let n = name_for(sys.font_data(font.id()), name_key);
            match r {
                Option::Some(s) => n == Option::Some(s@),
                Option::None => n is None,
            }
        }),
{
    let data = &sys.fonts.borrow(font.handle).data;
    match name_key {
        CTFontNameKey::Family => Option::Some(data.family_name.clone()),
        CTFontNameKey::SubFamily => Option::Some(data.face_name.clone()),
        CTFontNameKey::Style => match &data.style_name {
            Option::Some(s) => Option::Some(s.clone()),
            Option::None => Option::None,
        },
        CTFontNameKey::Unique => Option::Some(data.unique_name.clone()),
        CTFontNameKey::Full => match &data.full_name {
            Option::Some(s) => Option::Some(s.clone()),
            Option::None => Option::None,
        },
        CTFontNameKey::PostScript => Option::Some(data.postscript_name.clone()),
    }
}

/// Glyph the character map sends a code unit to, searching at or after
/// entry `i`; zero — the sentinel for a missing glyph — if none does.
pub open spec fn glyph_for_from(cmap: Seq<(u16, u16)>, c: u16, i: int) -> u16
    decreases cmap.len() - i,
{
    if i < 0 || i >= cmap.len() {
        0u16
    } else if cmap[i].0 == c {
        cmap[i].1
    } else {
        glyph_for_from(cmap, c, i + 1)
    }
}

/// Glyph the character map sends a code unit to, or the zero sentinel.
pub open spec fn glyph_for(cmap: Seq<(u16, u16)>, c: u16) -> u16 {
    glyph_for_from(cmap, c, 0)
}

/// Look one code unit up in a character map.
fn lookup_glyph(cmap: &Vec<(u16, u16)>, c: u16) -> (g: u16)
    ensures
        g == glyph_for(cmap@, c),
{
    let mut i: usize = 0;
    while i < cmap.len()
        invariant
            0 <= i <= cmap.len(),
            glyph_for(cmap@, c) == glyph_for_from(cmap@, c, i as int),
        decreases cmap.len() - i,
    {
        if cmap[i].0 == c {
            return cmap[i].1;
        }
        i = i + 1;
    }
    0
}

/// Advance an entry list assigns a glyph in an orientation, searching at
/// or after entry `i`; zero if the glyph has no entry.  The default
/// orientation behaves as horizontal.
pub open spec fn advance_for_from(
    advances: Seq<GlyphAdvance>,
    o: CTFontOrientation,
    g: u16,
    i: int,
) -> i64
    decreases advances.len() - i,
{
    if i < 0 || i >= advances.len() {
        0i64
    } else if advances[i].glyph == g {
        if o is Vertical {
            advances[i].vertical
        } else {
            advances[i].horizontal
        }
    } else {
        advance_for_from(advances, o, g, i + 1)
    }
}

/// Advance an entry list assigns a glyph in an orientation.
pub open spec fn advance_for(advances: Seq<GlyphAdvance>, o: CTFontOrientation, g: u16) -> i64 {
    advance_for_from(advances, o, g, 0)
}

/// Sum of the advances of the first `n` glyphs.
pub open spec fn total_advance(
    advances: Seq<GlyphAdvance>,
    o: CTFontOrientation,
    glyphs: Seq<u16>,
    n: int,
) -> int
    decreases n,
{
    if n <= 0 {
        0
    } else {
        total_advance(advances, o, glyphs, n - 1) + advance_for(advances, o, glyphs[n - 1])
    }
}

proof fn lemma_advance_for_bounded(advances: Seq<GlyphAdvance>, o: CTFontOrientation, g: u16, i: int)
    requires
        forall|k: int|
            0 <= k < advances.len() ==> -MAX_ADVANCE <= (#[trigger] advances[k]).horizontal
                <= MAX_ADVANCE && -MAX_ADVANCE <= advances[k].vertical <= MAX_ADVANCE,
    ensures
        -MAX_ADVANCE <= advance_for_from(advances, o, g, i) <= MAX_ADVANCE,
    decreases advances.len() - i,
{
    if 0 <= i < advances.len() && advances[i].glyph != g {
        lemma_advance_for_bounded(advances, o, g, i + 1);
    }
}

/// Look one glyph up in an advance list.
fn lookup_advance(advances: &Vec<GlyphAdvance>, o: CTFontOrientation, g: u16) -> (a: i64)
    ensures
        a == advance_for(advances@, o, g),
{
    let mut i: usize = 0;
    while i < advances.len()
        invariant
            0 <= i <= advances.len(),
            advance_for(advances@, o, g) == advance_for_from(advances@, o, g, i as int),
        decreases advances.len() - i,
    {
        if advances[i].glyph == g {
            return match o {
                CTFontOrientation::Vertical => advances[i].vertical,
                _ => advances[i].horizontal,
            };
        }
        i = i + 1;
    }
    0
}

/// Bytes of the first non-synthetic table with the given tag, searching
/// at or after entry `i`.
pub open spec fn table_for_from(tables: Seq<FontTableV>, tag: u32, i: int) -> Option<Seq<u8>>
    decreases tables.len() - i,
{
    if i < 0 || i >= tables.len() {
        Option::None
    } else if tables[i].tag == tag && !tables[i].synthetic {
        Option::Some(tables[i].bytes)
    } else {
        table_for_from(tables, tag, i + 1)
    }
}

/// Bytes of the first non-synthetic table with the given tag, if any.
pub open spec fn table_for(tables: Seq<FontTableV>, tag: u32) -> Option<Seq<u8>> {
    table_for_from(tables, tag, 0)
}

impl CTFont {
    /// The family name.  Always present and non-empty for a valid handle.
    pub fn family_name(&self, sys: &FontSystem) -> (r: String)
        requires
            sys.wf(),
            sys.font_live(self.id()),
        ensures
            r@ == sys.font_data(self.id()).family_name,
            r@.len() > 0,
    {
        proof {
            assert(sys.fonts.live(self.id()));
        }
        sys.fonts.borrow(self.handle).data.family_name.clone()
    }

    /// The face (subfamily) name.  Always present and non-empty for a
    /// valid handle.
    pub fn face_name(&self, sys: &FontSystem) -> (r: String)
        requires
            sys.wf(),
            sys.font_live(self.id()),
        ensures
            r@ == sys.font_data(self.id()).face_name,
            r@.len() > 0,
    {
        proof {
            assert(sys.fonts.live(self.id()));
        }
        sys.fonts.borrow(self.handle).data.face_name.clone()
    }

    /// The unique name.  Always present and non-empty for a valid handle.
    pub fn unique_name(&self, sys: &FontSystem) -> (r: String)
        requires
            sys.wf(),
            sys.font_live(self.id()),
        ensures
            r@ == sys.font_data(self.id()).unique_name,
            r@.len() > 0,
    {
        proof {
            assert(sys.fonts.live(self.id()));
        }
        sys.fonts.borrow(self.handle).data.unique_name.clone()
    }

    /// The PostScript name.  Always present and non-empty for a valid
    /// handle.
    pub fn postscript_name(&self, sys: &FontSystem) -> (r: String)
        requires
            sys.wf(),
            sys.font_live(self.id()),
        ensures
            r@ == sys.font_data(self.id()).postscript_name,
            r@.len() > 0,
    {
        proof {
            assert(sys.fonts.live(self.id()));
        }
        sys.fonts.borrow(self.handle).data.postscript_name.clone()
    }

    /// The symbolic style flags alone.
    pub(crate) fn symbolic_traits(&self, sys: &FontSystem) -> (r: CTFontSymbolicTraits)
        requires
            sys.wf(),
            sys.font_live(self.id()),
        ensures
            r == sys.font_data(self.id()).traits.symbolic,
    {
        sys.fonts.borrow(self.handle).data.traits.symbolic
    }

    /// The full style-trait record of the face.
    pub fn all_traits(&self, sys: &FontSystem) -> (r: CTFontTraits)
        requires
            sys.wf(),
            sys.font_live(self.id()),
        ensures
            r == sys.font_data(self.id()).traits,
    {
        sys.fonts.borrow(self.handle).data.traits
    }

    pub fn ascent(&self, sys: &FontSystem) -> (r: i64)
        requires
            sys.wf(),
            sys.font_live(self.id()),
        ensures
            r == sys.font_data(self.id()).metrics.ascent,
    {
        sys.fonts.borrow(self.handle).data.metrics.ascent
    }

    pub fn descent(&self, sys: &FontSystem) -> (r: i64)
        requires
            sys.wf(),
            sys.font_live(self.id()),
        ensures
            r == sys.font_data(self.id()).metrics.descent,
    {
        sys.fonts.borrow(self.handle).data.metrics.descent
    }

    pub fn leading(&self, sys: &FontSystem) -> (r: i64)
        requires
            sys.wf(),
            sys.font_live(self.id()),
        ensures
            r == sys.font_data(self.id()).metrics.leading,
    {
        sys.fonts.borrow(self.handle).data.metrics.leading
    }

    pub fn underline_position(&self, sys: &FontSystem) -> (r: i64)
        requires
            sys.wf(),
            sys.font_live(self.id()),
        ensures
            r == sys.font_data(self.id()).metrics.underline_position,
    {
        sys.fonts.borrow(self.handle).data.metrics.underline_position
    }

    pub fn underline_thickness(&self, sys: &FontSystem) -> (r: i64)
        requires
            sys.wf(),
            sys.font_live(self.id()),
        ensures
            r == sys.font_data(self.id()).metrics.underline_thickness,
    {
        sys.fonts.borrow(self.handle).data.metrics.underline_thickness
    }

    pub fn x_height(&self, sys: &FontSystem) -> (r: i64)
        requires
            sys.wf(),
            sys.font_live(self.id()),
        ensures
            r == sys.font_data(self.id()).metrics.x_height,
    {
        sys.fonts.borrow(self.handle).data.metrics.x_height
    }

    pub fn bounding_box(&self, sys: &FontSystem) -> (r: Rect)
        requires
            sys.wf(),
            sys.font_live(self.id()),
        ensures
            r == sys.font_data(self.id()).metrics.bounding_box,
    {
        sys.fonts.borrow(self.handle).data.metrics.bounding_box
    }

    /// The point size this font was instantiated at.
    pub fn pt_size(&self, sys: &FontSystem) -> (r: i64)
        requires
            sys.wf(),
            sys.font_live(self.id()),
        ensures
            r == sys.font_size(self.id()),
    {
        sys.fonts.borrow(self.handle).size
    }

    /// Map the first `count` code units to glyphs, writing one glyph per
    /// code unit into `glyphs`.  A code unit the face cannot map yields
    /// the zero sentinel glyph, in band; the result is true exactly when
    /// every code unit mapped to a non-zero glyph.
    pub fn get_glyphs_for_characters(
        &self,
        sys: &FontSystem,
        characters: &Vec<u16>,
        glyphs: &mut Vec<u16>,
        count: usize,
    ) -> (all_mapped: bool)
        requires
            sys.wf(),
            sys.font_live(self.id()),
            count <= characters@.len(),
        ensures
            final(glyphs)@.len() == count as int,
            forall|i: int|
                0 <= i < count as int ==> final(glyphs)@[i] == glyph_for(
                    sys.font_data(self.id()).cmap,
                    characters@[i],
                ),
            all_mapped <==> (forall|i: int|
                0 <= i < count as int ==> glyph_for(sys.font_data(self.id()).cmap, characters@[i])
                    != 0),
    {
        let data = &sys.fonts.borrow(self.handle).data;
        glyphs.clear();
        let mut all_mapped = true;
        let mut i: usize = 0;
        while i < count
            invariant
                0 <= i <= count,
                count <= characters@.len(),
                data@ == sys.font_data(self.id()),
                glyphs@.len() == i as int,
                forall|j: int|
                    0 <= j < i as int ==> glyphs@[j] == glyph_for(data@.cmap, characters@[j]),
                all_mapped <==> (forall|j: int|
                    0 <= j < i as int ==> glyph_for(data@.cmap, #[trigger] characters@[j]) != 0),
            decreases count - i,
        {
            let g = lookup_glyph(&data.cmap, characters[i]);
            if g == 0 {
                all_mapped = false;
            }
            glyphs.push(g);
            i = i + 1;
        }
        all_mapped
    }

    /// Advances of the first `count` glyphs in the given orientation, one
    /// per glyph into `advances`; the result is their sum.
    pub fn get_advances_for_glyphs(
        &self,
        sys: &FontSystem,
        orientation: CTFontOrientation,
        glyphs: &Vec<u16>,
        advances: &mut Vec<i64>,
        count: usize,
    ) -> (total: i64)
        requires
            sys.wf(),
            sys.font_live(self.id()),
            count <= glyphs@.len(),
            count <= 0xFFFF_FFFF,
        ensures
            final(advances)@.len() == count as int,
            forall|i: int|
                0 <= i < count as int ==> final(advances)@[i] == advance_for(
                    sys.font_data(self.id()).advances,
                    orientation,
                    glyphs@[i],
                ),
            total as int == total_advance(
                sys.font_data(self.id()).advances,
                orientation,
                glyphs@,
                count as int,
            ),
    {
        proof {
            assert(sys.fonts.live(self.id()));
        }
        let data = &sys.fonts.borrow(self.handle).data;
        advances.clear();
        let mut total: i64 = 0;
        let mut i: usize = 0;
        while i < count
            invariant
                0 <= i <= count,
                count <= glyphs@.len(),
                count <= 0xFFFF_FFFF,
                data@ == sys.font_data(self.id()),
                crate::system::font_data_wf(data@),
                advances@.len() == i as int,
                forall|j: int|
                    0 <= j < i as int ==> advances@[j] == advance_for(
                        data@.advances,
                        orientation,
                        glyphs@[j],
                    ),
                total as int == total_advance(data@.advances, orientation, glyphs@, i as int),
                -(i as int) * MAX_ADVANCE <= total as int <= (i as int) * MAX_ADVANCE,
            decreases count - i,
        {
            let a = lookup_advance(&data.advances, orientation, glyphs[i]);
            proof {
                lemma_advance_for_bounded(data@.advances, orientation, glyphs@[i as int], 0);
            }
            total = total + a;
            advances.push(a);
            i = i + 1;
        }
        total
    }

    /// Raw contents of the named font table, synthetic tables excluded;
    /// nothing if the face has no such table.
    pub fn get_font_table(&self, sys: &FontSystem, tag: u32) -> (r: Option<Vec<u8>>)
        requires
            sys.wf(),
            sys.font_live(self.id()),
        ensures
            ({
                let t = table_for(sys.font_data(self.id()).tables, tag);
                match r {
                    Option::Some(b) => t == Option::Some(b@),
                    Option::None => t is None,
                }
            }),
    {
        let tables = &sys.fonts.borrow(self.handle).data.tables;
        let ghost tv = sys.font_data(self.id()).tables;
        let mut i: usize = 0;
        while i < tables.len()
            invariant
                0 <= i <= tables.len(),
                tv == sys.font_data(self.id()).tables,
                tv == tables@.map_values(|t: FontTable| t@),
                table_for(tv, tag) == table_for_from(tv, tag, i as int),
            decreases tables.len() - i,
        {
            proof {
                assert(tv[i as int] == tables@[i as int]@);
            }
            if tables[i].tag == tag && !tables[i].synthetic {
                proof {
                    assert(tv[i as int].tag == tag && !tv[i as int].synthetic);
                    assert(table_for_from(tv, tag, i as int) == Option::Some(tv[i as int].bytes));
                }
                return Option::Some(vstd::slice::slice_to_vec(tables[i].bytes.as_slice()));
            }
            i = i + 1;
        }
        Option::None
    }
}

/// If the mapping reported success, no output glyph is the zero
/// sentinel; conversely a zero entry in the output means the mapping
/// reported failure.
pub proof fn lemma_glyph_sentinel(
    cmap: Seq<(u16, u16)>,
    chars: Seq<u16>,
    out: Seq<u16>,
    count: int,
    all_mapped: bool,
)
    requires
        out.len() == count,
        count <= chars.len(),
        forall|i: int| 0 <= i < count ==> out[i] == glyph_for(cmap, #[trigger] chars[i]),
        all_mapped <==> (forall|i: int| 0 <= i < count ==> glyph_for(cmap, #[trigger] chars[i]) != 0),
    ensures
        all_mapped ==> (forall|i: int| 0 <= i < count ==> out[i] != 0),
        (exists|i: int| 0 <= i < count && out[i] == 0) ==> !all_mapped,
{
    if all_mapped {
        assert forall|i: int| 0 <= i < count implies out[i] != 0 by {
            assert(glyph_for(cmap, chars[i]) != 0);
        }
    }
    if exists|i: int| 0 <= i < count && out[i] == 0 {
        let i = choose|i: int| 0 <= i < count && out[i] == 0;
        assert(glyph_for(cmap, chars[i]) == 0);
    }
}

/// Bool values as the text the trait report prints.
pub open spec fn spec_bool_str(b: bool) -> Seq<char> {
    if b {
        "true"@
    } else {
        "false"@
    }
}

fn bool_str(b: bool) -> (r: &'static str)
    ensures
        r@ == spec_bool_str(b),
{
    if b {
        "true"
    } else {
        "false"
    }
}

/// One `label: value` report line.
fn label_line(label: &str, value: &str) -> (r: String)
    ensures
        r@ == label@ + value@,
{
    let mut s = label.to_owned();
    s.append(value);
    s
}

/// The name-report lines: every name key the report covers, each with
/// the name stored under it.  The report unconditionally reads the style
/// and full names, so a face that lacks them cannot be reported.
pub fn debug_font_names(sys: &FontSystem, font: &CTFont) -> (r: Vec<String>)
    requires
        sys.wf(),
        sys.font_live(font.id()),
        sys.font_data(font.id()).style_name is Some,
        sys.font_data(font.id()).full_name is Some,
    ensures
        r@.len() == 6,
        r@[0]@ == "kCTFontFamilyNameKey: "@ + sys.font_data(font.id()).family_name,
        r@[1]@ == "kCTFontSubFamilyNameKey: "@ + sys.font_data(font.id()).face_name,
        r@[2]@ == "kCTFontStyleNameKey: "@ + sys.font_data(font.id()).style_name->0,
        r@[3]@ == "kCTFontUniqueNameKey: "@ + sys.font_data(font.id()).unique_name,
        r@[4]@ == "kCTFontFullNameKey: "@ + sys.font_data(font.id()).full_name->0,
        r@[5]@ == "kCTFontPostScriptNameKey: "@ + sys.font_data(font.id()).postscript_name,
{
    let data = &sys.fonts.borrow(font.handle).data;
    let style = match &data.style_name {
        Option::Some(s) => s.as_str(),
        Option::None => vstd::pervasive::unreached(),
    };
    let full = match &data.full_name {
        Option::Some(s) => s.as_str(),
        Option::None => vstd::pervasive::unreached(),
    };
    let mut lines: Vec<String> = Vec::new();
    lines.push(label_line("kCTFontFamilyNameKey: ", data.family_name.as_str()));
    lines.push(label_line("kCTFontSubFamilyNameKey: ", data.face_name.as_str()));
    lines.push(label_line("kCTFontStyleNameKey: ", style));
    lines.push(label_line("kCTFontUniqueNameKey: ", data.unique_name.as_str()));
    lines.push(label_line("kCTFontFullNameKey: ", full));
    lines.push(label_line("kCTFontPostScriptNameKey: ", data.postscript_name.as_str()));
    lines
}

/// The trait-report lines — one per symbolic flag — plus the normalized
/// weight, which the caller formats as it sees fit.
pub fn debug_font_traits(sys: &FontSystem, font: &CTFont) -> (r: (Vec<String>, i32))
    requires
        sys.wf(),
        sys.font_live(font.id()),
    ensures
        ({
            let t = sys.font_data(font.id()).traits;
            &&& r.0@.len() == 5
            &&& r.0@[0]@ == "kCTFontItalicTrait: "@ + spec_bool_str(t.symbolic.spec_is_italic())
            &&& r.0@[1]@ == "kCTFontBoldTrait: "@ + spec_bool_str(t.symbolic.spec_is_bold())
            &&& r.0@[2]@ == "kCTFontExpandedTrait: "@ + spec_bool_str(t.symbolic.spec_is_expanded())
            &&& r.0@[3]@ == "kCTFontCondensedTrait: "@ + spec_bool_str(
                t.symbolic.spec_is_condensed(),
            )
            &&& r.0@[4]@ == "kCTFontMonoSpaceTrait: "@ + spec_bool_str(
                t.symbolic.spec_is_monospace(),
            )
            &&& r.1 == t.weight
        }),
{
    let sym = font.symbolic_traits(sys);
    let traits = font.all_traits(sys);
    let mut lines: Vec<String> = Vec::new();
    lines.push(label_line("kCTFontItalicTrait: ", bool_str(sym.is_italic())));
    lines.push(label_line("kCTFontBoldTrait: ", bool_str(sym.is_bold())));
    lines.push(label_line("kCTFontExpandedTrait: ", bool_str(sym.is_expanded())));
    lines.push(label_line("kCTFontCondensedTrait: ", bool_str(sym.is_condensed())));
    lines.push(label_line("kCTFontMonoSpaceTrait: ", bool_str(sym.is_monospace())));
    let weight = traits.normalized_weight();
    (lines, weight)
}

/// Cloning a font at size `s` and then asking the clone's point size
/// yields exactly `s`: instantiation records the requested size.
pub proof fn lemma_clone_size_observed(
    pre: FontSystem,
    post: FontSystem,
    d: FontDataV,
    s: i64,
    f: int,
)
    requires
        font_created(pre, post, d, s, f),
    ensures
        post.font_live(f),
        post.font_size(f) == s,
{
}

/// Round trip through the graphics layer: constructing a font over a
/// graphics font and copying it back out yields a fresh handle — never
/// the one passed in — whose face data is exactly the original's.
pub proof fn lemma_graphics_font_round_trip(
    s0: FontSystem,
    s1: FontSystem,
    s2: FontSystem,
    g: int,
    size: i64,
    f: int,
    g2: int,
)
    requires
        s0.gfont_live(g),
        font_created(s0, s1, s0.gfont_data(g), size, f),
        gfont_created(s1, s2, s1.font_data(f), g2),
    ensures
        s2.gfont_live(g2),
        s2.gfont_data(g2) == s0.gfont_data(g),
        g2 != g,
        s2.gfont_live(g),
        s2.gfont_data(g) == s0.gfont_data(g),
{
    assert(s1.gfonts == s0.gfonts);
    assert(s2.gfonts.entries@[g] == s1.gfonts.entries@[g]);
}

} // verus!
