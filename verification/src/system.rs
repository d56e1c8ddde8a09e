//! The font system: a point-in-time snapshot of the installed faces,
//! together with the heap of reference-counted objects the wrappers hold
//! handles into.
//!
//! The native registry is external state; a `FontSystem` value captures
//! what the wrapper layer reads of it — the installed faces — and models
//! the native allocator: fonts, graphics fonts, descriptor arrays and
//! collections each live in a reference-counted store, and every
//! operation's effect on those stores is stated exactly.

use vstd::prelude::*;

use crate::font_descriptor::{CTFontDescriptor, CTFontDescriptorV, CTFontTraits, descs_view};
use crate::slots::Slots;

verus! {

/// An axis-aligned rectangle in 16.16 fixed-point points.
#[derive(Clone, Copy, Debug, PartialEq, Eq, Structural)]
pub struct Rect {
    pub origin_x: i64,
    pub origin_y: i64,
    pub width: i64,
    pub height: i64,
}

/// The numeric metrics of a face, in 16.16 fixed-point points.
#[derive(Clone, Copy, Debug, PartialEq, Eq, Structural)]
pub struct FontMetrics {
    pub ascent: i64,
    pub descent: i64,
    pub leading: i64,
    pub underline_position: i64,
    pub underline_thickness: i64,
    pub x_height: i64,
    pub bounding_box: Rect,
}

/// The advance a glyph contributes in each orientation, in 16.16
/// fixed-point points.
#[derive(Clone, Copy, Debug, PartialEq, Eq, Structural)]
pub struct GlyphAdvance {
    pub glyph: u16,
    pub horizontal: i64,
    pub vertical: i64,
}

/// One font table: a four-byte tag and the raw bytes behind it.  A
/// synthetic table was fabricated by the renderer rather than read from
/// the font file; table queries exclude them.
pub struct FontTable {
    pub tag: u32,
    pub synthetic: bool,
    pub bytes: Vec<u8>,
}

/// The mathematical value of a font table.
pub ghost struct FontTableV {
    pub tag: u32,
    pub synthetic: bool,
    pub bytes: Seq<u8>,
}

impl View for FontTable {
    type V = FontTableV;

    open spec fn view(&self) -> FontTableV {
        FontTableV { tag: self.tag, synthetic: self.synthetic, bytes: self.bytes@ }
    }
}

impl Clone for FontTable {
    fn clone(&self) -> (r: Self)
        ensures
            r@ == self@,
    {
        FontTable {
            tag: self.tag,
            synthetic: self.synthetic,
            bytes: vstd::slice::slice_to_vec(self.bytes.as_slice()),
        }
    }
}

/// Everything the wrapper layer reads of one installed face: its names,
/// its style traits, its metrics, its character-to-glyph map, its glyph
/// advances and its tables.
pub struct FontData {
    pub family_name: String,
    pub face_name: String,
    pub style_name: Option<String>,
    pub unique_name: String,
    pub full_name: Option<String>,
    pub postscript_name: String,
    pub traits: CTFontTraits,
    pub metrics: FontMetrics,
    /// Character-to-glyph map: pairs of a UTF-16 code unit and the glyph
    /// it maps to.  A code unit with no pair is unmapped.
    pub cmap: Vec<(u16, u16)>,
    pub advances: Vec<GlyphAdvance>,
    pub tables: Vec<FontTable>,
}

/// The mathematical value of a face.
pub ghost struct FontDataV {
    pub family_name: Seq<char>,
    pub face_name: Seq<char>,
    pub style_name: Option<Seq<char>>,
    pub unique_name: Seq<char>,
    pub full_name: Option<Seq<char>>,
    pub postscript_name: Seq<char>,
    pub traits: CTFontTraits,
    pub metrics: FontMetrics,
    pub cmap: Seq<(u16, u16)>,
    pub advances: Seq<GlyphAdvance>,
    pub tables: Seq<FontTableV>,
}

impl View for FontData {
    type V = FontDataV;

    open spec fn view(&self) -> FontDataV {
        FontDataV {
            family_name: self.family_name@,
            face_name: self.face_name@,
            style_name: match self.style_name {
                Option::Some(s) => Option::Some(s@),
                Option::None => Option::None,
            },
            unique_name: self.unique_name@,
            full_name: match self.full_name {
                Option::Some(s) => Option::Some(s@),
                Option::None => Option::None,
            },
            postscript_name: self.postscript_name@,
            traits: self.traits,
            metrics: self.metrics,
            cmap: self.cmap@,
            advances: self.advances@,
            tables: self.tables@.map_values(|t: FontTable| t@),
        }
    }
}

/// Advances stay within the classic fixed-point range, so that summing
/// one per glyph cannot overflow a 64-bit accumulator.
pub const MAX_ADVANCE: i64 = 0x7FFF_FFFF;

/// What every face the system hands out satisfies: the four required
/// names are present and non-empty, the trait axes are in range, and the
/// advances are bounded.
pub open spec fn font_data_wf(d: FontDataV) -> bool {
    &&& d.family_name.len() > 0
    &&& d.face_name.len() > 0
    &&& d.unique_name.len() > 0
    &&& d.postscript_name.len() > 0
    &&& d.traits.wf()
    &&& forall|i: int|
        0 <= i < d.advances.len() ==> -MAX_ADVANCE <= (#[trigger] d.advances[i]).horizontal
            <= MAX_ADVANCE && -MAX_ADVANCE <= d.advances[i].vertical <= MAX_ADVANCE
}

impl Clone for FontData {
    fn clone(&self) -> (r: Self)
        ensures
            r@ == self@,
    {
        let mut tables: Vec<FontTable> = Vec::new();
        let mut i: usize = 0;
        while i < self.tables.len()
            invariant
                0 <= i <= self.tables.len(),
                tables@.len() == i as int,
                forall|j: int| 0 <= j < i as int ==> tables@[j]@ == self.tables@[j]@,
            decreases self.tables.len() - i,
        {
            tables.push(self.tables[i].clone());
            i = i + 1;
        }
        let r = FontData {
            family_name: self.family_name.clone(),
            face_name: self.face_name.clone(),
            style_name: match &self.style_name {
                Option::Some(s) => Option::Some(s.clone()),
                Option::None => Option::None,
            },
            unique_name: self.unique_name.clone(),
            full_name: match &self.full_name {
                Option::Some(s) => Option::Some(s.clone()),
                Option::None => Option::None,
            },
            postscript_name: self.postscript_name.clone(),
            traits: self.traits,
            metrics: self.metrics,
            cmap: vstd::slice::slice_to_vec(self.cmap.as_slice()),
            advances: vstd::slice::slice_to_vec(self.advances.as_slice()),
            tables,
        };
        proof {
            assert(r@.tables =~= self@.tables);
            assert(r@ =~= self@);
        }
        r
    }
}

/// One instantiated font: shared face data plus the point size it was
/// instantiated at.
pub struct FontInstance {
    pub data: FontData,
    pub size: i64,
}

/// A collection object owns one reference to the array of descriptors it
/// matched.
#[derive(Clone, Copy, Debug, PartialEq, Eq, Structural)]
pub struct CollectionObject {
    pub matched: usize,
}

/// The modeled native side: the snapshot of installed faces, and one
/// reference-counted store per object family the wrappers hold handles
/// into.
pub struct FontSystem {
    pub available: Vec<FontData>,
    pub fonts: Slots<FontInstance>,
    pub gfonts: Slots<FontData>,
    pub arrays: Slots<Vec<CTFontDescriptor>>,
    pub collections: Slots<CollectionObject>,
}

/// The values of a sequence of faces.
pub open spec fn faces_view(s: Seq<FontData>) -> Seq<FontDataV> {
    s.map_values(|d: FontData| d@)
}

impl FontSystem {
    /// The installed faces, as values.
    pub open spec fn avail(self) -> Seq<FontDataV> {
        faces_view(self.available@)
    }

    pub open spec fn font_live(self, h: int) -> bool {
        self.fonts.live(h)
    }

    pub open spec fn font_rc(self, h: int) -> u32 {
        self.fonts.rc_of(h)
    }

    pub open spec fn font_data(self, h: int) -> FontDataV {
        self.fonts.value_of(h).data@
    }

    pub open spec fn font_size(self, h: int) -> i64 {
        self.fonts.value_of(h).size
    }

    pub open spec fn gfont_live(self, h: int) -> bool {
        self.gfonts.live(h)
    }

    pub open spec fn gfont_rc(self, h: int) -> u32 {
        self.gfonts.rc_of(h)
    }

    pub open spec fn gfont_data(self, h: int) -> FontDataV {
        self.gfonts.value_of(h)@
    }

    pub open spec fn array_live(self, h: int) -> bool {
        self.arrays.live(h)
    }

    pub open spec fn array_rc(self, h: int) -> u32 {
        self.arrays.rc_of(h)
    }

    pub open spec fn array_items(self, h: int) -> Seq<CTFontDescriptorV> {
        descs_view(self.arrays.value_of(h)@)
    }

    pub open spec fn coll_live(self, h: int) -> bool {
        self.collections.live(h)
    }

    pub open spec fn coll_rc(self, h: int) -> u32 {
        self.collections.rc_of(h)
    }

    /// The handle of the descriptor array a collection owns.
    pub open spec fn coll_array(self, h: int) -> int {
        self.collections.value_of(h).matched as int
    }

    /// Well-formedness of the whole system: a real system always has at
    /// least one installed face, and every face it hands out — installed,
    /// instantiated, or behind a graphics-font handle — is well formed.
    pub open spec fn wf(self) -> bool {
        &&& self.available@.len() > 0
        &&& forall|i: int|
            0 <= i < self.available@.len() ==> font_data_wf((#[trigger] self.available@[i])@)
        &&& forall|h: int|
            #[trigger] self.fonts.live(h) ==> font_data_wf(self.fonts.value_of(h).data@)
        &&& forall|h: int| #[trigger] self.gfonts.live(h) ==> font_data_wf(self.gfonts.value_of(h)@)
    }

    /// Capture a snapshot of the installed faces.  The heaps start empty:
    /// no handle has been issued yet.
    pub fn new(available: Vec<FontData>) -> (s: FontSystem)
        requires
            available@.len() > 0,
            forall|i: int| 0 <= i < available@.len() ==> font_data_wf((#[trigger] available@[i])@),
        ensures
            s.wf(),
            s.available@ == available@,
            s.avail() == faces_view(available@),
            s.fonts.len() == 0,
            s.gfonts.len() == 0,
            s.arrays.len() == 0,
            s.collections.len() == 0,
    {
        FontSystem {
            available,
            fonts: Slots::empty(),
            gfonts: Slots::empty(),
            arrays: Slots::empty(),
            collections: Slots::empty(),
        }
    }

    /// Number of installed faces.
    pub fn available_count(&self) -> (n: usize)
        ensures
            n as int == self.avail().len(),
    {
        self.available.len()
    }
}

/// Does face `f` satisfy descriptor `d`?  An absent attribute is a
/// wildcard.  The size attribute selects a point size at instantiation
/// time, never a face, so it does not take part in matching.
pub open spec fn desc_matches(d: CTFontDescriptorV, f: FontDataV) -> bool {
    &&& (d.family matches Option::Some(n) ==> f.family_name == n)
    &&& (d.style matches Option::Some(n) ==> f.face_name == n)
}

/// Index of the first face at or after `i` that satisfies `d`, or -1.
pub open spec fn first_desc_match_from(avail: Seq<FontDataV>, d: CTFontDescriptorV, i: int) -> int
    decreases avail.len() - i,
{
    if i < 0 || i >= avail.len() {
        -1
    } else if desc_matches(d, avail[i]) {
        i
    } else {
        first_desc_match_from(avail, d, i + 1)
    }
}

/// Index of the first face that satisfies `d`, or -1 if none does.
pub open spec fn first_desc_match(avail: Seq<FontDataV>, d: CTFontDescriptorV) -> int {
    first_desc_match_from(avail, d, 0)
}

/// The font store is the only store that changed.
pub open spec fn same_but_fonts(pre: FontSystem, post: FontSystem) -> bool {
    &&& post.available == pre.available
    &&& post.gfonts == pre.gfonts
    &&& post.arrays == pre.arrays
    &&& post.collections == pre.collections
}

/// The graphics-font store is the only store that changed.
pub open spec fn same_but_gfonts(pre: FontSystem, post: FontSystem) -> bool {
    &&& post.available == pre.available
    &&& post.fonts == pre.fonts
    &&& post.arrays == pre.arrays
    &&& post.collections == pre.collections
}

/// The descriptor-array store is the only store that changed.
pub open spec fn same_but_arrays(pre: FontSystem, post: FontSystem) -> bool {
    &&& post.available == pre.available
    &&& post.fonts == pre.fonts
    &&& post.gfonts == pre.gfonts
    &&& post.collections == pre.collections
}

/// Only the descriptor-array and collection stores changed.
pub open spec fn same_but_collections(pre: FontSystem, post: FontSystem) -> bool {
    &&& post.available == pre.available
    &&& post.fonts == pre.fonts
    &&& post.gfonts == pre.gfonts
}

/// A fresh font object: handle `f`, owned by the caller alone, carrying
/// face data `d` at point size `size`.  Every other object is untouched.
pub open spec fn font_created(
    pre: FontSystem,
    post: FontSystem,
    d: FontDataV,
    size: i64,
    f: int,
) -> bool {
    &&& f == pre.fonts.len()
    &&& post.fonts.len() == pre.fonts.len() + 1
    &&& post.font_live(f)
    &&& post.font_rc(f) == 1
    &&& post.font_data(f) == d
    &&& post.font_size(f) == size
    &&& forall|j: int| 0 <= j < pre.fonts.len() ==> post.fonts.entries@[j] == pre.fonts.entries@[j]
    &&& same_but_fonts(pre, post)
}

/// One reference to font `f` was given up; nothing else moved.
pub open spec fn font_released(pre: FontSystem, post: FontSystem, f: int) -> bool {
    &&& post.fonts.len() == pre.fonts.len()
    &&& post.font_rc(f) == pre.font_rc(f) - 1
    &&& (post.font_live(f) <==> pre.font_rc(f) > 1)
    &&& post.fonts.value_of(f) == pre.fonts.value_of(f)
    &&& forall|j: int|
        0 <= j < pre.fonts.len() && j != f ==> post.fonts.entries@[j] == pre.fonts.entries@[j]
    &&& same_but_fonts(pre, post)
}

/// A fresh graphics-font object carrying face data `d`.
pub open spec fn gfont_created(pre: FontSystem, post: FontSystem, d: FontDataV, g: int) -> bool {
    &&& g == pre.gfonts.len()
    &&& post.gfonts.len() == pre.gfonts.len() + 1
    &&& post.gfont_live(g)
    &&& post.gfont_rc(g) == 1
    &&& post.gfont_data(g) == d
    &&& forall|j: int| 0 <= j < pre.gfonts.len() ==> post.gfonts.entries@[j] == pre.gfonts.entries@[j]
    &&& same_but_gfonts(pre, post)
}

/// One reference to graphics font `g` was given up.
pub open spec fn gfont_released(pre: FontSystem, post: FontSystem, g: int) -> bool {
    &&& post.gfonts.len() == pre.gfonts.len()
    &&& post.gfont_rc(g) == pre.gfont_rc(g) - 1
    &&& (post.gfont_live(g) <==> pre.gfont_rc(g) > 1)
    &&& post.gfonts.value_of(g) == pre.gfonts.value_of(g)
    &&& forall|j: int|
        0 <= j < pre.gfonts.len() && j != g ==> post.gfonts.entries@[j] == pre.gfonts.entries@[j]
    &&& same_but_gfonts(pre, post)
}

/// Descriptor array `a` gained one reference; its contents are unchanged.
pub open spec fn array_retained(pre: FontSystem, post: FontSystem, a: int) -> bool {
    &&& post.arrays.len() == pre.arrays.len()
    &&& post.array_rc(a) == pre.array_rc(a) + 1
    &&& post.array_live(a)
    &&& post.arrays.value_of(a) == pre.arrays.value_of(a)
    &&& forall|j: int|
        0 <= j < pre.arrays.len() && j != a ==> post.arrays.entries@[j] == pre.arrays.entries@[j]
    &&& same_but_arrays(pre, post)
}

/// One reference to descriptor array `a` was given up; what else moved,
/// if anything, is stated separately.
pub open spec fn array_ref_dropped(pre: FontSystem, post: FontSystem, a: int) -> bool {
    &&& post.arrays.len() == pre.arrays.len()
    &&& post.array_rc(a) == pre.array_rc(a) - 1
    &&& (post.array_live(a) <==> pre.array_rc(a) > 1)
    &&& post.arrays.value_of(a) == pre.arrays.value_of(a)
    &&& forall|j: int|
        0 <= j < pre.arrays.len() && j != a ==> post.arrays.entries@[j] == pre.arrays.entries@[j]
}

/// One reference to descriptor array `a` was given up; nothing else
/// moved.
pub open spec fn array_released(pre: FontSystem, post: FontSystem, a: int) -> bool {
    &&& array_ref_dropped(pre, post, a)
    &&& same_but_arrays(pre, post)
}

/// A fresh collection: handle `c`, owning the one reference to a fresh
/// descriptor array holding exactly `items`.
pub open spec fn coll_created(
    pre: FontSystem,
    post: FontSystem,
    items: Seq<CTFontDescriptorV>,
    c: int,
) -> bool {
    &&& c == pre.collections.len()
    &&& post.collections.len() == pre.collections.len() + 1
    &&& post.coll_live(c)
    &&& post.coll_rc(c) == 1
    &&& post.coll_array(c) == pre.arrays.len()
    &&& post.arrays.len() == pre.arrays.len() + 1
    &&& post.array_live(post.coll_array(c))
    &&& post.array_rc(post.coll_array(c)) == 1
    &&& post.array_items(post.coll_array(c)) == items
    &&& forall|j: int|
        0 <= j < pre.collections.len() ==> post.collections.entries@[j]
            == pre.collections.entries@[j]
    &&& forall|j: int| 0 <= j < pre.arrays.len() ==> post.arrays.entries@[j] == pre.arrays.entries@[j]
    &&& same_but_collections(pre, post)
}

impl FontSystem {
    /// Instantiate a font object over the given face data.
    pub(crate) fn create_font(&mut self, data: FontData, size: i64) -> (f: usize)
        requires
            old(self).wf(),
            font_data_wf(data@),
        ensures
            final(self).wf(),
            font_created(*old(self), *final(self), data@, size, f as int),
    {
        let ghost pre = *self;
        let f = self.fonts.create(FontInstance { data, size });
        proof {
            assert forall|h2: int| #[trigger] self.fonts.live(h2) implies font_data_wf(
                self.fonts.value_of(h2).data@,
            ) by {
                if h2 != f as int {
                    assert(self.fonts.entries@[h2] == pre.fonts.entries@[h2]);
                    assert(pre.fonts.live(h2));
                }
            }
        }
        f
    }

    /// Give up the caller's reference to font `f`.
    pub(crate) fn release_font(&mut self, f: usize)
        requires
            old(self).wf(),
            old(self).font_live(f as int),
        ensures
            final(self).wf(),
            font_released(*old(self), *final(self), f as int),
    {
        let ghost pre = *self;
        self.fonts.release(f);
        proof {
            assert forall|h2: int| #[trigger] self.fonts.live(h2) implies font_data_wf(
                self.fonts.value_of(h2).data@,
            ) by {
                if h2 != f as int {
                    assert(self.fonts.entries@[h2] == pre.fonts.entries@[h2]);
                }
                assert(pre.fonts.live(h2));
            }
        }
    }

    /// Wrap face data as a fresh graphics-font object.  This is how a
    /// graphics font enters the system: the graphics layer owns the raw
    /// face data and hands it in by value.
    pub fn register_graphics_font(&mut self, data: FontData) -> (g: usize)
        requires
            old(self).wf(),
            font_data_wf(data@),
        ensures
            final(self).wf(),
            gfont_created(*old(self), *final(self), data@, g as int),
    {
        let ghost pre = *self;
        let g = self.gfonts.create(data);
        proof {
            assert forall|h2: int| #[trigger] self.gfonts.live(h2) implies font_data_wf(
                self.gfonts.value_of(h2)@,
            ) by {
                if h2 != g as int {
                    assert(self.gfonts.entries@[h2] == pre.gfonts.entries@[h2]);
                    assert(pre.gfonts.live(h2));
                }
            }
        }
        g
    }

    /// Give up the caller's reference to graphics font `g`.
    pub fn release_graphics_font(&mut self, g: usize)
        requires
            old(self).wf(),
            old(self).gfont_live(g as int),
        ensures
            final(self).wf(),
            gfont_released(*old(self), *final(self), g as int),
    {
        let ghost pre = *self;
        self.gfonts.release(g);
        proof {
            assert forall|h2: int| #[trigger] self.gfonts.live(h2) implies font_data_wf(
                self.gfonts.value_of(h2)@,
            ) by {
                if h2 != g as int {
                    assert(self.gfonts.entries@[h2] == pre.gfonts.entries@[h2]);
                }
                assert(pre.gfonts.live(h2));
            }
        }
    }

    /// Retain descriptor array `a`: the get rule, before wrapping a
    /// borrowed array handle.
    pub(crate) fn retain_array(&mut self, a: usize)
        requires
            old(self).wf(),
            old(self).array_live(a as int),
            old(self).array_rc(a as int) < u32::MAX,
        ensures
            final(self).wf(),
            array_retained(*old(self), *final(self), a as int),
    {
        self.arrays.retain(a);
    }

    /// Give up one reference to descriptor array `a`.
    pub(crate) fn release_array(&mut self, a: usize)
        requires
            old(self).wf(),
            old(self).array_live(a as int),
        ensures
            final(self).wf(),
            array_released(*old(self), *final(self), a as int),
    {
        self.arrays.release(a);
    }

    /// Create a collection over a fresh descriptor array.
    pub(crate) fn create_collection(&mut self, items: Vec<CTFontDescriptor>) -> (c: usize)
        requires
            old(self).wf(),
        ensures
            final(self).wf(),
            coll_created(*old(self), *final(self), descs_view(items@), c as int),
    {
        let a = self.arrays.create(items);
        let c = self.collections.create(CollectionObject { matched: a });
        c
    }

    /// Give up one reference to collection `c` itself, without touching
    /// the array it owns.
    pub(crate) fn release_collection_slot(&mut self, c: usize)
        requires
            old(self).wf(),
            old(self).coll_live(c as int),
        ensures
            final(self).wf(),
            final(self).collections.len() == old(self).collections.len(),
            final(self).coll_rc(c as int) == old(self).coll_rc(c as int) - 1,
            (final(self).coll_live(c as int) <==> old(self).coll_rc(c as int) > 1),
            final(self).collections.value_of(c as int) == old(self).collections.value_of(c as int),
            forall|j: int|
                0 <= j < old(self).collections.len() && j != c as int
                    ==> final(self).collections.entries@[j] == old(self).collections.entries@[j],
            final(self).available == old(self).available,
            final(self).fonts == old(self).fonts,
            final(self).gfonts == old(self).gfonts,
            final(self).arrays == old(self).arrays,
    {
        self.collections.release(c);
    }
}

} // verus!
