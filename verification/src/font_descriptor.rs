//! Font descriptors and style traits.
//!
//! A descriptor is a possibly partial attribute set: it describes either a
//! match query (only some attributes present) or a concrete face (family
//! and style filled in).  Style traits come in two forms: symbolic traits,
//! a bit mask of boolean style flags, and normalized traits, continuous
//! style axes carried in thousandths of the nominal [-1, 1] range.

use vstd::prelude::*;

verus! {

/// Bit assignments of the symbolic trait mask.
pub const ITALIC_TRAIT: u32 = 1u32 << 0;

pub const BOLD_TRAIT: u32 = 1u32 << 1;

pub const EXPANDED_TRAIT: u32 = 1u32 << 5;

pub const CONDENSED_TRAIT: u32 = 1u32 << 6;

pub const MONOSPACE_TRAIT: u32 = 1u32 << 10;

/// Boolean style flags, packed into a bit mask.
#[derive(Clone, Copy, Debug, PartialEq, Eq, Structural)]
pub struct CTFontSymbolicTraits(pub u32);

impl CTFontSymbolicTraits {
    pub open spec fn spec_is_italic(self) -> bool {
        self.0 & ITALIC_TRAIT != 0
    }

    pub open spec fn spec_is_bold(self) -> bool {
        self.0 & BOLD_TRAIT != 0
    }

    pub open spec fn spec_is_expanded(self) -> bool {
        self.0 & EXPANDED_TRAIT != 0
    }

    pub open spec fn spec_is_condensed(self) -> bool {
        self.0 & CONDENSED_TRAIT != 0
    }

    pub open spec fn spec_is_monospace(self) -> bool {
        self.0 & MONOSPACE_TRAIT != 0
    }

    pub fn is_italic(&self) -> (r: bool)
        ensures
            r == self.spec_is_italic(),
    {
        (self.0 & ITALIC_TRAIT) != 0
    }

    pub fn is_bold(&self) -> (r: bool)
        ensures
            r == self.spec_is_bold(),
    {
        (self.0 & BOLD_TRAIT) != 0
    }

    pub fn is_expanded(&self) -> (r: bool)
        ensures
            r == self.spec_is_expanded(),
    {
        (self.0 & EXPANDED_TRAIT) != 0
    }

    pub fn is_condensed(&self) -> (r: bool)
        ensures
            r == self.spec_is_condensed(),
    {
        (self.0 & CONDENSED_TRAIT) != 0
    }

    pub fn is_monospace(&self) -> (r: bool)
        ensures
            r == self.spec_is_monospace(),
    {
        (self.0 & MONOSPACE_TRAIT) != 0
    }
}

/// Normalized trait axes are stored in thousandths: a stored value of
/// `TRAIT_SCALE` is the top of the nominal range, `-TRAIT_SCALE` the
/// bottom.
pub const TRAIT_SCALE: i32 = 1000;

/// The full style-trait record of a face: the symbolic flags plus the
/// weight, width and slant axes.
#[derive(Clone, Copy, Debug, PartialEq, Eq, Structural)]
pub struct CTFontTraits {
    pub symbolic: CTFontSymbolicTraits,
    pub weight: i32,
    pub width: i32,
    pub slant: i32,
}

impl CTFontTraits {
    /// The continuous axes stay inside the normalized range.
    pub open spec fn wf(self) -> bool {
        &&& -TRAIT_SCALE <= self.weight <= TRAIT_SCALE
        &&& -TRAIT_SCALE <= self.width <= TRAIT_SCALE
        &&& -TRAIT_SCALE <= self.slant <= TRAIT_SCALE
    }

    pub fn normalized_weight(&self) -> (r: i32)
        ensures
            r == self.weight,
    {
        self.weight
    }

    pub fn normalized_width(&self) -> (r: i32)
        ensures
            r == self.width,
    {
        self.width
    }

    pub fn normalized_slant(&self) -> (r: i32)
        ensures
            r == self.slant,
    {
        self.slant
    }
}

/// The orientation a glyph run is laid out in.  The default orientation
/// behaves as horizontal.
#[derive(Clone, Copy, Debug, PartialEq, Eq, Structural)]
pub enum CTFontOrientation {
    Default,
    Horizontal,
    Vertical,
}

/// A font descriptor: a partial attribute set.  An absent attribute is a
/// wildcard when the descriptor is used as a match query.
pub struct CTFontDescriptor {
    pub family: Option<String>,
    pub style: Option<String>,
    pub size: Option<i64>,
}

/// The mathematical value of a descriptor.
pub ghost struct CTFontDescriptorV {
    pub family: Option<Seq<char>>,
    pub style: Option<Seq<char>>,
    pub size: Option<i64>,
}

impl View for CTFontDescriptor {
    type V = CTFontDescriptorV;

    open spec fn view(&self) -> CTFontDescriptorV {
        CTFontDescriptorV {
            family: match self.family {
                Option::Some(s) => Option::Some(s@),
                Option::None => Option::None,
            },
            style: match self.style {
                Option::Some(s) => Option::Some(s@),
                Option::None => Option::None,
            },
            size: self.size,
        }
    }
}

impl Clone for CTFontDescriptor {
    fn clone(&self) -> (r: Self)
        ensures
            r@ == self@,
    {
        CTFontDescriptor {
            family: clone_name(&self.family),
            style: clone_name(&self.style),
            size: self.size,
        }
    }
}

/// The values of a sequence of descriptors.
pub open spec fn descs_view(s: Seq<CTFontDescriptor>) -> Seq<CTFontDescriptorV> {
    s.map_values(|d: CTFontDescriptor| d@)
}

/// Copy an optional name attribute.
fn clone_name(o: &Option<String>) -> (r: Option<String>)
    ensures
        r is Some <==> o is Some,
        o is Some ==> r.unwrap()@ == o.unwrap()@,
{
    match o {
        Option::Some(s) => Option::Some(s.clone()),
        Option::None => Option::None,
    }
}

impl CTFontDescriptor {
    /// Attribute-wise equality; the native dedup option compares
    /// descriptors the same way.
    pub fn equals(&self, other: &Self) -> (r: bool)
        ensures
            r == (self@ == other@),
    {
        let family_eq = match (&self.family, &other.family) {
            (Option::Some(a), Option::Some(b)) => *a == *b,
            (Option::None, Option::None) => true,
            _ => false,
        };
        let style_eq = match (&self.style, &other.style) {
            (Option::Some(a), Option::Some(b)) => *a == *b,
            (Option::None, Option::None) => true,
            _ => false,
        };
        let size_eq = match (&self.size, &other.size) {
            (Option::Some(a), Option::Some(b)) => *a == *b,
            (Option::None, Option::None) => true,
            _ => false,
        };
        family_eq && style_eq && size_eq
    }
}

} // verus!
