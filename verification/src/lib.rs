//! A typed, ownership-tracked model of a Core Text style font system.
//!
//! The native framework hands out opaque, reference-counted handles for
//! fonts, graphics fonts, font descriptors and font collections, under a
//! strict "create vs get" discipline: a handle obtained from a
//! create/copy-style call is owned by the caller and must be released
//! exactly once, while a handle obtained from a get-style call is borrowed
//! and must be retained before it is wrapped.  This crate states that
//! discipline precisely and proves the wrapper layer against it: handles
//! live in an explicit reference-counted store, every wrapper owns exactly
//! one reference, and every operation's effect on the store is part of its
//! contract.

mod slots;

pub mod font;
pub mod font_collection;
pub mod font_descriptor;
pub mod system;

use vstd::prelude::*;

verus! {

/// Scalar quantities (point sizes, metrics, advances) are carried as
/// 16.16 fixed-point values: `FIXED_ONE` is one typographic point.
pub const FIXED_ONE: i64 = 65536;

/// The point size a font is given when neither the caller nor the
/// descriptor supplies one.
pub const DEFAULT_FONT_SIZE: i64 = 12 * FIXED_ONE;

/// The one recoverable failure in the whole surface: a name-based font
/// lookup that matched nothing.  Every other operation is total over a
/// valid handle.
#[derive(Clone, Copy, Debug, PartialEq, Eq, Structural)]
pub enum FontError {
    NotFound,
}

} // verus!
