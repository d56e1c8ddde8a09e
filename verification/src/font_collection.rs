//! The font collection wrapper.
//!
//! A collection is an unordered, deduplicated set of font descriptors.
//! The wrapper owns one reference to a collection object, which in turn
//! owns the one initial reference to the descriptor array it matched;
//! releasing the last reference to the collection releases that array.
//! Retrieving the matched descriptors follows the get rule — the native
//! call hands back the collection's own array — so the returned wrapper
//! retains the array before taking ownership of a reference.

use vstd::prelude::*;
use vstd::string::StringExecFns;

use crate::font::font_matches_descriptor;
use crate::font_descriptor::{CTFontDescriptor, CTFontDescriptorV, descs_view};
use crate::system::{
    FontData, FontDataV, FontSystem, array_ref_dropped, array_retained, coll_created,
    desc_matches, faces_view,
};

verus! {

/// Deduplication by attribute equality: each descriptor's first
/// occurrence is kept, in order; later duplicates are dropped.
pub open spec fn dedup_descs(s: Seq<CTFontDescriptorV>) -> Seq<CTFontDescriptorV>
    decreases s.len(),
{
    if s.len() == 0 {
        Seq::empty()
    } else {
        let rest = dedup_descs(s.drop_last());
        if rest.contains(s.last()) {
            rest
        } else {
            rest.push(s.last())
        }
    }
}

/// Deduplication never lengthens: a collection built from `n`
/// descriptors matches at most `n`.
pub proof fn lemma_dedup_len_le(s: Seq<CTFontDescriptorV>)
    ensures
        dedup_descs(s).len() <= s.len(),
    decreases s.len(),
{
    if s.len() > 0 {
        lemma_dedup_len_le(s.drop_last());
    }
}

/// Deduplication leaves no two equal descriptors behind.
pub proof fn lemma_dedup_no_duplicates(s: Seq<CTFontDescriptorV>)
    ensures
        forall|i: int, j: int|
            0 <= i < j < dedup_descs(s).len() ==> #[trigger] dedup_descs(s)[i]
                != #[trigger] dedup_descs(s)[j],
    decreases s.len(),
{
    if s.len() > 0 {
        lemma_dedup_no_duplicates(s.drop_last());
        let rest = dedup_descs(s.drop_last());
        if !rest.contains(s.last()) {
            assert forall|i: int, j: int|
                0 <= i < j < dedup_descs(s).len() implies #[trigger] dedup_descs(s)[i]
                != #[trigger] dedup_descs(s)[j] by {
                if j < rest.len() {
                } else {
                    assert(dedup_descs(s)[j] == s.last());
                    assert(dedup_descs(s)[i] == rest[i]);
                    assert(!rest.contains(s.last()));
                }
            }
        }
    }
}

/// Deduplication keeps exactly the descriptors that were there: nothing
/// is lost and nothing is invented.
pub proof fn lemma_dedup_same_elements(s: Seq<CTFontDescriptorV>)
    ensures
        forall|x: CTFontDescriptorV| #[trigger] dedup_descs(s).contains(x) <==> s.contains(x),
    decreases s.len(),
{
    if s.len() > 0 {
        lemma_dedup_same_elements(s.drop_last());
        let rest = dedup_descs(s.drop_last());
        assert forall|x: CTFontDescriptorV| #[trigger] dedup_descs(s).contains(x) implies s.contains(
            x,
        ) by {
            if rest.contains(x) {
                assert(s.drop_last().contains(x));
                let k = choose|k: int| 0 <= k < s.drop_last().len() && s.drop_last()[k] == x;
                assert(s[k] == x);
                assert(s.contains(x));
            } else {
                assert(x == s.last());
                assert(s[s.len() - 1] == x);
                assert(s.contains(x));
            }
        }
        assert forall|x: CTFontDescriptorV| s.contains(x) implies #[trigger] dedup_descs(
            s,
        ).contains(x) by {
            let k = choose|k: int| 0 <= k < s.len() && s[k] == x;
            if k < s.len() - 1 {
                assert(s.drop_last()[k] == x);
                assert(s.drop_last().contains(x));
                assert(rest.contains(x));
                let m = choose|m: int| 0 <= m < rest.len() && rest[m] == x;
                assert(dedup_descs(s)[m] == x);
                assert(dedup_descs(s).contains(x));
            } else {
                assert(x == s.last());
                if rest.contains(s.last()) {
                    assert(rest.contains(x));
                    let m = choose|m: int| 0 <= m < rest.len() && rest[m] == x;
                    assert(dedup_descs(s)[m] == x);
                    assert(dedup_descs(s).contains(x));
                } else {
                    assert(dedup_descs(s)[rest.len() as int] == x);
                    assert(dedup_descs(s).contains(x));
                }
            }
        }
    }
}

/// Is `d` already among the descriptors collected so far?
fn descs_contain(v: &Vec<CTFontDescriptor>, d: &CTFontDescriptor) -> (r: bool)
    ensures
        r == descs_view(v@).contains(d@),
{
    let mut i: usize = 0;
    while i < v.len()
        invariant
            0 <= i <= v.len(),
            forall|j: int| 0 <= j < i as int ==> descs_view(v@)[j] != d@,
        decreases v.len() - i,
    {
        proof {
            assert(descs_view(v@)[i as int] == v@[i as int]@);
        }
        if v[i].equals(d) {
            proof {
                assert(descs_view(v@)[i as int] == d@);
            }
            return true;
        }
        i = i + 1;
    }
    false
}

/// Drop later duplicates, keeping each descriptor's first occurrence.
fn dedup_descriptors(input: &Vec<CTFontDescriptor>) -> (out: Vec<CTFontDescriptor>)
    ensures
        descs_view(out@) == dedup_descs(descs_view(input@)),
{
    let ghost v = descs_view(input@);
    let mut out: Vec<CTFontDescriptor> = Vec::new();
    let mut i: usize = 0;
    while i < input.len()
        invariant
            0 <= i <= input.len(),
            v == descs_view(input@),
            v.len() == input@.len(),
            descs_view(out@) == dedup_descs(v.take(i as int)),
        decreases input.len() - i,
    {
        proof {
            assert(v.take(i as int + 1).drop_last() =~= v.take(i as int));
            assert(v.take(i as int + 1).last() == v[i as int]);
            assert(v[i as int] == input@[i as int]@);
        }
        if !descs_contain(&out, &input[i]) {
            out.push(input[i].clone());
            proof {
                assert(descs_view(out@) =~= dedup_descs(v.take(i as int + 1)));
            }
        }
        i = i + 1;
    }
    proof {
        assert(v.take(input@.len() as int) =~= v);
    }
    out
}

/// The full descriptor of an installed face: family and style filled in.
pub open spec fn desc_of_face(f: FontDataV) -> CTFontDescriptorV {
    CTFontDescriptorV {
        family: Option::Some(f.family_name),
        style: Option::Some(f.face_name),
        size: Option::None,
    }
}

/// Descriptors of every installed face, in installation order.
pub open spec fn all_face_descriptors(avail: Seq<FontDataV>) -> Seq<CTFontDescriptorV> {
    avail.map_values(|f: FontDataV| desc_of_face(f))
}

/// A match-all-styles query for one family: only the family attribute is
/// set; every other attribute is a wildcard.
pub open spec fn wildcard_descriptor(family: Seq<char>) -> CTFontDescriptorV {
    CTFontDescriptorV { family: Option::Some(family), style: Option::None, size: Option::None }
}

/// Descriptors of the faces satisfying `d`, in installation order.
pub open spec fn matching_face_descriptors(avail: Seq<FontDataV>, d: CTFontDescriptorV) -> Seq<
    CTFontDescriptorV,
>
    decreases avail.len(),
{
    if avail.len() == 0 {
        Seq::empty()
    } else {
        let rest = matching_face_descriptors(avail.drop_last(), d);
        if desc_matches(d, avail.last()) {
            rest.push(desc_of_face(avail.last()))
        } else {
            rest
        }
    }
}

/// Build the full descriptor of one face, executably.
fn descriptor_of_face(f: &FontData) -> (d: CTFontDescriptor)
    ensures
        d@ == desc_of_face(f@),
{
    CTFontDescriptor {
        family: Option::Some(f.family_name.clone()),
        style: Option::Some(f.face_name.clone()),
        size: Option::None,
    }
}

/// Descriptors of every installed face, executably.
fn descriptors_of_available(available: &Vec<FontData>) -> (r: Vec<CTFontDescriptor>)
    ensures
        descs_view(r@) == all_face_descriptors(faces_view(available@)),
{
    let ghost avail = faces_view(available@);
    let mut r: Vec<CTFontDescriptor> = Vec::new();
    let mut i: usize = 0;
    while i < available.len()
        invariant
            0 <= i <= available.len(),
            avail == faces_view(available@),
            avail.len() == available@.len(),
            r@.len() == i as int,
            forall|j: int| 0 <= j < i as int ==> (#[trigger] r@[j])@ == desc_of_face(avail[j]),
        decreases available.len() - i,
    {
        r.push(descriptor_of_face(&available[i]));
        proof {
            assert(avail[i as int] == available@[i as int]@);
        }
        i = i + 1;
    }
    proof {
        assert forall|j: int| 0 <= j < avail.len() implies descs_view(r@)[j]
            == all_face_descriptors(avail)[j] by {
            assert(descs_view(r@)[j] == r@[j]@);
            assert(all_face_descriptors(avail)[j] == desc_of_face(avail[j]));
        }
        assert(descs_view(r@) =~= all_face_descriptors(avail));
    }
    r
}

/// Descriptors of the faces satisfying `d`, executably.
fn matching_descriptors(available: &Vec<FontData>, d: &CTFontDescriptor) -> (r: Vec<
    CTFontDescriptor,
>)
    ensures
        descs_view(r@) == matching_face_descriptors(faces_view(available@), d@),
{
    let ghost avail = faces_view(available@);
    let mut r: Vec<CTFontDescriptor> = Vec::new();
    let mut i: usize = 0;
    while i < available.len()
        invariant
            0 <= i <= available.len(),
            avail == faces_view(available@),
            avail.len() == available@.len(),
            descs_view(r@) == matching_face_descriptors(avail.take(i as int), d@),
        decreases available.len() - i,
    {
        proof {
            assert(avail.take(i as int + 1).drop_last() =~= avail.take(i as int));
            assert(avail.take(i as int + 1).last() == avail[i as int]);
            assert(avail[i as int] == available@[i as int]@);
        }
        if font_matches_descriptor(d, &available[i]) {
            r.push(descriptor_of_face(&available[i]));
            proof {
                assert(descs_view(r@) =~= matching_face_descriptors(avail.take(i as int + 1), d@));
            }
        }
        i = i + 1;
    }
    proof {
        assert(avail.take(available@.len() as int) =~= avail);
    }
    r
}

/// An owned handle on a collection of font descriptors.
pub struct CTFontCollection {
    handle: usize,
}

/// An owned handle on an array of font descriptors.  The wrapper holds
/// one reference of its own, distinct from the reference the collection
/// keeps.
pub struct CTFontDescriptorArray {
    handle: usize,
}

impl CTFontDescriptorArray {
    /// The handle this wrapper owns, as a store index.
    pub closed spec fn id(self) -> int {
        self.handle as int
    }

    /// How many descriptors the array holds.
    pub fn len(&self, sys: &FontSystem) -> (n: usize)
        requires
            sys.wf(),
            sys.array_live(self.id()),
        ensures
            n as int == sys.array_items(self.id()).len(),
    {
        sys.arrays.borrow(self.handle).len()
    }

    /// Copy out the descriptor at one index.
    pub fn get(&self, sys: &FontSystem, i: usize) -> (d: CTFontDescriptor)
        requires
            sys.wf(),
            sys.array_live(self.id()),
            (i as int) < sys.array_items(self.id()).len(),
        ensures
            d@ == sys.array_items(self.id())[i as int],
    {
        let v = sys.arrays.borrow(self.handle);
        proof {
            assert(sys.array_items(self.id())[i as int] == v@[i as int]@);
        }
        v[i].clone()
    }

    /// Give up the wrapper's reference.  While the collection that
    /// produced this array is still live, the array stays live too: the
    /// collection holds its own reference.
    pub fn release(self, sys: &mut FontSystem)
        requires
            old(sys).wf(),
            old(sys).array_live(self.id()),
        ensures
            final(sys).wf(),
            array_ref_dropped(*old(sys), *final(sys), self.id()),
            final(sys).available == old(sys).available,
            final(sys).fonts == old(sys).fonts,
            final(sys).gfonts == old(sys).gfonts,
            final(sys).collections == old(sys).collections,
    {
        sys.release_array(self.handle);
    }
}

impl CTFontCollection {
    /// The handle this wrapper owns, as a store index.
    pub closed spec fn id(self) -> int {
        self.handle as int
    }

    /// Give up the wrapper's reference to the collection.  Releasing the
    /// last reference deallocates the collection, which then gives up
    /// the reference it owns on its matched-descriptor array.
    pub fn release(self, sys: &mut FontSystem)
        requires
            old(sys).wf(),
            old(sys).coll_live(self.id()),
            old(sys).coll_rc(self.id()) == 1 ==> old(sys).array_live(
                old(sys).coll_array(self.id()),
            ),
        ensures
            final(sys).wf(),
            final(sys).collections.len() == old(sys).collections.len(),
            final(sys).coll_rc(self.id()) == old(sys).coll_rc(self.id()) - 1,
            (final(sys).coll_live(self.id()) <==> old(sys).coll_rc(self.id()) > 1),
            forall|j: int|
                0 <= j < old(sys).collections.len() && j != self.id()
                    ==> final(sys).collections.entries@[j] == old(sys).collections.entries@[j],
            final(sys).available == old(sys).available,
            final(sys).fonts == old(sys).fonts,
            final(sys).gfonts == old(sys).gfonts,
            old(sys).coll_rc(self.id()) > 1 ==> final(sys).arrays == old(sys).arrays,
            old(sys).coll_rc(self.id()) == 1 ==> array_ref_dropped(
                *old(sys),
                *final(sys),
                old(sys).coll_array(self.id()),
            ),
    {
        let a = sys.collections.borrow(self.handle).matched;
        let rc = sys.collections.rc(self.handle);
        sys.release_collection_slot(self.handle);
        if rc == 1 {
            sys.release_array(a);
        }
    }
}

/// The collection operations, grouped as one interface over the handle
/// type, with their contracts.
pub trait CTFontCollectionMethods: Sized {
    /// The handle the wrapper owns, as a store index.
    spec fn collection_id(self) -> int;

    /// Build a collection from an explicit descriptor sequence.  The
    /// dedup-by-equality option is a fixed policy: the matched array
    /// keeps each descriptor's first occurrence and drops later
    /// duplicates.
    fn new_from_descriptors(sys: &mut FontSystem, descs: &Vec<CTFontDescriptor>) -> (c: Self)
        requires
            old(sys).wf(),
        ensures
            final(sys).wf(),
            coll_created(
                *old(sys),
                *final(sys),
                dedup_descs(descs_view(descs@)),
                c.collection_id(),
            ),
            c.collection_id() == old(sys).collections.len(),
    ;

    /// Snapshot of every installed face, as a deduplicated collection of
    /// their descriptors.  The result reflects the system at this call
    /// alone; nothing keeps it current.
    fn create_for_all_families(sys: &mut FontSystem) -> (c: Self)
        requires
            old(sys).wf(),
        ensures
            final(sys).wf(),
            coll_created(
                *old(sys),
                *final(sys),
                dedup_descs(all_face_descriptors(old(sys).avail())),
                c.collection_id(),
            ),
            c.collection_id() == old(sys).collections.len(),
    ;

    /// Every style of one family: build a descriptor with only the
    /// family attribute set, match it against the installed faces with
    /// the family as the one mandatory attribute, and wrap the matches
    /// as a deduplicated collection.  A family nothing answers to yields
    /// an empty collection.
    fn create_for_family(sys: &mut FontSystem, family: &str) -> (c: Self)
        requires
            old(sys).wf(),
        ensures
            final(sys).wf(),
            coll_created(
                *old(sys),
                *final(sys),
                dedup_descs(
                    matching_face_descriptors(old(sys).avail(), wildcard_descriptor(family@)),
                ),
                c.collection_id(),
            ),
            c.collection_id() == old(sys).collections.len(),
    ;

    /// Every family name the system knows, each once, in installation
    /// order.  A global query over the system, independent of any
    /// collection.
    fn get_family_names(sys: &FontSystem) -> (r: Vec<String>)
        ensures
            strs_view(r@) == dedup_strs(family_names_of(sys.avail())),
    ;

    /// The descriptors this collection matched.  The native call follows
    /// the get rule in spite of its create-style name: it hands back the
    /// collection's own array, so the wrapper retains the array before
    /// taking ownership of a reference — otherwise the collection and
    /// the wrapper would later both release the one reference.
    fn get_descriptors(&self, sys: &mut FontSystem) -> (arr: CTFontDescriptorArray)
        requires
            old(sys).wf(),
            old(sys).coll_live(self.collection_id()),
            old(sys).array_live(old(sys).coll_array(self.collection_id())),
            old(sys).array_rc(old(sys).coll_array(self.collection_id())) < u32::MAX,
        ensures
            final(sys).wf(),
            arr.id() == old(sys).coll_array(self.collection_id()),
            array_retained(*old(sys), *final(sys), arr.id()),
    ;
}

impl CTFontCollectionMethods for CTFontCollection {
    open spec fn collection_id(self) -> int {
        self.id()
    }

    fn new_from_descriptors(sys: &mut FontSystem, descs: &Vec<CTFontDescriptor>) -> CTFontCollection {
        let items = dedup_descriptors(descs);
        let h = sys.create_collection(items);
        CTFontCollection { handle: h }
    }

    fn create_for_all_families(sys: &mut FontSystem) -> CTFontCollection {
        let descs = descriptors_of_available(&sys.available);
        let items = dedup_descriptors(&descs);
        let h = sys.create_collection(items);
        CTFontCollection { handle: h }
    }

    fn create_for_family(sys: &mut FontSystem, family: &str) -> CTFontCollection {
        let wildcard = CTFontDescriptor {
            family: Option::Some(family.to_owned()),
            style: Option::None,
            size: Option::None,
        };
        let matched = matching_descriptors(&sys.available, &wildcard);
        let items = dedup_descriptors(&matched);
        let h = sys.create_collection(items);
        CTFontCollection { handle: h }
    }

    fn get_family_names(sys: &FontSystem) -> Vec<String> {
        let ghost names = family_names_of(sys.avail());
        let mut r: Vec<String> = Vec::new();
        let mut i: usize = 0;
        while i < sys.available.len()
            invariant
                0 <= i <= sys.available.len(),
                names == family_names_of(sys.avail()),
                names.len() == sys.available@.len(),
                strs_view(r@) == dedup_strs(names.take(i as int)),
            decreases sys.available.len() - i,
        {
            proof {
                assert(names.take(i as int + 1).drop_last() =~= names.take(i as int));
                assert(names.take(i as int + 1).last() == names[i as int]);
                assert(sys.avail()[i as int] == sys.available@[i as int]@);
                assert(names[i as int] == sys.avail()[i as int].family_name);
            }
            let name = &sys.available[i].family_name;
            if !strs_contain(&r, name) {
                r.push(name.clone());
                proof {
                    assert(strs_view(r@) =~= dedup_strs(names.take(i as int + 1)));
                }
            }
            i = i + 1;
        }
        proof {
            assert(names.take(sys.available@.len() as int) =~= names);
        }
        r
    }

    fn get_descriptors(&self, sys: &mut FontSystem) -> CTFontDescriptorArray {
        let a = sys.collections.borrow(self.handle).matched;
        sys.retain_array(a);
        CTFontDescriptorArray { handle: a }
    }
}

/// The values of a sequence of strings.
pub open spec fn strs_view(s: Seq<String>) -> Seq<Seq<char>> {
    s.map_values(|x: String| x@)
}

/// The family names of the installed faces, in installation order.
pub open spec fn family_names_of(avail: Seq<FontDataV>) -> Seq<Seq<char>> {
    avail.map_values(|f: FontDataV| f.family_name)
}

/// Deduplication of a name sequence, keeping first occurrences.
pub open spec fn dedup_strs(s: Seq<Seq<char>>) -> Seq<Seq<char>>
    decreases s.len(),
{
    if s.len() == 0 {
        Seq::empty()
    } else {
        let rest = dedup_strs(s.drop_last());
        if rest.contains(s.last()) {
            rest
        } else {
            rest.push(s.last())
        }
    }
}

/// Is `s` already among the names collected so far?
fn strs_contain(v: &Vec<String>, s: &String) -> (r: bool)
    ensures
        r == strs_view(v@).contains(s@),
{
    let mut i: usize = 0;
    while i < v.len()
        invariant
            0 <= i <= v.len(),
            forall|j: int| 0 <= j < i as int ==> strs_view(v@)[j] != s@,
        decreases v.len() - i,
    {
        proof {
            assert(strs_view(v@)[i as int] == v@[i as int]@);
        }
        if v[i] == *s {
            proof {
                assert(strs_view(v@)[i as int] == s@);
            }
            return true;
        }
        i = i + 1;
    }
    false
}

/// A collection built from `n` descriptors matches at most `n`
/// descriptors, and no two of the matched descriptors are equal.
pub proof fn lemma_collection_deduplicates(
    pre: FontSystem,
    post: FontSystem,
    descs: Seq<CTFontDescriptorV>,
    c: int,
)
    requires
        coll_created(pre, post, dedup_descs(descs), c),
    ensures
        post.array_items(post.coll_array(c)).len() <= descs.len(),
        forall|i: int, j: int|
            0 <= i < j < post.array_items(post.coll_array(c)).len()
                ==> #[trigger] post.array_items(post.coll_array(c))[i] != #[trigger] post.array_items(
                post.coll_array(c),
            )[j],
        forall|x: CTFontDescriptorV|
            #[trigger] post.array_items(post.coll_array(c)).contains(x) <==> descs.contains(x),
{
    lemma_dedup_len_le(descs);
    lemma_dedup_no_duplicates(descs);
    lemma_dedup_same_elements(descs);
}

} // verus!
