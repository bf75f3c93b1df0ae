//! The list of font families that the application offers.
//!
//! The system reports its fonts one face after another. The list has one
//! entry for each family, taken from the first face of the family, and is in
//! the order of the family names.

use crate::text::{before, lemma_text_before_is_an_order, lowercase, lowercased, replace, replaced, text_before};
use vstd::prelude::*;
use vstd::string::*;

verus! {

/// One face of a font, as the system reports it.
#[derive(Debug, Clone, PartialEq, Eq)]
pub struct FontFace {
    pub family: String,
    pub full_name: String,
    pub style: String,
    pub monospace: bool,
}

/// What a [`FontFace`] is in contracts.
pub struct FontFaceView {
    pub family: Seq<char>,
    pub full_name: Seq<char>,
    pub style: Seq<char>,
    pub monospace: bool,
}

impl View for FontFace {
    type V = FontFaceView;

    open spec fn view(&self) -> FontFaceView {
        FontFaceView {
            family: self.family@,
            full_name: self.full_name@,
            style: self.style@,
            monospace: self.monospace,
        }
    }
}

/// One family of the list.
#[derive(Debug, Clone, PartialEq, Eq)]
pub struct FontEntry {
    pub id: String,
    pub display_name: String,
    pub family: String,
    pub style: String,
}

/// What a [`FontEntry`] is in contracts.
pub struct FontEntryView {
    pub id: Seq<char>,
    pub display_name: Seq<char>,
    pub family: Seq<char>,
    pub style: Seq<char>,
}

impl View for FontEntry {
    type V = FontEntryView;

    open spec fn view(&self) -> FontEntryView {
        FontEntryView {
            id: self.id@,
            display_name: self.display_name@,
            family: self.family@,
            style: self.style@,
        }
    }
}

/// The faces, each as contracts see it.
pub open spec fn face_views(faces: Seq<FontFace>) -> Seq<FontFaceView> {
    faces.map_values(|face: FontFace| face@)
}

/// The entries, each as contracts see it.
pub open spec fn entry_views(entries: Seq<FontEntry>) -> Seq<FontEntryView> {
    entries.map_values(|entry: FontEntry| entry@)
}

/// The id of a family: its name in lowercase, with a hyphen for every space.
pub open spec fn font_id_text(family: Seq<char>) -> Seq<char> {
    replaced(lowercased(family), ' ', "-"@)
}

/// The entry that a face gives to the list.
pub open spec fn entry_of(face: FontFaceView) -> FontEntryView {
    FontEntryView {
        id: font_id_text(face.family),
        display_name: face.full_name,
        family: face.family,
        style: face.style,
    }
}

/// Whether the face at `place` is of the wanted kind and the first of its
/// family among the faces of that kind.
pub open spec fn first_of_family(faces: Seq<FontFaceView>, monospace: bool, place: int) -> bool {
    &&& 0 <= place < faces.len()
    &&& faces[place].monospace == monospace
    &&& forall|earlier: int|
        0 <= earlier < place && faces[earlier].monospace == monospace
            ==> #[trigger] faces[earlier].family != faces[place].family
}

/// The entries are in the order of their family names, none twice.
pub open spec fn in_family_order(entries: Seq<FontEntryView>) -> bool {
    forall|i: int, j: int|
        0 <= i < j < entries.len() ==> text_before(
            #[trigger] entries[i].family,
            #[trigger] entries[j].family,
        )
}

/// Whether `entry` is the one given by the face at `place`, and that face is
/// the first of its family.
pub open spec fn given_by(
    faces: Seq<FontFaceView>,
    monospace: bool,
    entry: FontEntryView,
    place: int,
) -> bool {
    first_of_family(faces, monospace, place) && entry == entry_of(faces[place])
}

/// Whether `entry` is given by the first face of its family, among the first
/// `upto` faces.
pub open spec fn from_first_face(
    faces: Seq<FontFaceView>,
    monospace: bool,
    entry: FontEntryView,
    upto: int,
) -> bool {
    exists|place: int| 0 <= place < upto && #[trigger] given_by(faces, monospace, entry, place)
}

/// Whether the place `i` of `entries` holds the entry of `family`.
pub open spec fn entry_at(entries: Seq<FontEntryView>, family: Seq<char>, i: int) -> bool {
    0 <= i < entries.len() && entries[i].family == family
}

/// Whether `family` has an entry.
pub open spec fn has_entry(entries: Seq<FontEntryView>, family: Seq<char>) -> bool {
    exists|i: int| #[trigger] entry_at(entries, family, i)
}

/// Every entry is the one given by the first face of its family among the
/// first `upto` faces.
pub open spec fn each_from_first_face(
    faces: Seq<FontFaceView>,
    monospace: bool,
    entries: Seq<FontEntryView>,
    upto: int,
) -> bool {
    forall|i: int|
        0 <= i < entries.len() ==> from_first_face(faces, monospace, #[trigger] entries[i], upto)
}

/// Every family of the wanted kind among the first `upto` faces has an
/// entry.
pub open spec fn each_family_listed(
    faces: Seq<FontFaceView>,
    monospace: bool,
    entries: Seq<FontEntryView>,
    upto: int,
) -> bool {
    forall|place: int|
        0 <= place < upto && (#[trigger] faces[place]).monospace == monospace ==> has_entry(
            entries,
            faces[place].family,
        )
}

/// Whether `entries` is the list of the families of `faces` that are
/// monospaced, or of those that are not: one entry for each family, given by
/// the first face of the family, in the order of the family names.
pub open spec fn lists_fonts(
    faces: Seq<FontFaceView>,
    monospace: bool,
    entries: Seq<FontEntryView>,
) -> bool {
    &&& in_family_order(entries)
    &&& each_from_first_face(faces, monospace, entries, faces.len() as int)
    &&& each_family_listed(faces, monospace, entries, faces.len() as int)
}

/// A list stays the list of the faces seen so far when the next face is of
/// the other kind or of a family that has its entry.
proof fn lemma_skip_face(
    faces: Seq<FontFaceView>,
    monospace: bool,
    entries: Seq<FontEntryView>,
    upto: int,
)
    requires
        0 <= upto < faces.len(),
        each_from_first_face(faces, monospace, entries, upto),
        each_family_listed(faces, monospace, entries, upto),
        faces[upto].monospace != monospace || has_entry(entries, faces[upto].family),
    ensures
        each_from_first_face(faces, monospace, entries, upto + 1),
        each_family_listed(faces, monospace, entries, upto + 1),
{
    assert forall|i: int| 0 <= i < entries.len() implies from_first_face(
        faces,
        monospace,
        #[trigger] entries[i],
        upto + 1,
    ) by {
        assert(from_first_face(faces, monospace, entries[i], upto));
        let place = choose|place: int|
            0 <= place < upto && #[trigger] given_by(faces, monospace, entries[i], place);
        assert(given_by(faces, monospace, entries[i], place));
    }
}

/// The new family goes before every entry from `at` on, and no entry has it.
proof fn lemma_new_family(entries: Seq<FontEntryView>, family: Seq<char>, at: int)
    requires
        in_family_order(entries),
        0 <= at <= entries.len(),
        forall|i: int| 0 <= i < at ==> text_before(#[trigger] entries[i].family, family),
        at < entries.len() ==> !text_before(entries[at].family, family) && entries[at].family
            != family,
    ensures
        forall|i: int| at <= i < entries.len() ==> text_before(family, #[trigger] entries[i].family),
        !has_entry(entries, family),
{
    assert forall|i: int| at <= i < entries.len() implies text_before(
        family,
        #[trigger] entries[i].family,
    ) by {
        lemma_text_before_is_an_order(family, entries[at].family, entries[i].family);
        if i > at {
            assert(text_before(entries[at].family, entries[i].family));
        }
    }
    assert forall|i: int| !#[trigger] entry_at(entries, family, i) by {
        lemma_text_before_is_an_order(family, family, family);
        if 0 <= i < entries.len() {
            if i < at {
                assert(text_before(entries[i].family, family));
            } else {
                assert(text_before(family, entries[i].family));
            }
        }
    }
}

/// Putting an entry of a new family at its place keeps the order.
proof fn lemma_insert_keeps_order(entries: Seq<FontEntryView>, added: FontEntryView, at: int)
    requires
        in_family_order(entries),
        0 <= at <= entries.len(),
        forall|i: int| 0 <= i < at ==> text_before(#[trigger] entries[i].family, added.family),
        forall|i: int|
            at <= i < entries.len() ==> text_before(added.family, #[trigger] entries[i].family),
    ensures
        in_family_order(entries.insert(at, added)),
{
    let longer = entries.insert(at, added);
    assert forall|i: int, j: int| 0 <= i < j < longer.len() implies text_before(
        #[trigger] longer[i].family,
        #[trigger] longer[j].family,
    ) by {
        let i0 = if i < at { i } else { i - 1 };
        let j0 = if j < at { j } else { j - 1 };
        if i == at {
            assert(longer[j] == entries[j0]);
            assert(text_before(added.family, entries[j0].family));
        } else if j == at {
            assert(longer[i] == entries[i0]);
            assert(text_before(entries[i0].family, added.family));
        } else {
            assert(longer[i] == entries[i0] && longer[j] == entries[j0]);
            assert(text_before(entries[i0].family, entries[j0].family));
        }
    }
}

/// Putting the entry of the next face at its place in the order gives the
/// list of the faces seen so far, where the family had no entry yet.
proof fn lemma_insert_face(
    faces: Seq<FontFaceView>,
    monospace: bool,
    entries: Seq<FontEntryView>,
    upto: int,
    at: int,
)
    requires
        0 <= upto < faces.len(),
        faces[upto].monospace == monospace,
        in_family_order(entries),
        each_from_first_face(faces, monospace, entries, upto),
        each_family_listed(faces, monospace, entries, upto),
        0 <= at <= entries.len(),
        forall|i: int|
            0 <= i < at ==> text_before(#[trigger] entries[i].family, faces[upto].family),
        at < entries.len() ==> !text_before(entries[at].family, faces[upto].family)
            && entries[at].family != faces[upto].family,
    ensures
        in_family_order(entries.insert(at, entry_of(faces[upto]))),
        each_from_first_face(
            faces,
            monospace,
            entries.insert(at, entry_of(faces[upto])),
            upto + 1,
        ),
        each_family_listed(faces, monospace, entries.insert(at, entry_of(faces[upto])), upto + 1),
{
    let family = faces[upto].family;
    let added = entry_of(faces[upto]);
    let longer = entries.insert(at, added);
    lemma_new_family(entries, family, at);
    lemma_insert_keeps_order(entries, added, at);
    assert(first_of_family(faces, monospace, upto)) by {
        assert forall|earlier: int|
            0 <= earlier < upto && faces[earlier].monospace == monospace implies #[trigger] faces[earlier].family
            != family by {
            assert(has_entry(entries, faces[earlier].family));
        }
    }
    assert forall|i: int| 0 <= i < longer.len() implies from_first_face(
        faces,
        monospace,
        #[trigger] longer[i],
        upto + 1,
    ) by {
        if i == at {
            assert(given_by(faces, monospace, longer[i], upto));
        } else {
            let i0 = if i < at { i } else { i - 1 };
            assert(longer[i] == entries[i0]);
            assert(from_first_face(faces, monospace, entries[i0], upto));
            let place = choose|place: int|
                0 <= place < upto && #[trigger] given_by(faces, monospace, entries[i0], place);
            assert(given_by(faces, monospace, longer[i], place));
        }
    }
    assert forall|place: int|
        0 <= place < upto + 1 && (#[trigger] faces[place]).monospace == monospace implies has_entry(
        longer,
        faces[place].family,
    ) by {
        if place == upto {
            assert(entry_at(longer, faces[place].family, at));
        } else {
            assert(has_entry(entries, faces[place].family));
            let i0 = choose|i: int| #[trigger] entry_at(entries, faces[place].family, i);
            let i = if i0 < at { i0 } else { i0 + 1 };
            assert(longer[i] == entries[i0]);
            assert(entry_at(longer, faces[place].family, i));
        }
    }
}

/// Two lists in the order of the family names that have the same families
/// have them at the same places.
proof fn lemma_same_families_same_places(a: Seq<FontEntryView>, b: Seq<FontEntryView>)
    requires
        in_family_order(a),
        in_family_order(b),
        forall|i: int| 0 <= i < a.len() ==> has_entry(b, (#[trigger] a[i]).family),
        forall|j: int| 0 <= j < b.len() ==> has_entry(a, (#[trigger] b[j]).family),
    ensures
        a.len() == b.len(),
        forall|i: int| 0 <= i < a.len() ==> (#[trigger] a[i]).family == b[i].family,
    decreases a.len(),
{
    if a.len() == 0 {
        if b.len() > 0 {
            assert(has_entry(a, b[0].family));
            let i = choose|i: int| #[trigger] entry_at(a, b[0].family, i);
            assert(entry_at(a, b[0].family, i));
        }
    } else {
        let la = a.last().family;
        assert(has_entry(b, a[a.len() - 1].family));
        let j = choose|j: int| #[trigger] entry_at(b, la, j);
        assert(entry_at(b, la, j));
        let lb = b.last().family;
        assert(has_entry(a, b[b.len() - 1].family));
        let i = choose|i: int| #[trigger] entry_at(a, lb, i);
        assert(entry_at(a, lb, i));
        // la is at or before lb in b, and lb is at or before la in a.
        if la != lb {
            assert(j < b.len() - 1);
            assert(text_before(b[j].family, b[b.len() - 1].family));
            assert(i < a.len() - 1);
            assert(text_before(a[i].family, a[a.len() - 1].family));
            lemma_text_before_is_an_order(la, lb, la);
            lemma_text_before_is_an_order(la, la, la);
        }
        let ra = a.drop_last();
        let rb = b.drop_last();
        assert forall|x: int| 0 <= x < ra.len() implies has_entry(rb, (#[trigger] ra[x]).family) by {
            assert(ra[x] == a[x]);
            assert(has_entry(b, a[x].family));
            let y = choose|y: int| #[trigger] entry_at(b, a[x].family, y);
            assert(entry_at(b, a[x].family, y));
            assert(text_before(a[x].family, a[a.len() - 1].family));
            lemma_text_before_is_an_order(la, la, la);
            assert(y < b.len() - 1);
            assert(rb[y] == b[y]);
            assert(entry_at(rb, ra[x].family, y));
        }
        assert forall|y: int| 0 <= y < rb.len() implies has_entry(ra, (#[trigger] rb[y]).family) by {
            assert(rb[y] == b[y]);
            assert(has_entry(a, b[y].family));
            let x = choose|x: int| #[trigger] entry_at(a, b[y].family, x);
            assert(entry_at(a, b[y].family, x));
            assert(text_before(b[y].family, b[b.len() - 1].family));
            lemma_text_before_is_an_order(lb, lb, lb);
            assert(x < a.len() - 1);
            assert(ra[x] == a[x]);
            assert(entry_at(ra, rb[y].family, x));
        }
        assert(in_family_order(ra)) by {
            assert forall|x: int, y: int| 0 <= x < y < ra.len() implies text_before(
                #[trigger] ra[x].family,
                #[trigger] ra[y].family,
            ) by {
                assert(ra[x] == a[x] && ra[y] == a[y]);
            }
        }
        assert(in_family_order(rb)) by {
            assert forall|x: int, y: int| 0 <= x < y < rb.len() implies text_before(
                #[trigger] rb[x].family,
                #[trigger] rb[y].family,
            ) by {
                assert(rb[x] == b[x] && rb[y] == b[y]);
            }
        }
        lemma_same_families_same_places(ra, rb);
        assert forall|x: int| 0 <= x < a.len() implies (#[trigger] a[x]).family
            == b[x].family by {
            if x < a.len() - 1 {
                assert(ra[x] == a[x] && rb[x] == b[x]);
            }
        }
    }
}

/// The faces and the kind decide the list: there is one list of them and no
/// other.
pub proof fn lemma_font_list_unique(
    faces: Seq<FontFaceView>,
    monospace: bool,
    first: Seq<FontEntryView>,
    second: Seq<FontEntryView>,
)
    requires
        lists_fonts(faces, monospace, first),
        lists_fonts(faces, monospace, second),
    ensures
        first == second,
{
    assert forall|i: int| 0 <= i < first.len() implies has_entry(
        second,
        (#[trigger] first[i]).family,
    ) by {
        assert(from_first_face(faces, monospace, first[i], faces.len() as int));
        let place = choose|place: int|
            0 <= place < faces.len() && #[trigger] given_by(faces, monospace, first[i], place);
        assert(faces[place].monospace == monospace);
    }
    assert forall|j: int| 0 <= j < second.len() implies has_entry(
        first,
        (#[trigger] second[j]).family,
    ) by {
        assert(from_first_face(faces, monospace, second[j], faces.len() as int));
        let place = choose|place: int|
            0 <= place < faces.len() && #[trigger] given_by(faces, monospace, second[j], place);
        assert(faces[place].monospace == monospace);
    }
    lemma_same_families_same_places(first, second);
    assert forall|i: int| 0 <= i < first.len() implies first[i] == second[i] by {
        assert(from_first_face(faces, monospace, first[i], faces.len() as int));
        let p = choose|place: int|
            0 <= place < faces.len() && #[trigger] given_by(faces, monospace, first[i], place);
        assert(from_first_face(faces, monospace, second[i], faces.len() as int));
        let q = choose|place: int|
            0 <= place < faces.len() && #[trigger] given_by(faces, monospace, second[i], place);
        assert(faces[p].family == faces[q].family);
        if p < q {
            assert(faces[p].family != faces[q].family);
        } else if q < p {
            assert(faces[q].family != faces[p].family);
        }
    }
    assert(first =~= second);
}

/// The id of a family: its name in lowercase, with a hyphen for every space.
pub fn font_id(family: &str) -> (id: String)
    ensures
        id@ == font_id_text(family@),
{
    let lower = lowercase(family);
    replace(lower.as_str(), ' ', "-")
}

/// The list of the families of `faces` that are monospaced, where
/// `monospace_filter` is set, or of those that are not: one entry for each
/// family, given by the first face of the family, in the order of the family
/// names.
pub fn list_fonts(faces: &Vec<FontFace>, monospace_filter: bool) -> (entries: Vec<FontEntry>)
    ensures
        lists_fonts(face_views(faces@), monospace_filter, entry_views(entries@)),
{
    let mut entries: Vec<FontEntry> = Vec::new();
    let mut k: usize = 0;
    while k < faces.len()
        invariant
            k <= faces.len(),
            in_family_order(entry_views(entries@)),
            each_from_first_face(
                face_views(faces@),
                monospace_filter,
                entry_views(entries@),
                k as int,
            ),
            each_family_listed(
                face_views(faces@),
                monospace_filter,
                entry_views(entries@),
                k as int,
            ),
        decreases faces.len() - k,
    {
        let face = &faces[k];
        let ghost seen = entry_views(entries@);
        assert(face_views(faces@)[k as int] == face@);
        if face.monospace == monospace_filter {
            let mut at: usize = 0;
            let mut searching = true;
            while searching && at < entries.len()
                invariant
                    at <= entries.len(),
                    seen == entry_views(entries@),
                    forall|i: int|
                        0 <= i < at ==> text_before(#[trigger] seen[i].family, face.family@),
                    !searching ==> at < entries.len() && !text_before(
                        seen[at as int].family,
                        face.family@,
                    ),
                decreases entries.len() - at + if searching { 1int } else { 0int },
            {
                assert(seen[at as int] == entries[at as int]@);
                if before(entries[at].family.as_str(), face.family.as_str()) {
                    at += 1;
                } else {
                    searching = false;
                }
            }
            let listed = at < entries.len() && entries[at].family == face.family;
            if listed {
                proof {
                    assert(seen[at as int] == entries[at as int]@);
                    assert(entry_at(seen, face.family@, at as int));
                    lemma_skip_face(face_views(faces@), monospace_filter, seen, k as int);
                }
            } else {
                let entry = FontEntry {
                    id: font_id(face.family.as_str()),
                    display_name: face.full_name.clone(),
                    family: face.family.clone(),
                    style: face.style.clone(),
                };
                proof {
                    if at < entries.len() {
                        assert(seen[at as int] == entries[at as int]@);
                    }
                    assert(entry@ == entry_of(face@));
                    lemma_insert_face(
                        face_views(faces@),
                        monospace_filter,
                        seen,
                        k as int,
                        at as int,
                    );
                    assert(entry_views(entries@.insert(at as int, entry)) =~= seen.insert(
                        at as int,
                        entry@,
                    ));
                }
                entries.insert(at, entry);
            }
        } else {
            proof {
                lemma_skip_face(face_views(faces@), monospace_filter, seen, k as int);
            }
        }
        k += 1;
    }
    entries
}

/// A copy of a list.
fn copy_entries(entries: &Vec<FontEntry>) -> (copy: Vec<FontEntry>)
    ensures
        entry_views(copy@) == entry_views(entries@),
{
    let mut copy: Vec<FontEntry> = Vec::new();
    let mut i: usize = 0;
    while i < entries.len()
        invariant
            i <= entries.len(),
            copy.len() == i,
            forall|j: int| 0 <= j < i ==> (#[trigger] copy[j])@ == entries[j]@,
        decreases entries.len() - i,
    {
        copy.push(
            FontEntry {
                id: entries[i].id.clone(),
                display_name: entries[i].display_name.clone(),
                family: entries[i].family.clone(),
                style: entries[i].style.clone(),
            },
        );
        i += 1;
    }
    assert(entry_views(copy@) =~= entry_views(entries@));
    copy
}

/// The two lists, once they have been made: that of the monospaced families
/// and that of the others. The system is asked for its fonts only where a
/// list has not been made yet.
pub struct FontCache {
    sans: Option<Vec<FontEntry>>,
    mono: Option<Vec<FontEntry>>,
}

impl FontCache {
    /// The list that is kept for the kind, if one is.
    pub closed spec fn kept(&self, monospace: bool) -> Option<Seq<FontEntryView>> {
        match if monospace {
            self.mono
        } else {
            self.sans
        } {
            Some(entries) => Some(entry_views(entries@)),
            None => None,
        }
    }

    /// A cache that keeps no list.
    pub fn new() -> (cache: FontCache)
        ensures
            cache.kept(true) is None,
            cache.kept(false) is None,
    {
        FontCache { sans: None, mono: None }
    }

    /// The list that is kept for the kind, if one is.
    pub fn cached(&self, monospace_filter: bool) -> (hit: Option<Vec<FontEntry>>)
        ensures
            match self.kept(monospace_filter) {
                Some(entries) => hit matches Some(list) && entry_views(list@) == entries,
                None => hit is None,
            },
    {
        let kept = if monospace_filter {
            &self.mono
        } else {
            &self.sans
        };
        match kept {
            Some(entries) => Some(copy_entries(entries)),
            None => None,
        }
    }

    /// Makes the list of the kind from `faces`, keeps it and returns it. The
    /// list of the other kind stays as it is.
    pub fn fill(&mut self, monospace_filter: bool, faces: &Vec<FontFace>) -> (entries: Vec<
        FontEntry,
    >)
        ensures
            lists_fonts(face_views(faces@), monospace_filter, entry_views(entries@)),
            final(self).kept(monospace_filter) == Some(entry_views(entries@)),
            final(self).kept(!monospace_filter) == old(self).kept(!monospace_filter),
    {
        let entries = list_fonts(faces, monospace_filter);
        let copy = copy_entries(&entries);
        if monospace_filter {
            self.mono = Some(copy);
        } else {
            self.sans = Some(copy);
        }
        entries
    }
}

} // verus!
