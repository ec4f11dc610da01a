//! The list of model files that a directory offers.

use crate::text::{
    law_text_order_is_total, lemma_bytes_le_total, lemma_bytes_le_transitive, text_le,
    text_order, text_precedes,
};
use vstd::prelude::*;
use vstd::relations::sorted_by;
use vstd::seq_lib::{lemma_sorted_unique, to_multiset_build, to_multiset_insert};
use vstd::utf8::encode_utf8;

verus! {

/// One entry of a directory, as its scan reported it.
#[derive(Debug, PartialEq, Eq)]
pub struct DirEntry {
    /// The entry's file name, without any directory.
    pub name: String,
    /// Whether the entry is a regular file.
    pub is_file: bool,
}

/// What a [`DirEntry`] is, with its name as a sequence of characters.
pub struct DirEntryView {
    pub name: Seq<char>,
    pub is_file: bool,
}

impl View for DirEntry {
    type V = DirEntryView;

    open spec fn view(&self) -> DirEntryView {
        DirEntryView { name: self.name@, is_file: self.is_file }
    }
}

/// The views of a sequence of entries, one for one.
pub open spec fn entries_view(entries: Seq<DirEntry>) -> Seq<DirEntryView> {
    entries.map_values(|entry: DirEntry| entry@)
}

/// The texts of a sequence of strings, one for one.
pub open spec fn texts_of(names: Seq<String>) -> Seq<Seq<char>> {
    names.map_values(|name: String| name@)
}

/// The names of the regular files among the entries, in the order of the
/// entries.
pub open spec fn regular_names(entries: Seq<DirEntryView>) -> Seq<Seq<char>> {
    entries.filter(|entry: DirEntryView| entry.is_file).map_values(
        |entry: DirEntryView| entry.name,
    )
}

/// Puts `name` into a sorted list at the place that keeps the list sorted.
fn insert_sorted(names: &mut Vec<String>, name: String)
    requires
        sorted_by(texts_of(old(names)@), text_order()),
    ensures
        sorted_by(texts_of(final(names)@), text_order()),
        texts_of(final(names)@).to_multiset() == texts_of(old(names)@).to_multiset().insert(name@),
{
    let mut at: usize = 0;
    while at < names.len() && text_precedes(names[at].as_str(), name.as_str())
        invariant
            at <= names.len(),
            forall|k: int| 0 <= k < at ==> text_le(#[trigger] names@[k]@, name@),
        decreases names.len() - at,
    {
        at += 1;
    }
    let ghost before = texts_of(names@);
    names.insert(at, name);
    proof {
        let after = texts_of(names@);
        assert(after =~= before.insert(at as int, name@));
        to_multiset_insert(before, at as int, name@);
        assert forall|i: int, j: int| 0 <= i < j < after.len() implies #[trigger] text_order()(
            after[i],
            after[j],
        ) by {
            if j < at {
                assert(text_order()(before[i], before[j]));
            } else if j == at {
                assert(text_le(before[i], name@));
            } else if i < at {
                assert(text_order()(before[i], before[j - 1]));
            } else if i == at {
                // `name` comes before the entry it displaced, and that entry
                // before every later one.
                assert(!text_le(before[at as int], name@));
                lemma_bytes_le_total(encode_utf8(before[at as int]), encode_utf8(name@));
                if j - 1 > at {
                    assert(text_order()(before[at as int], before[j - 1]));
                    lemma_bytes_le_transitive(
                        encode_utf8(name@),
                        encode_utf8(before[at as int]),
                        encode_utf8(before[j - 1]),
                    );
                }
            } else {
                assert(text_order()(before[i - 1], before[j - 1]));
            }
        }
    }
}

/// The names of the regular files among the entries of a directory, sorted.
/// Entries that are not regular files are left out; every regular file is
/// listed once for each time it was reported.
pub fn list_model_files(entries: &Vec<DirEntry>) -> (names: Vec<String>)
    ensures
        sorted_by(texts_of(names@), text_order()),
        texts_of(names@).to_multiset() == regular_names(entries_view(entries@)).to_multiset(),
{
    let mut names: Vec<String> = Vec::new();
    let mut i: usize = 0;
    assert(entries_view(entries@).take(0) =~= Seq::<DirEntryView>::empty());
    assert(regular_names(Seq::<DirEntryView>::empty()) =~= Seq::<Seq<char>>::empty());
    assert(texts_of(names@) =~= Seq::<Seq<char>>::empty());
    while i < entries.len()
        invariant
            i <= entries.len(),
            sorted_by(texts_of(names@), text_order()),
            texts_of(names@).to_multiset() == regular_names(
                entries_view(entries@).take(i as int),
            ).to_multiset(),
        decreases entries.len() - i,
    {
        proof {
            let all = entries_view(entries@);
            let is_regular = |entry: DirEntryView| entry.is_file;
            assert(all.take(i + 1) =~= all.take(i as int).push(all[i as int]));
            all.take(i as int).lemma_filter_push(all[i as int], is_regular);
            if all[i as int].is_file {
                assert(regular_names(all.take(i + 1)) =~= regular_names(all.take(i as int)).push(
                    all[i as int].name,
                ));
                to_multiset_build(
                    regular_names(all.take(i as int)),
                    all[i as int].name,
                );
            }
        }
        if entries[i].is_file {
            insert_sorted(&mut names, entries[i].name.clone());
        }
        i += 1;
    }
    assert(entries_view(entries@).take(i as int) =~= entries_view(entries@));
    names
}

/// The listing is the only one there is: any sorted sequence that holds the
/// names of the regular files, each as often as it was reported, is the
/// listing itself.
pub proof fn law_listing_is_unique(
    entries: Seq<DirEntryView>,
    listing: Seq<Seq<char>>,
    other: Seq<Seq<char>>,
)
    requires
        sorted_by(listing, text_order()),
        listing.to_multiset() == regular_names(entries).to_multiset(),
        sorted_by(other, text_order()),
        other.to_multiset() == regular_names(entries).to_multiset(),
    ensures
        other == listing,
{
    law_text_order_is_total();
    lemma_sorted_unique(listing, other, text_order());
}

} // verus!
