//! The ids by which the website addresses the configured vCenters.

use crate::config::{VcenterEntry, VcenterEntryView};
use crate::text;
use vstd::prelude::*;
use vstd::string::StringExecFns;

verus! {

/// How many ids the helper can make up.
pub const ID_SPACE: u64 = 0xffff_ffff_ffff;

/// What the entries say.
pub open spec fn entries_view(entries: Seq<VcenterEntry>) -> Seq<VcenterEntryView> {
    entries.map_values(|entry: VcenterEntry| entry@)
}

/// Whether one of the entries goes by `id`.
pub open spec fn has_id(entries: Seq<VcenterEntryView>, id: Seq<char>) -> bool {
    exists|i: int| 0 <= i < entries.len() && (#[trigger] entries[i]).id == id
}

/// Whether the entry at `i` is the first that goes by `id`.
pub open spec fn is_first_with_id(entries: Seq<VcenterEntryView>, id: Seq<char>, i: int) -> bool {
    &&& 0 <= i < entries.len()
    &&& entries[i].id == id
    &&& forall|j: int| 0 <= j < i ==> (#[trigger] entries[j]).id != id
}

/// The first entry that goes by `id`, where there is one.
pub open spec fn first_with_id(entries: Seq<VcenterEntryView>, id: Seq<char>) -> VcenterEntryView {
    entries[choose|i: int| #[trigger] is_first_with_id(entries, id, i)]
}

/// There is only one first entry that goes by `id`.
pub proof fn lemma_first_with_id(entries: Seq<VcenterEntryView>, id: Seq<char>, i: int)
    requires
        is_first_with_id(entries, id, i),
    ensures
        has_id(entries, id),
        first_with_id(entries, id) == entries[i],
{
    let j = choose|j: int| #[trigger] is_first_with_id(entries, id, j);
    assert(is_first_with_id(entries, id, j));
    assert(j < i ==> entries[j].id != id);
    assert(i < j ==> entries[i].id != id);
}

/// Where an entry goes by `id`, there is a first that does.
pub proof fn lemma_has_first(entries: Seq<VcenterEntryView>, id: Seq<char>)
    requires
        has_id(entries, id),
    ensures
        exists|i: int| #[trigger] is_first_with_id(entries, id, i),
    decreases entries.len(),
{
    let before = entries.drop_last();
    if has_id(before, id) {
        lemma_has_first(before, id);
        let i = choose|i: int| #[trigger] is_first_with_id(before, id, i);
        assert forall|j: int| 0 <= j < i implies (#[trigger] entries[j]).id != id by {
            assert(before[j].id != id);
        }
        assert(is_first_with_id(entries, id, i));
    } else {
        let n = entries.len() - 1;
        assert forall|j: int| 0 <= j < n implies (#[trigger] entries[j]).id != id by {
            assert(before[j].id != id);
        }
        assert(is_first_with_id(entries, id, n));
    }
}

/// Whether every entry has an id and no two entries share one.
pub open spec fn ids_are_unique(entries: Seq<VcenterEntryView>) -> bool {
    &&& forall|i: int| 0 <= i < entries.len() ==> (#[trigger] entries[i]).id.len() > 0
    &&& forall|i: int, j: int|
        0 <= i < j < entries.len() ==> (#[trigger] entries[i]).id != (#[trigger] entries[j]).id
}

/// The `k`th id to try at the time `nanos`.
pub open spec fn candidate_id(nanos: nat, k: nat) -> Seq<char> {
    "vc-"@ + text::hex((nanos + k) % (ID_SPACE as nat))
}

/// Whether the `k`th id to try at the time `nanos` is the first that no entry goes by.
pub open spec fn is_first_free(entries: Seq<VcenterEntryView>, nanos: nat, k: nat) -> bool {
    &&& !has_id(entries, candidate_id(nanos, k))
    &&& forall|j: nat| j < k ==> has_id(entries, #[trigger] candidate_id(nanos, j))
}

/// The id that a new entry gets at the time `nanos`.
pub open spec fn fresh_id(entries: Seq<VcenterEntryView>, nanos: nat) -> Seq<char> {
    candidate_id(nanos, choose|k: nat| #[trigger] is_first_free(entries, nanos, k))
}

/// Whether `id` is what a new entry gets at some time.
pub open spec fn is_fresh_id(entries: Seq<VcenterEntryView>, id: Seq<char>) -> bool {
    exists|nanos: u128| id == #[trigger] fresh_id(entries, nanos as nat)
}

/// The index of the first entry that goes by `id`.
pub fn index_of_id(entries: &Vec<VcenterEntry>, id: &str) -> (index: Option<usize>)
    ensures
        match index {
            Some(i) => is_first_with_id(entries_view(entries@), id@, i as int),
            None => !has_id(entries_view(entries@), id@),
        },
{
    let ghost view = entries_view(entries@);
    for i in 0..entries.len()
        invariant
            view == entries_view(entries@),
            forall|j: int| 0 <= j < i ==> (#[trigger] view[j]).id != id@,
    {
        assert(view[i as int].id == entries@[i as int].id@);
        if text::same_text(&entries[i].id, id) {
            return Some(i);
        }
    }
    None
}

/// A copy of the entries.
pub fn copy_entries(entries: &Vec<VcenterEntry>) -> (copy: Vec<VcenterEntry>)
    ensures
        entries_view(copy@) == entries_view(entries@),
{
    let mut copy: Vec<VcenterEntry> = Vec::new();
    for i in 0..entries.len()
        invariant
            copy@.len() == i,
            forall|j: int| 0 <= j < i ==> (#[trigger] copy@[j])@ == entries@[j]@,
    {
        copy.push(entries[i].clone());
    }
    assert(entries_view(copy@) == entries_view(entries@));
    copy
}

/// The ids to try are all different, as long as they are fewer than there can be.
proof fn lemma_candidates_differ(nanos: nat, j: nat, k: nat)
    requires
        j < k < ID_SPACE,
    ensures
        candidate_id(nanos, j) != candidate_id(nanos, k),
{
    let space = ID_SPACE as nat;
    let (x, y) = ((nanos + j) % space, (nanos + k) % space);
    if candidate_id(nanos, j) == candidate_id(nanos, k) {
        let n = "vc-"@.len() as int;
        assert(candidate_id(nanos, j).skip(n) == text::hex(x));
        assert(candidate_id(nanos, k).skip(n) == text::hex(y));
        text::lemma_numeral_injective(x, y, 16);
        assert(x != y);
    }
}

/// Fewer entries than there are ids leave one of the ids to try free.
proof fn lemma_some_id_free(entries: Seq<VcenterEntryView>, nanos: nat)
    requires
        entries.len() < ID_SPACE,
    ensures
        exists|k: nat| k <= entries.len() && #[trigger] is_first_free(entries, nanos, k),
{
    let n = entries.len();
    let tried = Seq::new(n + 1, |k: int| candidate_id(nanos, k as nat));
    let taken = entries.map_values(|entry: VcenterEntryView| entry.id);
    if forall|k: nat| k <= n ==> has_id(entries, #[trigger] candidate_id(nanos, k)) {
        assert(tried.no_duplicates()) by {
            assert forall|i: int, j: int| 0 <= i < j < tried.len() implies tried[i] != tried[j] by {
                lemma_candidates_differ(nanos, i as nat, j as nat);
            }
        }
        tried.unique_seq_to_set();
        taken.lemma_cardinality_of_set();
        assert(tried.to_set().subset_of(taken.to_set())) by {
            assert forall|id: Seq<char>| tried.to_set().contains(id) implies taken.to_set().contains(
                id,
            ) by {
                let k = choose|k: int| 0 <= k < tried.len() && tried[k] == id;
                assert(has_id(entries, candidate_id(nanos, k as nat)));
                let i = choose|i: int| 0 <= i < entries.len() && (#[trigger] entries[i]).id == id;
                assert(taken[i] == id);
            }
        }
        vstd::set_lib::lemma_len_subset(tried.to_set(), taken.to_set());
        assert(false);
    }
    let k = choose|k: nat| k <= n && !has_id(entries, #[trigger] candidate_id(nanos, k));
    lemma_first_free_up_to(entries, nanos, k);
}

/// Where an id is free, there is a first free one up to it.
proof fn lemma_first_free_up_to(entries: Seq<VcenterEntryView>, nanos: nat, k: nat)
    requires
        !has_id(entries, candidate_id(nanos, k)),
    ensures
        exists|f: nat| f <= k && #[trigger] is_first_free(entries, nanos, f),
    decreases k,
{
    if forall|j: nat| j < k ==> has_id(entries, #[trigger] candidate_id(nanos, j)) {
        assert(is_first_free(entries, nanos, k));
    } else {
        let j = choose|j: nat| j < k && !has_id(entries, #[trigger] candidate_id(nanos, j));
        lemma_first_free_up_to(entries, nanos, j);
    }
}

/// Fewer entries than there are ids leave a first free one.
pub proof fn lemma_first_free_exists(entries: Seq<VcenterEntryView>, nanos: nat)
    requires
        entries.len() < ID_SPACE,
    ensures
        exists|k: nat| #[trigger] is_first_free(entries, nanos, k),
{
    lemma_some_id_free(entries, nanos);
}

/// The id of a new entry is the first free one.
pub proof fn lemma_fresh_id(entries: Seq<VcenterEntryView>, nanos: nat, k: nat)
    requires
        is_first_free(entries, nanos, k),
    ensures
        fresh_id(entries, nanos) == candidate_id(nanos, k),
{
    let chosen = choose|k: nat| #[trigger] is_first_free(entries, nanos, k);
    assert(is_first_free(entries, nanos, chosen));
    if chosen < k {
        assert(has_id(entries, candidate_id(nanos, chosen)));
    } else if k < chosen {
        assert(has_id(entries, candidate_id(nanos, k)));
    }
}

/// The id of a new entry is not empty, and no entry goes by it yet.
pub proof fn law_fresh_id_is_free(entries: Seq<VcenterEntryView>, nanos: nat)
    requires
        entries.len() < ID_SPACE,
    ensures
        !has_id(entries, fresh_id(entries, nanos)),
        fresh_id(entries, nanos).len() > 0,
{
    lemma_some_id_free(entries, nanos);
    let k = choose|k: nat| #[trigger] is_first_free(entries, nanos, k);
    lemma_fresh_id(entries, nanos, k);
    reveal_strlit("vc-");
}

/// The id that a new entry gets at the time `nanos`: one that no entry goes by yet.
pub fn new_id_at(entries: &Vec<VcenterEntry>, nanos: u128) -> (id: String)
    requires
        entries@.len() < ID_SPACE,
    ensures
        id@ == fresh_id(entries_view(entries@), nanos as nat),
        !has_id(entries_view(entries@), id@),
{
    let ghost view = entries_view(entries@);
    proof {
        lemma_some_id_free(view, nanos as nat);
    }
    let ghost free = choose|k: nat| #[trigger] is_first_free(view, nanos as nat, k);
    let ghost mut k: nat = 0;
    let mut n: u64 = (nanos % (ID_SPACE as u128)) as u64;
    loop
        invariant
            view == entries_view(entries@),
            is_first_free(view, nanos as nat, free),
            k <= free,
            n == (nanos + k) % (ID_SPACE as int),
            n < ID_SPACE,
            forall|j: nat| j < k ==> has_id(view, #[trigger] candidate_id(nanos as nat, j)),
        decreases free - k,
    {
        let id = "vc-".to_owned().concat(&text::hex_text(n));
        assert(id@ == candidate_id(nanos as nat, k));
        if index_of_id(entries, &id).is_none() {
            proof {
                assert(is_first_free(view, nanos as nat, k));
                lemma_fresh_id(view, nanos as nat, k);
            }
            return id;
        }
        n = if n + 1 == ID_SPACE {
            0
        } else {
            n + 1
        };
        proof {
            k = k + 1;
        }
    }
}

} // verus!
