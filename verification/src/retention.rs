use vstd::prelude::*;

verus! {

/// The retention cap: the greatest number of sibling entries that may remain
/// under the base directory without an eviction.
pub const MAX_SESSIONS: usize = 12;

/// One entry directly under the base directory, as the caller's scan
/// observed it. The scan is not filtered to the session-naming convention:
/// every sibling entry counts and can become the eviction victim.
pub struct SiblingEntry {
    /// The entry's path, as listed.
    pub path: String,
    /// Its last-modified timestamp, or None when the metadata could not be
    /// read; such an entry still counts toward the total but never becomes
    /// the victim.
    pub last_modified: Option<u64>,
}

/// Whether entry `i` of the scan carries a readable timestamp.
pub open spec fn readable(entries: Seq<SiblingEntry>, i: int) -> bool {
    entries[i].last_modified is Some
}

/// The timestamp of entry `i`; meaningful only when `readable`.
pub open spec fn ts(entries: Seq<SiblingEntry>, i: int) -> u64 {
    entries[i].last_modified->0
}

/// Eviction happens exactly when the sibling count exceeds the cap and at
/// least one entry has a readable timestamp.
pub open spec fn eviction_needed(entries: Seq<SiblingEntry>) -> bool {
    entries.len() > MAX_SESSIONS && exists|j: int|
        0 <= j < entries.len() && #[trigger] readable(entries, j)
}

/// Entry `i` is the eviction victim: eviction is needed, the entry's
/// timestamp is readable, no readable entry is strictly older, and every
/// earlier readable entry is strictly newer (a tie goes to the entry
/// encountered first, since the comparison is strict less-than).
pub open spec fn is_eviction_victim(entries: Seq<SiblingEntry>, i: int) -> bool {
    &&& eviction_needed(entries)
    &&& 0 <= i < entries.len()
    &&& readable(entries, i)
    &&& forall|j: int|
        0 <= j < entries.len() && #[trigger] readable(entries, j) ==> ts(entries, i) <= ts(
            entries,
            j,
        )
    &&& forall|j: int|
        0 <= j < i && #[trigger] readable(entries, j) ==> ts(entries, i) < ts(entries, j)
}

/// One retention pass over the sibling entries of the base directory:
/// answers with the entry to remove — the least-recently-modified one, a tie
/// going to the first encountered — or None when the count is within the cap
/// or no entry has a readable timestamp. The caller removes the named
/// directory, recursively and fatally on failure; at most one entry is ever
/// named per pass.
pub fn enforce_retention(entries: &Vec<SiblingEntry>) -> (victim: Option<usize>)
    ensures
        victim is Some <==> eviction_needed(entries@),
        victim matches Some(i) ==> is_eviction_victim(entries@, i as int),
{
    let mut oldest: Option<usize> = None;
    let mut idx: usize = 0;
    while idx < entries.len()
        invariant
            idx <= entries@.len(),
            oldest is None ==> forall|j: int| 0 <= j < idx ==> !readable(entries@, j),
            oldest matches Some(b) ==> {
                &&& 0 <= (b as int) < idx
                &&& readable(entries@, b as int)
                &&& forall|j: int|
                    0 <= j < idx && #[trigger] readable(entries@, j) ==> ts(entries@, b as int)
                        <= ts(entries@, j)
                &&& forall|j: int|
                    0 <= j < b && #[trigger] readable(entries@, j) ==> ts(entries@, b as int) < ts(
                        entries@,
                        j,
                    )
            },
        decreases entries@.len() - idx,
    {
        match entries[idx].last_modified {
            Some(t) => {
                match oldest {
                    None => {
                        oldest = Some(idx);
                    },
                    Some(b) => {
                        let best_so_far = entries[b].last_modified.unwrap();
                        if t < best_so_far {
                            oldest = Some(idx);
                        }
                    },
                }
            },
            None => {},
        }
        idx = idx + 1;
    }
    if entries.len() > MAX_SESSIONS {
        proof {
            match oldest {
                Some(b) => {
                    assert(readable(entries@, b as int));
                },
                None => {},
            }
        }
        oldest
    } else {
        None
    }
}

/// Within the cap nothing is evicted: with at most `MAX_SESSIONS` sibling
/// entries a retention pass removes nothing, and since such a pass changes
/// nothing, repeating it removes nothing either.
pub proof fn lemma_within_cap_no_eviction(entries: Seq<SiblingEntry>)
    requires
        entries.len() <= MAX_SESSIONS,
    ensures
        !eviction_needed(entries),
        forall|i: int| !is_eviction_victim(entries, i),
{
}

/// At most one entry qualifies as the eviction victim.
pub proof fn lemma_victim_unique(entries: Seq<SiblingEntry>, i: int, j: int)
    requires
        is_eviction_victim(entries, i),
        is_eviction_victim(entries, j),
    ensures
        i == j,
{
    if i < j {
        assert(readable(entries, i));
        assert(ts(entries, j) < ts(entries, i));
        assert(ts(entries, i) <= ts(entries, j));
    }
    if j < i {
        assert(readable(entries, j));
        assert(ts(entries, i) < ts(entries, j));
        assert(ts(entries, j) <= ts(entries, i));
    }
}

/// Over a full set — one entry above the cap, every timestamp readable and
/// all of them distinct — the victim is exactly the entry with the smallest
/// timestamp: every other entry is strictly newer.
pub proof fn lemma_full_set_evicts_oldest(entries: Seq<SiblingEntry>, i: int, j: int)
    requires
        entries.len() == MAX_SESSIONS + 1,
        forall|k: int| 0 <= k < entries.len() ==> #[trigger] readable(entries, k),
        forall|k: int, l: int|
            0 <= k < l < entries.len() ==> #[trigger] ts(entries, k) != #[trigger] ts(entries, l),
        is_eviction_victim(entries, i),
        0 <= j < entries.len(),
        j != i,
    ensures
        ts(entries, i) < ts(entries, j),
{
    assert(readable(entries, j));
    assert(ts(entries, i) <= ts(entries, j));
    if i < j {
        assert(ts(entries, i) != ts(entries, j));
    } else {
        assert(ts(entries, j) != ts(entries, i));
    }
}

/// One pass restores compliance and a second pass is a no-op: removing the
/// victim from a set one entry above the cap leaves exactly `MAX_SESSIONS`
/// entries, on which nothing further is evicted.
pub proof fn lemma_retention_idempotent(entries: Seq<SiblingEntry>, i: int)
    requires
        entries.len() == MAX_SESSIONS + 1,
        is_eviction_victim(entries, i),
    ensures
        entries.remove(i).len() == MAX_SESSIONS,
        !eviction_needed(entries.remove(i)),
        forall|j: int| !is_eviction_victim(entries.remove(i), j),
{
}

} // verus!
