//! The pagination merge engine, at the specification level.
//!
//! A cached collection is reconciled with a freshly fetched page: a trailing
//! "more" marker row is removed, the page is scanned for the first item whose
//! identity is not already cached (the new-item boundary), everything from
//! the boundary onward is appended in fetched order, and a fresh marker row
//! is appended iff a next-page token came with the page.
//!
//! Items are identified by an optional textual identity; the marker row is
//! recognised by a reserved identity value. The definitions are generic in
//! the identity function, so the log-group menu and the log-event table share
//! them.
use vstd::prelude::*;

verus! {

/// Some item of `s` has identity `x`.
pub open spec fn has_id<T>(s: Seq<T>, id: spec_fn(T) -> Option<Seq<char>>, x: Option<Seq<char>>) -> bool {
    exists|j: int| 0 <= j < s.len() && id(s[j]) == x
}

/// `x` is a marker row: its identity is the reserved value.
pub open spec fn is_marker<T>(id: spec_fn(T) -> Option<Seq<char>>, reserved: Seq<char>, x: T) -> bool {
    id(x) == Option::<Seq<char>>::Some(reserved)
}

/// No item of `s` carries the reserved identity.
pub open spec fn no_marker<T>(s: Seq<T>, id: spec_fn(T) -> Option<Seq<char>>, reserved: Seq<char>) -> bool {
    forall|i: int| 0 <= i < s.len() ==> !is_marker(id, reserved, #[trigger] s[i])
}

/// Only the last item of `s`, if any, may carry the reserved identity.
pub open spec fn marker_last_only<T>(s: Seq<T>, id: spec_fn(T) -> Option<Seq<char>>, reserved: Seq<char>) -> bool {
    forall|i: int| 0 <= i < s.len() - 1 ==> !is_marker(id, reserved, #[trigger] s[i])
}

/// The cached collection with its trailing marker row removed, if it has one.
pub open spec fn strip_marker<T>(c: Seq<T>, id: spec_fn(T) -> Option<Seq<char>>, reserved: Seq<char>) -> Seq<T> {
    if c.len() > 0 && is_marker(id, reserved, c.last()) {
        c.drop_last()
    } else {
        c
    }
}

/// The new-item boundary: the position of the first fetched item whose
/// identity is not already in `base`, or the page length when every fetched
/// item is already cached.
pub open spec fn new_boundary<T>(base: Seq<T>, fetched: Seq<T>, id: spec_fn(T) -> Option<Seq<char>>) -> int
    decreases fetched.len(),
{
    if fetched.len() <= 0 {
        0
    } else if !has_id(base, id, id(fetched[0])) {
        0
    } else {
        1 + new_boundary(base, fetched.skip(1), id)
    }
}

/// The merge of one fetched page into a cached collection.
pub open spec fn merge_page<T>(
    cached: Seq<T>,
    fetched: Seq<T>,
    id: spec_fn(T) -> Option<Seq<char>>,
    reserved: Seq<char>,
    marker: T,
    has_token: bool,
) -> Seq<T> {
    let base = strip_marker(cached, id, reserved);
    let merged = base + fetched.skip(new_boundary(base, fetched, id));
    if has_token {
        merged.push(marker)
    } else {
        merged
    }
}

/// What characterises the new-item boundary: every item before it is already
/// cached, and the item at it (if the page is not exhausted) is not.
pub proof fn lemma_new_boundary<T>(base: Seq<T>, fetched: Seq<T>, id: spec_fn(T) -> Option<Seq<char>>)
    ensures
        0 <= new_boundary(base, fetched, id) <= fetched.len(),
        forall|j: int|
            0 <= j < new_boundary(base, fetched, id) ==> has_id(base, id, id(#[trigger] fetched[j])),
        new_boundary(base, fetched, id) < fetched.len() ==> !has_id(
            base,
            id,
            id(fetched[new_boundary(base, fetched, id)]),
        ),
    decreases fetched.len(),
{
    let nb = new_boundary(base, fetched, id);
    if fetched.len() == 0 {
    } else if !has_id(base, id, id(fetched[0])) {
    } else {
        lemma_new_boundary(base, fetched.skip(1), id);
        assert forall|j: int| 0 <= j < nb implies has_id(base, id, id(#[trigger] fetched[j])) by {
            if j > 0 {
                assert(fetched.skip(1)[j - 1] == fetched[j]);
            }
        }
        if nb < fetched.len() {
            assert(fetched.skip(1)[nb - 1] == fetched[nb]);
        }
    }
}

/// The boundary is the unique position with that characterisation.
pub proof fn lemma_new_boundary_is<T>(
    base: Seq<T>,
    fetched: Seq<T>,
    id: spec_fn(T) -> Option<Seq<char>>,
    k: int,
)
    requires
        0 <= k <= fetched.len(),
        forall|j: int| 0 <= j < k ==> has_id(base, id, id(#[trigger] fetched[j])),
        k < fetched.len() ==> !has_id(base, id, id(fetched[k])),
    ensures
        new_boundary(base, fetched, id) == k,
    decreases fetched.len(),
{
    if fetched.len() == 0 {
    } else if !has_id(base, id, id(fetched[0])) {
        if k > 0 {
            assert(has_id(base, id, id(fetched[0])));
        }
    } else {
        assert(k >= 1) by {
            if k == 0 {
                assert(!has_id(base, id, id(fetched[0])));
            }
        }
        assert forall|j: int| 0 <= j < k - 1 implies has_id(
            base,
            id,
            id(#[trigger] fetched.skip(1)[j]),
        ) by {
            assert(fetched.skip(1)[j] == fetched[j + 1]);
        }
        if k - 1 < fetched.skip(1).len() {
            assert(fetched.skip(1)[k - 1] == fetched[k]);
        }
        lemma_new_boundary_is(base, fetched.skip(1), id, k - 1);
    }
}

/// Merge idempotence: merging the very same page again, with the same token
/// presence, leaves the collection as it was. With a token this holds
/// unconditionally; without one it needs the cached collection to keep its
/// marker (if any) last and the page to carry no reserved identity.
pub proof fn lemma_merge_idempotent<T>(
    cached: Seq<T>,
    fetched: Seq<T>,
    id: spec_fn(T) -> Option<Seq<char>>,
    reserved: Seq<char>,
    marker: T,
    has_token: bool,
)
    requires
        id(marker) == Option::<Seq<char>>::Some(reserved),
        !has_token ==> marker_last_only(cached, id, reserved) && no_marker(fetched, id, reserved),
    ensures
        merge_page(
            merge_page(cached, fetched, id, reserved, marker, has_token),
            fetched,
            id,
            reserved,
            marker,
            has_token,
        ) == merge_page(cached, fetched, id, reserved, marker, has_token),
{
    let base = strip_marker(cached, id, reserved);
    let nb = new_boundary(base, fetched, id);
    lemma_new_boundary(base, fetched, id);
    let once = merge_page(cached, fetched, id, reserved, marker, has_token);
    let grown = base + fetched.skip(nb);
    if has_token {
        assert(once.last() == marker);
        assert(strip_marker(once, id, reserved) =~= grown);
    } else {
        if grown.len() > 0 {
            assert(!is_marker(id, reserved, grown.last())) by {
                if grown.len() <= base.len() {
                    assert(grown.last() == base[grown.len() - 1]);
                    if cached.len() > 0 && is_marker(id, reserved, cached.last()) {
                        assert(base[grown.len() - 1] == cached[grown.len() - 1]);
                    } else {
                        assert(base == cached);
                    }
                } else {
                    assert(grown.last() == fetched[fetched.len() - 1]);
                }
            }
        }
        assert(strip_marker(once, id, reserved) =~= grown);
    }
    let base2 = strip_marker(once, id, reserved);
    assert(base2 == grown);
    assert forall|j: int| 0 <= j < fetched.len() implies has_id(
        base2,
        id,
        id(#[trigger] fetched[j]),
    ) by {
        if j < nb {
            assert(has_id(base, id, id(fetched[j])));
            let w = choose|w: int| 0 <= w < base.len() && id(base[w]) == id(fetched[j]);
            assert(base2[w] == base[w]);
        } else {
            assert(base2[base.len() + (j - nb)] == fetched.skip(nb)[j - nb]);
            assert(fetched.skip(nb)[j - nb] == fetched[j]);
        }
    }
    lemma_new_boundary_is(base2, fetched, id, fetched.len() as int);
    assert(fetched.skip(fetched.len() as int) =~= Seq::<T>::empty());
    let twice = merge_page(once, fetched, id, reserved, marker, has_token);
    assert(base2 + fetched.skip(fetched.len() as int) =~= base2);
    if has_token {
        assert(twice =~= once);
    } else {
        assert(twice =~= once);
    }
}

/// Marker uniqueness: if the cached collection keeps its marker (if any)
/// last and the fetched page carries no reserved identity, then after a
/// merge with a token present exactly one marker row exists and it is last;
/// after a merge with no token, none exists. Either way the shape is kept,
/// so the law carries over any number of merges.
pub proof fn lemma_merge_marker<T>(
    cached: Seq<T>,
    fetched: Seq<T>,
    id: spec_fn(T) -> Option<Seq<char>>,
    reserved: Seq<char>,
    marker: T,
    has_token: bool,
)
    requires
        id(marker) == Option::<Seq<char>>::Some(reserved),
        marker_last_only(cached, id, reserved),
        no_marker(fetched, id, reserved),
    ensures
        marker_last_only(merge_page(cached, fetched, id, reserved, marker, has_token), id, reserved),
        has_token ==> {
            let r = merge_page(cached, fetched, id, reserved, marker, has_token);
            r.len() > 0 && is_marker(id, reserved, r.last())
        },
        !has_token ==> no_marker(merge_page(cached, fetched, id, reserved, marker, has_token), id, reserved),
{
    let base = strip_marker(cached, id, reserved);
    let nb = new_boundary(base, fetched, id);
    lemma_new_boundary(base, fetched, id);
    assert(no_marker(base, id, reserved)) by {
        if cached.len() > 0 && is_marker(id, reserved, cached.last()) {
            assert forall|i: int| 0 <= i < base.len() implies !is_marker(
                id,
                reserved,
                #[trigger] base[i],
            ) by {
                assert(base[i] == cached[i]);
            }
        } else {
            assert forall|i: int| 0 <= i < base.len() implies !is_marker(
                id,
                reserved,
                #[trigger] base[i],
            ) by {
                assert(base[i] == cached[i]);
                if i == cached.len() - 1 {
                    assert(cached[i] == cached.last());
                }
            }
        }
    }
    let grown = base + fetched.skip(nb);
    assert(no_marker(grown, id, reserved)) by {
        assert forall|i: int| 0 <= i < grown.len() implies !is_marker(
            id,
            reserved,
            #[trigger] grown[i],
        ) by {
            if i < base.len() {
                assert(grown[i] == base[i]);
            } else {
                assert(grown[i] == fetched.skip(nb)[i - base.len()]);
                assert(fetched.skip(nb)[i - base.len()] == fetched[nb + (i - base.len())]);
            }
        }
    }
    let r = merge_page(cached, fetched, id, reserved, marker, has_token);
    if has_token {
        assert(r == grown.push(marker));
        assert(r.last() == marker);
        assert forall|i: int| 0 <= i < r.len() - 1 implies !is_marker(
            id,
            reserved,
            #[trigger] r[i],
        ) by {
            assert(r[i] == grown[i]);
        }
    }
}

} // verus!
