//! Active-item navigation over the filtered view.
//!
//! Arrow-key navigation works on the selectable entries of the filtered
//! list: headers and disabled entries are skipped. Given the original-list
//! index of the currently highlighted entry, the navigator resolves the
//! current entry (the first selectable one at or after that index), its
//! selectable neighbours on either side, and the position of the current
//! entry within the filtered list itself.

use vstd::prelude::*;

use crate::soption::SOption;
use crate::soption::SOptionV;

verus! {

/// An entry of the filtered view is selectable when it is neither a
/// header nor disabled.
pub open spec fn is_selectable(e: (usize, SOptionV)) -> bool {
    !e.1.header && !e.1.disabled
}

/// The selectable subsequence of the filtered view, in order, original
/// indices preserved.
pub open spec fn selectable_of(fil: Seq<(usize, SOptionV)>) -> Seq<(usize, SOptionV)>
    decreases fil.len(),
{
    if fil.len() == 0 {
        Seq::empty()
    } else {
        selectable_of(fil.drop_last()) + if is_selectable(fil.last()) {
            seq![fil.last()]
        } else {
            Seq::empty()
        }
    }
}

/// Position of the first entry of `s`, at or after position `i`, whose
/// original index is at least `cur`.
pub open spec fn first_at_least(s: Seq<(usize, SOptionV)>, cur: usize, i: int) -> Option<int>
    decreases s.len() - i,
{
    if i < 0 || i >= s.len() {
        None
    } else if s[i].0 >= cur {
        Some(i)
    } else {
        first_at_least(s, cur, i + 1)
    }
}

/// Position of the first entry of `s`, at or after position `i`, whose
/// original index equals `v`.
pub open spec fn first_index_eq(s: Seq<(usize, SOptionV)>, v: usize, i: int) -> Option<int>
    decreases s.len() - i,
{
    if i < 0 || i >= s.len() {
        None
    } else if s[i].0 == v {
        Some(i)
    } else {
        first_index_eq(s, v, i + 1)
    }
}

/// The four outputs of [`get_actives`]: the original indices of the
/// previous, current and next selectable entries, and the position of the
/// current entry within the filtered view.
pub open spec fn actives_spec(fil: Seq<(usize, SOptionV)>, cur: usize) -> (
    Option<usize>,
    Option<usize>,
    Option<usize>,
    Option<usize>,
) {
    let sel = selectable_of(fil);
    match first_at_least(sel, cur, 0) {
        None => (None, None, None, None),
        Some(i) => (
            if i > 0 {
                Some(sel[i - 1].0)
            } else {
                None
            },
            Some(sel[i].0),
            if i + 1 < sel.len() {
                Some(sel[i + 1].0)
            } else {
                None
            },
            match first_index_eq(fil, sel[i].0, 0) {
                Some(t) => Some(t as usize),
                None => None,
            },
        ),
    }
}

/// Appending one entry to the scanned part of the list appends it to the
/// selectable subsequence exactly when it is selectable.
proof fn lemma_selectable_take_step(fil: Seq<(usize, SOptionV)>, i: int)
    requires
        0 <= i < fil.len(),
    ensures
        selectable_of(fil.take(i + 1)) == selectable_of(fil.take(i)) + if is_selectable(fil[i]) {
            seq![fil[i]]
        } else {
            Seq::empty()
        },
{
    assert(fil.take(i + 1).drop_last() =~= fil.take(i));
    assert(fil.take(i + 1).last() == fil[i]);
}

/// Every element of the selectable subsequence is a selectable element of
/// the filtered view.
pub proof fn lemma_selectable_elems(fil: Seq<(usize, SOptionV)>)
    ensures
        forall|t: int|
            0 <= t < selectable_of(fil).len() ==> is_selectable(
                #[trigger] selectable_of(fil)[t],
            ) && fil.contains(selectable_of(fil)[t]),
    decreases fil.len(),
{
    if fil.len() > 0 {
        lemma_selectable_elems(fil.drop_last());
        let prev = selectable_of(fil.drop_last());
        let cur = selectable_of(fil);
        assert forall|t: int| 0 <= t < cur.len() implies is_selectable(cur[t]) && fil.contains(
            cur[t],
        ) by {
            if t < prev.len() {
                assert(cur[t] == prev[t]);
                let w = choose|w: int|
                    0 <= w < fil.drop_last().len() && fil.drop_last()[w] == prev[t];
                assert(fil[w] == prev[t]);
            } else {
                assert(cur[t] == fil.last());
                assert(fil[fil.len() - 1] == fil.last());
            }
        }
    }
}

/// A found anchor position lies in range and its entry's original index
/// is at least `cur`.
pub proof fn lemma_first_at_least_range(s: Seq<(usize, SOptionV)>, cur: usize, j: int)
    ensures
        first_at_least(s, cur, j) matches Some(i) ==> j <= i < s.len() && s[i].0 >= cur,
    decreases s.len() - j,
{
    if 0 <= j < s.len() && s[j].0 < cur {
        lemma_first_at_least_range(s, cur, j + 1);
    }
}

/// A found position lies in range and its entry's original index equals
/// `v`.
pub proof fn lemma_first_index_eq_range(s: Seq<(usize, SOptionV)>, v: usize, j: int)
    ensures
        first_index_eq(s, v, j) matches Some(i) ==> j <= i < s.len() && s[i].0 == v,
    decreases s.len() - j,
{
    if 0 <= j < s.len() && s[j].0 != v {
        lemma_first_index_eq_range(s, v, j + 1);
    }
}

/// On an empty filtered view the navigator finds nothing, whatever the
/// current index.
pub proof fn lemma_actives_empty(cur: usize)
    ensures
        actives_spec(Seq::empty(), cur) == (
            None::<usize>,
            None::<usize>,
            None::<usize>,
            None::<usize>,
        ),
{
}

/// Neither a header nor a disabled entry is ever returned as previous,
/// current or next: each returned original index is the original index of
/// a selectable entry of the filtered view.
pub proof fn lemma_actives_selectable(fil: Seq<(usize, SOptionV)>, cur: usize)
    ensures
        ({
            let (prev, current, next, pos) = actives_spec(fil, cur);
            &&& (prev matches Some(i) ==> exists|t: int|
                0 <= t < fil.len() && (#[trigger] fil[t]).0 == i && is_selectable(fil[t]))
            &&& (current matches Some(i) ==> exists|t: int|
                0 <= t < fil.len() && (#[trigger] fil[t]).0 == i && is_selectable(fil[t]))
            &&& (next matches Some(i) ==> exists|t: int|
                0 <= t < fil.len() && (#[trigger] fil[t]).0 == i && is_selectable(fil[t]))
        }),
{
    let sel = selectable_of(fil);
    lemma_first_at_least_range(sel, cur, 0);
    match first_at_least(sel, cur, 0) {
        Option::None => {
        },
        Option::Some(i) => {
            lemma_selectable_witness(fil, i);
            if i > 0 {
                lemma_selectable_witness(fil, i - 1);
            }
            if i + 1 < sel.len() {
                lemma_selectable_witness(fil, i + 1);
            }
        },
    }
}

/// The entry at position `u` of the selectable subsequence stems from a
/// selectable entry of the filtered view with the same original index.
proof fn lemma_selectable_witness(fil: Seq<(usize, SOptionV)>, u: int)
    requires
        0 <= u < selectable_of(fil).len(),
    ensures
        exists|t: int|
            0 <= t < fil.len() && (#[trigger] fil[t]).0 == selectable_of(fil)[u].0
                && is_selectable(fil[t]),
{
    lemma_selectable_elems(fil);
    let w = choose|w: int| 0 <= w < fil.len() && fil[w] == selectable_of(fil)[u];
    assert(0 <= w < fil.len() && fil[w].0 == selectable_of(fil)[u].0 && is_selectable(fil[w]));
}

/// Resolve the active entry and its selectable neighbours.
///
/// `options` is a filtered view as produced by
/// [`crate::filter::filter_by_group`]: entries paired with their indices
/// in the unfiltered list. `current_index` is such an original-list
/// index. The result is `(prev, current, next, position)`, all original
/// indices except `position`, which is the place of the current entry
/// within `options` itself: `current` is the first selectable entry whose
/// original index is at least `current_index`, `prev` and `next` are its
/// immediate selectable neighbours, and each component is absent when no
/// such entry exists.
#[verifier::loop_isolation(false)]
#[verifier::rlimit(60)]
pub fn get_actives(options: &Vec<(usize, SOption)>, current_index: usize) -> (r: (
    Option<usize>,
    Option<usize>,
    Option<usize>,
    Option<usize>,
))
    ensures
        r == actives_spec(options.deep_view(), current_index),
        options.deep_view().len() == 0 ==> r == (
            None::<usize>,
            None::<usize>,
            None::<usize>,
            None::<usize>,
        ),
{
    let ghost fil = options.deep_view();
    let ghost sel = selectable_of(fil);

    let mut indexes: Vec<usize> = Vec::new();
    let mut i: usize = 0;
    while i < options.len()
        invariant
            i <= options.len(),
            indexes@.len() == selectable_of(fil.take(i as int)).len(),
            forall|t: int|
                0 <= t < indexes@.len() ==> indexes@[t] == selectable_of(fil.take(i as int))[t].0,
        decreases options.len() - i,
    {
        proof {
            lemma_selectable_take_step(fil, i as int);
        }
        let selectable = !options[i].1.header && !options[i].1.disabled;
        if selectable {
            indexes.push(options[i].0);
        }
        i += 1;
    }
    proof {
        assert(fil.take(fil.len() as int) =~= fil);
    }

    let mut j: usize = 0;
    while j < indexes.len() && indexes[j] < current_index
        invariant
            j <= indexes.len(),
            first_at_least(sel, current_index, 0) == first_at_least(sel, current_index, j as int),
        decreases indexes.len() - j,
    {
        j += 1;
    }

    if j >= indexes.len() {
        (None, None, None, None)
    } else {
        let current = indexes[j];
        proof {
            assert(first_at_least(sel, current_index, 0) == Some(j as int));
        }
        let prev = if j > 0 {
            Some(indexes[j - 1])
        } else {
            None
        };
        let next = if j + 1 < indexes.len() {
            Some(indexes[j + 1])
        } else {
            None
        };
        let mut t: usize = 0;
        while t < options.len() && options[t].0 != current
            invariant
                t <= options.len(),
                first_index_eq(fil, current, 0) == first_index_eq(fil, current, t as int),
            decreases options.len() - t,
        {
            t += 1;
        }
        let pos = if t < options.len() {
            Some(t)
        } else {
            None
        };
        (prev, Some(current), next, pos)
    }
}

} // verus!
