//! Group-aware filtering of the option list.
//!
//! Filtering scans the option list in order. A non-header entry is kept
//! when the search predicate accepts it. A header is kept exactly when at
//! least one of the non-header entries that follow it, before the next
//! header, is kept, so that no header is ever emitted without a member
//! under it. Kept entries appear in their original order, each paired with
//! its index in the unfiltered list.

use vstd::prelude::*;

use crate::soption::SOption;
use crate::soption::SOptionV;

verus! {

/// `needle` occurs as a contiguous run of characters inside `hay`.
pub open spec fn contains_seq(hay: Seq<char>, needle: Seq<char>) -> bool {
    exists|i: int|
        0 <= i && i + needle.len() <= hay.len() && #[trigger] hay.subrange(i, i + needle.len())
            == needle
}

/// Lower-case folding as performed by `str::to_lowercase`; the result is a
/// function of the input characters alone.
pub uninterp spec fn lower_of(s: Seq<char>) -> Seq<char>;

/// Relies on `str::contains` with a `&str` pattern: true exactly when the
/// pattern's characters occur as a contiguous run in `hay`. (UTF-8 is
/// self-synchronising, so occurrence at the byte level and at the
/// character level agree.)
#[verifier::external_body]
fn str_contains(hay: &str, needle: &str) -> (r: bool)
    ensures
        r == contains_seq(hay@, needle@),
{
    hay.contains(needle)
}

/// Relies on `str::to_lowercase`: the returned string depends on the
/// characters of the input alone.
#[verifier::external_body]
fn lowercase(s: &str) -> (r: String)
    ensures
        r@ == lower_of(s@),
{
    s.to_lowercase()
}

/// A filtering predicate over options, as supplied to the select control.
///
/// `matches_spec` is the mathematical meaning of the predicate;
/// `matches` is its executable form, bound to agree with it.
pub trait FilterFn {
    /// What the predicate holds of, at the specification level.
    spec fn matches_spec(&self, search: Seq<char>, opt: SOptionV) -> bool;

    /// Whether `opt` is kept for the search string `search`.
    fn matches(&self, search: &str, opt: &SOption) -> (r: bool)
        ensures
            r == self.matches_spec(search@, opt@),
    ;
}

/// Case-insensitive substring filter: an option is kept when its
/// lower-cased title contains the lower-cased search string. This is the
/// default filter of the select control.
pub struct FilterICase;

impl FilterFn for FilterICase {
    open spec fn matches_spec(&self, search: Seq<char>, opt: SOptionV) -> bool {
        contains_seq(lower_of(opt.title), lower_of(search))
    }

    fn matches(&self, search: &str, opt: &SOption) -> (r: bool) {
        let title = lowercase(opt.title.as_str());
        let needle = lowercase(search);
        str_contains(title.as_str(), needle.as_str())
    }
}

/// Case-sensitive substring filter: an option is kept when its title
/// contains the search string as written.
pub struct FilterCase;

impl FilterFn for FilterCase {
    open spec fn matches_spec(&self, search: Seq<char>, opt: SOptionV) -> bool {
        contains_seq(opt.title, search)
    }

    fn matches(&self, search: &str, opt: &SOption) -> (r: bool) {
        str_contains(opt.title.as_str(), search)
    }
}

/// Filter that keeps every option, whatever the search string.
pub struct FilterAll;

impl FilterFn for FilterAll {
    open spec fn matches_spec(&self, search: Seq<char>, opt: SOptionV) -> bool {
        true
    }

    fn matches(&self, search: &str, opt: &SOption) -> (r: bool) {
        true
    }
}

/// The case-insensitive substring filter (the default).
pub fn filter_icase() -> FilterICase {
    FilterICase
}

/// The case-sensitive substring filter.
pub fn filter_case() -> FilterCase {
    FilterCase
}

/// The predicate of `filter` with the search string `search` applied.
pub open spec fn search_pred<F: FilterFn>(filter: F, search: Seq<char>) -> spec_fn(SOptionV) -> bool {
    |o: SOptionV| filter.matches_spec(search, o)
}

/// A header at `k` is kept when at least one non-header entry after it,
/// before the next header, satisfies the predicate.
pub open spec fn header_kept(opts: Seq<SOptionV>, p: spec_fn(SOptionV) -> bool, k: int) -> bool {
    exists|j: int|
        k < j < opts.len() && !(#[trigger] opts[j]).header && p(opts[j]) && (forall|m: int|
            k < m < j ==> !(#[trigger] opts[m]).header)
}

/// Whether the entry at `k` appears in the filtered view: a non-header
/// entry is kept when the predicate accepts it, a header when its group
/// has a kept member.
pub open spec fn entry_kept(opts: Seq<SOptionV>, p: spec_fn(SOptionV) -> bool, k: int) -> bool {
    if opts[k].header {
        header_kept(opts, p, k)
    } else {
        p(opts[k])
    }
}

/// The filtered view of the first `n` entries: every kept index below `n`,
/// in ascending order, paired with its entry. (Whether a header is kept is
/// still judged against the whole list.)
pub open spec fn filtered_prefix(
    opts: Seq<SOptionV>,
    p: spec_fn(SOptionV) -> bool,
    n: int,
) -> Seq<(usize, SOptionV)>
    decreases n,
{
    if n <= 0 {
        Seq::empty()
    } else {
        filtered_prefix(opts, p, n - 1) + if entry_kept(opts, p, n - 1) {
            seq![(((n - 1) as usize), opts[n - 1])]
        } else {
            Seq::empty()
        }
    }
}

/// The group-aware filtered view of the whole list.
pub open spec fn filter_by_group_spec(
    opts: Seq<SOptionV>,
    p: spec_fn(SOptionV) -> bool,
) -> Seq<(usize, SOptionV)> {
    filtered_prefix(opts, p, opts.len() as int)
}

/// The plain filtered view of the first `n` entries, ignoring group
/// structure: every index below `n` whose entry the predicate accepts, in
/// ascending order, paired with its entry.
pub open spec fn plain_filtered_prefix(
    opts: Seq<SOptionV>,
    p: spec_fn(SOptionV) -> bool,
    n: int,
) -> Seq<(usize, SOptionV)>
    decreases n,
{
    if n <= 0 {
        Seq::empty()
    } else {
        plain_filtered_prefix(opts, p, n - 1) + if p(opts[n - 1]) {
            seq![(((n - 1) as usize), opts[n - 1])]
        } else {
            Seq::empty()
        }
    }
}

/// The plain filtered view of the whole list.
pub open spec fn plain_filtered(
    opts: Seq<SOptionV>,
    p: spec_fn(SOptionV) -> bool,
) -> Seq<(usize, SOptionV)> {
    plain_filtered_prefix(opts, p, opts.len() as int)
}

/// Every element of the filtered view of the first `n` entries is a kept
/// entry of the list paired with its original index, and the original
/// indices are strictly ascending.
proof fn lemma_prefix_elems(opts: Seq<SOptionV>, p: spec_fn(SOptionV) -> bool, n: int)
    requires
        0 <= n <= opts.len(),
        opts.len() <= usize::MAX,
    ensures
        forall|t: int|
            0 <= t < filtered_prefix(opts, p, n).len() ==> {
                &&& 0 <= (#[trigger] filtered_prefix(opts, p, n)[t]).0 < n
                &&& filtered_prefix(opts, p, n)[t].1 == opts[filtered_prefix(opts, p, n)[t].0 as int]
                &&& entry_kept(opts, p, filtered_prefix(opts, p, n)[t].0 as int)
            },
        forall|a: int, b: int|
            0 <= a < b < filtered_prefix(opts, p, n).len() ==> (#[trigger] filtered_prefix(
                opts,
                p,
                n,
            )[a]).0 < (#[trigger] filtered_prefix(opts, p, n)[b]).0,
    decreases n,
{
    if n > 0 {
        lemma_prefix_elems(opts, p, n - 1);
        let prev = filtered_prefix(opts, p, n - 1);
        let cur = filtered_prefix(opts, p, n);
        assert forall|t: int| 0 <= t < cur.len() implies {
            &&& 0 <= (#[trigger] cur[t]).0 < n
            &&& cur[t].1 == opts[cur[t].0 as int]
            &&& entry_kept(opts, p, cur[t].0 as int)
        } by {
            if t < prev.len() {
                assert(cur[t] == prev[t]);
            } else {
                assert(cur[t] == (((n - 1) as usize), opts[n - 1]));
            }
        }
        assert forall|a: int, b: int| 0 <= a < b < cur.len() implies (#[trigger] cur[a]).0
            < (#[trigger] cur[b]).0 by {
            if b < prev.len() {
                assert(cur[a] == prev[a] && cur[b] == prev[b]);
            } else {
                assert(cur[b] == (((n - 1) as usize), opts[n - 1]));
                assert(cur[a] == prev[a]);
                assert(0 <= prev[a].0 < n - 1);
            }
        }
    }
}

/// A kept entry appears in the filtered view of every prefix that covers
/// it.
proof fn lemma_prefix_contains(opts: Seq<SOptionV>, p: spec_fn(SOptionV) -> bool, n: int, k: int)
    requires
        0 <= k < n <= opts.len(),
        opts.len() <= usize::MAX,
        entry_kept(opts, p, k),
    ensures
        filtered_prefix(opts, p, n).contains((((k as usize)), opts[k])),
    decreases n,
{
    if k == n - 1 {
        let s = filtered_prefix(opts, p, n);
        assert(s[s.len() - 1] == (((k as usize)), opts[k]));
    } else {
        lemma_prefix_contains(opts, p, n - 1, k);
        let s = filtered_prefix(opts, p, n - 1);
        let t = choose|t: int| 0 <= t < s.len() && s[t] == (((k as usize)), opts[k]);
        assert(filtered_prefix(opts, p, n)[t] == (((k as usize)), opts[k]));
    }
}

/// The filtered view holds exactly the kept entries of the list: each of
/// its elements is a kept entry paired with its original index, the
/// indices are strictly ascending, and every kept entry appears.
pub proof fn lemma_filter_by_group_membership(opts: Seq<SOptionV>, p: spec_fn(SOptionV) -> bool)
    requires
        opts.len() <= usize::MAX,
    ensures
        forall|t: int|
            0 <= t < filter_by_group_spec(opts, p).len() ==> {
                &&& 0 <= (#[trigger] filter_by_group_spec(opts, p)[t]).0 < opts.len()
                &&& filter_by_group_spec(opts, p)[t].1 == opts[filter_by_group_spec(opts, p)[t].0 as int]
                &&& entry_kept(opts, p, filter_by_group_spec(opts, p)[t].0 as int)
            },
        forall|a: int, b: int|
            0 <= a < b < filter_by_group_spec(opts, p).len() ==> (#[trigger] filter_by_group_spec(
                opts,
                p,
            )[a]).0 < (#[trigger] filter_by_group_spec(opts, p)[b]).0,
        forall|k: int|
            0 <= k < opts.len() && entry_kept(opts, p, k) ==> filter_by_group_spec(
                opts,
                p,
            ).contains((((k as usize)), opts[k])),
{
    lemma_prefix_elems(opts, p, opts.len() as int);
    assert forall|k: int| 0 <= k < opts.len() && entry_kept(opts, p, k) implies filter_by_group_spec(
        opts,
        p,
    ).contains((((k as usize)), opts[k])) by {
        lemma_prefix_contains(opts, p, opts.len() as int, k);
    }
}

proof fn lemma_prefix_len(opts: Seq<SOptionV>, p: spec_fn(SOptionV) -> bool, n: int)
    requires
        0 <= n,
    ensures
        filtered_prefix(opts, p, n).len() <= n,
    decreases n,
{
    if n > 0 {
        lemma_prefix_len(opts, p, n - 1);
    }
}

/// The filtered view is never longer than the list itself.
pub proof fn lemma_filter_by_group_len(opts: Seq<SOptionV>, p: spec_fn(SOptionV) -> bool)
    ensures
        filter_by_group_spec(opts, p).len() <= opts.len(),
{
    lemma_prefix_len(opts, p, opts.len() as int);
}

/// A header appears in the filtered view exactly when at least one
/// non-header entry after it, before the next header, matches the
/// predicate.
pub proof fn lemma_header_in_output(opts: Seq<SOptionV>, p: spec_fn(SOptionV) -> bool, k: int)
    requires
        0 <= k < opts.len(),
        opts.len() <= usize::MAX,
        opts[k].header,
    ensures
        filter_by_group_spec(opts, p).contains((((k as usize)), opts[k])) <==> header_kept(
            opts,
            p,
            k,
        ),
{
    lemma_filter_by_group_membership(opts, p);
    if header_kept(opts, p, k) {
        assert(entry_kept(opts, p, k));
        assert(filter_by_group_spec(opts, p).contains((((k as usize)), opts[k])));
    }
    if filter_by_group_spec(opts, p).contains((((k as usize)), opts[k])) {
        let s = filter_by_group_spec(opts, p);
        let t = choose|t: int| 0 <= t < s.len() && s[t] == (((k as usize)), opts[k]);
        assert(s[t].0 as int == k);
        assert(entry_kept(opts, p, s[t].0 as int));
        assert(header_kept(opts, p, k));
    }
}

/// With no headers in the list, group-aware filtering coincides with the
/// plain filtered list, in original order and with indices preserved.
pub proof fn lemma_no_headers_plain(opts: Seq<SOptionV>, p: spec_fn(SOptionV) -> bool)
    requires
        forall|k: int| 0 <= k < opts.len() ==> !(#[trigger] opts[k]).header,
    ensures
        filter_by_group_spec(opts, p) == plain_filtered(opts, p),
{
    lemma_no_headers_prefix(opts, p, opts.len() as int);
}

proof fn lemma_no_headers_prefix(opts: Seq<SOptionV>, p: spec_fn(SOptionV) -> bool, n: int)
    requires
        0 <= n <= opts.len(),
        forall|k: int| 0 <= k < opts.len() ==> !(#[trigger] opts[k]).header,
    ensures
        filtered_prefix(opts, p, n) == plain_filtered_prefix(opts, p, n),
    decreases n,
{
    if n > 0 {
        lemma_no_headers_prefix(opts, p, n - 1);
    }
}

/// Under a predicate that keeps everything, filtering returns the whole
/// list paired with its original indices, provided every header opens a
/// group with at least one member. (A header that is last in the list or
/// immediately followed by another header is dropped even then.)
pub proof fn lemma_filter_all_kept(opts: Seq<SOptionV>, p: spec_fn(SOptionV) -> bool)
    requires
        forall|o: SOptionV| #[trigger] p(o),
        forall|k: int|
            0 <= k < opts.len() && (#[trigger] opts[k]).header ==> k + 1 < opts.len() && !opts[k
                + 1].header,
        opts.len() <= usize::MAX,
    ensures
        filter_by_group_spec(opts, p) == Seq::new(opts.len(), |k: int| (((k as usize)), opts[k])),
{
    assert forall|k: int| 0 <= k < opts.len() implies entry_kept(opts, p, k) by {
        if opts[k].header {
            assert(!opts[k + 1].header && p(opts[k + 1]));
            assert(forall|m: int| k < m < k + 1 ==> !(#[trigger] opts[m]).header);
            assert(header_kept(opts, p, k));
        }
    }
    lemma_all_kept_prefix(opts, p, opts.len() as int);
}

proof fn lemma_all_kept_prefix(opts: Seq<SOptionV>, p: spec_fn(SOptionV) -> bool, n: int)
    requires
        0 <= n <= opts.len() <= usize::MAX,
        forall|k: int| 0 <= k < opts.len() ==> entry_kept(opts, p, k),
    ensures
        filtered_prefix(opts, p, n) == Seq::new(n as nat, |k: int| (((k as usize)), opts[k])),
    decreases n,
{
    if n > 0 {
        lemma_all_kept_prefix(opts, p, n - 1);
        assert(filtered_prefix(opts, p, n) =~= Seq::new(n as nat, |k: int| (((k as usize)), opts[k])));
    } else {
        assert(filtered_prefix(opts, p, n) =~= Seq::new(n as nat, |k: int| (((k as usize)), opts[k])));
    }
}

/// Whether the group opened by the header at `h` contains an entry that
/// the filter keeps.
fn group_has_match<F: FilterFn>(
    options: &Vec<SOption>,
    h: usize,
    search: &str,
    filter: &F,
) -> (r: bool)
    requires
        h < options.len(),
    ensures
        r == header_kept(options.deep_view(), search_pred(*filter, search@), h as int),
{
    let ghost opts = options.deep_view();
    let ghost p = search_pred(*filter, search@);
    let mut j: usize = h + 1;
    while j < options.len() && !options[j].header
        invariant
            h < j <= options.len(),
            opts == options.deep_view(),
            p == search_pred(*filter, search@),
            forall|m: int| h < m < j ==> !(#[trigger] opts[m]).header && !p(opts[m]),
        decreases options.len() - j,
    {
        if filter.matches(search, &options[j]) {
            proof {
                assert(!opts[j as int].header && p(opts[j as int]));
                assert(header_kept(opts, p, h as int));
            }
            return true;
        }
        j += 1;
    }
    proof {
        if header_kept(opts, p, h as int) {
            let jw = choose|jw: int|
                h < jw < opts.len() && !(#[trigger] opts[jw]).header && p(opts[jw]) && (forall|
                    m: int,
                |
                    h < m < jw ==> !(#[trigger] opts[m]).header);
            if jw < j {
                assert(!p(opts[jw]));
            } else {
                assert(j < opts.len() && opts[j as int].header);
                assert(h < (j as int) < jw ==> !opts[j as int].header);
            }
            assert(false);
        }
    }
    false
}

/// Filter the option list, keeping group structure: kept non-header
/// entries are those the filter accepts; a header is kept exactly when one
/// of the entries of its group is kept; everything stays in original
/// order, paired with its index in the unfiltered list.
pub fn filter_by_group<F: FilterFn>(
    options: &Vec<SOption>,
    search: &str,
    filter: &F,
) -> (result: Vec<(usize, SOption)>)
    ensures
        result.deep_view() == filter_by_group_spec(
            options.deep_view(),
            search_pred(*filter, search@),
        ),
{
    let ghost opts = options.deep_view();
    let ghost p = search_pred(*filter, search@);
    let mut result: Vec<(usize, SOption)> = Vec::new();
    let mut idx: usize = 0;
    while idx < options.len()
        invariant
            idx <= options.len(),
            opts == options.deep_view(),
            p == search_pred(*filter, search@),
            result.deep_view() == filtered_prefix(opts, p, idx as int),
        decreases options.len() - idx,
    {
        let ghost prev = result.deep_view();
        let keep = if options[idx].header {
            group_has_match(options, idx, search, filter)
        } else {
            filter.matches(search, &options[idx])
        };
        proof {
            assert(keep == entry_kept(opts, p, idx as int));
        }
        if keep {
            let entry = (idx, options[idx].clone());
            result.push(entry);
            proof {
                assert(result.deep_view() =~= prev + seq![(idx, opts[idx as int])]);
            }
        }
        idx += 1;
    }
    result
}

} // verus!
