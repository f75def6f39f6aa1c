//! The cached menu of log groups: the same identity-based pagination merge
//! as the event table, a name filter, and a wrapping cursor.
use vstd::prelude::*;
use vstd::string::StrSliceExecFns;
use vstd::string::StringExecFns;
use crate::merge::{
    has_id, is_marker, lemma_merge_idempotent, lemma_merge_marker, lemma_new_boundary_is,
    marker_last_only, merge_page, no_marker, strip_marker,
};
use crate::selection::ListState;
use crate::strutil::{
    clone_opt_string, contains_substring, opt_str_view, opt_string_eq, str_contains, strings_view,
};
use crate::utils::StatefulList;

verus! {

/// One log group: its unique ARN (the identity) and its display name.
#[derive(Debug, PartialEq)]
pub struct LogGroup {
    pub arn: Option<String>,
    pub log_group_name: Option<String>,
}

/// The mathematical reading of a log group.
pub struct LogGroupV {
    pub arn: Option<Seq<char>>,
    pub log_group_name: Option<Seq<char>>,
}

impl View for LogGroup {
    type V = LogGroupV;

    open spec fn view(&self) -> LogGroupV {
        LogGroupV {
            arn: opt_str_view(self.arn),
            log_group_name: opt_str_view(self.log_group_name),
        }
    }
}

impl Clone for LogGroup {
    /// A clone reads the same.
    fn clone(&self) -> (r: Self)
        ensures
            r@ == self@,
    {
        LogGroup {
            arn: clone_opt_string(&self.arn),
            log_group_name: clone_opt_string(&self.log_group_name),
        }
    }
}

impl Default for LogGroup {
    /// A fresh group has no identity and no name.
    fn default() -> (r: Self)
        ensures
            r@.arn.is_none(),
            r@.log_group_name.is_none(),
    {
        LogGroup { arn: None, log_group_name: None }
    }
}

/// The identity a group is de-duplicated by.
pub open spec fn group_id_fn() -> spec_fn(LogGroupV) -> Option<Seq<char>> {
    |g: LogGroupV| g.arn
}

/// The reserved identity of the trailing "more pages" marker row.
pub open spec fn group_reserved_id() -> Seq<char> {
    "more"@
}

/// The marker row itself.
pub open spec fn group_marker() -> LogGroupV {
    LogGroupV { arn: Option::Some("more"@), log_group_name: Option::Some("More..."@) }
}

/// The reading of a whole group vector.
pub open spec fn groups_view(items: Seq<LogGroup>) -> Seq<LogGroupV> {
    items.map_values(|g: LogGroup| g@)
}

/// The pagination merge, instantiated for log groups.
pub open spec fn group_merge(cached: Seq<LogGroupV>, fetched: Seq<LogGroupV>, has_token: bool) -> Seq<
    LogGroupV,
> {
    merge_page(cached, fetched, group_id_fn(), group_reserved_id(), group_marker(), has_token)
}

/// The visible labels: each group's name, in order, the unnamed and the
/// empty-named left out.
pub open spec fn group_labels(items: Seq<LogGroupV>) -> Seq<Seq<char>>
    decreases items.len(),
{
    if items.len() == 0 {
        Seq::empty()
    } else {
        let rest = group_labels(items.drop_last());
        match items.last().log_group_name {
            Option::Some(n) => if n.len() > 0 {
                rest.push(n)
            } else {
                rest
            },
            Option::None => rest,
        }
    }
}

/// The groups whose name contains the query, in order.
pub open spec fn filter_groups(items: Seq<LogGroupV>, q: Seq<char>) -> Seq<LogGroupV>
    decreases items.len(),
{
    if items.len() == 0 {
        Seq::empty()
    } else {
        let rest = filter_groups(items.drop_last(), q);
        match items.last().log_group_name {
            Option::Some(n) => if contains_substring(n, q) {
                rest.push(items.last())
            } else {
                rest
            },
            Option::None => rest,
        }
    }
}

/// Where the wrapping cursor lands from `sel` in a menu of `n > 0` rows:
/// one row down, going back to the top past the last row.
pub open spec fn wrapped_next(sel: Option<usize>, n: int) -> usize {
    match sel {
        Option::None => 0usize,
        Option::Some(i) => if i >= n - 1 {
            0usize
        } else {
            (i + 1) as usize
        },
    }
}

/// Where the wrapping cursor lands from `sel` one row up: to the bottom
/// past the first row.
pub open spec fn wrapped_previous(sel: Option<usize>, n: int) -> usize {
    match sel {
        Option::None => 0usize,
        Option::Some(i) => if i == 0 {
            (n - 1) as usize
        } else {
            (i - 1) as usize
        },
    }
}

/// The menu after one `next` step: the cursor moves one visible label
/// down, wrapping to the top; nothing moves without labels or a state.
pub open spec fn list_after_next(l: LogGroupMenuListV) -> LogGroupMenuListV {
    match l.state {
        Option::None => l,
        Option::Some(st) => {
            let n = group_labels(l.items).len() as int;
            if n == 0 {
                l
            } else {
                LogGroupMenuListV {
                    state: Option::Some(list_state_with(Option::Some(wrapped_next(st.selected, n)))),
                    ..l
                }
            }
        },
    }
}

/// The menu after one `previous` step: one visible label up, wrapping to
/// the bottom.
pub open spec fn list_after_previous(l: LogGroupMenuListV) -> LogGroupMenuListV {
    match l.state {
        Option::None => l,
        Option::Some(st) => {
            let n = group_labels(l.items).len() as int;
            if n == 0 {
                l
            } else {
                LogGroupMenuListV {
                    state: Option::Some(
                        list_state_with(Option::Some(wrapped_previous(st.selected, n))),
                    ),
                    ..l
                }
            }
        },
    }
}

/// Builds the marker row that stands for "more pages available".
fn more_group() -> (r: LogGroup)
    ensures
        r@ == group_marker(),
{
    LogGroup { arn: Some(String::from_str("more")), log_group_name: Some(String::from_str("More...")) }
}

/// The reading of the whole menu: its groups and its selection state.
pub struct LogGroupMenuListV {
    pub items: Seq<LogGroupV>,
    pub state: Option<ListState>,
}

/// A selection state that selects `sel`.
pub open spec fn list_state_with(sel: Option<usize>) -> ListState {
    ListState { selected: sel }
}

/// The cached, selectable menu of log groups.
#[derive(Debug)]
pub struct LogGroupMenuList {
    items: Vec<LogGroup>,
    state: Option<ListState>,
}

impl View for LogGroupMenuList {
    type V = LogGroupMenuListV;

    closed spec fn view(&self) -> LogGroupMenuListV {
        LogGroupMenuListV { items: groups_view(self.items@), state: self.state }
    }
}

impl LogGroupMenuList {
    /// A fresh menu over the given groups, selecting nothing.
    pub fn new(items: Vec<LogGroup>) -> (r: LogGroupMenuList)
        ensures
            r@.items == groups_view(items@),
            r@.state == Option::Some(list_state_with(Option::None)),
    {
        LogGroupMenuList { items, state: Some(ListState::default()) }
    }

    /// Replaces the groups, keeping the selection state.
    pub fn set_items(&mut self, items: Vec<LogGroup>)
        ensures
            final(self)@.items == groups_view(items@),
            final(self)@.state == old(self)@.state,
    {
        self.items = items;
    }

    /// How many groups are cached, the marker row included.
    pub fn len(&self) -> (r: usize)
        ensures
            r == self@.items.len(),
    {
        self.items.len()
    }

    /// Reads one cached group, or nothing when the index is out of range.
    pub fn get_item(&self, idx: usize) -> (r: Option<&LogGroup>)
        ensures
            match r {
                Option::Some(g) => idx < self@.items.len() && g@ == self@.items[idx as int],
                Option::None => idx >= self@.items.len(),
            },
    {
        if idx < self.items.len() {
            Some(&self.items[idx])
        } else {
            None
        }
    }

    /// The name of the group at `idx`, or nothing when the index is out of
    /// range or the group is unnamed.
    pub fn get_log_group_name(&self, idx: usize) -> (r: Option<String>)
        ensures
            opt_str_view(r) == (if (idx as int) < self@.items.len() {
                self@.items[idx as int].log_group_name
            } else {
                Option::<Seq<char>>::None
            }),
    {
        if idx < self.items.len() {
            clone_opt_string(&self.items[idx].log_group_name)
        } else {
            None
        }
    }

    /// A copy of the same groups under the given selection state.
    pub fn clone_with_state(&self, state: Option<ListState>) -> (r: Self)
        ensures
            r@.items == self@.items,
            r@.state == state,
    {
        let mut items: Vec<LogGroup> = Vec::new();
        let mut i: usize = 0;
        while i < self.items.len()
            invariant
                i <= self.items.len(),
                items@.len() == i,
                forall|j: int| 0 <= j < i ==> items@[j]@ == self.items@[j]@,
            decreases self.items.len() - i,
        {
            items.push(self.items[i].clone());
            i += 1;
        }
        proof {
            assert(groups_view(items@) =~= groups_view(self.items@));
        }
        Self { items, state }
    }

    /// Reads the selection state without borrowing the menu mutably, for
    /// read-only projections.
    pub fn current_state(&self) -> (r: Option<ListState>)
        ensures
            r == self@.state,
    {
        self.state
    }

    /// Whether the last cached row is the "more pages" marker.
    pub fn has_more_items(&self) -> (r: bool)
        ensures
            r == (self@.items.len() > 0 && is_marker(
                group_id_fn(),
                group_reserved_id(),
                self@.items.last(),
            )),
    {
        if self.items.len() > 0 {
            let marker_id = Some(String::from_str("more"));
            opt_string_eq(&self.items[self.items.len() - 1].arn, &marker_id)
        } else {
            false
        }
    }

    /// Some cached group already carries this identity.
    fn contains_id(&self, wanted: &Option<String>) -> (r: bool)
        ensures
            r == has_id(self@.items, group_id_fn(), opt_str_view(*wanted)),
    {
        let mut k: usize = 0;
        while k < self.items.len()
            invariant
                k <= self.items.len(),
                forall|j: int|
                    0 <= j < k ==> group_id_fn()(#[trigger] self@.items[j]) != opt_str_view(
                        *wanted,
                    ),
            decreases self.items.len() - k,
        {
            if opt_string_eq(&self.items[k].arn, wanted) {
                proof {
                    assert(group_id_fn()(self@.items[k as int]) == opt_str_view(*wanted));
                }
                return true;
            }
            k += 1;
        }
        false
    }

    /// Merges one fetched page of groups into the menu, as the event table
    /// does: drop a trailing marker row, append from the first genuinely
    /// new group onward, and append a fresh marker iff a token came along.
    pub fn push_items(&mut self, items: &Vec<LogGroup>, next_token: Option<&String>)
        ensures
            final(self)@.items == group_merge(
                old(self)@.items,
                groups_view(items@),
                next_token.is_some(),
            ),
            final(self)@.state == old(self)@.state,
    {
        let ghost cached = self@.items;
        if self.items.len() > 0 && self.has_more_items() {
            let l = self.items.len();
            self.items.remove(l - 1);
            proof {
                assert(groups_view(self.items@) =~= strip_marker(
                    cached,
                    group_id_fn(),
                    group_reserved_id(),
                ));
            }
        }
        let ghost base = groups_view(self.items@);
        proof {
            assert(base == strip_marker(cached, group_id_fn(), group_reserved_id()));
        }
        let fetched_len = items.len();
        let mut idx: usize = 0;
        let mut found_new = false;
        while idx < fetched_len && !found_new
            invariant
                fetched_len == items@.len(),
                idx <= fetched_len,
                base == groups_view(self.items@),
                self@.state == old(self)@.state,
                forall|j: int|
                    0 <= j < idx ==> has_id(
                        base,
                        group_id_fn(),
                        group_id_fn()(#[trigger] groups_view(items@)[j]),
                    ),
                found_new ==> idx < fetched_len && !has_id(
                    base,
                    group_id_fn(),
                    group_id_fn()(groups_view(items@)[idx as int]),
                ),
            decreases fetched_len - idx + (if found_new { 0int } else { 1int }),
        {
            if !self.contains_id(&items[idx].arn) {
                found_new = true;
            } else {
                idx += 1;
            }
        }
        proof {
            lemma_new_boundary_is(base, groups_view(items@), group_id_fn(), idx as int);
        }
        let ghost base_len = self.items@.len() as int;
        let mut j: usize = idx;
        while j < fetched_len
            invariant
                fetched_len == items@.len(),
                idx <= j <= fetched_len,
                base_len == base.len(),
                self@.state == old(self)@.state,
                self.items@.len() == base_len + (j - idx),
                forall|t: int| 0 <= t < base_len ==> (#[trigger] self.items@[t])@ == base[t],
                forall|t: int|
                    base_len <= t < self.items@.len() ==> (#[trigger] self.items@[t])@
                        == groups_view(items@)[idx + (t - base_len)],
            decreases fetched_len - j,
        {
            let g = items[j].clone();
            self.items.push(g);
            j += 1;
        }
        if next_token.is_some() {
            let m = more_group();
            self.items.push(m);
        }
        proof {
            let merged = group_merge(cached, groups_view(items@), next_token.is_some());
            assert(self@.items =~= merged);
        }
    }

    /// Removes the group at `idx`; out-of-range indices are left alone.
    pub fn delete_item(&mut self, idx: usize)
        ensures
            final(self)@.items == (if (idx as int) < old(self)@.items.len() {
                old(self)@.items.remove(idx as int)
            } else {
                old(self)@.items
            }),
            final(self)@.state == old(self)@.state,
    {
        if self.items.len() > idx {
            self.items.remove(idx);
            proof {
                assert(groups_view(self.items@) =~= old(self)@.items.remove(idx as int));
            }
        }
    }

    /// Keeps only the groups whose name contains the query.
    pub fn filter_items(&mut self, query: &str)
        ensures
            final(self)@.items == filter_groups(old(self)@.items, query@),
            final(self)@.state == old(self)@.state,
    {
        let ghost gv = self@.items;
        let mut kept: Vec<LogGroup> = Vec::new();
        let mut i: usize = 0;
        while i < self.items.len()
            invariant
                i <= self.items.len(),
                gv == groups_view(self.items@),
                groups_view(kept@) == filter_groups(gv.take(i as int), query@),
            decreases self.items.len() - i,
        {
            let keep = match &self.items[i].log_group_name {
                Some(n) => str_contains(n.as_str(), query),
                None => false,
            };
            if keep {
                kept.push(self.items[i].clone());
            }
            proof {
                assert(gv.take(i as int + 1).drop_last() =~= gv.take(i as int));
                assert(gv.take(i as int + 1).last() == gv[i as int]);
                assert(groups_view(kept@) =~= filter_groups(gv.take(i as int + 1), query@));
            }
            i += 1;
        }
        proof {
            assert(gv.take(self.items@.len() as int) =~= gv);
        }
        self.items = kept;
    }
}

impl StatefulList for LogGroupMenuList {
    /// The visible group names, in order, unnamed and empty-named left out.
    fn get_labels(&self) -> (r: Vec<String>)
        ensures
            strings_view(r@) == group_labels(self@.items),
    {
        let ghost gv = self@.items;
        let mut labels: Vec<String> = Vec::new();
        let mut i: usize = 0;
        while i < self.items.len()
            invariant
                i <= self.items.len(),
                gv == groups_view(self.items@),
                strings_view(labels@) == group_labels(gv.take(i as int)),
            decreases self.items.len() - i,
        {
            match &self.items[i].log_group_name {
                Some(n) => {
                    if !n.as_str().is_empty() {
                        labels.push(n.clone());
                    }
                },
                None => {},
            }
            proof {
                assert(gv.take(i as int + 1).drop_last() =~= gv.take(i as int));
                assert(gv.take(i as int + 1).last() == gv[i as int]);
                assert(strings_view(labels@) =~= group_labels(gv.take(i as int + 1)));
            }
            i += 1;
        }
        proof {
            assert(gv.take(self.items@.len() as int) =~= gv);
        }
        labels
    }

    /// Reads the selection state without touching the menu.
    fn get_state(&mut self) -> (r: Option<ListState>)
        ensures
            final(self)@ == old(self)@,
            r == old(self)@.state,
    {
        self.state
    }

    /// Replaces the selection state, keeping the groups.
    fn set_state(&mut self, new_state: ListState)
        ensures
            final(self)@.items == old(self)@.items,
            final(self)@.state == Option::Some(new_state),
    {
        self.state = Some(new_state);
    }

    /// One row down among the visible labels, wrapping back to the top past
    /// the last one. On an empty menu, or without a selection state,
    /// nothing moves.
    fn next(&mut self)
        ensures
            final(self)@ == list_after_next(old(self)@),
    {
        if let Some(state) = self.get_state() {
            let count = self.get_labels().len();
            if count > 0 {
                let mut st = state;
                let i = match st.selected() {
                    Some(i) => {
                        if i >= count - 1 {
                            0
                        } else {
                            i + 1
                        }
                    },
                    None => 0,
                };
                st.select(Some(i));
                self.set_state(st);
            }
        }
    }

    /// One row up among the visible labels, wrapping to the bottom past the
    /// first one.
    fn previous(&mut self)
        ensures
            final(self)@ == list_after_previous(old(self)@),
    {
        if let Some(state) = self.get_state() {
            let count = self.get_labels().len();
            if count > 0 {
                let mut st = state;
                let i = match st.selected() {
                    Some(i) => {
                        if i == 0 {
                            count - 1
                        } else {
                            i - 1
                        }
                    },
                    None => 0,
                };
                st.select(Some(i));
                self.set_state(st);
            }
        }
    }
}

/// Merge idempotence for the group menu, as for the event table.
pub proof fn lemma_group_merge_idempotent(
    cached: Seq<LogGroupV>,
    fetched: Seq<LogGroupV>,
    has_token: bool,
)
    requires
        !has_token ==> marker_last_only(cached, group_id_fn(), group_reserved_id()) && no_marker(
            fetched,
            group_id_fn(),
            group_reserved_id(),
        ),
    ensures
        group_merge(group_merge(cached, fetched, has_token), fetched, has_token) == group_merge(
            cached,
            fetched,
            has_token,
        ),
{
    lemma_merge_idempotent(
        cached,
        fetched,
        group_id_fn(),
        group_reserved_id(),
        group_marker(),
        has_token,
    );
}

/// Marker uniqueness for the group menu, as for the event table.
pub proof fn lemma_group_merge_marker(
    cached: Seq<LogGroupV>,
    fetched: Seq<LogGroupV>,
    has_token: bool,
)
    requires
        marker_last_only(cached, group_id_fn(), group_reserved_id()),
        no_marker(fetched, group_id_fn(), group_reserved_id()),
    ensures
        marker_last_only(group_merge(cached, fetched, has_token), group_id_fn(), group_reserved_id()),
        has_token ==> {
            let r = group_merge(cached, fetched, has_token);
            r.len() > 0 && is_marker(group_id_fn(), group_reserved_id(), r.last())
        },
        !has_token ==> no_marker(group_merge(cached, fetched, has_token), group_id_fn(), group_reserved_id()),
{
    lemma_merge_marker(
        cached,
        fetched,
        group_id_fn(),
        group_reserved_id(),
        group_marker(),
        has_token,
    );
}

} // verus!
