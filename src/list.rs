//! The selectable list: a cursor with wrap-around moves, the remembered
//! selection, and the single slot for the item whose run is under way.

use vstd::prelude::*;
use vstd::arithmetic::div_mod::{lemma_fundamental_div_mod_converse, lemma_mod_pos_bound, lemma_mod_add_multiples_vanish};
use crate::catalog::{Release, ReleaseItem, Status, first_package_id};

verus! {

/// The rows of the list and the list's cursor state.
pub struct StatefulList {
    pub items: Vec<ReleaseItem>,
    /// The index under the cursor, if any.
    pub selected: Option<usize>,
    /// The cursor as it was when last cleared.
    pub last_selected: Option<usize>,
    /// The index of the item whose run is under way, if any.
    pub in_progress: Option<usize>,
}

/// `idx`, when present, indexes a list of `len` rows.
pub open spec fn index_in(idx: Option<usize>, len: nat) -> bool {
    match idx {
        Some(i) => i < len,
        None => true,
    }
}

/// `items` are the rows for `releases`, one each and in order, all idle.
pub open spec fn rows_of(items: Seq<ReleaseItem>, releases: Seq<Release>) -> bool {
    &&& items.len() == releases.len()
    &&& forall|i: int|
        0 <= i < releases.len() ==> {
            &&& (#[trigger] items[i]).tag_name@ == releases[i].tag_name@
            &&& items[i].body@ == releases[i].body@
            &&& items[i].asset_id == first_package_id(releases[i].assets@)
            &&& items[i].status == Status::Idle
        }
}

impl StatefulList {
    /// Indices stay inside the list, and an item is in progress exactly when
    /// the pending slot holds its index.
    pub open spec fn wf(&self) -> bool {
        &&& self.items@.len() <= usize::MAX
        &&& index_in(self.selected, self.items@.len())
        &&& index_in(self.last_selected, self.items@.len())
        &&& index_in(self.in_progress, self.items@.len())
        &&& forall|i: int|
            0 <= i < self.items@.len() ==> (#[trigger] self.items@[i].status == Status::InProgress
                <==> self.in_progress == Some(i as usize))
    }

    /// Where the cursor lands when nothing is selected.
    pub open spec fn resume_index(&self) -> usize {
        match self.last_selected {
            Some(j) => j,
            None => 0,
        }
    }

    /// The state after one move down.
    pub open spec fn next_state(self) -> StatefulList {
        if self.items@.len() == 0 {
            self
        } else {
            let i = match self.selected {
                Some(i) => if i + 1 >= self.items@.len() { 0 } else { (i + 1) as usize },
                None => self.resume_index(),
            };
            StatefulList { selected: Some(i), ..self }
        }
    }

    /// The state after one move up.
    pub open spec fn previous_state(self) -> StatefulList {
        if self.items@.len() == 0 {
            self
        } else {
            let i = match self.selected {
                Some(i) => if i == 0 { (self.items@.len() - 1) as usize } else { (i - 1) as usize },
                None => self.resume_index(),
            };
            StatefulList { selected: Some(i), ..self }
        }
    }

    /// The state after a jump to the first row.
    pub open spec fn top_state(self) -> StatefulList {
        if self.items@.len() == 0 {
            self
        } else {
            StatefulList { selected: Some(0usize), ..self }
        }
    }

    /// The state after a jump to the last row.
    pub open spec fn bottom_state(self) -> StatefulList {
        if self.items@.len() == 0 {
            self
        } else {
            StatefulList { selected: Some((self.items@.len() - 1) as usize), ..self }
        }
    }

    /// The state after clearing the cursor.
    pub open spec fn unselect_state(self) -> StatefulList {
        StatefulList { selected: None, last_selected: self.selected, ..self }
    }

    /// The state after `k` moves down.
    pub open spec fn next_times(self, k: nat) -> StatefulList
        decreases k,
    {
        if k == 0 {
            self
        } else {
            self.next_times((k - 1) as nat).next_state()
        }
    }

    /// One row per release, in order, none selected and none in progress.
    pub fn new(releases: &Vec<Release>) -> (r: StatefulList)
        ensures
            r.wf(),
            rows_of(r.items@, releases@),
            r.selected is None,
            r.last_selected is None,
            r.in_progress is None,
    {
        let mut items: Vec<ReleaseItem> = Vec::new();
        let mut k: usize = 0;
        while k < releases.len()
            invariant
                k <= releases@.len(),
                items@.len() == k,
                rows_of(items@, releases@.subrange(0, k as int)),
            decreases releases@.len() - k,
        {
            items.push(ReleaseItem::from(&releases[k]));
            k = k + 1;
        }
        assert(releases@.subrange(0, k as int) =~= releases@);
        StatefulList { items, selected: None, last_selected: None, in_progress: None }
    }

    /// Moves the cursor down, from the last row back to the first; with no
    /// cursor, resumes at the remembered selection or the first row. Does
    /// nothing on an empty list.
    pub fn next(&mut self)
        requires
            old(self).wf(),
        ensures
            final(self).wf(),
            *final(self) == old(self).next_state(),
    {
        let len = self.items.len();
        if len == 0 {
            return;
        }
        let i = match self.selected {
            Some(i) => if i >= len - 1 { 0 } else { i + 1 },
            None => match self.last_selected {
                Some(j) => j,
                None => 0,
            },
        };
        self.selected = Some(i);
    }

    /// Moves the cursor up, from the first row to the last; with no cursor,
    /// resumes at the remembered selection or the first row. Does nothing on
    /// an empty list.
    pub fn previous(&mut self)
        requires
            old(self).wf(),
        ensures
            final(self).wf(),
            *final(self) == old(self).previous_state(),
            old(self).selected matches Some(i) ==> final(self).selected == Some(
                if i == 0 { (old(self).items@.len() - 1) as usize } else { (i - 1) as usize },
            ),
    {
        let len = self.items.len();
        if len == 0 {
            return;
        }
        let i = match self.selected {
            Some(i) => if i == 0 { len - 1 } else { i - 1 },
            None => match self.last_selected {
                Some(j) => j,
                None => 0,
            },
        };
        self.selected = Some(i);
    }

    /// Clears the cursor, remembering where it was.
    pub fn unselect(&mut self)
        requires
            old(self).wf(),
        ensures
            final(self).wf(),
            *final(self) == old(self).unselect_state(),
    {
        self.last_selected = self.selected;
        self.selected = None;
    }

    /// Puts the cursor on the first row; does nothing on an empty list.
    pub fn go_top(&mut self)
        requires
            old(self).wf(),
        ensures
            final(self).wf(),
            *final(self) == old(self).top_state(),
    {
        if self.items.len() > 0 {
            self.selected = Some(0);
        }
    }

    /// Puts the cursor on the last row; does nothing on an empty list.
    pub fn go_bottom(&mut self)
        requires
            old(self).wf(),
        ensures
            final(self).wf(),
            *final(self) == old(self).bottom_state(),
    {
        let len = self.items.len();
        if len > 0 {
            self.selected = Some(len - 1);
        }
    }

    /// The row under the cursor, if any.
    pub fn current_item(&self) -> (r: Option<&ReleaseItem>)
        requires
            self.wf(),
        ensures
            match self.selected {
                Some(i) => r == Some(&self.items@[i as int]),
                None => r is None,
            },
    {
        match self.selected {
            Some(i) => Some(&self.items[i]),
            None => None,
        }
    }
}

/// Moving one step from position `a % n` lands on `(a + 1) % n`.
proof fn lemma_step_mod(a: int, n: int)
    requires
        0 <= a,
        0 < n,
    ensures
        (if a % n + 1 >= n { 0 } else { a % n + 1 }) == (a + 1) % n,
{
    lemma_mod_pos_bound(a, n);
    let q = a / n;
    let r = a % n;
    vstd::arithmetic::div_mod::lemma_fundamental_div_mod(a, n);
    if r + 1 >= n {
        assert(a + 1 == (q + 1) * n + 0) by (nonlinear_arith)
            requires
                a == n * q + r,
                r + 1 == n,
        ;
        lemma_fundamental_div_mod_converse(a + 1, n, q + 1, 0);
    } else {
        assert(a + 1 == q * n + (r + 1)) by (nonlinear_arith)
            requires
                a == n * q + r,
        ;
        lemma_fundamental_div_mod_converse(a + 1, n, q, r + 1);
    }
}

/// After `k` moves down from row `i`, the cursor is on row `(i + k) % len`
/// and nothing else has changed.
proof fn lemma_next_times(l: StatefulList, i: usize, k: nat)
    requires
        l.wf(),
        l.items@.len() > 0,
        l.selected == Some(i),
    ensures
        l.next_times(k) == (StatefulList {
            selected: Some(((i + k) % (l.items@.len() as int)) as usize),
            ..l
        }),
    decreases k,
{
    let n = l.items@.len() as int;
    if k == 0 {
        vstd::arithmetic::div_mod::lemma_small_mod(i as nat, n as nat);
    } else {
        lemma_next_times(l, i, (k - 1) as nat);
        lemma_step_mod(i + k - 1, n);
        lemma_mod_pos_bound(i + k - 1, n);
    }
}

/// Moving down as many times as there are rows brings the cursor back to
/// the row it started on.
pub proof fn lemma_next_cycles(l: StatefulList)
    requires
        l.wf(),
        l.items@.len() > 0,
        l.selected is Some,
    ensures
        l.next_times(l.items@.len()) == l,
{
    let i = l.selected->Some_0;
    let n = l.items@.len() as int;
    lemma_next_times(l, i, l.items@.len());
    lemma_mod_add_multiples_vanish(i as int, n);
    vstd::arithmetic::div_mod::lemma_small_mod(i as nat, n as nat);
}

/// Clearing the cursor and then moving down puts the cursor back on the row
/// that was selected.
pub proof fn lemma_unselect_then_next(l: StatefulList)
    requires
        l.wf(),
        l.selected is Some,
    ensures
        l.unselect_state().next_state().selected == l.selected,
{
}

/// In a well-formed list at most one item is in progress, and the pending
/// slot is set exactly when some item is.
pub proof fn lemma_single_in_progress(l: StatefulList)
    requires
        l.wf(),
    ensures
        forall|i: int, j: int|
            0 <= i < l.items@.len() && 0 <= j < l.items@.len()
                && #[trigger] l.items@[i].status == Status::InProgress
                && #[trigger] l.items@[j].status == Status::InProgress ==> i == j,
        l.in_progress is Some <==> exists|i: int|
            0 <= i < l.items@.len() && #[trigger] l.items@[i].status == Status::InProgress,
{
    if l.in_progress is Some {
        let i = l.in_progress->Some_0 as int;
        assert(l.items@[i].status == Status::InProgress);
    }
}

} // verus!
