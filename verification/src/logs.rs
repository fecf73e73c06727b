//! The session log store: an ordered list of free-text entries plus an
//! optional selection.
//!
//! Invariant: the selection is `None` exactly when the list is empty, and
//! otherwise a valid index. Supported operations are append (selecting the
//! first entry when nothing was selected), overwrite of the selected entry,
//! delete with step-back reselection, and cyclic up/down navigation.

use vstd::prelude::*;

verus! {

/// Mathematical picture of the store: the entries as sequences of characters
/// and the selected index, if any.
#[verifier::ext_equal]
pub struct LogsView {
    pub entries: Seq<Seq<char>>,
    pub selected: Option<int>,
}

impl LogsView {
    /// Well-formedness: no selection exactly on an empty list, otherwise a
    /// valid index.
    pub open spec fn wf(self) -> bool {
        &&& (self.selected is None <==> self.entries.len() == 0)
        &&& (self.selected is Some ==> 0 <= self.selected->0 < self.entries.len())
    }

    /// Append `e` at the end; if nothing was selected, select the first entry.
    pub open spec fn append(self, e: Seq<char>) -> LogsView {
        LogsView {
            entries: self.entries.push(e),
            selected: if self.selected is None {
                Some(0int)
            } else {
                self.selected
            },
        }
    }

    /// Overwrite the selected entry with `e`; without a selection, no change.
    pub open spec fn overwrite_selected(self, e: Seq<char>) -> LogsView {
        if self.selected is Some {
            LogsView { entries: self.entries.update(self.selected->0, e), ..self }
        } else {
            self
        }
    }

    /// Remove the selected entry. The new selection steps back one position,
    /// clamped into the new valid range: `min(max(i - 1, 0), new_len - 1)`,
    /// or `None` when the list became empty. Without a selection, no change.
    pub open spec fn delete_selected(self) -> LogsView {
        if self.selected is Some {
            let i = self.selected->0;
            let rest = self.entries.remove(i);
            if rest.len() == 0 {
                LogsView { entries: rest, selected: None }
            } else {
                let back = if i - 1 > 0 {
                    i - 1
                } else {
                    0
                };
                let clamped = if back < rest.len() - 1 {
                    back
                } else {
                    rest.len() - 1
                };
                LogsView { entries: rest, selected: Some(clamped) }
            }
        } else {
            self
        }
    }

    /// Move the selection one step up, wrapping to the end:
    /// `(i - 1 + n) mod n`. Without a selection, no change.
    pub open spec fn select_up(self) -> LogsView {
        if self.selected is Some {
            let n = self.entries.len() as int;
            LogsView { selected: Some((self.selected->0 - 1 + n) % n), ..self }
        } else {
            self
        }
    }

    /// Move the selection one step down, wrapping to the start:
    /// `(i + 1) mod n`. Without a selection, no change.
    pub open spec fn select_down(self) -> LogsView {
        if self.selected is Some {
            let n = self.entries.len() as int;
            LogsView { selected: Some((self.selected->0 + 1) % n), ..self }
        } else {
            self
        }
    }
}

/// The executable store.
pub struct SessionLogs {
    entries: Vec<String>,
    selected: Option<usize>,
}

impl View for SessionLogs {
    type V = LogsView;

    closed spec fn view(&self) -> LogsView {
        LogsView {
            entries: self.entries.deep_view(),
            selected: match self.selected {
                Some(i) => Some(i as int),
                None => None,
            },
        }
    }
}

impl SessionLogs {
    /// The empty store.
    pub fn new() -> (r: Self)
        ensures
            r@ =~= (LogsView { entries: Seq::empty(), selected: None }),
            r@.wf(),
    {
        SessionLogs { entries: Vec::new(), selected: None }
    }

    /// Append `e` at the end; if nothing was selected, select the first entry.
    pub fn append(&mut self, e: String)
        requires
            old(self)@.wf(),
        ensures
            final(self)@ =~= old(self)@.append(e@),
            final(self)@.wf(),
    {
        self.entries.push(e);
        if self.selected.is_none() {
            self.selected = Some(0);
        }
        proof {
            assert(self@.entries =~= old(self)@.entries.push(e@));
        }
    }

    /// Overwrite the selected entry with `e`; without a selection, no change.
    pub fn edit_selected(&mut self, e: String)
        requires
            old(self)@.wf(),
        ensures
            final(self)@ =~= old(self)@.overwrite_selected(e@),
            final(self)@.wf(),
    {
        if let Some(i) = self.selected {
            self.entries[i] = e;
            proof {
                assert(self@.entries =~= old(self)@.entries.update(i as int, e@));
            }
        }
    }

    /// Remove the selected entry and reselect by stepping back one position,
    /// clamped into the new range; without a selection, no change.
    pub fn delete_selected(&mut self)
        requires
            old(self)@.wf(),
        ensures
            final(self)@ =~= old(self)@.delete_selected(),
            final(self)@.wf(),
    {
        if let Some(i) = self.selected {
            self.entries.remove(i);
            if self.entries.is_empty() {
                self.selected = None;
            } else {
                let back = if i >= 1 {
                    i - 1
                } else {
                    0
                };
                let last = self.entries.len() - 1;
                self.selected = Some(if back < last {
                    back
                } else {
                    last
                });
            }
            proof {
                assert(self@.entries =~= old(self)@.entries.remove(i as int));
            }
        }
    }

    /// Move the selection one step up, cyclically.
    pub fn select_up(&mut self)
        requires
            old(self)@.wf(),
        ensures
            final(self)@ =~= old(self)@.select_up(),
            final(self)@.wf(),
    {
        if let Some(i) = self.selected {
            let n = self.entries.len();
            let up = if i == 0 {
                n - 1
            } else {
                i - 1
            };
            proof {
                let ni = n as int;
                if i == 0 {
                    vstd::arithmetic::div_mod::lemma_small_mod((ni - 1) as nat, n as nat);
                } else {
                    vstd::arithmetic::div_mod::lemma_mod_add_multiples_vanish(i - 1, ni);
                    vstd::arithmetic::div_mod::lemma_small_mod((i - 1) as nat, n as nat);
                }
            }
            self.selected = Some(up);
        }
    }

    /// Move the selection one step down, cyclically.
    pub fn select_down(&mut self)
        requires
            old(self)@.wf(),
        ensures
            final(self)@ =~= old(self)@.select_down(),
            final(self)@.wf(),
    {
        if let Some(i) = self.selected {
            let n = self.entries.len();
            let down = if i + 1 >= n {
                0
            } else {
                i + 1
            };
            proof {
                let ni = n as int;
                if i + 1 == n {
                    vstd::arithmetic::div_mod::lemma_mod_self_0(ni);
                } else {
                    vstd::arithmetic::div_mod::lemma_small_mod((i + 1) as nat, n as nat);
                }
            }
            self.selected = Some(down);
        }
    }

    /// How many entries the store holds.
    pub fn len(&self) -> (n: usize)
        ensures
            n == self@.entries.len(),
    {
        self.entries.len()
    }

    /// The selected index, if any.
    pub fn selected_index(&self) -> (r: Option<usize>)
        ensures
            r is Some <==> self@.selected is Some,
            r is Some ==> r->0 as int == self@.selected->0,
    {
        self.selected
    }

    /// The entry at index `i`.
    pub fn entry_at(&self, i: usize) -> (r: &String)
        requires
            i < self@.entries.len(),
        ensures
            r@ == self@.entries[i as int],
    {
        &self.entries[i]
    }

    /// All entries, in order.
    pub fn entries(&self) -> (r: &Vec<String>)
        ensures
            r.deep_view() == self@.entries,
    {
        &self.entries
    }
}

/// Appending an entry `x` and then, with the selection on that entry,
/// confirming an edit with text `y` yields a store whose length is unchanged
/// from the post-append store and whose selected entry is `y`.
pub proof fn lemma_append_then_edit(v: LogsView, x: Seq<char>, y: Seq<char>)
    requires
        v.wf(),
    ensures
        ({
            let appended = v.append(x);
            let picked = LogsView {
                entries: appended.entries,
                selected: Some(appended.entries.len() - 1),
            };
            let edited = picked.overwrite_selected(y);
            &&& picked.wf()
            &&& edited.wf()
            &&& edited.entries.len() == appended.entries.len()
            &&& edited.selected == picked.selected
            &&& edited.entries[edited.selected->0] == y
        }),
{
}

} // verus!
