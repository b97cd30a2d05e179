use vstd::prelude::*;

verus! {

/// Selection after `next()` on a list of `len` items.
pub open spec fn next_index(sel: Option<usize>, len: nat) -> Option<usize> {
    if len == 0 {
        sel
    } else {
        match sel {
            None => Some(0),
            Some(i) => Some(if i + 1 >= len { 0 } else { (i + 1) as usize }),
        }
    }
}

/// Selection after `prev()` on a list of `len` items.
pub open spec fn prev_index(sel: Option<usize>, len: nat) -> Option<usize> {
    if len == 0 {
        sel
    } else {
        match sel {
            None => Some(0),
            Some(i) => Some(if i == 0 { (len - 1) as usize } else { (i - 1) as usize }),
        }
    }
}

/// Selection after `select(i)` on a list of `len` items.
pub open spec fn select_index(sel: Option<usize>, len: nat, i: usize) -> Option<usize> {
    if i < len {
        Some(i)
    } else {
        sel
    }
}

/// An ordered collection with an optional selected position.
#[derive(Debug, Clone)]
pub struct StatefulList<T> {
    pub selected: Option<usize>,
    pub items: Vec<T>,
}

impl<T> StatefulList<T> {
    /// The selection, if any, points at an item.
    pub open spec fn wf(&self) -> bool {
        match self.selected {
            Some(i) => i < self.items@.len(),
            None => true,
        }
    }

    /// `new` is `self` without its selected item, as `remove_selected` leaves it.
    pub open spec fn removed_selected(&self, new: StatefulList<T>) -> bool {
        match self.selected {
            None => new == *self,
            Some(i) => {
                &&& new.items@ == self.items@.remove(i as int)
                &&& new.selected == if new.items@.len() == 0 {
                    None
                } else {
                    prev_index(Some(i), new.items@.len())
                }
            },
        }
    }

    pub fn with_items(items: Vec<T>) -> (r: StatefulList<T>)
        ensures
            r.wf(),
            r.items@ == items@,
            r.selected is None,
    {
        StatefulList { selected: None, items }
    }

    /// Selects the following item, wrapping from the last to the first.
    pub fn next(&mut self)
        requires
            old(self).wf(),
        ensures
            final(self).wf(),
            final(self).items == old(self).items,
            final(self).selected == next_index(old(self).selected, old(self).items@.len()),
    {
        let i = match self.selected {
            Some(i) => {
                if i >= self.items.len() - 1 {
                    0
                } else {
                    i + 1
                }
            },
            None => 0,
        };
        if !self.items.is_empty() {
            self.selected = Some(i);
        }
    }

    /// Selects `i` when it points at an item; otherwise nothing changes.
    pub fn select(&mut self, i: usize)
        requires
            old(self).wf(),
        ensures
            final(self).wf(),
            final(self).items == old(self).items,
            final(self).selected == select_index(old(self).selected, old(self).items@.len(), i),
    {
        if !self.items.is_empty() && self.items.len() > i {
            self.selected = Some(i);
        }
    }

    /// Selects the last item, or clears the selection of an empty list.
    pub fn select_last(&mut self)
        requires
            old(self).wf(),
        ensures
            final(self).wf(),
            final(self).items == old(self).items,
            final(self).selected == if old(self).items@.len() == 0 {
                None
            } else {
                Some((old(self).items@.len() - 1) as usize)
            },
    {
        if self.items.is_empty() {
            self.unselect();
            return;
        }
        let i = self.items.len() - 1;
        self.selected = Some(i);
    }

    /// Selects the preceding item, wrapping from the first to the last.
    pub fn prev(&mut self)
        requires
            old(self).wf(),
        ensures
            final(self).wf(),
            final(self).items == old(self).items,
            final(self).selected == prev_index(old(self).selected, old(self).items@.len()),
    {
        let i = match self.selected {
            Some(i) => {
                if i == 0 {
                    self.items.len() - 1
                } else {
                    i - 1
                }
            },
            None => 0,
        };
        if !self.items.is_empty() {
            self.selected = Some(i);
        }
    }

    pub fn unselect(&mut self)
        ensures
            final(self).wf(),
            final(self).items == old(self).items,
            final(self).selected is None,
    {
        self.selected = None;
    }

    pub fn select_first(&mut self)
        requires
            old(self).wf(),
        ensures
            final(self).wf(),
            final(self).items == old(self).items,
            final(self).selected == if old(self).items@.len() == 0 {
                old(self).selected
            } else {
                Some(0usize)
            },
    {
        if !self.items.is_empty() {
            self.selected = Some(0);
        }
    }

    /// Removes the selected item, then selects the one before it (the last
    /// one when the first was removed), or nothing when the list is left empty.
    pub fn remove_selected(&mut self) -> (r: Option<T>)
        requires
            old(self).wf(),
        ensures
            final(self).wf(),
            old(self).removed_selected(*final(self)),
            r == match old(self).selected {
                None => None,
                Some(i) => Some(old(self).items@[i as int]),
            },
    {
        match self.selected {
            None => None,
            Some(i) => {
                let item = self.items.remove(i);
                if self.items.is_empty() {
                    self.unselect();
                } else {
                    self.selected = Some(if i == 0 { self.items.len() - 1 } else { i - 1 });
                }
                Some(item)
            },
        }
    }
}

} // verus!
