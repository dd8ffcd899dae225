//! A list of items with a cursor that moves through it and wraps around
//! at both ends.

use vstd::prelude::*;

verus! {

/// The cursor of a list: the position that is selected, if any.
#[derive(Clone, Copy, Debug, PartialEq, Eq)]
pub struct ListState {
    selected: Option<usize>,
}

impl View for ListState {
    type V = Option<usize>;

    closed spec fn view(&self) -> Option<usize> {
        self.selected
    }
}

impl ListState {
    /// The selected position.
    pub fn selected(&self) -> (position: Option<usize>)
        ensures
            position == self@,
    {
        self.selected
    }

    /// Selects a position, or none.
    pub fn select(&mut self, index: Option<usize>)
        ensures
            final(self)@ == index,
    {
        self.selected = index;
    }
}

impl Default for ListState {
    fn default() -> (state: ListState)
        ensures
            state@ is None,
    {
        ListState { selected: None }
    }
}

/// Where the cursor stands after a step forward in a list of `len` items.
/// An empty list leaves it alone; with nothing selected it goes to the
/// first item; from the last item, or from beyond it, it wraps to the
/// first.
pub open spec fn next_selection(selected: Option<usize>, len: nat) -> Option<usize> {
    if len == 0 {
        selected
    } else {
        match selected {
            None => Some(0),
            Some(i) => if i >= len - 1 {
                Some(0)
            } else {
                Some((i + 1) as usize)
            },
        }
    }
}

/// Where the cursor stands after a step back in a list of `len` items.
/// An empty list leaves it alone; with nothing selected it goes to the
/// first item; from the first item it wraps to the last.
pub open spec fn previous_selection(selected: Option<usize>, len: nat) -> Option<usize> {
    if len == 0 {
        selected
    } else {
        match selected {
            None => Some(0),
            Some(i) => if i == 0 {
                Some((len - 1) as usize)
            } else {
                Some((i - 1) as usize)
            },
        }
    }
}

/// The cursor after `steps` steps forward.
pub open spec fn next_times(selected: Option<usize>, len: nat, steps: nat) -> Option<usize>
    decreases steps,
{
    if steps == 0 {
        selected
    } else {
        next_selection(next_times(selected, len, (steps - 1) as nat), len)
    }
}

/// Items with a cursor.
#[derive(Debug)]
pub struct StatefulList<T> {
    pub state: ListState,
    pub items: Vec<T>,
}

impl<T> StatefulList<T> {
    /// A list of the given items with nothing selected.
    pub fn with_items(items: Vec<T>) -> (list: StatefulList<T>)
        ensures
            list.items == items,
            list.state@ is None,
    {
        StatefulList { state: ListState::default(), items }
    }

    /// Moves the cursor one item forward, wrapping to the first item.
    pub fn next(&mut self)
        ensures
            final(self).items == old(self).items,
            final(self).state@ == next_selection(old(self).state@, old(self).items@.len()),
    {
        if self.items.len() == 0 {
            return ;
        }
        let i: usize = match self.state.selected() {
            Some(i) => {
                if i >= self.items.len() - 1 {
                    0
                } else {
                    i + 1
                }
            },
            None => 0,
        };
        self.state.select(Some(i));
    }

    /// Moves the cursor one item back, wrapping to the last item.
    pub fn previous(&mut self)
        ensures
            final(self).items == old(self).items,
            final(self).state@ == previous_selection(old(self).state@, old(self).items@.len()),
    {
        if self.items.len() == 0 {
            return ;
        }
        let i: usize = match self.state.selected() {
            Some(i) => {
                if i == 0 {
                    self.items.len() - 1
                } else {
                    i - 1
                }
            },
            None => 0,
        };
        self.state.select(Some(i));
    }

    /// Takes the cursor off the list.
    pub fn unselect(&mut self)
        ensures
            final(self).items == old(self).items,
            final(self).state@ is None,
    {
        self.state.select(None);
    }

    /// The item under the cursor: none where nothing is selected or the
    /// cursor stands beyond the end of the list.
    pub open spec fn selected_position(&self) -> Option<int> {
        match self.state@ {
            Some(i) => if i < self.items@.len() {
                Some(i as int)
            } else {
                None
            },
            None => None,
        }
    }

    /// The item under the cursor, if the cursor stands on one.
    pub fn selected_item(&self) -> (item: Option<&T>)
        ensures
            match item {
                Some(found) => self.selected_position() is Some && *found
                    == self.items@[self.selected_position().unwrap()],
                None => self.selected_position() is None,
            },
    {
        match self.state.selected() {
            Some(i) => {
                if i < self.items.len() {
                    Some(&self.items[i])
                } else {
                    None
                }
            },
            None => None,
        }
    }
}

impl<T: Clone> Clone for StatefulList<T> {
    fn clone(&self) -> (copy: Self)
        ensures
            copy.state == self.state,
            copy.items@.len() == self.items@.len(),
            forall|i: int| 0 <= i < self.items@.len() ==> cloned::<T>(self.items@[i], copy.items@[i]),
    {
        StatefulList { state: self.state, items: self.items.clone() }
    }
}

impl<T> Default for StatefulList<T> {
    fn default() -> (list: StatefulList<T>)
        ensures
            list.items@.len() == 0,
            list.state@ is None,
    {
        StatefulList { state: ListState::default(), items: Vec::new() }
    }
}

/// Stepping forward through a list that is not empty, from no selection,
/// visits the items in order and starts again at the first after the last:
/// after `steps` steps the cursor stands at `(steps - 1) mod len`.
pub proof fn lemma_next_cycles(len: nat, steps: nat)
    requires
        0 < len <= usize::MAX,
        steps > 0,
    ensures
        next_times(None, len, steps) == Some(((steps - 1) % (len as int)) as usize),
    decreases steps,
{
    if steps == 1 {
        assert(0int % (len as int) == 0);
    } else {
        lemma_next_cycles(len, (steps - 1) as nat);
        let before = (steps - 2) % (len as int);
        assert(0 <= before < len) by (nonlinear_arith)
            requires
                before == (steps - 2) % (len as int),
                len > 0,
        ;
        if before == len - 1 {
            assert((steps - 1) % (len as int) == 0) by (nonlinear_arith)
                requires
                    (steps - 2) % (len as int) == len - 1,
                    len > 0,
                    steps >= 2,
            ;
        } else {
            assert((steps - 1) % (len as int) == before + 1) by (nonlinear_arith)
                requires
                    (steps - 2) % (len as int) == before,
                    before < len - 1,
                    0 <= before,
                    len > 0,
                    steps >= 2,
            ;
        }
    }
}

/// In an empty list neither step moves the cursor.
pub proof fn lemma_empty_list_keeps_selection(selected: Option<usize>)
    ensures
        next_selection(selected, 0) == selected,
        previous_selection(selected, 0) == selected,
{
}

} // verus!
