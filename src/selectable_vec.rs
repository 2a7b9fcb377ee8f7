use vstd::prelude::*;

verus! {

/// An ordered sequence with at most one selected element.
///
/// The selection is absent exactly when the sequence is empty; otherwise it
/// always designates an element of the sequence.
pub struct SelectableVec<T> {
    set: Vec<T>,
    selected_index: usize,
}

impl<T> SelectableVec<T> {
    /// The elements, in order.
    pub closed spec fn items(&self) -> Seq<T> {
        self.set@
    }

    /// The position of the selected element, if any.
    pub closed spec fn selected(&self) -> Option<nat> {
        if self.selected_index < self.set@.len() {
            Some(self.selected_index as nat)
        } else {
            None
        }
    }

    /// The selection, when present, lies inside the sequence, and it is
    /// present whenever the sequence is non-empty.
    pub closed spec fn wf(&self) -> bool {
        self.set@.len() > 0 ==> self.selected_index < self.set@.len()
    }

    /// What `replace` leaves behind: the new elements, with the first one
    /// selected when there is one.
    pub open spec fn reset_to(&self, items: Seq<T>) -> bool {
        &&& self.wf()
        &&& self.items() == items
        &&& self.selected() == if items.len() == 0 { None::<nat> } else { Some(0nat) }
    }

    /// A list holding `set`, with its first element selected.
    pub fn new(set: Vec<T>) -> (r: Self)
        ensures
            r.reset_to(set@),
    {
        SelectableVec { set, selected_index: 0 }
    }

    /// Swaps the whole contents; the selection moves to the first element,
    /// or disappears when `set` is empty.
    pub fn replace(&mut self, set: Vec<T>)
        ensures
            final(self).reset_to(set@),
    {
        self.set = set;
        self.selected_index = 0;
    }

    /// The number of elements.
    pub fn len(&self) -> (r: usize)
        ensures
            r == self.items().len(),
    {
        self.set.len()
    }

    /// The elements, in order.
    pub fn iter(&self) -> (r: &Vec<T>)
        ensures
            r@ == self.items(),
    {
        &self.set
    }

    /// The selected element, if any.
    pub fn selection(&self) -> (r: Option<&T>)
        ensures
            r == match self.selected() {
                Some(i) => Some(&self.items()[i as int]),
                None => None::<&T>,
            },
    {
        if self.selected_index < self.set.len() {
            Some(&self.set[self.selected_index])
        } else {
            None
        }
    }

    /// The position of the selected element, if any.
    pub fn selected_index(&self) -> (r: Option<usize>)
        ensures
            r == match self.selected() {
                Some(i) => Some(i as usize),
                None => None::<usize>,
            },
    {
        if self.selected_index < self.set.len() {
            Some(self.selected_index)
        } else {
            None
        }
    }

    /// Moves the selection one element down, staying on the last element.
    pub fn select_next(&mut self)
        ensures
            old(self).wf() ==> final(self).wf(),
            final(self).items() == old(self).items(),
            final(self).selected() == match old(self).selected() {
                Some(i) => if i + 1 < old(self).items().len() {
                    Some((i + 1) as nat)
                } else {
                    Some(i)
                },
                None => None::<nat>,
            },
    {
        if self.set.len() > 0 && self.selected_index < self.set.len() - 1 {
            self.selected_index = self.selected_index + 1;
        }
    }

    /// Moves the selection one element up, staying on the first element.
    pub fn select_previous(&mut self)
        ensures
            old(self).wf() ==> final(self).wf(),
            final(self).items() == old(self).items(),
            final(self).selected() == match old(self).selected() {
                Some(i) => if i > 0 {
                    Some((i - 1) as nat)
                } else {
                    Some(i)
                },
                None => None::<nat>,
            },
    {
        if self.selected_index > 0 && self.selected_index < self.set.len() {
            self.selected_index = self.selected_index - 1;
        }
    }
}

/// Whatever the moves, a selection stays inside `[0, len)`, and an empty list
/// never acquires one.
pub proof fn lemma_selection_in_bounds<T>(v: SelectableVec<T>)
    requires
        v.wf(),
    ensures
        v.selected() is Some ==> v.selected()->Some_0 < v.items().len(),
        v.items().len() == 0 <==> v.selected() is None,
{
}

} // verus!
