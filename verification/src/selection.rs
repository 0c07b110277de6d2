//! The list of results, the selection among them, and how far the list is
//! scrolled.

use vstd::prelude::*;

verus! {

/// What a list of results is: the items in the order in which the search
/// reported them, the index of the selected one, if any, and the index of
/// the first item in sight.
pub struct Listing<I> {
    pub items: Seq<I>,
    pub selected: Option<usize>,
    pub offset: usize,
}

impl<I> Listing<I> {
    /// Whether the selection, if there is one, points at an item.
    pub open spec fn wf(self) -> bool {
        self.selected matches Some(index) ==> index < self.items.len()
    }

    /// A fresh list of `items`: the first one is selected, if there is one,
    /// and the list is scrolled to its top.
    pub open spec fn of(items: Seq<I>) -> Self {
        Listing {
            items,
            selected: if items.len() > 0 {
                Some(0usize)
            } else {
                None
            },
            offset: 0,
        }
    }

    /// The list scrolled so that the item with the index `offset` is the
    /// first in sight.
    pub open spec fn scrolled(self, offset: usize) -> Self {
        Listing { offset, ..self }
    }

    /// The list with the selection one item up; from the first item it goes
    /// to the last. An empty list stays as it is, and no list is scrolled.
    pub open spec fn up(self) -> Self {
        if self.items.len() == 0 {
            self
        } else {
            Listing {
                items: self.items,
                offset: self.offset,
                selected: Some(
                    match self.selected {
                        Some(index) => if index == 0 {
                            (self.items.len() - 1) as usize
                        } else {
                            (index - 1) as usize
                        },
                        None => 0usize,
                    },
                ),
            }
        }
    }

    /// The list with the selection one item down; from the last item it goes
    /// to the first. An empty list stays as it is, and no list is scrolled.
    pub open spec fn down(self) -> Self {
        if self.items.len() == 0 {
            self
        } else {
            Listing {
                items: self.items,
                offset: self.offset,
                selected: Some(
                    match self.selected {
                        Some(index) => if index >= self.items.len() - 1 {
                            0usize
                        } else {
                            (index + 1) as usize
                        },
                        None => 0usize,
                    },
                ),
            }
        }
    }

    /// The index that the cursor stands on: that of the selected item, or
    /// zero where none is selected.
    pub open spec fn cursor(self) -> usize {
        match self.selected {
            Some(index) => index,
            None => 0,
        }
    }

    /// The selected item: none where nothing is selected, whatever the list
    /// holds.
    pub open spec fn current(self) -> Option<I> {
        match self.selected {
            Some(index) => if index < self.items.len() {
                Some(self.items[index as int])
            } else {
                None
            },
            None => None,
        }
    }
}

/// A fresh list is well formed, and moving the selection keeps a list so.
pub proof fn lemma_selection_stays_in_range<I>(list: Listing<I>, items: Seq<I>)
    requires
        list.wf(),
        list.items.len() <= usize::MAX,
    ensures
        Listing::of(items).wf(),
        list.up().wf(),
        list.down().wf(),
{
}

/// A fresh list has its first item selected, or none if it is empty; and
/// the selection wraps around: down from the last item is the first, up from
/// the first item is the last.
pub proof fn lemma_selection_wraps_around<I>(list: Listing<I>, items: Seq<I>)
    requires
        0 < list.items.len() <= usize::MAX,
    ensures
        items.len() > 0 ==> Listing::of(items).selected == Some(0usize),
        items.len() == 0 ==> Listing::of(items).selected is None,
        list.selected == Some((list.items.len() - 1) as usize) ==> list.down().selected == Some(
            0usize,
        ),
        list.selected == Some(0usize) ==> list.up().selected == Some(
            (list.items.len() - 1) as usize,
        ),
        list.up().items == list.items,
        list.down().items == list.items,
        list.up().offset == list.offset,
        list.down().offset == list.offset,
{
}

/// Nothing is selected means that there is no selected item, also in a list
/// that has items; and the selected item of a fresh list is its first.
pub proof fn lemma_no_selection_no_item<I>(list: Listing<I>, items: Seq<I>)
    ensures
        list.selected is None ==> list.current() is None,
        items.len() > 0 ==> Listing::of(items).current() == Some(items[0]),
        items.len() == 0 ==> Listing::of(items).current() is None,
{
}

/// Moving up and then down, or down and then up, comes back to the same
/// item.
pub proof fn lemma_up_and_down_cancel<I>(list: Listing<I>)
    requires
        list.wf(),
        list.selected is Some,
        list.items.len() <= usize::MAX,
    ensures
        list.up().down() == list,
        list.down().up() == list,
{
}

/// The results of the last search, and the selection among them.
#[derive(Debug)]
pub struct ResultList<I> {
    items: Vec<I>,
    selected: Option<usize>,
    offset: usize,
}

impl<I> View for ResultList<I> {
    type V = Listing<I>;

    closed spec fn view(&self) -> Listing<I> {
        Listing { items: self.items@, selected: self.selected, offset: self.offset }
    }
}

impl<I> ResultList<I> {
    #[verifier::type_invariant]
    spec fn selection_in_range(self) -> bool {
        self.selected matches Some(index) ==> index < self.items.len()
    }

    /// An empty list, with nothing selected.
    pub fn new() -> (list: Self)
        ensures
            list@ == Listing::of(Seq::<I>::empty()),
            list@.wf(),
    {
        ResultList { items: Vec::new(), selected: None, offset: 0 }
    }

    /// Swaps the list for `results`, selects the first of them and scrolls
    /// to the top; nothing is selected where there are none.
    pub fn replace(&mut self, results: Vec<I>)
        ensures
            final(self)@ == Listing::of(results@),
            final(self)@.wf(),
    {
        let selected = if results.len() > 0 {
            Some(0)
        } else {
            None
        };
        *self = ResultList { items: results, selected, offset: 0 };
    }

    /// Selects the item above the selected one, or the last item from the
    /// first. Nothing happens on an empty list.
    pub fn move_up(&mut self)
        ensures
            final(self)@ == old(self)@.up(),
            final(self)@.wf(),
    {
        proof {
            use_type_invariant(&*self);
        }
        let len = self.items.len();
        if len > 0 {
            self.selected = Some(
                match self.selected {
                    Some(index) => if index == 0 {
                        len - 1
                    } else {
                        index - 1
                    },
                    None => 0,
                },
            );
        }
    }

    /// Selects the item below the selected one, or the first item from the
    /// last. Nothing happens on an empty list.
    pub fn move_down(&mut self)
        ensures
            final(self)@ == old(self)@.down(),
            final(self)@.wf(),
    {
        proof {
            use_type_invariant(&*self);
        }
        let len = self.items.len();
        if len > 0 {
            self.selected = Some(
                match self.selected {
                    Some(index) => if index >= len - 1 {
                        0
                    } else {
                        index + 1
                    },
                    None => 0,
                },
            );
        }
    }

    /// Returns the index that the cursor stands on: that of the selected
    /// item, or zero where none is selected.
    pub fn cursor(&self) -> (cursor: usize)
        ensures
            cursor == self@.cursor(),
            self@.selected is None ==> cursor == 0,
            self@.items.len() > 0 ==> cursor < self@.items.len(),
    {
        proof {
            use_type_invariant(self);
        }
        match self.selected {
            Some(index) => index,
            None => 0,
        }
    }

    /// Returns the selected item, or none where nothing is selected.
    pub fn selected(&self) -> (item: Option<&I>)
        ensures
            match item {
                Some(item) => self@.current() == Some(*item),
                None => self@.current() is None,
            },
            item is Some <==> self@.selected is Some,
    {
        proof {
            use_type_invariant(self);
        }
        match self.selected {
            Some(index) => Some(&self.items[index]),
            None => None,
        }
    }

    /// Returns the index of the first item in sight.
    pub fn offset(&self) -> (offset: usize)
        ensures
            offset == self@.offset,
    {
        self.offset
    }

    /// Records that the list is scrolled so that the item with the index
    /// `offset` is the first in sight. The items and the selection stay.
    pub fn scroll_to(&mut self, offset: usize)
        ensures
            final(self)@ == old(self)@.scrolled(offset),
            final(self)@.wf(),
    {
        proof {
            use_type_invariant(&*self);
        }
        self.offset = offset;
    }

    /// Returns the index of the selected item, if one is selected.
    pub fn selected_index(&self) -> (index: Option<usize>)
        ensures
            index == self@.selected,
            self@.wf(),
    {
        proof {
            use_type_invariant(self);
        }
        self.selected
    }

    /// Returns the items, in the order in which the search reported them.
    pub fn items(&self) -> (items: &Vec<I>)
        ensures
            items@ == self@.items,
    {
        &self.items
    }

    /// Returns the number of items.
    pub fn len(&self) -> (len: usize)
        ensures
            len == self@.items.len(),
    {
        self.items.len()
    }
}

} // verus!
