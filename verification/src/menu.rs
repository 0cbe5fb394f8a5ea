//! The selection state of a drop-down list: which option is chosen and
//! whether the list is open.

use vstd::prelude::*;

verus! {

/// A drop-down list over a fixed, non-empty list of options.
pub struct Dropdown {
    is_open: bool,
    selected_index: usize,
    options: Vec<&'static str>,
}

/// The greatest index below `count` at which `hits` holds `true`, if there
/// is one.
pub open spec fn last_hit(hits: Seq<bool>, count: int) -> Option<int>
    decreases count,
{
    if count <= 0 {
        None
    } else if count <= hits.len() && hits[count - 1] {
        Some(count - 1)
    } else {
        last_hit(hits, count - 1)
    }
}

/// `last_hit` names a hit below `count` above which no index below `count`
/// is hit, or says that no index below `count` is hit.
pub proof fn lemma_last_hit(hits: Seq<bool>, count: int)
    ensures
        match last_hit(hits, count) {
            Some(index) => {
                &&& 0 <= index < count
                &&& index < hits.len()
                &&& hits[index]
                &&& forall|i: int| index < i < count && i < hits.len() ==> !hits[i]
            },
            None => forall|i: int| 0 <= i < count && i < hits.len() ==> !hits[i],
        },
    decreases count,
{
    if count > 0 {
        lemma_last_hit(hits, count - 1);
    }
}

impl Dropdown {
    /// The options, in the order in which they are listed.
    pub closed spec fn spec_options(&self) -> Seq<&'static str> {
        self.options@
    }

    /// The index of the chosen option.
    pub closed spec fn spec_selected_index(&self) -> usize {
        self.selected_index
    }

    /// Whether the list is open.
    pub closed spec fn spec_is_open(&self) -> bool {
        self.is_open
    }

    /// The chosen option is one of the options.
    pub open spec fn wf(&self) -> bool {
        self.spec_selected_index() < self.spec_options().len()
    }

    /// The entry that a press chooses: the last of the entries that were
    /// hit, if the list is open and an entry was hit.
    pub open spec fn chosen_by(&self, hits: Seq<bool>) -> Option<int> {
        if self.spec_is_open() {
            last_hit(hits, self.spec_options().len() as int)
        } else {
            None
        }
    }

    /// The index that is chosen after a press.
    pub open spec fn selected_after(&self, hits: Seq<bool>) -> int {
        match self.chosen_by(hits) {
            Some(index) => index,
            None => self.spec_selected_index() as int,
        }
    }

    /// Whether the list is open after a press: choosing an entry closes it,
    /// and a press on the button then opens a closed list and closes an open
    /// one.
    pub open spec fn open_after(&self, on_button: bool, hits: Seq<bool>) -> bool {
        let open = self.spec_is_open() && self.chosen_by(hits) is None;
        if on_button {
            !open
        } else {
            open
        }
    }

    /// A closed list over `options` with the first option chosen.
    pub fn new(options: Vec<&'static str>) -> (list: Dropdown)
        requires
            options@.len() > 0,
        ensures
            list.wf(),
            list.spec_options() == options@,
            list.spec_selected_index() == 0,
            !list.spec_is_open(),
    {
        Dropdown { is_open: false, selected_index: 0, options }
    }

    /// Whether the list is open.
    pub fn is_open(&self) -> (open: bool)
        ensures
            open == self.spec_is_open(),
    {
        self.is_open
    }

    /// The index of the chosen option.
    pub fn selected_index(&self) -> (index: usize)
        ensures
            index == self.spec_selected_index(),
    {
        self.selected_index
    }

    /// The number of options.
    pub fn option_count(&self) -> (count: usize)
        ensures
            count == self.spec_options().len(),
    {
        self.options.len()
    }

    /// The option with this index.
    pub fn option(&self, index: usize) -> (option: &'static str)
        requires
            index < self.spec_options().len(),
        ensures
            option == self.spec_options()[index as int],
    {
        self.options[index]
    }

    /// The chosen option.
    pub fn get_selected_option(&self) -> (option: &'static str)
        requires
            self.wf(),
        ensures
            option == self.spec_options()[self.spec_selected_index() as int],
    {
        self.options[self.selected_index]
    }

    /// Takes one press of the pointer's button. `on_button` says that the
    /// press was on the button that shows the chosen option; `hits` says for
    /// each entry of the list, by its index, whether the press was on it
    /// (an index that `hits` does not reach was not hit). While the list is
    /// open, the last entry that was hit becomes the chosen option and the
    /// list closes; a press on the button then flips the list between open
    /// and closed. The options stay as they are.
    pub fn click(&mut self, on_button: bool, hits: &Vec<bool>)
        requires
            old(self).wf(),
        ensures
            final(self).wf(),
            final(self).spec_options() == old(self).spec_options(),
            final(self).spec_selected_index() == old(self).selected_after(hits@),
            final(self).spec_is_open() == old(self).open_after(on_button, hits@),
    {
        if self.is_open {
            let count: usize = self.options.len();
            let mut index: usize = 0;
            let mut chosen: Option<usize> = None;
            while index < count
                invariant
                    index <= count,
                    match chosen {
                        Some(found) => last_hit(hits@, index as int) == Some(found as int),
                        None => last_hit(hits@, index as int) is None,
                    },
                decreases count - index,
            {
                if index < hits.len() && hits[index] {
                    chosen = Some(index);
                }
                index += 1;
            }
            proof {
                lemma_last_hit(hits@, count as int);
            }
            match chosen {
                Some(found) => {
                    self.selected_index = found;
                    self.is_open = false;
                },
                None => {},
            }
        }
        if on_button {
            self.is_open = !self.is_open;
        }
    }
}

} // verus!
