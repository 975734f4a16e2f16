use vstd::prelude::*;

verus! {

/// The text of each string in a sequence of strings.
pub open spec fn names_of(v: Seq<String>) -> Seq<Seq<char>> {
    v.map_values(|s: String| s@)
}

/// What a selectable list holds: its entries, in order, and the selected position.
pub struct ListView {
    pub items: Seq<Seq<char>>,
    pub selected: Option<int>,
}

impl ListView {
    pub open spec fn empty() -> ListView {
        ListView { items: Seq::empty(), selected: None }
    }

    /// A list that has just received `items`: the first entry is selected, if there is one.
    pub open spec fn installed(items: Seq<Seq<char>>) -> ListView {
        ListView { items, selected: if items.len() > 0 { Some(0) } else { None } }
    }

    /// A selection, when present, points at an entry.
    pub open spec fn wf(self) -> bool {
        self.selected matches Some(i) ==> 0 <= i < self.items.len()
    }

    pub open spec fn with_selected(self, i: int) -> ListView {
        ListView { items: self.items, selected: Some(i) }
    }

    /// One step down, stopping at the last entry; with nothing selected, the first entry.
    pub open spec fn advanced(self) -> ListView {
        match self.selected {
            Some(i) => if i + 1 < self.items.len() {
                self.with_selected(i + 1)
            } else {
                self
            },
            None => if self.items.len() > 0 {
                self.with_selected(0)
            } else {
                self
            },
        }
    }

    /// One step up, stopping at the first entry; with nothing selected, the first entry.
    pub open spec fn retreated(self) -> ListView {
        match self.selected {
            Some(i) => if i > 0 {
                self.with_selected(i - 1)
            } else {
                self
            },
            None => if self.items.len() > 0 {
                self.with_selected(0)
            } else {
                self
            },
        }
    }

    /// The selected entry, if the selection points at one.
    pub open spec fn current(self) -> Option<Seq<char>> {
        match self.selected {
            Some(i) => if 0 <= i < self.items.len() {
                Some(self.items[i])
            } else {
                None
            },
            None => None,
        }
    }
}

/// An ordered list of names with at most one selected entry.
pub struct OptionList {
    pub items: Vec<String>,
    pub selection: Option<usize>,
}

impl View for OptionList {
    type V = ListView;

    open spec fn view(&self) -> ListView {
        ListView {
            items: names_of(self.items@),
            selected: match self.selection {
                Some(i) => Some(i as int),
                None => None,
            },
        }
    }
}

impl Default for OptionList {
    fn default() -> (r: Self)
        ensures
            r@ == ListView::empty(),
    {
        Self::new()
    }
}

impl OptionList {
    pub fn new() -> (r: OptionList)
        ensures
            r@ == ListView::empty(),
    {
        let r = OptionList { items: Vec::new(), selection: None };
        assert(r@.items =~= Seq::<Seq<char>>::empty());
        r
    }

    /// A list holding `items`, with the first one selected when there is one.
    pub fn from_items(items: Vec<String>) -> (r: OptionList)
        ensures
            r@ == ListView::installed(names_of(items@)),
    {
        let selection = if items.len() > 0 {
            Some(0)
        } else {
            None
        };
        OptionList { items, selection }
    }

    pub fn len(&self) -> (n: usize)
        ensures
            n == self@.items.len(),
    {
        self.items.len()
    }

    pub fn is_empty(&self) -> (b: bool)
        ensures
            b == (self@.items.len() == 0),
    {
        self.items.len() == 0
    }

    /// Moves the selection one entry down; tells whether it moved.
    pub fn next(&mut self) -> (changed: bool)
        requires
            old(self)@.wf(),
        ensures
            final(self)@ == old(self)@.advanced(),
            changed == (final(self)@.selected != old(self)@.selected),
    {
        match self.selection {
            Some(i) => {
                assert(self@.selected == Some(i as int));
                assert(i < self.items.len());
                if i + 1 < self.items.len() {
                    self.selection = Some(i + 1);
                    true
                } else {
                    false
                }
            },
            None => {
                if self.items.len() > 0 {
                    self.selection = Some(0);
                    true
                } else {
                    false
                }
            },
        }
    }

    /// Moves the selection one entry up; tells whether it moved.
    pub fn previous(&mut self) -> (changed: bool)
        requires
            old(self)@.wf(),
        ensures
            final(self)@ == old(self)@.retreated(),
            changed == (final(self)@.selected != old(self)@.selected),
    {
        match self.selection {
            Some(i) => {
                if i > 0 {
                    self.selection = Some(i - 1);
                    true
                } else {
                    false
                }
            },
            None => {
                if self.items.len() > 0 {
                    self.selection = Some(0);
                    true
                } else {
                    false
                }
            },
        }
    }

    pub fn unselect(&mut self)
        ensures
            final(self)@ == (ListView { items: old(self)@.items, selected: None }),
    {
        self.selection = None;
    }

    /// The selected entry, if any.
    pub fn selected(&self) -> (r: Option<&String>)
        ensures
            r matches Some(s) ==> self@.current() == Some(s@),
            r is None ==> (self@.current() is None),
    {
        match self.selection {
            Some(i) => {
                if i < self.items.len() {
                    Some(&self.items[i])
                } else {
                    None
                }
            },
            None => None,
        }
    }

    pub fn selected_index(&self) -> (r: Option<usize>)
        ensures
            r matches Some(i) ==> self@.selected == Some(i as int),
            r is None ==> (self@.selected is None),
    {
        self.selection
    }
}

/// Moving down from the last entry, or up from the first, leaves the list as it was.
pub proof fn lemma_clamped_at_ends(l: ListView)
    requires
        l.wf(),
    ensures
        l.items.len() > 0 && l.selected == Some(l.items.len() - 1) ==> l.advanced() == l,
        l.selected == Some(0int) ==> l.retreated() == l,
{
}

/// A list that receives entries selects the first; one that receives none selects nothing.
pub proof fn lemma_install_selects_first(items: Seq<Seq<char>>)
    ensures
        items.len() > 0 ==> ListView::installed(items).selected == Some(0int),
        items.len() == 0 ==> ListView::installed(items).selected is None,
        ListView::installed(items).wf(),
{
}

} // verus!
