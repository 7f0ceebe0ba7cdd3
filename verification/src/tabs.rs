use vstd::prelude::*;

verus! {

/// The three views of the inspector. Exactly one is active at any time, and
/// navigation moves over the fixed cycle Metadata -> Columns -> Map -> Metadata.
#[derive(Clone, Copy, PartialEq, Eq, Structural, Debug)]
pub enum SelectedTab {
    Metadata,
    Columns,
    MapView,
}

/// Cyclic successor of a tab over the fixed order.
pub open spec fn next_tab(t: SelectedTab) -> SelectedTab {
    match t {
        SelectedTab::Metadata => SelectedTab::Columns,
        SelectedTab::Columns => SelectedTab::MapView,
        SelectedTab::MapView => SelectedTab::Metadata,
    }
}

/// Cyclic predecessor of a tab over the fixed order.
pub open spec fn previous_tab(t: SelectedTab) -> SelectedTab {
    match t {
        SelectedTab::Metadata => SelectedTab::MapView,
        SelectedTab::Columns => SelectedTab::Metadata,
        SelectedTab::MapView => SelectedTab::Columns,
    }
}

/// Position of a tab in the fixed order, used to highlight the active title.
pub open spec fn tab_index(t: SelectedTab) -> int {
    match t {
        SelectedTab::Metadata => 0,
        SelectedTab::Columns => 1,
        SelectedTab::MapView => 2,
    }
}

impl SelectedTab {
    /// Move to the next tab, wrapping from Map back to Metadata.
    pub fn next(self) -> (r: Self)
        ensures
            r == next_tab(self),
    {
        match self {
            Self::Metadata => Self::Columns,
            Self::Columns => Self::MapView,
            Self::MapView => Self::Metadata,
        }
    }

    /// Move to the previous tab, wrapping from Metadata back to Map.
    pub fn previous(self) -> (r: Self)
        ensures
            r == previous_tab(self),
    {
        match self {
            Self::Metadata => Self::MapView,
            Self::Columns => Self::Metadata,
            Self::MapView => Self::Columns,
        }
    }

    /// The tab titles, in the fixed cycle order.
    pub fn titles() -> (r: Vec<&'static str>)
        ensures
            r@.len() == 3,
            r@[0]@ == "Metadata"@,
            r@[1]@ == "Columns"@,
            r@[2]@ == "Map"@,
    {
        let mut v: Vec<&'static str> = Vec::new();
        v.push("Metadata");
        v.push("Columns");
        v.push("Map");
        v
    }

    /// Position of this tab in the fixed order.
    pub fn index(self) -> (r: usize)
        ensures
            r == tab_index(self),
    {
        match self {
            Self::Metadata => 0,
            Self::Columns => 1,
            Self::MapView => 2,
        }
    }
}

/// The tab cycle is closed and total: three successor steps return to the
/// starting tab, and the predecessor is the exact inverse of the successor.
pub proof fn lemma_tab_cycle(t: SelectedTab)
    ensures
        next_tab(next_tab(next_tab(t))) == t,
        previous_tab(next_tab(t)) == t,
        next_tab(previous_tab(t)) == t,
{
}

} // verus!
