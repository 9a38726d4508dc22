use vstd::prelude::*;

verus! {

/// Which entry of an on-screen list is highlighted, if any.
#[derive(Clone, Copy, Debug, PartialEq, Eq, Structural)]
pub struct ListCursor {
    pub selected: Option<usize>,
}

impl ListCursor {
    /// A cursor on `selected`.
    pub fn new(selected: Option<usize>) -> (r: ListCursor)
        ensures
            r.selected == selected,
    {
        ListCursor { selected }
    }

    /// The highlighted entry.
    pub fn selected(&self) -> (r: Option<usize>)
        ensures
            r == self.selected,
    {
        self.selected
    }

    /// Highlights `index`, or nothing.
    pub fn select(&mut self, index: Option<usize>)
        ensures
            final(self).selected == index,
    {
        self.selected = index;
    }
}

/// The entry one further down than `selected`: the first when nothing is
/// selected.
pub fn get_next_index(list_state: &ListCursor) -> (r: Option<usize>)
    requires
        list_state.selected matches Some(i) ==> i < usize::MAX,
    ensures
        r == Some(
            match list_state.selected {
                Some(i) => (i + 1) as usize,
                None => 0usize,
            },
        ),
{
    let next_index = match list_state.selected() {
        Some(i) => i + 1,
        None => 0,
    };
    Some(next_index)
}

/// The entry one further up than `selected`, stopping at the first: the first
/// when nothing is selected.
pub fn get_previous_index(list_state: &ListCursor) -> (r: Option<usize>)
    ensures
        r == Some(
            match list_state.selected {
                Some(i) => if i == 0 { 0usize } else { (i - 1) as usize },
                None => 0usize,
            },
        ),
{
    let next_index = match list_state.selected() {
        Some(i) => i.saturating_sub(1),
        None => 0,
    };
    Some(next_index)
}

} // verus!
