use vstd::prelude::*;

verus! {

/// Rows of chrome around the schema table: top border, header row, bottom
/// border. Subtracted from the viewport height to get the visible row count.
pub const TABLE_CHROME_ROWS: u16 = 3;

/// Focus model for the schema table: which row is focused, if any.
///
/// The focus is the single source of truth for the table view; the scroll
/// offset is derived from it on every redraw rather than stored separately.
/// The row count is passed at every call and never cached, so a stored focus
/// is always re-validated against the count the caller holds now.
pub struct ColumnsTableState {
    pub selected: Option<usize>,
}

/// The focus after one forward step among `len` rows: the next row, wrapping
/// past the last row to the first. A missing focus lands on the first row.
pub open spec fn focus_after_next(cur: Option<usize>, len: usize) -> usize
    recommends
        len > 0,
{
    match cur {
        Some(i) => if i + 1 >= len {
            0
        } else {
            (i + 1) as usize
        },
        None => 0,
    }
}

/// The focus after one backward step among `len` rows: the previous row,
/// wrapping from the first row to the last. A missing or out-of-range focus
/// lands where the original step rule puts it: the first row when none was
/// stored, the last row otherwise.
pub open spec fn focus_after_previous(cur: Option<usize>, len: usize) -> usize
    recommends
        len > 0,
{
    match cur {
        Some(i) => if i == 0 || i >= len {
            (len - 1) as usize
        } else {
            (i - 1) as usize
        },
        None => 0,
    }
}

/// The stored focus after an advance request among `len` rows: unchanged
/// when there are no rows, otherwise the wrapped next row.
pub open spec fn selected_after_next(cur: Option<usize>, len: usize) -> Option<usize> {
    if len == 0 {
        cur
    } else {
        Some(focus_after_next(cur, len))
    }
}

/// The stored focus after a retreat request among `len` rows: unchanged
/// when there are no rows, otherwise the wrapped previous row.
pub open spec fn selected_after_previous(cur: Option<usize>, len: usize) -> Option<usize> {
    if len == 0 {
        cur
    } else {
        Some(focus_after_previous(cur, len))
    }
}

/// The focus an accessor reports for a table of `row_count` rows: absent
/// exactly when the table is empty, otherwise the stored focus clamped into
/// range (a missing focus reads as the first row).
pub open spec fn validated_focus(cur: Option<usize>, row_count: usize) -> Option<usize> {
    if row_count == 0 {
        None
    } else {
        match cur {
            Some(i) => if i < row_count {
                Some(i)
            } else {
                Some((row_count - 1) as usize)
            },
            None => Some(0usize),
        }
    }
}

impl ColumnsTableState {
    /// A fresh model with the first row focused.
    pub fn new() -> (r: Self)
        ensures
            r.selected == Some(0usize),
    {
        ColumnsTableState { selected: Some(0) }
    }

    /// Move the focus one row forward among `len` rows, wrapping past the
    /// last row to the first. With no rows there is nothing to focus and the
    /// model is left unchanged.
    pub fn next(&mut self, len: usize)
        ensures
            final(self).selected == selected_after_next(old(self).selected, len),
            len > 0 ==> focus_after_next(old(self).selected, len) < len,
    {
        if len == 0 {
            return ;
        }
        let i: usize = match self.selected {
            Some(i) => if i >= len - 1 {
                0
            } else {
                i + 1
            },
            None => 0,
        };
        self.selected = Some(i);
    }

    /// Move the focus one row backward among `len` rows, wrapping from the
    /// first row to the last. With no rows there is nothing to focus and the
    /// model is left unchanged.
    pub fn previous(&mut self, len: usize)
        ensures
            final(self).selected == selected_after_previous(old(self).selected, len),
            len > 0 ==> focus_after_previous(old(self).selected, len) < len,
    {
        if len == 0 {
            return ;
        }
        let i: usize = match self.selected {
            Some(i) => if i == 0 || i >= len {
                len - 1
            } else {
                i - 1
            },
            None => 0,
        };
        self.selected = Some(i);
    }

    /// The focused row for a table of `row_count` rows, re-validated against
    /// the count passed now: `None` exactly when the table is empty, and
    /// always in range otherwise.
    pub fn focused_index(&self, row_count: usize) -> (r: Option<usize>)
        ensures
            r == validated_focus(self.selected, row_count),
            r is None <==> row_count == 0,
            r matches Some(i) ==> i < row_count,
    {
        if row_count == 0 {
            return None;
        }
        match self.selected {
            Some(i) => if i < row_count {
                Some(i)
            } else {
                Some(row_count - 1)
            },
            None => Some(0),
        }
    }
}

/// One step in either direction keeps the focus inside the row range: for any
/// stored focus and any positive row count, the landing row is in [0, len).
pub proof fn lemma_focus_in_range(cur: Option<usize>, len: usize)
    requires
        len > 0,
    ensures
        focus_after_next(cur, len) < len,
        focus_after_previous(cur, len) < len,
{
}

/// Advancing then retreating (or retreating then advancing) from any valid
/// focus returns to that focus, for any positive row count — including across
/// the wrap boundary.
pub proof fn lemma_focus_round_trip(i: usize, len: usize)
    requires
        len > 0,
        i < len,
    ensures
        focus_after_previous(Some(focus_after_next(Some(i), len)), len) == i,
        focus_after_next(Some(focus_after_previous(Some(i), len)), len) == i,
{
}

/// Scroll geometry for the schema table on one redraw, derived from the focus
/// and the viewport height the caller holds now.
pub struct ColumnsScroll {
    /// Rows that fit in the viewport once the chrome is taken out.
    pub visible_rows: usize,
    /// The largest scroll offset that still fills the window.
    pub max_scroll: usize,
    /// The scroll offset: the focused row, clamped so the window stays full.
    pub position: usize,
    /// Scrollbar content length, one past the largest offset.
    pub content_length: usize,
}

/// Rows visible in a viewport of the given height: the height minus the
/// chrome rows, floored at zero.
pub open spec fn visible_rows_of(viewport_height: u16) -> usize {
    if viewport_height >= TABLE_CHROME_ROWS {
        (viewport_height - TABLE_CHROME_ROWS) as usize
    } else {
        0
    }
}

/// The largest useful scroll offset: rows that do not fit, floored at zero.
pub open spec fn max_scroll_of(total_rows: usize, viewport_height: u16) -> usize {
    if total_rows >= visible_rows_of(viewport_height) {
        (total_rows - visible_rows_of(viewport_height)) as usize
    } else {
        0
    }
}

/// The derived scroll offset: the focused row (first row when none is
/// stored), clamped to the largest useful offset, so the focused row stays
/// within the visible window.
pub open spec fn scroll_position_of(cur: Option<usize>, total_rows: usize, viewport_height: u16) -> usize {
    let focus = match cur {
        Some(i) => i,
        None => 0usize,
    };
    if focus < max_scroll_of(total_rows, viewport_height) {
        focus
    } else {
        max_scroll_of(total_rows, viewport_height)
    }
}

impl ColumnsTableState {
    /// The scroll geometry for this redraw, derived from the focus: the
    /// focused row is kept within the visible window without storing any
    /// scroll state of its own.
    pub fn scroll(&self, total_rows: usize, viewport_height: u16) -> (r: ColumnsScroll)
        requires
            total_rows < usize::MAX,
        ensures
            r.visible_rows == visible_rows_of(viewport_height),
            r.max_scroll == max_scroll_of(total_rows, viewport_height),
            r.position == scroll_position_of(self.selected, total_rows, viewport_height),
            r.content_length == r.max_scroll + 1,
    {
        let visible_rows: usize = if viewport_height >= TABLE_CHROME_ROWS {
            (viewport_height - TABLE_CHROME_ROWS) as usize
        } else {
            0
        };
        let max_scroll: usize = if total_rows >= visible_rows {
            total_rows - visible_rows
        } else {
            0
        };
        let focus: usize = match self.selected {
            Some(i) => i,
            None => 0,
        };
        let position: usize = if focus < max_scroll {
            focus
        } else {
            max_scroll
        };
        ColumnsScroll { visible_rows, max_scroll, position, content_length: max_scroll + 1 }
    }
}

} // verus!
