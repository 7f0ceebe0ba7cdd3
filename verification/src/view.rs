use vstd::prelude::*;
use vstd::string::StringExecFns;
use crate::columns::ColumnsTableState;
use crate::columns::selected_after_next;
use crate::columns::selected_after_previous;
use crate::header::CrsRecord;
use crate::header::crs_identifier;
use crate::metadata::MetadataScroll;
use crate::metadata::offset_after_down;
use crate::metadata::offset_after_up;
use crate::projection::Bbox;
use crate::projection::ReprojectionError;
use crate::projection::TransformOutcome;
use crate::projection::already_label;
use crate::projection::display_crs;
use crate::projection::projected_label;
use crate::projection::ratatui_map_crs;
use crate::tabs::SelectedTab;
use crate::tabs::next_tab;
use crate::tabs::previous_tab;

verus! {

/// A key press, reduced to the identities the session reacts to.
#[derive(Clone, Copy, PartialEq, Eq, Structural, Debug)]
pub enum KeyInput {
    Left,
    Right,
    Up,
    Down,
    Esc,
    Char(char),
    Other,
}

/// The mutable view state of one interactive session: the active tab and
/// the two models that carry scroll or focus state. The Map tab holds no
/// state of its own. Exactly one model (or the active tab) changes per
/// event, and the caller redraws unconditionally after every handled event.
pub struct ViewState {
    pub tab: SelectedTab,
    pub metadata_scroll: MetadataScroll,
    pub columns_table: ColumnsTableState,
}

/// Whether a key press ends the session: escape, the quit letters, or the
/// interrupt chord.
pub open spec fn quits(key: KeyInput, ctrl: bool) -> bool {
    key == KeyInput::Esc || key == KeyInput::Char('q') || key == KeyInput::Char('Q') || (ctrl
        && key == KeyInput::Char('c'))
}

/// The view state after one key press: tab changes on the arrows, scroll and
/// focus events go to the model owned by the active tab, everything else —
/// including any event on the stateless Map tab — leaves the state as it is.
pub open spec fn state_after(
    s: ViewState,
    key: KeyInput,
    ctrl: bool,
    column_count: usize,
) -> ViewState {
    if quits(key, ctrl) {
        s
    } else {
        match key {
            KeyInput::Right => ViewState { tab: next_tab(s.tab), ..s },
            KeyInput::Left => ViewState { tab: previous_tab(s.tab), ..s },
            KeyInput::Down | KeyInput::Char('j') => match s.tab {
                SelectedTab::Metadata => ViewState {
                    metadata_scroll: MetadataScroll {
                        offset: offset_after_down(s.metadata_scroll.offset),
                    },
                    ..s
                },
                SelectedTab::Columns => ViewState {
                    columns_table: ColumnsTableState {
                        selected: selected_after_next(s.columns_table.selected, column_count),
                    },
                    ..s
                },
                SelectedTab::MapView => s,
            },
            KeyInput::Up | KeyInput::Char('k') => match s.tab {
                SelectedTab::Metadata => ViewState {
                    metadata_scroll: MetadataScroll {
                        offset: offset_after_up(s.metadata_scroll.offset),
                    },
                    ..s
                },
                SelectedTab::Columns => ViewState {
                    columns_table: ColumnsTableState {
                        selected: selected_after_previous(s.columns_table.selected, column_count),
                    },
                    ..s
                },
                SelectedTab::MapView => s,
            },
            _ => s,
        }
    }
}

impl ViewState {
    /// The state a session starts in: the Metadata tab, the metadata view at
    /// the top, the first schema row focused.
    pub fn new() -> (r: Self)
        ensures
            r.tab == SelectedTab::Metadata,
            r.metadata_scroll.offset == 0,
            r.columns_table.selected == Some(0usize),
    {
        ViewState {
            tab: SelectedTab::Metadata,
            metadata_scroll: MetadataScroll::new(),
            columns_table: ColumnsTableState::new(),
        }
    }

    /// Route one key press: returns whether the session ends, and otherwise
    /// mutates at most one model or the active tab, exactly as `state_after`
    /// describes. `column_count` is the schema row count the caller holds.
    pub fn handle_key(&mut self, key: KeyInput, ctrl: bool, column_count: usize) -> (quit: bool)
        ensures
            quit == quits(key, ctrl),
            *final(self) == state_after(*old(self), key, ctrl, column_count),
    {
        match key {
            KeyInput::Right => {
                self.tab = self.tab.next();
                false
            },
            KeyInput::Left => {
                self.tab = self.tab.previous();
                false
            },
            KeyInput::Esc => true,
            KeyInput::Char(c) => {
                if c == 'q' || c == 'Q' || (ctrl && c == 'c') {
                    true
                } else {
                    if c == 'j' {
                        self.step_down(column_count);
                    } else if c == 'k' {
                        self.step_up(column_count);
                    }
                    false
                }
            },
            KeyInput::Down => {
                self.step_down(column_count);
                false
            },
            KeyInput::Up => {
                self.step_up(column_count);
                false
            },
            KeyInput::Other => false,
        }
    }

    /// One downward step, delivered to the model the active tab owns.
    fn step_down(&mut self, column_count: usize)
        ensures
            final(self).tab == old(self).tab,
            *final(self) == (match old(self).tab {
                SelectedTab::Metadata => ViewState {
                    metadata_scroll: MetadataScroll {
                        offset: offset_after_down(old(self).metadata_scroll.offset),
                    },
                    ..*old(self)
                },
                SelectedTab::Columns => ViewState {
                    columns_table: ColumnsTableState {
                        selected: selected_after_next(
                            old(self).columns_table.selected,
                            column_count,
                        ),
                    },
                    ..*old(self)
                },
                SelectedTab::MapView => *old(self),
            }),
    {
        match self.tab {
            SelectedTab::Metadata => self.metadata_scroll.scroll_down(),
            SelectedTab::Columns => self.columns_table.next(column_count),
            SelectedTab::MapView => (),
        }
    }

    /// One upward step, delivered to the model the active tab owns.
    fn step_up(&mut self, column_count: usize)
        ensures
            final(self).tab == old(self).tab,
            *final(self) == (match old(self).tab {
                SelectedTab::Metadata => ViewState {
                    metadata_scroll: MetadataScroll {
                        offset: offset_after_up(old(self).metadata_scroll.offset),
                    },
                    ..*old(self)
                },
                SelectedTab::Columns => ViewState {
                    columns_table: ColumnsTableState {
                        selected: selected_after_previous(
                            old(self).columns_table.selected,
                            column_count,
                        ),
                    },
                    ..*old(self)
                },
                SelectedTab::MapView => *old(self),
            }),
    {
        match self.tab {
            SelectedTab::Metadata => self.metadata_scroll.scroll_up(),
            SelectedTab::Columns => self.columns_table.previous(column_count),
            SelectedTab::MapView => (),
        }
    }
}

/// What the Map tab shows instead of a rectangle when it cannot render one.
#[derive(Clone, Copy, PartialEq, Eq, Structural, Debug)]
pub enum MapError {
    /// The header carries no bounding box at all. Reported distinctly, never
    /// defaulted to a zero-sized box: a made-up box rendered as if valid
    /// would mislead.
    MissingExtent,
    /// The reprojection into the display CRS failed.
    Reprojection(ReprojectionError),
}

/// The Map tab's content as a value: the display-CRS box and its provenance
/// label, or the error the tab reports instead. An extent without any CRS
/// is taken — by explicit assumption — to be already in the display CRS.
pub open spec fn map_view_model(
    envelope: Option<Bbox>,
    crs: Option<CrsRecord>,
    outcome: TransformOutcome,
) -> Result<(Bbox, Seq<char>), MapError> {
    match envelope {
        None => Err(MapError::MissingExtent),
        Some(b) => match crs {
            None => Ok((b, already_label(display_crs()))),
            Some(c) => {
                let source = crs_identifier(c.org@, c.code as int);
                if source == display_crs() {
                    Ok((b, already_label(display_crs())))
                } else {
                    match outcome {
                        TransformOutcome::Corners(x0, y0, x1, y1) => Ok(
                            (
                                Bbox { xmin: x0, ymin: y0, xmax: x1, ymax: y1 },
                                projected_label(source, display_crs()),
                            ),
                        ),
                        TransformOutcome::UnknownCrs => Err(
                            MapError::Reprojection(ReprojectionError::UnknownCrs),
                        ),
                        TransformOutcome::Rejected => Err(
                            MapError::Reprojection(ReprojectionError::OutOfDomain),
                        ),
                    }
                }
            },
        },
    }
}

/// Compute the Map tab's content once, at session start: the header's
/// extent reprojected from its native CRS into the fixed display CRS.
/// `outcome` is what the transforming collaborator produced for the two
/// corners; it is never consulted when no transform is needed.
pub fn map_view(
    envelope: &Option<Bbox>,
    crs: &Option<CrsRecord>,
    outcome: &TransformOutcome,
) -> (r: Result<(Bbox, String), MapError>)
    ensures
        match map_view_model(*envelope, *crs, *outcome) {
            Ok(p) => r matches Ok(q) && q.0 == p.0 && q.1@ == p.1,
            Err(e) => r == Err::<(Bbox, String), MapError>(e),
        },
{
    match envelope {
        None => Err(MapError::MissingExtent),
        Some(b) => match crs {
            None => {
                let label = String::from_str("Extent of data in ").concat(ratatui_map_crs());
                Ok((*b, label))
            },
            Some(c) => {
                let id = c.identifier();
                match b.project_to_ratatui_map_crs(id.as_str(), outcome) {
                    Ok(p) => Ok(p),
                    Err(e) => Err(MapError::Reprojection(e)),
                }
            },
        },
    }
}

} // verus!
