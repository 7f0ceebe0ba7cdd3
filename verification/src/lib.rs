//! View-state model of an interactive terminal inspector for FlatGeobuf
//! headers: the tab cycle, the schema table's focus and derived scroll, the
//! metadata view's clamped scroll and line assembly, and the bounding-box
//! reprojection step with its identity fast path and surfaced failures.
//!
//! Decoding the container, fetching files, terminal control and widget
//! drawing are outside collaborators; this crate holds the state and the
//! rules they drive.

pub mod cli;
mod columns;
mod header;
mod metadata;
mod numfmt;
pub mod projection;
mod tabs;
mod view;

pub use columns::ColumnsScroll;
pub use columns::ColumnsTableState;
pub use columns::TABLE_CHROME_ROWS;
pub use columns::focus_after_next;
pub use columns::focus_after_previous;
pub use columns::lemma_focus_in_range;
pub use columns::lemma_focus_round_trip;
pub use columns::max_scroll_of;
pub use columns::scroll_position_of;
pub use columns::selected_after_next;
pub use columns::selected_after_previous;
pub use columns::validated_focus;
pub use columns::visible_rows_of;
pub use header::ColumnRecord;
pub use header::CrsRecord;
pub use header::HeaderRecord;
pub use header::MetaLine;
pub use header::crs_block_models;
pub use header::crs_identifier;
pub use header::line_model;
pub use header::metadata_chars;
pub use header::models_of;
pub use header::node_size_chars;
pub use header::opt_chars;
pub use header::spec_metadata_lines;
pub use metadata::MetadataScroll;
pub use metadata::lemma_metadata_scroll_clamp;
pub use metadata::offset_after_down;
pub use metadata::offset_after_up;
pub use metadata::reconciled_offset;
pub use numfmt::bool_chars;
pub use numfmt::bool_string;
pub use numfmt::dec_int;
pub use numfmt::dec_nat;
pub use numfmt::digit_char;
pub use numfmt::i32_string;
pub use numfmt::u64_string;
pub use tabs::SelectedTab;
pub use tabs::lemma_tab_cycle;
pub use tabs::next_tab;
pub use tabs::previous_tab;
pub use tabs::tab_index;
pub use view::KeyInput;
pub use view::MapError;
pub use view::ViewState;
pub use view::map_view;
pub use view::map_view_model;
pub use view::quits;
pub use view::state_after;
