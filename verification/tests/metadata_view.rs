use fgbdump::ColumnRecord;
use fgbdump::ColumnsTableState;
use fgbdump::CrsRecord;
use fgbdump::HeaderRecord;
use fgbdump::MapError;
use fgbdump::MetaLine;
use fgbdump::MetadataScroll;
use fgbdump::bool_string;
use fgbdump::i32_string;
use fgbdump::map_view;
use fgbdump::projection::Bbox;
use fgbdump::projection::TransformOutcome;
use fgbdump::u64_string;

fn info(label: &str, value: &str) -> MetaLine {
    MetaLine::Info(label.to_string(), value.to_string())
}

fn column(name: &str) -> ColumnRecord {
    ColumnRecord {
        name: name.to_string(),
        type_text: "String".to_string(),
        description: None,
        nullable: true,
        primary_key: false,
        unique: false,
    }
}

fn bare_header() -> HeaderRecord {
    HeaderRecord {
        name: "places".to_string(),
        description: "".to_string(),
        features_count: 0,
        geometry_type: "Unknown".to_string(),
        index_node_size: 0,
        has_z: false,
        has_m: false,
        has_t: false,
        has_tm: false,
        columns: Vec::new(),
        crs: None,
        envelope: None,
        metadata: None,
    }
}

#[test]
fn decimal_rendering_is_exact() {
    assert_eq!(u64_string(0), "0");
    assert_eq!(u64_string(7), "7");
    assert_eq!(u64_string(42), "42");
    assert_eq!(u64_string(4096), "4096");
    assert_eq!(u64_string(u64::MAX), "18446744073709551615");
    assert_eq!(i32_string(0), "0");
    assert_eq!(i32_string(4326), "4326");
    assert_eq!(i32_string(-4326), "-4326");
    assert_eq!(i32_string(i32::MIN), "-2147483648");
    assert_eq!(bool_string(true), "true");
    assert_eq!(bool_string(false), "false");
}

#[test]
fn crs_identifier_is_authority_colon_code() {
    let crs = CrsRecord {
        org: "EPSG".to_string(),
        code: 4326,
        name: None,
        code_string: None,
        description: None,
        wkt: None,
    };
    assert_eq!(crs.identifier(), "EPSG:4326");
}

#[test]
fn bare_header_renders_without_crs_block() {
    // No columns, no CRS, no extent: the metadata view still renders, with
    // the placeholder CRS line instead of the block.
    let header = bare_header();
    let lines = header.metadata_lines("Undefined");
    assert_eq!(lines.len(), 15);
    assert_eq!(lines[0], info("Name", "places"));
    assert_eq!(lines[1], info("Description", ""));
    assert_eq!(lines[2], info("Features", "0"));
    assert_eq!(lines[3], info("Bounds", "Undefined"));
    assert_eq!(lines[4], info("Geometry Type", "Unknown"));
    assert_eq!(lines[5], info("Columns", "0"));
    assert_eq!(lines[6], info("Spatial Index R-Tree Node Size", "No Spatial Index"));
    assert_eq!(lines[7], MetaLine::Blank);
    assert_eq!(lines[8], info("Has M Dimension", "false"));
    assert_eq!(lines[9], info("Has Z Dimension", "false"));
    assert_eq!(lines[10], info("Has T Dimension", "false"));
    assert_eq!(lines[11], info("Has TM Dimension", "false"));
    assert_eq!(lines[12], info("CRS", "Undefined"));
    assert_eq!(lines[13], MetaLine::Blank);
    assert_eq!(lines[14], info("Custom Metadata", "None"));
}

#[test]
fn bare_header_map_tab_reports_missing_extent_and_table_has_no_focus() {
    let header = bare_header();
    let map = map_view(&header.envelope, &header.crs, &TransformOutcome::UnknownCrs);
    assert_eq!(map, Err(MapError::MissingExtent));
    let mut table = ColumnsTableState::new();
    table.next(header.columns.len());
    assert_eq!(table.focused_index(header.columns.len()), None);
}

#[test]
fn full_header_renders_the_crs_block() {
    let header = HeaderRecord {
        name: "countries".to_string(),
        description: "all countries".to_string(),
        features_count: 179,
        geometry_type: "MultiPolygon".to_string(),
        index_node_size: 16,
        has_z: true,
        has_m: false,
        has_t: false,
        has_tm: false,
        columns: vec![column("id"), column("name")],
        crs: Some(CrsRecord {
            org: "EPSG".to_string(),
            code: 4326,
            name: Some("WGS 84".to_string()),
            code_string: None,
            description: None,
            wkt: Some("GEOGCS[...]".to_string()),
        }),
        envelope: Some(Bbox::new(1, 2, 3, 4)),
        metadata: Some("made for a test".to_string()),
    };
    let lines = header.metadata_lines("[-180.0, -90.0, 180.0, 83.6]");
    assert_eq!(lines.len(), 21);
    assert_eq!(lines[2], info("Features", "179"));
    assert_eq!(lines[3], info("Bounds", "[-180.0, -90.0, 180.0, 83.6]"));
    assert_eq!(lines[4], info("Geometry Type", "MultiPolygon"));
    assert_eq!(lines[5], info("Columns", "2"));
    assert_eq!(lines[6], info("Spatial Index R-Tree Node Size", "16"));
    assert_eq!(lines[9], info("Has Z Dimension", "true"));
    assert_eq!(lines[12], MetaLine::Blank);
    assert_eq!(lines[13], info("CRS Code", "4326"));
    assert_eq!(lines[14], info("CRS Name", "WGS 84"));
    assert_eq!(lines[15], info("CRS Code String", ""));
    assert_eq!(lines[16], info("CRS Description", ""));
    assert_eq!(lines[17], info("CRS Authority", "EPSG"));
    assert_eq!(lines[18], info("CRS WKT", "GEOGCS[...]"));
    assert_eq!(lines[19], MetaLine::Blank);
    assert_eq!(lines[20], info("Custom Metadata", "Some(\"made for a test\")"));
}

#[test]
fn metadata_scroll_follows_the_assembled_line_count() {
    // The clamp is recomputed against the list assembled for each redraw,
    // so a shrunken list pulls the offset back in.
    let header = bare_header();
    let lines = header.metadata_lines("Undefined");
    let mut scroll = MetadataScroll::new();
    for _ in 0..100 {
        scroll.scroll_down();
    }
    let (length, position) = scroll.reconcile(lines.len());
    assert_eq!(position, 15);
    assert_eq!(length, 16);
    assert!(scroll.offset <= lines.len());
}

#[test]
fn five_column_schema_scrolls_to_keep_focus_visible() {
    // Five columns, three visible rows: moving the focus to the last row
    // leaves the window scrolled by two, the focused row on its last line.
    let columns: Vec<ColumnRecord> = vec![
        column("a"),
        column("b"),
        column("c"),
        column("d"),
        column("e"),
    ];
    let mut table = ColumnsTableState::new();
    for _ in 0..4 {
        table.next(columns.len());
    }
    assert_eq!(table.focused_index(columns.len()), Some(4));
    let scroll = table.scroll(columns.len(), 6);
    assert_eq!(scroll.visible_rows, 3);
    assert_eq!(scroll.position, 2);
}
