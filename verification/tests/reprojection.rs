use fgbdump::CrsRecord;
use fgbdump::MapError;
use fgbdump::map_view;
use fgbdump::projection::Bbox;
use fgbdump::projection::ReprojectionError;
use fgbdump::projection::TransformOutcome;
use fgbdump::projection::ratatui_map_crs;

fn bbox_of_floats(xmin: f64, ymin: f64, xmax: f64, ymax: f64) -> Bbox {
    Bbox::new(xmin.to_bits(), ymin.to_bits(), xmax.to_bits(), ymax.to_bits())
}

#[test]
fn display_crs_is_fixed() {
    assert_eq!(ratatui_map_crs(), "EPSG:4326");
}

#[test]
fn identity_returns_box_unchanged_without_consulting_transform() {
    // The outcome handed in is an intentionally-invalid transform result;
    // the identity fast path must never look at it.
    let b = bbox_of_floats(-10.0, -5.0, 10.0, 5.0);
    let (projected, label) = b
        .reproject("EPSG:4326", "EPSG:4326", &TransformOutcome::UnknownCrs)
        .expect("identity reprojection must succeed");
    assert_eq!(projected, b);
    assert_eq!(label, "Extent of data in EPSG:4326");
}

#[test]
fn identity_holds_for_any_crs_identifier() {
    let b = bbox_of_floats(1.5, 2.5, 3.5, 4.5);
    let (projected, label) = b
        .reproject("ESRI:102718", "ESRI:102718", &TransformOutcome::Rejected)
        .expect("identity reprojection must succeed");
    assert_eq!(projected, b);
    assert_eq!(label, "Extent of data in ESRI:102718");
}

#[test]
fn unknown_crs_is_surfaced_never_defaulted() {
    let b = bbox_of_floats(-10.0, -5.0, 10.0, 5.0);
    let r = b.project_to_ratatui_map_crs("unknown-crs", &TransformOutcome::UnknownCrs);
    assert_eq!(r, Err(ReprojectionError::UnknownCrs));
}

#[test]
fn rejected_corner_is_surfaced() {
    let b = bbox_of_floats(-10.0, -5.0, 10.0, 5.0);
    let r = b.project_to_ratatui_map_crs("EPSG:3857", &TransformOutcome::Rejected);
    assert_eq!(r, Err(ReprojectionError::OutOfDomain));
}

#[test]
fn transformed_corners_build_the_new_box_and_label() {
    let b = bbox_of_floats(500000.0, 4649776.0, 510000.0, 4659776.0);
    let outcome = TransformOutcome::Corners(
        (9.0f64).to_bits(),
        (42.0f64).to_bits(),
        (9.1f64).to_bits(),
        (42.1f64).to_bits(),
    );
    let (projected, label) = b
        .project_to_ratatui_map_crs("EPSG:32632", &outcome)
        .expect("a transformed corner pair must succeed");
    assert_eq!(projected, bbox_of_floats(9.0, 42.0, 9.1, 42.1));
    assert_eq!(label, "Extent of data in EPSG:32632 projected to EPSG:4326");
}

#[test]
fn envelope_of_four_values_builds_a_box() {
    let values: Vec<u64> = vec![
        (-10.0f64).to_bits(),
        (-5.0f64).to_bits(),
        (10.0f64).to_bits(),
        (5.0f64).to_bits(),
    ];
    let b = Bbox::from_flatgeobuf_envelope(&values).expect("four values must build a box");
    assert_eq!(b, bbox_of_floats(-10.0, -5.0, 10.0, 5.0));
}

#[test]
fn envelope_of_wrong_arity_is_rejected() {
    let values: Vec<u64> = vec![1, 2, 3];
    let err = Bbox::from_flatgeobuf_envelope(&values).unwrap_err();
    assert_eq!(err, "Flatgeobuf envelope must have 4 values");
    let empty: Vec<u64> = vec![];
    assert!(Bbox::from_flatgeobuf_envelope(&empty).is_err());
}

#[test]
fn missing_extent_is_reported_distinctly() {
    let r = map_view(&None, &None, &TransformOutcome::UnknownCrs);
    assert_eq!(r, Err(MapError::MissingExtent));
}

#[test]
fn extent_without_crs_is_assumed_display_crs() {
    let b = bbox_of_floats(-10.0, -5.0, 10.0, 5.0);
    let (projected, label) = map_view(&Some(b), &None, &TransformOutcome::UnknownCrs)
        .expect("an extent without a CRS must render under the explicit assumption");
    assert_eq!(projected, b);
    assert_eq!(label, "Extent of data in EPSG:4326");
}

#[test]
fn extent_already_in_display_crs_passes_through_map_view() {
    let b = bbox_of_floats(-10.0, -5.0, 10.0, 5.0);
    let crs = CrsRecord {
        org: "EPSG".to_string(),
        code: 4326,
        name: None,
        code_string: None,
        description: None,
        wkt: None,
    };
    let (projected, label) = map_view(&Some(b), &Some(crs), &TransformOutcome::UnknownCrs)
        .expect("the identity path must succeed");
    assert_eq!(projected, b);
    assert_eq!(label, "Extent of data in EPSG:4326");
}

#[test]
fn map_view_surfaces_reprojection_failures() {
    let b = bbox_of_floats(-10.0, -5.0, 10.0, 5.0);
    let crs = CrsRecord {
        org: "EPSG".to_string(),
        code: 32632,
        name: None,
        code_string: None,
        description: None,
        wkt: None,
    };
    let r = map_view(&Some(b), &Some(crs), &TransformOutcome::UnknownCrs);
    assert_eq!(r, Err(MapError::Reprojection(ReprojectionError::UnknownCrs)));
}

#[test]
fn map_view_uses_transformed_corners() {
    let b = bbox_of_floats(500000.0, 4649776.0, 510000.0, 4659776.0);
    let crs = CrsRecord {
        org: "EPSG".to_string(),
        code: 32632,
        name: None,
        code_string: None,
        description: None,
        wkt: None,
    };
    let outcome = TransformOutcome::Corners(
        (9.0f64).to_bits(),
        (42.0f64).to_bits(),
        (9.1f64).to_bits(),
        (42.1f64).to_bits(),
    );
    let (projected, label) = map_view(&Some(b), &Some(crs), &outcome)
        .expect("a transformed corner pair must succeed");
    assert_eq!(projected, bbox_of_floats(9.0, 42.0, 9.1, 42.1));
    assert_eq!(label, "Extent of data in EPSG:32632 projected to EPSG:4326");
}
