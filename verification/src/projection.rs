use vstd::prelude::*;
use vstd::string::StringExecFns;

verus! {

/// The fixed CRS the map overlay is always rendered in.
pub open spec fn display_crs() -> Seq<char> {
    "EPSG:4326"@
}

/// The identifier of the fixed display CRS of the map overlay.
pub fn ratatui_map_crs() -> (r: &'static str)
    ensures
        r@ == display_crs(),
{
    "EPSG:4326"
}

/// An axis-aligned bounding box (xmin, ymin, xmax, ymax).
///
/// Coordinate values are carried as opaque 64-bit payloads chosen by the
/// caller; a caller holding floating-point coordinates stores their raw bit
/// patterns. This model never computes with the payloads — it only carries
/// them between the decoding, transforming and rendering collaborators.
#[derive(Clone, Copy, PartialEq, Eq, Structural, Debug)]
pub struct Bbox {
    pub xmin: u64,
    pub ymin: u64,
    pub xmax: u64,
    pub ymax: u64,
}

/// What the outside coordinate transform produced for the two diagonal
/// corners of a box, handed in by the collaborator that ran it.
#[derive(Clone, Copy, PartialEq, Eq, Structural, Debug)]
pub enum TransformOutcome {
    /// The transformed (xmin, ymin) and (xmax, ymax) corners, in that order.
    Corners(u64, u64, u64, u64),
    /// No transform could be built: the source CRS resolves to no known
    /// definition.
    UnknownCrs,
    /// The transform rejected a corner, e.g. a point outside the CRS's valid
    /// domain.
    Rejected,
}

/// Why a reprojection failed. Surfaced to the caller, never defaulted: a
/// wrong box rendered as if valid is worse than a visible error.
#[derive(Clone, Copy, PartialEq, Eq, Structural, Debug)]
pub enum ReprojectionError {
    /// The source CRS identifier resolves to no known definition.
    UnknownCrs,
    /// A corner lies outside the transform's valid domain.
    OutOfDomain,
}

/// The provenance label for an extent that is already in the display CRS.
pub open spec fn already_label(display: Seq<char>) -> Seq<char> {
    "Extent of data in "@ + display
}

/// The provenance label for an extent reprojected into the display CRS.
pub open spec fn projected_label(source: Seq<char>, display: Seq<char>) -> Seq<char> {
    "Extent of data in "@ + source + " projected to "@ + display
}

impl Bbox {
    /// A box from its four coordinate payloads.
    pub fn new(xmin: u64, ymin: u64, xmax: u64, ymax: u64) -> (r: Self)
        ensures
            r == (Bbox { xmin, ymin, xmax, ymax }),
    {
        Bbox { xmin, ymin, xmax, ymax }
    }

    /// A box from a decoded envelope, which must carry exactly the four
    /// values xmin, ymin, xmax, ymax in that order.
    pub fn from_flatgeobuf_envelope(envelope: &Vec<u64>) -> (r: Result<Self, String>)
        ensures
            envelope@.len() == 4 ==> (r matches Ok(b) && b == (Bbox {
                xmin: envelope@[0],
                ymin: envelope@[1],
                xmax: envelope@[2],
                ymax: envelope@[3],
            })),
            envelope@.len() != 4 ==> (r matches Err(m) && m@
                == "Flatgeobuf envelope must have 4 values"@),
    {
        if envelope.len() != 4 {
            return Err("Flatgeobuf envelope must have 4 values".to_owned());
        }
        Ok(
            Bbox {
                xmin: envelope[0],
                ymin: envelope[1],
                xmax: envelope[2],
                ymax: envelope[3],
            },
        )
    }

    /// Reproject this box from `source_crs` into `display_crs`.
    ///
    /// When the two identifiers are equal the box is returned unchanged with
    /// a label saying it is already in the display CRS; this fast path
    /// returns before `outcome` is ever consulted, so no transform need have
    /// run. Otherwise `outcome` — what the outside transform produced for
    /// the (xmin, ymin) and (xmax, ymax) corners — decides: corners build
    /// the new box, and either failure is surfaced as its own error.
    ///
    /// Only the two diagonal corners are carried; under a non-linear
    /// projection the resulting rectangle approximates the true extent. That
    /// is an accepted simplification for an overview map.
    pub fn reproject(
        &self,
        source_crs: &str,
        display_crs: &str,
        outcome: &TransformOutcome,
    ) -> (r: Result<(Bbox, String), ReprojectionError>)
        ensures
            source_crs@ == display_crs@ ==> (r matches Ok(p) && p.0 == *self && p.1@
                == already_label(display_crs@)),
            source_crs@ != display_crs@ ==> match *outcome {
                TransformOutcome::Corners(a, b, c, d) => (r matches Ok(p) && p.0 == (Bbox {
                    xmin: a,
                    ymin: b,
                    xmax: c,
                    ymax: d,
                }) && p.1@ == projected_label(source_crs@, display_crs@)),
                TransformOutcome::UnknownCrs => r == Err::<(Bbox, String), _>(
                    ReprojectionError::UnknownCrs,
                ),
                TransformOutcome::Rejected => r == Err::<(Bbox, String), _>(
                    ReprojectionError::OutOfDomain,
                ),
            },
    {
        let src = String::from_str(source_crs);
        let dst = String::from_str(display_crs);
        if src == dst {
            let label = String::from_str("Extent of data in ").concat(display_crs);
            return Ok((self.clone(), label));
        }
        match outcome {
            TransformOutcome::Corners(a, b, c, d) => {
                let label = String::from_str("Extent of data in ").concat(source_crs).concat(
                    " projected to ",
                ).concat(display_crs);
                Ok((Bbox::new(*a, *b, *c, *d), label))
            },
            TransformOutcome::UnknownCrs => Err(ReprojectionError::UnknownCrs),
            TransformOutcome::Rejected => Err(ReprojectionError::OutOfDomain),
        }
    }

    /// Reproject this box into the fixed display CRS of the map overlay.
    pub fn project_to_ratatui_map_crs(&self, source_crs: &str, outcome: &TransformOutcome) -> (r:
        Result<(Bbox, String), ReprojectionError>)
        ensures
            source_crs@ == display_crs() ==> (r matches Ok(p) && p.0 == *self && p.1@
                == already_label(display_crs())),
            source_crs@ != display_crs() ==> match *outcome {
                TransformOutcome::Corners(a, b, c, d) => (r matches Ok(p) && p.0 == (Bbox {
                    xmin: a,
                    ymin: b,
                    xmax: c,
                    ymax: d,
                }) && p.1@ == projected_label(source_crs@, display_crs())),
                TransformOutcome::UnknownCrs => r == Err::<(Bbox, String), _>(
                    ReprojectionError::UnknownCrs,
                ),
                TransformOutcome::Rejected => r == Err::<(Bbox, String), _>(
                    ReprojectionError::OutOfDomain,
                ),
            },
    {
        self.reproject(source_crs, ratatui_map_crs(), outcome)
    }
}

} // verus!
