use vstd::prelude::*;
use vstd::string::StringExecFns;
use crate::numfmt::bool_chars;
use crate::numfmt::bool_string;
use crate::numfmt::dec_int;
use crate::numfmt::dec_nat;
use crate::numfmt::i32_string;
use crate::numfmt::u64_string;
use crate::projection::Bbox;

verus! {

/// One column of the schema: name, type tag, optional description, and the
/// three flags. Order among columns is schema order and is significant.
///
/// The type tag is carried as the text the decoding collaborator rendered
/// for it; the view model never branches on it, it only displays it.
pub struct ColumnRecord {
    pub name: String,
    pub type_text: String,
    pub description: Option<String>,
    pub nullable: bool,
    pub primary_key: bool,
    pub unique: bool,
}

/// The coordinate reference system of a dataset: always an authority and a
/// numeric code, the rest optional. A dataset without any reference system
/// carries no record at all rather than an empty one.
pub struct CrsRecord {
    pub org: String,
    pub code: i32,
    pub name: Option<String>,
    pub code_string: Option<String>,
    pub description: Option<String>,
    pub wkt: Option<String>,
}

/// The decoded header of the container file, read once before the
/// interactive session starts and never mutated afterwards. Fields that the
/// view model only displays are carried as the text the decoding
/// collaborator rendered for them.
pub struct HeaderRecord {
    pub name: String,
    pub description: String,
    pub features_count: u64,
    pub geometry_type: String,
    pub index_node_size: u16,
    pub has_z: bool,
    pub has_m: bool,
    pub has_t: bool,
    pub has_tm: bool,
    pub columns: Vec<ColumnRecord>,
    pub crs: Option<CrsRecord>,
    pub envelope: Option<Bbox>,
    pub metadata: Option<String>,
}

/// The identifier that names a CRS to the transforming collaborator:
/// authority, a colon, and the decimal code.
pub open spec fn crs_identifier(org: Seq<char>, code: int) -> Seq<char> {
    org + ":"@ + dec_int(code)
}

impl CrsRecord {
    /// The identifier that names this CRS to the transforming collaborator.
    pub fn identifier(&self) -> (r: String)
        ensures
            r@ == crs_identifier(self.org@, self.code as int),
    {
        self.org.clone().concat(":").concat(i32_string(self.code).as_str())
    }
}

/// One line of the metadata view: a labelled value, or a blank spacer.
#[derive(Clone, PartialEq, Eq, Debug)]
pub enum MetaLine {
    Blank,
    Info(String, String),
}

/// The abstract form of one metadata line: `None` for a blank spacer,
/// `Some((label, value))` for a labelled value.
pub open spec fn line_model(l: MetaLine) -> Option<(Seq<char>, Seq<char>)> {
    match l {
        MetaLine::Blank => None,
        MetaLine::Info(label, value) => Some((label@, value@)),
    }
}

/// The abstract form of a whole line list.
pub open spec fn models_of(s: Seq<MetaLine>) -> Seq<Option<(Seq<char>, Seq<char>)>> {
    s.map_values(|l: MetaLine| line_model(l))
}

/// The node-size line's value: a spatial index is reported by its node
/// size, and a zero node size means the file carries no spatial index.
pub open spec fn node_size_chars(n: u16) -> Seq<char> {
    if n == 0 {
        "No Spatial Index"@
    } else {
        dec_nat(n as nat)
    }
}

/// An optional text renders as itself, or as empty text when absent.
pub open spec fn opt_chars(o: Option<String>) -> Seq<char> {
    match o {
        None => Seq::empty(),
        Some(s) => s@,
    }
}

/// The custom-metadata line's value: the blob quoted when present.
pub open spec fn metadata_chars(m: Option<String>) -> Seq<char> {
    match m {
        None => "None"@,
        Some(s) => "Some(\""@ + s@ + "\")"@,
    }
}

/// The CRS block of the metadata view: six labelled lines behind a spacer
/// when the dataset has a reference system, a single placeholder otherwise.
pub open spec fn crs_block_models(c: Option<CrsRecord>) -> Seq<Option<(Seq<char>, Seq<char>)>> {
    match c {
        None => seq![Some(("CRS"@, "Undefined"@))],
        Some(crs) => seq![
            None,
            Some(("CRS Code"@, dec_int(crs.code as int))),
            Some(("CRS Name"@, opt_chars(crs.name))),
            Some(("CRS Code String"@, opt_chars(crs.code_string))),
            Some(("CRS Description"@, opt_chars(crs.description))),
            Some(("CRS Authority"@, crs.org@)),
            Some(("CRS WKT"@, opt_chars(crs.wkt))),
        ],
    }
}

/// The whole metadata view for one redraw, in order: the fixed descriptive
/// lines, a spacer, the dimension flags, the CRS block, and the
/// custom-metadata line behind a spacer. `bounds` is the rendered extent
/// text the caller supplies.
pub open spec fn spec_metadata_lines(h: HeaderRecord, bounds: Seq<char>) -> Seq<
    Option<(Seq<char>, Seq<char>)>,
> {
    seq![
        Some(("Name"@, h.name@)),
        Some(("Description"@, h.description@)),
        Some(("Features"@, dec_nat(h.features_count as nat))),
        Some(("Bounds"@, bounds)),
        Some(("Geometry Type"@, h.geometry_type@)),
        Some(("Columns"@, dec_nat(h.columns@.len()))),
        Some(("Spatial Index R-Tree Node Size"@, node_size_chars(h.index_node_size))),
        None,
        Some(("Has M Dimension"@, bool_chars(h.has_m))),
        Some(("Has Z Dimension"@, bool_chars(h.has_z))),
        Some(("Has T Dimension"@, bool_chars(h.has_t))),
        Some(("Has TM Dimension"@, bool_chars(h.has_tm))),
    ] + crs_block_models(h.crs) + seq![
        None,
        Some(("Custom Metadata"@, metadata_chars(h.metadata))),
    ]
}

fn info(label: &str, value: String) -> (r: MetaLine)
    ensures
        line_model(r) == Some::<(Seq<char>, Seq<char>)>((label@, value@)),
{
    MetaLine::Info(label.to_owned(), value)
}

fn opt_text(o: &Option<String>) -> (r: String)
    ensures
        r@ == opt_chars(*o),
{
    match o {
        None => String::new(),
        Some(s) => s.clone(),
    }
}

impl HeaderRecord {
    /// Assemble the metadata view's ordered line list for one redraw. The
    /// list is rebuilt freshly every redraw, since the optional CRS and
    /// custom-metadata blocks change its length. The caller passes the
    /// rendered bounds text, because the envelope payloads are rendered by
    /// the collaborator that understands them.
    pub fn metadata_lines(&self, bounds: &str) -> (r: Vec<MetaLine>)
        ensures
            models_of(r@) == spec_metadata_lines(*self, bounds@),
    {
        let mut lines: Vec<MetaLine> = Vec::new();
        lines.push(info("Name", self.name.clone()));
        lines.push(info("Description", self.description.clone()));
        lines.push(info("Features", u64_string(self.features_count)));
        lines.push(info("Bounds", bounds.to_owned()));
        lines.push(info("Geometry Type", self.geometry_type.clone()));
        lines.push(info("Columns", u64_string(self.columns.len() as u64)));
        let node_size: String = if self.index_node_size == 0 {
            "No Spatial Index".to_owned()
        } else {
            u64_string(self.index_node_size as u64)
        };
        lines.push(info("Spatial Index R-Tree Node Size", node_size));
        lines.push(MetaLine::Blank);
        lines.push(info("Has M Dimension", bool_string(self.has_m)));
        lines.push(info("Has Z Dimension", bool_string(self.has_z)));
        lines.push(info("Has T Dimension", bool_string(self.has_t)));
        lines.push(info("Has TM Dimension", bool_string(self.has_tm)));
        match &self.crs {
            Some(crs) => {
                lines.push(MetaLine::Blank);
                lines.push(info("CRS Code", i32_string(crs.code)));
                lines.push(info("CRS Name", opt_text(&crs.name)));
                lines.push(info("CRS Code String", opt_text(&crs.code_string)));
                lines.push(info("CRS Description", opt_text(&crs.description)));
                lines.push(info("CRS Authority", crs.org.clone()));
                lines.push(info("CRS WKT", opt_text(&crs.wkt)));
            },
            None => {
                lines.push(info("CRS", "Undefined".to_owned()));
            },
        }
        lines.push(MetaLine::Blank);
        let meta: String = match &self.metadata {
            None => "None".to_owned(),
            Some(s) => String::from_str("Some(\"").concat(s.as_str()).concat("\")"),
        };
        lines.push(info("Custom Metadata", meta));
        proof {
            assert(models_of(lines@) =~= spec_metadata_lines(*self, bounds@));
        }
        lines
    }
}

} // verus!
