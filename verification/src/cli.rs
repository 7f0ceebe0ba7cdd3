use vstd::prelude::*;

verus! {

/// The command-line request: which subcommand to run.
///
/// Argument parsing itself is an outside collaborator; these types carry
/// the parsed request into the program. The copies the parser fills are
/// converted into these.
pub struct TopLevel {
    pub cmd: Command,
}

/// The available subcommands.
pub enum Command {
    Header(Header),
    Query(Query),
}

/// Display info about the FlatGeobuf header.
pub struct Header {
    /// Path or URL to the FlatGeobuf file.
    pub file: String,
    /// Print to stdout instead of the TUI.
    pub stdout: bool,
}

/// Query by a bounding box.
pub struct Query {
    /// Path or URL to the FlatGeobuf file.
    pub file: String,
    /// Bounding box as xmin,ymin,xmax,ymax.
    pub bbox: String,
}

} // verus!
