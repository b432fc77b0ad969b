//! Output-shaping choices shared by the command-line surface. The library
//! owns the plain variants and their canonical names; argument parsing and
//! the actual printing live with the caller.

use vstd::prelude::*;

verus! {

/// How a sequence of result geometries is laid out.
#[derive(Clone, Copy, PartialEq, Eq, Structural, Debug)]
pub enum OutputFormat {
    /// One geometry per line.
    CSV,
    /// All geometries consolidated into a single collection on one line.
    Oneline,
}

impl OutputFormat {
    pub open spec fn spec_label(self) -> Seq<char> {
        match self {
            OutputFormat::CSV => "csv"@,
            OutputFormat::Oneline => "oneline"@,
        }
    }

    /// The canonical command-line name of the variant.
    pub fn label(&self) -> (r: String)
        ensures
            r@ == self.spec_label(),
    {
        match self {
            OutputFormat::CSV => "csv".to_string(),
            OutputFormat::Oneline => "oneline".to_string(),
        }
    }
}

/// How a geometry is subdivided.
#[derive(Clone, Copy, PartialEq, Eq, Structural, Debug)]
pub enum SplitStrategy {
    /// Sweep the bounding box into near-uniform cells.
    Bbox,
    /// Triangulate the geometry.
    Triangulate,
}

impl SplitStrategy {
    pub open spec fn spec_label(self) -> Seq<char> {
        match self {
            SplitStrategy::Bbox => "bbox"@,
            SplitStrategy::Triangulate => "triangulate"@,
        }
    }

    /// The canonical command-line name of the variant.
    pub fn label(&self) -> (r: String)
        ensures
            r@ == self.spec_label(),
    {
        match self {
            SplitStrategy::Bbox => "bbox".to_string(),
            SplitStrategy::Triangulate => "triangulate".to_string(),
        }
    }
}

/// The radix in which a hex-cell index is printed.
#[derive(Clone, Copy, PartialEq, Eq, Structural, Debug)]
pub enum H3CellFormat {
    Hex,
    Octal,
    Binary,
}

impl H3CellFormat {
    pub open spec fn spec_label(self) -> Seq<char> {
        match self {
            H3CellFormat::Hex => "hex"@,
            H3CellFormat::Octal => "octal"@,
            H3CellFormat::Binary => "binary"@,
        }
    }

    /// The canonical command-line name of the variant.
    pub fn label(&self) -> (r: String)
        ensures
            r@ == self.spec_label(),
    {
        match self {
            H3CellFormat::Hex => "hex".to_string(),
            H3CellFormat::Octal => "octal".to_string(),
            H3CellFormat::Binary => "binary".to_string(),
        }
    }
}

/// The textual form in which a spherical-cell index is printed.
#[derive(Clone, Copy, PartialEq, Eq, Structural, Debug)]
pub enum S2CellFormat {
    Long,
    Hex,
    Quad,
}

impl S2CellFormat {
    pub open spec fn spec_label(self) -> Seq<char> {
        match self {
            S2CellFormat::Long => "long"@,
            S2CellFormat::Hex => "hex"@,
            S2CellFormat::Quad => "quad"@,
        }
    }

    /// The canonical command-line name of the variant.
    pub fn label(&self) -> (r: String)
        ensures
            r@ == self.spec_label(),
    {
        match self {
            S2CellFormat::Long => "long".to_string(),
            S2CellFormat::Hex => "hex".to_string(),
            S2CellFormat::Quad => "quad".to_string(),
        }
    }
}

} // verus!
