//! The GeoPackage sink and its provider.

use vstd::prelude::*;

verus! {

/// Identity of a sink, as shown to the surrounding application.
pub struct SinkInfo {
    pub id_name: String,
    pub name: String,
}

/// Provider handing out GeoPackage sinks.
pub struct GpkgSinkProvider {}

impl GpkgSinkProvider {
    /// The sink's identifier and display name.
    pub fn info(&self) -> (r: SinkInfo)
        ensures
            r.id_name@ == "gpkg"@,
            r.name@ == "GeoPackage"@,
    {
        SinkInfo { id_name: String::from_str("gpkg"), name: String::from_str("GeoPackage") }
    }
}

/// The GeoPackage sink: holds the run's output directory.  The run itself
/// is driven from outside; the sink's associated functions carry the
/// rules the run applies to each record.
pub struct GpkgSink {
    pub output_path: String,
}

} // verus!
