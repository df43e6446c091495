//! Materialization core of a CityGML-to-GeoPackage converter.
//!
//! The library classifies parsed geographic entities into feature and
//! attribute records, encodes geometry into a binary envelope, merges
//! attribute records into their parent features under renaming and
//! flattening rules, tracks per-table bounding boxes, and plans the
//! transactional writes and the final packaging step.  Everything here is
//! pure logic over plain values; the surrounding process performs the
//! actual store and file operations.

use vstd::prelude::*;

pub mod attrmap;
pub mod bbox;
pub mod classify;
pub mod geometry;
pub mod json;
pub mod keyed;
pub mod names;
pub mod records;
pub mod rename;
pub mod run;
pub mod sink;
pub mod strutil;
pub mod tables;
pub mod values;
pub mod writer;

verus! {

/// The output sinks the surrounding application can drive, keyed by the
/// identifier a caller passes on the command interface.
#[derive(Clone, Copy, PartialEq, Eq, Structural, Debug)]
pub enum SinkKind {
    Noop,
    Serde,
    GeoJson,
    Gpkg,
    Mvt,
    Shapefile,
    Czml,
    Kml,
    Gltf,
    CesiumTiles,
    Minecraft,
    Obj,
}

/// Which sink a file-type identifier selects, if any.
pub open spec fn sink_kind_of(s: Seq<char>) -> Option<SinkKind> {
    if s == "noop"@ {
        Some(SinkKind::Noop)
    } else if s == "serde"@ {
        Some(SinkKind::Serde)
    } else if s == "geojson"@ {
        Some(SinkKind::GeoJson)
    } else if s == "gpkg"@ {
        Some(SinkKind::Gpkg)
    } else if s == "mvt"@ {
        Some(SinkKind::Mvt)
    } else if s == "shapefile"@ {
        Some(SinkKind::Shapefile)
    } else if s == "czml"@ {
        Some(SinkKind::Czml)
    } else if s == "kml"@ {
        Some(SinkKind::Kml)
    } else if s == "gltf"@ {
        Some(SinkKind::Gltf)
    } else if s == "cesiumtiles"@ {
        Some(SinkKind::CesiumTiles)
    } else if s == "minecraft"@ {
        Some(SinkKind::Minecraft)
    } else if s == "obj"@ {
        Some(SinkKind::Obj)
    } else {
        None
    }
}

/// Decide which sink provider a file-type identifier names.
pub fn select_sink_provider(filetype: &str) -> (r: Option<SinkKind>)
    ensures
        r == sink_kind_of(filetype@),
{
    if strutil::str_eq(filetype, "noop") {
        Some(SinkKind::Noop)
    } else if strutil::str_eq(filetype, "serde") {
        Some(SinkKind::Serde)
    } else if strutil::str_eq(filetype, "geojson") {
        Some(SinkKind::GeoJson)
    } else if strutil::str_eq(filetype, "gpkg") {
        Some(SinkKind::Gpkg)
    } else if strutil::str_eq(filetype, "mvt") {
        Some(SinkKind::Mvt)
    } else if strutil::str_eq(filetype, "shapefile") {
        Some(SinkKind::Shapefile)
    } else if strutil::str_eq(filetype, "czml") {
        Some(SinkKind::Czml)
    } else if strutil::str_eq(filetype, "kml") {
        Some(SinkKind::Kml)
    } else if strutil::str_eq(filetype, "gltf") {
        Some(SinkKind::Gltf)
    } else if strutil::str_eq(filetype, "cesiumtiles") {
        Some(SinkKind::CesiumTiles)
    } else if strutil::str_eq(filetype, "minecraft") {
        Some(SinkKind::Minecraft)
    } else if strutil::str_eq(filetype, "obj") {
        Some(SinkKind::Obj)
    } else {
        None
    }
}

} // verus!
