use gpkg_sink::select_sink_provider;
use gpkg_sink::sink::{GpkgSink, GpkgSinkProvider};
use gpkg_sink::SinkKind;

#[test]
fn known_table_names_map_to_localized_file_names() {
    assert_eq!(
        GpkgSink::convert_filename("bldg:Building"),
        "PLATEAU建築物"
    );
    assert_eq!(GpkgSink::convert_filename("luse:LandUse"), "PLATEAU土地利用");
    assert_eq!(
        GpkgSink::convert_filename("urf:FirePreventionDistrict"),
        "PLATEAU防火地域又は準防火地域"
    );
}

#[test]
fn unknown_table_name_gets_the_deterministic_fallback() {
    assert_eq!(
        GpkgSink::convert_filename("wtr:WaterBody"),
        "PLATEAUwtr:WaterBody"
    );
    assert_eq!(GpkgSink::convert_filename("urf"), "PLATEAUurf");
}

#[test]
fn select_sink_provider_maps_known_identifiers() {
    assert_eq!(select_sink_provider("gpkg"), Some(SinkKind::Gpkg));
    assert_eq!(select_sink_provider("geojson"), Some(SinkKind::GeoJson));
    assert_eq!(select_sink_provider("noop"), Some(SinkKind::Noop));
    assert_eq!(select_sink_provider("obj"), Some(SinkKind::Obj));
    assert_eq!(select_sink_provider("nope"), None);
}

#[test]
fn gpkg_provider_reports_its_identity() {
    let info = GpkgSinkProvider {}.info();
    assert_eq!(info.id_name, "gpkg");
    assert_eq!(info.name, "GeoPackage");
}
