use gpkg_sink::sink::GpkgSink;
use gpkg_sink::tables::TableSet;
use indexmap::IndexMap;

fn attrs(pairs: &[(&str, &str)]) -> IndexMap<String, String> {
    let mut m = IndexMap::new();
    for (k, v) in pairs {
        m.insert(k.to_string(), v.to_string());
    }
    m
}

fn created(names: &[&str]) -> TableSet {
    TableSet {
        items: names.iter().map(|n| n.to_string()).collect(),
    }
}

#[test]
fn generic_rename_prefixes_with_table_short_name() {
    let mut m = attrs(&[("depth", "2"), ("rank", "3")]);
    let tables = created(&[]);
    GpkgSink::rename_all_attributes(&mut m, "SomeAttribute", "", &tables);
    assert_eq!(m.get("SomeAttribute|depth").unwrap(), "2");
    assert_eq!(m.get("SomeAttribute|rank").unwrap(), "3");
    assert_eq!(m.len(), 2);
}

#[test]
fn building_risk_attribute_gets_category_prefix() {
    let mut m = attrs(&[("depth", "2")]);
    let tables = created(&["bldg:Building"]);
    GpkgSink::rename_all_attributes(&mut m, "TsunamiRiskAttribute", "", &tables);
    assert_eq!(
        m.get("buildingDisasterRiskAttribute|BuildingTsunamiRiskAttribute|depth")
            .unwrap(),
        "2"
    );
    assert_eq!(m.len(), 1);
}

#[test]
fn waterbody_risk_attribute_gets_flooding_prefix() {
    let mut m = attrs(&[("depth", "2")]);
    let tables = created(&["wtr:WaterBody"]);
    GpkgSink::rename_all_attributes(&mut m, "RiverFloodingRiskAttribute", "", &tables);
    assert_eq!(
        m.get("floodingRiskAttribute|WaterBodyRiverFloodingRiskAttribute|depth")
            .unwrap(),
        "2"
    );
}

#[test]
fn building_wins_over_waterbody_for_risk_attributes() {
    let mut m = attrs(&[("depth", "2")]);
    let tables = created(&["wtr:WaterBody", "bldg:Building"]);
    GpkgSink::rename_all_attributes(&mut m, "HighTideRiskAttribute", "", &tables);
    assert_eq!(
        m.get("buildingDisasterRiskAttribute|BuildingHighTideRiskAttribute|depth")
            .unwrap(),
        "2"
    );
}

#[test]
fn non_risk_attribute_keeps_caller_prefix() {
    let mut m = attrs(&[("k", "v")]);
    let tables = created(&["bldg:Building"]);
    GpkgSink::rename_all_attributes(&mut m, "Plain", "pre", &tables);
    assert_eq!(m.get("pre|Plain|k").unwrap(), "v");
}

#[test]
fn renaming_is_deterministic_across_runs() {
    let tables = created(&["bldg:Building", "unrelated:Table"]);
    let mut a = attrs(&[("depth", "2"), ("rank", "3")]);
    let mut b = attrs(&[("depth", "2"), ("rank", "3")]);
    GpkgSink::rename_all_attributes(&mut a, "LandSlideRiskAttribute", "", &tables);
    GpkgSink::rename_all_attributes(&mut b, "LandSlideRiskAttribute", "", &tables);
    assert_eq!(a, b);
    let keys_a: Vec<&String> = a.keys().collect();
    let keys_b: Vec<&String> = b.keys().collect();
    assert_eq!(keys_a, keys_b);
}

#[test]
fn is_risk_table_recognizes_the_risk_list() {
    assert!(GpkgSink::is_risk_table("InlandFloodingRiskAttribute"));
    assert!(GpkgSink::is_risk_table("TsunamiRiskAttribute"));
    assert!(!GpkgSink::is_risk_table("BuildingIDAttribute"));
}
