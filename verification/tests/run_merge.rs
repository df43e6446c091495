use gpkg_sink::bbox::Bbox;
use gpkg_sink::records::{sort_records, FeatureData, Record};
use gpkg_sink::run::{merge_records, run_outcome, terminal_outcome, RunOutcome, RunState};
use gpkg_sink::tables::{TableInfo, TableSet};
use indexmap::IndexMap;

fn attrs(pairs: &[(&str, &str)]) -> IndexMap<String, String> {
    let mut m = IndexMap::new();
    for (k, v) in pairs {
        m.insert(k.to_string(), v.to_string());
    }
    m
}

fn feature(id: &str, pairs: &[(&str, &str)]) -> Record {
    Record::Feature {
        obj_id: id.to_string(),
        geometry: vec![1, 2, 3],
        bbox: Bbox {
            min_x: 0,
            min_y: 0,
            max_x: 1,
            max_y: 1,
        },
        attributes: attrs(pairs),
    }
}

fn created(names: &[&str]) -> TableSet {
    TableSet {
        items: names.iter().map(|n| n.to_string()).collect(),
    }
}

#[test]
fn sort_puts_features_before_attributes_stably() {
    let records = vec![
        ("t1".to_string(), Record::Attribute { attributes: attrs(&[("a", "1")]) }),
        ("t2".to_string(), feature("f1", &[])),
        ("t3".to_string(), Record::Attribute { attributes: attrs(&[("b", "2")]) }),
        ("t4".to_string(), feature("f2", &[])),
    ];
    let sorted = sort_records(records);
    let tables: Vec<&str> = sorted.iter().map(|p| p.0.as_str()).collect();
    assert_eq!(tables, vec!["t2", "t4", "t1", "t3"]);
}

#[test]
fn attribute_record_merges_first_writer_wins() {
    // The feature's own value for a colliding key is kept; fresh keys come in.
    let records = vec![
        (
            "uro:BuildingIDAttribute".to_string(),
            Record::Attribute {
                attributes: attrs(&[
                    ("parentId", "b1"),
                    ("parentType", "bldg:Building"),
                    ("name", "Y"),
                    ("extra", "E"),
                ]),
            },
        ),
        ("bldg:Building".to_string(), feature("b1", &[("name", "X")])),
    ];
    let sorted = sort_records(records);
    let out = merge_records(sorted, &created(&["bldg:Building"]));
    assert_eq!(out.dropped, 0);
    assert_eq!(out.index.len(), 1);
    let (id, fd) = &out.index[0];
    assert_eq!(id, "b1");
    assert_eq!(fd.table_name, "bldg:Building");
    // uro:BuildingIDAttribute is exempt from renaming, so the keys collide raw.
    assert_eq!(fd.attributes.get("name").unwrap(), "X");
    assert_eq!(fd.attributes.get("extra").unwrap(), "E");
    assert!(fd.attributes.get("parentId").is_none());
    assert!(fd.attributes.get("parentType").is_none());
}

#[test]
fn non_exempt_attribute_keys_are_renamed_before_merging() {
    let records = vec![
        ("bldg:Building".to_string(), feature("b1", &[])),
        (
            "uro:RiverFloodingRiskAttribute".to_string(),
            Record::Attribute {
                attributes: attrs(&[("parentId", "b1"), ("depth", "2")]),
            },
        ),
    ];
    let out = merge_records(records, &created(&["bldg:Building"]));
    let (_, fd) = &out.index[0];
    assert_eq!(
        fd.attributes
            .get("buildingDisasterRiskAttribute|BuildingRiverFloodingRiskAttribute|depth")
            .unwrap(),
        "2"
    );
    assert!(fd.attributes.get("depth").is_none());
}

#[test]
fn orphan_attribute_records_are_counted_as_dropped() {
    let records = vec![
        ("bldg:Building".to_string(), feature("b1", &[])),
        (
            "uro:BuildingIDAttribute".to_string(),
            Record::Attribute {
                attributes: attrs(&[("parentId", "nobody"), ("k", "v")]),
            },
        ),
        (
            "uro:BuildingIDAttribute".to_string(),
            Record::Attribute {
                attributes: attrs(&[("k", "v")]),
            },
        ),
    ];
    let out = merge_records(records, &created(&[]));
    assert_eq!(out.dropped, 2);
    let (_, fd) = &out.index[0];
    assert_eq!(fd.attributes.len(), 0);
}

#[test]
fn per_table_bbox_unions_all_features_of_the_table() {
    let f1 = Record::Feature {
        obj_id: "a".to_string(),
        geometry: vec![],
        bbox: Bbox {
            min_x: 0,
            min_y: 0,
            max_x: 2,
            max_y: 2,
        },
        attributes: attrs(&[]),
    };
    let f2 = Record::Feature {
        obj_id: "b".to_string(),
        geometry: vec![],
        bbox: Bbox {
            min_x: -5,
            min_y: 1,
            max_x: 1,
            max_y: 9,
        },
        attributes: attrs(&[]),
    };
    let records = vec![("t".to_string(), f1), ("t".to_string(), f2)];
    let out = merge_records(records, &created(&[]));
    assert_eq!(out.bboxes.len(), 1);
    assert_eq!(out.bboxes[0].0, "t");
    assert_eq!(
        out.bboxes[0].1,
        Bbox {
            min_x: -5,
            min_y: 0,
            max_x: 2,
            max_y: 9
        }
    );
}

fn schema() -> Vec<TableInfo> {
    vec![
        TableInfo {
            name: "bldg:Building".to_string(),
            columns: vec!["height".to_string()],
            has_geometry: true,
        },
        TableInfo {
            name: "urf".to_string(),
            columns: vec![],
            has_geometry: true,
        },
        TableInfo {
            name: "uro:BuildingIDAttribute".to_string(),
            columns: vec![],
            has_geometry: false,
        },
    ]
}

#[test]
fn a_table_is_created_exactly_once() {
    let mut state = RunState::new(schema(), 4326);
    let a1 = state.on_record("bldg:Building".to_string(), feature("b1", &[]));
    let a2 = state.on_record("bldg:Building".to_string(), feature("b2", &[]));
    let act = a1.expect("first record must create the table");
    assert_eq!(act.table_name, "bldg:Building");
    assert_eq!(act.file_name, "PLATEAU建築物.gpkg");
    assert_eq!(act.srs_id, 4326);
    assert!(a2.is_none());
    assert_eq!(state.created_tables.items, vec!["bldg:Building"]);
    assert_eq!(state.records.len(), 2);
}

#[test]
fn attribute_tables_create_no_store_table() {
    let mut state = RunState::new(schema(), 4326);
    let act = state.on_record(
        "uro:BuildingIDAttribute".to_string(),
        Record::Attribute {
            attributes: attrs(&[("parentId", "b1")]),
        },
    );
    assert!(act.is_none());
    assert!(state.created_tables.items.is_empty());
}

#[test]
fn fallback_named_table_is_created_like_any_other() {
    let mut state = RunState::new(schema(), 4326);
    let act = state.on_record("urf".to_string(), feature("u1", &[]));
    let act = act.expect("a declared geometry type is always materialized");
    assert_eq!(act.file_name, "PLATEAUurf.gpkg");
    assert_eq!(state.created_tables.items, vec!["urf"]);
}

#[test]
fn no_table_is_created_after_cancellation() {
    let mut state = RunState::new(schema(), 4326);
    state.observe_cancel();
    let act = state.on_record("bldg:Building".to_string(), feature("b1", &[]));
    assert!(act.is_none());
    assert!(state.created_tables.items.is_empty());
    assert!(state.records.is_empty());
}

#[test]
fn cancellation_is_its_own_terminal_state() {
    assert!(matches!(run_outcome(true, None), RunOutcome::Canceled));
    assert!(matches!(
        run_outcome(true, Some("boom".to_string())),
        RunOutcome::Canceled
    ));
    match run_outcome(false, Some("disk full".to_string())) {
        RunOutcome::Failed(m) => assert_eq!(m, "disk full"),
        _ => panic!("expected the failed outcome"),
    }
    assert!(matches!(run_outcome(false, None), RunOutcome::Success));
}

#[test]
fn empty_batch_merges_to_nothing() {
    let out = merge_records(Vec::new(), &created(&[]));
    assert!(out.index.is_empty());
    assert!(out.bboxes.is_empty());
    assert_eq!(out.dropped, 0);
    assert!(sort_records(Vec::new()).is_empty());
}

#[test]
fn producer_failure_fails_the_whole_run() {
    match terminal_outcome(false, Some("encode failed".to_string()), None) {
        RunOutcome::Failed(m) => assert_eq!(m, "encode failed"),
        _ => panic!("expected the failed outcome"),
    }
    match terminal_outcome(false, None, Some("disk full".to_string())) {
        RunOutcome::Failed(m) => assert_eq!(m, "disk full"),
        _ => panic!("expected the failed outcome"),
    }
    assert!(matches!(
        terminal_outcome(true, Some("stopped".to_string()), None),
        RunOutcome::Canceled
    ));
    assert!(matches!(terminal_outcome(false, None, None), RunOutcome::Success));
}

#[test]
fn duplicate_feature_id_keeps_the_last_record() {
    let records = vec![
        ("t".to_string(), feature("b1", &[("v", "old")])),
        ("t".to_string(), feature("b1", &[("v", "new")])),
    ];
    let out = merge_records(records, &created(&[]));
    assert_eq!(out.index.len(), 1);
    let (_, fd) = &out.index[0];
    assert_eq!(fd.attributes.get("v").unwrap(), "new");
}

#[test]
fn merged_feature_data_keeps_geometry_and_table() {
    let records = vec![("t".to_string(), feature("b1", &[]))];
    let out = merge_records(records, &created(&[]));
    let (_, fd) = &out.index[0];
    assert_eq!(fd.geometry, vec![1, 2, 3]);
    let _ = FeatureData {
        table_name: fd.table_name.clone(),
        geometry: fd.geometry.clone(),
        attributes: IndexMap::new(),
    };
}
