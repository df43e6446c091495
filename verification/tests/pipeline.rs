use gpkg_sink::classify::{classify_entity, ClassifyOutcome, EntityObject, Stereotype};
use gpkg_sink::geometry::{GeometryKind, GeometryRef, GeometryStore, Polygon, Vertex};
use gpkg_sink::records::{sort_records, FeatureData};
use gpkg_sink::run::{merge_records, RunState};
use gpkg_sink::tables::TableInfo;
use gpkg_sink::writer::{archive_name, group_by_table, missing_columns, zip_plan};
use indexmap::IndexMap;

fn attrs(pairs: &[(&str, &str)]) -> IndexMap<String, String> {
    let mut m = IndexMap::new();
    for (k, v) in pairs {
        m.insert(k.to_string(), v.to_string());
    }
    m
}

fn store() -> GeometryStore {
    GeometryStore {
        vertices: vec![
            Vertex { x: 0, y: 0, z: 0 },
            Vertex { x: 10, y: 0, z: 0 },
            Vertex { x: 10, y: 10, z: 0 },
        ],
        polygons: vec![Polygon {
            rings: vec![vec![0, 1, 2]],
        }],
    }
}

fn solid() -> Vec<GeometryRef> {
    vec![GeometryRef {
        kind: GeometryKind::Solid,
        pos: 0,
        len: 1,
    }]
}

fn schema() -> Vec<TableInfo> {
    vec![
        TableInfo {
            name: "bldg:Building".to_string(),
            columns: vec!["id".to_string()],
            has_geometry: true,
        },
        TableInfo {
            name: "wtr:WaterBody".to_string(),
            columns: vec!["id".to_string()],
            has_geometry: true,
        },
        TableInfo {
            name: "uro:BuildingIDAttribute".to_string(),
            columns: vec![],
            has_geometry: false,
        },
        TableInfo {
            name: "uro:WaterBodyDetailAttribute".to_string(),
            columns: vec![],
            has_geometry: false,
        },
    ]
}

#[test]
fn two_feature_types_end_to_end() {
    let store = store();
    let mut state = RunState::new(schema(), 4326);

    // Classify two features and one matching attribute record per feature.
    let entities = vec![
        EntityObject {
            typename: "bldg:Building".to_string(),
            stereotype: Stereotype::Feature {
                id: "b1".to_string(),
                geometries: solid(),
            },
            attributes: attrs(&[("height", "[\"12\"]")]),
        },
        EntityObject {
            typename: "wtr:WaterBody".to_string(),
            stereotype: Stereotype::Feature {
                id: "w1".to_string(),
                geometries: solid(),
            },
            attributes: attrs(&[]),
        },
        EntityObject {
            typename: "uro:BuildingIDAttribute".to_string(),
            stereotype: Stereotype::Data,
            attributes: attrs(&[("parentId", "b1"), ("buildingID", "B-1")]),
        },
        EntityObject {
            typename: "uro:WaterBodyDetailAttribute".to_string(),
            stereotype: Stereotype::Data,
            attributes: attrs(&[("parentId", "w1"), ("adminType", "river")]),
        },
    ];

    let mut actions = Vec::new();
    for e in entities {
        match classify_entity(e, &store, 4326).unwrap() {
            ClassifyOutcome::Produced { table_name, record } => {
                if let Some(a) = state.on_record(table_name, record) {
                    actions.push(a);
                }
            }
            other => panic!("unexpected outcome: {:?}", discriminant_name(&other)),
        }
    }

    // Exactly the two geometry tables are materialized.
    assert_eq!(actions.len(), 2);
    assert_eq!(actions[0].file_name, "PLATEAU建築物.gpkg");
    assert_eq!(actions[1].file_name, "PLATEAUwtr:WaterBody.gpkg");

    let RunState {
        records,
        created_tables,
        ..
    } = state;
    let sorted = sort_records(records);
    let merged = merge_records(sorted, &created_tables);
    assert_eq!(merged.dropped, 0);

    // Each feature carries its merged attributes.
    let groups = group_by_table(merged.index);
    assert_eq!(groups.len(), 2);
    let bldg = &groups[0];
    assert_eq!(bldg.table_name, "bldg:Building");
    assert_eq!(bldg.rows.len(), 1);
    let (_, fd) = &bldg.rows[0];
    assert_eq!(fd.attributes.get("height").unwrap(), "12");
    assert_eq!(fd.attributes.get("buildingID").unwrap(), "B-1");
    let wtr = &groups[1];
    assert_eq!(wtr.table_name, "wtr:WaterBody");
    let (_, wfd) = &wtr.rows[0];
    assert_eq!(wfd.attributes.get("adminType").unwrap(), "river");

    // The batch's new columns are added once per table.
    let missing = missing_columns(&vec!["height".to_string()], &bldg.rows);
    assert_eq!(missing, vec!["buildingID".to_string()]);

    // One per-table box each.
    assert_eq!(merged.bboxes.len(), 2);

    // Packaging: the archive holds exactly the two produced table files,
    // and those members are the loose files removed afterwards.
    let dir = vec![
        actions[0].file_name.clone(),
        actions[1].file_name.clone(),
        "conversion.log".to_string(),
    ];
    let members = zip_plan(dir);
    assert_eq!(
        members,
        vec![
            "PLATEAU建築物.gpkg".to_string(),
            "PLATEAUwtr:WaterBody.gpkg".to_string()
        ]
    );
    assert_eq!(archive_name(), "PLATEAU.zip");
}

fn discriminant_name(o: &ClassifyOutcome) -> &'static str {
    match o {
        ClassifyOutcome::Produced { .. } => "produced",
        ClassifyOutcome::NoGeometry => "no geometry",
        ClassifyOutcome::Unsupported { .. } => "unsupported",
    }
}

#[test]
fn grouping_preserves_first_seen_table_order() {
    let index = vec![
        (
            "a".to_string(),
            FeatureData {
                table_name: "t2".to_string(),
                geometry: vec![],
                attributes: IndexMap::new(),
            },
        ),
        (
            "b".to_string(),
            FeatureData {
                table_name: "t1".to_string(),
                geometry: vec![],
                attributes: IndexMap::new(),
            },
        ),
        (
            "c".to_string(),
            FeatureData {
                table_name: "t2".to_string(),
                geometry: vec![],
                attributes: IndexMap::new(),
            },
        ),
    ];
    let groups = group_by_table(index);
    assert_eq!(groups.len(), 2);
    assert_eq!(groups[0].table_name, "t2");
    assert_eq!(groups[0].rows.len(), 2);
    assert_eq!(groups[0].rows[0].0, "a");
    assert_eq!(groups[0].rows[1].0, "c");
    assert_eq!(groups[1].table_name, "t1");
}

#[test]
fn missing_columns_are_deduplicated_in_first_seen_order() {
    let rows = vec![
        (
            "a".to_string(),
            FeatureData {
                table_name: "t".to_string(),
                geometry: vec![],
                attributes: attrs(&[("x", "1"), ("y", "2")]),
            },
        ),
        (
            "b".to_string(),
            FeatureData {
                table_name: "t".to_string(),
                geometry: vec![],
                attributes: attrs(&[("y", "3"), ("z", "4")]),
            },
        ),
    ];
    let missing = missing_columns(&vec!["x".to_string()], &rows);
    assert_eq!(missing, vec!["y".to_string(), "z".to_string()]);
}

#[test]
fn zip_plan_takes_only_table_files() {
    let names = vec![
        "a.gpkg".to_string(),
        "b.txt".to_string(),
        "c.gpkg".to_string(),
        "gpkg".to_string(),
        ".gpkg".to_string(),
    ];
    assert_eq!(
        zip_plan(names),
        vec!["a.gpkg".to_string(), "c.gpkg".to_string()]
    );
}
