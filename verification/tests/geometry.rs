use gpkg_sink::bbox::Bbox;
use gpkg_sink::classify::{classify_entity, ClassifyOutcome, EntityObject, Stereotype};
use gpkg_sink::geometry::{
    encode_geometry, GeomError, GeometryKind, GeometryRef, GeometryStore, Polygon, Vertex,
};
use gpkg_sink::records::Record;
use indexmap::IndexMap;

fn push_u32(out: &mut Vec<u8>, n: u32) {
    out.extend_from_slice(&n.to_le_bytes());
}

fn push_u64(out: &mut Vec<u8>, n: u64) {
    out.extend_from_slice(&n.to_le_bytes());
}

fn push_i64(out: &mut Vec<u8>, n: i64) {
    out.extend_from_slice(&n.to_le_bytes());
}

fn small_store() -> GeometryStore {
    GeometryStore {
        vertices: vec![
            Vertex { x: 1, y: 2, z: 3 },
            Vertex { x: 4, y: 5, z: 6 },
            Vertex { x: 7, y: -8, z: 9 },
        ],
        polygons: vec![Polygon {
            rings: vec![vec![0, 1, 2]],
        }],
    }
}

#[test]
fn encoder_produces_the_exact_envelope() {
    let store = small_store();
    let refs = vec![GeometryRef {
        kind: GeometryKind::Solid,
        pos: 0,
        len: 1,
    }];
    let enc = encode_geometry(&store, &refs, 4326).unwrap().unwrap();

    let mut expected: Vec<u8> = vec![0x47, 0x50, 0, 0];
    push_u32(&mut expected, 4326);
    push_u64(&mut expected, 1); // one polygon
    push_u64(&mut expected, 1); // one ring
    push_u64(&mut expected, 3); // three points
    for v in &store.vertices {
        push_i64(&mut expected, v.x);
        push_i64(&mut expected, v.y);
        push_i64(&mut expected, v.z);
    }
    assert_eq!(enc.bytes, expected);
    assert_eq!(
        enc.bbox,
        Bbox {
            min_x: 1,
            min_y: -8,
            max_x: 7,
            max_y: 5
        }
    );
}

#[test]
fn curve_reference_fails_the_record() {
    let store = small_store();
    let refs = vec![
        GeometryRef {
            kind: GeometryKind::Surface,
            pos: 0,
            len: 1,
        },
        GeometryRef {
            kind: GeometryKind::Curve,
            pos: 0,
            len: 0,
        },
    ];
    match encode_geometry(&store, &refs, 4326) {
        Err(GeomError::UnsupportedGeometryKind { kind }) => {
            assert_eq!(kind, GeometryKind::Curve);
        }
        _ => panic!("expected the unsupported-kind error"),
    }
}

#[test]
fn point_reference_fails_the_record() {
    let store = small_store();
    let refs = vec![GeometryRef {
        kind: GeometryKind::Point,
        pos: 0,
        len: 0,
    }];
    assert!(encode_geometry(&store, &refs, 4326).is_err());
}

#[test]
fn empty_selection_means_no_renderable_geometry() {
    let store = small_store();
    let refs = vec![GeometryRef {
        kind: GeometryKind::Triangle,
        pos: 0,
        len: 0,
    }];
    let r = encode_geometry(&store, &refs, 4326).unwrap();
    assert!(r.is_none());
}

#[test]
fn classify_feature_produces_a_feature_record() {
    let store = small_store();
    let mut attrs = IndexMap::new();
    attrs.insert("height".to_string(), "12".to_string());
    let obj = EntityObject {
        typename: "bldg:Building".to_string(),
        stereotype: Stereotype::Feature {
            id: "b1".to_string(),
            geometries: vec![GeometryRef {
                kind: GeometryKind::Solid,
                pos: 0,
                len: 1,
            }],
        },
        attributes: attrs,
    };
    match classify_entity(obj, &store, 4326).unwrap() {
        ClassifyOutcome::Produced { table_name, record } => {
            assert_eq!(table_name, "bldg:Building");
            match record {
                Record::Feature {
                    obj_id,
                    geometry,
                    bbox,
                    attributes,
                } => {
                    assert_eq!(obj_id, "b1");
                    assert!(!geometry.is_empty());
                    assert_eq!(bbox.min_x, 1);
                    assert_eq!(attributes.get("height").unwrap(), "12");
                }
                _ => panic!("expected a feature record"),
            }
        }
        _ => panic!("expected a produced record"),
    }
}

#[test]
fn classify_data_produces_an_attribute_record() {
    let store = small_store();
    let mut attrs = IndexMap::new();
    attrs.insert("parentId".to_string(), "b1".to_string());
    let obj = EntityObject {
        typename: "uro:BuildingIDAttribute".to_string(),
        stereotype: Stereotype::Data,
        attributes: attrs,
    };
    match classify_entity(obj, &store, 4326).unwrap() {
        ClassifyOutcome::Produced { table_name, record } => {
            assert_eq!(table_name, "uro:BuildingIDAttribute");
            assert!(matches!(record, Record::Attribute { .. }));
        }
        _ => panic!("expected a produced record"),
    }
}

#[test]
fn classify_object_stereotype_is_unsupported() {
    let store = small_store();
    let obj = EntityObject {
        typename: "x:Y".to_string(),
        stereotype: Stereotype::Object {
            id: "o1".to_string(),
        },
        attributes: IndexMap::new(),
    };
    match classify_entity(obj, &store, 4326).unwrap() {
        ClassifyOutcome::Unsupported { id } => assert_eq!(id, "o1"),
        _ => panic!("expected the unsupported outcome"),
    }
}

#[test]
fn bbox_merge_is_coordinatewise_min_max() {
    let mut a = Bbox {
        min_x: 0,
        min_y: 5,
        max_x: 10,
        max_y: 6,
    };
    let b = Bbox {
        min_x: -3,
        min_y: 7,
        max_x: 4,
        max_y: 20,
    };
    a.merge(&b);
    assert_eq!(
        a,
        Bbox {
            min_x: -3,
            min_y: 5,
            max_x: 10,
            max_y: 20
        }
    );
    assert_eq!(a.to_tuple(), (-3, 5, 10, 20));
}
