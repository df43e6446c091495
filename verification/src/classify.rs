//! Classification of upstream entities into records.
//!
//! Each parsed entity carries a stereotype: a renderable feature (whose
//! geometry is encoded here), a plain data bag, or an unsupported object
//! that is reported and dropped.  The producers run this classification in
//! parallel; pushing the produced record onto the channel is the caller's
//! part.

use vstd::prelude::*;
use indexmap::IndexMap;

use crate::geometry::{
    bbox_of, collect_ids, encode_geometry, envelope_bytes, has_unsupported, is_supported_kind,
    GeomError, GeometryRef, GeometryStore,
};
use crate::records::Record;

verus! {

/// The tag on an entity's root object.
pub enum Stereotype {
    Feature { id: String, geometries: Vec<GeometryRef> },
    Data,
    Object { id: String },
}

/// An entity's root object: its type name, stereotype, and attribute bag.
pub struct EntityObject {
    pub typename: String,
    pub stereotype: Stereotype,
    pub attributes: IndexMap<String, String>,
}

/// What classification decides for one entity.
pub enum ClassifyOutcome {
    /// A record to push onto the channel, keyed by its table.
    Produced { table_name: String, record: Record },
    /// A feature with no renderable geometry: dropped without error.
    NoGeometry,
    /// An unsupported object stereotype: reported as a warning, dropped.
    Unsupported { id: String },
}

/// Whether `r` carries a feature record with exactly these parts.
pub open spec fn produced_feature(
    r: Result<ClassifyOutcome, GeomError>,
    typename: String,
    id: String,
    attrs: IndexMap<String, String>,
    bytes: Seq<u8>,
    bb: crate::bbox::Bbox,
) -> bool {
    match r {
        Ok(o) => match o {
            ClassifyOutcome::Produced { table_name, record } => match record {
                Record::Feature { obj_id, geometry, bbox, attributes } => {
                    &&& table_name == typename
                    &&& obj_id == id
                    &&& geometry@ == bytes
                    &&& bbox == bb
                    &&& attributes == attrs
                },
                _ => false,
            },
            _ => false,
        },
        _ => false,
    }
}

/// Classify one entity: encode a feature's geometry into a record, pass a
/// data bag through as an attribute record, and flag an object stereotype
/// as unsupported.
pub fn classify_entity(obj: EntityObject, store: &GeometryStore, srs_id: u32) -> (r: Result<
    ClassifyOutcome,
    GeomError,
>)
    requires
        store.wf(),
        obj.stereotype matches Stereotype::Feature { geometries, .. } ==> forall|i: int|
            0 <= i < geometries@.len() ==> #[trigger] geometries@[i].pos + geometries@[i].len
                <= store.polygons@.len(),
    ensures
        obj.stereotype is Data ==> (r matches Ok(o) && o == (ClassifyOutcome::Produced {
            table_name: obj.typename,
            record: Record::Attribute { attributes: obj.attributes },
        })),
        obj.stereotype matches Stereotype::Object { id } ==> (r matches Ok(o) && o
            == (ClassifyOutcome::Unsupported { id })),
        obj.stereotype matches Stereotype::Feature { id, geometries } ==> {
            &&& (r is Err) == has_unsupported(geometries@)
            &&& (r matches Err(e) ==> exists|i: int|
                0 <= i < geometries@.len() && !is_supported_kind(#[trigger] geometries@[i].kind)
                    && e == (GeomError::UnsupportedGeometryKind { kind: geometries@[i].kind }))
            &&& (!has_unsupported(geometries@) && collect_ids(geometries@).len() == 0 ==> (r
                matches Ok(o) && o is NoGeometry))
            &&& (!has_unsupported(geometries@) && collect_ids(geometries@).len() > 0
                ==> produced_feature(
                r,
                obj.typename,
                id,
                obj.attributes,
                envelope_bytes(srs_id, store.vertices@, store.polygons@, collect_ids(geometries@)),
                bbox_of(store.vertices@, store.polygons@, collect_ids(geometries@)),
            ))
        },
{
    match obj.stereotype {
        Stereotype::Feature { id, geometries } => {
            match encode_geometry(store, &geometries, srs_id) {
                Err(e) => Err(e),
                Ok(None) => Ok(ClassifyOutcome::NoGeometry),
                Ok(Some(enc)) => Ok(
                    ClassifyOutcome::Produced {
                        table_name: obj.typename,
                        record: Record::Feature {
                            obj_id: id,
                            geometry: enc.bytes,
                            bbox: enc.bbox,
                            attributes: obj.attributes,
                        },
                    },
                ),
            }
        },
        Stereotype::Data => Ok(
            ClassifyOutcome::Produced {
                table_name: obj.typename,
                record: Record::Attribute { attributes: obj.attributes },
            },
        ),
        Stereotype::Object { id } => Ok(ClassifyOutcome::Unsupported { id }),
    }
}

} // verus!
