//! What each parsed document becomes: the rows it produces, in insertion order.
//!
//! Each row takes the next identifier of its table. A document whose required
//! text is missing, or whose rows would run a table out of identifiers, yields
//! `None`: the file is skipped as a whole.
use vstd::prelude::*;
use crate::document::{
    Document, MatlAttribute, MatlDocument, MatlEntry, MeshAttribute, MeshDocument, MeshObject,
    ModlDocument, ParamValue, XmbDocument, XmbEntry,
};
use crate::keys::{KeyAllocator, Table};
use crate::records::{
    BlendStateRecord, BoolRecord, FloatRecord, MaterialRecord, MatlRecord, MeshAttributeRecord,
    MeshObjectRecord, MeshRecord, ModlRecord, RasterizerRecord, Record, SamplerRecord,
    TextureRecord, Vector4Record, XmbAttributeRecord, XmbEntryRecord, XmbRecord,
};

verus! {

/// The rows of part of a document and the counters after them.
pub type Rows = Option<(Seq<Record>, KeyAllocator)>;

/// The rows of `items`, one after another, threading the counters through;
/// `None` as soon as one item yields `None`.
pub open spec fn fold_rows<A>(items: Seq<A>, k: KeyAllocator, step: spec_fn(A, KeyAllocator) -> Rows) -> Rows
    decreases items.len(),
{
    if items.len() == 0 {
        Some((Seq::empty(), k))
    } else {
        match fold_rows(items.drop_last(), k, step) {
            Some((rs, k1)) => match step(items.last(), k1) {
                Some((more, k2)) => Some((rs + more, k2)),
                None => None,
            },
            None => None,
        }
    }
}

/// A single row of table `t` built with the next identifier of that table.
pub open spec fn one_row(k: KeyAllocator, t: Table, row: Record) -> Rows {
    if k.has_room(t) {
        Some((seq![row], k.bumped(t)))
    } else {
        None
    }
}

/// The row of one material attribute; none for a type that is not modelled.
pub open spec fn attribute_rows(a: MatlAttribute, material_id: i64, k: KeyAllocator) -> Rows {
    match a.value {
        ParamValue::Boolean(v) => one_row(
            k,
            Table::Bool,
            Record::Bool(
                BoolRecord { id: k.next(Table::Bool), param_id: a.param_id, material_id, value: v > 0 },
            ),
        ),
        ParamValue::Float(v) => one_row(
            k,
            Table::Float,
            Record::Float(
                FloatRecord { id: k.next(Table::Float), param_id: a.param_id, material_id, value: v },
            ),
        ),
        ParamValue::Vector4(x, y, z, w) => one_row(
            k,
            Table::Vector4,
            Record::Vector4(
                Vector4Record {
                    id: k.next(Table::Vector4),
                    param_id: a.param_id,
                    material_id,
                    x,
                    y,
                    z,
                    w,
                },
            ),
        ),
        ParamValue::Text(Some(text)) => one_row(
            k,
            Table::Texture,
            Record::Texture(
                TextureRecord {
                    id: k.next(Table::Texture),
                    param_id: a.param_id,
                    material_id,
                    value: text,
                },
            ),
        ),
        ParamValue::Text(None) => None,
        ParamValue::Sampler(s) => one_row(
            k,
            Table::Sampler,
            Record::Sampler(
                SamplerRecord {
                    id: k.next(Table::Sampler),
                    param_id: a.param_id,
                    material_id,
                    wraps: s.wraps,
                    wrapt: s.wrapt,
                    wrapr: s.wrapr,
                    min_filter: s.min_filter,
                    mag_filter: s.mag_filter,
                    texture_filtering_type: s.texture_filtering_type,
                    border_color_r: s.border_color_r,
                    border_color_g: s.border_color_g,
                    border_color_b: s.border_color_b,
                    border_color_a: s.border_color_a,
                    unk11: s.unk11,
                    unk12: s.unk12,
                    lod_bias: s.lod_bias,
                    max_anisotropy: s.max_anisotropy,
                },
            ),
        ),
        ParamValue::BlendState(b) => one_row(
            k,
            Table::BlendState,
            Record::BlendState(
                BlendStateRecord {
                    id: k.next(Table::BlendState),
                    param_id: a.param_id,
                    material_id,
                    source_color: b.source_color,
                    unk2: b.unk2,
                    destination_color: b.destination_color,
                    unk4: b.unk4,
                    unk5: b.unk5,
                    unk6: b.unk6,
                    unk7: b.unk7,
                    unk8: b.unk8,
                    unk9: b.unk9,
                    unk10: b.unk10,
                },
            ),
        ),
        ParamValue::RasterizerState(r) => one_row(
            k,
            Table::Rasterizer,
            Record::Rasterizer(
                RasterizerRecord {
                    id: k.next(Table::Rasterizer),
                    param_id: a.param_id,
                    material_id,
                    fill_mode: r.fill_mode,
                    cull_mode: r.cull_mode,
                    depth_bias: r.depth_bias,
                    unk4: r.unk4,
                    unk5: r.unk5,
                    unk6: r.unk6,
                },
            ),
        ),
        ParamValue::Unsupported => Some((Seq::empty(), k)),
    }
}

pub open spec fn attribute_step(material_id: i64) -> spec_fn(MatlAttribute, KeyAllocator) -> Rows {
    |a: MatlAttribute, k: KeyAllocator| attribute_rows(a, material_id, k)
}

/// A material row followed by the rows of its attributes.
pub open spec fn entry_rows(e: MatlEntry, matl_id: i64, k: KeyAllocator) -> Rows {
    match (e.material_label, e.shader_label) {
        (Some(material_label), Some(shader_label)) => if k.has_room(Table::Material) {
            let id = k.next(Table::Material);
            let first = Record::Material(MaterialRecord { id, matl_id, material_label, shader_label });
            match fold_rows(e.attributes@, k.bumped(Table::Material), attribute_step(id)) {
                Some((rs, k2)) => Some((seq![first] + rs, k2)),
                None => None,
            }
        } else {
            None
        },
        _ => None,
    }
}

pub open spec fn entry_step(matl_id: i64) -> spec_fn(MatlEntry, KeyAllocator) -> Rows {
    |e: MatlEntry, k: KeyAllocator| entry_rows(e, matl_id, k)
}

/// The file row of a material container, then each material with its attributes.
pub open spec fn matl_rows(doc: MatlDocument, directory: String, file_name: String, k: KeyAllocator) -> Rows {
    if k.has_room(Table::Matl) {
        let id = k.next(Table::Matl);
        let first = Record::Matl(MatlRecord { id, directory, file_name });
        match fold_rows(doc.entries@, k.bumped(Table::Matl), entry_step(id)) {
            Some((rs, k2)) => Some((seq![first] + rs, k2)),
            None => None,
        }
    } else {
        None
    }
}

/// The row of one vertex attribute, named by its first name.
pub open spec fn mesh_attribute_rows(a: MeshAttribute, mesh_object_id: i64, k: KeyAllocator) -> Rows {
    if a.names@.len() == 0 {
        None
    } else {
        match a.names@[0] {
            Some(name) => one_row(
                k,
                Table::MeshAttribute,
                Record::MeshAttribute(
                    MeshAttributeRecord { id: k.next(Table::MeshAttribute), mesh_object_id, name },
                ),
            ),
            None => None,
        }
    }
}

pub open spec fn mesh_attribute_step(mesh_object_id: i64) -> spec_fn(MeshAttribute, KeyAllocator) -> Rows {
    |a: MeshAttribute, k: KeyAllocator| mesh_attribute_rows(a, mesh_object_id, k)
}

/// A mesh object row followed by the rows of its named vertex attributes.
pub open spec fn mesh_object_rows(o: MeshObject, mesh_id: i64, k: KeyAllocator) -> Rows {
    match o.name {
        Some(name) => if k.has_room(Table::MeshObject) {
            let id = k.next(Table::MeshObject);
            let first = Record::MeshObject(
                MeshObjectRecord { id, mesh_id, name, sub_index: o.sub_index },
            );
            let k1 = k.bumped(Table::MeshObject);
            match o.attributes {
                Some(attributes) => match fold_rows(attributes@, k1, mesh_attribute_step(id)) {
                    Some((rs, k2)) => Some((seq![first] + rs, k2)),
                    None => None,
                },
                None => Some((seq![first], k1)),
            }
        } else {
            None
        },
        None => None,
    }
}

pub open spec fn mesh_object_step(mesh_id: i64) -> spec_fn(MeshObject, KeyAllocator) -> Rows {
    |o: MeshObject, k: KeyAllocator| mesh_object_rows(o, mesh_id, k)
}

/// The file row of a mesh, then each object with its attributes.
pub open spec fn mesh_rows(doc: MeshDocument, directory: String, file_name: String, k: KeyAllocator) -> Rows {
    if k.has_room(Table::Mesh) {
        let id = k.next(Table::Mesh);
        let first = Record::Mesh(MeshRecord { id, directory, file_name });
        match fold_rows(doc.objects@, k.bumped(Table::Mesh), mesh_object_step(id)) {
            Some((rs, k2)) => Some((seq![first] + rs, k2)),
            None => None,
        }
    } else {
        None
    }
}

/// The single row of a model file, naming its first material file only.
pub open spec fn modl_rows(doc: ModlDocument, directory: String, file_name: String, k: KeyAllocator) -> Rows {
    match (doc.model_file_name, doc.skeleton_file_name) {
        (Some(model_file_name), Some(skeleton_file_name)) => if doc.material_file_names@.len() > 0 {
            match doc.material_file_names@[0] {
                Some(material_file_name) => one_row(
                    k,
                    Table::Modl,
                    Record::Modl(
                        ModlRecord {
                            id: k.next(Table::Modl),
                            directory,
                            file_name,
                            model_file_name,
                            skeleton_file_name,
                            material_file_name,
                        },
                    ),
                ),
                None => None,
            }
        } else {
            None
        },
        _ => None,
    }
}

/// The row of one name and value pair of a metadata entry.
pub open spec fn xmb_attribute_rows(a: (String, String), xmb_entry_id: i64, k: KeyAllocator) -> Rows {
    one_row(
        k,
        Table::XmbAttribute,
        Record::XmbAttribute(
            XmbAttributeRecord { id: k.next(Table::XmbAttribute), xmb_entry_id, name: a.0, value: a.1 },
        ),
    )
}

pub open spec fn xmb_attribute_step(xmb_entry_id: i64) -> spec_fn((String, String), KeyAllocator) -> Rows {
    |a: (String, String), k: KeyAllocator| xmb_attribute_rows(a, xmb_entry_id, k)
}

/// A metadata entry row followed by the rows of its attributes.
pub open spec fn xmb_entry_rows(e: XmbEntry, xmb_id: i64, k: KeyAllocator) -> Rows {
    if k.has_room(Table::XmbEntry) {
        let id = k.next(Table::XmbEntry);
        let first = Record::XmbEntry(XmbEntryRecord { id, xmb_id, name: e.name });
        match fold_rows(e.attributes@, k.bumped(Table::XmbEntry), xmb_attribute_step(id)) {
            Some((rs, k2)) => Some((seq![first] + rs, k2)),
            None => None,
        }
    } else {
        None
    }
}

pub open spec fn xmb_entry_step(xmb_id: i64) -> spec_fn(XmbEntry, KeyAllocator) -> Rows {
    |e: XmbEntry, k: KeyAllocator| xmb_entry_rows(e, xmb_id, k)
}

/// The file row of a metadata file, then each entry with its attributes.
pub open spec fn xmb_rows(doc: XmbDocument, directory: String, file_name: String, k: KeyAllocator) -> Rows {
    if k.has_room(Table::Xmb) {
        let id = k.next(Table::Xmb);
        let first = Record::Xmb(XmbRecord { id, directory, file_name });
        match fold_rows(doc.entries@, k.bumped(Table::Xmb), xmb_entry_step(id)) {
            Some((rs, k2)) => Some((seq![first] + rs, k2)),
            None => None,
        }
    } else {
        None
    }
}

/// The rows of any document; a kind that is not modelled yields none.
pub open spec fn document_rows(doc: Document, directory: String, file_name: String, k: KeyAllocator) -> Rows {
    match doc {
        Document::Matl(m) => matl_rows(m, directory, file_name, k),
        Document::Modl(m) => modl_rows(m, directory, file_name, k),
        Document::Mesh(m) => mesh_rows(m, directory, file_name, k),
        Document::Xmb(x) => xmb_rows(x, directory, file_name, k),
        Document::Other => Some((Seq::empty(), k)),
    }
}

/// Once a prefix of the items yields `None`, so do all items.
pub proof fn lemma_fold_stops<A>(
    items: Seq<A>,
    k: KeyAllocator,
    step: spec_fn(A, KeyAllocator) -> Rows,
    i: int,
)
    requires
        0 <= i <= items.len(),
        fold_rows(items.take(i), k, step) is None,
    ensures
        fold_rows(items, k, step) is None,
    decreases items.len() - i,
{
    if i < items.len() {
        assert(items.take(i + 1).drop_last() =~= items.take(i));
        lemma_fold_stops(items, k, step, i + 1);
    } else {
        assert(items.take(i) =~= items);
    }
}

/// The number of attributes over all `entries`.
pub open spec fn attribute_total(entries: Seq<MatlEntry>) -> nat
    decreases entries.len(),
{
    if entries.len() == 0 {
        0
    } else {
        attribute_total(entries.drop_last()) + entries.last().attributes@.len()
    }
}

/// Whether every attribute of `attrs` has a type that the database models.
pub open spec fn all_modelled(attrs: Seq<MatlAttribute>) -> bool {
    forall|j: int| 0 <= j < attrs.len() ==> (#[trigger] attrs[j]).value !is Unsupported
}

proof fn lemma_attribute_count(attrs: Seq<MatlAttribute>, material_id: i64, k: KeyAllocator)
    requires
        fold_rows(attrs, k, attribute_step(material_id)) is Some,
        all_modelled(attrs),
    ensures
        (fold_rows(attrs, k, attribute_step(material_id))->0).0.len() == attrs.len(),
    decreases attrs.len(),
{
    if attrs.len() > 0 {
        let init = attrs.drop_last();
        assert(all_modelled(init)) by {
            assert forall|j: int| 0 <= j < init.len() implies (#[trigger] init[j]).value !is Unsupported by {
                assert(init[j] == attrs[j]);
            }
        }
        lemma_attribute_count(init, material_id, k);
        assert(attrs.last() == attrs[attrs.len() - 1]);
    }
}

proof fn lemma_entry_count(entries: Seq<MatlEntry>, matl_id: i64, k: KeyAllocator)
    requires
        fold_rows(entries, k, entry_step(matl_id)) is Some,
        forall|i: int| 0 <= i < entries.len() ==> all_modelled(#[trigger] entries[i].attributes@),
    ensures
        (fold_rows(entries, k, entry_step(matl_id))->0).0.len() == entries.len() + attribute_total(
            entries,
        ),
    decreases entries.len(),
{
    if entries.len() > 0 {
        let init = entries.drop_last();
        assert forall|i: int| 0 <= i < init.len() implies all_modelled(#[trigger] init[i].attributes@) by {
            assert(init[i] == entries[i]);
        }
        lemma_entry_count(init, matl_id, k);
        let e = entries.last();
        assert(e == entries[entries.len() - 1]);
        let k1 = (fold_rows(init, k, entry_step(matl_id))->0).1;
        let mid = k1.next(Table::Material);
        lemma_attribute_count(e.attributes@, mid, k1.bumped(Table::Material));
    }
}

/// A material container with `N` materials, where material `i` has `A_i`
/// attributes of modelled types, yields exactly `1 + N + (A_1 + ... + A_N)`
/// rows: its file row first, then each material followed by its attributes.
pub proof fn lemma_matl_row_count(
    doc: MatlDocument,
    directory: String,
    file_name: String,
    k: KeyAllocator,
)
    requires
        matl_rows(doc, directory, file_name, k) is Some,
        forall|i: int|
            0 <= i < doc.entries@.len() ==> all_modelled(#[trigger] doc.entries@[i].attributes@),
    ensures
        (matl_rows(doc, directory, file_name, k)->0).0.len() == 1 + doc.entries@.len()
            + attribute_total(doc.entries@),
        (matl_rows(doc, directory, file_name, k)->0).0[0] is Matl,
{
    let id = k.next(Table::Matl);
    lemma_entry_count(doc.entries@, id, k.bumped(Table::Matl));
}

} // verus!
