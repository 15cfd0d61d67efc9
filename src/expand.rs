//! The fan-out: turns one parsed document into its rows.
use vstd::prelude::*;
use crate::document::{
    Document, MatlAttribute, MatlDocument, MatlEntry, MeshAttribute, MeshDocument, MeshObject,
    ModlDocument, ParamValue, XmbDocument, XmbEntry,
};
use crate::fanout::{
    attribute_rows, attribute_step, document_rows, entry_rows, entry_step, fold_rows,
    lemma_fold_stops, matl_rows, mesh_attribute_rows, mesh_attribute_step, mesh_object_rows,
    mesh_object_step, mesh_rows, modl_rows, xmb_attribute_rows, xmb_attribute_step,
    xmb_entry_rows, xmb_entry_step, xmb_rows,
};
use crate::keys::{KeyAllocator, Table};
use crate::records::{
    BlendStateRecord, BoolRecord, FloatRecord, MaterialRecord, MatlRecord, MeshAttributeRecord,
    MeshObjectRecord, MeshRecord, ModlRecord, RasterizerRecord, Record, SamplerRecord,
    TextureRecord, Vector4Record, XmbAttributeRecord, XmbEntryRecord, XmbRecord,
};
use crate::rows::{chunk_ok, has_key, lemma_chunk_push};

verus! {

/// Appends `r`, which was built with the identifier just taken from `k` into `*keys`.
fn push_row(
    out: &mut Vec<Record>,
    r: Record,
    Ghost(k0): Ghost<KeyAllocator>,
    Ghost(k): Ghost<KeyAllocator>,
    Ghost(dir): Ghost<Seq<char>>,
)
    requires
        chunk_ok(k0, old(out)@, k, dir),
        k.has_room(r.table()),
        r.id() == k.next(r.table()),
        r.parent() is Some ==> has_key(old(out)@, r.parent()->0),
        r !is Directory,
        r.directory() is Some ==> r.directory() == Some(dir),
    ensures
        final(out)@ == old(out)@.push(r),
        chunk_ok(k0, final(out)@, k.bumped(r.table()), dir),
        forall|key: (Table, i64)| has_key(old(out)@, key) ==> has_key(final(out)@, key),
        has_key(final(out)@, r.key()),
{
    proof {
        lemma_chunk_push(k0, out@, k, dir, r);
    }
    out.push(r);
}

/// Appends the row of one material attribute, if its type is modelled.
fn push_attribute(
    keys: &mut KeyAllocator,
    out: &mut Vec<Record>,
    a: &MatlAttribute,
    material_id: i64,
    Ghost(k0): Ghost<KeyAllocator>,
    Ghost(dir): Ghost<Seq<char>>,
) -> (ok: bool)
    requires
        chunk_ok(k0, old(out)@, *old(keys), dir),
        has_key(old(out)@, (Table::Material, material_id)),
    ensures
        ok <==> attribute_rows(*a, material_id, *old(keys)) is Some,
        attribute_rows(*a, material_id, *old(keys)) matches Some((rs, k2)) ==> final(out)@
            == old(out)@ + rs && *final(keys) == k2,
        ok ==> chunk_ok(k0, final(out)@, *final(keys), dir),
        ok ==> forall|key: (Table, i64)| has_key(old(out)@, key) ==> has_key(final(out)@, key),
{
    let ghost k = *keys;
    let param_id = a.param_id;
    match &a.value {
        ParamValue::Boolean(v) => {
            if keys.peek(Table::Bool) == i64::MAX {
                return false;
            }
            let (_, rec) = BoolRecord::create_record(keys, param_id, material_id, *v > 0);
            push_row(out, Record::Bool(rec), Ghost(k0), Ghost(k), Ghost(dir));
        },
        ParamValue::Float(v) => {
            if keys.peek(Table::Float) == i64::MAX {
                return false;
            }
            let (_, rec) = FloatRecord::create_record(keys, param_id, material_id, *v);
            push_row(out, Record::Float(rec), Ghost(k0), Ghost(k), Ghost(dir));
        },
        ParamValue::Vector4(x, y, z, w) => {
            if keys.peek(Table::Vector4) == i64::MAX {
                return false;
            }
            let (_, rec) = Vector4Record::create_record(keys, param_id, material_id, *x, *y, *z, *w);
            push_row(out, Record::Vector4(rec), Ghost(k0), Ghost(k), Ghost(dir));
        },
        ParamValue::Text(text) => {
            match text {
                Some(text) => {
                    if keys.peek(Table::Texture) == i64::MAX {
                        return false;
                    }
                    let (_, rec) = TextureRecord::create_record(
                        keys,
                        param_id,
                        material_id,
                        text.clone(),
                    );
                    push_row(out, Record::Texture(rec), Ghost(k0), Ghost(k), Ghost(dir));
                },
                None => {
                    return false;
                },
            }
        },
        ParamValue::Sampler(s) => {
            if keys.peek(Table::Sampler) == i64::MAX {
                return false;
            }
            let (_, rec) = SamplerRecord::create_record(
                keys,
                param_id,
                material_id,
                s.wraps,
                s.wrapt,
                s.wrapr,
                s.min_filter,
                s.mag_filter,
                s.texture_filtering_type,
                s.border_color_r,
                s.border_color_g,
                s.border_color_b,
                s.border_color_a,
                s.unk11,
                s.unk12,
                s.lod_bias,
                s.max_anisotropy,
            );
            push_row(out, Record::Sampler(rec), Ghost(k0), Ghost(k), Ghost(dir));
        },
        ParamValue::BlendState(b) => {
            if keys.peek(Table::BlendState) == i64::MAX {
                return false;
            }
            let (_, rec) = BlendStateRecord::create_record(
                keys,
                param_id,
                material_id,
                b.source_color,
                b.unk2,
                b.destination_color,
                b.unk4,
                b.unk5,
                b.unk6,
                b.unk7,
                b.unk8,
                b.unk9,
                b.unk10,
            );
            push_row(out, Record::BlendState(rec), Ghost(k0), Ghost(k), Ghost(dir));
        },
        ParamValue::RasterizerState(r) => {
            if keys.peek(Table::Rasterizer) == i64::MAX {
                return false;
            }
            let (_, rec) = RasterizerRecord::create_record(
                keys,
                param_id,
                material_id,
                r.fill_mode,
                r.cull_mode,
                r.depth_bias,
                r.unk4,
                r.unk5,
                r.unk6,
            );
            push_row(out, Record::Rasterizer(rec), Ghost(k0), Ghost(k), Ghost(dir));
        },
        ParamValue::Unsupported => {
            assert(out@ =~= out@ + Seq::<Record>::empty());
        },
    }
    proof {
        if let Some((rs, k2)) = attribute_rows(*a, material_id, k) {
            assert(out@ =~= old(out)@ + rs);
        }
    }
    true
}

/// Appends a material row and the rows of its attributes.
fn push_entry(
    keys: &mut KeyAllocator,
    out: &mut Vec<Record>,
    e: &MatlEntry,
    matl_id: i64,
    Ghost(k0): Ghost<KeyAllocator>,
    Ghost(dir): Ghost<Seq<char>>,
) -> (ok: bool)
    requires
        chunk_ok(k0, old(out)@, *old(keys), dir),
        has_key(old(out)@, (Table::Matl, matl_id)),
    ensures
        ok <==> entry_rows(*e, matl_id, *old(keys)) is Some,
        entry_rows(*e, matl_id, *old(keys)) matches Some((rs, k2)) ==> final(out)@ == old(out)@
            + rs && *final(keys) == k2,
        ok ==> chunk_ok(k0, final(out)@, *final(keys), dir),
        ok ==> forall|key: (Table, i64)| has_key(old(out)@, key) ==> has_key(final(out)@, key),
{
    let ghost kstart = *keys;
    let material_label = match &e.material_label {
        Some(l) => l.clone(),
        None => {
            return false;
        },
    };
    let shader_label = match &e.shader_label {
        Some(l) => l.clone(),
        None => {
            return false;
        },
    };
    if keys.peek(Table::Material) == i64::MAX {
        return false;
    }
    let (material_id, rec) = MaterialRecord::create_record(
        keys,
        matl_id,
        material_label,
        shader_label,
    );
    let first = Record::Material(rec);
    push_row(out, first, Ghost(k0), Ghost(kstart), Ghost(dir));
    let ghost k1 = *keys;
    let ghost attrs = e.attributes@;
    let ghost mut acc: Seq<Record> = Seq::empty();
    let mut i: usize = 0;
    while i < e.attributes.len()
        invariant
            i <= attrs.len(),
            attrs == e.attributes@,
            k1 == kstart.bumped(Table::Material),
            kstart == *old(keys),
            kstart.has_room(Table::Material),
            material_id == kstart.next(Table::Material),
            e.material_label is Some,
            e.shader_label is Some,
            out@ == old(out)@ + seq![first] + acc,
            fold_rows(attrs.take(i as int), k1, attribute_step(material_id)) == Some((acc, *keys)),
            chunk_ok(k0, out@, *keys, dir),
            has_key(out@, (Table::Material, material_id)),
            forall|key: (Table, i64)| has_key(old(out)@, key) ==> has_key(out@, key),
        decreases attrs.len() - i,
    {
        proof {
            assert(attrs.take(i + 1).drop_last() =~= attrs.take(i as int));
            assert(attrs.take(i + 1).last() == attrs[i as int]);
        }
        let ghost kb = *keys;
        let ok = push_attribute(keys, out, &e.attributes[i], material_id, Ghost(k0), Ghost(dir));
        if !ok {
            proof {
                lemma_fold_stops(attrs, k1, attribute_step(material_id), i + 1);
                assert(fold_rows(e.attributes@, kstart.bumped(Table::Material), attribute_step(material_id)) is None);
                assert(entry_rows(*e, matl_id, kstart) is None);
            }
            return false;
        }
        proof {
            let (rs, k2) = attribute_rows(attrs[i as int], material_id, kb)->0;
            assert(out@ =~= old(out)@ + seq![first] + (acc + rs));
            acc = acc + rs;
        }
        i = i + 1;
    }
    proof {
        assert(attrs.take(i as int) =~= attrs);
        assert(out@ =~= old(out)@ + (seq![first] + acc));
    }
    true
}

/// The rows of a material container: its file row, then each material
/// followed by its attributes. `None`, with the counters untouched, where a
/// label or texture path is missing or a table has run out of identifiers.
pub fn process_matl(
    keys: &mut KeyAllocator,
    matl: &MatlDocument,
    directory: String,
    file_name: String,
) -> (r: Option<Vec<Record>>)
    ensures
        match matl_rows(*matl, directory, file_name, *old(keys)) {
            Some((rs, k)) => r matches Some(v) && v@ == rs && *final(keys) == k,
            None => r is None && *final(keys) == *old(keys),
        },
        r matches Some(v) ==> chunk_ok(*old(keys), v@, *final(keys), directory@),
{
    let ghost k0 = *keys;
    let ghost dir = directory@;
    let ghost d = directory;
    let ghost f = file_name;
    let mut k = *keys;
    let mut out: Vec<Record> = Vec::new();
    if k.peek(Table::Matl) == i64::MAX {
        return None;
    }
    let (matl_id, rec) = MatlRecord::create_record(&mut k, directory, file_name);
    let first = Record::Matl(rec);
    proof {
        assert(crate::rows::well_keyed(k0, out@, k0));
        assert(out@.push(first) =~= seq![first]);
    }
    push_row(&mut out, first, Ghost(k0), Ghost(k0), Ghost(dir));
    let ghost k1 = k;
    let ghost entries = matl.entries@;
    let ghost mut acc: Seq<Record> = Seq::empty();
    let mut i: usize = 0;
    while i < matl.entries.len()
        invariant
            i <= entries.len(),
            entries == matl.entries@,
            k1 == k0.bumped(Table::Matl),
            k0 == *old(keys),
            *keys == k0,
            d == directory,
            f == file_name,
            first == Record::Matl(MatlRecord { id: matl_id, directory: d, file_name: f }),
            matl_id == k0.next(Table::Matl),
            k0.has_room(Table::Matl),
            out@ == seq![first] + acc,
            fold_rows(entries.take(i as int), k1, entry_step(matl_id)) == Some((acc, k)),
            chunk_ok(k0, out@, k, dir),
            has_key(out@, (Table::Matl, matl_id)),
        decreases entries.len() - i,
    {
        proof {
            assert(entries.take(i + 1).drop_last() =~= entries.take(i as int));
            assert(entries.take(i + 1).last() == entries[i as int]);
        }
        let ghost kb = k;
        let ok = push_entry(&mut k, &mut out, &matl.entries[i], matl_id, Ghost(k0), Ghost(dir));
        if !ok {
            proof {
                lemma_fold_stops(entries, k1, entry_step(matl_id), i + 1);
                assert(fold_rows(matl.entries@, k0.bumped(Table::Matl), entry_step(matl_id)) is None);
                assert(matl_rows(*matl, d, f, k0) is None);
            }
            return None;
        }
        proof {
            let (rs, k2) = entry_rows(entries[i as int], matl_id, kb)->0;
            assert(out@ =~= seq![first] + (acc + rs));
            acc = acc + rs;
        }
        i = i + 1;
    }
    proof {
        assert(entries.take(i as int) =~= entries);
    }
    *keys = k;
    Some(out)
}

/// Appends the row of one vertex attribute, named by its first name.
fn push_mesh_attribute(
    keys: &mut KeyAllocator,
    out: &mut Vec<Record>,
    a: &MeshAttribute,
    mesh_object_id: i64,
    Ghost(k0): Ghost<KeyAllocator>,
    Ghost(dir): Ghost<Seq<char>>,
) -> (ok: bool)
    requires
        chunk_ok(k0, old(out)@, *old(keys), dir),
        has_key(old(out)@, (Table::MeshObject, mesh_object_id)),
    ensures
        ok <==> mesh_attribute_rows(*a, mesh_object_id, *old(keys)) is Some,
        mesh_attribute_rows(*a, mesh_object_id, *old(keys)) matches Some((rs, k2)) ==> final(out)@ == old(out)@ + rs && *final(keys) == k2,
        ok ==> chunk_ok(k0, final(out)@, *final(keys), dir),
        ok ==> forall|key: (Table, i64)| has_key(old(out)@, key) ==> has_key(final(out)@, key),
{
    let ghost k = *keys;
    if a.names.len() == 0 {
        return false;
    }
    let name = match &a.names[0] {
        Some(n) => n.clone(),
        None => {
            return false;
        },
    };
    if keys.peek(Table::MeshAttribute) == i64::MAX {
        return false;
    }
    let (_, rec) = MeshAttributeRecord::create_record(keys, mesh_object_id, name);
    push_row(out, Record::MeshAttribute(rec), Ghost(k0), Ghost(k), Ghost(dir));
    assert(out@ =~= old(out)@ + seq![Record::MeshAttribute(rec)]);
    true
}

/// Appends a mesh object row and the rows of its named vertex attributes.
fn push_mesh_object(
    keys: &mut KeyAllocator,
    out: &mut Vec<Record>,
    o: &MeshObject,
    mesh_id: i64,
    Ghost(k0): Ghost<KeyAllocator>,
    Ghost(dir): Ghost<Seq<char>>,
) -> (ok: bool)
    requires
        chunk_ok(k0, old(out)@, *old(keys), dir),
        has_key(old(out)@, (Table::Mesh, mesh_id)),
    ensures
        ok <==> mesh_object_rows(*o, mesh_id, *old(keys)) is Some,
        mesh_object_rows(*o, mesh_id, *old(keys)) matches Some((rs, k2)) ==> final(out)@ == old(out)@ + rs && *final(keys) == k2,
        ok ==> chunk_ok(k0, final(out)@, *final(keys), dir),
        ok ==> forall|key: (Table, i64)| has_key(old(out)@, key) ==> has_key(final(out)@, key),
{
    let ghost kstart = *keys;
    let name = match &o.name {
        Some(n) => n.clone(),
        None => {
            return false;
        },
    };
    if keys.peek(Table::MeshObject) == i64::MAX {
        return false;
    }
    let (object_id, rec) = MeshObjectRecord::create_record(keys, mesh_id, name, o.sub_index);
    let first = Record::MeshObject(rec);
    push_row(out, first, Ghost(k0), Ghost(kstart), Ghost(dir));
    let attributes = match &o.attributes {
        Some(v) => v,
        None => {
            assert(out@ =~= old(out)@ + seq![first]);
            return true;
        },
    };
    let ghost k1 = *keys;
    let ghost attrs = attributes@;
    let ghost mut acc: Seq<Record> = Seq::empty();
    let mut i: usize = 0;
    while i < attributes.len()
        invariant
            i <= attrs.len(),
            attrs == attributes@,
            o.attributes == Some(*attributes),
            k1 == kstart.bumped(Table::MeshObject),
            kstart == *old(keys),
            kstart.has_room(Table::MeshObject),
            object_id == kstart.next(Table::MeshObject),
            o.name is Some,
            out@ == old(out)@ + seq![first] + acc,
            fold_rows(attrs.take(i as int), k1, mesh_attribute_step(object_id)) == Some(
                (acc, *keys),
            ),
            chunk_ok(k0, out@, *keys, dir),
            has_key(out@, (Table::MeshObject, object_id)),
            forall|key: (Table, i64)| has_key(old(out)@, key) ==> has_key(out@, key),
        decreases attrs.len() - i,
    {
        proof {
            assert(attrs.take(i + 1).drop_last() =~= attrs.take(i as int));
            assert(attrs.take(i + 1).last() == attrs[i as int]);
        }
        let ghost kb = *keys;
        let ok = push_mesh_attribute(keys, out, &attributes[i], object_id, Ghost(k0), Ghost(dir));
        if !ok {
            proof {
                lemma_fold_stops(attrs, k1, mesh_attribute_step(object_id), i + 1);
            }
            return false;
        }
        proof {
            let (rs, k2) = mesh_attribute_rows(attrs[i as int], object_id, kb)->0;
            assert(out@ =~= old(out)@ + seq![first] + (acc + rs));
            acc = acc + rs;
        }
        i = i + 1;
    }
    proof {
        assert(attrs.take(i as int) =~= attrs);
        assert(out@ =~= old(out)@ + (seq![first] + acc));
    }
    true
}

/// The rows of a mesh: its file row, then each object followed by its named
/// vertex attributes. `None`, with the counters untouched, where a name is
/// missing or a table has run out of identifiers.
pub fn process_mesh(
    keys: &mut KeyAllocator,
    mesh: &MeshDocument,
    directory: String,
    file_name: String,
) -> (r: Option<Vec<Record>>)
    ensures
        match mesh_rows(*mesh, directory, file_name, *old(keys)) {
            Some((rs, k)) => r matches Some(v) && v@ == rs && *final(keys) == k,
            None => r is None && *final(keys) == *old(keys),
        },
        r matches Some(v) ==> chunk_ok(*old(keys), v@, *final(keys), directory@),
{
    let ghost k0 = *keys;
    let ghost dir = directory@;
    let ghost d = directory;
    let ghost f = file_name;
    let mut k = *keys;
    let mut out: Vec<Record> = Vec::new();
    if k.peek(Table::Mesh) == i64::MAX {
        return None;
    }
    let (mesh_id, rec) = MeshRecord::create_record(&mut k, directory, file_name);
    let first = Record::Mesh(rec);
    proof {
        assert(crate::rows::well_keyed(k0, out@, k0));
    }
    push_row(&mut out, first, Ghost(k0), Ghost(k0), Ghost(dir));
    let ghost k1 = k;
    let ghost objects = mesh.objects@;
    let ghost mut acc: Seq<Record> = Seq::empty();
    let mut i: usize = 0;
    while i < mesh.objects.len()
        invariant
            i <= objects.len(),
            objects == mesh.objects@,
            k1 == k0.bumped(Table::Mesh),
            k0 == *old(keys),
            *keys == k0,
            d == directory,
            f == file_name,
            first == Record::Mesh(MeshRecord { id: mesh_id, directory: d, file_name: f }),
            mesh_id == k0.next(Table::Mesh),
            k0.has_room(Table::Mesh),
            out@ == seq![first] + acc,
            fold_rows(objects.take(i as int), k1, mesh_object_step(mesh_id)) == Some((acc, k)),
            chunk_ok(k0, out@, k, dir),
            has_key(out@, (Table::Mesh, mesh_id)),
        decreases objects.len() - i,
    {
        proof {
            assert(objects.take(i + 1).drop_last() =~= objects.take(i as int));
            assert(objects.take(i + 1).last() == objects[i as int]);
        }
        let ghost kb = k;
        let ok = push_mesh_object(&mut k, &mut out, &mesh.objects[i], mesh_id, Ghost(k0), Ghost(dir));
        if !ok {
            proof {
                lemma_fold_stops(objects, k1, mesh_object_step(mesh_id), i + 1);
            }
            return None;
        }
        proof {
            let (rs, k2) = mesh_object_rows(objects[i as int], mesh_id, kb)->0;
            assert(out@ =~= seq![first] + (acc + rs));
            acc = acc + rs;
        }
        i = i + 1;
    }
    proof {
        assert(objects.take(i as int) =~= objects);
    }
    *keys = k;
    Some(out)
}

/// The single row of a model file. Only the first of its material files is
/// recorded. `None`, with the counters untouched, where a file name is missing,
/// no material file is listed, or the table has run out of identifiers.
pub fn process_modl(
    keys: &mut KeyAllocator,
    modl: &ModlDocument,
    directory: String,
    file_name: String,
) -> (r: Option<ModlRecord>)
    ensures
        match modl_rows(*modl, directory, file_name, *old(keys)) {
            Some((rs, k)) => r matches Some(m) && rs == seq![Record::Modl(m)] && *final(keys) == k,
            None => r is None && *final(keys) == *old(keys),
        },
        r matches Some(m) ==> m.id == old(keys).next(Table::Modl) && old(keys).has_room(Table::Modl)
            && m.directory == directory,
{
    let model_file_name = match &modl.model_file_name {
        Some(n) => n.clone(),
        None => {
            return None;
        },
    };
    let skeleton_file_name = match &modl.skeleton_file_name {
        Some(n) => n.clone(),
        None => {
            return None;
        },
    };
    if modl.material_file_names.len() == 0 {
        return None;
    }
    let material_file_name = match &modl.material_file_names[0] {
        Some(n) => n.clone(),
        None => {
            return None;
        },
    };
    if keys.peek(Table::Modl) == i64::MAX {
        return None;
    }
    let (_, rec) = ModlRecord::create_record(
        keys,
        directory,
        file_name,
        model_file_name,
        skeleton_file_name,
        material_file_name,
    );
    Some(rec)
}

/// Appends the row of one name and value pair of a metadata entry.
fn push_xmb_attribute(
    keys: &mut KeyAllocator,
    out: &mut Vec<Record>,
    a: &(String, String),
    xmb_entry_id: i64,
    Ghost(k0): Ghost<KeyAllocator>,
    Ghost(dir): Ghost<Seq<char>>,
) -> (ok: bool)
    requires
        chunk_ok(k0, old(out)@, *old(keys), dir),
        has_key(old(out)@, (Table::XmbEntry, xmb_entry_id)),
    ensures
        ok <==> xmb_attribute_rows(*a, xmb_entry_id, *old(keys)) is Some,
        xmb_attribute_rows(*a, xmb_entry_id, *old(keys)) matches Some((rs, k2)) ==> final(out)@
            == old(out)@ + rs && *final(keys) == k2,
        ok ==> chunk_ok(k0, final(out)@, *final(keys), dir),
        ok ==> forall|key: (Table, i64)| has_key(old(out)@, key) ==> has_key(final(out)@, key),
{
    let ghost k = *keys;
    if keys.peek(Table::XmbAttribute) == i64::MAX {
        return false;
    }
    let (_, rec) = XmbAttributeRecord::create_record(keys, xmb_entry_id, a.0.clone(), a.1.clone());
    push_row(out, Record::XmbAttribute(rec), Ghost(k0), Ghost(k), Ghost(dir));
    assert(out@ =~= old(out)@ + seq![Record::XmbAttribute(rec)]);
    true
}

/// Appends a metadata entry row and the rows of its attributes.
fn push_xmb_entry(
    keys: &mut KeyAllocator,
    out: &mut Vec<Record>,
    e: &XmbEntry,
    xmb_id: i64,
    Ghost(k0): Ghost<KeyAllocator>,
    Ghost(dir): Ghost<Seq<char>>,
) -> (ok: bool)
    requires
        chunk_ok(k0, old(out)@, *old(keys), dir),
        has_key(old(out)@, (Table::Xmb, xmb_id)),
    ensures
        ok <==> xmb_entry_rows(*e, xmb_id, *old(keys)) is Some,
        xmb_entry_rows(*e, xmb_id, *old(keys)) matches Some((rs, k2)) ==> final(out)@ == old(out)@ + rs && *final(keys) == k2,
        ok ==> chunk_ok(k0, final(out)@, *final(keys), dir),
        ok ==> forall|key: (Table, i64)| has_key(old(out)@, key) ==> has_key(final(out)@, key),
{
    let ghost kstart = *keys;
    if keys.peek(Table::XmbEntry) == i64::MAX {
        return false;
    }
    let (entry_id, rec) = XmbEntryRecord::create_record(keys, xmb_id, e.name.clone());
    let first = Record::XmbEntry(rec);
    push_row(out, first, Ghost(k0), Ghost(kstart), Ghost(dir));
    let ghost k1 = *keys;
    let ghost attrs = e.attributes@;
    let ghost mut acc: Seq<Record> = Seq::empty();
    let mut i: usize = 0;
    while i < e.attributes.len()
        invariant
            i <= attrs.len(),
            attrs == e.attributes@,
            k1 == kstart.bumped(Table::XmbEntry),
            kstart == *old(keys),
            kstart.has_room(Table::XmbEntry),
            entry_id == kstart.next(Table::XmbEntry),
            out@ == old(out)@ + seq![first] + acc,
            fold_rows(attrs.take(i as int), k1, xmb_attribute_step(entry_id)) == Some((acc, *keys)),
            chunk_ok(k0, out@, *keys, dir),
            has_key(out@, (Table::XmbEntry, entry_id)),
            forall|key: (Table, i64)| has_key(old(out)@, key) ==> has_key(out@, key),
        decreases attrs.len() - i,
    {
        proof {
            assert(attrs.take(i + 1).drop_last() =~= attrs.take(i as int));
            assert(attrs.take(i + 1).last() == attrs[i as int]);
        }
        let ghost kb = *keys;
        let ok = push_xmb_attribute(keys, out, &e.attributes[i], entry_id, Ghost(k0), Ghost(dir));
        if !ok {
            proof {
                lemma_fold_stops(attrs, k1, xmb_attribute_step(entry_id), i + 1);
            }
            return false;
        }
        proof {
            let (rs, k2) = xmb_attribute_rows(attrs[i as int], entry_id, kb)->0;
            assert(out@ =~= old(out)@ + seq![first] + (acc + rs));
            acc = acc + rs;
        }
        i = i + 1;
    }
    proof {
        assert(attrs.take(i as int) =~= attrs);
        assert(out@ =~= old(out)@ + (seq![first] + acc));
    }
    true
}

/// The rows of a metadata file: its file row, then each entry followed by its
/// name and value pairs. `None`, with the counters untouched, where a table has
/// run out of identifiers.
pub fn process_xmb(
    keys: &mut KeyAllocator,
    xmb: &XmbDocument,
    directory: String,
    file_name: String,
) -> (r: Option<Vec<Record>>)
    ensures
        match xmb_rows(*xmb, directory, file_name, *old(keys)) {
            Some((rs, k)) => r matches Some(v) && v@ == rs && *final(keys) == k,
            None => r is None && *final(keys) == *old(keys),
        },
        r matches Some(v) ==> chunk_ok(*old(keys), v@, *final(keys), directory@),
{
    let ghost k0 = *keys;
    let ghost dir = directory@;
    let ghost d = directory;
    let ghost f = file_name;
    let mut k = *keys;
    let mut out: Vec<Record> = Vec::new();
    if k.peek(Table::Xmb) == i64::MAX {
        return None;
    }
    let (xmb_id, rec) = XmbRecord::create_record(&mut k, directory, file_name);
    let first = Record::Xmb(rec);
    proof {
        assert(crate::rows::well_keyed(k0, out@, k0));
    }
    push_row(&mut out, first, Ghost(k0), Ghost(k0), Ghost(dir));
    let ghost k1 = k;
    let ghost entries = xmb.entries@;
    let ghost mut acc: Seq<Record> = Seq::empty();
    let mut i: usize = 0;
    while i < xmb.entries.len()
        invariant
            i <= entries.len(),
            entries == xmb.entries@,
            k1 == k0.bumped(Table::Xmb),
            k0 == *old(keys),
            *keys == k0,
            d == directory,
            f == file_name,
            first == Record::Xmb(XmbRecord { id: xmb_id, directory: d, file_name: f }),
            xmb_id == k0.next(Table::Xmb),
            k0.has_room(Table::Xmb),
            out@ == seq![first] + acc,
            fold_rows(entries.take(i as int), k1, xmb_entry_step(xmb_id)) == Some((acc, k)),
            chunk_ok(k0, out@, k, dir),
            has_key(out@, (Table::Xmb, xmb_id)),
        decreases entries.len() - i,
    {
        proof {
            assert(entries.take(i + 1).drop_last() =~= entries.take(i as int));
            assert(entries.take(i + 1).last() == entries[i as int]);
        }
        let ghost kb = k;
        let ok = push_xmb_entry(&mut k, &mut out, &xmb.entries[i], xmb_id, Ghost(k0), Ghost(dir));
        if !ok {
            proof {
                lemma_fold_stops(entries, k1, xmb_entry_step(xmb_id), i + 1);
            }
            return None;
        }
        proof {
            let (rs, k2) = xmb_entry_rows(entries[i as int], xmb_id, kb)->0;
            assert(out@ =~= seq![first] + (acc + rs));
            acc = acc + rs;
        }
        i = i + 1;
    }
    proof {
        assert(entries.take(i as int) =~= entries);
    }
    *keys = k;
    Some(out)
}

/// The rows of any parsed document, dispatched on its kind; a kind that is not
/// modelled yields no rows. `None`, with the counters untouched, where the
/// document lacks required text or a table has run out of identifiers.
pub fn process_document(
    keys: &mut KeyAllocator,
    doc: &Document,
    directory: String,
    file_name: String,
) -> (r: Option<Vec<Record>>)
    ensures
        match document_rows(*doc, directory, file_name, *old(keys)) {
            Some((rs, k)) => r matches Some(v) && v@ == rs && *final(keys) == k,
            None => r is None && *final(keys) == *old(keys),
        },
        r matches Some(v) ==> chunk_ok(*old(keys), v@, *final(keys), directory@),
{
    let ghost k0 = *keys;
    let ghost dir = directory@;
    match doc {
        Document::Matl(m) => process_matl(keys, m, directory, file_name),
        Document::Mesh(m) => process_mesh(keys, m, directory, file_name),
        Document::Xmb(x) => process_xmb(keys, x, directory, file_name),
        Document::Modl(m) => {
            match process_modl(keys, m, directory, file_name) {
                Some(rec) => {
                    let mut out: Vec<Record> = Vec::new();
                    proof {
                        assert(crate::rows::well_keyed(k0, out@, k0));
                    }
                    push_row(&mut out, Record::Modl(rec), Ghost(k0), Ghost(k0), Ghost(dir));
                    assert(out@ =~= seq![Record::Modl(rec)]);
                    Some(out)
                },
                None => None,
            }
        },
        Document::Other => {
            let out: Vec<Record> = Vec::new();
            proof {
                assert(crate::rows::well_keyed(k0, out@, k0));
            }
            Some(out)
        },
    }
}

} // verus!
