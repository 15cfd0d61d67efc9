use smush_material_db::builder::{build_records, RecordBuilder};
use smush_material_db::document::{
    BlendState, Document, MatlAttribute, MatlDocument, MatlEntry, MeshAttribute, MeshDocument,
    MeshObject, ModlDocument, ParamValue, RasterizerState, SamplerState, SourceFile, XmbDocument,
    XmbEntry,
};
use smush_material_db::keys::{KeyAllocator, Table};
use smush_material_db::records::Record;
use smush_material_db::expand::{
    process_document, process_matl, process_mesh, process_modl, process_xmb,
};

fn s(text: &str) -> String {
    text.to_string()
}

fn attr(param_id: u32, value: ParamValue) -> MatlAttribute {
    MatlAttribute { param_id, value }
}

fn entry(label: &str, shader: &str, attributes: Vec<MatlAttribute>) -> MatlEntry {
    MatlEntry { material_label: Some(s(label)), shader_label: Some(s(shader)), attributes }
}

fn count(records: &[Record], t: Table) -> usize {
    records.iter().filter(|r| r.get_table() == t).count()
}

fn matl_file(dir: &str, name: &str, entries: Vec<MatlEntry>) -> SourceFile {
    SourceFile {
        file_name: s(name),
        directory: s(dir),
        document: Some(Document::Matl(MatlDocument { entries })),
    }
}

#[test]
fn matl_rows_in_order() {
    let mut keys = KeyAllocator::new();
    let doc = MatlDocument {
        entries: vec![
            entry("M1", "S1", vec![attr(11, ParamValue::Boolean(1)), attr(192, ParamValue::Float(0x3f800000))]),
            entry("M2", "S2", vec![attr(92, ParamValue::Text(Some(s("tex"))))]),
        ],
    };
    let rows = process_matl(&mut keys, &doc, s("a"), s("x.numatb")).unwrap();
    // 1 file row + 2 materials + 3 attributes
    assert_eq!(rows.len(), 6);
    match &rows[0] {
        Record::Matl(m) => {
            assert_eq!(m.id, 0);
            assert_eq!(m.directory, "a");
            assert_eq!(m.file_name, "x.numatb");
        },
        other => panic!("unexpected {:?}", other),
    }
    match &rows[1] {
        Record::Material(m) => {
            assert_eq!((m.id, m.matl_id), (0, 0));
            assert_eq!(m.material_label, "M1");
            assert_eq!(m.shader_label, "S1");
        },
        other => panic!("unexpected {:?}", other),
    }
    match &rows[2] {
        Record::Bool(b) => {
            assert_eq!((b.id, b.param_id, b.material_id, b.value), (0, 11, 0, true));
        },
        other => panic!("unexpected {:?}", other),
    }
    match &rows[3] {
        Record::Float(f) => {
            assert_eq!((f.id, f.param_id, f.material_id, f.value), (0, 192, 0, 0x3f800000));
            assert_eq!(f32::from_bits(f.value), 1.0f32);
        },
        other => panic!("unexpected {:?}", other),
    }
    match &rows[4] {
        Record::Material(m) => assert_eq!((m.id, m.matl_id), (1, 0)),
        other => panic!("unexpected {:?}", other),
    }
    match &rows[5] {
        Record::Texture(t) => {
            assert_eq!((t.id, t.param_id, t.material_id), (0, 92, 1));
            assert_eq!(t.value, "tex");
        },
        other => panic!("unexpected {:?}", other),
    }
    assert_eq!(keys.matl, 1);
    assert_eq!(keys.material, 2);
    assert_eq!(keys.bool_param, 1);
    assert_eq!(keys.float_param, 1);
    assert_eq!(keys.texture, 1);
}

#[test]
fn matl_row_count_is_one_plus_entries_plus_attributes() {
    let mut keys = KeyAllocator::new();
    let doc = MatlDocument {
        entries: vec![
            entry("A", "S", vec![attr(1, ParamValue::Boolean(0)); 3]),
            entry("B", "S", vec![]),
            entry("C", "S", vec![attr(2, ParamValue::Vector4(1, 2, 3, 4)); 2]),
        ],
    };
    let rows = process_matl(&mut keys, &doc, s("d"), s("m.numatb")).unwrap();
    assert_eq!(rows.len(), 1 + 3 + (3 + 0 + 2));
}

#[test]
fn every_attribute_kind_becomes_its_row() {
    let mut keys = KeyAllocator::new();
    let sampler = SamplerState {
        wraps: 0,
        wrapt: 1,
        wrapr: 2,
        min_filter: 1,
        mag_filter: 1,
        texture_filtering_type: 2,
        border_color_r: 10,
        border_color_g: 11,
        border_color_b: 12,
        border_color_a: 13,
        unk11: 5,
        unk12: 6,
        lod_bias: 7,
        max_anisotropy: 8,
    };
    let blend = BlendState {
        source_color: 1,
        unk2: 2,
        destination_color: 6,
        unk4: 4,
        unk5: 5,
        unk6: 6,
        unk7: 7,
        unk8: 8,
        unk9: 9,
        unk10: 10,
    };
    let raster = RasterizerState { fill_mode: 1, cull_mode: 0, depth_bias: 3, unk4: 4, unk5: 5, unk6: 6 };
    let doc = MatlDocument {
        entries: vec![entry(
            "M",
            "S",
            vec![
                attr(108, ParamValue::Sampler(sampler)),
                attr(280, ParamValue::BlendState(blend)),
                attr(291, ParamValue::RasterizerState(raster)),
                attr(152, ParamValue::Vector4(1, 2, 3, 4)),
            ],
        )],
    };
    let rows = process_matl(&mut keys, &doc, s("d"), s("m.numatb")).unwrap();
    assert_eq!(rows.len(), 6);
    match &rows[2] {
        Record::Sampler(r) => {
            assert_eq!((r.param_id, r.material_id, r.wrapt, r.wrapr), (108, 0, 1, 2));
            assert_eq!((r.border_color_r, r.border_color_a, r.lod_bias, r.max_anisotropy), (10, 13, 7, 8));
        },
        other => panic!("unexpected {:?}", other),
    }
    match &rows[3] {
        Record::BlendState(r) => assert_eq!((r.source_color, r.destination_color, r.unk10), (1, 6, 10)),
        other => panic!("unexpected {:?}", other),
    }
    match &rows[4] {
        Record::Rasterizer(r) => assert_eq!((r.fill_mode, r.cull_mode, r.depth_bias, r.unk6), (1, 0, 3, 6)),
        other => panic!("unexpected {:?}", other),
    }
    match &rows[5] {
        Record::Vector4(r) => assert_eq!((r.x, r.y, r.z, r.w), (1, 2, 3, 4)),
        other => panic!("unexpected {:?}", other),
    }
}

#[test]
fn unsupported_attribute_is_dropped() {
    let mut keys = KeyAllocator::new();
    let doc = MatlDocument {
        entries: vec![entry("M", "S", vec![attr(252, ParamValue::Unsupported), attr(1, ParamValue::Boolean(0))])],
    };
    let rows = process_matl(&mut keys, &doc, s("d"), s("m.numatb")).unwrap();
    assert_eq!(rows.len(), 3);
    match &rows[2] {
        Record::Bool(b) => assert!(!b.value),
        other => panic!("unexpected {:?}", other),
    }
}

#[test]
fn missing_label_skips_the_file_and_keeps_counters() {
    let mut keys = KeyAllocator::new();
    let doc = MatlDocument {
        entries: vec![
            entry("M", "S", vec![attr(1, ParamValue::Boolean(1))]),
            MatlEntry { material_label: Some(s("N")), shader_label: None, attributes: vec![] },
        ],
    };
    assert!(process_matl(&mut keys, &doc, s("d"), s("m.numatb")).is_none());
    assert_eq!(keys, KeyAllocator::new());
}

#[test]
fn unreadable_texture_skips_the_file() {
    let mut keys = KeyAllocator::new();
    let doc = MatlDocument { entries: vec![entry("M", "S", vec![attr(92, ParamValue::Text(None))])] };
    assert!(process_matl(&mut keys, &doc, s("d"), s("m.numatb")).is_none());
    assert_eq!(keys, KeyAllocator::new());
}

#[test]
fn exhausted_counter_skips_the_file() {
    let mut keys = KeyAllocator::new();
    keys.material = i64::MAX;
    let doc = MatlDocument { entries: vec![entry("M", "S", vec![])] };
    let before = keys;
    assert!(process_matl(&mut keys, &doc, s("d"), s("m.numatb")).is_none());
    assert_eq!(keys, before);
}

#[test]
fn mesh_rows_with_and_without_attribute_names() {
    let mut keys = KeyAllocator::new();
    let doc = MeshDocument {
        objects: vec![
            MeshObject {
                name: Some(s("body")),
                sub_index: 0,
                attributes: Some(vec![
                    MeshAttribute { names: vec![Some(s("Position0")), Some(s("alias"))] },
                    MeshAttribute { names: vec![Some(s("Normal0"))] },
                ]),
            },
            MeshObject { name: Some(s("old")), sub_index: 3, attributes: None },
        ],
    };
    let rows = process_mesh(&mut keys, &doc, s("fighter"), s("model.numshb")).unwrap();
    assert_eq!(rows.len(), 5);
    match &rows[0] {
        Record::Mesh(m) => assert_eq!((m.id, m.file_name.as_str(), m.directory.as_str()), (0, "model.numshb", "fighter")),
        other => panic!("unexpected {:?}", other),
    }
    match &rows[2] {
        Record::MeshAttribute(a) => assert_eq!((a.id, a.mesh_object_id, a.name.as_str()), (0, 0, "Position0")),
        other => panic!("unexpected {:?}", other),
    }
    match &rows[3] {
        Record::MeshAttribute(a) => assert_eq!((a.id, a.mesh_object_id, a.name.as_str()), (1, 0, "Normal0")),
        other => panic!("unexpected {:?}", other),
    }
    match &rows[4] {
        Record::MeshObject(o) => assert_eq!((o.id, o.mesh_id, o.name.as_str(), o.sub_index), (1, 0, "old", 3)),
        other => panic!("unexpected {:?}", other),
    }
}

#[test]
fn mesh_attribute_without_names_skips_the_file() {
    let mut keys = KeyAllocator::new();
    let doc = MeshDocument {
        objects: vec![MeshObject {
            name: Some(s("body")),
            sub_index: 0,
            attributes: Some(vec![MeshAttribute { names: vec![] }]),
        }],
    };
    assert!(process_mesh(&mut keys, &doc, s("d"), s("m.numshb")).is_none());
    assert_eq!(keys, KeyAllocator::new());
}

#[test]
fn modl_keeps_only_first_material_file() {
    let mut keys = KeyAllocator::new();
    let doc = ModlDocument {
        model_file_name: Some(s("model.numshb")),
        skeleton_file_name: Some(s("model.nusktb")),
        material_file_names: vec![Some(s("model.numatb")), Some(s("alt.numatb"))],
    };
    let m = process_modl(&mut keys, &doc, s("d"), s("model.numdlb")).unwrap();
    assert_eq!(m.id, 0);
    assert_eq!(m.file_name, "model.numdlb");
    assert_eq!(m.model_file_name, "model.numshb");
    assert_eq!(m.skeleton_file_name, "model.nusktb");
    assert_eq!(m.material_file_name, "model.numatb");
    assert_eq!(keys.modl, 1);
}

#[test]
fn modl_without_material_file_is_skipped() {
    let mut keys = KeyAllocator::new();
    let doc = ModlDocument {
        model_file_name: Some(s("model.numshb")),
        skeleton_file_name: Some(s("model.nusktb")),
        material_file_names: vec![],
    };
    assert!(process_modl(&mut keys, &doc, s("d"), s("model.numdlb")).is_none());
    assert_eq!(keys.modl, 0);
}

#[test]
fn xmb_rows_in_order() {
    let mut keys = KeyAllocator::new();
    let doc = XmbDocument {
        entries: vec![
            XmbEntry { name: s("E1"), attributes: vec![(s("k"), s("v")), (s("k2"), s("v2"))] },
            XmbEntry { name: s("E2"), attributes: vec![(s("x"), s("y"))] },
        ],
    };
    let rows = process_xmb(&mut keys, &doc, s("b"), s("y.xmb")).unwrap();
    assert_eq!(rows.len(), 6);
    match &rows[3] {
        Record::XmbAttribute(a) => assert_eq!((a.id, a.xmb_entry_id, a.name.as_str(), a.value.as_str()), (1, 0, "k2", "v2")),
        other => panic!("unexpected {:?}", other),
    }
    match &rows[5] {
        Record::XmbAttribute(a) => assert_eq!((a.id, a.xmb_entry_id, a.name.as_str(), a.value.as_str()), (2, 1, "x", "y")),
        other => panic!("unexpected {:?}", other),
    }
}

#[test]
fn other_document_kind_yields_no_rows() {
    let mut keys = KeyAllocator::new();
    let rows = process_document(&mut keys, &Document::Other, s("d"), s("a.numdlb")).unwrap();
    assert!(rows.is_empty());
    assert_eq!(keys, KeyAllocator::new());
}

#[test]
fn unparsed_file_contributes_no_rows() {
    let files = vec![
        SourceFile { file_name: s("bad.numatb"), directory: s("a"), document: None },
        matl_file("a", "good.numatb", vec![entry("M", "S", vec![])]),
    ];
    let records = build_records(&files);
    assert_eq!(records.len(), 3);
    assert_eq!(count(&records, Table::Directory), 1);
    match &records[1] {
        Record::Matl(m) => {
            assert_eq!(m.id, 0);
            assert_eq!(m.file_name, "good.numatb");
        },
        other => panic!("unexpected {:?}", other),
    }
}

#[test]
fn unparsed_file_leaves_builder_unchanged() {
    let mut b = RecordBuilder::new();
    b.add_file(&SourceFile { file_name: s("bad.xmb"), directory: s("q"), document: None });
    assert!(b.into_records().is_empty());
}

#[test]
fn one_matl_fixture_row_counts() {
    let files = vec![matl_file(
        "fighter",
        "model.numatb",
        vec![entry("M", "S", vec![attr(232, ParamValue::Boolean(1)), attr(192, ParamValue::Float(0))])],
    )];
    let records = build_records(&files);
    assert_eq!(count(&records, Table::Directory), 1);
    assert_eq!(count(&records, Table::Matl), 1);
    assert_eq!(count(&records, Table::Material), 1);
    assert_eq!(count(&records, Table::Bool), 1);
    assert_eq!(count(&records, Table::Float), 1);
    assert_eq!(records.len(), 5);
}

#[test]
fn same_directory_gets_one_directory_row() {
    let files = vec![
        matl_file("a", "one.numatb", vec![]),
        matl_file("b", "two.numatb", vec![]),
        matl_file("a", "three.numatb", vec![]),
    ];
    let records = build_records(&files);
    let dirs: Vec<&Record> = records.iter().filter(|r| r.get_table() == Table::Directory).collect();
    assert_eq!(dirs.len(), 2);
    match (&records[0], &records[1], &records[2], &records[3], &records[4]) {
        (Record::Directory(d0), Record::Matl(m0), Record::Directory(d1), Record::Matl(m1), Record::Matl(m2)) => {
            assert_eq!((d0.id, d0.path.as_str()), (0, "a"));
            assert_eq!((d1.id, d1.path.as_str()), (1, "b"));
            assert_eq!(m0.directory, "a");
            assert_eq!(m1.directory, "b");
            assert_eq!(m2.directory, "a");
            assert_eq!((m0.id, m1.id, m2.id), (0, 1, 2));
        },
        other => panic!("unexpected {:?}", other),
    }
}

#[test]
fn attributes_follow_their_material() {
    let files = vec![
        matl_file("a", "one.numatb", vec![entry("M1", "S", vec![attr(1, ParamValue::Boolean(1))])]),
        matl_file("a", "two.numatb", vec![
            entry("M2", "S", vec![attr(2, ParamValue::Boolean(0))]),
            entry("M3", "S", vec![attr(3, ParamValue::Float(5)), attr(4, ParamValue::Boolean(2))]),
        ]),
    ];
    let records = build_records(&files);
    for (j, r) in records.iter().enumerate() {
        let material_id = match r {
            Record::Bool(b) => b.material_id,
            Record::Float(f) => f.material_id,
            _ => continue,
        };
        let found = records[..j].iter().any(|p| matches!(p, Record::Material(m) if m.id == material_id));
        assert!(found, "row {} refers to a later or missing material", j);
    }
    match &records[records.len() - 1] {
        Record::Bool(b) => assert_eq!((b.id, b.material_id, b.value), (2, 2, true)),
        other => panic!("unexpected {:?}", other),
    }
}

#[test]
fn matl_and_xmb_in_two_directories() {
    let files = vec![
        matl_file("a", "x.numatb", vec![entry("M1", "S1", vec![])]),
        SourceFile {
            file_name: s("y.xmb"),
            directory: s("b"),
            document: Some(Document::Xmb(XmbDocument {
                entries: vec![XmbEntry { name: s("E1"), attributes: vec![(s("k"), s("v"))] }],
            })),
        },
    ];
    let records = build_records(&files);
    assert_eq!(records.len(), 7);
    match &records[..] {
        [Record::Directory(da), Record::Matl(m), Record::Material(mat), Record::Directory(db), Record::Xmb(x), Record::XmbEntry(e), Record::XmbAttribute(a)] => {
            assert_eq!(da.path, "a");
            assert_eq!(db.path, "b");
            assert_eq!(m.file_name, "x.numatb");
            assert_eq!((mat.material_label.as_str(), mat.shader_label.as_str()), ("M1", "S1"));
            assert_eq!(x.file_name, "y.xmb");
            assert_eq!(e.name, "E1");
            assert_eq!((a.name.as_str(), a.value.as_str()), ("k", "v"));
            assert_eq!(e.xmb_id, x.id);
            assert_eq!(a.xmb_entry_id, e.id);
        },
        other => panic!("unexpected {:?}", other),
    }
}

#[test]
fn fresh_runs_assign_the_same_keys() {
    let files = vec![matl_file("a", "x.numatb", vec![entry("M1", "S1", vec![attr(1, ParamValue::Boolean(1))])])];
    assert_eq!(build_records(&files), build_records(&files));
}

#[test]
fn keys_are_consecutive_per_table() {
    let mut keys = KeyAllocator::new();
    assert_eq!(keys.allocate(Table::Xmb), 0);
    assert_eq!(keys.allocate(Table::Xmb), 1);
    assert_eq!(keys.allocate(Table::Matl), 0);
    assert_eq!(keys.peek(Table::Xmb), 2);
    assert_eq!(keys.peek(Table::Mesh), 0);
}
