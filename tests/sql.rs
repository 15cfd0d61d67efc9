use smush_material_db::document::{document_family, DocumentFamily};
use smush_material_db::keys::{KeyAllocator, Table};
use smush_material_db::loader::{first_action, load_plan, next_action, LoadAction};
use smush_material_db::records::{
    BoolRecord, FloatRecord, MaterialRecord, MatlRecord, ModlRecord, Record, SamplerRecord,
    TextureRecord, XmbAttributeRecord,
};
use smush_material_db::schema::{
    create_tables, insert_custom_params, CREATE_INDEXES, CUSTOM_PARAM_NAMES, INSERT_CUSTOM_PARAM,
};
use smush_material_db::sql::{get_sql_text, SqlValue};

#[test]
fn sql_text_has_one_placeholder_per_column() {
    assert_eq!(
        get_sql_text("CustomBooleanParam", "Id,ParamId,MaterialId,Value", 4),
        "INSERT INTO CustomBooleanParam(Id,ParamId,MaterialId,Value) VALUES(?,?,?,?)"
    );
    assert_eq!(get_sql_text("T", "Id", 1), "INSERT INTO T(Id) VALUES(?)");
    assert_eq!(get_sql_text("T", "", 0), "INSERT INTO T() VALUES()");
}

#[test]
fn create_record_takes_next_key() {
    let mut keys = KeyAllocator::new();
    let (a, ra) = BoolRecord::create_record(&mut keys, 3, 7, true);
    let (b, rb) = BoolRecord::create_record(&mut keys, 4, 7, false);
    assert_eq!((a, b), (0, 1));
    assert_eq!(ra, BoolRecord { id: 0, param_id: 3, material_id: 7, value: true });
    assert_eq!(rb.id, 1);
    let (m, _) = MaterialRecord::create_record(&mut keys, 0, "M".to_string(), "S".to_string());
    assert_eq!(m, 0);
    let (t, rt) = TextureRecord::create_record(&mut keys, 92, 0, "tex".to_string());
    assert_eq!((t, rt.value.as_str()), (0, "tex"));
    assert_eq!(keys.bool_param, 2);
    assert_eq!(keys.material, 1);
}

#[test]
fn bool_row_statement() {
    let r = Record::Bool(BoolRecord { id: 5, param_id: 232, material_id: 2, value: true });
    let s = r.insert_statement();
    assert_eq!(s.sql, "INSERT INTO CustomBooleanParam(Id,ParamId,MaterialId,Value) VALUES(?,?,?,?)");
    assert_eq!(
        s.values,
        vec![SqlValue::Integer(5), SqlValue::Integer(232), SqlValue::Integer(2), SqlValue::Integer(1)]
    );
}

#[test]
fn float_row_binds_a_real() {
    let r = Record::Float(FloatRecord { id: 0, param_id: 192, material_id: 1, value: 0x40490fdb });
    let s = r.insert_statement();
    assert_eq!(s.sql, "INSERT INTO CustomFloatParam(Id,ParamId,MaterialId,Value) VALUES(?,?,?,?)");
    assert_eq!(s.values[3], SqlValue::Real32(0x40490fdb));
}

#[test]
fn file_row_statements() {
    let m = Record::Matl(MatlRecord { id: 1, directory: "a".to_string(), file_name: "x.numatb".to_string() });
    let s = m.insert_statement();
    assert_eq!(s.sql, "INSERT INTO Matl(Id,Directory,FileName) VALUES(?,?,?)");
    assert_eq!(
        s.values,
        vec![SqlValue::Integer(1), SqlValue::Text("a".to_string()), SqlValue::Text("x.numatb".to_string())]
    );
    let modl = Record::Modl(ModlRecord {
        id: 0,
        directory: "d".to_string(),
        file_name: "f".to_string(),
        model_file_name: "m".to_string(),
        skeleton_file_name: "s".to_string(),
        material_file_name: "t".to_string(),
    });
    assert_eq!(
        modl.insert_statement().sql,
        "INSERT INTO Modl(Id,Directory,FileName,ModelFileName,SkeletonFileName,MaterialFileName) VALUES(?,?,?,?,?,?)"
    );
    let a = Record::XmbAttribute(XmbAttributeRecord {
        id: 0,
        xmb_entry_id: 0,
        name: "k".to_string(),
        value: "v".to_string(),
    });
    assert_eq!(a.insert_statement().sql, "INSERT INTO XmbAttribute(Id,XmbEntryId,Name,Value) VALUES(?,?,?,?)");
}

#[test]
fn sampler_row_statement() {
    let mut keys = KeyAllocator::new();
    let (_, r) = SamplerRecord::create_record(&mut keys, 108, 0, 0, 1, 2, 1, 1, 2, 10, 11, 12, 13, 5, 6, 7, 8);
    let s = Record::Sampler(r).insert_statement();
    assert_eq!(
        s.sql,
        "INSERT INTO Sampler(Id,ParamId,MaterialId,Wraps,Wrapt,Wrapr,MinFilter,MagFilter,TextureFilteringType,BorderColorR,BorderColorG,BorderColorB,BorderColorA,Unk11,Unk12,LodBias,MaxAnisotropy) VALUES(?,?,?,?,?,?,?,?,?,?,?,?,?,?,?,?,?)"
    );
    assert_eq!(s.values.len(), 17);
    assert_eq!(s.values[9], SqlValue::Real32(10));
    assert_eq!(s.values[16], SqlValue::Integer(8));
}

#[test]
fn dictionary_seeds_every_name_once() {
    let seeds = insert_custom_params();
    assert_eq!(seeds.len(), 366);
    assert_eq!(seeds[0].sql, INSERT_CUSTOM_PARAM);
    assert_eq!(seeds[0].values, vec![SqlValue::Integer(0), SqlValue::Text("Diffuse".to_string())]);
    assert_eq!(seeds[365].values, vec![SqlValue::Integer(365), SqlValue::Text("DiffuseLightingAoOffset".to_string())]);
    let mut ids: Vec<i64> = seeds
        .iter()
        .map(|s| match s.values[0] {
            SqlValue::Integer(i) => i,
            _ => panic!("identifier is not an integer"),
        })
        .collect();
    ids.dedup();
    assert_eq!(ids.len(), 366);
    assert_eq!(CUSTOM_PARAM_NAMES[280], "BlendState0");
}

#[test]
fn tables_include_directory() {
    let tables = create_tables();
    assert_eq!(tables.len(), 18);
    assert!(tables[0].starts_with("CREATE TABLE \"Directory\""));
    assert!(tables.iter().any(|t| t.starts_with("CREATE TABLE \"CustomParam\"")));
    assert!(CREATE_INDEXES.contains("CREATE INDEX Texture_ParamId_Idx ON Texture(ParamId);"));
}

#[test]
fn loader_commits_after_last_success() {
    assert_eq!(first_action(0), LoadAction::Commit);
    assert_eq!(first_action(3), LoadAction::Execute(0));
    assert_eq!(next_action(0, 3, true), LoadAction::Execute(1));
    assert_eq!(next_action(2, 3, true), LoadAction::Commit);
}

#[test]
fn loader_rolls_back_on_failure() {
    assert_eq!(next_action(1, 3, false), LoadAction::Rollback);
    assert_eq!(next_action(2, 3, false), LoadAction::Rollback);
}

#[test]
fn plan_has_one_statement_per_row() {
    let records = vec![
        Record::Matl(MatlRecord { id: 0, directory: "a".to_string(), file_name: "x".to_string() }),
        Record::Bool(BoolRecord { id: 0, param_id: 1, material_id: 0, value: false }),
    ];
    let plan = load_plan(&records);
    assert_eq!(plan.len(), 2);
    assert_eq!(plan[1].sql, "INSERT INTO CustomBooleanParam(Id,ParamId,MaterialId,Value) VALUES(?,?,?,?)");
    assert_eq!(plan[1].values[3], SqlValue::Integer(0));
}

#[test]
fn extension_picks_parser() {
    assert_eq!(document_family("xmb"), DocumentFamily::Xmb);
    assert_eq!(document_family("numatb"), DocumentFamily::Ssbh);
    assert_eq!(document_family("xmbx"), DocumentFamily::Ssbh);
    assert_eq!(document_family(""), DocumentFamily::Ssbh);
}

#[test]
fn table_of_each_row() {
    let r = Record::Bool(BoolRecord { id: 4, param_id: 1, material_id: 0, value: false });
    assert_eq!(r.get_table(), Table::Bool);
    assert_eq!(r.get_id(), 4);
}
