//! The fixed relational schema: tables, the parameter-name dictionary, and
//! the secondary indexes built after loading.
use vstd::prelude::*;
use vstd::string::StringExecFns;
use crate::sql::{SqlValue, Statement};

verus! {

pub const CREATE_DIRECTORY_TABLE: &'static str = r#"CREATE TABLE "Directory" (
	"Id"	INTEGER NOT NULL UNIQUE,
	"Path"	TEXT NOT NULL,
	PRIMARY KEY("Id")
)"#;

pub const CREATE_PARAM_TABLE: &'static str = r#"CREATE TABLE "CustomParam" (
	"Id"	INTEGER NOT NULL UNIQUE,
	"Name"	TEXT NOT NULL,
	PRIMARY KEY("Id")
)"#;

pub const CREATE_MODL_TABLE: &'static str = r#"CREATE TABLE "Modl" (
	"Id"	INTEGER NOT NULL UNIQUE,
    "FileName"	TEXT NOT NULL,
    "ModelFileName" TEXT NOT NULL,
    "SkeletonFileName" TEXT NOT NULL,
    "MaterialFileName" TEXT NOT NULL,
	"Directory"	TEXT NOT NULL,
	PRIMARY KEY("Id")
)"#;

pub const CREATE_MESH_TABLE: &'static str = r#"CREATE TABLE "Mesh" (
	"Id"	INTEGER NOT NULL UNIQUE,
	"FileName"	TEXT NOT NULL,
	"Directory"	TEXT NOT NULL,
	PRIMARY KEY("Id")
)"#;

pub const CREATE_MESH_OBJECT_TABLE: &'static str = r#"CREATE TABLE "MeshObject" (
    "Id"	INTEGER NOT NULL UNIQUE,
    "MeshId" INTEGER NOT NULL,
	"Name"	TEXT NOT NULL,
    "SubIndex"	INTEGER NOT NULL,
    FOREIGN KEY("MeshId") REFERENCES "Mesh"("Id")
	PRIMARY KEY("Id")
)"#;

pub const CREATE_MESH_ATTRIBUTE_TABLE: &'static str = r#"CREATE TABLE "MeshAttribute" (
    "Id"	INTEGER NOT NULL UNIQUE,
    "MeshObjectId" INTEGER NOT NULL,
    "Name"	TEXT NOT NULL,
    FOREIGN KEY("MeshObjectId") REFERENCES "MeshObject"("Id")
	PRIMARY KEY("Id")
)"#;

pub const CREATE_MATL_TABLE: &'static str = r#"CREATE TABLE "Matl" (
	"Id"	INTEGER NOT NULL UNIQUE,
	"FileName"	TEXT NOT NULL,
	"Directory"	TEXT NOT NULL,
	PRIMARY KEY("Id")
)"#;

pub const CREATE_XMB_TABLE: &'static str = r#"CREATE TABLE "Xmb" (
	"Id"	INTEGER NOT NULL UNIQUE,
	"FileName"	TEXT NOT NULL,
	"Directory"	TEXT NOT NULL,
	PRIMARY KEY("Id")
)"#;

pub const CREATE_XMB_ENTRY_TABLE: &'static str = r#"CREATE TABLE "XmbEntry" (
    "Id"	INTEGER NOT NULL UNIQUE,
    "XmbId" INTEGER NOT NULL,
    "Name"	TEXT NOT NULL,
    FOREIGN KEY("XmbId") REFERENCES "Xmb"("Id")
	PRIMARY KEY("Id")
)"#;

pub const CREATE_XMB_ATTRIBUTE_TABLE: &'static str = r#"CREATE TABLE "XmbAttribute" (
    "Id"	INTEGER NOT NULL UNIQUE,
    "XmbEntryId" INTEGER NOT NULL,
	"Name"	TEXT NOT NULL,
    "Value"	TEXT NOT NULL,
    FOREIGN KEY("XmbEntryId") REFERENCES "XmbEntry"("Id")
	PRIMARY KEY("Id")
)"#;

pub const CREATE_MATERIAL_TABLE: &'static str = r#"CREATE TABLE "Material" (
	"Id"	INTEGER NOT NULL UNIQUE,
	"MatlId"	INTEGER NOT NULL,
	"MaterialLabel"	TEXT NOT NULL,
    "ShaderLabel"	TEXT NOT NULL,
    FOREIGN KEY("MatlId") REFERENCES "Matl"("Id")
	PRIMARY KEY("Id")
)"#;

pub const CREATE_VECTOR_TABLE: &'static str = r#"CREATE TABLE "CustomVectorParam" (
	"Id"	INTEGER NOT NULL UNIQUE,
	"ParamId"	INTEGER NOT NULL,
	"MaterialId"	INTEGER NOT NULL,
	"X"	REAL NOT NULL,
	"Y"	REAL NOT NULL,
	"Z"	REAL NOT NULL,
    "W"	REAL NOT NULL,
    FOREIGN KEY("MaterialId") REFERENCES "Material"("Id"),
	FOREIGN KEY("ParamId") REFERENCES "CustomParam"("Id")
	PRIMARY KEY("Id")
)"#;

pub const CREATE_FLOAT_TABLE: &'static str = r#"CREATE TABLE "CustomFloatParam" (
	"Id"	INTEGER NOT NULL UNIQUE,
	"ParamId"	INTEGER,
	"MaterialId"	INTEGER NOT NULL,
    "Value"	INTEGER NOT NULL,
    FOREIGN KEY("MaterialId") REFERENCES "Material"("Id"),
	FOREIGN KEY("ParamId") REFERENCES "CustomParam"("Id")
	PRIMARY KEY("Id")
)"#;

pub const CREATE_BOOLEAN_TABLE: &'static str = r#"CREATE TABLE "CustomBooleanParam" (
	"Id"	INTEGER NOT NULL UNIQUE,
	"ParamId"	INTEGER NOT NULL,
	"MaterialId"	INTEGER NOT NULL,
    "Value"	INTEGER NOT NULL,
    PRIMARY KEY("Id"),
    FOREIGN KEY("MaterialId") REFERENCES "Material"("Id"),
	FOREIGN KEY("ParamId") REFERENCES "CustomParam"("Id")
)"#;

pub const CREATE_TEXTURE_TABLE: &'static str = r#"CREATE TABLE "Texture" (
	"Id"	INTEGER NOT NULL UNIQUE,
	"ParamId"	INTEGER NOT NULL,
	"MaterialId"	INTEGER NOT NULL,
    "Value"	TEXT,
    FOREIGN KEY("MaterialId") REFERENCES "Material"("Id"),
	FOREIGN KEY("ParamId") REFERENCES "CustomParam"("Id"),
	PRIMARY KEY("Id")
)"#;

pub const CREATE_BLENDSTATE_TABLE: &'static str = r#"CREATE TABLE "BlendState" (
	"Id"	INTEGER NOT NULL UNIQUE,
    "ParamId"	INTEGER NOT NULL,
	"MaterialId"	INTEGER NOT NULL,
	"SourceColor"	INTEGER NOT NULL,
	"Unk2"	INTEGER NOT NULL,
	"DestinationColor"	INTEGER NOT NULL,
	"Unk4"	INTEGER NOT NULL,
	"Unk5"	INTEGER NOT NULL,
	"Unk6"	INTEGER NOT NULL,
	"Unk7"	INTEGER NOT NULL,
	"Unk8"	INTEGER NOT NULL,
	"Unk9"	INTEGER NOT NULL,
	"Unk10"	INTEGER NOT NULL,
    FOREIGN KEY("MaterialId") REFERENCES "Material"("Id"),
	FOREIGN KEY("ParamId") REFERENCES "CustomParam"("Id"),
	PRIMARY KEY("Id")
)"#;

pub const CREATE_RASTERIZERSTATE_TABLE: &'static str = r#"CREATE TABLE "RasterizerState" (
	"Id"	INTEGER NOT NULL UNIQUE,
    "ParamId"	INTEGER NOT NULL,
	"MaterialId"	INTEGER NOT NULL,
	"FillMode"	INTEGER NOT NULL,
	"CullMode"	INTEGER NOT NULL,
	"DepthBias"	REAL NOT NULL,
	"Unk4"	REAL NOT NULL,
	"Unk5"	REAL NOT NULL,
	"Unk6"	INTEGER NOT NULL,
    FOREIGN KEY("MaterialId") REFERENCES "Material"("Id"),
	FOREIGN KEY("ParamId") REFERENCES "CustomParam"("Id"),
	PRIMARY KEY("Id")
)"#;

pub const CREATE_SAMPLER_TABLE: &'static str = r#"CREATE TABLE "Sampler" (
	"Id"	INTEGER NOT NULL UNIQUE,
	"ParamId"	INTEGER NOT NULL,
	"MaterialId"	INTEGER NOT NULL,
	"Wraps"	INTEGER NOT NULL,
	"Wrapt"	INTEGER NOT NULL,
	"Wrapr"	INTEGER NOT NULL,
	"MinFilter"	INTEGER NOT NULL,
	"MagFilter"	INTEGER NOT NULL,
	"TextureFilteringType"	INTEGER NOT NULL,
	"BorderColorR"	Real NOT NULL,
	"BorderColorG"	Real NOT NULL,
	"BorderColorB"	Real NOT NULL,
	"BorderColorA"	Real NOT NULL,
	"Unk11"	INTEGER NOT NULL,
	"Unk12"	INTEGER NOT NULL,
	"LodBias"	REAL NOT NULL,
    "MaxAnisotropy"	INTEGER NOT NULL,
    PRIMARY KEY("Id"),
    FOREIGN KEY("MaterialId") REFERENCES "Material"("Id"),
	FOREIGN KEY("ParamId") REFERENCES "CustomParam"("Id")
)"#;

/// The statement that seeds one entry of the parameter-name dictionary.
pub const INSERT_CUSTOM_PARAM: &'static str = "INSERT INTO CustomParam(Id,Name) VALUES(?,?)";

/// Indexes on the material and parameter references of the attribute tables.
pub const CREATE_INDEXES: &'static str = "CREATE INDEX BlendState_MaterialId_Idx ON BlendState(MaterialId);
        CREATE INDEX CustomBooleanParam_MaterialId_Idx ON CustomBooleanParam(MaterialId);
        CREATE INDEX CustomFloatParam_MaterialId_Idx ON CustomFloatParam(MaterialId);
        CREATE INDEX CustomVectorParam_MaterialId_Idx ON CustomVectorParam(MaterialId);
        CREATE INDEX RasterizerState_MaterialId_Idx ON RasterizerState(MaterialId);
        CREATE INDEX Sampler_MaterialId_Idx ON Sampler(MaterialId);
        CREATE INDEX Texture_MaterialId_Idx ON Texture(MaterialId);
        CREATE INDEX BlendState_ParamId_Idx ON BlendState(ParamId);
        CREATE INDEX CustomBooleanParam_ParamId_Idx ON CustomBooleanParam(ParamId);
        CREATE INDEX CustomFloatParam_ParamId_Idx ON CustomFloatParam(ParamId);
        CREATE INDEX CustomVectorParam_ParamId_Idx ON CustomVectorParam(ParamId);
        CREATE INDEX RasterizerState_ParamId_Idx ON RasterizerState(ParamId);
        CREATE INDEX Sampler_ParamId_Idx ON Sampler(ParamId);
        CREATE INDEX Texture_ParamId_Idx ON Texture(ParamId);";

/// Reclaims unused space in the database file.
pub const VACUUM: &'static str = "VACUUM;";

/// The number of entries in the parameter-name dictionary.
pub const CUSTOM_PARAM_COUNT: usize = 366;

/// The known material parameter names; a name's position is its identifier.
pub const CUSTOM_PARAM_NAMES: [&'static str; 366] = [
    "Diffuse",
    "Specular",
    "Ambient",
    "BlendMap",
    "Transparency",
    "DiffuseMapLayer1",
    "CosinePower",
    "SpecularPower",
    "Fresnel",
    "Roughness",
    "EmissiveScale",
    "EnableDiffuse",
    "EnableSpecular",
    "EnableAmbient",
    "DiffuseMapLayer2",
    "EnableTransparency",
    "EnableOpacity",
    "EnableCosinePower",
    "EnableSpecularPower",
    "EnableFresnel",
    "EnableRoughness",
    "EnableEmissiveScale",
    "WorldMatrix",
    "ViewMatrix",
    "ProjectionMatrix",
    "WorldViewMatrix",
    "ViewInverseMatrix",
    "ViewProjectionMatrix",
    "WorldViewProjectionMatrix",
    "WorldInverseTransposeMatrix",
    "DiffuseMap",
    "SpecularMap",
    "AmbientMap",
    "EmissiveMap",
    "SpecularMapLayer1",
    "TransparencyMap",
    "NormalMap",
    "DiffuseCubeMap",
    "ReflectionMap",
    "ReflectionCubeMap",
    "RefractionMap",
    "AmbientOcclusionMap",
    "LightMap",
    "AnisotropicMap",
    "RoughnessMap",
    "ReflectionMask",
    "OpacityMask",
    "UseDiffuseMap",
    "UseSpecularMap",
    "UseAmbientMap",
    "UseEmissiveMap",
    "UseTranslucencyMap",
    "UseTransparencyMap",
    "UseNormalMap",
    "UseDiffuseCubeMap",
    "UseReflectionMap",
    "UseReflectionCubeMap",
    "UseRefractionMap",
    "UseAmbientOcclusionMap",
    "UseLightMap",
    "UseAnisotropicMap",
    "UseRoughnessMap",
    "UseReflectionMask",
    "UseOpacityMask",
    "DiffuseSampler",
    "SpecularSampler",
    "NormalSampler",
    "ReflectionSampler",
    "SpecularMapLayer2",
    "NormalMapLayer1",
    "NormalMapBc5",
    "NormalMapLayer2",
    "RoughnessMapLayer1",
    "RoughnessMapLayer2",
    "UseDiffuseUvTransform1",
    "UseDiffuseUvTransform2",
    "UseSpecularUvTransform1",
    "UseSpecularUvTransform2",
    "UseNormalUvTransform1",
    "UseNormalUvTransform2",
    "ShadowDepthBias",
    "ShadowMap0",
    "ShadowMap1",
    "ShadowMap2",
    "ShadowMap3",
    "ShadowMap4",
    "ShadowMap5",
    "ShadowMap6",
    "ShadowMap7",
    "CastShadow",
    "ReceiveShadow",
    "ShadowMapSampler",
    "Texture0",
    "Texture1",
    "Texture2",
    "Texture3",
    "Texture4",
    "Texture5",
    "Texture6",
    "Texture7",
    "Texture8",
    "Texture9",
    "Texture10",
    "Texture11",
    "Texture12",
    "Texture13",
    "Texture14",
    "Texture15",
    "Sampler0",
    "Sampler1",
    "Sampler2",
    "Sampler3",
    "Sampler4",
    "Sampler5",
    "Sampler6",
    "Sampler7",
    "Sampler8",
    "Sampler9",
    "Sampler10",
    "Sampler11",
    "Sampler12",
    "Sampler13",
    "Sampler14",
    "Sampler15",
    "CustomBuffer0",
    "CustomBuffer1",
    "CustomBuffer2",
    "CustomBuffer3",
    "CustomBuffer4",
    "CustomBuffer5",
    "CustomBuffer6",
    "CustomBuffer7",
    "CustomMatrix0",
    "CustomMatrix1",
    "CustomMatrix2",
    "CustomMatrix3",
    "CustomMatrix4",
    "CustomMatrix5",
    "CustomMatrix6",
    "CustomMatrix7",
    "CustomMatrix8",
    "CustomMatrix9",
    "CustomMatrix10",
    "CustomMatrix11",
    "CustomMatrix12",
    "CustomMatrix13",
    "CustomMatrix14",
    "CustomMatrix15",
    "CustomMatrix16",
    "CustomMatrix17",
    "CustomMatrix18",
    "CustomMatrix19",
    "CustomVector0",
    "CustomVector1",
    "CustomVector2",
    "CustomVector3",
    "CustomVector4",
    "CustomVector5",
    "CustomVector6",
    "CustomVector7",
    "CustomVector8",
    "CustomVector9",
    "CustomVector10",
    "CustomVector11",
    "CustomVector12",
    "CustomVector13",
    "CustomVector14",
    "CustomVector15",
    "CustomVector16",
    "CustomVector17",
    "CustomVector18",
    "CustomVector19",
    "CustomColor0",
    "CustomColor1",
    "CustomColor2",
    "CustomColor3",
    "CustomColor4",
    "CustomColor5",
    "CustomColor6",
    "CustomColor7",
    "CustomColor8",
    "CustomColor9",
    "CustomColor10",
    "CustomColor11",
    "CustomColor12",
    "CustomColor13",
    "CustomColor14",
    "CustomColor15",
    "CustomColor16",
    "CustomColor17",
    "CustomColor18",
    "CustomColor19",
    "CustomFloat0",
    "CustomFloat1",
    "CustomFloat2",
    "CustomFloat3",
    "CustomFloat4",
    "CustomFloat5",
    "CustomFloat6",
    "CustomFloat7",
    "CustomFloat8",
    "CustomFloat9",
    "CustomFloat10",
    "CustomFloat11",
    "CustomFloat12",
    "CustomFloat13",
    "CustomFloat14",
    "CustomFloat15",
    "CustomFloat16",
    "CustomFloat17",
    "CustomFloat18",
    "CustomFloat19",
    "CustomInteger0",
    "CustomInteger1",
    "CustomInteger2",
    "CustomInteger3",
    "CustomInteger4",
    "CustomInteger5",
    "CustomInteger6",
    "CustomInteger7",
    "CustomInteger8",
    "CustomInteger9",
    "CustomInteger10",
    "CustomInteger11",
    "CustomInteger12",
    "CustomInteger13",
    "CustomInteger14",
    "CustomInteger15",
    "CustomInteger16",
    "CustomInteger17",
    "CustomInteger18",
    "CustomInteger19",
    "CustomBoolean0",
    "CustomBoolean1",
    "CustomBoolean2",
    "CustomBoolean3",
    "CustomBoolean4",
    "CustomBoolean5",
    "CustomBoolean6",
    "CustomBoolean7",
    "CustomBoolean8",
    "CustomBoolean9",
    "CustomBoolean10",
    "CustomBoolean11",
    "CustomBoolean12",
    "CustomBoolean13",
    "CustomBoolean14",
    "CustomBoolean15",
    "CustomBoolean16",
    "CustomBoolean17",
    "CustomBoolean18",
    "CustomBoolean19",
    "UvTransform0",
    "UvTransform1",
    "UvTransform2",
    "UvTransform3",
    "UvTransform4",
    "UvTransform5",
    "UvTransform6",
    "UvTransform7",
    "UvTransform8",
    "UvTransform9",
    "UvTransform10",
    "UvTransform11",
    "UvTransform12",
    "UvTransform13",
    "UvTransform14",
    "UvTransform15",
    "DiffuseUvTransform1",
    "DiffuseUvTransform2",
    "SpecularUvTransform1",
    "SpecularUvTransform2",
    "NormalUvTransform1",
    "NormalUvTransform2",
    "DiffuseUvTransform",
    "SpecularUvTransform",
    "NormalUvTransform",
    "UseDiffuseUvTransform",
    "UseSpecularUvTransform",
    "UseNormalUvTransform",
    "BlendState0",
    "BlendState1",
    "BlendState2",
    "BlendState3",
    "BlendState4",
    "BlendState5",
    "BlendState6",
    "BlendState7",
    "BlendState8",
    "BlendState9",
    "BlendState10",
    "RasterizerState0",
    "RasterizerState1",
    "RasterizerState2",
    "RasterizerState3",
    "RasterizerState4",
    "RasterizerState5",
    "RasterizerState6",
    "RasterizerState7",
    "RasterizerState8",
    "RasterizerState9",
    "RasterizerState10",
    "ShadowColor",
    "EmissiveMapLayer1",
    "EmissiveMapLayer2",
    "AlphaTestFunc",
    "AlphaTestRef",
    "Texture16",
    "Texture17",
    "Texture18",
    "Texture19",
    "Sampler16",
    "Sampler17",
    "Sampler18",
    "Sampler19",
    "CustomVector20",
    "CustomVector21",
    "CustomVector22",
    "CustomVector23",
    "CustomVector24",
    "CustomVector25",
    "CustomVector26",
    "CustomVector27",
    "CustomVector28",
    "CustomVector29",
    "CustomVector30",
    "CustomVector31",
    "CustomVector32",
    "CustomVector33",
    "CustomVector34",
    "CustomVector35",
    "CustomVector36",
    "CustomVector37",
    "CustomVector38",
    "CustomVector39",
    "CustomVector40",
    "CustomVector41",
    "CustomVector42",
    "CustomVector43",
    "CustomVector44",
    "CustomVector45",
    "CustomVector46",
    "CustomVector47",
    "CustomVector48",
    "CustomVector49",
    "CustomVector50",
    "CustomVector51",
    "CustomVector52",
    "CustomVector53",
    "CustomVector54",
    "CustomVector55",
    "CustomVector56",
    "CustomVector57",
    "CustomVector58",
    "CustomVector59",
    "CustomVector60",
    "CustomVector61",
    "CustomVector62",
    "CustomVector63",
    "UseBaseColorMap",
    "UseMetallicMap",
    "BaseColorMap",
    "BaseColorMapLayer1",
    "MetallicMap",
    "MetallicMapLayer1",
    "DiffuseLightingAoOffset",
];

/// Every table, in creation order.
pub open spec fn create_table_sql() -> Seq<&'static str> {
    seq![
        CREATE_DIRECTORY_TABLE,
        CREATE_PARAM_TABLE,
        CREATE_MODL_TABLE,
        CREATE_MESH_TABLE,
        CREATE_MESH_OBJECT_TABLE,
        CREATE_MESH_ATTRIBUTE_TABLE,
        CREATE_MATL_TABLE,
        CREATE_XMB_TABLE,
        CREATE_XMB_ENTRY_TABLE,
        CREATE_XMB_ATTRIBUTE_TABLE,
        CREATE_MATERIAL_TABLE,
        CREATE_VECTOR_TABLE,
        CREATE_FLOAT_TABLE,
        CREATE_BOOLEAN_TABLE,
        CREATE_TEXTURE_TABLE,
        CREATE_BLENDSTATE_TABLE,
        CREATE_RASTERIZERSTATE_TABLE,
        CREATE_SAMPLER_TABLE,
    ]
}

/// The statements that create every table, in order.
pub fn create_tables() -> (r: Vec<&'static str>)
    ensures
        r@ == create_table_sql(),
{
    let mut r: Vec<&'static str> = Vec::new();
    r.push(CREATE_DIRECTORY_TABLE);
    r.push(CREATE_PARAM_TABLE);
    r.push(CREATE_MODL_TABLE);
    r.push(CREATE_MESH_TABLE);
    r.push(CREATE_MESH_OBJECT_TABLE);
    r.push(CREATE_MESH_ATTRIBUTE_TABLE);
    r.push(CREATE_MATL_TABLE);
    r.push(CREATE_XMB_TABLE);
    r.push(CREATE_XMB_ENTRY_TABLE);
    r.push(CREATE_XMB_ATTRIBUTE_TABLE);
    r.push(CREATE_MATERIAL_TABLE);
    r.push(CREATE_VECTOR_TABLE);
    r.push(CREATE_FLOAT_TABLE);
    r.push(CREATE_BOOLEAN_TABLE);
    r.push(CREATE_TEXTURE_TABLE);
    r.push(CREATE_BLENDSTATE_TABLE);
    r.push(CREATE_RASTERIZERSTATE_TABLE);
    r.push(CREATE_SAMPLER_TABLE);
    assert(r@ =~= create_table_sql());
    r
}

/// `s` inserts dictionary entry `i`: identifier `i` and the `i`-th name.
pub open spec fn seeds_param(s: Statement, i: int) -> bool {
    &&& s.sql@ == INSERT_CUSTOM_PARAM@
    &&& s.values@.len() == 2
    &&& s.values@[0] == SqlValue::Integer(i as i64)
    &&& s.values@[1] matches SqlValue::Text(name) && name@ == CUSTOM_PARAM_NAMES@[i]@
}

/// The statements that seed the parameter-name dictionary: one per name, in
/// order, binding the name's position as its identifier. Identifiers run
/// from zero without gaps, so the keyed table ends with exactly one row per
/// name and a second seeding cannot add any.
pub fn insert_custom_params() -> (r: Vec<Statement>)
    ensures
        r@.len() == CUSTOM_PARAM_COUNT,
        forall|i: int|
            0 <= i < r@.len() ==> seeds_param(#[trigger] r@[i], i),
        forall|i: int, j: int|
            0 <= i < j < r@.len() ==> #[trigger] r@[i].values@[0] != #[trigger] r@[j].values@[0],
{
    let mut r: Vec<Statement> = Vec::new();
    let mut i: usize = 0;
    while i < CUSTOM_PARAM_COUNT
        invariant
            i <= CUSTOM_PARAM_COUNT,
            r@.len() == i,
            forall|j: int|
                0 <= j < i ==> seeds_param(#[trigger] r@[j], j),
        decreases CUSTOM_PARAM_COUNT - i,
    {
        let mut values: Vec<SqlValue> = Vec::new();
        values.push(SqlValue::Integer(i as i64));
        values.push(SqlValue::Text(String::from_str(CUSTOM_PARAM_NAMES[i])));
        r.push(Statement { sql: String::from_str(INSERT_CUSTOM_PARAM), values });
        i = i + 1;
    }
    r
}

} // verus!
