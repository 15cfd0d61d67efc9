//! One row type per table, and the insert statement each row becomes.
use vstd::prelude::*;
use crate::keys::{KeyAllocator, Table};
use crate::sql::{get_sql_text, insert_sql, SqlValue, Statement};

verus! {

/// A folder, relative to the scan root, that holds at least one recorded file.
#[derive(Clone, Debug, PartialEq, Eq)]
pub struct DirectoryRecord {
    pub id: i64,
    pub path: String,
}

impl DirectoryRecord {
    /// Builds a row with the next identifier of its table and returns that
    /// identifier too, for the rows that refer to this one.
    pub fn create_record(keys: &mut KeyAllocator, path: String) -> (r: (i64, DirectoryRecord))
        requires
            old(keys).has_room(Table::Directory),
        ensures
            r.0 == old(keys).next(Table::Directory),
            r.1 == (DirectoryRecord { id: r.0, path }),
            *final(keys) == old(keys).bumped(Table::Directory),
    {
        let id = keys.allocate(Table::Directory);
        (id, DirectoryRecord { id, path })
    }
}

/// One parsed material container file.
#[derive(Clone, Debug, PartialEq, Eq)]
pub struct MatlRecord {
    pub id: i64,
    pub directory: String,
    pub file_name: String,
}

impl MatlRecord {
    /// Builds a row with the next identifier of its table and returns that
    /// identifier too, for the rows that refer to this one.
    pub fn create_record(keys: &mut KeyAllocator, directory: String, file_name: String) -> (r: (i64, MatlRecord))
        requires
            old(keys).has_room(Table::Matl),
        ensures
            r.0 == old(keys).next(Table::Matl),
            r.1 == (MatlRecord { id: r.0, directory, file_name }),
            *final(keys) == old(keys).bumped(Table::Matl),
    {
        let id = keys.allocate(Table::Matl);
        (id, MatlRecord { id, directory, file_name })
    }
}

/// One material entry of a material container.
#[derive(Clone, Debug, PartialEq, Eq)]
pub struct MaterialRecord {
    pub id: i64,
    pub matl_id: i64,
    pub material_label: String,
    pub shader_label: String,
}

impl MaterialRecord {
    /// Builds a row with the next identifier of its table and returns that
    /// identifier too, for the rows that refer to this one.
    pub fn create_record(keys: &mut KeyAllocator, matl_id: i64, material_label: String, shader_label: String) -> (r: (i64, MaterialRecord))
        requires
            old(keys).has_room(Table::Material),
        ensures
            r.0 == old(keys).next(Table::Material),
            r.1 == (MaterialRecord { id: r.0, matl_id, material_label, shader_label }),
            *final(keys) == old(keys).bumped(Table::Material),
    {
        let id = keys.allocate(Table::Material);
        (id, MaterialRecord { id, matl_id, material_label, shader_label })
    }
}

/// A boolean material attribute.
#[derive(Clone, Debug, PartialEq, Eq)]
pub struct BoolRecord {
    pub id: i64,
    pub param_id: u32,
    pub material_id: i64,
    pub value: bool,
}

impl BoolRecord {
    /// Builds a row with the next identifier of its table and returns that
    /// identifier too, for the rows that refer to this one.
    pub fn create_record(keys: &mut KeyAllocator, param_id: u32, material_id: i64, value: bool) -> (r: (i64, BoolRecord))
        requires
            old(keys).has_room(Table::Bool),
        ensures
            r.0 == old(keys).next(Table::Bool),
            r.1 == (BoolRecord { id: r.0, param_id, material_id, value }),
            *final(keys) == old(keys).bumped(Table::Bool),
    {
        let id = keys.allocate(Table::Bool);
        (id, BoolRecord { id, param_id, material_id, value })
    }
}

/// A float material attribute; the value is the bit pattern of a single-precision float.
#[derive(Clone, Debug, PartialEq, Eq)]
pub struct FloatRecord {
    pub id: i64,
    pub param_id: u32,
    pub material_id: i64,
    pub value: u32,
}

impl FloatRecord {
    /// Builds a row with the next identifier of its table and returns that
    /// identifier too, for the rows that refer to this one.
    pub fn create_record(keys: &mut KeyAllocator, param_id: u32, material_id: i64, value: u32) -> (r: (i64, FloatRecord))
        requires
            old(keys).has_room(Table::Float),
        ensures
            r.0 == old(keys).next(Table::Float),
            r.1 == (FloatRecord { id: r.0, param_id, material_id, value }),
            *final(keys) == old(keys).bumped(Table::Float),
    {
        let id = keys.allocate(Table::Float);
        (id, FloatRecord { id, param_id, material_id, value })
    }
}

/// A four-component material attribute; each component is the bit pattern of a single-precision float.
#[derive(Clone, Debug, PartialEq, Eq)]
pub struct Vector4Record {
    pub id: i64,
    pub param_id: u32,
    pub material_id: i64,
    pub x: u32,
    pub y: u32,
    pub z: u32,
    pub w: u32,
}

impl Vector4Record {
    /// Builds a row with the next identifier of its table and returns that
    /// identifier too, for the rows that refer to this one.
    pub fn create_record(keys: &mut KeyAllocator, param_id: u32, material_id: i64, x: u32, y: u32, z: u32, w: u32) -> (r: (i64, Vector4Record))
        requires
            old(keys).has_room(Table::Vector4),
        ensures
            r.0 == old(keys).next(Table::Vector4),
            r.1 == (Vector4Record { id: r.0, param_id, material_id, x, y, z, w }),
            *final(keys) == old(keys).bumped(Table::Vector4),
    {
        let id = keys.allocate(Table::Vector4);
        (id, Vector4Record { id, param_id, material_id, x, y, z, w })
    }
}

/// A texture path material attribute.
#[derive(Clone, Debug, PartialEq, Eq)]
pub struct TextureRecord {
    pub id: i64,
    pub param_id: u32,
    pub material_id: i64,
    pub value: String,
}

impl TextureRecord {
    /// Builds a row with the next identifier of its table and returns that
    /// identifier too, for the rows that refer to this one.
    pub fn create_record(keys: &mut KeyAllocator, param_id: u32, material_id: i64, value: String) -> (r: (i64, TextureRecord))
        requires
            old(keys).has_room(Table::Texture),
        ensures
            r.0 == old(keys).next(Table::Texture),
            r.1 == (TextureRecord { id: r.0, param_id, material_id, value }),
            *final(keys) == old(keys).bumped(Table::Texture),
    {
        let id = keys.allocate(Table::Texture);
        (id, TextureRecord { id, param_id, material_id, value })
    }
}

/// A sampler material attribute; colour and bias fields are single-precision float bit patterns.
#[derive(Clone, Debug, PartialEq, Eq)]
pub struct SamplerRecord {
    pub id: i64,
    pub param_id: u32,
    pub material_id: i64,
    pub wraps: u32,
    pub wrapt: u32,
    pub wrapr: u32,
    pub min_filter: u32,
    pub mag_filter: u32,
    pub texture_filtering_type: u32,
    pub border_color_r: u32,
    pub border_color_g: u32,
    pub border_color_b: u32,
    pub border_color_a: u32,
    pub unk11: u32,
    pub unk12: u32,
    pub lod_bias: u32,
    pub max_anisotropy: u32,
}

impl SamplerRecord {
    /// Builds a row with the next identifier of its table and returns that
    /// identifier too, for the rows that refer to this one.
    pub fn create_record(keys: &mut KeyAllocator, param_id: u32, material_id: i64, wraps: u32, wrapt: u32, wrapr: u32, min_filter: u32, mag_filter: u32, texture_filtering_type: u32, border_color_r: u32, border_color_g: u32, border_color_b: u32, border_color_a: u32, unk11: u32, unk12: u32, lod_bias: u32, max_anisotropy: u32) -> (r: (i64, SamplerRecord))
        requires
            old(keys).has_room(Table::Sampler),
        ensures
            r.0 == old(keys).next(Table::Sampler),
            r.1 == (SamplerRecord { id: r.0, param_id, material_id, wraps, wrapt, wrapr, min_filter, mag_filter, texture_filtering_type, border_color_r, border_color_g, border_color_b, border_color_a, unk11, unk12, lod_bias, max_anisotropy }),
            *final(keys) == old(keys).bumped(Table::Sampler),
    {
        let id = keys.allocate(Table::Sampler);
        (id, SamplerRecord { id, param_id, material_id, wraps, wrapt, wrapr, min_filter, mag_filter, texture_filtering_type, border_color_r, border_color_g, border_color_b, border_color_a, unk11, unk12, lod_bias, max_anisotropy })
    }
}

/// A rasterizer material attribute; depth bias and the two fields after it are single-precision float bit patterns.
#[derive(Clone, Debug, PartialEq, Eq)]
pub struct RasterizerRecord {
    pub id: i64,
    pub param_id: u32,
    pub material_id: i64,
    pub fill_mode: u32,
    pub cull_mode: u32,
    pub depth_bias: u32,
    pub unk4: u32,
    pub unk5: u32,
    pub unk6: u32,
}

impl RasterizerRecord {
    /// Builds a row with the next identifier of its table and returns that
    /// identifier too, for the rows that refer to this one.
    pub fn create_record(keys: &mut KeyAllocator, param_id: u32, material_id: i64, fill_mode: u32, cull_mode: u32, depth_bias: u32, unk4: u32, unk5: u32, unk6: u32) -> (r: (i64, RasterizerRecord))
        requires
            old(keys).has_room(Table::Rasterizer),
        ensures
            r.0 == old(keys).next(Table::Rasterizer),
            r.1 == (RasterizerRecord { id: r.0, param_id, material_id, fill_mode, cull_mode, depth_bias, unk4, unk5, unk6 }),
            *final(keys) == old(keys).bumped(Table::Rasterizer),
    {
        let id = keys.allocate(Table::Rasterizer);
        (id, RasterizerRecord { id, param_id, material_id, fill_mode, cull_mode, depth_bias, unk4, unk5, unk6 })
    }
}

/// A blend state material attribute.
#[derive(Clone, Debug, PartialEq, Eq)]
pub struct BlendStateRecord {
    pub id: i64,
    pub param_id: u32,
    pub material_id: i64,
    pub source_color: u32,
    pub unk2: u32,
    pub destination_color: u32,
    pub unk4: u32,
    pub unk5: u32,
    pub unk6: u32,
    pub unk7: u32,
    pub unk8: u32,
    pub unk9: u32,
    pub unk10: u32,
}

impl BlendStateRecord {
    /// Builds a row with the next identifier of its table and returns that
    /// identifier too, for the rows that refer to this one.
    pub fn create_record(keys: &mut KeyAllocator, param_id: u32, material_id: i64, source_color: u32, unk2: u32, destination_color: u32, unk4: u32, unk5: u32, unk6: u32, unk7: u32, unk8: u32, unk9: u32, unk10: u32) -> (r: (i64, BlendStateRecord))
        requires
            old(keys).has_room(Table::BlendState),
        ensures
            r.0 == old(keys).next(Table::BlendState),
            r.1 == (BlendStateRecord { id: r.0, param_id, material_id, source_color, unk2, destination_color, unk4, unk5, unk6, unk7, unk8, unk9, unk10 }),
            *final(keys) == old(keys).bumped(Table::BlendState),
    {
        let id = keys.allocate(Table::BlendState);
        (id, BlendStateRecord { id, param_id, material_id, source_color, unk2, destination_color, unk4, unk5, unk6, unk7, unk8, unk9, unk10 })
    }
}

/// One parsed model file with the files it refers to; only its first material file is kept.
#[derive(Clone, Debug, PartialEq, Eq)]
pub struct ModlRecord {
    pub id: i64,
    pub directory: String,
    pub file_name: String,
    pub model_file_name: String,
    pub skeleton_file_name: String,
    pub material_file_name: String,
}

impl ModlRecord {
    /// Builds a row with the next identifier of its table and returns that
    /// identifier too, for the rows that refer to this one.
    pub fn create_record(keys: &mut KeyAllocator, directory: String, file_name: String, model_file_name: String, skeleton_file_name: String, material_file_name: String) -> (r: (i64, ModlRecord))
        requires
            old(keys).has_room(Table::Modl),
        ensures
            r.0 == old(keys).next(Table::Modl),
            r.1 == (ModlRecord { id: r.0, directory, file_name, model_file_name, skeleton_file_name, material_file_name }),
            *final(keys) == old(keys).bumped(Table::Modl),
    {
        let id = keys.allocate(Table::Modl);
        (id, ModlRecord { id, directory, file_name, model_file_name, skeleton_file_name, material_file_name })
    }
}

/// One parsed mesh file.
#[derive(Clone, Debug, PartialEq, Eq)]
pub struct MeshRecord {
    pub id: i64,
    pub directory: String,
    pub file_name: String,
}

impl MeshRecord {
    /// Builds a row with the next identifier of its table and returns that
    /// identifier too, for the rows that refer to this one.
    pub fn create_record(keys: &mut KeyAllocator, directory: String, file_name: String) -> (r: (i64, MeshRecord))
        requires
            old(keys).has_room(Table::Mesh),
        ensures
            r.0 == old(keys).next(Table::Mesh),
            r.1 == (MeshRecord { id: r.0, directory, file_name }),
            *final(keys) == old(keys).bumped(Table::Mesh),
    {
        let id = keys.allocate(Table::Mesh);
        (id, MeshRecord { id, directory, file_name })
    }
}

/// One named sub-object of a mesh.
#[derive(Clone, Debug, PartialEq, Eq)]
pub struct MeshObjectRecord {
    pub id: i64,
    pub mesh_id: i64,
    pub name: String,
    pub sub_index: i64,
}

impl MeshObjectRecord {
    /// Builds a row with the next identifier of its table and returns that
    /// identifier too, for the rows that refer to this one.
    pub fn create_record(keys: &mut KeyAllocator, mesh_id: i64, name: String, sub_index: i64) -> (r: (i64, MeshObjectRecord))
        requires
            old(keys).has_room(Table::MeshObject),
        ensures
            r.0 == old(keys).next(Table::MeshObject),
            r.1 == (MeshObjectRecord { id: r.0, mesh_id, name, sub_index }),
            *final(keys) == old(keys).bumped(Table::MeshObject),
    {
        let id = keys.allocate(Table::MeshObject);
        (id, MeshObjectRecord { id, mesh_id, name, sub_index })
    }
}

/// One named vertex attribute of a mesh object.
#[derive(Clone, Debug, PartialEq, Eq)]
pub struct MeshAttributeRecord {
    pub id: i64,
    pub mesh_object_id: i64,
    pub name: String,
}

impl MeshAttributeRecord {
    /// Builds a row with the next identifier of its table and returns that
    /// identifier too, for the rows that refer to this one.
    pub fn create_record(keys: &mut KeyAllocator, mesh_object_id: i64, name: String) -> (r: (i64, MeshAttributeRecord))
        requires
            old(keys).has_room(Table::MeshAttribute),
        ensures
            r.0 == old(keys).next(Table::MeshAttribute),
            r.1 == (MeshAttributeRecord { id: r.0, mesh_object_id, name }),
            *final(keys) == old(keys).bumped(Table::MeshAttribute),
    {
        let id = keys.allocate(Table::MeshAttribute);
        (id, MeshAttributeRecord { id, mesh_object_id, name })
    }
}

/// One parsed metadata file.
#[derive(Clone, Debug, PartialEq, Eq)]
pub struct XmbRecord {
    pub id: i64,
    pub directory: String,
    pub file_name: String,
}

impl XmbRecord {
    /// Builds a row with the next identifier of its table and returns that
    /// identifier too, for the rows that refer to this one.
    pub fn create_record(keys: &mut KeyAllocator, directory: String, file_name: String) -> (r: (i64, XmbRecord))
        requires
            old(keys).has_room(Table::Xmb),
        ensures
            r.0 == old(keys).next(Table::Xmb),
            r.1 == (XmbRecord { id: r.0, directory, file_name }),
            *final(keys) == old(keys).bumped(Table::Xmb),
    {
        let id = keys.allocate(Table::Xmb);
        (id, XmbRecord { id, directory, file_name })
    }
}

/// One entry element of a metadata file.
#[derive(Clone, Debug, PartialEq, Eq)]
pub struct XmbEntryRecord {
    pub id: i64,
    pub xmb_id: i64,
    pub name: String,
}

impl XmbEntryRecord {
    /// Builds a row with the next identifier of its table and returns that
    /// identifier too, for the rows that refer to this one.
    pub fn create_record(keys: &mut KeyAllocator, xmb_id: i64, name: String) -> (r: (i64, XmbEntryRecord))
        requires
            old(keys).has_room(Table::XmbEntry),
        ensures
            r.0 == old(keys).next(Table::XmbEntry),
            r.1 == (XmbEntryRecord { id: r.0, xmb_id, name }),
            *final(keys) == old(keys).bumped(Table::XmbEntry),
    {
        let id = keys.allocate(Table::XmbEntry);
        (id, XmbEntryRecord { id, xmb_id, name })
    }
}

/// One name and value pair of a metadata entry.
#[derive(Clone, Debug, PartialEq, Eq)]
pub struct XmbAttributeRecord {
    pub id: i64,
    pub xmb_entry_id: i64,
    pub name: String,
    pub value: String,
}

impl XmbAttributeRecord {
    /// Builds a row with the next identifier of its table and returns that
    /// identifier too, for the rows that refer to this one.
    pub fn create_record(keys: &mut KeyAllocator, xmb_entry_id: i64, name: String, value: String) -> (r: (i64, XmbAttributeRecord))
        requires
            old(keys).has_room(Table::XmbAttribute),
        ensures
            r.0 == old(keys).next(Table::XmbAttribute),
            r.1 == (XmbAttributeRecord { id: r.0, xmb_entry_id, name, value }),
            *final(keys) == old(keys).bumped(Table::XmbAttribute),
    {
        let id = keys.allocate(Table::XmbAttribute);
        (id, XmbAttributeRecord { id, xmb_entry_id, name, value })
    }
}

/// A row of any table, in the order rows are created and inserted.
#[derive(Clone, Debug, PartialEq, Eq)]
pub enum Record {
    Directory(DirectoryRecord),
    Matl(MatlRecord),
    Material(MaterialRecord),
    Bool(BoolRecord),
    Float(FloatRecord),
    Vector4(Vector4Record),
    Texture(TextureRecord),
    Sampler(SamplerRecord),
    Rasterizer(RasterizerRecord),
    BlendState(BlendStateRecord),
    Modl(ModlRecord),
    Mesh(MeshRecord),
    MeshObject(MeshObjectRecord),
    MeshAttribute(MeshAttributeRecord),
    Xmb(XmbRecord),
    XmbEntry(XmbEntryRecord),
    XmbAttribute(XmbAttributeRecord),
}

/// The name of the table that holds rows of `t`.
pub open spec fn table_name(t: Table) -> &'static str {
    match t {
        Table::Directory => "Directory",
        Table::Matl => "Matl",
        Table::Material => "Material",
        Table::Bool => "CustomBooleanParam",
        Table::Float => "CustomFloatParam",
        Table::Vector4 => "CustomVectorParam",
        Table::Texture => "Texture",
        Table::Sampler => "Sampler",
        Table::Rasterizer => "RasterizerState",
        Table::BlendState => "BlendState",
        Table::Modl => "Modl",
        Table::Mesh => "Mesh",
        Table::MeshObject => "MeshObject",
        Table::MeshAttribute => "MeshAttribute",
        Table::Xmb => "Xmb",
        Table::XmbEntry => "XmbEntry",
        Table::XmbAttribute => "XmbAttribute",
    }
}

/// The columns of table `t`, comma separated, in the order values are bound.
pub open spec fn column_names(t: Table) -> &'static str {
    match t {
        Table::Directory => "Id,Path",
        Table::Matl => "Id,Directory,FileName",
        Table::Material => "Id,MatlId,MaterialLabel,ShaderLabel",
        Table::Bool => "Id,ParamId,MaterialId,Value",
        Table::Float => "Id,ParamId,MaterialId,Value",
        Table::Vector4 => "Id,ParamId,MaterialId,X,Y,Z,W",
        Table::Texture => "Id,ParamId,MaterialId,Value",
        Table::Sampler => "Id,ParamId,MaterialId,Wraps,Wrapt,Wrapr,MinFilter,MagFilter,TextureFilteringType,BorderColorR,BorderColorG,BorderColorB,BorderColorA,Unk11,Unk12,LodBias,MaxAnisotropy",
        Table::Rasterizer => "Id,ParamId,MaterialId,FillMode,CullMode,DepthBias,Unk4,Unk5,Unk6",
        Table::BlendState => "Id,ParamId,MaterialId,SourceColor,Unk2,DestinationColor,Unk4,Unk5,Unk6,Unk7,Unk8,Unk9,Unk10",
        Table::Modl => "Id,Directory,FileName,ModelFileName,SkeletonFileName,MaterialFileName",
        Table::Mesh => "Id,Directory,FileName",
        Table::MeshObject => "Id,MeshId,Name,SubIndex",
        Table::MeshAttribute => "Id,MeshObjectId,Name",
        Table::Xmb => "Id,Directory,FileName",
        Table::XmbEntry => "Id,XmbId,Name",
        Table::XmbAttribute => "Id,XmbEntryId,Name,Value",
    }
}

/// The number of columns of table `t`.
pub open spec fn column_count(t: Table) -> nat {
    match t {
        Table::Directory => 2,
        Table::Matl => 3,
        Table::Material => 4,
        Table::Bool => 4,
        Table::Float => 4,
        Table::Vector4 => 7,
        Table::Texture => 4,
        Table::Sampler => 17,
        Table::Rasterizer => 9,
        Table::BlendState => 13,
        Table::Modl => 6,
        Table::Mesh => 3,
        Table::MeshObject => 4,
        Table::MeshAttribute => 3,
        Table::Xmb => 3,
        Table::XmbEntry => 3,
        Table::XmbAttribute => 4,
    }
}

impl Record {
    /// The table this row belongs to.
    pub open spec fn table(self) -> Table {
        match self {
            Record::Directory(_) => Table::Directory,
            Record::Matl(_) => Table::Matl,
            Record::Material(_) => Table::Material,
            Record::Bool(_) => Table::Bool,
            Record::Float(_) => Table::Float,
            Record::Vector4(_) => Table::Vector4,
            Record::Texture(_) => Table::Texture,
            Record::Sampler(_) => Table::Sampler,
            Record::Rasterizer(_) => Table::Rasterizer,
            Record::BlendState(_) => Table::BlendState,
            Record::Modl(_) => Table::Modl,
            Record::Mesh(_) => Table::Mesh,
            Record::MeshObject(_) => Table::MeshObject,
            Record::MeshAttribute(_) => Table::MeshAttribute,
            Record::Xmb(_) => Table::Xmb,
            Record::XmbEntry(_) => Table::XmbEntry,
            Record::XmbAttribute(_) => Table::XmbAttribute,
        }
    }

    /// The surrogate identifier of this row within its table.
    pub open spec fn id(self) -> i64 {
        match self {
            Record::Directory(r) => r.id,
            Record::Matl(r) => r.id,
            Record::Material(r) => r.id,
            Record::Bool(r) => r.id,
            Record::Float(r) => r.id,
            Record::Vector4(r) => r.id,
            Record::Texture(r) => r.id,
            Record::Sampler(r) => r.id,
            Record::Rasterizer(r) => r.id,
            Record::BlendState(r) => r.id,
            Record::Modl(r) => r.id,
            Record::Mesh(r) => r.id,
            Record::MeshObject(r) => r.id,
            Record::MeshAttribute(r) => r.id,
            Record::Xmb(r) => r.id,
            Record::XmbEntry(r) => r.id,
            Record::XmbAttribute(r) => r.id,
        }
    }

    /// The table and identifier that name this row.
    pub open spec fn key(self) -> (Table, i64) {
        (self.table(), self.id())
    }

    /// The row this one refers to by identifier, if any.
    pub open spec fn parent(self) -> Option<(Table, i64)> {
        match self {
            Record::Material(r) => Some((Table::Matl, r.matl_id)),
            Record::Bool(r) => Some((Table::Material, r.material_id)),
            Record::Float(r) => Some((Table::Material, r.material_id)),
            Record::Vector4(r) => Some((Table::Material, r.material_id)),
            Record::Texture(r) => Some((Table::Material, r.material_id)),
            Record::Sampler(r) => Some((Table::Material, r.material_id)),
            Record::Rasterizer(r) => Some((Table::Material, r.material_id)),
            Record::BlendState(r) => Some((Table::Material, r.material_id)),
            Record::MeshObject(r) => Some((Table::Mesh, r.mesh_id)),
            Record::MeshAttribute(r) => Some((Table::MeshObject, r.mesh_object_id)),
            Record::XmbEntry(r) => Some((Table::Xmb, r.xmb_id)),
            Record::XmbAttribute(r) => Some((Table::XmbEntry, r.xmb_entry_id)),
            _ => None,
        }
    }

    /// Whether this row is a material attribute.
    pub open spec fn is_material_attribute(self) -> bool {
        self.parent() matches Some((Table::Material, _))
    }

    /// The directory a file-level row refers to; `None` for every other row.
    pub open spec fn directory(self) -> Option<Seq<char>> {
        match self {
            Record::Matl(r) => Some(r.directory@),
            Record::Modl(r) => Some(r.directory@),
            Record::Mesh(r) => Some(r.directory@),
            Record::Xmb(r) => Some(r.directory@),
            _ => None,
        }
    }

    /// The values of this row, one per column, in column order.
    pub open spec fn values(self) -> Seq<SqlValue> {
        match self {
            Record::Directory(r) => seq![SqlValue::Integer(r.id), SqlValue::Text(r.path)],
            Record::Matl(r) => seq![SqlValue::Integer(r.id), SqlValue::Text(r.directory), SqlValue::Text(r.file_name)],
            Record::Material(r) => seq![SqlValue::Integer(r.id), SqlValue::Integer(r.matl_id), SqlValue::Text(r.material_label), SqlValue::Text(r.shader_label)],
            Record::Bool(r) => seq![SqlValue::Integer(r.id), SqlValue::Integer(r.param_id as i64), SqlValue::Integer(r.material_id), SqlValue::Integer(if r.value { 1 } else { 0 })],
            Record::Float(r) => seq![SqlValue::Integer(r.id), SqlValue::Integer(r.param_id as i64), SqlValue::Integer(r.material_id), SqlValue::Real32(r.value)],
            Record::Vector4(r) => seq![SqlValue::Integer(r.id), SqlValue::Integer(r.param_id as i64), SqlValue::Integer(r.material_id), SqlValue::Real32(r.x), SqlValue::Real32(r.y), SqlValue::Real32(r.z), SqlValue::Real32(r.w)],
            Record::Texture(r) => seq![SqlValue::Integer(r.id), SqlValue::Integer(r.param_id as i64), SqlValue::Integer(r.material_id), SqlValue::Text(r.value)],
            Record::Sampler(r) => seq![SqlValue::Integer(r.id), SqlValue::Integer(r.param_id as i64), SqlValue::Integer(r.material_id), SqlValue::Integer(r.wraps as i64), SqlValue::Integer(r.wrapt as i64), SqlValue::Integer(r.wrapr as i64), SqlValue::Integer(r.min_filter as i64), SqlValue::Integer(r.mag_filter as i64), SqlValue::Integer(r.texture_filtering_type as i64), SqlValue::Real32(r.border_color_r), SqlValue::Real32(r.border_color_g), SqlValue::Real32(r.border_color_b), SqlValue::Real32(r.border_color_a), SqlValue::Integer(r.unk11 as i64), SqlValue::Integer(r.unk12 as i64), SqlValue::Real32(r.lod_bias), SqlValue::Integer(r.max_anisotropy as i64)],
            Record::Rasterizer(r) => seq![SqlValue::Integer(r.id), SqlValue::Integer(r.param_id as i64), SqlValue::Integer(r.material_id), SqlValue::Integer(r.fill_mode as i64), SqlValue::Integer(r.cull_mode as i64), SqlValue::Real32(r.depth_bias), SqlValue::Real32(r.unk4), SqlValue::Real32(r.unk5), SqlValue::Integer(r.unk6 as i64)],
            Record::BlendState(r) => seq![SqlValue::Integer(r.id), SqlValue::Integer(r.param_id as i64), SqlValue::Integer(r.material_id), SqlValue::Integer(r.source_color as i64), SqlValue::Integer(r.unk2 as i64), SqlValue::Integer(r.destination_color as i64), SqlValue::Integer(r.unk4 as i64), SqlValue::Integer(r.unk5 as i64), SqlValue::Integer(r.unk6 as i64), SqlValue::Integer(r.unk7 as i64), SqlValue::Integer(r.unk8 as i64), SqlValue::Integer(r.unk9 as i64), SqlValue::Integer(r.unk10 as i64)],
            Record::Modl(r) => seq![SqlValue::Integer(r.id), SqlValue::Text(r.directory), SqlValue::Text(r.file_name), SqlValue::Text(r.model_file_name), SqlValue::Text(r.skeleton_file_name), SqlValue::Text(r.material_file_name)],
            Record::Mesh(r) => seq![SqlValue::Integer(r.id), SqlValue::Text(r.directory), SqlValue::Text(r.file_name)],
            Record::MeshObject(r) => seq![SqlValue::Integer(r.id), SqlValue::Integer(r.mesh_id), SqlValue::Text(r.name), SqlValue::Integer(r.sub_index)],
            Record::MeshAttribute(r) => seq![SqlValue::Integer(r.id), SqlValue::Integer(r.mesh_object_id), SqlValue::Text(r.name)],
            Record::Xmb(r) => seq![SqlValue::Integer(r.id), SqlValue::Text(r.directory), SqlValue::Text(r.file_name)],
            Record::XmbEntry(r) => seq![SqlValue::Integer(r.id), SqlValue::Integer(r.xmb_id), SqlValue::Text(r.name)],
            Record::XmbAttribute(r) => seq![SqlValue::Integer(r.id), SqlValue::Integer(r.xmb_entry_id), SqlValue::Text(r.name), SqlValue::Text(r.value)],
        }
    }

    /// The table this row belongs to.
    pub fn get_table(&self) -> (t: Table)
        ensures
            t == self.table(),
    {
        match self {
            Record::Directory(_) => Table::Directory,
            Record::Matl(_) => Table::Matl,
            Record::Material(_) => Table::Material,
            Record::Bool(_) => Table::Bool,
            Record::Float(_) => Table::Float,
            Record::Vector4(_) => Table::Vector4,
            Record::Texture(_) => Table::Texture,
            Record::Sampler(_) => Table::Sampler,
            Record::Rasterizer(_) => Table::Rasterizer,
            Record::BlendState(_) => Table::BlendState,
            Record::Modl(_) => Table::Modl,
            Record::Mesh(_) => Table::Mesh,
            Record::MeshObject(_) => Table::MeshObject,
            Record::MeshAttribute(_) => Table::MeshAttribute,
            Record::Xmb(_) => Table::Xmb,
            Record::XmbEntry(_) => Table::XmbEntry,
            Record::XmbAttribute(_) => Table::XmbAttribute,
        }
    }

    /// The surrogate identifier of this row within its table.
    pub fn get_id(&self) -> (id: i64)
        ensures
            id == self.id(),
    {
        match self {
            Record::Directory(r) => r.id,
            Record::Matl(r) => r.id,
            Record::Material(r) => r.id,
            Record::Bool(r) => r.id,
            Record::Float(r) => r.id,
            Record::Vector4(r) => r.id,
            Record::Texture(r) => r.id,
            Record::Sampler(r) => r.id,
            Record::Rasterizer(r) => r.id,
            Record::BlendState(r) => r.id,
            Record::Modl(r) => r.id,
            Record::Mesh(r) => r.id,
            Record::MeshObject(r) => r.id,
            Record::MeshAttribute(r) => r.id,
            Record::Xmb(r) => r.id,
            Record::XmbEntry(r) => r.id,
            Record::XmbAttribute(r) => r.id,
        }
    }

    /// The values of this row, one per column, in column order.
    pub fn sql_values(&self) -> (v: Vec<SqlValue>)
        ensures
            v@ == self.values(),
    {
        let mut v: Vec<SqlValue> = Vec::new();
        match self {
            Record::Directory(r) => {
                v.push(SqlValue::Integer(r.id));
                v.push(SqlValue::Text(r.path.clone()));
            },
            Record::Matl(r) => {
                v.push(SqlValue::Integer(r.id));
                v.push(SqlValue::Text(r.directory.clone()));
                v.push(SqlValue::Text(r.file_name.clone()));
            },
            Record::Material(r) => {
                v.push(SqlValue::Integer(r.id));
                v.push(SqlValue::Integer(r.matl_id));
                v.push(SqlValue::Text(r.material_label.clone()));
                v.push(SqlValue::Text(r.shader_label.clone()));
            },
            Record::Bool(r) => {
                v.push(SqlValue::Integer(r.id));
                v.push(SqlValue::Integer(r.param_id as i64));
                v.push(SqlValue::Integer(r.material_id));
                v.push(SqlValue::Integer(if r.value { 1 } else { 0 }));
            },
            Record::Float(r) => {
                v.push(SqlValue::Integer(r.id));
                v.push(SqlValue::Integer(r.param_id as i64));
                v.push(SqlValue::Integer(r.material_id));
                v.push(SqlValue::Real32(r.value));
            },
            Record::Vector4(r) => {
                v.push(SqlValue::Integer(r.id));
                v.push(SqlValue::Integer(r.param_id as i64));
                v.push(SqlValue::Integer(r.material_id));
                v.push(SqlValue::Real32(r.x));
                v.push(SqlValue::Real32(r.y));
                v.push(SqlValue::Real32(r.z));
                v.push(SqlValue::Real32(r.w));
            },
            Record::Texture(r) => {
                v.push(SqlValue::Integer(r.id));
                v.push(SqlValue::Integer(r.param_id as i64));
                v.push(SqlValue::Integer(r.material_id));
                v.push(SqlValue::Text(r.value.clone()));
            },
            Record::Sampler(r) => {
                v.push(SqlValue::Integer(r.id));
                v.push(SqlValue::Integer(r.param_id as i64));
                v.push(SqlValue::Integer(r.material_id));
                v.push(SqlValue::Integer(r.wraps as i64));
                v.push(SqlValue::Integer(r.wrapt as i64));
                v.push(SqlValue::Integer(r.wrapr as i64));
                v.push(SqlValue::Integer(r.min_filter as i64));
                v.push(SqlValue::Integer(r.mag_filter as i64));
                v.push(SqlValue::Integer(r.texture_filtering_type as i64));
                v.push(SqlValue::Real32(r.border_color_r));
                v.push(SqlValue::Real32(r.border_color_g));
                v.push(SqlValue::Real32(r.border_color_b));
                v.push(SqlValue::Real32(r.border_color_a));
                v.push(SqlValue::Integer(r.unk11 as i64));
                v.push(SqlValue::Integer(r.unk12 as i64));
                v.push(SqlValue::Real32(r.lod_bias));
                v.push(SqlValue::Integer(r.max_anisotropy as i64));
            },
            Record::Rasterizer(r) => {
                v.push(SqlValue::Integer(r.id));
                v.push(SqlValue::Integer(r.param_id as i64));
                v.push(SqlValue::Integer(r.material_id));
                v.push(SqlValue::Integer(r.fill_mode as i64));
                v.push(SqlValue::Integer(r.cull_mode as i64));
                v.push(SqlValue::Real32(r.depth_bias));
                v.push(SqlValue::Real32(r.unk4));
                v.push(SqlValue::Real32(r.unk5));
                v.push(SqlValue::Integer(r.unk6 as i64));
            },
            Record::BlendState(r) => {
                v.push(SqlValue::Integer(r.id));
                v.push(SqlValue::Integer(r.param_id as i64));
                v.push(SqlValue::Integer(r.material_id));
                v.push(SqlValue::Integer(r.source_color as i64));
                v.push(SqlValue::Integer(r.unk2 as i64));
                v.push(SqlValue::Integer(r.destination_color as i64));
                v.push(SqlValue::Integer(r.unk4 as i64));
                v.push(SqlValue::Integer(r.unk5 as i64));
                v.push(SqlValue::Integer(r.unk6 as i64));
                v.push(SqlValue::Integer(r.unk7 as i64));
                v.push(SqlValue::Integer(r.unk8 as i64));
                v.push(SqlValue::Integer(r.unk9 as i64));
                v.push(SqlValue::Integer(r.unk10 as i64));
            },
            Record::Modl(r) => {
                v.push(SqlValue::Integer(r.id));
                v.push(SqlValue::Text(r.directory.clone()));
                v.push(SqlValue::Text(r.file_name.clone()));
                v.push(SqlValue::Text(r.model_file_name.clone()));
                v.push(SqlValue::Text(r.skeleton_file_name.clone()));
                v.push(SqlValue::Text(r.material_file_name.clone()));
            },
            Record::Mesh(r) => {
                v.push(SqlValue::Integer(r.id));
                v.push(SqlValue::Text(r.directory.clone()));
                v.push(SqlValue::Text(r.file_name.clone()));
            },
            Record::MeshObject(r) => {
                v.push(SqlValue::Integer(r.id));
                v.push(SqlValue::Integer(r.mesh_id));
                v.push(SqlValue::Text(r.name.clone()));
                v.push(SqlValue::Integer(r.sub_index));
            },
            Record::MeshAttribute(r) => {
                v.push(SqlValue::Integer(r.id));
                v.push(SqlValue::Integer(r.mesh_object_id));
                v.push(SqlValue::Text(r.name.clone()));
            },
            Record::Xmb(r) => {
                v.push(SqlValue::Integer(r.id));
                v.push(SqlValue::Text(r.directory.clone()));
                v.push(SqlValue::Text(r.file_name.clone()));
            },
            Record::XmbEntry(r) => {
                v.push(SqlValue::Integer(r.id));
                v.push(SqlValue::Integer(r.xmb_id));
                v.push(SqlValue::Text(r.name.clone()));
            },
            Record::XmbAttribute(r) => {
                v.push(SqlValue::Integer(r.id));
                v.push(SqlValue::Integer(r.xmb_entry_id));
                v.push(SqlValue::Text(r.name.clone()));
                v.push(SqlValue::Text(r.value.clone()));
            },
        }
        assert(v@ =~= self.values());
        v
    }

    /// The statement that inserts this row into its table.
    pub fn insert_statement(&self) -> (s: Statement)
        ensures
            s.sql@ == insert_sql(table_name(self.table())@, column_names(self.table())@, column_count(self.table())),
            s.values@ == self.values(),
    {
        let t = self.get_table();
        let sql = get_sql_text(table_name_of(t), column_names_of(t), column_count_of(t));
        Statement { sql, values: self.sql_values() }
    }
}

/// The name of the table that holds rows of `t`.
pub fn table_name_of(t: Table) -> (r: &'static str)
    ensures
        r@ == table_name(t)@,
{
    match t {
        Table::Directory => "Directory",
        Table::Matl => "Matl",
        Table::Material => "Material",
        Table::Bool => "CustomBooleanParam",
        Table::Float => "CustomFloatParam",
        Table::Vector4 => "CustomVectorParam",
        Table::Texture => "Texture",
        Table::Sampler => "Sampler",
        Table::Rasterizer => "RasterizerState",
        Table::BlendState => "BlendState",
        Table::Modl => "Modl",
        Table::Mesh => "Mesh",
        Table::MeshObject => "MeshObject",
        Table::MeshAttribute => "MeshAttribute",
        Table::Xmb => "Xmb",
        Table::XmbEntry => "XmbEntry",
        Table::XmbAttribute => "XmbAttribute",
    }
}

/// The columns of table `t`, comma separated, in the order values are bound.
pub fn column_names_of(t: Table) -> (r: &'static str)
    ensures
        r@ == column_names(t)@,
{
    match t {
        Table::Directory => "Id,Path",
        Table::Matl => "Id,Directory,FileName",
        Table::Material => "Id,MatlId,MaterialLabel,ShaderLabel",
        Table::Bool => "Id,ParamId,MaterialId,Value",
        Table::Float => "Id,ParamId,MaterialId,Value",
        Table::Vector4 => "Id,ParamId,MaterialId,X,Y,Z,W",
        Table::Texture => "Id,ParamId,MaterialId,Value",
        Table::Sampler => "Id,ParamId,MaterialId,Wraps,Wrapt,Wrapr,MinFilter,MagFilter,TextureFilteringType,BorderColorR,BorderColorG,BorderColorB,BorderColorA,Unk11,Unk12,LodBias,MaxAnisotropy",
        Table::Rasterizer => "Id,ParamId,MaterialId,FillMode,CullMode,DepthBias,Unk4,Unk5,Unk6",
        Table::BlendState => "Id,ParamId,MaterialId,SourceColor,Unk2,DestinationColor,Unk4,Unk5,Unk6,Unk7,Unk8,Unk9,Unk10",
        Table::Modl => "Id,Directory,FileName,ModelFileName,SkeletonFileName,MaterialFileName",
        Table::Mesh => "Id,Directory,FileName",
        Table::MeshObject => "Id,MeshId,Name,SubIndex",
        Table::MeshAttribute => "Id,MeshObjectId,Name",
        Table::Xmb => "Id,Directory,FileName",
        Table::XmbEntry => "Id,XmbId,Name",
        Table::XmbAttribute => "Id,XmbEntryId,Name,Value",
    }
}

/// The number of columns of table `t`.
pub fn column_count_of(t: Table) -> (r: usize)
    ensures
        r as nat == column_count(t),
{
    match t {
        Table::Directory => 2,
        Table::Matl => 3,
        Table::Material => 4,
        Table::Bool => 4,
        Table::Float => 4,
        Table::Vector4 => 7,
        Table::Texture => 4,
        Table::Sampler => 17,
        Table::Rasterizer => 9,
        Table::BlendState => 13,
        Table::Modl => 6,
        Table::Mesh => 3,
        Table::MeshObject => 4,
        Table::MeshAttribute => 3,
        Table::Xmb => 3,
        Table::XmbEntry => 3,
        Table::XmbAttribute => 4,
    }
}

} // verus!
