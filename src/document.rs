//! What the fan-out reads of a parsed document, held as plain values.
//!
//! Single-precision floats are carried as their IEEE-754 bit patterns; text
//! that the container may hold unreadable is an `Option`.
use vstd::prelude::*;
use vstd::string::StrSliceExecFns;

verus! {

/// Sampler settings of one material attribute.
#[derive(Clone, Copy, Debug, PartialEq, Eq)]
pub struct SamplerState {
    pub wraps: u32,
    pub wrapt: u32,
    pub wrapr: u32,
    pub min_filter: u32,
    pub mag_filter: u32,
    pub texture_filtering_type: u32,
    pub border_color_r: u32,
    pub border_color_g: u32,
    pub border_color_b: u32,
    pub border_color_a: u32,
    pub unk11: u32,
    pub unk12: u32,
    pub lod_bias: u32,
    pub max_anisotropy: u32,
}

/// Rasterizer settings of one material attribute.
#[derive(Clone, Copy, Debug, PartialEq, Eq)]
pub struct RasterizerState {
    pub fill_mode: u32,
    pub cull_mode: u32,
    pub depth_bias: u32,
    pub unk4: u32,
    pub unk5: u32,
    pub unk6: u32,
}

/// Blend settings of one material attribute.
#[derive(Clone, Copy, Debug, PartialEq, Eq)]
pub struct BlendState {
    pub source_color: u32,
    pub unk2: u32,
    pub destination_color: u32,
    pub unk4: u32,
    pub unk5: u32,
    pub unk6: u32,
    pub unk7: u32,
    pub unk8: u32,
    pub unk9: u32,
    pub unk10: u32,
}

/// The value of a material attribute, by its encoded type tag.
#[derive(Clone, Debug, PartialEq, Eq)]
pub enum ParamValue {
    /// The raw flag word: any value above zero means true.
    Boolean(u32),
    Float(u32),
    Vector4(u32, u32, u32, u32),
    /// A texture path; `None` where its bytes are not readable text.
    Text(Option<String>),
    Sampler(SamplerState),
    BlendState(BlendState),
    RasterizerState(RasterizerState),
    /// A type tag that the database does not model, or an attribute without data.
    Unsupported,
}

#[derive(Clone, Debug, PartialEq, Eq)]
pub struct MatlAttribute {
    pub param_id: u32,
    pub value: ParamValue,
}

#[derive(Clone, Debug, PartialEq, Eq)]
pub struct MatlEntry {
    pub material_label: Option<String>,
    pub shader_label: Option<String>,
    pub attributes: Vec<MatlAttribute>,
}

/// A container of materials.
#[derive(Clone, Debug, PartialEq, Eq)]
pub struct MatlDocument {
    pub entries: Vec<MatlEntry>,
}

/// One named vertex-attribute slot; its first name is the one recorded.
#[derive(Clone, Debug, PartialEq, Eq)]
pub struct MeshAttribute {
    pub names: Vec<Option<String>>,
}

#[derive(Clone, Debug, PartialEq, Eq)]
pub struct MeshObject {
    pub name: Option<String>,
    pub sub_index: i64,
    /// `None` for the older document version, which carries no attribute names.
    pub attributes: Option<Vec<MeshAttribute>>,
}

#[derive(Clone, Debug, PartialEq, Eq)]
pub struct MeshDocument {
    pub objects: Vec<MeshObject>,
}

#[derive(Clone, Debug, PartialEq, Eq)]
pub struct ModlDocument {
    pub model_file_name: Option<String>,
    pub skeleton_file_name: Option<String>,
    pub material_file_names: Vec<Option<String>>,
}

#[derive(Clone, Debug, PartialEq, Eq)]
pub struct XmbEntry {
    pub name: String,
    /// Name and value pairs, in document order.
    pub attributes: Vec<(String, String)>,
}

#[derive(Clone, Debug, PartialEq, Eq)]
pub struct XmbDocument {
    pub entries: Vec<XmbEntry>,
}

/// A parsed input file, by kind.
#[derive(Clone, Debug, PartialEq, Eq)]
pub enum Document {
    Matl(MatlDocument),
    Modl(ModlDocument),
    Mesh(MeshDocument),
    Xmb(XmbDocument),
    /// A container kind that the database does not model.
    Other,
}

/// One discovered file: its name, its directory relative to the scan root,
/// and its document, or `None` where it could not be parsed.
#[derive(Clone, Debug, PartialEq, Eq)]
pub struct SourceFile {
    pub file_name: String,
    pub directory: String,
    pub document: Option<Document>,
}

/// The two parsers that an input file can be handed to.
#[derive(Clone, Copy, Debug, PartialEq, Eq, Structural)]
pub enum DocumentFamily {
    /// The XML-like metadata format.
    Xmb,
    /// The binary container format, whose kind is read from the document itself.
    Ssbh,
}

/// The files a scan picks up, by suffix.
pub const FILE_PATTERN: &'static str = "*.{numatb,numdlb,numshb,xmb}";

/// Which parser a file goes to, by its extension: `xmb` files are metadata
/// documents, every other scanned file is a binary container.
pub fn document_family(extension: &str) -> (f: DocumentFamily)
    ensures
        f == if extension@ == "xmb"@ {
            DocumentFamily::Xmb
        } else {
            DocumentFamily::Ssbh
        },
{
    proof {
        reveal_strlit("xmb");
    }
    if extension.unicode_len() == 3 && extension.get_char(0) == 'x' && extension.get_char(1) == 'm'
        && extension.get_char(2) == 'b' {
        assert(extension@ =~= "xmb"@);
        DocumentFamily::Xmb
    } else {
        proof {
            if extension@ == "xmb"@ {
                assert(extension@[0] == 'x' && extension@[1] == 'm' && extension@[2] == 'b');
            }
        }
        DocumentFamily::Ssbh
    }
}

} // verus!
