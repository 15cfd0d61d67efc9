//! Surrogate primary keys, handed out per table in creation order.
use vstd::prelude::*;

verus! {

/// The tables whose rows are produced from documents.
#[derive(Clone, Copy, Debug, PartialEq, Eq, Structural)]
pub enum Table {
    Directory,
    Matl,
    Material,
    Bool,
    Float,
    Vector4,
    Texture,
    Sampler,
    Rasterizer,
    BlendState,
    Modl,
    Mesh,
    MeshObject,
    MeshAttribute,
    Xmb,
    XmbEntry,
    XmbAttribute,
}

/// One running counter per table: the identifier the next row of that table gets.
#[derive(Clone, Copy, Debug, PartialEq, Eq, Structural)]
pub struct KeyAllocator {
    pub directory: i64,
    pub matl: i64,
    pub material: i64,
    pub bool_param: i64,
    pub float_param: i64,
    pub vector4: i64,
    pub texture: i64,
    pub sampler: i64,
    pub rasterizer: i64,
    pub blend_state: i64,
    pub modl: i64,
    pub mesh: i64,
    pub mesh_object: i64,
    pub mesh_attribute: i64,
    pub xmb: i64,
    pub xmb_entry: i64,
    pub xmb_attribute: i64,
}

impl KeyAllocator {
    /// The identifier the next row of table `t` receives.
    pub open spec fn next(self, t: Table) -> i64 {
        match t {
            Table::Directory => self.directory,
            Table::Matl => self.matl,
            Table::Material => self.material,
            Table::Bool => self.bool_param,
            Table::Float => self.float_param,
            Table::Vector4 => self.vector4,
            Table::Texture => self.texture,
            Table::Sampler => self.sampler,
            Table::Rasterizer => self.rasterizer,
            Table::BlendState => self.blend_state,
            Table::Modl => self.modl,
            Table::Mesh => self.mesh,
            Table::MeshObject => self.mesh_object,
            Table::MeshAttribute => self.mesh_attribute,
            Table::Xmb => self.xmb,
            Table::XmbEntry => self.xmb_entry,
            Table::XmbAttribute => self.xmb_attribute,
        }
    }

    /// The counters after one identifier of table `t` was handed out.
    pub open spec fn bumped(self, t: Table) -> KeyAllocator {
        let n = (self.next(t) + 1) as i64;
        match t {
            Table::Directory => KeyAllocator { directory: n, ..self },
            Table::Matl => KeyAllocator { matl: n, ..self },
            Table::Material => KeyAllocator { material: n, ..self },
            Table::Bool => KeyAllocator { bool_param: n, ..self },
            Table::Float => KeyAllocator { float_param: n, ..self },
            Table::Vector4 => KeyAllocator { vector4: n, ..self },
            Table::Texture => KeyAllocator { texture: n, ..self },
            Table::Sampler => KeyAllocator { sampler: n, ..self },
            Table::Rasterizer => KeyAllocator { rasterizer: n, ..self },
            Table::BlendState => KeyAllocator { blend_state: n, ..self },
            Table::Modl => KeyAllocator { modl: n, ..self },
            Table::Mesh => KeyAllocator { mesh: n, ..self },
            Table::MeshObject => KeyAllocator { mesh_object: n, ..self },
            Table::MeshAttribute => KeyAllocator { mesh_attribute: n, ..self },
            Table::Xmb => KeyAllocator { xmb: n, ..self },
            Table::XmbEntry => KeyAllocator { xmb_entry: n, ..self },
            Table::XmbAttribute => KeyAllocator { xmb_attribute: n, ..self },
        }
    }

    /// Whether table `t` still has an identifier to hand out.
    pub open spec fn has_room(self, t: Table) -> bool {
        self.next(t) < i64::MAX
    }

    /// Every counter at zero: the state at the start of a run.
    pub open spec fn is_fresh(self) -> bool {
        forall|t: Table| #[trigger] self.next(t) == 0
    }

    /// Every counter at zero.
    pub open spec fn zero() -> KeyAllocator {
        KeyAllocator {
            directory: 0,
            matl: 0,
            material: 0,
            bool_param: 0,
            float_param: 0,
            vector4: 0,
            texture: 0,
            sampler: 0,
            rasterizer: 0,
            blend_state: 0,
            modl: 0,
            mesh: 0,
            mesh_object: 0,
            mesh_attribute: 0,
            xmb: 0,
            xmb_entry: 0,
            xmb_attribute: 0,
        }
    }

    /// Counters that start a run: every table begins at identifier zero.
    pub fn new() -> (r: KeyAllocator)
        ensures
            r == KeyAllocator::zero(),
            r.is_fresh(),
    {
        KeyAllocator {
            directory: 0,
            matl: 0,
            material: 0,
            bool_param: 0,
            float_param: 0,
            vector4: 0,
            texture: 0,
            sampler: 0,
            rasterizer: 0,
            blend_state: 0,
            modl: 0,
            mesh: 0,
            mesh_object: 0,
            mesh_attribute: 0,
            xmb: 0,
            xmb_entry: 0,
            xmb_attribute: 0,
        }
    }

    /// The identifier that the next row of table `t` receives, without taking it.
    pub fn peek(&self, t: Table) -> (r: i64)
        ensures
            r == self.next(t),
    {
        match t {
            Table::Directory => self.directory,
            Table::Matl => self.matl,
            Table::Material => self.material,
            Table::Bool => self.bool_param,
            Table::Float => self.float_param,
            Table::Vector4 => self.vector4,
            Table::Texture => self.texture,
            Table::Sampler => self.sampler,
            Table::Rasterizer => self.rasterizer,
            Table::BlendState => self.blend_state,
            Table::Modl => self.modl,
            Table::Mesh => self.mesh,
            Table::MeshObject => self.mesh_object,
            Table::MeshAttribute => self.mesh_attribute,
            Table::Xmb => self.xmb,
            Table::XmbEntry => self.xmb_entry,
            Table::XmbAttribute => self.xmb_attribute,
        }
    }

    /// Hands out the next identifier of table `t` and advances that counter only.
    pub fn allocate(&mut self, t: Table) -> (id: i64)
        requires
            old(self).has_room(t),
        ensures
            id == old(self).next(t),
            *final(self) == old(self).bumped(t),
    {
        let id = self.peek(t);
        let n = id + 1;
        match t {
            Table::Directory => self.directory = n,
            Table::Matl => self.matl = n,
            Table::Material => self.material = n,
            Table::Bool => self.bool_param = n,
            Table::Float => self.float_param = n,
            Table::Vector4 => self.vector4 = n,
            Table::Texture => self.texture = n,
            Table::Sampler => self.sampler = n,
            Table::Rasterizer => self.rasterizer = n,
            Table::BlendState => self.blend_state = n,
            Table::Modl => self.modl = n,
            Table::Mesh => self.mesh = n,
            Table::MeshObject => self.mesh_object = n,
            Table::MeshAttribute => self.mesh_attribute = n,
            Table::Xmb => self.xmb = n,
            Table::XmbEntry => self.xmb_entry = n,
            Table::XmbAttribute => self.xmb_attribute = n,
        }
        id
    }
}

} // verus!
