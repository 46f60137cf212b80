//! The document of an export: views into the packed buffer, accessors,
//! materials, meshes, nodes, skins and animations, each referring to the
//! others by place.
use vstd::prelude::*;
use crate::content::color::Color;
use crate::content::vector3::Vector3;
use crate::export::bounds::Bounds;
use crate::single::{Matrix4, Quaternion, Single};

verus! {

/// The type of the components of an element.
#[derive(Debug, Clone, Copy, PartialEq, Eq, Structural)]
pub enum ComponentType {
    U8,
    U16,
    U32,
    Float,
}

/// How many components an element has, and in what shape.
#[derive(Debug, Clone, Copy, PartialEq, Eq, Structural)]
pub enum ElementType {
    Scalar,
    Vec2,
    Vec3,
    Vec4,
    Mat4,
}

impl ComponentType {
    /// The number of bytes of one component.
    pub open spec fn width(self) -> int {
        match self {
            ComponentType::U8 => 1,
            ComponentType::U16 => 2,
            ComponentType::U32 => 4,
            ComponentType::Float => 4,
        }
    }

    /// The number of bytes of one component.
    pub fn size(&self) -> (n: usize)
        ensures
            n == self.width(),
    {
        match self {
            ComponentType::U8 => 1,
            ComponentType::U16 => 2,
            ComponentType::U32 => 4,
            ComponentType::Float => 4,
        }
    }
}

impl ElementType {
    /// The number of components of one element.
    pub open spec fn arity(self) -> int {
        match self {
            ElementType::Scalar => 1,
            ElementType::Vec2 => 2,
            ElementType::Vec3 => 3,
            ElementType::Vec4 => 4,
            ElementType::Mat4 => 16,
        }
    }

    /// The number of components of one element.
    pub fn multiplicity(&self) -> (n: usize)
        ensures
            n == self.arity(),
    {
        match self {
            ElementType::Scalar => 1,
            ElementType::Vec2 => 2,
            ElementType::Vec3 => 3,
            ElementType::Vec4 => 4,
            ElementType::Mat4 => 16,
        }
    }
}

/// What an attribute of a vertex means. The number tells apart several
/// attributes of one meaning.
#[derive(Debug, Clone, Copy, PartialEq, Eq, Structural)]
pub enum Semantic {
    Positions,
    Normals,
    Tangents,
    Colors(u32),
    TexCoords(u32),
    Joints(u32),
    Weights(u32),
}

/// What a view is bound as.
#[derive(Debug, Clone, Copy, PartialEq, Eq, Structural)]
pub enum ViewTarget {
    ArrayBuffer,
    ElementArrayBuffer,
}

/// A run of bytes of the buffer.
#[derive(Debug, Clone, Copy, PartialEq, Eq, Structural)]
pub struct BufferView {
    pub byte_offset: usize,
    pub byte_length: usize,
    pub byte_stride: Option<usize>,
    pub target: Option<ViewTarget>,
}

/// The least and the greatest value that an accessor declares.
#[derive(Debug, Clone, Copy, PartialEq, Eq, Structural)]
pub enum Extent {
    Unstated,
    Positions(Bounds),
    Times { min: Single, max: Single },
}

/// Typed elements in a view.
#[derive(Debug, Clone, Copy, PartialEq, Eq, Structural)]
pub struct Accessor {
    pub view: usize,
    pub byte_offset: usize,
    pub count: usize,
    pub component_type: ComponentType,
    pub element_type: ElementType,
    pub normalized: bool,
    pub extent: Extent,
}

/// A material, as the metadata of the effect it was made from: the place
/// of the effect in the shared pool, counted from 0, its colour, and the
/// path of its texture.
#[derive(Debug, Clone, PartialEq, Eq)]
pub struct Material {
    pub source: usize,
    pub color: Option<Color>,
    pub texture: Option<String>,
}

/// One attribute of a primitive: its meaning and its accessor.
#[derive(Debug, Clone, Copy, PartialEq, Eq, Structural)]
pub struct Attribute {
    pub semantic: Semantic,
    pub accessor: usize,
}

/// Triangles: the attributes of their vertices, their indices, and their
/// material.
#[derive(Debug, Clone, PartialEq, Eq)]
pub struct Primitive {
    pub attributes: Vec<Attribute>,
    pub indices: usize,
    pub material: Option<usize>,
}

/// A mesh of the scene: its primitives.
#[derive(Debug, Clone, PartialEq, Eq)]
pub struct SceneMesh {
    pub primitives: Vec<Primitive>,
}

/// The transform of a node relative to its parent.
#[derive(Debug, Clone, Copy, PartialEq, Eq)]
pub enum Transform {
    Identity,
    Matrix(Matrix4),
    Decomposed { translation: Vector3, rotation: Quaternion, scale: Vector3 },
}

/// A node of the scene.
#[derive(Debug, Clone, PartialEq, Eq)]
pub struct Node {
    pub name: Option<String>,
    pub transform: Transform,
    pub children: Vec<usize>,
    pub mesh: Option<usize>,
    pub skin: Option<usize>,
}

/// A skin: the nodes that are its joints, and the accessor of their
/// inverse bind matrices, one for each joint and in the order of the
/// joints.
#[derive(Debug, Clone, PartialEq, Eq)]
pub struct Skin {
    pub skeleton: usize,
    pub joints: Vec<usize>,
    pub inverse_bind_matrices: usize,
}

/// What a channel animates of its node.
#[derive(Debug, Clone, Copy, PartialEq, Eq, Structural)]
pub enum Property {
    Translation,
    Rotation,
    Scale,
}

/// Keyframes: the accessor of their times and the accessor of their
/// values. Values between keyframes are interpolated linearly.
#[derive(Debug, Clone, Copy, PartialEq, Eq, Structural)]
pub struct Sampler {
    pub input: usize,
    pub output: usize,
}

/// A sampler applied to one property of one node.
#[derive(Debug, Clone, Copy, PartialEq, Eq, Structural)]
pub struct Channel {
    pub sampler: usize,
    pub node: usize,
    pub path: Property,
}

/// An animation: its samplers and the channels that apply them.
#[derive(Debug, Clone, PartialEq, Eq)]
pub struct Animation {
    pub name: String,
    pub channels: Vec<Channel>,
    pub samplers: Vec<Sampler>,
}

/// The document of an export.
#[derive(Debug, Clone, PartialEq, Eq)]
pub struct Scene {
    pub buffer_length: usize,
    pub views: Vec<BufferView>,
    pub accessors: Vec<Accessor>,
    pub materials: Vec<Material>,
    pub meshes: Vec<SceneMesh>,
    pub nodes: Vec<Node>,
    pub skins: Vec<Skin>,
    pub animations: Vec<Animation>,
    pub roots: Vec<usize>,
}

/// Whether every place in `places` is below `limit`.
pub open spec fn all_below(places: Seq<usize>, limit: int) -> bool {
    forall|i: int| 0 <= i < places.len() ==> places[i] < limit
}

impl Primitive {
    /// Whether the primitive refers to accessors and a material that are
    /// there.
    pub open spec fn within(&self, accessors: int, materials: int) -> bool {
        &&& self.indices < accessors
        &&& forall|i: int| 0 <= i < self.attributes@.len() ==> (#[trigger] self.attributes@[i]).accessor < accessors
        &&& self.material matches Some(m) ==> m < materials
    }
}

impl SceneMesh {
    pub open spec fn within(&self, accessors: int, materials: int) -> bool {
        forall|i: int|
            0 <= i < self.primitives@.len() ==> (#[trigger] self.primitives@[i]).within(accessors, materials)
    }
}

impl Node {
    /// Whether the node refers to nodes, a mesh and a skin that are there.
    pub open spec fn within(&self, nodes: int, meshes: int, skins: int) -> bool {
        &&& all_below(self.children@, nodes)
        &&& self.mesh matches Some(m) ==> m < meshes
        &&& self.skin matches Some(s) ==> s < skins
    }
}

impl Skin {
    pub open spec fn within(&self, nodes: int, accessors: int) -> bool {
        &&& self.skeleton < nodes
        &&& all_below(self.joints@, nodes)
        &&& self.inverse_bind_matrices < accessors
    }
}

impl Animation {
    pub open spec fn within(&self, nodes: int, accessors: int) -> bool {
        &&& forall|i: int|
            0 <= i < self.samplers@.len() ==> (#[trigger] self.samplers@[i]).input < accessors
                && self.samplers@[i].output < accessors
        &&& forall|i: int|
            0 <= i < self.channels@.len() ==> (#[trigger] self.channels@[i]).sampler < self.samplers@.len()
                && self.channels@[i].node < nodes
    }
}

impl Scene {
    /// Whether the document is closed: every view lies within the buffer,
    /// and every reference by place names something that is there.
    pub open spec fn wf(&self) -> bool {
        &&& forall|i: int|
            0 <= i < self.views@.len() ==> (#[trigger] self.views@[i]).byte_offset
                + self.views@[i].byte_length <= self.buffer_length
        &&& forall|i: int| 0 <= i < self.accessors@.len() ==> (#[trigger] self.accessors@[i]).view < self.views@.len()
        &&& forall|i: int|
            0 <= i < self.meshes@.len() ==> (#[trigger] self.meshes@[i]).within(
                self.accessors@.len() as int,
                self.materials@.len() as int,
            )
        &&& forall|i: int|
            0 <= i < self.nodes@.len() ==> (#[trigger] self.nodes@[i]).within(
                self.nodes@.len() as int,
                self.meshes@.len() as int,
                self.skins@.len() as int,
            )
        &&& forall|i: int|
            0 <= i < self.skins@.len() ==> (#[trigger] self.skins@[i]).within(
                self.nodes@.len() as int,
                self.accessors@.len() as int,
            )
        &&& forall|i: int|
            0 <= i < self.animations@.len() ==> (#[trigger] self.animations@[i]).within(
                self.nodes@.len() as int,
                self.accessors@.len() as int,
            )
        &&& all_below(self.roots@, self.nodes@.len() as int)
    }

    /// An empty document over a buffer of `buffer_length` bytes.
    pub fn new(buffer_length: usize) -> (scene: Self)
        ensures
            scene.wf(),
            scene.buffer_length == buffer_length,
            scene.views@.len() == 0,
            scene.accessors@.len() == 0,
            scene.materials@.len() == 0,
            scene.meshes@.len() == 0,
            scene.nodes@.len() == 0,
            scene.skins@.len() == 0,
            scene.animations@.len() == 0,
            scene.roots@.len() == 0,
    {
        Scene {
            buffer_length,
            views: Vec::new(),
            accessors: Vec::new(),
            materials: Vec::new(),
            meshes: Vec::new(),
            nodes: Vec::new(),
            skins: Vec::new(),
            animations: Vec::new(),
            roots: Vec::new(),
        }
    }

    /// Whether `other` is this document but for its views.
    pub open spec fn same_but_views(&self, other: &Scene) -> bool {
        &&& self.buffer_length == other.buffer_length
        &&& self.accessors == other.accessors
        &&& self.materials == other.materials
        &&& self.meshes == other.meshes
        &&& self.nodes == other.nodes
        &&& self.skins == other.skins
        &&& self.animations == other.animations
        &&& self.roots == other.roots
    }

    /// Whether `other` is this document but for its accessors.
    pub open spec fn same_but_accessors(&self, other: &Scene) -> bool {
        &&& self.buffer_length == other.buffer_length
        &&& self.views == other.views
        &&& self.materials == other.materials
        &&& self.meshes == other.meshes
        &&& self.nodes == other.nodes
        &&& self.skins == other.skins
        &&& self.animations == other.animations
        &&& self.roots == other.roots
    }

    /// Whether `other` is this document but for its materials.
    pub open spec fn same_but_materials(&self, other: &Scene) -> bool {
        &&& self.buffer_length == other.buffer_length
        &&& self.views == other.views
        &&& self.accessors == other.accessors
        &&& self.meshes == other.meshes
        &&& self.nodes == other.nodes
        &&& self.skins == other.skins
        &&& self.animations == other.animations
        &&& self.roots == other.roots
    }

    /// Whether `other` is this document but for its meshes.
    pub open spec fn same_but_meshes(&self, other: &Scene) -> bool {
        &&& self.buffer_length == other.buffer_length
        &&& self.views == other.views
        &&& self.accessors == other.accessors
        &&& self.materials == other.materials
        &&& self.nodes == other.nodes
        &&& self.skins == other.skins
        &&& self.animations == other.animations
        &&& self.roots == other.roots
    }

    /// Whether `other` is this document but for its nodes.
    pub open spec fn same_but_nodes(&self, other: &Scene) -> bool {
        &&& self.buffer_length == other.buffer_length
        &&& self.views == other.views
        &&& self.accessors == other.accessors
        &&& self.materials == other.materials
        &&& self.meshes == other.meshes
        &&& self.skins == other.skins
        &&& self.animations == other.animations
        &&& self.roots == other.roots
    }

    /// Whether `other` is this document but for its skins.
    pub open spec fn same_but_skins(&self, other: &Scene) -> bool {
        &&& self.buffer_length == other.buffer_length
        &&& self.views == other.views
        &&& self.accessors == other.accessors
        &&& self.materials == other.materials
        &&& self.meshes == other.meshes
        &&& self.nodes == other.nodes
        &&& self.animations == other.animations
        &&& self.roots == other.roots
    }

    /// Whether `other` is this document but for its animations.
    pub open spec fn same_but_animations(&self, other: &Scene) -> bool {
        &&& self.buffer_length == other.buffer_length
        &&& self.views == other.views
        &&& self.accessors == other.accessors
        &&& self.materials == other.materials
        &&& self.meshes == other.meshes
        &&& self.nodes == other.nodes
        &&& self.skins == other.skins
        &&& self.roots == other.roots
    }

    /// Whether `other` is this document but for its roots.
    pub open spec fn same_but_roots(&self, other: &Scene) -> bool {
        &&& self.buffer_length == other.buffer_length
        &&& self.views == other.views
        &&& self.accessors == other.accessors
        &&& self.materials == other.materials
        &&& self.meshes == other.meshes
        &&& self.nodes == other.nodes
        &&& self.skins == other.skins
        &&& self.animations == other.animations
    }

    /// Adds a view and returns its place.
    pub fn push_view(&mut self, view: BufferView) -> (place: usize)
        requires
            old(self).wf(),
            view.byte_offset + view.byte_length <= old(self).buffer_length,
        ensures
            final(self).wf(),
            old(self).extends(final(self)),
            place == old(self).views@.len(),
            final(self).views@ == old(self).views@.push(view),
            old(self).same_but_views(final(self)),
    {
        let place = self.views.len();
        self.views.push(view);
        proof {
            lemma_extends_refl(&*old(self));
            lemma_prefix_push(old(self).views@, view);
        }
        place
    }

    /// Adds an accessor and returns its place.
    pub fn push_accessor(&mut self, accessor: Accessor) -> (place: usize)
        requires
            old(self).wf(),
            accessor.view < old(self).views@.len(),
        ensures
            final(self).wf(),
            old(self).extends(final(self)),
            place == old(self).accessors@.len(),
            final(self).accessors@ == old(self).accessors@.push(accessor),
            old(self).same_but_accessors(final(self)),
    {
        let place = self.accessors.len();
        self.accessors.push(accessor);
        proof {
            lemma_extends_refl(&*old(self));
            lemma_prefix_push(old(self).accessors@, accessor);
        }
        place
    }

    /// Adds a material and returns its place.
    pub fn push_material(&mut self, material: Material) -> (place: usize)
        requires
            old(self).wf(),
        ensures
            final(self).wf(),
            old(self).extends(final(self)),
            place == old(self).materials@.len(),
            final(self).materials@ == old(self).materials@.push(material),
            old(self).same_but_materials(final(self)),
    {
        let place = self.materials.len();
        let ghost item = material;
        self.materials.push(material);
        proof {
            lemma_extends_refl(&*old(self));
            lemma_prefix_push(old(self).materials@, item);
        }
        place
    }

    /// Adds a mesh and returns its place.
    pub fn push_mesh(&mut self, mesh: SceneMesh) -> (place: usize)
        requires
            old(self).wf(),
            mesh.within(old(self).accessors@.len() as int, old(self).materials@.len() as int),
        ensures
            final(self).wf(),
            old(self).extends(final(self)),
            place == old(self).meshes@.len(),
            final(self).meshes@ == old(self).meshes@.push(mesh),
            old(self).same_but_meshes(final(self)),
    {
        let place = self.meshes.len();
        let ghost item = mesh;
        self.meshes.push(mesh);
        proof {
            lemma_extends_refl(&*old(self));
            lemma_prefix_push(old(self).meshes@, item);
        }
        place
    }

    /// Adds a node and returns its place. The node may name itself among
    /// its children no more than any node that is not there yet.
    pub fn push_node(&mut self, node: Node) -> (place: usize)
        requires
            old(self).wf(),
            node.within(
                old(self).nodes@.len() as int,
                old(self).meshes@.len() as int,
                old(self).skins@.len() as int,
            ),
        ensures
            final(self).wf(),
            old(self).extends(final(self)),
            place == old(self).nodes@.len(),
            final(self).nodes@ == old(self).nodes@.push(node),
            old(self).same_but_nodes(final(self)),
    {
        let place = self.nodes.len();
        self.nodes.push(node);
        proof {
            lemma_extends_refl(&*old(self));
        }
        place
    }

    /// Makes the node at `child` a child of the node at `parent`, behind
    /// the children that it has.
    pub fn add_child(&mut self, parent: usize, child: usize)
        requires
            old(self).wf(),
            parent < old(self).nodes@.len(),
            child < old(self).nodes@.len(),
        ensures
            final(self).wf(),
            old(self).extends(final(self)),
            old(self).same_but_nodes(final(self)),
            final(self).nodes@.len() == old(self).nodes@.len(),
            final(self).nodes@[parent as int].children@ == old(self).nodes@[parent as int].children@.push(child),
            final(self).nodes@[parent as int].name == old(self).nodes@[parent as int].name,
            final(self).nodes@[parent as int].transform == old(self).nodes@[parent as int].transform,
            final(self).nodes@[parent as int].mesh == old(self).nodes@[parent as int].mesh,
            final(self).nodes@[parent as int].skin == old(self).nodes@[parent as int].skin,
            forall|i: int|
                0 <= i < old(self).nodes@.len() && i != parent ==> final(self).nodes@[i] == old(self).nodes@[i],
    {
        self.nodes[parent].children.push(child);
        proof {
            lemma_extends_refl(&*old(self));
            lemma_prefix_push(old(self).nodes@[parent as int].children@, child);
        }
    }

    /// Gives the node at `node` the skin at `skin`.
    pub fn set_skin(&mut self, node: usize, skin: usize)
        requires
            old(self).wf(),
            node < old(self).nodes@.len(),
            skin < old(self).skins@.len(),
        ensures
            final(self).wf(),
            old(self).extends(final(self)),
            old(self).same_but_nodes(final(self)),
            final(self).nodes@.len() == old(self).nodes@.len(),
            final(self).nodes@[node as int].skin == Some(skin),
            final(self).nodes@[node as int].children == old(self).nodes@[node as int].children,
            final(self).nodes@[node as int].name == old(self).nodes@[node as int].name,
            final(self).nodes@[node as int].transform == old(self).nodes@[node as int].transform,
            final(self).nodes@[node as int].mesh == old(self).nodes@[node as int].mesh,
            forall|i: int|
                0 <= i < old(self).nodes@.len() && i != node ==> final(self).nodes@[i] == old(self).nodes@[i],
    {
        self.nodes[node].skin = Some(skin);
        proof {
            lemma_extends_refl(&*old(self));
        }
    }

    /// Adds a skin and returns its place.
    pub fn push_skin(&mut self, skin: Skin) -> (place: usize)
        requires
            old(self).wf(),
            skin.within(old(self).nodes@.len() as int, old(self).accessors@.len() as int),
        ensures
            final(self).wf(),
            old(self).extends(final(self)),
            place == old(self).skins@.len(),
            final(self).skins@ == old(self).skins@.push(skin),
            old(self).same_but_skins(final(self)),
    {
        let place = self.skins.len();
        let ghost item = skin;
        self.skins.push(skin);
        proof {
            lemma_extends_refl(&*old(self));
            lemma_prefix_push(old(self).skins@, item);
        }
        place
    }

    /// Adds an animation and returns its place.
    pub fn push_animation(&mut self, animation: Animation) -> (place: usize)
        requires
            old(self).wf(),
            animation.within(old(self).nodes@.len() as int, old(self).accessors@.len() as int),
        ensures
            final(self).wf(),
            old(self).extends(final(self)),
            place == old(self).animations@.len(),
            final(self).animations@ == old(self).animations@.push(animation),
            old(self).same_but_animations(final(self)),
    {
        let place = self.animations.len();
        let ghost item = animation;
        self.animations.push(animation);
        proof {
            lemma_extends_refl(&*old(self));
            lemma_prefix_push(old(self).animations@, item);
        }
        place
    }

    /// Makes the node at `node` a root of the scene.
    pub fn push_root(&mut self, node: usize)
        requires
            old(self).wf(),
            node < old(self).nodes@.len(),
        ensures
            final(self).wf(),
            old(self).extends(final(self)),
            final(self).roots@ == old(self).roots@.push(node),
            old(self).same_but_roots(final(self)),
    {
        self.roots.push(node);
        proof {
            lemma_extends_refl(&*old(self));
            lemma_prefix_push(old(self).roots@, node);
        }
    }
}

/// Whether a node is what it was but for children behind those it had,
/// and but for its skin.
pub open spec fn node_extends(before: Node, after: Node) -> bool {
    &&& after.name == before.name
    &&& after.transform == before.transform
    &&& after.mesh == before.mesh
    &&& before.children@.len() <= after.children@.len()
    &&& after.children@.subrange(0, before.children@.len() as int) == before.children@
}

/// Whether `longer` starts with `shorter`.
pub open spec fn prefix_of<T>(shorter: Seq<T>, longer: Seq<T>) -> bool {
    shorter.len() <= longer.len() && longer.subrange(0, shorter.len() as int) == shorter
}

impl Scene {
    /// Whether `after` has the materials, skins, animations and roots of
    /// this document, and no others.
    pub open spec fn keeps_rest(&self, after: &Scene) -> bool {
        &&& after.materials == self.materials
        &&& after.skins == self.skins
        &&& after.animations == self.animations
        &&& after.roots == self.roots
    }

    /// Whether `after` is this document with more in it: whatever was
    /// there is there still, in its place, and nodes have changed in
    /// their children and skins only.
    pub open spec fn extends(&self, after: &Scene) -> bool {
        &&& after.buffer_length == self.buffer_length
        &&& prefix_of(self.views@, after.views@)
        &&& prefix_of(self.accessors@, after.accessors@)
        &&& prefix_of(self.materials@, after.materials@)
        &&& prefix_of(self.meshes@, after.meshes@)
        &&& prefix_of(self.skins@, after.skins@)
        &&& prefix_of(self.animations@, after.animations@)
        &&& prefix_of(self.roots@, after.roots@)
        &&& self.nodes@.len() <= after.nodes@.len()
        &&& forall|i: int|
            0 <= i < self.nodes@.len() ==> node_extends(self.nodes@[i], #[trigger] after.nodes@[i])
    }
}

/// A sequence starts with itself.
pub proof fn lemma_prefix_refl<T>(s: Seq<T>)
    ensures
        prefix_of(s, s),
{
    assert(s.subrange(0, s.len() as int) =~= s);
}

/// A sequence with one more item starts with what it was.
pub proof fn lemma_prefix_push<T>(s: Seq<T>, item: T)
    ensures
        prefix_of(s, s.push(item)),
{
    assert(s.push(item).subrange(0, s.len() as int) =~= s);
}

/// What starts a start of a sequence starts the sequence.
pub proof fn lemma_prefix_trans<T>(a: Seq<T>, b: Seq<T>, c: Seq<T>)
    requires
        prefix_of(a, b),
        prefix_of(b, c),
    ensures
        prefix_of(a, c),
{
    assert(c.subrange(0, a.len() as int) =~= c.subrange(0, b.len() as int).subrange(0, a.len() as int));
}

/// A document extends itself.
pub proof fn lemma_extends_refl(a: &Scene)
    ensures
        a.extends(a),
{
    lemma_prefix_refl(a.views@);
    lemma_prefix_refl(a.accessors@);
    lemma_prefix_refl(a.materials@);
    lemma_prefix_refl(a.meshes@);
    lemma_prefix_refl(a.skins@);
    lemma_prefix_refl(a.animations@);
    lemma_prefix_refl(a.roots@);
    assert forall|i: int| 0 <= i < a.nodes@.len() implies node_extends(a.nodes@[i], #[trigger] a.nodes@[i]) by {
        lemma_prefix_refl(a.nodes@[i].children@);
    }
}

/// What extends an extension of a document extends the document.
pub proof fn lemma_extends_trans(a: &Scene, b: &Scene, c: &Scene)
    requires
        a.extends(b),
        b.extends(c),
    ensures
        a.extends(c),
{
    lemma_prefix_trans(a.views@, b.views@, c.views@);
    lemma_prefix_trans(a.accessors@, b.accessors@, c.accessors@);
    lemma_prefix_trans(a.materials@, b.materials@, c.materials@);
    lemma_prefix_trans(a.meshes@, b.meshes@, c.meshes@);
    lemma_prefix_trans(a.skins@, b.skins@, c.skins@);
    lemma_prefix_trans(a.animations@, b.animations@, c.animations@);
    lemma_prefix_trans(a.roots@, b.roots@, c.roots@);
    assert forall|i: int| 0 <= i < a.nodes@.len() implies node_extends(a.nodes@[i], #[trigger] c.nodes@[i]) by {
        assert(node_extends(a.nodes@[i], b.nodes@[i]));
        assert(node_extends(b.nodes@[i], c.nodes@[i]));
        lemma_prefix_trans(a.nodes@[i].children@, b.nodes@[i].children@, c.nodes@[i].children@);
    }
}

} // verus!
