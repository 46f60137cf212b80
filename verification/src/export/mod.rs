//! The export of models to a scene: a packed buffer and the document that
//! describes what lies in it.
use vstd::prelude::*;

pub mod animation;
pub mod bones;
pub mod bounds;
pub mod buffer;
pub mod glb;
pub mod material;
pub mod mesh;
pub mod model;
pub mod pack;
pub mod scene;
pub mod skeleton;
pub mod skin;
pub mod transformed_model;

verus! {

/// Why a model could not be exported.
#[derive(Debug, Clone, PartialEq, Eq)]
pub enum ExportError {
    /// Index data that holds no whole number of triangles.
    MalformedIndexBuffer,
    /// A vertex declaration without a position element.
    MissingPosition,
    /// A vertex declaration of a tangent without a normal or a binormal.
    MissingTangentFrame,
    /// A vertex declaration without any element, so that vertices have no
    /// size.
    EmptyDeclaration,
    /// A mesh part that reaches past the end of its vertex or index data.
    PartOutOfRange,
    /// A mesh part that names a vertex declaration which the model lacks.
    DeclarationOutOfRange { index: u32 },
    /// A vertex element of a usage that the scene has no attribute for.
    UnsupportedUsage,
    /// A vertex element of a format that the scene has no type for.
    UnsupportedFormat,
    /// A reference to a bone of the model that the model lacks.
    BoneOutOfRange { index: u32 },
    /// A reference into the shared pool past its end.
    SharedIndexOutOfRange { index: usize },
    /// A reference into the shared pool to content of another variant than
    /// its place requires.
    UnexpectedShared { index: usize },
    /// A skeleton without a bone whose parent is 0.
    NoRootBone,
    /// A skeleton with more than one bone whose parent is 0.
    MultipleRootBones,
    /// A skeleton whose bones do not form one tree: a bone is reached
    /// twice, or not at all.
    NotATree,
    /// The channel of an animation that names no bone of the skeleton.
    UnknownChannelTarget { name: String },
    /// An export larger than the scene format can hold.
    TooLarge,
    /// The container of the export could not be written.
    Container,
}

} // verus!
