//! The errors of decoding, with the models that contracts speak of.
use vstd::prelude::*;

verus! {

/// The closed sets of selector values that the decoders dispatch on.
#[derive(Clone, Copy, PartialEq, Eq, Structural, Debug)]
pub enum Selector {
    AbilityKind,
    AbilityTarget,
    CastKind,
    Order,
    ReactionTriggers,
    AnimationActionKind,
    GripKind,
    AnimationTargets,
    AttackProperties,
    AuraKind,
    AuraTarget,
    VisualCategory,
    BuffKind,
    BloodKind,
    Element,
    EventKind,
    EventConditionKind,
    Factions,
    WeaponClass,
    LightVariation,
    ElementFormat,
    ElementMethod,
    ElementUsage,
    MovementProperties,
    PassiveAbilityKind,
    Bank,
}

/// The variant that a place in the stream requires of nested content.
#[derive(Clone, Copy, PartialEq, Eq, Structural, Debug)]
pub enum Expected {
    String,
    ExternalReference,
    Model,
    VertexDeclaration,
    VertexBuffer,
    IndexBuffer,
}

/// Why a stream could not be decoded. Every variant is fatal for the
/// stream at hand: the wire format has no way to resynchronise.
#[derive(Clone, PartialEq, Eq, Debug)]
pub enum DecodeError {
    /// The stream ended inside a field.
    UnexpectedEof,
    /// A compact integer went on past its fifth byte.
    VarintTooLong,
    /// A count, a length or a reference was negative.
    Negative { value: i32 },
    /// A numeric selector outside the closed set of its kind.
    UnknownKind { selector: Selector, value: i32 },
    /// A named selector outside the closed set of its kind.
    UnknownName { selector: Selector, name: String },
    /// A type id that is negative or past the end of the reader table.
    TypeIdOutOfRange { id: i32 },
    /// A reader name for which no decoder exists.
    UnknownTypeReader { name: String },
    /// Nested content of another variant than its place requires.
    UnexpectedContent { expected: Expected },
    /// The slot of an unused reference held a byte other than zero.
    NonZeroPadding { byte: u8 },
    /// Content nested deeper than the decoder follows.
    TooDeep,
}

/// `DecodeError` with its strings as sequences of characters.
pub enum DecodeErrorView {
    UnexpectedEof,
    VarintTooLong,
    Negative { value: i32 },
    UnknownKind { selector: Selector, value: i32 },
    UnknownName { selector: Selector, name: Seq<char> },
    TypeIdOutOfRange { id: i32 },
    UnknownTypeReader { name: Seq<char> },
    UnexpectedContent { expected: Expected },
    NonZeroPadding { byte: u8 },
    TooDeep,
}

impl DeepView for DecodeError {
    type V = DecodeErrorView;

    open spec fn deep_view(&self) -> DecodeErrorView {
        match *self {
            DecodeError::UnexpectedEof => DecodeErrorView::UnexpectedEof,
            DecodeError::VarintTooLong => DecodeErrorView::VarintTooLong,
            DecodeError::Negative { value } => DecodeErrorView::Negative { value },
            DecodeError::UnknownKind { selector, value } => DecodeErrorView::UnknownKind {
                selector,
                value,
            },
            DecodeError::UnknownName { selector, name } => DecodeErrorView::UnknownName {
                selector,
                name: name@,
            },
            DecodeError::TypeIdOutOfRange { id } => DecodeErrorView::TypeIdOutOfRange { id },
            DecodeError::UnknownTypeReader { name } => DecodeErrorView::UnknownTypeReader {
                name: name@,
            },
            DecodeError::UnexpectedContent { expected } => DecodeErrorView::UnexpectedContent {
                expected,
            },
            DecodeError::NonZeroPadding { byte } => DecodeErrorView::NonZeroPadding { byte },
            DecodeError::TooDeep => DecodeErrorView::TooDeep,
        }
    }
}

} // verus!
