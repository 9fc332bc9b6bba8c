//! The packed shape descriptor.

use vstd::prelude::*;

verus! {

/// The kinds of shape a descriptor can carry.
#[derive(Clone, Copy, Debug, PartialEq, Eq, Structural)]
pub enum ShapeType {
    /// Rectangle shape type.
    Rectangle,
    /// Circle shape type.
    Circle,
}

impl ShapeType {
    /// The packed integer tag of a kind.
    pub open spec fn spec_tag(self) -> u32 {
        match self {
            ShapeType::Rectangle => 0,
            ShapeType::Circle => 1,
        }
    }

    /// The kind that a packed tag stands for, if any.
    pub open spec fn spec_from_tag(tag: u32) -> Option<ShapeType> {
        if tag == 0 {
            Some(ShapeType::Rectangle)
        } else if tag == 1 {
            Some(ShapeType::Circle)
        } else {
            None
        }
    }

    /// Encodes the kind as its packed integer tag.
    #[verifier::when_used_as_spec(spec_tag)]
    pub fn tag(self) -> (t: u32)
        ensures
            t == self.spec_tag(),
            ShapeType::spec_from_tag(t) == Some(self),
    {
        match self {
            ShapeType::Rectangle => 0,
            ShapeType::Circle => 1,
        }
    }

    /// Decodes a packed tag; `None` for a tag that no kind has.
    #[verifier::when_used_as_spec(spec_from_tag)]
    pub fn from_tag(tag: u32) -> (kind: Option<ShapeType>)
        ensures
            kind == ShapeType::spec_from_tag(tag),
    {
        if tag == 0 {
            Some(ShapeType::Rectangle)
        } else if tag == 1 {
            Some(ShapeType::Circle)
        } else {
            None
        }
    }

    /// Encoding a kind and decoding the tag gives the kind back, and no two
    /// kinds share a tag.
    pub proof fn lemma_tag_round_trip(kind: ShapeType, other: ShapeType)
        ensures
            ShapeType::spec_from_tag(kind.spec_tag()) == Some(kind),
            kind.spec_tag() == other.spec_tag() ==> kind == other,
    {
    }

    /// A tag decodes to a kind exactly when that kind encodes to the tag.
    pub proof fn lemma_decode_is_inverse(tag: u32, kind: ShapeType)
        ensures
            ShapeType::spec_from_tag(tag) == Some(kind) <==> kind.spec_tag() == tag,
    {
    }
}

/// A shape in the fixed layout of ten 32-bit words: the tag, then position,
/// size, radius and colour.
///
/// Every word but the tag is the bit pattern of a single-precision number.
/// The descriptor moves these words and never reads them as numbers.
#[derive(Clone, Copy, Debug, PartialEq, Eq)]
pub struct Shape {
    /// Type of the shape, as its packed tag.
    pub shape_type: u32,
    /// Position of the shape (x, y coordinates).
    pub position: [u32; 2],
    /// Size of the shape (width, height).
    pub size: [u32; 2],
    /// Radius of the shape (for circles).
    pub radius: u32,
    /// Color of the shape (RGBA values).
    pub color: [u32; 4],
}

impl Shape {
    /// The ten words of the descriptor in upload order.
    pub open spec fn words(&self) -> Seq<u32> {
        seq![
            self.shape_type,
            self.position@[0],
            self.position@[1],
            self.size@[0],
            self.size@[1],
            self.radius,
            self.color@[0],
            self.color@[1],
            self.color@[2],
            self.color@[3],
        ]
    }

    /// Creates a descriptor. Nothing is validated: every word is stored as
    /// given, whatever number it encodes, and the kind is stored as its tag.
    pub fn new(
        size: (u32, u32),
        position: (u32, u32),
        color: [u32; 4],
        radius: u32,
        shape_type: ShapeType,
    ) -> (shape: Shape)
        ensures
            shape.shape_type == shape_type.spec_tag(),
            shape.position@ == seq![position.0, position.1],
            shape.size@ == seq![size.0, size.1],
            shape.radius == radius,
            shape.color == color,
            shape.spec_kind() == Some(shape_type),
    {
        Shape {
            size: [size.0, size.1],
            position: [position.0, position.1],
            shape_type: shape_type.tag(),
            radius,
            color,
        }
    }

    /// The kind that the stored tag stands for, if any.
    pub open spec fn spec_kind(&self) -> Option<ShapeType> {
        ShapeType::spec_from_tag(self.shape_type)
    }

    /// Decodes the stored tag; `None` when the tag was overwritten with a
    /// value that no kind has.
    #[verifier::when_used_as_spec(spec_kind)]
    pub fn kind(&self) -> (kind: Option<ShapeType>)
        ensures
            kind == self.spec_kind(),
    {
        ShapeType::from_tag(self.shape_type)
    }

    /// The descriptor as the ten words that are uploaded.
    pub fn to_words(&self) -> (words: [u32; 10])
        ensures
            words@ == self.words(),
    {
        [
            self.shape_type,
            self.position[0],
            self.position[1],
            self.size[0],
            self.size[1],
            self.radius,
            self.color[0],
            self.color[1],
            self.color[2],
            self.color[3],
        ]
    }
}

} // verus!
