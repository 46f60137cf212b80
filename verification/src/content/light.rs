//! Light sources.
use vstd::prelude::*;
use crate::decode::Decode;
use crate::error::{DecodeError, DecodeErrorView, Selector};
use crate::reader::{Cursor, follows, Reader};
use crate::single::Single;
use crate::content::color::Color;

verus! {

broadcast use crate::reader::group_failed;

/// How a light varies in time.
#[derive(Clone, Copy, PartialEq, Eq, Structural, Debug)]
pub enum LightVariation {
    Nothing,
    Sine,
    Flicker,
    Candle,
    Strobe,
}

impl DeepView for LightVariation {
    type V = LightVariation;

    open spec fn deep_view(&self) -> LightVariation {
        *self
    }
}

impl LightVariation {
    /// The variant that a number stands for, if any.
    pub open spec fn of(value: u8) -> Option<LightVariation> {
        if value == 0 {
            Some(LightVariation::Nothing)
        } else if value == 1 {
            Some(LightVariation::Sine)
        } else if value == 2 {
            Some(LightVariation::Flicker)
        } else if value == 3 {
            Some(LightVariation::Candle)
        } else if value == 4 {
            Some(LightVariation::Strobe)
        } else {
            None
        }
    }

    /// The variant that `value` stands for, if any.
    pub fn from_repr(value: u8) -> (kind: Option<Self>)
        ensures
            kind == Self::of(value),
    {
        if value == 0 {
            Some(LightVariation::Nothing)
        } else if value == 1 {
            Some(LightVariation::Sine)
        } else if value == 2 {
            Some(LightVariation::Flicker)
        } else if value == 3 {
            Some(LightVariation::Candle)
        } else if value == 4 {
            Some(LightVariation::Strobe)
        } else {
            None
        }
    }

    /// One byte on the wire.
    pub open spec fn layout(c: Cursor) -> (LightVariation, Cursor) {
        let (raw, c1) = c.u8();
        if c1.err is Some {
            (arbitrary(), c1)
        } else {
            match Self::of(raw) {
                Some(kind) => (kind, c1),
                None => (
                    arbitrary(),
                    c1.fail(DecodeErrorView::UnknownKind { selector: Selector::LightVariation, value: raw as i32 }),
                ),
            }
        }
    }

    /// Reads one `LightVariation`.
    pub fn read(reader: &mut Reader) -> (res: Result<Self, DecodeError>)
        ensures
            follows(res, final(reader)@, Self::layout(old(reader)@)),
    {
        let raw = reader.read_u8()?;
        match Self::from_repr(raw) {
            Some(kind) => Ok(kind),
            None => Err(DecodeError::UnknownKind { selector: Selector::LightVariation, value: raw as i32 }),
        }
    }
}

impl Decode for LightVariation {
    open spec fn wire(c: Cursor) -> (LightVariation, Cursor) {
        LightVariation::layout(c)
    }

    proof fn lemma_wire_failed(c: Cursor) {
    }

    fn decode(r: &mut Reader) -> (res: Result<Self, DecodeError>) {
        LightVariation::read(r)
    }
}

/// A point light.
#[derive(Clone, Copy, PartialEq, Eq, Structural, Debug)]
pub struct Light {
    pub radius: Single,
    pub diffuse_color: Color,
    pub ambient_color: Color,
    pub specular_amount: Single,
    pub variation: LightVariation,
    pub variation_amount: Single,
    pub variation_speed: Single,
}

impl DeepView for Light {
    type V = Light;

    open spec fn deep_view(&self) -> Light {
        *self
    }
}

impl Light {
    /// The fields on the wire, one behind the other.
    #[verifier::opaque]
    pub open spec fn fields(c: Cursor) -> (Light, Cursor) {
        let (radius, c1) = Single::layout(c);
        let (diffuse_color, c2) = Color::layout(c1);
        let (ambient_color, c3) = Color::layout(c2);
        let (specular_amount, c4) = Single::layout(c3);
        let (variation, c5) = LightVariation::layout(c4);
        let (variation_amount, c6) = Single::layout(c5);
        let (variation_speed, c7) = Single::layout(c6);
        (Light {
            radius,
            diffuse_color,
            ambient_color,
            specular_amount,
            variation,
            variation_amount,
            variation_speed,
        }, c7)
    }

    /// The value at `c`: nothing from a failed cursor.
    pub open spec fn layout(c: Cursor) -> (Light, Cursor) {
        if c.err is Some {
            (arbitrary(), c)
        } else {
            Self::fields(c)
        }
    }

    /// Reads one `Light`.
    pub fn read(reader: &mut Reader) -> (res: Result<Self, DecodeError>)
        ensures
            follows(res, final(reader)@, Self::layout(old(reader)@)),
    {
        proof {
            reveal(Light::fields);
        }
        let radius = Single::read(reader)?;
        let diffuse_color = Color::read(reader)?;
        let ambient_color = Color::read(reader)?;
        let specular_amount = Single::read(reader)?;
        let variation = LightVariation::read(reader)?;
        let variation_amount = Single::read(reader)?;
        let variation_speed = Single::read(reader)?;
        Ok(Light {
            radius,
            diffuse_color,
            ambient_color,
            specular_amount,
            variation,
            variation_amount,
            variation_speed,
        })
    }
}

impl Decode for Light {
    open spec fn wire(c: Cursor) -> (Light, Cursor) {
        Light::layout(c)
    }

    proof fn lemma_wire_failed(c: Cursor) {
    }

    fn decode(r: &mut Reader) -> (res: Result<Self, DecodeError>) {
        Light::read(r)
    }
}

} // verus!
