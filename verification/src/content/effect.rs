//! The effects that materials are made of.
use vstd::prelude::*;
use crate::decode::{Decode, optional, read_optional};
use crate::error::{DecodeError};
use crate::reader::{Cursor, follows, Reader};
use crate::single::Single;
use crate::content::color::Color;

verus! {

broadcast use {crate::reader::group_failed, crate::decode::group_failed_items};

/// Compiled shader code behind its length.
#[derive(Clone, PartialEq, Eq, Debug)]
pub struct Effect {
    pub bytecode: Vec<u8>,
}

/// `Effect` as the format states it.
pub struct EffectView {
    pub bytecode: Seq<u8>,
}

impl DeepView for Effect {
    type V = EffectView;

    open spec fn deep_view(&self) -> EffectView {
        EffectView {
            bytecode: self.bytecode.deep_view(),
        }
    }
}

impl Effect {
    /// The fields on the wire, one behind the other.
    #[verifier::opaque]
    pub open spec fn fields(c: Cursor) -> (EffectView, Cursor) {
        let (bytecode, c1) = c.blob();
        (EffectView { bytecode }, c1)
    }

    /// The value at `c`: nothing from a failed cursor.
    pub open spec fn layout(c: Cursor) -> (EffectView, Cursor) {
        if c.err is Some {
            (arbitrary(), c)
        } else {
            Self::fields(c)
        }
    }

    /// Reads one `Effect`.
    pub fn read(reader: &mut Reader) -> (res: Result<Self, DecodeError>)
        ensures
            follows(res, final(reader)@, Self::layout(old(reader)@)),
    {
        proof {
            reveal(Effect::fields);
        }
        let bytecode = reader.read_blob()?;
        Ok(Effect { bytecode })
    }
}

impl Decode for Effect {
    open spec fn wire(c: Cursor) -> (EffectView, Cursor) {
        Effect::layout(c)
    }

    proof fn lemma_wire_failed(c: Cursor) {
    }

    fn decode(r: &mut Reader) -> (res: Result<Self, DecodeError>) {
        Effect::read(r)
    }
}

/// The stock material.
#[derive(Clone, PartialEq, Eq, Debug)]
pub struct BasicEffect {
    pub texture: String,
    pub diffuse_color: Color,
    pub emissive_color: Color,
    pub specular_color: Color,
    pub specular_power: Single,
    pub alpha: Single,
    pub vertex_color_enabled: bool,
}

/// `BasicEffect` as the format states it.
pub struct BasicEffectView {
    pub texture: Seq<char>,
    pub diffuse_color: Color,
    pub emissive_color: Color,
    pub specular_color: Color,
    pub specular_power: Single,
    pub alpha: Single,
    pub vertex_color_enabled: bool,
}

impl DeepView for BasicEffect {
    type V = BasicEffectView;

    open spec fn deep_view(&self) -> BasicEffectView {
        BasicEffectView {
            texture: self.texture.deep_view(),
            diffuse_color: self.diffuse_color,
            emissive_color: self.emissive_color,
            specular_color: self.specular_color,
            specular_power: self.specular_power,
            alpha: self.alpha,
            vertex_color_enabled: self.vertex_color_enabled,
        }
    }
}

impl BasicEffect {
    /// The fields on the wire, one behind the other.
    #[verifier::opaque]
    pub open spec fn fields(c: Cursor) -> (BasicEffectView, Cursor) {
        let (texture, c1) = c.string();
        let (diffuse_color, c2) = Color::layout(c1);
        let (emissive_color, c3) = Color::layout(c2);
        let (specular_color, c4) = Color::layout(c3);
        let (specular_power, c5) = Single::layout(c4);
        let (alpha, c6) = Single::layout(c5);
        let (vertex_color_enabled, c7) = c6.bool();
        (BasicEffectView {
            texture,
            diffuse_color,
            emissive_color,
            specular_color,
            specular_power,
            alpha,
            vertex_color_enabled,
        }, c7)
    }

    /// The value at `c`: nothing from a failed cursor.
    pub open spec fn layout(c: Cursor) -> (BasicEffectView, Cursor) {
        if c.err is Some {
            (arbitrary(), c)
        } else {
            Self::fields(c)
        }
    }

    /// Reads one `BasicEffect`.
    pub fn read(reader: &mut Reader) -> (res: Result<Self, DecodeError>)
        ensures
            follows(res, final(reader)@, Self::layout(old(reader)@)),
    {
        proof {
            reveal(BasicEffect::fields);
        }
        let texture = reader.read_7bit_length_string()?;
        let diffuse_color = Color::read(reader)?;
        let emissive_color = Color::read(reader)?;
        let specular_color = Color::read(reader)?;
        let specular_power = Single::read(reader)?;
        let alpha = Single::read(reader)?;
        let vertex_color_enabled = reader.read_bool()?;
        Ok(BasicEffect {
            texture,
            diffuse_color,
            emissive_color,
            specular_color,
            specular_power,
            alpha,
            vertex_color_enabled,
        })
    }
}

impl Decode for BasicEffect {
    open spec fn wire(c: Cursor) -> (BasicEffectView, Cursor) {
        BasicEffect::layout(c)
    }

    proof fn lemma_wire_failed(c: Cursor) {
    }

    fn decode(r: &mut Reader) -> (res: Result<Self, DecodeError>) {
        BasicEffect::read(r)
    }
}

/// A material that is added to what lies behind it.
#[derive(Clone, PartialEq, Eq, Debug)]
pub struct AdditiveEffect {
    pub color_tint: Color,
    pub vertex_color_enabled: bool,
    pub texture_enabled: bool,
    pub texture: String,
}

/// `AdditiveEffect` as the format states it.
pub struct AdditiveEffectView {
    pub color_tint: Color,
    pub vertex_color_enabled: bool,
    pub texture_enabled: bool,
    pub texture: Seq<char>,
}

impl DeepView for AdditiveEffect {
    type V = AdditiveEffectView;

    open spec fn deep_view(&self) -> AdditiveEffectView {
        AdditiveEffectView {
            color_tint: self.color_tint,
            vertex_color_enabled: self.vertex_color_enabled,
            texture_enabled: self.texture_enabled,
            texture: self.texture.deep_view(),
        }
    }
}

impl AdditiveEffect {
    /// The fields on the wire, one behind the other.
    #[verifier::opaque]
    pub open spec fn fields(c: Cursor) -> (AdditiveEffectView, Cursor) {
        let (color_tint, c1) = Color::layout(c);
        let (vertex_color_enabled, c2) = c1.bool();
        let (texture_enabled, c3) = c2.bool();
        let (texture, c4) = c3.string();
        (AdditiveEffectView { color_tint, vertex_color_enabled, texture_enabled, texture }, c4)
    }

    /// The value at `c`: nothing from a failed cursor.
    pub open spec fn layout(c: Cursor) -> (AdditiveEffectView, Cursor) {
        if c.err is Some {
            (arbitrary(), c)
        } else {
            Self::fields(c)
        }
    }

    /// Reads one `AdditiveEffect`.
    pub fn read(reader: &mut Reader) -> (res: Result<Self, DecodeError>)
        ensures
            follows(res, final(reader)@, Self::layout(old(reader)@)),
    {
        proof {
            reveal(AdditiveEffect::fields);
        }
        let color_tint = Color::read(reader)?;
        let vertex_color_enabled = reader.read_bool()?;
        let texture_enabled = reader.read_bool()?;
        let texture = reader.read_7bit_length_string()?;
        Ok(AdditiveEffect { color_tint, vertex_color_enabled, texture_enabled, texture })
    }
}

impl Decode for AdditiveEffect {
    open spec fn wire(c: Cursor) -> (AdditiveEffectView, Cursor) {
        AdditiveEffect::layout(c)
    }

    proof fn lemma_wire_failed(c: Cursor) {
    }

    fn decode(r: &mut Reader) -> (res: Result<Self, DecodeError>) {
        AdditiveEffect::read(r)
    }
}

/// One layer of a deferred material.
#[derive(Clone, PartialEq, Eq, Debug)]
pub struct RenderDeferredEffectMaterial {
    pub diffuse_texture_alpha_disabled: bool,
    pub alpha_mask_enabled: bool,
    pub diffuse_color: Color,
    pub spec_amount: Single,
    pub spec_power: Single,
    pub emissive_amount: Single,
    pub normal_power: Single,
    pub reflectiveness: Single,
    pub diffuse_texture: String,
    pub material_texture: String,
    pub normal_texture: String,
}

/// `RenderDeferredEffectMaterial` as the format states it.
pub struct RenderDeferredEffectMaterialView {
    pub diffuse_texture_alpha_disabled: bool,
    pub alpha_mask_enabled: bool,
    pub diffuse_color: Color,
    pub spec_amount: Single,
    pub spec_power: Single,
    pub emissive_amount: Single,
    pub normal_power: Single,
    pub reflectiveness: Single,
    pub diffuse_texture: Seq<char>,
    pub material_texture: Seq<char>,
    pub normal_texture: Seq<char>,
}

impl DeepView for RenderDeferredEffectMaterial {
    type V = RenderDeferredEffectMaterialView;

    open spec fn deep_view(&self) -> RenderDeferredEffectMaterialView {
        RenderDeferredEffectMaterialView {
            diffuse_texture_alpha_disabled: self.diffuse_texture_alpha_disabled,
            alpha_mask_enabled: self.alpha_mask_enabled,
            diffuse_color: self.diffuse_color,
            spec_amount: self.spec_amount,
            spec_power: self.spec_power,
            emissive_amount: self.emissive_amount,
            normal_power: self.normal_power,
            reflectiveness: self.reflectiveness,
            diffuse_texture: self.diffuse_texture.deep_view(),
            material_texture: self.material_texture.deep_view(),
            normal_texture: self.normal_texture.deep_view(),
        }
    }
}

impl RenderDeferredEffectMaterial {
    /// The fields on the wire, one behind the other.
    #[verifier::opaque]
    pub open spec fn fields(c: Cursor) -> (RenderDeferredEffectMaterialView, Cursor) {
        let (diffuse_texture_alpha_disabled, c1) = c.bool();
        let (alpha_mask_enabled, c2) = c1.bool();
        let (diffuse_color, c3) = Color::layout(c2);
        let (spec_amount, c4) = Single::layout(c3);
        let (spec_power, c5) = Single::layout(c4);
        let (emissive_amount, c6) = Single::layout(c5);
        let (normal_power, c7) = Single::layout(c6);
        let (reflectiveness, c8) = Single::layout(c7);
        let (diffuse_texture, c9) = c8.string();
        let (material_texture, c10) = c9.string();
        let (normal_texture, c11) = c10.string();
        (RenderDeferredEffectMaterialView {
            diffuse_texture_alpha_disabled,
            alpha_mask_enabled,
            diffuse_color,
            spec_amount,
            spec_power,
            emissive_amount,
            normal_power,
            reflectiveness,
            diffuse_texture,
            material_texture,
            normal_texture,
        }, c11)
    }

    /// The value at `c`: nothing from a failed cursor.
    pub open spec fn layout(c: Cursor) -> (RenderDeferredEffectMaterialView, Cursor) {
        if c.err is Some {
            (arbitrary(), c)
        } else {
            Self::fields(c)
        }
    }

    /// Reads one `RenderDeferredEffectMaterial`.
    pub fn read(reader: &mut Reader) -> (res: Result<Self, DecodeError>)
        ensures
            follows(res, final(reader)@, Self::layout(old(reader)@)),
    {
        proof {
            reveal(RenderDeferredEffectMaterial::fields);
        }
        let diffuse_texture_alpha_disabled = reader.read_bool()?;
        let alpha_mask_enabled = reader.read_bool()?;
        let diffuse_color = Color::read(reader)?;
        let spec_amount = Single::read(reader)?;
        let spec_power = Single::read(reader)?;
        let emissive_amount = Single::read(reader)?;
        let normal_power = Single::read(reader)?;
        let reflectiveness = Single::read(reader)?;
        let diffuse_texture = reader.read_7bit_length_string()?;
        let material_texture = reader.read_7bit_length_string()?;
        let normal_texture = reader.read_7bit_length_string()?;
        Ok(RenderDeferredEffectMaterial {
            diffuse_texture_alpha_disabled,
            alpha_mask_enabled,
            diffuse_color,
            spec_amount,
            spec_power,
            emissive_amount,
            normal_power,
            reflectiveness,
            diffuse_texture,
            material_texture,
            normal_texture,
        })
    }
}

impl Decode for RenderDeferredEffectMaterial {
    open spec fn wire(c: Cursor) -> (RenderDeferredEffectMaterialView, Cursor) {
        RenderDeferredEffectMaterial::layout(c)
    }

    proof fn lemma_wire_failed(c: Cursor) {
    }

    fn decode(r: &mut Reader) -> (res: Result<Self, DecodeError>) {
        RenderDeferredEffectMaterial::read(r)
    }
}

/// A deferred material of one or two layers.
#[derive(Clone, PartialEq, Eq, Debug)]
pub struct RenderDeferredEffect {
    pub alpha: Single,
    pub sharpness: Single,
    pub vertex_color_enabled: bool,
    pub use_material_texture_for_reflectiveness: bool,
    pub reflection_map: String,
    pub material_0: RenderDeferredEffectMaterial,
    pub material_1: Option<RenderDeferredEffectMaterial>,
}

/// `RenderDeferredEffect` as the format states it.
pub struct RenderDeferredEffectView {
    pub alpha: Single,
    pub sharpness: Single,
    pub vertex_color_enabled: bool,
    pub use_material_texture_for_reflectiveness: bool,
    pub reflection_map: Seq<char>,
    pub material_0: RenderDeferredEffectMaterialView,
    pub material_1: Option<RenderDeferredEffectMaterialView>,
}

impl DeepView for RenderDeferredEffect {
    type V = RenderDeferredEffectView;

    open spec fn deep_view(&self) -> RenderDeferredEffectView {
        RenderDeferredEffectView {
            alpha: self.alpha,
            sharpness: self.sharpness,
            vertex_color_enabled: self.vertex_color_enabled,
            use_material_texture_for_reflectiveness: self.use_material_texture_for_reflectiveness,
            reflection_map: self.reflection_map.deep_view(),
            material_0: self.material_0.deep_view(),
            material_1: self.material_1.deep_view(),
        }
    }
}

impl RenderDeferredEffect {
    /// The fields on the wire, one behind the other.
    #[verifier::opaque]
    pub open spec fn fields(c: Cursor) -> (RenderDeferredEffectView, Cursor) {
        let (alpha, c1) = Single::layout(c);
        let (sharpness, c2) = Single::layout(c1);
        let (vertex_color_enabled, c3) = c2.bool();
        let (use_material_texture_for_reflectiveness, c4) = c3.bool();
        let (reflection_map, c5) = c4.string();
        let (material_0, c6) = RenderDeferredEffectMaterial::layout(c5);
        let (material_1, c7) = optional::<RenderDeferredEffectMaterial>(c6);
        (RenderDeferredEffectView {
            alpha,
            sharpness,
            vertex_color_enabled,
            use_material_texture_for_reflectiveness,
            reflection_map,
            material_0,
            material_1,
        }, c7)
    }

    /// The value at `c`: nothing from a failed cursor.
    pub open spec fn layout(c: Cursor) -> (RenderDeferredEffectView, Cursor) {
        if c.err is Some {
            (arbitrary(), c)
        } else {
            Self::fields(c)
        }
    }

    /// Reads one `RenderDeferredEffect`.
    pub fn read(reader: &mut Reader) -> (res: Result<Self, DecodeError>)
        ensures
            follows(res, final(reader)@, Self::layout(old(reader)@)),
    {
        proof {
            reveal(RenderDeferredEffect::fields);
        }
        let alpha = Single::read(reader)?;
        let sharpness = Single::read(reader)?;
        let vertex_color_enabled = reader.read_bool()?;
        let use_material_texture_for_reflectiveness = reader.read_bool()?;
        let reflection_map = reader.read_7bit_length_string()?;
        let material_0 = RenderDeferredEffectMaterial::read(reader)?;
        let material_1 = read_optional::<RenderDeferredEffectMaterial>(reader)?;
        Ok(RenderDeferredEffect {
            alpha,
            sharpness,
            vertex_color_enabled,
            use_material_texture_for_reflectiveness,
            reflection_map,
            material_0,
            material_1,
        })
    }
}

impl Decode for RenderDeferredEffect {
    open spec fn wire(c: Cursor) -> (RenderDeferredEffectView, Cursor) {
        RenderDeferredEffect::layout(c)
    }

    proof fn lemma_wire_failed(c: Cursor) {
    }

    fn decode(r: &mut Reader) -> (res: Result<Self, DecodeError>) {
        RenderDeferredEffect::read(r)
    }
}

/// A deferred, normal-mapped material of a skinned model.
#[derive(Clone, PartialEq, Eq, Debug)]
pub struct SkinnedModelDeferredNormalMappedEffect {
    pub diffuse_color: Color,
    pub specular_amount: Single,
    pub specular_power: Single,
    pub emissive_amount: Single,
    pub normal_power: Single,
    pub diffuse_texture: String,
    pub material_texture: String,
    pub damage_texture: String,
    pub normal_texture: String,
    pub normal_damage_texture: String,
}

/// `SkinnedModelDeferredNormalMappedEffect` as the format states it.
pub struct SkinnedModelDeferredNormalMappedEffectView {
    pub diffuse_color: Color,
    pub specular_amount: Single,
    pub specular_power: Single,
    pub emissive_amount: Single,
    pub normal_power: Single,
    pub diffuse_texture: Seq<char>,
    pub material_texture: Seq<char>,
    pub damage_texture: Seq<char>,
    pub normal_texture: Seq<char>,
    pub normal_damage_texture: Seq<char>,
}

impl DeepView for SkinnedModelDeferredNormalMappedEffect {
    type V = SkinnedModelDeferredNormalMappedEffectView;

    open spec fn deep_view(&self) -> SkinnedModelDeferredNormalMappedEffectView {
        SkinnedModelDeferredNormalMappedEffectView {
            diffuse_color: self.diffuse_color,
            specular_amount: self.specular_amount,
            specular_power: self.specular_power,
            emissive_amount: self.emissive_amount,
            normal_power: self.normal_power,
            diffuse_texture: self.diffuse_texture.deep_view(),
            material_texture: self.material_texture.deep_view(),
            damage_texture: self.damage_texture.deep_view(),
            normal_texture: self.normal_texture.deep_view(),
            normal_damage_texture: self.normal_damage_texture.deep_view(),
        }
    }
}

impl SkinnedModelDeferredNormalMappedEffect {
    /// The fields on the wire, one behind the other.
    #[verifier::opaque]
    pub open spec fn fields(c: Cursor) -> (SkinnedModelDeferredNormalMappedEffectView, Cursor) {
        let (diffuse_color, c1) = Color::layout(c);
        let (specular_amount, c2) = Single::layout(c1);
        let (specular_power, c3) = Single::layout(c2);
        let (emissive_amount, c4) = Single::layout(c3);
        let (normal_power, c5) = Single::layout(c4);
        let (diffuse_texture, c6) = c5.string();
        let (material_texture, c7) = c6.string();
        let (damage_texture, c8) = c7.string();
        let (normal_texture, c9) = c8.string();
        let (normal_damage_texture, c10) = c9.string();
        (SkinnedModelDeferredNormalMappedEffectView {
            diffuse_color,
            specular_amount,
            specular_power,
            emissive_amount,
            normal_power,
            diffuse_texture,
            material_texture,
            damage_texture,
            normal_texture,
            normal_damage_texture,
        }, c10)
    }

    /// The value at `c`: nothing from a failed cursor.
    pub open spec fn layout(c: Cursor) -> (SkinnedModelDeferredNormalMappedEffectView, Cursor) {
        if c.err is Some {
            (arbitrary(), c)
        } else {
            Self::fields(c)
        }
    }

    /// Reads one `SkinnedModelDeferredNormalMappedEffect`.
    pub fn read(reader: &mut Reader) -> (res: Result<Self, DecodeError>)
        ensures
            follows(res, final(reader)@, Self::layout(old(reader)@)),
    {
        proof {
            reveal(SkinnedModelDeferredNormalMappedEffect::fields);
        }
        let diffuse_color = Color::read(reader)?;
        let specular_amount = Single::read(reader)?;
        let specular_power = Single::read(reader)?;
        let emissive_amount = Single::read(reader)?;
        let normal_power = Single::read(reader)?;
        let diffuse_texture = reader.read_7bit_length_string()?;
        let material_texture = reader.read_7bit_length_string()?;
        let damage_texture = reader.read_7bit_length_string()?;
        let normal_texture = reader.read_7bit_length_string()?;
        let normal_damage_texture = reader.read_7bit_length_string()?;
        Ok(SkinnedModelDeferredNormalMappedEffect {
            diffuse_color,
            specular_amount,
            specular_power,
            emissive_amount,
            normal_power,
            diffuse_texture,
            material_texture,
            damage_texture,
            normal_texture,
            normal_damage_texture,
        })
    }
}

impl Decode for SkinnedModelDeferredNormalMappedEffect {
    open spec fn wire(c: Cursor) -> (SkinnedModelDeferredNormalMappedEffectView, Cursor) {
        SkinnedModelDeferredNormalMappedEffect::layout(c)
    }

    proof fn lemma_wire_failed(c: Cursor) {
    }

    fn decode(r: &mut Reader) -> (res: Result<Self, DecodeError>) {
        SkinnedModelDeferredNormalMappedEffect::read(r)
    }
}

/// An effect and the bone it follows.
#[derive(Clone, PartialEq, Eq, Debug)]
pub struct BonedEffect {
    pub bone: String,
    pub effect: String,
}

/// `BonedEffect` as the format states it.
pub struct BonedEffectView {
    pub bone: Seq<char>,
    pub effect: Seq<char>,
}

impl DeepView for BonedEffect {
    type V = BonedEffectView;

    open spec fn deep_view(&self) -> BonedEffectView {
        BonedEffectView {
            bone: self.bone.deep_view(),
            effect: self.effect.deep_view(),
        }
    }
}

impl BonedEffect {
    /// The fields on the wire, one behind the other.
    #[verifier::opaque]
    pub open spec fn fields(c: Cursor) -> (BonedEffectView, Cursor) {
        let (bone, c1) = c.string();
        let (effect, c2) = c1.string();
        (BonedEffectView { bone, effect }, c2)
    }

    /// The value at `c`: nothing from a failed cursor.
    pub open spec fn layout(c: Cursor) -> (BonedEffectView, Cursor) {
        if c.err is Some {
            (arbitrary(), c)
        } else {
            Self::fields(c)
        }
    }

    /// Reads one `BonedEffect`.
    pub fn read(reader: &mut Reader) -> (res: Result<Self, DecodeError>)
        ensures
            follows(res, final(reader)@, Self::layout(old(reader)@)),
    {
        proof {
            reveal(BonedEffect::fields);
        }
        let bone = reader.read_7bit_length_string()?;
        let effect = reader.read_7bit_length_string()?;
        Ok(BonedEffect { bone, effect })
    }
}

impl Decode for BonedEffect {
    open spec fn wire(c: Cursor) -> (BonedEffectView, Cursor) {
        BonedEffect::layout(c)
    }

    proof fn lemma_wire_failed(c: Cursor) {
    }

    fn decode(r: &mut Reader) -> (res: Result<Self, DecodeError>) {
        BonedEffect::read(r)
    }
}

/// The material of a skinned model. Each map is a reference to another
/// asset, or none.
#[derive(Clone, PartialEq, Eq, Debug)]
pub struct SkinnedModelBasicEffect {
    pub method: u8,
    pub emissive_amount: Single,
    pub diffuse_color: Color,
    pub specular_amount: Single,
    pub specular_power: Single,
    pub alpha: Single,
    pub use_soft_light_blend: bool,
    pub map_0_diffuse: Option<String>,
    pub map_1_diffuse: Option<String>,
    pub map_0_damage: Option<String>,
    pub map_1_damage: Option<String>,
    pub material_map: Option<String>,
    pub normal_map: Option<String>,
}

/// `SkinnedModelBasicEffect` as the format states it.
pub struct SkinnedModelBasicEffectView {
    pub method: u8,
    pub emissive_amount: Single,
    pub diffuse_color: Color,
    pub specular_amount: Single,
    pub specular_power: Single,
    pub alpha: Single,
    pub use_soft_light_blend: bool,
    pub map_0_diffuse: Option<Seq<char>>,
    pub map_1_diffuse: Option<Seq<char>>,
    pub map_0_damage: Option<Seq<char>>,
    pub map_1_damage: Option<Seq<char>>,
    pub material_map: Option<Seq<char>>,
    pub normal_map: Option<Seq<char>>,
}

impl DeepView for SkinnedModelBasicEffect {
    type V = SkinnedModelBasicEffectView;

    open spec fn deep_view(&self) -> SkinnedModelBasicEffectView {
        SkinnedModelBasicEffectView {
            method: self.method,
            emissive_amount: self.emissive_amount,
            diffuse_color: self.diffuse_color,
            specular_amount: self.specular_amount,
            specular_power: self.specular_power,
            alpha: self.alpha,
            use_soft_light_blend: self.use_soft_light_blend,
            map_0_diffuse: self.map_0_diffuse.deep_view(),
            map_1_diffuse: self.map_1_diffuse.deep_view(),
            map_0_damage: self.map_0_damage.deep_view(),
            map_1_damage: self.map_1_damage.deep_view(),
            material_map: self.material_map.deep_view(),
            normal_map: self.normal_map.deep_view(),
        }
    }
}

} // verus!
