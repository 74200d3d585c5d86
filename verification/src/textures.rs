//! Textures that draws can name: user textures registered from existing wgpu
//! texture views (kept in a generational arena), and managed textures (kept
//! by the caller, keyed by id).
use vstd::prelude::*;
use std::collections::HashMap;
use std::sync::Arc;
use thunderdome::{Arena, Index};
use crate::arena::{arena_wf, is_empty_contents};
use crate::id::{slot_of, valid_index_bits};

verus! {

/// wgpu's texture view, held opaquely.
#[verifier::external_type_specification]
#[verifier::external_body]
pub struct ExTextureView(wgpu::TextureView);

/// wgpu's texture filtering mode, held opaquely.
#[verifier::external_type_specification]
#[verifier::external_body]
pub struct ExFilterMode(wgpu::FilterMode);

/// wgpu's texture addressing mode, held opaquely.
#[verifier::external_type_specification]
#[verifier::external_body]
pub struct ExAddressMode(wgpu::AddressMode);

/// Identifies a texture that yakui manages: the bits of its index.
#[derive(Clone, Copy, Debug, PartialEq, Eq, Structural, Hash)]
pub struct ManagedTextureId(pub u64);

/// Names the texture a draw samples.
#[derive(Clone, Copy, Debug, PartialEq, Eq, Structural)]
pub enum TextureId {
    /// A texture that yakui manages.
    Managed(ManagedTextureId),
    /// A texture registered by the user: the bits of its arena index.
    User(u64),
}

/// A user texture: an existing wgpu view and how to sample it.
pub struct GpuTexture {
    pub view: Arc<wgpu::TextureView>,
    pub min_filter: wgpu::FilterMode,
    pub mag_filter: wgpu::FilterMode,
    pub mipmap_filter: wgpu::FilterMode,
    pub address_mode: wgpu::AddressMode,
}

/// What an arena of user textures holds: index bits to texture.
pub uninterp spec fn user_textures(a: Arena<GpuTexture>) -> Map<u64, GpuTexture>;

/// `Arena::new`: an arena with no entries.
#[verifier::external_body]
fn user_textures_new() -> (r: Arena<GpuTexture>)
    ensures
        is_empty_contents(user_textures(r)),
{
    Arena::new()
}

/// `Arena::insert`: stores `v` in a free slot (reusing one with a later
/// generation, or a new one) and returns its index, which shares its slot
/// with no entry there was.
#[verifier::external_body]
fn user_textures_insert(a: &mut Arena<GpuTexture>, v: GpuTexture) -> (r: u64)
    requires
        arena_wf(user_textures(*old(a))),
        user_textures(*old(a)).len() < u32::MAX,
    ensures
        valid_index_bits(r),
        forall|j: u64| #[trigger]
            user_textures(*old(a)).contains_key(j) ==> slot_of(j) != slot_of(r),
        user_textures(*final(a)) == user_textures(*old(a)).insert(r, v),
{
    a.insert(v).to_bits()
}

/// `Arena::len`: the number of entries.
#[verifier::external_body]
fn user_textures_len(a: &Arena<GpuTexture>) -> (r: usize)
    requires
        arena_wf(user_textures(*a)),
    ensures
        r == user_textures(*a).len(),
{
    a.len()
}

/// `Arena::get`: the entry at exactly this index.
#[verifier::external_body]
fn user_textures_get(a: &Arena<GpuTexture>, k: u64) -> (r: Option<&GpuTexture>)
    requires
        valid_index_bits(k),
    ensures
        r is Some <==> user_textures(*a).contains_key(k),
        r matches Some(v) ==> *v == user_textures(*a)[k],
{
    a.get(Index::from_bits(k).unwrap())
}

/// `Arena::get_mut` on an index that is present: the entry, to be changed in
/// place.
#[verifier::external_body]
fn user_textures_get_mut(a: &mut Arena<GpuTexture>, k: u64) -> (r: &mut GpuTexture)
    requires
        valid_index_bits(k),
        user_textures(*old(a)).contains_key(k),
    ensures
        *r == user_textures(*old(a))[k],
        user_textures(*final(a)) == user_textures(*old(a)).insert(k, *final(r)),
{
    a.get_mut(Index::from_bits(k).unwrap()).unwrap()
}

/// Whether the bits `bits` encode an arena index (nonzero generation).
fn bits_are_index(bits: u64) -> (r: bool)
    ensures
        r == valid_index_bits(bits),
{
    let g = bits >> 32u64;
    assert(g == 0 <==> bits as int / 0x1_0000_0000 == 0) by (bit_vector)
        requires g == bits >> 32u64;
    g != 0
}

/// The user textures registered with the renderer.
pub struct UserTextures {
    arena: Arena<GpuTexture>,
}

impl UserTextures {
    /// The registered textures, keyed by the bits of their index.
    pub closed spec fn texture_map(self) -> Map<u64, GpuTexture> {
        user_textures(self.arena)
    }

    /// The arena keeps its shape.
    #[verifier::type_invariant]
    spec fn wf(self) -> bool {
        arena_wf(self.texture_map())
    }

    /// Whether `id` names a registered user texture.
    pub open spec fn names_texture(self, id: TextureId) -> bool {
        id matches TextureId::User(bits) && valid_index_bits(bits)
            && self.texture_map().contains_key(bits)
    }

    /// No textures.
    pub fn new() -> (r: Self)
        ensures
            r.texture_map() == Map::<u64, GpuTexture>::empty(),
    {
        UserTextures { arena: user_textures_new() }
    }

    /// How many user textures are registered; callers check it against
    /// `u32::MAX` before adding another.
    pub fn len(&self) -> (r: usize)
        ensures
            r == self.texture_map().len(),
    {
        proof {
            use_type_invariant(self);
        }
        user_textures_len(&self.arena)
    }

    /// Registers a texture view with how to sample it, and returns the id
    /// that draws name it by.
    pub fn add_texture(
        &mut self,
        view: Arc<wgpu::TextureView>,
        min_filter: wgpu::FilterMode,
        mag_filter: wgpu::FilterMode,
        mipmap_filter: wgpu::FilterMode,
        address_mode: wgpu::AddressMode,
    ) -> (r: TextureId)
        requires
            old(self).texture_map().len() < u32::MAX,
        ensures
            r matches TextureId::User(bits) && !old(self).texture_map().contains_key(bits)
                && final(self).texture_map() == old(self).texture_map().insert(
                bits,
                GpuTexture { view, min_filter, mag_filter, mipmap_filter, address_mode },
            ),
            final(self).names_texture(r),
    {
        proof {
            use_type_invariant(&*self);
        }
        let mut arena = user_textures_new();
        std::mem::swap(&mut arena, &mut self.arena);
        let index = user_textures_insert(
            &mut arena,
            GpuTexture { view, min_filter, mag_filter, mipmap_filter, address_mode },
        );
        std::mem::swap(&mut arena, &mut self.arena);
        TextureId::User(index)
    }

    /// Whether `id` names a registered user texture, so that
    /// [`Self::update_texture`] accepts it.
    pub fn contains(&self, id: TextureId) -> (r: bool)
        ensures
            r == self.names_texture(id),
    {
        match id {
            TextureId::User(bits) => {
                if bits_are_index(bits) {
                    user_textures_get(&self.arena, bits).is_some()
                } else {
                    false
                }
            },
            TextureId::Managed(_) => false,
        }
    }

    /// Replaces the view of an existing user texture; how it is sampled stays.
    pub fn update_texture(&mut self, id: TextureId, view: Arc<wgpu::TextureView>)
        requires
            old(self).names_texture(id),
        ensures
            id matches TextureId::User(bits) && final(self).texture_map() == old(
                self,
            ).texture_map().insert(bits, GpuTexture { view, ..old(self).texture_map()[bits] }),
    {
        let bits = match id {
            TextureId::User(bits) => bits,
            TextureId::Managed(_) => {
                proof {
                    assert(false);
                }
                0
            },
        };
        proof {
            use_type_invariant(&*self);
        }
        let mut arena = user_textures_new();
        std::mem::swap(&mut arena, &mut self.arena);
        let existing = user_textures_get_mut(&mut arena, bits);
        existing.view = view;
        std::mem::swap(&mut arena, &mut self.arena);
    }

    /// The registered texture that `bits` name, if any.
    pub fn get(&self, bits: u64) -> (r: Option<&GpuTexture>)
        ensures
            r is Some <==> valid_index_bits(bits) && self.texture_map().contains_key(bits),
            r matches Some(t) ==> *t == self.texture_map()[bits],
    {
        if bits_are_index(bits) {
            user_textures_get(&self.arena, bits)
        } else {
            None
        }
    }
}

/// How a draw's sampler filters between mipmap levels.
#[derive(Clone, Copy, Debug)]
pub enum MipmapFilter {
    /// Nearest level.
    Nearest,
    /// The given filter.
    Filter(wgpu::FilterMode),
}

/// How a draw's texture is sampled.
#[derive(Clone, Copy, Debug)]
pub struct SamplerSettings {
    pub min_filter: wgpu::FilterMode,
    pub mag_filter: wgpu::FilterMode,
    pub mipmap: MipmapFilter,
    pub address_mode: wgpu::AddressMode,
}

/// Where the texture of a draw comes from.
#[derive(Clone, Copy, Debug, PartialEq, Eq, Structural)]
pub enum TextureSource {
    /// The managed texture with this id.
    Managed(ManagedTextureId),
    /// The user texture with these index bits.
    User(u64),
    /// The renderer's default texture.
    Default,
}

/// The texture a draw that names `texture` samples: the named texture when it
/// exists, else the default one.
pub open spec fn select_texture_spec<M>(
    texture: Option<TextureId>,
    managed: Map<u64, M>,
    user: Map<u64, GpuTexture>,
) -> TextureSource {
    match texture {
        Some(TextureId::Managed(id)) => if managed.contains_key(id.0) {
            TextureSource::Managed(id)
        } else {
            TextureSource::Default
        },
        Some(TextureId::User(bits)) => if valid_index_bits(bits) && user.contains_key(bits) {
            TextureSource::User(bits)
        } else {
            TextureSource::Default
        },
        None => TextureSource::Default,
    }
}

/// Picks the texture that a draw naming `texture` samples, from the managed
/// textures (keyed by their id's bits) and the user textures.
pub fn select_texture<M>(
    texture: Option<TextureId>,
    managed: &HashMap<u64, M>,
    user: &UserTextures,
) -> (r: TextureSource)
    ensures
        r == select_texture_spec(texture, managed@, user.texture_map()),
        texture matches Some(TextureId::Managed(id)) ==> (managed@.contains_key(id.0)
            ==> r == TextureSource::Managed(id)) && (!managed@.contains_key(id.0) ==> r
            == TextureSource::Default),
        texture matches Some(TextureId::User(bits)) ==> (valid_index_bits(bits)
            && user.texture_map().contains_key(bits) ==> r == TextureSource::User(bits)) && (!(
        valid_index_bits(bits) && user.texture_map().contains_key(bits)) ==> r
            == TextureSource::Default),
        texture is None ==> r == TextureSource::Default,
{
    broadcast use vstd::std_specs::hash::group_hash_axioms;

    match texture {
        Some(TextureId::Managed(id)) => {
            if managed.contains_key(&id.0) {
                TextureSource::Managed(id)
            } else {
                TextureSource::Default
            }
        },
        Some(TextureId::User(bits)) => {
            if user.get(bits).is_some() {
                TextureSource::User(bits)
            } else {
                TextureSource::Default
            }
        },
        None => TextureSource::Default,
    }
}

} // verus!

verus! {

/// The sampler settings for a draw whose texture comes from `source`: a user
/// texture is sampled as it was registered; a managed or the default texture
/// with its own filters and addressing (`min_filter`, `mag_filter`,
/// `address_mode`) and nearest mipmap level.
pub fn sampler_settings(
    source: TextureSource,
    user: &UserTextures,
    min_filter: wgpu::FilterMode,
    mag_filter: wgpu::FilterMode,
    address_mode: wgpu::AddressMode,
) -> (r: SamplerSettings)
    requires
        source matches TextureSource::User(bits) ==> valid_index_bits(bits)
            && user.texture_map().contains_key(bits),
    ensures
        source matches TextureSource::User(bits) ==> {
            let t = user.texture_map()[bits];
            r == SamplerSettings {
                min_filter: t.min_filter,
                mag_filter: t.mag_filter,
                mipmap: MipmapFilter::Filter(t.mipmap_filter),
                address_mode: t.address_mode,
            }
        },
        !(source is User) ==> r == (SamplerSettings {
            min_filter,
            mag_filter,
            mipmap: MipmapFilter::Nearest,
            address_mode,
        }),
{
    match source {
        TextureSource::User(bits) => {
            let t = user.get(bits).unwrap();
            SamplerSettings {
                min_filter: t.min_filter,
                mag_filter: t.mag_filter,
                mipmap: MipmapFilter::Filter(t.mipmap_filter),
                address_mode: t.address_mode,
            }
        },
        _ => SamplerSettings { min_filter, mag_filter, mipmap: MipmapFilter::Nearest, address_mode },
    }
}

/// A draw samples the texture it names whenever the renderer has it, and the
/// default texture exactly when it does not (or names none): a managed id is
/// looked up under its full bits, a user id under its index bits.
pub proof fn lemma_named_texture_is_sampled<M>(
    texture: Option<TextureId>,
    managed: Map<u64, M>,
    user: Map<u64, GpuTexture>,
)
    ensures
        texture matches Some(TextureId::Managed(id)) ==> (managed.contains_key(id.0)
            ==> select_texture_spec(texture, managed, user) == TextureSource::Managed(id)) && (
        !managed.contains_key(id.0) ==> select_texture_spec(texture, managed, user)
            == TextureSource::Default),
        texture matches Some(TextureId::User(bits)) ==> (valid_index_bits(bits) && user.contains_key(
            bits,
        ) ==> select_texture_spec(texture, managed, user) == TextureSource::User(bits)) && (!(
        valid_index_bits(bits) && user.contains_key(bits)) ==> select_texture_spec(
            texture,
            managed,
            user,
        ) == TextureSource::Default),
        texture is None ==> select_texture_spec(texture, managed, user) == TextureSource::Default,
{
}

/// A user texture is selected only when it is registered, so its sampler
/// settings can be read.
pub proof fn lemma_selected_user_texture_exists<M>(
    texture: Option<TextureId>,
    managed: Map<u64, M>,
    user: Map<u64, GpuTexture>,
)
    ensures
        select_texture_spec(texture, managed, user) matches TextureSource::User(bits)
            ==> valid_index_bits(bits) && user.contains_key(bits),
{
}

/// A draw that names a newly added user texture samples that texture.
pub proof fn lemma_added_texture_is_selected<M>(
    before: Map<u64, GpuTexture>,
    bits: u64,
    t: GpuTexture,
    managed: Map<u64, M>,
)
    requires
        valid_index_bits(bits),
    ensures
        select_texture_spec(Some(TextureId::User(bits)), managed, before.insert(bits, t))
            == TextureSource::User(bits),
{
}

} // verus!
