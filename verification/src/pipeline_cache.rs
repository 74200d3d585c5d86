//! A cache of one render pipeline, rebuilt only when the surface it draws to
//! changes format, depth format or sample count.
use vstd::prelude::*;

verus! {

/// wgpu's pipeline layout, held opaquely.
#[verifier::external_type_specification]
#[verifier::external_body]
pub struct ExPipelineLayout(wgpu::PipelineLayout);

/// wgpu's render pipeline, held opaquely.
#[verifier::external_type_specification]
#[verifier::external_body]
pub struct ExRenderPipeline(wgpu::RenderPipeline);

/// wgpu's texture format, held opaquely.
#[verifier::external_type_specification]
#[verifier::external_body]
pub struct ExTextureFormat(wgpu::TextureFormat);

/// `TextureFormat`'s `==`. The type derives `PartialEq` over variants whose
/// fields derive it too, so two formats compare equal exactly when they are
/// the same value.
#[verifier::external_body]
pub(crate) fn texture_format_eq(a: &wgpu::TextureFormat, b: &wgpu::TextureFormat) -> (r: bool)
    ensures
        r == (*a == *b),
{
    *a == *b
}

/// `Option<TextureFormat>`'s `==`: both absent, or both present and equal.
fn depth_format_eq(a: &Option<wgpu::TextureFormat>, b: &Option<wgpu::TextureFormat>) -> (r: bool)
    ensures
        r == (*a == *b),
{
    match (a, b) {
        (Some(x), Some(y)) => texture_format_eq(x, y),
        (None, None) => true,
        _ => false,
    }
}

/// The surface properties a pipeline is built for: color format, depth
/// format, sample count.
pub type PipelineKey = (wgpu::TextureFormat, Option<wgpu::TextureFormat>, u32);

struct Cached {
    pipeline: wgpu::RenderPipeline,
    format: wgpu::TextureFormat,
    depth_format: Option<wgpu::TextureFormat>,
    samples: u32,
}

/// A render pipeline built on demand for the current surface and kept until
/// the surface's properties change.
pub struct PipelineCache {
    layout: wgpu::PipelineLayout,
    current: Option<Cached>,
}

impl PipelineCache {
    /// The layout every pipeline of this cache is built with.
    pub closed spec fn layout(self) -> wgpu::PipelineLayout {
        self.layout
    }

    /// The surface properties the cached pipeline was built for, if any.
    pub closed spec fn key(self) -> Option<PipelineKey> {
        match self.current {
            Some(c) => Some((c.format, c.depth_format, c.samples)),
            None => None,
        }
    }

    /// The cached pipeline, if any.
    pub closed spec fn pipeline(self) -> Option<wgpu::RenderPipeline> {
        match self.current {
            Some(c) => Some(c.pipeline),
            None => None,
        }
    }

    /// Whether a request for `key` is served from the cache.
    pub open spec fn hits(self, key: PipelineKey) -> bool {
        self.key() == Some(key)
    }

    /// An empty cache that builds its pipelines with `layout`.
    pub fn new(layout: wgpu::PipelineLayout) -> (r: Self)
        ensures
            r.layout() == layout,
            r.key() is None,
            r.pipeline() is None,
    {
        PipelineCache { layout, current: None }
    }

    /// The pipeline for a surface of `format`, `depth_format` and `samples`:
    /// the cached one if it was built for exactly these, else the one that
    /// `init` builds from the layout, which replaces it in the cache.
    pub fn get<'a, F>(
        &'a mut self,
        format: wgpu::TextureFormat,
        depth_format: Option<wgpu::TextureFormat>,
        samples: u32,
        init: F,
    ) -> (r: &'a wgpu::RenderPipeline) where F: FnOnce(&wgpu::PipelineLayout) -> wgpu::RenderPipeline
        requires
            call_requires(init, (&old(self).layout(),)),
        ensures
            final(self).layout() == old(self).layout(),
            final(self).key() == Some((format, depth_format, samples)),
            old(self).hits((format, depth_format, samples)) ==> final(self).pipeline()
                == old(self).pipeline(),
            !old(self).hits((format, depth_format, samples)) ==> call_ensures(
                init,
                (&old(self).layout(),),
                final(self).pipeline().unwrap(),
            ),
            final(self).pipeline() is Some,
            *r == final(self).pipeline().unwrap(),
    {
        let hit = match &self.current {
            Some(existing) => texture_format_eq(&existing.format, &format) && existing.samples
                == samples && depth_format_eq(&existing.depth_format, &depth_format),
            None => false,
        };
        if !hit {
            let pipeline = init(&self.layout);
            self.current = Some(Cached { pipeline, format, depth_format, samples });
        }
        &self.current.as_ref().unwrap().pipeline
    }
}

} // verus!

