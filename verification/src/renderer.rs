//! The renderer: one backend, chosen at startup, behind one interface.
//!
//! A renderer owns exactly one backend for its whole lifetime — no mixing
//! of OpenGL and Vulkan resources within one renderer — and `draw`
//! forwards to that backend's present, exactly once per call.

use vstd::prelude::*;

use crate::backend::{Backend, RendererT};
use crate::context::{GlContext, VkContext};

verus! {

/// The OpenGL backend: presents by swapping the context's buffers.
pub struct GlRenderer {
    pub ctx: GlContext,
}

impl GlRenderer {
    /// Wraps an initialized OpenGL context.
    pub fn new(ctx: GlContext) -> (r: GlRenderer)
        ensures
            r.ctx == ctx,
    {
        GlRenderer { ctx }
    }
}

impl RendererT for GlRenderer {
    open spec fn swaps(&self) -> u64 {
        self.ctx.swaps
    }

    fn swap_buffers(&mut self) {
        self.ctx.swap_buffers();
    }
}

/// The Vulkan backend.  Presenting records the request; no per-frame
/// native work is modeled at this layer yet.
pub struct VkRenderer {
    pub ctx: VkContext,
    pub presented: u64,
}

impl VkRenderer {
    /// Wraps an initialized Vulkan context.
    pub fn new(ctx: VkContext) -> (r: VkRenderer)
        ensures
            r.ctx == ctx,
            r.presented == 0,
    {
        VkRenderer { ctx, presented: 0 }
    }
}

impl RendererT for VkRenderer {
    open spec fn swaps(&self) -> u64 {
        self.presented
    }

    fn swap_buffers(&mut self) {
        self.presented = self.presented + 1;
    }
}

/// Exactly one of the two backends, chosen at construction and never
/// swapped afterward.
pub enum RendererBackend {
    Gl(GlRenderer),
    Vk(VkRenderer),
}

impl RendererBackend {
    /// How many presents the backend performed.
    pub open spec fn swaps(&self) -> u64 {
        match self {
            RendererBackend::Gl(g) => g.swaps(),
            RendererBackend::Vk(v) => v.swaps(),
        }
    }

    /// Whether this is the OpenGL backend.
    pub open spec fn is_gl(&self) -> bool {
        self is Gl
    }
}

/// Errors of renderer construction.
#[derive(Clone, Copy, Debug, PartialEq, Eq, Structural)]
pub enum RendererError {
    UndefinedBackend,
}

/// Which construction path a backend selector dispatches to.
#[derive(Clone, Copy, Debug, PartialEq, Eq, Structural)]
pub enum BackendKind {
    Gl,
    Vk,
}

/// The renderer: the application's one handle on the active backend.
pub struct Renderer {
    inner: RendererBackend,
}

impl Renderer {
    /// How many presents the active backend performed.
    pub closed spec fn swaps(&self) -> u64 {
        self.inner.swaps()
    }

    /// Whether the active backend is the OpenGL one.
    pub closed spec fn is_gl(&self) -> bool {
        self.inner.is_gl()
    }

    /// Wraps the chosen backend.
    pub fn new(inner: RendererBackend) -> (r: Renderer)
        ensures
            r.swaps() == inner.swaps(),
            r.is_gl() == inner.is_gl(),
    {
        Renderer { inner }
    }

    /// Dispatches construction on the backend selector: each defined
    /// backend has its construction path, and an undefined selector is a
    /// configuration error the caller must resolve.
    pub fn select_backend(backend: Backend) -> (r: Result<BackendKind, RendererError>)
        ensures
            backend == Backend::GL ==> r == Ok::<BackendKind, RendererError>(BackendKind::Gl),
            backend == Backend::VK ==> r == Ok::<BackendKind, RendererError>(BackendKind::Vk),
            backend == Backend::UNDEFINED ==> r == Err::<BackendKind, RendererError>(
                RendererError::UndefinedBackend,
            ),
    {
        match backend {
            Backend::GL => Ok(BackendKind::Gl),
            Backend::VK => Ok(BackendKind::Vk),
            Backend::UNDEFINED => Err(RendererError::UndefinedBackend),
        }
    }

    /// How many presents the active backend performed, as a value.
    pub fn swap_count(&self) -> (n: u64)
        ensures
            n == self.swaps(),
    {
        match &self.inner {
            RendererBackend::Gl(g) => g.ctx.swaps,
            RendererBackend::Vk(v) => v.presented,
        }
    }

    /// Draws a frame: forwards to the active backend's present, which
    /// swaps exactly once per invocation.
    pub fn draw(&mut self)
        requires
            old(self).swaps() < u64::MAX,
        ensures
            final(self).swaps() == old(self).swaps() + 1,
            final(self).is_gl() == old(self).is_gl(),
    {
        match &mut self.inner {
            RendererBackend::Gl(g) => g.swap_buffers(),
            RendererBackend::Vk(v) => v.swap_buffers(),
        }
    }
}

} // verus!
