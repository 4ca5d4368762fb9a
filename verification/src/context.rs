//! Adapters that let a windowing library's graphics context and
//! function-pointer provider satisfy the device layer's contracts.

use vstd::prelude::*;

verus! {

/// The windowing layer's function-pointer and extension-query provider,
/// borrowed by the device layer only during initialization.
pub trait GlProvider {
    /// Address of the GPU entry point `name`.
    spec fn proc_address_of(&self, name: Seq<char>) -> usize;

    /// Whether the extension `name` is supported.
    spec fn supports_extension(&self, name: Seq<char>) -> bool;

    fn get_proc_address(&self, name: &str) -> (r: usize)
        ensures
            r == self.proc_address_of(name@),
    ;

    fn extension_supported(&self, name: &str) -> (r: bool)
        ensures
            r == self.supports_extension(name@),
    ;
}

/// A live graphics context of the windowing layer: it can be made current on
/// the calling thread and can present (swap) its buffers. The
/// [`Self::presented`] count observes the presentations, so a contract can
/// say that a call forwarded exactly one swap to the context.
pub trait Context: Sized {
    /// Whether this context is current on the calling thread.
    spec fn is_current(&self) -> bool;

    /// How many times this context has presented (swapped) its buffers.
    spec fn presented(&self) -> nat;

    fn make_current(&mut self)
        ensures
            final(self).is_current(),
            final(self).presented() == old(self).presented(),
    ;

    fn swap_buffers(&mut self)
        ensures
            final(self).is_current() == old(self).is_current(),
            final(self).presented() == old(self).presented() + 1,
    ;
}

/// Borrowed wrapper that forwards a provider's read-only queries to the
/// device layer. It only borrows the windowing library's loader, so it must
/// not be retained past the initializing call that consumes it.
pub struct Wrap<'a, P: GlProvider> {
    pub provider: &'a P,
}

impl<'a, P: GlProvider> Wrap<'a, P> {
    pub fn get_proc_address(&self, name: &str) -> (r: usize)
        ensures
            r == self.provider.proc_address_of(name@),
    {
        self.provider.get_proc_address(name)
    }

    pub fn is_extension_supported(&self, name: &str) -> (r: bool)
        ensures
            r == self.provider.supports_extension(name@),
    {
        self.provider.extension_supported(name)
    }
}

/// Owning wrapper that lets a windowing-library context satisfy the device
/// layer's current-context and present contract.
pub struct GlfwGraphicsContext<C> {
    pub context: C,
}

impl<C: Context> GlfwGraphicsContext<C> {
    /// Take ownership of a context and a reference to a provider, make the
    /// context current, and return the owning wrapper paired with the
    /// borrowed provider wrapper.
    pub fn new<'a, P: GlProvider>(context: C, provider: &'a P) -> (r: (
        GlfwGraphicsContext<C>,
        Wrap<'a, P>,
    ))
        ensures
            r.0.context.is_current(),
            r.0.context.presented() == context.presented(),
            r.1.provider == provider,
    {
        let mut context = context;
        context.make_current();
        (GlfwGraphicsContext { context }, Wrap { provider })
    }

    /// Make the wrapped context current on the calling thread; nothing is
    /// presented.
    pub fn make_current(&mut self)
        ensures
            final(self).context.is_current(),
            final(self).context.presented() == old(self).context.presented(),
    {
        self.context.make_current();
    }

    /// Present the wrapped context's buffers: exactly one swap is forwarded
    /// to the underlying context.
    pub fn swap_buffers(&mut self)
        ensures
            final(self).context.is_current() == old(self).context.is_current(),
            final(self).context.presented() == old(self).context.presented() + 1,
    {
        self.context.swap_buffers();
    }
}

} // verus!
