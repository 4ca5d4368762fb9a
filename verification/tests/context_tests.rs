use gfx::context::GlfwGraphicsContext;
use gfx::dummy::{DummyContext, DummyProvider};

#[test]
fn new_makes_the_context_current() {
    let ctx = DummyContext::new();
    assert!(!ctx.current);
    let provider = DummyProvider {
        address: 42,
        extensions_supported: true,
    };
    let (wrapper, _wrap) = GlfwGraphicsContext::new(ctx, &provider);
    assert!(wrapper.context.current);
}

#[test]
fn provider_wrapper_forwards_queries() {
    let ctx = DummyContext::new();
    let provider = DummyProvider {
        address: 42,
        extensions_supported: false,
    };
    let (_wrapper, wrap) = GlfwGraphicsContext::new(ctx, &provider);
    assert_eq!(wrap.get_proc_address("glDrawArrays"), 42);
    assert!(!wrap.is_extension_supported("GL_EXT_texture_filter_anisotropic"));
}

#[test]
fn context_wrapper_forwards_present_and_current() {
    let ctx = DummyContext::new();
    let provider = DummyProvider {
        address: 0,
        extensions_supported: true,
    };
    let (mut wrapper, _wrap) = GlfwGraphicsContext::new(ctx, &provider);
    wrapper.swap_buffers();
    wrapper.swap_buffers();
    // Each present call forwards exactly one swap to the wrapped context.
    assert_eq!(wrapper.context.swaps, 2);
    assert!(wrapper.context.current);
    wrapper.make_current();
    assert!(wrapper.context.current);
    // Making the context current presents nothing.
    assert_eq!(wrapper.context.swaps, 2);
}
