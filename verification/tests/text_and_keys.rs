use matono_client::gfx::rendertarget::{ColorRenderTargetKey, DepthRenderTargetKey, RenderTargetKey};
use matono_client::gfx::shader::{PixelShaderKey, ShaderKey, VertexShaderKey};
use matono_client::gfx::text::{str_ends_with, str_equal};

#[test]
fn equal_texts() {
    assert!(str_equal("", ""));
    assert!(str_equal("vs", "vs"));
    assert!(str_equal("grüße ✓", "grüße ✓"));
    assert!(!str_equal("vs", "vS"));
    assert!(!str_equal("vs", "vs "));
    assert!(!str_equal("", "a"));
    assert!(!str_equal("a", ""));
    assert!(!str_equal("ab", "ba"));
    // Same number of bytes, other number of characters.
    assert!(!str_equal("é", "ab"));
    // Same number of characters, other bytes.
    assert!(!str_equal("é", "e"));
}

#[test]
fn ends_of_texts() {
    assert!(str_ends_with("", ""));
    assert!(str_ends_with("abc", ""));
    assert!(str_ends_with("abc", "c"));
    assert!(str_ends_with("abc", "abc"));
    assert!(!str_ends_with("abc", "xabc"));
    assert!(!str_ends_with("abc", "ab"));
    assert!(!str_ends_with("", "a"));
    assert!(str_ends_with("ombre.wgsl", ".wgsl"));
    assert!(str_ends_with("é.wgsl", ".wgsl"));
    assert!(str_ends_with("shader.é", "é"));
    assert!(!str_ends_with("shader.e", "é"));
    assert!(!str_ends_with("shader.wgsl", ".wgsL"));
}

#[test]
fn default_keys_are_invalid() {
    assert_eq!(VertexShaderKey::default(), VertexShaderKey::Invalid);
    assert_eq!(PixelShaderKey::default(), PixelShaderKey::Invalid);
    assert_eq!(ColorRenderTargetKey::default(), ColorRenderTargetKey::Invalid);
    assert_eq!(DepthRenderTargetKey::default(), DepthRenderTargetKey::Invalid);
}

#[test]
fn keys_compare_by_variant_and_number() {
    assert_eq!(ShaderKey::VS(VertexShaderKey::Other(1)), ShaderKey::VS(VertexShaderKey::Other(1)));
    assert_ne!(ShaderKey::VS(VertexShaderKey::Other(1)), ShaderKey::VS(VertexShaderKey::Other(2)));
    assert_ne!(ShaderKey::VS(VertexShaderKey::Invalid), ShaderKey::PS(PixelShaderKey::Invalid));
    assert_ne!(
        RenderTargetKey::Color(ColorRenderTargetKey::Window),
        RenderTargetKey::Depth(DepthRenderTargetKey::Window)
    );
    assert_eq!(
        RenderTargetKey::Color(ColorRenderTargetKey::Other(4)),
        RenderTargetKey::Color(ColorRenderTargetKey::Other(4))
    );
}
