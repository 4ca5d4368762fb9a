use gfx::shade::{CreateShaderError, ShaderModel, ShaderSource};

fn two_tier_source() -> ShaderSource {
    ShaderSource {
        code20: Some(vec![2, 0]),
        code30: Some(vec![3, 0]),
        code40: None,
        code50: None,
    }
}

#[test]
fn select_exact_tier() {
    let src = two_tier_source();
    let expected = vec![3, 0];
    assert_eq!(src.select(ShaderModel::Model30), Ok(&expected));
}

#[test]
fn select_highest_tier_at_or_below_model() {
    let src = two_tier_source();
    // Tiers 2.0 and 3.0 both qualify under a 5.0 device; the highest wins.
    let expected = vec![3, 0];
    assert_eq!(src.select(ShaderModel::Model50), Ok(&expected));
}

#[test]
fn select_falls_back_to_lowest_tier() {
    let src = two_tier_source();
    let expected = vec![2, 0];
    assert_eq!(src.select(ShaderModel::Model20), Ok(&expected));
}

#[test]
fn select_never_picks_a_tier_above_the_model() {
    let src = ShaderSource {
        code20: None,
        code30: None,
        code40: Some(vec![4, 0]),
        code50: None,
    };
    assert_eq!(
        src.select(ShaderModel::Model30),
        Err(CreateShaderError::ModelNotSupported)
    );
}

#[test]
fn select_on_empty_source_fails() {
    let src = ShaderSource::empty();
    assert_eq!(
        src.select(ShaderModel::Model50),
        Err(CreateShaderError::ModelNotSupported)
    );
}

#[test]
fn select_on_unsupported_model_fails() {
    let src = two_tier_source();
    assert_eq!(
        src.select(ShaderModel::Unsupported),
        Err(CreateShaderError::ModelNotSupported)
    );
}

#[test]
fn select_is_deterministic() {
    let src = two_tier_source();
    assert_eq!(
        src.select(ShaderModel::Model40),
        src.select(ShaderModel::Model40)
    );
}
