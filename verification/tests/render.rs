use toml2json::variant::Variant;
use toml2json::{with_itoa, without_itoa};

#[test]
fn render_with_itoa_prints_seven() {
    assert_eq!(with_itoa::render(), "7");
}

#[test]
fn render_without_itoa_says_missing() {
    assert_eq!(without_itoa::render(), "missing");
}

#[test]
fn variant_picks_its_renderer() {
    assert_eq!(Variant::WithItoa.render(), "7");
    assert_eq!(Variant::WithoutItoa.render(), "missing");
}

#[test]
fn variants_never_render_alike() {
    assert_ne!(Variant::WithItoa.render(), Variant::WithoutItoa.render());
    assert_ne!(Variant::WithItoa, Variant::WithoutItoa);
}

#[test]
fn rendering_is_the_same_every_time() {
    assert_eq!(with_itoa::render(), with_itoa::render());
    assert_eq!(without_itoa::render(), without_itoa::render());
}
