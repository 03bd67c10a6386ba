use learn_wgpu::{choose_surface_format, preferred_format_index};
use wgpu::TextureFormat;

#[test]
fn first_srgb_index_wins() {
    assert_eq!(preferred_format_index(&vec![false, true, true]), 1);
    assert_eq!(preferred_format_index(&vec![true, false]), 0);
}

#[test]
fn no_srgb_falls_back_to_first() {
    assert_eq!(preferred_format_index(&vec![false, false]), 0);
    assert_eq!(preferred_format_index(&vec![]), 0);
}

#[test]
fn srgb_surface_format_is_preferred() {
    let formats = vec![TextureFormat::Bgra8Unorm, TextureFormat::Rgba8Unorm, TextureFormat::Bgra8UnormSrgb];
    assert_eq!(choose_surface_format(&formats), TextureFormat::Bgra8UnormSrgb);
}

#[test]
fn linear_surface_format_when_no_srgb() {
    let formats = vec![TextureFormat::Rgba16Float, TextureFormat::Bgra8Unorm];
    assert_eq!(choose_surface_format(&formats), TextureFormat::Rgba16Float);
}
