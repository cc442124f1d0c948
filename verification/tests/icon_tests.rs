//! The texture layout of window icons.

use winit_gtk4::icon::{texture_layout, TextureLayout};

#[test]
fn layout_of_small_icon() {
    assert_eq!(texture_layout(16, 32), Some(TextureLayout { width: 16, height: 32, stride: 64 }));
    assert_eq!(texture_layout(0, 0), Some(TextureLayout { width: 0, height: 0, stride: 0 }));
}

#[test]
fn sides_must_fit_in_i32() {
    assert_eq!(texture_layout(1 << 31, 1), None);
    assert_eq!(texture_layout(1, u32::MAX), None);
    assert_eq!(
        texture_layout(i32::MAX as u32, 1),
        Some(TextureLayout { width: i32::MAX, height: 1, stride: (i32::MAX as usize) * 4 })
    );
}
