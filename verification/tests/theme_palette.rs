use gmon::theme::{Catpuccin, Rgb, Theme};

#[test]
fn palette_colors_are_exact() {
    assert_eq!(Catpuccin::text(), Rgb { r: 205, g: 214, b: 244 });
    assert_eq!(Catpuccin::background(), Rgb { r: 49, g: 50, b: 68 });
    assert_eq!(Catpuccin::red(), Rgb { r: 243, g: 139, b: 168 });
    assert_eq!(Catpuccin::green(), Rgb { r: 166, g: 227, b: 161 });
    assert_eq!(Catpuccin::blue(), Rgb { r: 137, g: 180, b: 250 });
}
