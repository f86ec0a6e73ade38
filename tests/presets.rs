use std::cmp::Ordering;
use themes::color::{hex_to_color, Color, OPAQUE};
use themes::theme::{BaseColors, BrightColors, ColorPalette, NormalColors, Theme};

fn rgb(r: u8, g: u8, b: u8) -> Color {
    Color { r, g, b, a: OPAQUE }
}

fn grey_palette() -> ColorPalette {
    let c = rgb(1, 2, 3);
    ColorPalette {
        base: BaseColors { background: c, foreground: c },
        normal: NormalColors { primary: c, secondary: c, surface: c, error: c },
        bright: BrightColors { primary: c, secondary: c, surface: c, error: c },
    }
}

#[test]
fn parses_repeated_byte() {
    let c = hex_to_color("#111111").unwrap();
    assert_eq!(c, rgb(17, 17, 17));
    assert_eq!(c.a, 255);
    let r = c.r as f32 / 255.0;
    assert!((r - 0.0667).abs() < 1e-4);
    assert_eq!(c.a as f32 / 255.0, 1.0);
}

#[test]
fn parses_each_channel_separately() {
    assert_eq!(hex_to_color("#0a7fF0"), Some(rgb(0x0a, 0x7f, 0xf0)));
    assert_eq!(hex_to_color("#000000"), Some(rgb(0, 0, 0)));
    assert_eq!(hex_to_color("#FFFFFF"), Some(rgb(255, 255, 255)));
    assert_eq!(hex_to_color("#ffffff"), Some(rgb(255, 255, 255)));
    assert_eq!(hex_to_color("#123456"), Some(rgb(0x12, 0x34, 0x56)));
}

#[test]
fn rejects_missing_hash() {
    assert_eq!(hex_to_color("111111"), None);
    assert_eq!(hex_to_color("1111111"), None);
}

#[test]
fn rejects_wrong_length() {
    assert_eq!(hex_to_color("#11111"), None);
    assert_eq!(hex_to_color("#1111111"), None);
    assert_eq!(hex_to_color("#fff"), None);
    assert_eq!(hex_to_color("#11223344"), None);
    assert_eq!(hex_to_color(""), None);
    assert_eq!(hex_to_color("#"), None);
}

#[test]
fn rejects_non_hex_digits() {
    assert_eq!(hex_to_color("#GG1111"), None);
    assert_eq!(hex_to_color("#11GG11"), None);
    assert_eq!(hex_to_color("#1111gg"), None);
    assert_eq!(hex_to_color("#11 111"), None);
    assert_eq!(hex_to_color("#+f+f+f"), None);
    assert_eq!(hex_to_color("#-11111"), None);
}

#[test]
fn rejects_non_ascii_without_panic() {
    assert_eq!(hex_to_color("#1é111"), None);
    assert_eq!(hex_to_color("#éé1111"), None);
}

#[test]
fn dark_preset() {
    let t = Theme::dark();
    assert_eq!(t.name, "Dark");
    let p = t.palette;
    assert_eq!(p.base.background, rgb(0x11, 0x11, 0x11));
    assert_eq!(p.base.foreground, rgb(0x1c, 0x1c, 0x1c));
    assert_eq!(p.normal.primary, rgb(0x3f, 0x2b, 0x56));
    assert_eq!(p.normal.secondary, rgb(0x4a, 0x3c, 0x1c));
    assert_eq!(p.normal.surface, rgb(0x82, 0x82, 0x82));
    assert_eq!(p.normal.error, rgb(0x99, 0x2b, 0x2b));
    assert_eq!(p.bright.primary, rgb(0xba, 0x84, 0xfc));
    assert_eq!(p.bright.secondary, rgb(0xff, 0xd0, 0x3c));
    assert_eq!(p.bright.surface, rgb(0xe0, 0xe0, 0xe0));
    assert_eq!(p.bright.error, rgb(0xc1, 0x30, 0x47));
}

#[test]
fn light_preset() {
    let t = Theme::light();
    assert_eq!(t.name, "Light");
    let p = t.palette;
    assert_eq!(p.base.background, rgb(0xff, 0xff, 0xff));
    assert_eq!(p.base.foreground, rgb(0xf5, 0xf5, 0xf5));
    assert_eq!(p.normal.primary, rgb(0xdf, 0xdb, 0xff));
    assert_eq!(p.normal.secondary, rgb(0xf9, 0xd6, 0x59));
    assert_eq!(p.normal.surface, rgb(0x82, 0x82, 0x82));
    assert_eq!(p.normal.error, rgb(0x99, 0x2b, 0x2b));
    assert_eq!(p.bright.primary, rgb(0x95, 0x80, 0xff));
    assert_eq!(p.bright.secondary, rgb(0xea, 0xa3, 0x26));
    assert_eq!(p.bright.surface, rgb(0x00, 0x00, 0x00));
    assert_eq!(p.bright.error, rgb(0xc1, 0x30, 0x47));
}

#[test]
fn dracula_preset() {
    let t = Theme::dracula();
    assert_eq!(t.name, "Dracula");
    let p = t.palette;
    assert_eq!(p.base.background, rgb(0x28, 0x2a, 0x36));
    assert_eq!(p.base.foreground, rgb(0x35, 0x37, 0x46));
    assert_eq!(p.normal.primary, rgb(0x48, 0x3e, 0x61));
    assert_eq!(p.normal.secondary, rgb(0x38, 0x6e, 0x50));
    assert_eq!(p.normal.surface, rgb(0xa2, 0xa4, 0xa3));
    assert_eq!(p.normal.error, rgb(0xa1, 0x30, 0x34));
    assert_eq!(p.bright.primary, rgb(0xbd, 0x94, 0xf9));
    assert_eq!(p.bright.secondary, rgb(0x49, 0xeb, 0x7a));
    assert_eq!(p.bright.surface, rgb(0xf4, 0xf8, 0xf3));
    assert_eq!(p.bright.error, rgb(0xff, 0x7a, 0xc6));
}

#[test]
fn all_lists_dark_then_light() {
    let all = Theme::all();
    assert_eq!(all.len(), 2);
    assert_eq!(all[0].0, "Dark");
    assert_eq!(all[0].1.name, "Dark");
    assert_eq!(all[0].1.palette, Theme::dark().palette);
    assert_eq!(all[1].0, "Light");
    assert_eq!(all[1].1.name, "Light");
    assert_eq!(all[1].1.palette, Theme::light().palette);
    assert!(all.iter().all(|(name, t)| name != "Dracula" && t.name != "Dracula"));
}

#[test]
fn equality_ignores_palette() {
    let hand_built = Theme { name: "Dark".to_string(), palette: grey_palette() };
    assert!(hand_built == Theme::dark());
    assert!(Theme::dark() == Theme::dark());
    assert!(Theme::dark() != Theme::light());
    let renamed = Theme { name: "dark".to_string(), palette: Theme::dark().palette };
    assert!(renamed != Theme::dark());
}

#[test]
fn order_follows_names() {
    assert!(Theme::dark() < Theme::light());
    assert!(Theme::dark() < Theme::dracula());
    assert!(Theme::dracula() < Theme::light());
    assert_eq!(Theme::light().partial_cmp(&Theme::dark()), Some(Ordering::Greater));
    assert_eq!(Theme::dark().cmp(&Theme::light()), Ordering::Less);
    assert_eq!(Theme::light().cmp(&Theme::dark()), Ordering::Greater);
    let hand_built = Theme { name: "Light".to_string(), palette: grey_palette() };
    assert_eq!(hand_built.cmp(&Theme::light()), Ordering::Equal);
    assert_eq!(hand_built.partial_cmp(&Theme::light()), Some(Ordering::Equal));
}

#[test]
fn order_is_by_code_point() {
    let a = Theme { name: "Zeta".to_string(), palette: grey_palette() };
    let b = Theme { name: "alpha".to_string(), palette: grey_palette() };
    assert_eq!(a.cmp(&b), Ordering::Less);
    let short = Theme { name: "Dar".to_string(), palette: grey_palette() };
    assert_eq!(short.cmp(&Theme::dark()), Ordering::Less);
    assert_eq!(Theme::dark().cmp(&short), Ordering::Greater);
    let accented = Theme { name: "Été".to_string(), palette: grey_palette() };
    let plain = Theme { name: "Ezra".to_string(), palette: grey_palette() };
    assert_eq!(plain.cmp(&accented), "Ezra".cmp("Été"));
    assert_eq!(accented.cmp(&plain), "Été".cmp("Ezra"));
    let empty = Theme { name: String::new(), palette: grey_palette() };
    assert_eq!(empty.cmp(&a), Ordering::Less);
    assert_eq!(empty.cmp(&empty.clone()), Ordering::Equal);
}
