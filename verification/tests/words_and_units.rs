use neocolor::hex::Rgb;
use neocolor::marks::{filetype_kind, FileKind};
use neocolor::named::named_color_lookup;
use neocolor::units::{component_at, hue_at, Component, Hue, HueUnit};
use neocolor::vars::CssVars;

#[test]
fn colour_keywords() {
    assert_eq!(named_color_lookup("rebeccapurple"), Some(Rgb { r: 102, g: 51, b: 153 }));
    assert_eq!(named_color_lookup("aliceblue"), Some(Rgb { r: 240, g: 248, b: 255 }));
    assert_eq!(named_color_lookup("yellowgreen"), Some(Rgb { r: 154, g: 205, b: 50 }));
    assert_eq!(named_color_lookup("grey"), named_color_lookup("gray"));
    assert_eq!(named_color_lookup("Red"), None);
    assert_eq!(named_color_lookup("notacolor"), None);
}

#[test]
fn channel_units() {
    let line = "50% 12.5%% 7";
    assert_eq!(component_at(line, 0, 3), Component { percent: true, start: 0, end: 2 });
    assert_eq!(component_at(line, 4, 10), Component { percent: true, start: 4, end: 8 });
    assert_eq!(component_at(line, 11, 12), Component { percent: false, start: 11, end: 12 });
}

#[test]
fn hue_units() {
    let line = "120deg 1.5rad 200grad 0.25turn 90 1degdeg";
    assert_eq!(hue_at(line, 0, 6), Hue { unit: HueUnit::Degrees, start: 0, end: 3 });
    assert_eq!(hue_at(line, 7, 13), Hue { unit: HueUnit::Radians, start: 7, end: 10 });
    assert_eq!(hue_at(line, 14, 21), Hue { unit: HueUnit::Gradians, start: 14, end: 17 });
    assert_eq!(hue_at(line, 22, 30), Hue { unit: HueUnit::Turns, start: 22, end: 26 });
    assert_eq!(hue_at(line, 31, 33), Hue { unit: HueUnit::Unitless, start: 31, end: 33 });
    assert_eq!(hue_at(line, 34, 41), Hue { unit: HueUnit::Degrees, start: 34, end: 35 });
}

#[test]
fn file_kinds() {
    assert_eq!(filetype_kind("css"), FileKind { css: true, rust: false });
    assert_eq!(filetype_kind("typescriptreact"), FileKind { css: true, rust: false });
    assert_eq!(filetype_kind("rust"), FileKind { css: false, rust: true });
    assert_eq!(filetype_kind("rustdoc"), FileKind { css: false, rust: true });
    assert_eq!(filetype_kind("lua"), FileKind { css: false, rust: false });
    assert_eq!(filetype_kind("rus"), FileKind { css: false, rust: false });
    assert_eq!(filetype_kind("CSS"), FileKind { css: false, rust: false });
}

#[test]
fn custom_properties_read_back_what_was_set() {
    let mut vars = CssVars::new();
    assert_eq!(vars.get("--main"), None);
    vars.insert("--main".to_string(), Rgb { r: 1, g: 2, b: 3 });
    vars.insert("--accent".to_string(), Rgb { r: 4, g: 5, b: 6 });
    assert_eq!(vars.get("--main"), Some(Rgb { r: 1, g: 2, b: 3 }));
    vars.insert("--main".to_string(), Rgb { r: 7, g: 8, b: 9 });
    assert_eq!(vars.get("--main"), Some(Rgb { r: 7, g: 8, b: 9 }));
    assert_eq!(vars.get("--accent"), Some(Rgb { r: 4, g: 5, b: 6 }));
    assert_eq!(vars.get("--other"), None);
}

#[test]
fn last_definition_wins() {
    let defs = vec![
        ("--a".to_string(), Rgb { r: 1, g: 1, b: 1 }),
        ("--b".to_string(), Rgb { r: 2, g: 2, b: 2 }),
        ("--a".to_string(), Rgb { r: 3, g: 3, b: 3 }),
    ];
    let vars = CssVars::from_definitions(&defs);
    assert_eq!(vars.get("--a"), Some(Rgb { r: 3, g: 3, b: 3 }));
    assert_eq!(vars.get("--b"), Some(Rgb { r: 2, g: 2, b: 2 }));
    assert_eq!(vars.get("--c"), None);
}
