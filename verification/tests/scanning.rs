use neocolor::hex::Rgb;
use neocolor::marks::{FileKind, Mark, Paint};
use neocolor::patterns::Patterns;
use neocolor::resolve::{
    collect_definitions, definition_from_groups, definition_value_of, resolve_color, resolve_from_captures,
};
use neocolor::scan::{marks_from_captures, scan_buffer, LineCaptures};
use neocolor::steps::{Halt, Scan, Step};
use neocolor::units::{Component, Hue, HueUnit};
use neocolor::vars::CssVars;

fn rgb(r: u8, g: u8, b: u8) -> Rgb {
    Rgb { r, g, b }
}

fn solid(row: usize, start: usize, end: usize, c: Rgb) -> Mark {
    Mark { row, start, end, paint: Paint::Solid(c) }
}

fn scan(lines: &[&str], ft: &str, vars: &CssVars) -> Scan<Mark> {
    let patterns = Patterns::new().expect("patterns compile");
    let lines: Vec<String> = lines.iter().map(|l| l.to_string()).collect();
    scan_buffer(&patterns, &lines, ft, vars)
}

#[test]
fn long_hex_codes_in_any_file() {
    let s = scan(&["let c = \"#ff8800\"; // #12345678"], "lua", &CssVars::new());
    assert_eq!(s.halt, None);
    assert_eq!(s.found, vec![solid(0, 9, 16, rgb(255, 136, 0)), solid(0, 22, 31, rgb(0x12, 0x34, 0x56))]);
}

#[test]
fn short_hex_codes_only_in_css_files() {
    let vars = CssVars::new();
    let plain = scan(&["#fff #abcd"], "markdown", &vars);
    assert_eq!(plain.found, vec![]);
    let css = scan(&["#fff #abcd"], "css", &vars);
    assert_eq!(css.found, vec![solid(0, 0, 4, rgb(255, 255, 255)), solid(0, 5, 10, rgb(0xaa, 0xbb, 0xcc))]);
}

#[test]
fn five_digit_code_is_not_a_colour() {
    let s = scan(&["#12345"], "css", &CssVars::new());
    assert_eq!(s.found, vec![]);
}

#[test]
fn rows_are_line_numbers() {
    let s = scan(&["nothing", "#000000", "", "#ffffff"], "text", &CssVars::new());
    assert_eq!(s.found, vec![solid(1, 0, 7, rgb(0, 0, 0)), solid(3, 0, 7, rgb(255, 255, 255))]);
}

#[test]
fn css_functions_in_css_files() {
    let s = scan(&["a { color: rgb(10, 20%, 30); b: hsl(120deg 50% 25%) }"], "scss", &CssVars::new());
    assert_eq!(s.halt, None);
    assert_eq!(
        s.found,
        vec![
            Mark {
                row: 0,
                start: 11,
                end: 27,
                paint: Paint::CssRgb(
                    Component { percent: false, start: 15, end: 17 },
                    Component { percent: true, start: 19, end: 21 },
                    Component { percent: false, start: 24, end: 26 },
                ),
            },
            Mark {
                row: 0,
                start: 32,
                end: 51,
                paint: Paint::CssHsl(
                    Hue { unit: HueUnit::Degrees, start: 36, end: 39 },
                    Component { percent: true, start: 43, end: 45 },
                    Component { percent: true, start: 47, end: 49 },
                ),
            },
        ]
    );
}

#[test]
fn css_functions_ignored_elsewhere() {
    let s = scan(&["rgb(10, 20, 30) hsl(1, 2, 3) red"], "python", &CssVars::new());
    assert_eq!(s.found, vec![]);
}

#[test]
fn keywords_in_any_case_in_css_files() {
    let s = scan(&["color: Red; border: navy solid"], "css", &CssVars::new());
    assert_eq!(
        s.found,
        vec![solid(0, 7, 10, rgb(255, 0, 0)), solid(0, 20, 24, rgb(0, 0, 128))]
    );
}

#[test]
fn custom_properties_are_looked_up() {
    let mut vars = CssVars::new();
    vars.insert("--brand".to_string(), rgb(1, 2, 3));
    let s = scan(&["color: var(--brand); x: var(--unknown)"], "css", &vars);
    assert_eq!(s.found, vec![solid(0, 7, 19, rgb(1, 2, 3))]);
}

#[test]
fn rust_notations_in_rust_files() {
    let s = scan(
        &["rgb(0x3c3c3c) rgba(0x11223380) hsla(0.2, 0.8, 0.6, 1.0)"],
        "rust",
        &CssVars::new(),
    );
    assert_eq!(s.halt, None);
    assert_eq!(
        s.found,
        vec![
            solid(0, 0, 13, rgb(0x3c, 0x3c, 0x3c)),
            solid(0, 14, 30, rgb(0x11, 0x22, 0x33)),
            Mark { row: 0, start: 31, end: 55, paint: Paint::RustHsla((36, 39), (41, 44), (46, 49)) },
        ]
    );
}

#[test]
fn rust_notations_ignored_elsewhere() {
    let s = scan(&["rgb(0x3c3c3c)"], "c", &CssVars::new());
    assert_eq!(s.found, vec![]);
}

#[test]
fn marks_slice_their_lines() {
    let lines = ["é #abcdef ü rgb(1 2 3) hsl(3turn, 1%, 2%) black"];
    let s = scan(&lines, "css", &CssVars::new());
    assert!(!s.found.is_empty());
    for m in &s.found {
        let line = lines[m.row];
        let _ = &line[m.start..m.end];
    }
}

fn whole(start: usize, end: usize) -> Vec<Option<(usize, usize)>> {
    vec![Some((start, end))]
}

#[test]
fn given_captures_are_read_in_notation_order() {
    let caps = LineCaptures {
        hex_mark: vec![whole(0, 7)],
        css_rgb: vec![],
        css_hsl: vec![],
        css_var: vec![],
        color_word: vec![vec![Some((8, 11)), Some((8, 11))]],
        rust_rgb: vec![],
        rust_rgba: vec![],
        rust_hsla: vec![],
    };
    let vars = CssVars::new();
    let css = FileKind { css: true, rust: false };
    let s = marks_from_captures("#00ff00 red", 4, css, &vars, &caps);
    assert_eq!(s.found, vec![solid(4, 0, 7, rgb(0, 255, 0)), solid(4, 8, 11, rgb(255, 0, 0))]);
    let plain = FileKind { css: false, rust: false };
    let s = marks_from_captures("#00ff00 red", 4, plain, &vars, &caps);
    assert_eq!(s.found, vec![solid(4, 0, 7, rgb(0, 255, 0))]);
}

#[test]
fn misplaced_captures_stop_the_scan() {
    let caps = LineCaptures {
        hex_mark: vec![whole(0, 4), whole(1, 99), whole(5, 9)],
        css_rgb: vec![],
        css_hsl: vec![],
        css_var: vec![],
        color_word: vec![],
        rust_rgb: vec![],
        rust_rgba: vec![],
        rust_hsla: vec![],
    };
    let s = marks_from_captures("#fff #000", 0, FileKind { css: true, rust: false }, &CssVars::new(), &caps);
    assert_eq!(s.found, vec![solid(0, 0, 4, rgb(255, 255, 255))]);
    assert_eq!(s.halt, Some(Halt::MisplacedGroup));
}

#[test]
fn unreadable_match_stops_the_scan() {
    // A hex match whose digits cut a character: the scan stops there.
    let line = "#a\u{e9}0000 #ffffff";
    let caps = LineCaptures {
        hex_mark: vec![whole(0, 8), whole(9, 16)],
        css_rgb: vec![],
        css_hsl: vec![],
        css_var: vec![],
        color_word: vec![],
        rust_rgb: vec![],
        rust_rgba: vec![],
        rust_hsla: vec![],
    };
    let s = marks_from_captures(line, 0, FileKind { css: false, rust: false }, &CssVars::new(), &caps);
    assert_eq!(s.found, vec![]);
    assert_eq!(s.halt, Some(Halt::Panicked));
}

#[test]
fn steps_after_a_stop_change_nothing() {
    let mut s: Scan<u8> = Scan::new();
    s.take_step(Step::Emit(1));
    s.take_step(Step::Skip);
    s.take_step(Step::Stop(Halt::Panicked));
    s.take_step(Step::Emit(2));
    assert_eq!(s.found, vec![1]);
    assert_eq!(s.halt, Some(Halt::Panicked));
}

#[test]
fn property_values_resolve() {
    let patterns = Patterns::new().unwrap();
    assert_eq!(resolve_color(&patterns, "#abc"), Ok(Some(Paint::Solid(rgb(0xaa, 0xbb, 0xcc)))));
    assert_eq!(resolve_color(&patterns, "#12345"), Ok(None));
    assert_eq!(resolve_color(&patterns, "Blue"), Ok(Some(Paint::Solid(rgb(0, 0, 255)))));
    assert_eq!(resolve_color(&patterns, "10px"), Ok(None));
    assert_eq!(
        resolve_color(&patterns, "rgb(0, 128, 255)"),
        Ok(Some(Paint::CssRgb(
            Component { percent: false, start: 4, end: 5 },
            Component { percent: false, start: 7, end: 10 },
            Component { percent: false, start: 12, end: 15 },
        )))
    );
    assert_eq!(
        resolve_color(&patterns, "hsl(0.5turn, 100%, 50%)"),
        Ok(Some(Paint::CssHsl(
            Hue { unit: HueUnit::Turns, start: 4, end: 7 },
            Component { percent: true, start: 13, end: 16 },
            Component { percent: true, start: 19, end: 21 },
        )))
    );
}

#[test]
fn style_sheet_definitions() {
    let patterns = Patterns::new().unwrap();
    let sheet = ":root {\n  --main: #ff0000;\n  --gap: 10px;\n  --accent:  rgb(0, 128, 255) ;\n  --fg: white;\n}";
    let s = collect_definitions(&patterns, sheet);
    assert_eq!(s.halt, None);
    let got: Vec<(String, String)> = s.found.iter().map(|d| (d.name.clone(), d.value.clone())).collect();
    assert_eq!(
        got,
        vec![
            ("--main".to_string(), "#ff0000".to_string()),
            ("--accent".to_string(), "rgb(0, 128, 255)".to_string()),
            ("--fg".to_string(), "white".to_string()),
        ]
    );
    assert_eq!(s.found[0].paint, Paint::Solid(rgb(255, 0, 0)));
    assert_eq!(s.found[2].paint, Paint::Solid(rgb(255, 255, 255)));
}

#[test]
fn definition_values_are_trimmed_of_unicode_white_space() {
    let patterns = Patterns::new().unwrap();
    let s = collect_definitions(&patterns, "--x:\u{a0}red\u{a0};");
    assert_eq!(s.halt, None);
    assert_eq!(s.found.len(), 1);
    assert_eq!(s.found[0].name, "--x");
    assert_eq!(s.found[0].value, "red");
    assert_eq!(s.found[0].paint, Paint::Solid(rgb(255, 0, 0)));
}

#[test]
fn definition_from_given_groups() {
    let content = "--main: #00f ;";
    let g = vec![Some((0, 14)), Some((0, 6)), Some((8, 13))];
    assert_eq!(definition_value_of(content, &g), Some("#00f"));
    let blue = Paint::Solid(rgb(0, 0, 255));
    match definition_from_groups(content, &g, Ok(Some(blue))) {
        Step::Emit(d) => {
            assert_eq!(d.name, "--main");
            assert_eq!(d.value, "#00f");
            assert_eq!(d.paint, blue);
        }
        other => panic!("unexpected step {:?}", other),
    }
    assert_eq!(definition_from_groups(content, &g, Ok(None)), Step::Skip);
    assert_eq!(
        definition_from_groups(content, &g, Err(Halt::Panicked)),
        Step::Stop(Halt::Panicked)
    );
    let missing_name = vec![Some((0, 14)), None, Some((8, 13))];
    assert_eq!(
        definition_from_groups(content, &missing_name, Ok(Some(blue))),
        Step::Stop(Halt::Panicked)
    );
    let misplaced = vec![Some((0, 40))];
    assert_eq!(definition_value_of(content, &misplaced), None);
    assert_eq!(
        definition_from_groups(content, &misplaced, Ok(None)),
        Step::Stop(Halt::MisplacedGroup)
    );
}

#[test]
fn property_value_from_given_captures() {
    let none: Vec<Vec<Option<(usize, usize)>>> = vec![];
    // A hex match decides even when its digits denote nothing.
    let hex = vec![vec![Some((0, 6)), Some((1, 6))]];
    let rgb_caps = vec![vec![Some((0, 1)), Some((0, 1)), Some((0, 1)), Some((0, 1))]];
    assert_eq!(resolve_from_captures("#1234x", &hex, &rgb_caps, &none), Ok(None));
    // A hex match without its digits group cannot be read.
    let bare = vec![vec![Some((0, 6))]];
    assert_eq!(resolve_from_captures("#1234x", &bare, &none, &none), Err(Halt::Panicked));
    // No notation: the value is a keyword, in any case.
    assert_eq!(resolve_from_captures("TEAL", &none, &none, &none), Ok(Some(Paint::Solid(rgb(0, 128, 128)))));
}

#[test]
fn keywords_lowercased_by_unicode_rules() {
    let none: Vec<Vec<Option<(usize, usize)>>> = vec![];
    // The Kelvin sign lower-cases to an ASCII `k`.
    assert_eq!(
        resolve_from_captures("\u{212A}haki", &none, &none, &none),
        Ok(Some(Paint::Solid(rgb(240, 230, 140))))
    );
    assert_eq!(resolve_from_captures("Ré", &none, &none, &none), Ok(None));
}
