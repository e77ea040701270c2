use ui_common::generator::{
    add_glyph, add_tag, generate, phosphor_icons, render, GenerateError, Glyph, IconSet, Manifest,
};
use ui_common::naming::{
    compose_declaration, compose_key, compose_markup, identifier_from_snake, normalize_tag,
    IconWeight,
};
use ui_common::registry::{IconConstant, IconRegistry};
use ui_common::text::{compare_text, first_char, has_only_identifier_chars, Rank};

fn glyph(tags: &[&str]) -> Glyph {
    Glyph { tags: tags.iter().map(|t| t.to_string()).collect() }
}

fn manifest(glyphs: Vec<Glyph>) -> Manifest {
    Manifest { icon_sets: vec![IconSet { icons: glyphs }] }
}

fn keys(registry: &IconRegistry) -> Vec<String> {
    let mut keys = Vec::new();
    for i in 0..registry.len() {
        keys.push(registry.get(i).key.clone());
    }
    keys
}

fn is_identifier(key: &str) -> bool {
    let mut chars = key.chars();
    match chars.next() {
        Some(c) if c.is_ascii_alphabetic() || c == '_' => {}
        _ => return false,
    }
    key.chars().all(|c| c.is_ascii_alphanumeric() || c == '_')
}

#[test]
fn kebab_tag_becomes_upper_snake_identifier() {
    assert_eq!(normalize_tag("heart"), Some(String::from("HEART")));
    assert_eq!(normalize_tag("arrow-left"), Some(String::from("ARROW_LEFT")));
    assert_eq!(normalize_tag("arrow-bend-double-up-left"), Some(String::from("ARROW_BEND_DOUBLE_UP_LEFT")));
    assert_eq!(normalize_tag("already_snake"), Some(String::from("ALREADY_SNAKE")));
    assert_eq!(normalize_tag("a--b"), Some(String::from("A_B")));
}

#[test]
fn identifier_that_starts_with_digit_gets_underscore() {
    assert_eq!(normalize_tag("1-circle"), Some(String::from("_1_CIRCLE")));
    assert_eq!(normalize_tag("4k"), Some(String::from("_4K")));
    assert_eq!(normalize_tag("_private"), Some(String::from("_PRIVATE")));
}

#[test]
fn tag_without_identifier_is_dropped() {
    assert_eq!(normalize_tag("a.b"), None);
    assert_eq!(normalize_tag("two words"), None);
    assert_eq!(normalize_tag("caf\u{e9}"), None);
    assert_eq!(normalize_tag("*new*"), None);
    assert_eq!(normalize_tag(""), None);
    assert_eq!(normalize_tag("-"), None);
    assert_eq!(normalize_tag("---"), None);
}

#[test]
fn snake_text_is_checked_as_it_stands() {
    assert_eq!(identifier_from_snake(String::from("HEART")), Some(String::from("HEART")));
    assert_eq!(identifier_from_snake(String::from("heart")), Some(String::from("heart")));
    assert_eq!(identifier_from_snake(String::from("_")), Some(String::from("_")));
    assert_eq!(identifier_from_snake(String::from("9")), Some(String::from("_9")));
    assert_eq!(identifier_from_snake(String::from("A-B")), None);
    assert_eq!(identifier_from_snake(String::from("A B")), None);
    assert_eq!(identifier_from_snake(String::from("\u{c9}")), None);
    assert_eq!(identifier_from_snake(String::new()), None);
}

#[test]
fn key_of_each_weight() {
    assert_eq!(compose_key("HEART", IconWeight::Regular), "HEART");
    assert_eq!(compose_key("HEART", IconWeight::Thin), "HEART_THIN");
    assert_eq!(compose_key("HEART", IconWeight::Light), "HEART_LIGHT");
    assert_eq!(compose_key("HEART", IconWeight::Bold), "HEART_BOLD");
    assert_eq!(compose_key("HEART", IconWeight::Fill), "HEART_FILL");
    assert_eq!(compose_key("HEART", IconWeight::Duotone), "HEART_DUOTONE");
}

#[test]
fn weight_names_and_classes() {
    let all = IconWeight::all();
    assert_eq!(
        all,
        vec![
            IconWeight::Bold,
            IconWeight::Duotone,
            IconWeight::Fill,
            IconWeight::Light,
            IconWeight::Regular,
            IconWeight::Thin
        ]
    );
    let names: Vec<&str> = all.iter().map(|w| w.name()).collect();
    assert_eq!(names, vec!["BOLD", "DUOTONE", "FILL", "LIGHT", "REGULAR", "THIN"]);
    let classes: Vec<&str> = all.iter().map(|w| w.css_class()).collect();
    assert_eq!(classes, vec!["ph-bold", "ph-duotone", "ph-fill", "ph-light", "ph", "ph-thin"]);
}

#[test]
fn markup_embeds_weight_class_and_tag() {
    assert_eq!(compose_markup(IconWeight::Regular, "heart"), "<i class=\"ph ph-heart\"></i>");
    assert_eq!(
        compose_markup(IconWeight::Bold, "arrow-left"),
        "<i class=\"ph-bold ph-arrow-left\"></i>"
    );
    assert_eq!(
        compose_markup(IconWeight::Duotone, "x"),
        "<i class=\"ph-duotone ph-x\"></i>"
    );
}

#[test]
fn declaration_is_one_line_of_source() {
    assert_eq!(
        compose_declaration("HEART_FILL", IconWeight::Fill, "heart"),
        "    pub const HEART_FILL: Icon = Icon(\"<i class=\\\"ph-fill ph-heart\\\"></i>\");\n"
    );
    let c = IconConstant::new(String::from("X"), IconWeight::Regular, String::from("x"));
    assert_eq!(c.declaration(), "    pub const X: Icon = Icon(\"<i class=\\\"ph ph-x\\\"></i>\");\n");
    assert_eq!(c.markup(), "<i class=\"ph ph-x\"></i>");
}

#[test]
fn text_order_is_the_order_of_strings() {
    let samples = [
        "", "A", "AB", "B", "HEART", "HEARTBEAT", "HEART_BOLD", "HEART_FILL", "_1", "a", "ab",
        "abc", "abd", "b", "z", "\u{e9}", "\u{e9}a", "\u{7ff}", "\u{800}", "\u{ffff}",
        "\u{10000}", "\u{10ffff}", "0", "9", "~",
    ];
    for a in samples {
        for b in samples {
            let expected = if a < b {
                Rank::Before
            } else if a == b {
                Rank::Same
            } else {
                Rank::After
            };
            assert_eq!(compare_text(a, b), expected);
        }
    }
}

#[test]
fn character_checks() {
    assert!(has_only_identifier_chars("AZaz09_"));
    assert!(has_only_identifier_chars(""));
    assert!(!has_only_identifier_chars("A-Z"));
    assert!(!has_only_identifier_chars("@"));
    assert!(!has_only_identifier_chars("["));
    assert!(!has_only_identifier_chars("`"));
    assert!(!has_only_identifier_chars("{"));
    assert!(!has_only_identifier_chars("/"));
    assert!(!has_only_identifier_chars(":"));
    assert!(!has_only_identifier_chars("\u{e9}"));
    assert_eq!(first_char(""), None);
    assert_eq!(first_char("xy"), Some('x'));
    assert_eq!(first_char("\u{e9}y"), Some('\u{e9}'));
}

#[test]
fn registry_keeps_names_in_order() {
    let mut registry = IconRegistry::new();
    assert_eq!(registry.len(), 0);
    for key in ["M", "Z", "A", "Q", "B", "Y", "C"] {
        registry.insert(IconConstant::new(String::from(key), IconWeight::Regular, key.to_lowercase()));
    }
    assert_eq!(keys(&registry), vec!["A", "B", "C", "M", "Q", "Y", "Z"]);
    assert!(registry.contains("Q"));
    assert!(!registry.contains("R"));
    assert!(!registry.contains(""));
    assert_eq!(registry.find("Y").map(|c| c.tag.as_str()), Some("y"));
    assert!(registry.find("y").is_none());
}

#[test]
fn registry_insert_overwrites_same_name() {
    let mut registry = IconRegistry::new();
    registry.insert(IconConstant::new(String::from("A"), IconWeight::Regular, String::from("first")));
    registry.insert(IconConstant::new(String::from("B"), IconWeight::Regular, String::from("other")));
    registry.insert(IconConstant::new(String::from("A"), IconWeight::Bold, String::from("second")));
    assert_eq!(registry.len(), 2);
    let a = registry.find("A").unwrap();
    assert_eq!(a.tag, "second");
    assert_eq!(a.weight, IconWeight::Bold);
    assert_eq!(registry.find("B").unwrap().tag, "other");
}

#[test]
fn accepted_tag_gives_six_keys() {
    let mut registry = IconRegistry::new();
    add_tag(&mut registry, "heart");
    assert_eq!(
        keys(&registry),
        vec!["HEART", "HEART_BOLD", "HEART_DUOTONE", "HEART_FILL", "HEART_LIGHT", "HEART_THIN"]
    );
    add_tag(&mut registry, "not ok");
    assert_eq!(registry.len(), 6);
    add_tag(&mut registry, "heart");
    assert_eq!(registry.len(), 6);
    add_tag(&mut registry, "x");
    assert_eq!(registry.len(), 12);
}

#[test]
fn every_tag_of_a_glyph_is_added() {
    let mut registry = IconRegistry::new();
    add_glyph(&mut registry, &glyph(&["activity", "*updated*", "pulse"]));
    assert_eq!(registry.len(), 12);
    assert!(registry.contains("ACTIVITY_THIN"));
    assert!(registry.contains("PULSE"));
    add_glyph(&mut registry, &glyph(&[]));
    assert_eq!(registry.len(), 12);
}

#[test]
fn generated_keys_are_identifiers() {
    let m = manifest(vec![
        glyph(&["heart", "1-circle", "bad tag", "arrow-left"]),
        glyph(&["_x", "4k", ""]),
    ]);
    let registry = generate(&m).unwrap();
    assert_eq!(registry.len(), 5 * 6);
    for key in keys(&registry) {
        assert!(is_identifier(&key));
    }
    assert!(registry.contains("_1_CIRCLE_DUOTONE"));
    assert!(registry.contains("_4K"));
    assert!(registry.contains("_X_BOLD"));
}

#[test]
fn generated_keys_are_sorted_and_unique() {
    let m = manifest(vec![glyph(&["heartbeat", "heart", "b", "a-b", "a"])]);
    let registry = generate(&m).unwrap();
    let keys = keys(&registry);
    let mut sorted = keys.clone();
    sorted.sort();
    sorted.dedup();
    assert_eq!(keys, sorted);
    assert_eq!(keys.len(), 30);
    let heartbeat = keys.iter().position(|k| k == "HEARTBEAT").unwrap();
    let heart_bold = keys.iter().position(|k| k == "HEART_BOLD").unwrap();
    assert!(heartbeat < heart_bold);
}

#[test]
fn later_tag_wins_a_shared_name() {
    let m = manifest(vec![glyph(&["a-b"]), glyph(&["a_b"])]);
    let registry = generate(&m).unwrap();
    assert_eq!(registry.len(), 6);
    assert_eq!(registry.find("A_B").unwrap().tag, "a_b");
    assert_eq!(registry.find("A_B_FILL").unwrap().markup(), "<i class=\"ph-fill ph-a_b\"></i>");
    let m = manifest(vec![glyph(&["a_b"]), glyph(&["a-b"])]);
    let registry = generate(&m).unwrap();
    assert_eq!(registry.find("A_B").unwrap().tag, "a-b");
}

#[test]
fn only_the_first_icon_set_is_read() {
    let m = Manifest {
        icon_sets: vec![
            IconSet { icons: vec![glyph(&["one"])] },
            IconSet { icons: vec![glyph(&["two"])] },
        ],
    };
    let registry = generate(&m).unwrap();
    assert!(registry.contains("ONE"));
    assert!(!registry.contains("TWO"));
}

#[test]
fn manifest_without_icon_set_is_an_error() {
    let m = Manifest { icon_sets: vec![] };
    assert_eq!(generate(&m).err(), Some(GenerateError::NoIconSet));
    assert_eq!(phosphor_icons(&m), Err(GenerateError::NoIconSet));
}

#[test]
fn empty_icon_set_gives_empty_block() {
    let m = manifest(vec![]);
    assert_eq!(phosphor_icons(&m), Ok(String::from("#[allow(missing_docs)]\nimpl Icon {\n}\n")));
}

#[test]
fn rendered_text_lists_constants_in_order() {
    let m = manifest(vec![glyph(&["x", "heart"])]);
    let expected = "#[allow(missing_docs)]\nimpl Icon {\n\
\x20   pub const HEART: Icon = Icon(\"<i class=\\\"ph ph-heart\\\"></i>\");\n\
\x20   pub const HEART_BOLD: Icon = Icon(\"<i class=\\\"ph-bold ph-heart\\\"></i>\");\n\
\x20   pub const HEART_DUOTONE: Icon = Icon(\"<i class=\\\"ph-duotone ph-heart\\\"></i>\");\n\
\x20   pub const HEART_FILL: Icon = Icon(\"<i class=\\\"ph-fill ph-heart\\\"></i>\");\n\
\x20   pub const HEART_LIGHT: Icon = Icon(\"<i class=\\\"ph-light ph-heart\\\"></i>\");\n\
\x20   pub const HEART_THIN: Icon = Icon(\"<i class=\\\"ph-thin ph-heart\\\"></i>\");\n\
\x20   pub const X: Icon = Icon(\"<i class=\\\"ph ph-x\\\"></i>\");\n\
\x20   pub const X_BOLD: Icon = Icon(\"<i class=\\\"ph-bold ph-x\\\"></i>\");\n\
\x20   pub const X_DUOTONE: Icon = Icon(\"<i class=\\\"ph-duotone ph-x\\\"></i>\");\n\
\x20   pub const X_FILL: Icon = Icon(\"<i class=\\\"ph-fill ph-x\\\"></i>\");\n\
\x20   pub const X_LIGHT: Icon = Icon(\"<i class=\\\"ph-light ph-x\\\"></i>\");\n\
\x20   pub const X_THIN: Icon = Icon(\"<i class=\\\"ph-thin ph-x\\\"></i>\");\n\
}\n";
    assert_eq!(phosphor_icons(&m).unwrap(), expected);
    assert_eq!(render(&generate(&m).unwrap()), expected);
}

#[test]
fn same_manifest_gives_same_text() {
    let tags = ["heart", "arrow-left", "1-circle", "a-b", "a_b", "bad tag", "x"];
    let first = phosphor_icons(&manifest(vec![glyph(&tags)])).unwrap();
    let second = phosphor_icons(&manifest(vec![glyph(&tags)])).unwrap();
    assert_eq!(first, second);
    assert_eq!(first.lines().count(), 2 + 5 * 6 + 1);
}
