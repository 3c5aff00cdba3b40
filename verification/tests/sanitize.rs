use clipper::sanitize::{is_reserved, needs_sanitizing, sanitize};

const RESERVED: [char; 9] = ['<', '>', ':', '"', '/', '\\', '|', '?', '*'];

fn printable_ascii() -> String {
    (0x20u8..0x7f).map(|b| b as char).collect()
}

#[test]
fn each_reserved_character_becomes_a_hyphen() {
    for c in RESERVED {
        assert!(is_reserved(c));
        assert_eq!(sanitize(&c.to_string()), "-");
    }
}

#[test]
fn printable_ascii_loses_exactly_the_reserved_characters() {
    let all = printable_ascii();
    let clean = sanitize(&all);
    assert_eq!(clean.chars().count(), all.chars().count());
    for (before, after) in all.chars().zip(clean.chars()) {
        if RESERVED.contains(&before) {
            assert_eq!(after, '-');
        } else {
            assert_eq!(after, before);
            assert!(!is_reserved(before));
        }
    }
    assert!(clean.chars().all(|c| !RESERVED.contains(&c)));
}

#[test]
fn sanitize_is_idempotent() {
    for name in ["", "Ex:1.mp4", "a<b>c", r#"he said "no"?"#, r"C:\clips\x*y|z.mov", "plain.mp4"] {
        let once = sanitize(name);
        assert_eq!(sanitize(&once), once);
    }
    let all = printable_ascii();
    assert_eq!(sanitize(&sanitize(&all)), sanitize(&all));
}

#[test]
fn clean_names_come_back_unchanged() {
    for name in ["", "Ex1.mp4", "Ex. 192 A.mp4", "a-b_c (2).mov", "naïve ✓.mkv"] {
        assert!(!needs_sanitizing(name));
        assert_eq!(sanitize(name), name);
    }
}

#[test]
fn colon_in_a_label_is_replaced() {
    assert!(needs_sanitizing("Ex:1.mp4"));
    assert_eq!(sanitize("Ex:1.mp4"), "Ex-1.mp4");
}

#[test]
fn backslash_is_reserved() {
    assert!(needs_sanitizing(r"a\b"));
    assert_eq!(sanitize(r"a\b"), "a-b");
}

#[test]
fn every_reserved_character_in_one_name() {
    assert_eq!(sanitize(r#"<>:"/\|?*"#), "---------");
    assert_eq!(sanitize(r#"a<b>c:d"e/f\g|h?i*j"#), "a-b-c-d-e-f-g-h-i-j");
}

#[test]
fn order_and_other_characters_are_kept() {
    assert_eq!(sanitize("é:ü?✓"), "é-ü-✓");
    assert_eq!(sanitize("a.b,c;d'e"), "a.b,c;d'e");
}

#[test]
fn agrees_with_the_character_class_as_a_pattern() {
    let class = regex::Regex::new(r#"[<>:"/\\|?*]"#).unwrap();
    let mut names: Vec<String> = vec![
        String::new(),
        "Ex. 192 A.mp4".to_string(),
        r#"<>:"/\|?*"#.to_string(),
        r"C:\clips\day 1\*.mov".to_string(),
        "who? what? -- where: here|there".to_string(),
        "naïve ✓ <日本語>.mkv".to_string(),
        printable_ascii(),
    ];
    for a in 0x20u8..0x7f {
        for b in [b'a', b'/', b'\\', b'-', b'*'] {
            names.push(format!("{}x{}{}", a as char, b as char, a as char));
        }
    }
    for name in &names {
        assert_eq!(sanitize(name), class.replace_all(name, "-"));
        assert_eq!(needs_sanitizing(name), class.is_match(name));
    }
}
