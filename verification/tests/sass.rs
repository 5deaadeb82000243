use pichu::render_sass;
use pichu::sass::fingerprint;
use pichu::sass::include_dir;
use pichu::SassError;
use std::path::PathBuf;

#[test]
fn the_fingerprint_of_nothing() {
    assert_eq!(fingerprint(""), "af1349b9f5f9a1a6");
}

#[test]
fn the_fingerprint_is_the_start_of_the_hash() {
    for css in ["a b {\n  color: red;\n}\n", "abc", "\u{e9}\u{4e2d}", "x"] {
        let whole = blake3::hash(css.as_bytes()).to_string();
        let expected: String = whole.chars().take(16).collect();
        assert_eq!(fingerprint(css), expected);
    }
}

#[test]
fn the_fingerprint_is_sixteen_hex_digits() {
    for i in 0..200 {
        let mark = fingerprint(&format!("body {{ margin: {}px; }}", i));
        assert_eq!(mark.len(), 16);
        assert!(mark
            .chars()
            .all(|c| c.is_ascii_digit() || ('a'..='f').contains(&c)));
    }
}

#[test]
fn different_css_has_a_different_fingerprint() {
    assert_ne!(fingerprint("a{}"), fingerprint("b{}"));
}

#[test]
fn compiled_css_goes_to_its_destination() {
    let css = grass::from_string(
        "a { b { color: red; } }".to_string(),
        &grass::Options::default(),
    );
    let (write, mark) = render_sass(css, PathBuf::from("dist/style.css")).expect("compiles");
    assert_eq!(write.path, PathBuf::from("dist/style.css"));
    assert_eq!(write.contents, "a b {\n  color: red;\n}\n");
    let expected: String = blake3::hash(write.contents.as_bytes())
        .to_string()
        .chars()
        .take(16)
        .collect();
    assert_eq!(mark, expected);
}

#[test]
fn a_diagnostic_is_handed_on() {
    let refused = grass::from_string("a { color: ".to_string(), &grass::Options::default());
    let expected = match &refused {
        Err(e) => e.to_string(),
        Ok(css) => panic!("unexpected css: {}", css),
    };
    match render_sass(refused, PathBuf::from("dist/style.css")) {
        Err(SassError::SassCompile(e)) => assert_eq!(e.to_string(), expected),
        other => panic!("unexpected: {:?}", other),
    }
}

#[test]
fn style_sheets_beside_the_source_can_be_included() {
    assert_eq!(
        include_dir(&PathBuf::from("styles/main.scss")),
        Some(PathBuf::from("styles"))
    );
    assert_eq!(
        include_dir(&PathBuf::from("main.scss")),
        Some(PathBuf::new())
    );
    assert_eq!(include_dir(&PathBuf::from("/")), None);
}
