use pixelflux::text::{
    characters, is_white_space, labelled, push_decimal, push_signed, same_text, text_of, trim,
};
use pixelflux::wayland::token::{saved_restore_token, token_path};

#[test]
fn numbers_in_decimal() {
    for n in [0, 9, 10, 99, 100, 4_294_967_296, u64::MAX] {
        let mut out = "n".to_string();
        push_decimal(&mut out, n);
        assert_eq!(out, format!("n{n}"));
    }
    for n in [0, -1, 7, i32::MAX, i32::MIN] {
        let mut out = String::new();
        push_signed(&mut out, n);
        assert_eq!(out, n.to_string());
    }
}

#[test]
fn white_space_is_that_of_the_characters() {
    for c in '\0'..=char::MAX {
        assert_eq!(is_white_space(c), c.is_whitespace());
    }
}

#[test]
fn trimming_takes_white_space_off_both_ends() {
    for s in ["", " ", "a", " a b\n", "\t\u{3000}x\u{85}", "ab", "\u{a0}\u{e9} "] {
        assert_eq!(trim(s), s.trim());
    }
}

#[test]
fn texts_are_taken_apart_and_put_together() {
    let chars = characters("a\u{e9}c");
    assert_eq!(chars, vec!['a', '\u{e9}', 'c']);
    assert_eq!(text_of(&chars, 1, 3), "\u{e9}c");
    assert_eq!(text_of(&chars, 2, 2), "");
    assert!(same_text("ab", "ab"));
    assert!(!same_text("ab", "abc"));
    assert_eq!(labelled("what", "why"), "what: why");
}

fn path(xdg: Option<&str>, home: Option<&str>) -> Option<String> {
    token_path(xdg.map(str::as_bytes), home.map(str::as_bytes)).map(|p| String::from_utf8(p).unwrap())
}

#[test]
fn the_token_lives_in_the_state_directory() {
    let file = |s: &str| Some(s.to_string());
    assert_eq!(path(Some("/x"), Some("/home/u")), file("/x/pixelflux/portal-restore-token"));
    assert_eq!(path(Some("/x/"), None), file("/x/pixelflux/portal-restore-token"));
    assert_eq!(path(None, Some("/home/u")), file("/home/u/.local/state/pixelflux/portal-restore-token"));
    assert_eq!(path(Some(""), Some("/home/u/")), file("/home/u/.local/state/pixelflux/portal-restore-token"));
    assert_eq!(path(None, Some("")), file(".local/state/pixelflux/portal-restore-token"));
    assert_eq!(path(Some(""), None), None);
    assert_eq!(path(None, None), None);
}

#[test]
fn the_token_path_is_that_of_joined_paths() {
    for base in ["/x", "/x/", "x", "/", "a//"] {
        let joined = std::path::Path::new(base).join("pixelflux/portal-restore-token");
        assert_eq!(path(Some(base), None).unwrap(), joined.to_str().unwrap());
    }
}

#[test]
fn a_saved_token_is_read_back() {
    assert_eq!(saved_restore_token(Some("abc")), Some("abc".to_string()));
    assert_eq!(saved_restore_token(Some(" a b\n")), Some("a b".to_string()));
    let once = saved_restore_token(Some("\n tok \n")).unwrap();
    assert_eq!(saved_restore_token(Some(&once)), Some(once.clone()));
    assert_eq!(saved_restore_token(Some(" \n")), None);
    assert_eq!(saved_restore_token(Some("")), None);
    assert_eq!(saved_restore_token(None), None);
}
