use webshell::bridge::{
    click_intercepts, derive_filename, filename_for_path_str, last_segment_of, shortcut_triggers,
    BridgeGuard,
};

#[test]
fn segment_without_extension_gets_png() {
    assert_eq!(derive_filename("https://site/x/pic"), "pic.png");
}

#[test]
fn segment_with_extension_is_kept() {
    assert_eq!(derive_filename("https://site/x/pic.jpg"), "pic.jpg");
}

#[test]
fn unparseable_url_falls_back() {
    assert_eq!(derive_filename("not a url"), "image.png");
}

#[test]
fn empty_path_falls_back_to_image() {
    assert_eq!(derive_filename("https://site/"), "image.png");
    assert_eq!(filename_for_path_str("/"), "image.png");
    assert_eq!(filename_for_path_str(""), "image.png");
}

#[test]
fn trailing_slash_still_finds_the_segment() {
    assert_eq!(last_segment_of("/a/b/"), "b");
    assert_eq!(last_segment_of("/a/b"), "b");
    assert_eq!(last_segment_of("///"), "");
    assert_eq!(filename_for_path_str("/gallery/shot.webp/"), "shot.webp");
}

#[test]
fn shortcut_needs_n_with_shift_and_a_modifier() {
    assert!(shortcut_triggers('n', true, false, true, false));
    assert!(shortcut_triggers('N', false, true, true, false));
    assert!(!shortcut_triggers('n', true, false, false, false)); // no shift
    assert!(!shortcut_triggers('n', false, false, true, false)); // no ctrl or cmd
    assert!(!shortcut_triggers('x', true, false, true, false)); // wrong key
    assert!(!shortcut_triggers('n', true, false, true, true)); // typing somewhere
}

#[test]
fn clicks_are_taken_only_on_images_with_a_source() {
    assert!(click_intercepts(true, "https://site/x.png"));
    assert!(!click_intercepts(true, ""));
    assert!(!click_intercepts(false, "https://site/x.png"));
}

#[test]
fn bridge_installs_once_per_page() {
    let mut guard = BridgeGuard::new();
    assert!(guard.try_install());
    assert!(!guard.try_install());
    assert!(!guard.try_install());
}
