use camera_tethering::text::{comes_before, contains, ends_with, last_part};

#[test]
fn what_a_text_holds() {
    assert!(contains("an io in progress here", "io in progress"));
    assert!(contains("abc", ""));
    assert!(contains("abc", "abc"));
    assert!(!contains("abc", "abcd"));
    assert!(!contains("io in", "io in progress"));
}

#[test]
fn how_a_text_ends() {
    assert!(ends_with("a.jpg", ".jpg"));
    assert!(ends_with(".jpg", ".jpg"));
    assert!(ends_with("a", ""));
    assert!(!ends_with("jpg", ".jpg"));
    assert!(!ends_with("a.jpg.raw", ".jpg"));
}

#[test]
fn what_follows_the_last_separator() {
    assert_eq!(last_part("main.settings.iso", '.'), "iso");
    assert_eq!(last_part("iso", '.'), "iso");
    assert_eq!(last_part("main.", '.'), "");
    assert_eq!(last_part("", '.'), "");
    assert_eq!(last_part("a.\u{e9}\u{df}", '.'), "\u{e9}\u{df}");
}

#[test]
fn the_order_of_texts_is_that_of_std() {
    let texts = ["", "a", "ab", "b", "B", "\u{e9}", "\u{1f4f7}", "a.b", "a-b"];
    for one in texts {
        for other in texts {
            assert_eq!(comes_before(one, other), one < other);
        }
    }
}
