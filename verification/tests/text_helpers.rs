use workplan_core::text::{characters, decimal, followed_by, same_text};

#[test]
fn characters_are_decoded_in_order() {
    assert_eq!(characters(""), Vec::<char>::new());
    assert_eq!(characters("v1.2"), vec!['v', '1', '.', '2']);
    assert_eq!(characters("目录/é"), vec!['目', '录', '/', 'é']);
    assert_eq!(characters("a\u{10FFFF}b").len(), 3);
}

#[test]
fn texts_are_put_together() {
    assert_eq!(followed_by("", ""), "");
    assert_eq!(followed_by("Exec=", "/opt/app"), "Exec=/opt/app");
    assert_eq!(followed_by("无法打开注册表: ", "denied"), "无法打开注册表: denied");
    assert_eq!(followed_by("a", ""), "a");
    assert_eq!(followed_by("", "b"), "b");
}

#[test]
fn texts_are_compared_by_their_characters() {
    assert!(same_text("", ""));
    assert!(same_text("main", "main"));
    assert!(same_text("目录", "目录"));
    assert!(!same_text("main", "Main"));
    assert!(!same_text("main", "main "));
    assert!(!same_text("main", "mai"));
    assert!(!same_text("", "x"));
    assert!(!same_text("e\u{301}", "\u{e9}"));
}

#[test]
fn numbers_are_written_in_decimal() {
    assert_eq!(decimal(0), "0");
    assert_eq!(decimal(7), "7");
    assert_eq!(decimal(10), "10");
    assert_eq!(decimal(404), "404");
    assert_eq!(decimal(1000), "1000");
    assert_eq!(decimal(65535), "65535");
    for number in [0u16, 1, 9, 10, 99, 100, 199, 200, 299, 300, 503, 9999, 10000, 65534] {
        assert_eq!(decimal(number), number.to_string());
    }
}
