use lazygitrs::os::platform::{Os, Platform};

#[test]
fn open_file_per_system() {
    let mac = Platform::open_file(Os::MacOs, "a b.txt");
    assert_eq!(mac.program, "open");
    assert_eq!(mac.args, vec!["a b.txt"]);
    let win = Platform::open_file(Os::Windows, "x.txt");
    assert_eq!(win.program, "cmd");
    assert_eq!(win.args, vec!["/c", "start", "", "x.txt"]);
    let other = Platform::open_file(Os::Other, "x.txt");
    assert_eq!(other.program, "xdg-open");
    assert!(other.stdin.is_none());
}

#[test]
fn clipboard_per_system() {
    let linux = Platform::copy_to_clipboard(Os::Other, "hash");
    assert_eq!(linux.program, "xclip");
    assert_eq!(linux.args, vec!["-selection", "clipboard"]);
    assert_eq!(linux.stdin.as_deref(), Some("hash"));
    let mac = Platform::copy_to_clipboard(Os::MacOs, "hash");
    assert_eq!(mac.program, "pbcopy");
    assert!(mac.args.is_empty());
    assert_eq!(Platform::copy_to_clipboard(Os::Windows, "t").program, "clip");
}
