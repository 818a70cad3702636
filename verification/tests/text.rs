use lazygitrs::order::{sort_by_key, str_less};
use lazygitrs::paths::{basename_of, extension_of};
use lazygitrs::text::{decimal_of, lines_of, parse_i64_of, parse_usize_of, short7_of, to_chars};

fn chars(s: &str) -> Vec<char> {
    s.chars().collect()
}

#[test]
fn decimal_reads_back() {
    for n in [0usize, 7, 10, 99, 123456789] {
        let d = decimal_of(n);
        assert_eq!(d.iter().collect::<String>(), n.to_string());
        assert_eq!(parse_usize_of(&d), Some(n));
        assert_eq!(parse_i64_of(&d), Some(n as i64));
    }
    assert_eq!(parse_i64_of(&chars("-12")), Some(-12));
    assert_eq!(parse_usize_of(&chars("+5")), Some(5));
    assert_eq!(parse_usize_of(&chars("1x")), None);
}

#[test]
fn lines_split_like_str_lines() {
    let ls = lines_of(&chars("a\r\nb\n\nc\r"));
    let ls: Vec<String> = ls.iter().map(|l| l.iter().collect()).collect();
    assert_eq!(ls, vec!["a", "b", "", "c\r"]);
    assert!(lines_of(&chars("")).is_empty());
    assert!(ls.iter().all(|l| !l.contains('\n')));
}

#[test]
fn order_and_sort() {
    assert!(str_less(&chars("C#"), &chars("C++")));
    assert!(str_less(&chars("ab"), &chars("abc")));
    assert!(!str_less(&chars("b"), &chars("a")));
    let v = vec![
        ("b".to_string(), 0usize),
        ("a".to_string(), 1),
        ("b".to_string(), 2),
        ("○ x".to_string(), 3),
        ("! y".to_string(), 4),
    ];
    let sorted: Vec<usize> = sort_by_key(&v).into_iter().map(|p| p.1).collect();
    assert_eq!(sorted, vec![4, 1, 0, 2, 3]);
}

#[test]
fn path_parts() {
    let s = |v: Vec<char>| v.into_iter().collect::<String>();
    assert_eq!(s(basename_of(&chars("a/b/c.rs"))), "c.rs");
    assert_eq!(s(basename_of(&chars("c.rs"))), "c.rs");
    assert_eq!(s(basename_of(&chars("dir/"))), "");
    assert_eq!(extension_of(&chars("c.tar.gz")).map(s), Some("gz".to_string()));
    assert_eq!(extension_of(&chars(".bashrc")), None);
    assert_eq!(extension_of(&chars("..")), None);
    assert_eq!(extension_of(&chars("noext")), None);
    assert_eq!(extension_of(&chars("trailing.")).map(s), Some(String::new()));
}

#[test]
fn short_hashes() {
    assert_eq!(short7_of(&to_chars("0123456789")).iter().collect::<String>(), "0123456");
    assert_eq!(short7_of(&to_chars("abc")).iter().collect::<String>(), "abc");
}
