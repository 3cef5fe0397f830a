use gitserve::request_path::{
    hex_digit_value, holds_separator, is_dot, is_dot_dot, percent_decode, resolve_path,
    split_path, PathError,
};

fn names(list: &[&str]) -> Vec<Vec<u8>> {
    list.iter().map(|n| n.as_bytes().to_vec()).collect()
}

#[test]
fn plain_path_resolves_to_its_names() {
    assert_eq!(resolve_path(b"/x.git/info/refs"), Ok(names(&["x.git", "info", "refs"])));
    assert_eq!(resolve_path(b"/x.git/objects/pack/a.pack"), Ok(names(&["x.git", "objects", "pack", "a.pack"])));
}

#[test]
fn root_resolves_to_no_name() {
    assert_eq!(resolve_path(b"/"), Ok(Vec::new()));
    assert_eq!(resolve_path(b"//"), Ok(Vec::new()));
    assert_eq!(resolve_path(b"/."), Ok(Vec::new()));
    assert_eq!(resolve_path(b"/./"), Ok(Vec::new()));
}

#[test]
fn empty_and_dot_segments_are_skipped() {
    assert_eq!(resolve_path(b"/a/./b//c/"), Ok(names(&["a", "b", "c"])));
    assert_eq!(resolve_path(b"///a"), Ok(names(&["a"])));
}

#[test]
fn dot_dot_goes_one_level_up() {
    assert_eq!(resolve_path(b"/a/../b"), Ok(names(&["b"])));
    assert_eq!(resolve_path(b"/a/b/.."), Ok(names(&["a"])));
    assert_eq!(resolve_path(b"/a/b/../../c"), Ok(names(&["c"])));
    assert_eq!(resolve_path(b"/a/.."), Ok(Vec::new()));
}

#[test]
fn path_that_leaves_the_root_is_forbidden() {
    assert_eq!(resolve_path(b"/.."), Err(PathError::Forbidden));
    assert_eq!(resolve_path(b"/../etc/passwd"), Err(PathError::Forbidden));
    assert_eq!(resolve_path(b"/a/../../etc/passwd"), Err(PathError::Forbidden));
    assert_eq!(resolve_path(b"/x.git/../../secret"), Err(PathError::Forbidden));
    assert_eq!(resolve_path(b"/a/b/../../../c"), Err(PathError::Forbidden));
}

#[test]
fn path_that_leaves_the_root_and_comes_back_is_forbidden() {
    assert_eq!(resolve_path(b"/../x.git/info/refs"), Err(PathError::Forbidden));
    assert_eq!(resolve_path(b"/a/../../a/b"), Err(PathError::Forbidden));
}

#[test]
fn escaped_dot_dot_is_forbidden_too() {
    assert_eq!(resolve_path(b"/%2e%2e/etc"), Err(PathError::Forbidden));
    assert_eq!(resolve_path(b"/%2E%2E/etc"), Err(PathError::Forbidden));
    assert_eq!(resolve_path(b"/.%2e/etc"), Err(PathError::Forbidden));
    assert_eq!(resolve_path(b"/a/%2e%2e/%2e%2e/etc"), Err(PathError::Forbidden));
}

#[test]
fn names_that_only_resemble_dot_dot_are_names() {
    assert_eq!(resolve_path(b"/..."), Ok(names(&["..."])));
    assert_eq!(resolve_path(b"/..a"), Ok(names(&["..a"])));
    assert_eq!(resolve_path(b"/a.."), Ok(names(&["a.."])));
    assert_eq!(resolve_path(b"/.git"), Ok(names(&[".git"])));
}

#[test]
fn relative_path_is_invalid() {
    assert_eq!(resolve_path(b""), Err(PathError::Invalid));
    assert_eq!(resolve_path(b"a/b"), Err(PathError::Invalid));
    assert_eq!(resolve_path(b"../a"), Err(PathError::Invalid));
    assert_eq!(resolve_path(b"*"), Err(PathError::Invalid));
}

#[test]
fn escaped_slash_or_zero_byte_is_invalid() {
    assert_eq!(resolve_path(b"/a%2fb"), Err(PathError::Invalid));
    assert_eq!(resolve_path(b"/a%2Fb"), Err(PathError::Invalid));
    assert_eq!(resolve_path(b"/..%2f..%2fetc"), Err(PathError::Invalid));
    assert_eq!(resolve_path(b"/a%00"), Err(PathError::Invalid));
    assert_eq!(resolve_path(b"/a\0b"), Err(PathError::Invalid));
}

#[test]
fn first_segment_that_cannot_be_taken_decides() {
    assert_eq!(resolve_path(b"/../a%2fb"), Err(PathError::Forbidden));
    assert_eq!(resolve_path(b"/a%2fb/../.."), Err(PathError::Invalid));
    assert_eq!(resolve_path(b"/a%2fb/../../.."), Err(PathError::Invalid));
}

#[test]
fn escapes_are_decoded_in_names() {
    assert_eq!(resolve_path(b"/my%20repo.git/HEAD"), Ok(names(&["my repo.git", "HEAD"])));
    assert_eq!(resolve_path(b"/%41%62"), Ok(names(&["Ab"])));
    assert_eq!(resolve_path(b"/%c3%a9"), Ok(vec![vec![0xc3, 0xa9]]));
}

#[test]
fn percent_sign_without_two_digits_stands_for_itself() {
    assert_eq!(percent_decode(b"%"), b"%".to_vec());
    assert_eq!(percent_decode(b"%4"), b"%4".to_vec());
    assert_eq!(percent_decode(b"%zz"), b"%zz".to_vec());
    assert_eq!(percent_decode(b"%4g"), b"%4g".to_vec());
    assert_eq!(percent_decode(b"100%"), b"100%".to_vec());
    assert_eq!(percent_decode(b"%%41"), b"%A".to_vec());
    assert_eq!(percent_decode(b"%25%34%31"), b"%41".to_vec());
}

#[test]
fn percent_decode_gives_the_escaped_bytes() {
    assert_eq!(percent_decode(b""), Vec::<u8>::new());
    assert_eq!(percent_decode(b"abc"), b"abc".to_vec());
    assert_eq!(percent_decode(b"%00%ff%FF%7f"), vec![0x00, 0xff, 0xff, 0x7f]);
    assert_eq!(percent_decode(b"a%2Fb%2fc"), b"a/b/c".to_vec());
    assert_eq!(percent_decode(b"%aB%Cd"), vec![0xab, 0xcd]);
}

#[test]
fn hex_digit_values() {
    assert_eq!(hex_digit_value(b'0'), Some(0));
    assert_eq!(hex_digit_value(b'9'), Some(9));
    assert_eq!(hex_digit_value(b'a'), Some(10));
    assert_eq!(hex_digit_value(b'f'), Some(15));
    assert_eq!(hex_digit_value(b'A'), Some(10));
    assert_eq!(hex_digit_value(b'F'), Some(15));
    assert_eq!(hex_digit_value(b'g'), None);
    assert_eq!(hex_digit_value(b'G'), None);
    assert_eq!(hex_digit_value(b'/'), None);
    assert_eq!(hex_digit_value(b':'), None);
    assert_eq!(hex_digit_value(b'@'), None);
    assert_eq!(hex_digit_value(b'`'), None);
    assert_eq!(hex_digit_value(0), None);
    assert_eq!(hex_digit_value(255), None);
}

#[test]
fn split_path_cuts_at_every_slash() {
    assert_eq!(split_path(b""), names(&[""]));
    assert_eq!(split_path(b"/"), names(&["", ""]));
    assert_eq!(split_path(b"/a/b"), names(&["", "a", "b"]));
    assert_eq!(split_path(b"/a//b/"), names(&["", "a", "", "b", ""]));
    assert_eq!(split_path(b"a%2fb"), names(&["a%2fb"]));
}

#[test]
fn holds_separator_finds_slash_and_zero_byte() {
    assert!(holds_separator(b"a/b"));
    assert!(holds_separator(b"\0"));
    assert!(holds_separator(b"abc\0"));
    assert!(!holds_separator(b""));
    assert!(!holds_separator(b"abc"));
    assert!(!holds_separator(b".."));
    assert!(!holds_separator(b"a\\b"));
}

#[test]
fn admitted_names_never_hold_dot_dot_or_a_separator() {
    let paths: [&[u8]; 6] = [
        b"/a/../b/./c",
        b"/x.git/objects/../refs/heads/main",
        b"/%2e/a/%2e%2e/b",
        b"/..a/b../...",
        b"/a/b/c/../../../d",
        b"/",
    ];
    for path in paths {
        let names = resolve_path(path).unwrap();
        for name in names {
            assert!(!name.is_empty());
            assert_ne!(name, b".".to_vec());
            assert_ne!(name, b"..".to_vec());
            assert!(!name.contains(&b'/'));
            assert!(!name.contains(&0));
        }
    }
}

#[test]
fn dot_and_dot_dot_are_told_from_names() {
    assert!(is_dot(b"."));
    assert!(!is_dot(b""));
    assert!(!is_dot(b".."));
    assert!(!is_dot(b"a"));
    assert!(!is_dot(b".a"));
    assert!(is_dot_dot(b".."));
    assert!(!is_dot_dot(b"."));
    assert!(!is_dot_dot(b"..."));
    assert!(!is_dot_dot(b".a"));
    assert!(!is_dot_dot(b"a."));
    assert!(!is_dot_dot(b""));
}

#[test]
fn segment_without_percent_sign_is_taken_as_written() {
    assert_eq!(percent_decode(b"pack-1f.pack"), b"pack-1f.pack".to_vec());
    assert_eq!(resolve_path(b"/pack-1f.pack"), Ok(names(&["pack-1f.pack"])));
}
