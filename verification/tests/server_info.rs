use gitserve::server_info::{
    is_pack_file, render_info_packs, render_info_refs, update_server_info, ObjectId, RefRecord,
};

fn sha1(fill: u8) -> ObjectId {
    ObjectId::from_bytes(vec![fill; 20]).unwrap()
}

fn named(name: &str, target: Option<ObjectId>) -> RefRecord {
    RefRecord { name: Some(name.to_string()), target }
}

fn names(list: &[&str]) -> Vec<String> {
    list.iter().map(|n| n.to_string()).collect()
}

#[test]
fn object_id_takes_twenty_or_thirty_two_bytes_only() {
    assert!(ObjectId::from_bytes(vec![0; 20]).is_some());
    assert!(ObjectId::from_bytes(vec![0; 32]).is_some());
    assert!(ObjectId::from_bytes(Vec::new()).is_none());
    assert!(ObjectId::from_bytes(vec![0; 19]).is_none());
    assert!(ObjectId::from_bytes(vec![0; 21]).is_none());
    assert!(ObjectId::from_bytes(vec![0; 31]).is_none());
    assert!(ObjectId::from_bytes(vec![0; 33]).is_none());
    assert!(ObjectId::from_bytes(vec![0; 40]).is_none());
}

#[test]
fn object_id_keeps_its_bytes() {
    let bytes: Vec<u8> = (0u8..20).collect();
    let id = ObjectId::from_bytes(bytes.clone()).unwrap();
    assert_eq!(id.as_bytes(), &bytes);
    assert_eq!(id.clone(), id);
}

#[test]
fn hex_of_a_sha1_id_is_forty_lower_case_digits() {
    let bytes: Vec<u8> = vec![
        0x00, 0x01, 0x09, 0x0a, 0x0f, 0x10, 0x1f, 0x7f, 0x80, 0x9a, 0xab, 0xbc, 0xcd, 0xde, 0xef,
        0xf0, 0xff, 0x12, 0x34, 0x56,
    ];
    let id = ObjectId::from_bytes(bytes).unwrap();
    assert_eq!(id.to_hex(), "0001090a0f101f7f809aabbccddeeff0ff123456");
    assert_eq!(id.to_hex().len(), 40);
}

#[test]
fn hex_of_a_sha256_id_is_sixty_four_digits() {
    let id = ObjectId::from_bytes(vec![0xa5; 32]).unwrap();
    assert_eq!(id.to_hex(), "a5".repeat(32));
    assert_eq!(id.to_hex().len(), 64);
}

#[test]
fn info_refs_has_one_line_per_resolvable_reference() {
    let refs = vec![
        named("refs/heads/main", Some(sha1(0x11))),
        named("refs/heads/topic", Some(sha1(0xab))),
        named("refs/tags/v1", Some(sha1(0x00))),
    ];
    let text = render_info_refs(&refs);
    let expected = format!(
        "{}\trefs/heads/main\n{}\trefs/heads/topic\n{}\trefs/tags/v1\n",
        "11".repeat(20),
        "ab".repeat(20),
        "00".repeat(20)
    );
    assert_eq!(text, expected);
    assert_eq!(text.lines().count(), 3);
    for line in text.lines() {
        let (id, name) = line.split_once('\t').unwrap();
        assert_eq!(id.len(), 40);
        assert!(id.chars().all(|c| c.is_ascii_digit() || ('a'..='f').contains(&c)));
        assert!(name.starts_with("refs/"));
    }
}

#[test]
fn info_refs_keeps_the_order_of_iteration() {
    let refs = vec![named("refs/heads/z", Some(sha1(2))), named("refs/heads/a", Some(sha1(1)))];
    let expected =
        format!("{}\trefs/heads/z\n{}\trefs/heads/a\n", "02".repeat(20), "01".repeat(20));
    assert_eq!(render_info_refs(&refs), expected);
}

#[test]
fn references_without_name_or_target_are_passed_over() {
    let refs = vec![
        named("refs/heads/broken", None),
        RefRecord { name: None, target: Some(sha1(7)) },
        RefRecord { name: None, target: None },
        named("refs/heads/main", Some(sha1(0xfe))),
    ];
    let expected = format!("{}\trefs/heads/main\n", "fe".repeat(20));
    assert_eq!(render_info_refs(&refs), expected);
}

#[test]
fn info_refs_of_no_reference_is_empty() {
    assert_eq!(render_info_refs(&Vec::new()), "");
    assert_eq!(render_info_refs(&vec![named("HEAD", None)]), "");
}

#[test]
fn info_refs_writes_sha256_targets_in_sixty_four_digits() {
    let id = ObjectId::from_bytes(vec![0x0f; 32]).unwrap();
    let refs = vec![named("refs/heads/main", Some(id))];
    let expected = format!("{}\trefs/heads/main\n", "0f".repeat(32));
    assert_eq!(render_info_refs(&refs), expected);
}

#[test]
fn info_packs_lists_the_pack_files_only() {
    let entries = names(&["a.pack", "a.idx", "b.pack", "notes.txt"]);
    assert_eq!(render_info_packs(&entries), "P a.pack\nP b.pack\n");
}

#[test]
fn info_packs_keeps_the_order_of_enumeration() {
    let entries = names(&["pack-2.pack", "pack-1.pack"]);
    assert_eq!(render_info_packs(&entries), "P pack-2.pack\nP pack-1.pack\n");
}

#[test]
fn info_packs_of_an_empty_directory_is_empty() {
    assert_eq!(render_info_packs(&Vec::new()), "");
    assert_eq!(render_info_packs(&names(&["a.idx", "pack"])), "");
}

#[test]
fn pack_extension_must_be_exact() {
    assert!(is_pack_file("a.pack"));
    assert!(is_pack_file("pack-0123abcd.pack"));
    assert!(is_pack_file("a.b.pack"));
    assert!(is_pack_file("..pack"));
    assert!(is_pack_file("\u{e9}.pack"));
    assert!(!is_pack_file(".pack"));
    assert!(!is_pack_file("pack"));
    assert!(!is_pack_file(""));
    assert!(!is_pack_file("a.pack."));
    assert!(!is_pack_file("a.packs"));
    assert!(!is_pack_file("a.PACK"));
    assert!(!is_pack_file("a.pack.idx"));
    assert!(!is_pack_file("apack"));
    assert!(!is_pack_file("a.idx"));
}

#[test]
fn snapshot_holds_both_files() {
    let refs = vec![named("refs/heads/main", Some(sha1(0x42)))];
    let packs = Some(names(&["a.pack", "a.idx"]));
    let info = update_server_info(&refs, &packs);
    assert_eq!(info.refs, format!("{}\trefs/heads/main\n", "42".repeat(20)));
    assert_eq!(info.packs, "P a.pack\n");
}

#[test]
fn missing_pack_directory_gives_an_empty_packs_file() {
    let refs = vec![named("refs/heads/main", Some(sha1(1)))];
    let info = update_server_info(&refs, &None);
    assert_eq!(info.packs, "");
    assert_eq!(info.refs, format!("{}\trefs/heads/main\n", "01".repeat(20)));
}

#[test]
fn regenerating_twice_gives_identical_files() {
    let refs = vec![
        named("refs/heads/main", Some(sha1(0x10))),
        named("refs/heads/gone", None),
        named("refs/tags/v2", Some(sha1(0x20))),
    ];
    let packs = Some(names(&["b.pack", "b.idx", "a.pack"]));
    let first = update_server_info(&refs, &packs);
    let second = update_server_info(&refs, &packs);
    assert_eq!(first, second);
    assert_eq!(first.refs.as_bytes(), second.refs.as_bytes());
    assert_eq!(first.packs.as_bytes(), second.packs.as_bytes());
}

#[test]
fn snapshot_of_a_fresh_repository_is_two_empty_files() {
    let info = update_server_info(&Vec::new(), &Some(Vec::new()));
    assert_eq!(info.refs, "");
    assert_eq!(info.packs, "");
}
