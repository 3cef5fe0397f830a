use gitserve::serving::{append_decimal, repo_url, repo_urls, serve_repos, Locking, DEFAULT_PORT};

#[test]
fn serve_settings_are_as_given() {
    let config = serve_repos("./repos", [127, 0, 0, 1], 8080, false);
    assert_eq!(config.root, "./repos");
    assert_eq!(config.addr, [127, 0, 0, 1]);
    assert_eq!(config.port, 8080);
}

#[test]
fn served_files_are_public_and_names_case_sensitive() {
    let config = serve_repos(".", [0, 0, 0, 0], DEFAULT_PORT, false);
    assert!(config.public_files);
    assert!(!config.case_insensitive);
}

#[test]
fn locks_are_granted_without_being_kept() {
    let config = serve_repos(".", [0, 0, 0, 0], 5005, false);
    assert_eq!(config.locking, Locking::CooperativeStub);
    let config = serve_repos(".", [0, 0, 0, 0], 5005, true);
    assert_eq!(config.locking, Locking::CooperativeStub);
}

#[test]
fn platform_metadata_is_hidden_on_that_platform_only() {
    assert!(serve_repos(".", [0, 0, 0, 0], 5005, true).hide_platform_metadata);
    assert!(!serve_repos(".", [0, 0, 0, 0], 5005, false).hide_platform_metadata);
}

#[test]
fn default_port_is_5005() {
    assert_eq!(DEFAULT_PORT, 5005);
}

#[test]
fn url_of_a_repository() {
    assert_eq!(repo_url([192, 168, 1, 20], 5005, "x.git"), "http://192.168.1.20:5005/x.git");
    assert_eq!(repo_url([10, 0, 0, 7], 80, "my repo"), "http://10.0.0.7:80/my repo");
}

#[test]
fn url_with_the_smallest_and_largest_numbers() {
    assert_eq!(repo_url([0, 0, 0, 0], 0, ""), "http://0.0.0.0:0/");
    assert_eq!(
        repo_url([255, 255, 255, 255], 65535, "a.git"),
        "http://255.255.255.255:65535/a.git"
    );
    assert_eq!(repo_url([1, 10, 100, 9], 1000, "r"), "http://1.10.100.9:1000/r");
}

#[test]
fn one_url_for_each_repository_in_order() {
    let repos = vec!["b.git".to_string(), "a.git".to_string()];
    assert_eq!(
        repo_urls([192, 168, 0, 2], 5005, &repos),
        vec![
            "http://192.168.0.2:5005/b.git".to_string(),
            "http://192.168.0.2:5005/a.git".to_string()
        ]
    );
    assert_eq!(repo_urls([192, 168, 0, 2], 5005, &Vec::new()), Vec::<String>::new());
}

#[test]
fn decimal_is_written_behind_what_is_there() {
    let mut text = String::from("n=");
    append_decimal(&mut text, 0);
    assert_eq!(text, "n=0");
    append_decimal(&mut text, 9);
    append_decimal(&mut text, 10);
    append_decimal(&mut text, 99);
    append_decimal(&mut text, 100);
    append_decimal(&mut text, 65535);
    assert_eq!(text, "n=09109910065535");
}
