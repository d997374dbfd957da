use downtime::hosts::{apply_block, render_blocklist, restore_contents};

#[test]
fn renders_one_line_per_domain() {
    let domains = vec![String::from("example.com"), String::from("news.example.org")];
    let text = render_blocklist(&domains);
    assert_eq!(text, "0.0.0.0 example.com\n0.0.0.0 news.example.org\n");
}

#[test]
fn renders_nothing_for_no_domains() {
    let domains: Vec<String> = Vec::new();
    assert_eq!(render_blocklist(&domains), "");
}

#[test]
fn duplicate_domains_are_kept() {
    let domains = vec![String::from("example.com"), String::from("example.com")];
    assert_eq!(
        render_blocklist(&domains),
        "0.0.0.0 example.com\n0.0.0.0 example.com\n"
    );
}

#[test]
fn apply_block_backs_up_and_appends() {
    let original = String::from("127.0.0.1 localhost\n::1 localhost\n");
    let domains = vec![String::from("example.com")];
    let mutation = apply_block(&original, &domains);
    assert_eq!(mutation.backup, original);
    assert_eq!(
        mutation.mutated,
        "127.0.0.1 localhost\n::1 localhost\n0.0.0.0 example.com\n"
    );
    assert!(mutation.mutated.starts_with(original.as_str()));
}

#[test]
fn restore_after_apply_reproduces_the_original() {
    let original = String::from("# hosts\n127.0.0.1 localhost\n");
    let domains = vec![String::from("a.example"), String::from("b.example")];
    let mutation = apply_block(&original, &domains);
    let restored = restore_contents(&mutation.backup);
    assert_eq!(restored, original);
}

#[test]
fn restore_writes_the_backup_verbatim() {
    let backup = String::from("anything at all, byte for byte\n");
    assert_eq!(restore_contents(&backup), backup);
}
