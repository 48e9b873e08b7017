use maple_rpc::filer::{read_dir_entries, sort_lines, FsEntry};

fn entry(name: &str, is_dir: bool) -> FsEntry {
    FsEntry { name: String::from(name), is_dir, icon: String::from("i ") }
}

fn strings(items: &[&str]) -> Vec<String> {
    items.iter().map(|s| String::from(*s)).collect()
}

#[test]
fn listing_is_sorted_and_counts_every_child() {
    let entries = vec![
        entry("zeta.rs", false),
        entry("alpha", true),
        entry("midway.txt", false),
        entry("beta.rs", false),
    ];
    let lines = read_dir_entries(entries, false, None);
    assert_eq!(lines, strings(&["alpha/", "beta.rs", "midway.txt", "zeta.rs"]));
}

#[test]
fn directories_get_a_separator_suffix() {
    let entries = vec![entry("src", true), entry("Cargo.toml", false)];
    let lines = read_dir_entries(entries, false, None);
    assert_eq!(lines, strings(&["Cargo.toml", "src/"]));
}

#[test]
fn icons_decorate_every_line_when_enabled() {
    let entries = vec![entry("b.rs", false), entry("a", true)];
    let lines = read_dir_entries(entries, true, None);
    assert_eq!(lines, strings(&["i a/", "i b.rs"]));
}

#[test]
fn limit_truncates_after_sorting() {
    let entries = vec![
        entry("d", false),
        entry("b", false),
        entry("c", false),
        entry("a", false),
    ];
    let lines = read_dir_entries(entries, false, Some(2));
    assert_eq!(lines, strings(&["a", "b"]));
}

#[test]
fn limit_larger_than_listing_keeps_everything() {
    let entries = vec![entry("b", false), entry("a", false)];
    let lines = read_dir_entries(entries, false, Some(10));
    assert_eq!(lines, strings(&["a", "b"]));
}

#[test]
fn empty_directory_lists_empty() {
    let lines = read_dir_entries(Vec::new(), false, None);
    assert!(lines.is_empty());
}

#[test]
fn sort_lines_orders_and_keeps_duplicates() {
    let sorted = sort_lines(strings(&["pear", "apple", "pear", "fig"]));
    assert_eq!(sorted, strings(&["apple", "fig", "pear", "pear"]));
}

#[test]
fn sort_is_by_code_point_like_the_byte_order() {
    let sorted = sort_lines(strings(&["b", "A", "a", "B", "1"]));
    assert_eq!(sorted, strings(&["1", "A", "B", "a", "b"]));
}
