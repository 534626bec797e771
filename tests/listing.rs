use edorifile::listing::{
    drive_for_letter, drive_letters, folder_children, is_cloud_placeholder_attributes, is_hidden_attributes,
    is_hidden_folder_name, is_onedrive_business, search_matches, sort_entries, FileEntry, SearchResults,
};

fn entry(name: &str, is_dir: bool) -> FileEntry {
    FileEntry {
        name: name.to_string(),
        path: format!("/x/{}", name),
        is_dir,
        size: 0,
        modified: "-".to_string(),
        extension: String::new(),
        is_cloud_placeholder: false,
    }
}

fn names(v: &[FileEntry]) -> Vec<String> {
    v.iter().map(|e| e.name.clone()).collect()
}

#[test]
fn directories_first_then_names_without_case() {
    let v = vec![entry("b.txt", false), entry("Zoo", true), entry("A.txt", false), entry("apps", true)];
    let r = sort_entries(v);
    assert_eq!(names(&r), vec!["apps", "Zoo", "A.txt", "b.txt"]);
}

#[test]
fn sorting_nothing() {
    assert!(sort_entries(vec![]).is_empty());
}

#[test]
fn equal_names_keep_their_order() {
    let v = vec![entry("Read", false), entry("read", false), entry("READ", false)];
    assert_eq!(names(&sort_entries(v)), vec!["Read", "read", "READ"]);
}

#[test]
fn folder_tree_hides_dot_and_dollar_names() {
    let v = vec![
        entry("src", true),
        entry(".git", true),
        entry("$Recycle.Bin", true),
        entry("notes.txt", false),
        entry("Docs", true),
    ];
    assert_eq!(names(&folder_children(v)), vec!["Docs", "src"]);
    assert!(is_hidden_folder_name(".cache"));
    assert!(!is_hidden_folder_name("cache"));
    assert!(!is_hidden_folder_name(""));
}

#[test]
fn search_ignores_case() {
    assert!(search_matches("Holiday-Photo.JPG", "photo"));
    assert!(search_matches("anything", ""));
    assert!(!search_matches("report.pdf", "photo"));
}

#[test]
fn search_keeps_at_most_the_limit() {
    let mut s = SearchResults::new(Some(2));
    assert!(!s.is_full());
    s.add(entry("c", false));
    s.add(entry("a", true));
    assert!(s.is_full());
    s.add(entry("b", false));
    assert_eq!(names(&s.finish()), vec!["a", "c"]);
    assert_eq!(SearchResults::new(None).max, 100);
}

#[test]
fn onedrive_business_folders() {
    assert!(is_onedrive_business("OneDrive - Contoso"));
    assert!(!is_onedrive_business("OneDrive - Personal"));
    assert!(!is_onedrive_business("OneDrive"));
}

#[test]
fn attribute_bits() {
    assert!(is_cloud_placeholder_attributes(0x0040_0020));
    assert!(!is_cloud_placeholder_attributes(0x20));
    assert!(is_hidden_attributes(0x2 | 0x20));
    assert!(!is_hidden_attributes(0x1));
}

#[test]
fn drives_by_letter() {
    let d = drive_for_letter('C');
    assert_eq!(d.path, "C:\\");
    assert_eq!(d.name, "Local Disk (C:)");
    assert_eq!(d.total_space, 0);
    let l = drive_letters();
    assert_eq!(l.len(), 26);
    assert_eq!(l[0], 'A');
    assert_eq!(l[25], 'Z');
}
