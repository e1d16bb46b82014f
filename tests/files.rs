use geotag::utils::{get_dir_files, get_files_from_path, get_path_type, is_hidden, DirEntryInfo, PathType};

fn entry(name: Option<&str>, path: &str) -> DirEntryInfo {
    DirEntryInfo { name: name.map(|n| n.to_string()), path: path.to_string() }
}

#[test]
fn path_types() {
    assert_eq!(get_path_type(true, false), PathType::Dir);
    assert_eq!(get_path_type(false, true), PathType::File);
    assert_eq!(get_path_type(false, false), PathType::Other);
}

#[test]
fn hidden_names() {
    assert!(is_hidden(".DS_Store"));
    assert!(!is_hidden("photo.jpg"));
    assert!(!is_hidden(""));
}

#[test]
fn dir_files_skip_hidden_entries() {
    let entries = vec![
        entry(Some("a.jpg"), "/d/a.jpg"),
        entry(Some(".hidden"), "/d/.hidden"),
        entry(None, "/d/raw"),
        entry(Some("b.png"), "/d/b.png"),
    ];
    assert_eq!(get_dir_files(&entries), vec!["/d/a.jpg", "/d/raw", "/d/b.png"]);
}

#[test]
fn files_from_file_path() {
    assert_eq!(get_files_from_path("/p/x.jpg", PathType::File, vec![]), vec!["/p/x.jpg"]);
}

#[test]
fn files_from_dir_path() {
    let listed = vec!["/p/a".to_string(), "/p/b".to_string()];
    assert_eq!(get_files_from_path("/p", PathType::Dir, listed), vec!["/p/a", "/p/b"]);
}

#[test]
fn files_from_other_path() {
    assert!(get_files_from_path("/dev/null", PathType::Other, vec![]).is_empty());
}
