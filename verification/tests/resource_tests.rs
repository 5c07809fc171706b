use blog::cleanup::{accept_scanned_file, orphaned_files, select_batch, trash_path, ScannedFile};
use blog::resource::{upload_root, ResourcePath, ResourcePathError};

#[test]
fn upload_root_normalizes() {
    assert_eq!(upload_root("data\\uploads\\"), "data/uploads");
    assert_eq!(upload_root("data/uploads///"), "data/uploads");
    assert_eq!(upload_root("/"), "");
}

#[test]
fn from_relative_builds_absolute() {
    let p = ResourcePath::from_relative("data/uploads", "2024\\a.png");
    assert_eq!(p.relative(), "2024/a.png");
    assert_eq!(p.absolute(), "data/uploads/2024/a.png");
}

#[test]
fn from_absolute_strips_root() {
    let p = ResourcePath::from_absolute("data/uploads", "data\\uploads\\x\\y.txt").unwrap();
    assert_eq!(p.relative(), "x/y.txt");
    assert_eq!(p.absolute(), "data/uploads/x/y.txt");
    assert_eq!(p.clone().into_relative(), "x/y.txt");
    assert_eq!(p.into_absolute(), "data/uploads/x/y.txt");
}

#[test]
fn from_absolute_outside_fails() {
    assert_eq!(
        ResourcePath::from_absolute("data/uploads", "other/x.txt").err(),
        Some(ResourcePathError::OutsideUploadDir)
    );
    assert_eq!(
        ResourcePath::from_absolute("data/uploads", "data/uploadsx/y").err(),
        Some(ResourcePathError::OutsideUploadDir)
    );
    assert_eq!(
        ResourcePath::from_absolute("data/uploads", "data/uploads").err(),
        Some(ResourcePathError::OutsideUploadDir)
    );
}

#[test]
fn relative_round_trip() {
    let root = upload_root("store\\");
    let p = ResourcePath::from_relative(&root, "a\\b.bin");
    let q = ResourcePath::from_absolute(&root, p.absolute()).unwrap();
    assert_eq!(q.relative(), "a/b.bin");
    assert_eq!(q.absolute(), p.absolute());
}

#[test]
fn absolute_round_trip() {
    let root = upload_root("store");
    let q = ResourcePath::from_absolute(&root, "store\\deep\\f").unwrap();
    let p = ResourcePath::from_relative(&root, q.relative());
    assert_eq!(p.absolute(), "store/deep/f");
}

#[test]
fn scan_keeps_old_files_inside_root() {
    let keep = ScannedFile { created: Some(10), path: Some(String::from("up/a")) };
    let young = ScannedFile { created: Some(30), path: Some(String::from("up/b")) };
    let unknown_time = ScannedFile { created: None, path: Some(String::from("up/c")) };
    let no_path = ScannedFile { created: Some(1), path: None };
    let outside = ScannedFile { created: Some(1), path: Some(String::from("elsewhere/d")) };
    assert_eq!(accept_scanned_file("up", 20, &keep).map(|p| p.into_relative()), Some(String::from("a")));
    assert!(accept_scanned_file("up", 20, &young).is_none());
    assert!(accept_scanned_file("up", 20, &unknown_time).is_none());
    assert!(accept_scanned_file("up", 20, &no_path).is_none());
    assert!(accept_scanned_file("up", 20, &outside).is_none());
    let equal = ScannedFile { created: Some(20), path: Some(String::from("up/e")) };
    assert!(accept_scanned_file("up", 20, &equal).is_some());

    let batch = select_batch("up", 20, &vec![keep, young, unknown_time, no_path, outside, equal]);
    let rels: Vec<&str> = batch.iter().map(|p| p.relative()).collect();
    assert_eq!(rels, vec!["a", "e"]);
}

#[test]
fn orphans_are_the_unknown_files() {
    let files = vec![
        ResourcePath::from_relative("up", "a"),
        ResourcePath::from_relative("up", "b"),
        ResourcePath::from_relative("up", "c"),
    ];
    let known = vec![String::from("b")];
    let orphans = orphaned_files(&known, files);
    let rels: Vec<&str> = orphans.iter().map(|p| p.relative()).collect();
    assert_eq!(rels, vec!["a", "c"]);
}

#[test]
fn trash_keeps_relative_layout() {
    let p = ResourcePath::from_relative("up", "2024/x.png");
    assert_eq!(trash_path("trash", &p), "trash/2024/x.png");
    assert_eq!(trash_path("trash/", &p), "trash/2024/x.png");
}
