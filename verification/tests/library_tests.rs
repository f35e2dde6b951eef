use podcast::library::DownloadedSet;

#[test]
fn new_set_is_empty() {
    let set = DownloadedSet::new();
    assert_eq!(set.len(), 0);
    assert!(!set.contains("Episode 1"));
}

#[test]
fn insert_reports_new_titles_only() {
    let mut set = DownloadedSet::new();
    assert!(set.insert("Episode 1".to_string()));
    assert!(!set.insert("Episode 1".to_string()));
    assert!(set.insert("Episode 2".to_string()));
    assert_eq!(set.len(), 2);
    assert!(set.contains("Episode 1"));
    assert!(set.contains("Episode 2"));
    assert!(!set.contains("Episode 3"));
}

#[test]
fn scan_strips_extensions() {
    let names = vec!["Episode 1.mp3".to_string(), "Ep. 2.m4a".to_string(), "notes".to_string()];
    let set = DownloadedSet::scan(&names);
    assert_eq!(set.len(), 3);
    assert!(set.contains("Episode 1"));
    assert!(set.contains("Ep. 2"));
    assert!(set.contains("notes"));
    assert!(!set.contains("Episode 1.mp3"));
}

#[test]
fn scan_of_missing_directory_is_empty() {
    let set = DownloadedSet::scan(&Vec::new());
    assert_eq!(set.len(), 0);
}

#[test]
fn scan_holds_a_title_once() {
    let names = vec!["Episode 1.mp3".to_string(), "Episode 1.ogg".to_string()];
    let set = DownloadedSet::scan(&names);
    assert_eq!(set.len(), 1);
    assert!(set.contains("Episode 1"));
}
