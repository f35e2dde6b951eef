use podcast::text::{chars_of, find_extension, find_from, rfind_before, same_text, strip_extension};

#[test]
fn chars_of_keeps_every_character() {
    assert_eq!(chars_of("a.é/b"), vec!['a', '.', 'é', '/', 'b']);
    assert_eq!(chars_of(""), Vec::<char>::new());
}

#[test]
fn same_text_compares_characters() {
    assert!(same_text("audio/mpeg", "audio/mpeg"));
    assert!(!same_text("audio/mpeg", "audio/mp4"));
    assert!(same_text("", ""));
}

#[test]
fn find_from_gives_first_index_or_length() {
    let s = chars_of("a/b/c");
    assert_eq!(find_from(&s, '/', 0), 1);
    assert_eq!(find_from(&s, '/', 2), 3);
    assert_eq!(find_from(&s, '/', 4), 5);
    assert_eq!(find_from(&s, '?', 0), 5);
}

#[test]
fn rfind_before_gives_last_index() {
    let s = chars_of("a.b.c");
    assert_eq!(rfind_before(&s, '.', 5), Some(3));
    assert_eq!(rfind_before(&s, '.', 3), Some(1));
    assert_eq!(rfind_before(&s, '.', 1), None);
    assert_eq!(rfind_before(&s, '.', 0), None);
}

#[test]
fn strip_extension_cuts_at_last_dot() {
    assert_eq!(strip_extension("Episode 1.mp3"), "Episode 1");
    assert_eq!(strip_extension("Ep. 2: Intro.m4a"), "Ep. 2: Intro");
    assert_eq!(strip_extension("archive.tar.gz"), "archive.tar");
}

#[test]
fn strip_extension_keeps_name_without_dot() {
    assert_eq!(strip_extension("README"), "README");
    assert_eq!(strip_extension(""), "");
}

#[test]
fn strip_extension_of_dotfile_is_empty() {
    assert_eq!(strip_extension(".hidden"), "");
}

#[test]
fn strip_extension_counts_characters_not_bytes() {
    assert_eq!(strip_extension("Émission né.ogg"), "Émission né");
}

#[test]
fn find_extension_of_plain_url() {
    assert_eq!(find_extension("http://example.com/audio/ep1.xyz"), Some(".xyz".to_string()));
    assert_eq!(find_extension("https://cdn.example.com/show/ep.12.mp3"), Some(".mp3".to_string()));
}

#[test]
fn find_extension_ignores_query_and_fragment() {
    assert_eq!(find_extension("http://example.com/ep1.mp3?token=a.b"), Some(".mp3".to_string()));
    assert_eq!(find_extension("http://example.com/ep1.ogg#t=1.5"), Some(".ogg".to_string()));
    assert_eq!(find_extension("http://example.com/ep1?file=x.mp3"), None);
}

#[test]
fn find_extension_ignores_the_host() {
    assert_eq!(find_extension("http://example.com"), None);
    assert_eq!(find_extension("http://example.com/"), None);
    assert_eq!(find_extension("http://example.com/episode"), None);
}

#[test]
fn find_extension_looks_at_last_segment_only() {
    assert_eq!(find_extension("http://example.com/v1.2/episode"), None);
    assert_eq!(find_extension("http://example.com/v1.2/episode.m4a"), Some(".m4a".to_string()));
}

#[test]
fn find_extension_needs_characters_after_the_dot() {
    assert_eq!(find_extension("http://example.com/episode."), None);
    assert_eq!(find_extension(""), None);
}

#[test]
fn find_extension_of_relative_path() {
    assert_eq!(find_extension("episodes/ep1.mp3"), Some(".mp3".to_string()));
    assert_eq!(find_extension("ep1.wav"), Some(".wav".to_string()));
    assert_eq!(find_extension("/a:b//c/ep1.wav"), Some(".wav".to_string()));
}
