use mp3_player::enumerate_mp3s;
use mp3_player::filter_mp3;
use mp3_player::has_mp3_extension;
use mp3_player::now_playing_line;

#[test]
fn mp3_extension_accepts_plain_file() {
    assert!(has_mp3_extension(&b"song.mp3".to_vec()));
}

#[test]
fn mp3_extension_accepts_nested_path() {
    assert!(has_mp3_extension(&b"music/album/track01.mp3".to_vec()));
}

#[test]
fn mp3_extension_accepts_double_dot_stem() {
    assert!(has_mp3_extension(&b"a..mp3".to_vec()));
}

#[test]
fn mp3_extension_rejects_other_extension() {
    assert!(!has_mp3_extension(&b"song.mp4".to_vec()));
    assert!(!has_mp3_extension(&b"song.ogg".to_vec()));
}

#[test]
fn mp3_extension_is_case_sensitive() {
    assert!(!has_mp3_extension(&b"song.MP3".to_vec()));
}

#[test]
fn mp3_extension_rejects_bare_dot_file() {
    // a file named just ".mp3" has no extension
    assert!(!has_mp3_extension(&b".mp3".to_vec()));
    assert!(!has_mp3_extension(&b"music/.mp3".to_vec()));
}

#[test]
fn mp3_extension_rejects_short_and_empty() {
    assert!(!has_mp3_extension(&b"".to_vec()));
    assert!(!has_mp3_extension(&b"mp3".to_vec()));
    assert!(!has_mp3_extension(&b".mp".to_vec()));
}

#[test]
fn filter_keeps_only_mp3s_in_order() {
    let paths = vec![
        b"a.mp3".to_vec(),
        b"notes.txt".to_vec(),
        b"dir/b.mp3".to_vec(),
        b"dir".to_vec(),
        b"c.MP3".to_vec(),
        b"d.mp3".to_vec(),
    ];
    let kept = filter_mp3(paths);
    assert_eq!(
        kept,
        vec![b"a.mp3".to_vec(), b"dir/b.mp3".to_vec(), b"d.mp3".to_vec()]
    );
}

#[test]
fn filter_of_no_mp3s_is_empty() {
    let paths = vec![b"a.txt".to_vec(), b"b".to_vec()];
    assert!(filter_mp3(paths).is_empty());
}

#[test]
fn filter_of_empty_list_is_empty() {
    assert!(filter_mp3(Vec::new()).is_empty());
}

#[test]
fn enumerate_of_missing_directory_is_empty() {
    // the walk yields only errors under a directory that does not exist,
    // and even a root that itself ends in ".mp3" must not be handed back
    let found = enumerate_mp3s(&b"/no/such/directory/x.mp3".to_vec());
    assert!(found.is_empty());
}

#[test]
fn enumerate_of_source_tree_finds_no_mp3s() {
    // a real recursive walk over this crate's own sources: plenty of
    // entries, none with the mp3 extension
    let found = enumerate_mp3s(&b"src".to_vec());
    assert!(found.is_empty());
}

#[test]
fn now_playing_line_is_prefix_then_path() {
    let line = now_playing_line(&b"a.mp3".to_vec());
    let mut expected: Vec<u8> = Vec::new();
    expected.extend_from_slice("\u{1F3B6} Now playing: ".as_bytes());
    expected.extend_from_slice(b"a.mp3");
    assert_eq!(line, expected);
}

#[test]
fn now_playing_line_of_empty_path_is_just_prefix() {
    let line = now_playing_line(&Vec::new());
    assert_eq!(line, "\u{1F3B6} Now playing: ".as_bytes().to_vec());
}
