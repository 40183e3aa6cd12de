use arliamp::errors::LaunchError;
use arliamp::resolver::file_extension;
use arliamp::resolver::is_supported_extension;
use arliamp::resolver::looks_like_url;
use arliamp::resolver::resolve_token;
use arliamp::resolver::resolve_tokens;
use arliamp::resolver::supported_extensions;
use arliamp::resolver::supported_list_string;
use arliamp::resolver::validate_local_file_type;
use arliamp::resolver::FsEntry;

const ALL_EXTS: [&str; 13] = [
    "mp3", "wav", "flac", "ogg", "m4a", "aac", "m4b", "m4p", "alac", "wma", "opus", "m3u", "m3u8",
];

#[test]
fn accepts_every_supported_extension() {
    for ext in ALL_EXTS {
        let path = format!("/music/song.{}", ext);
        assert!(validate_local_file_type(&path).is_ok(), "rejected {}", path);
    }
}

#[test]
fn accepts_uppercase_and_mixed_case_extensions() {
    assert!(validate_local_file_type("/music/song.MP3").is_ok());
    assert!(validate_local_file_type("/music/song.FlAc").is_ok());
    assert!(validate_local_file_type("/music/song.M3U8").is_ok());
    assert!(is_supported_extension("OPUS"));
    assert!(is_supported_extension("Wav"));
}

#[test]
fn rejects_unknown_extension_and_lists_the_supported_set() {
    let err = validate_local_file_type("/music/song.xyz").unwrap_err();
    let msg = err.message();
    assert!(msg.starts_with("arliamp: unsupported file type: /music/song.xyz"));
    assert!(msg.contains(" (supported: "));
    for ext in ALL_EXTS {
        assert!(msg.contains(ext), "message does not list {}: {}", ext, msg);
    }
    assert_eq!(
        msg,
        "arliamp: unsupported file type: /music/song.xyz (supported: mp3, wav, flac, ogg, m4a, aac, m4b, m4p, alac, wma, opus, m3u, m3u8)"
    );
}

#[test]
fn rejects_file_without_extension_and_lists_the_supported_set() {
    let err = validate_local_file_type("/music/song").unwrap_err();
    let msg = err.message();
    assert_eq!(
        msg,
        "arliamp: unsupported file type: /music/song (supported: mp3, wav, flac, ogg, m4a, aac, m4b, m4p, alac, wma, opus, m3u, m3u8)"
    );
    match err {
        LaunchError::UnsupportedFileType { path, ext } => {
            assert_eq!(path, "/music/song");
            assert_eq!(ext, None);
        }
        other => panic!("wrong error: {:?}", other),
    }
}

#[test]
fn supported_list_matches_the_fixed_order() {
    assert_eq!(
        supported_list_string(),
        "mp3, wav, flac, ogg, m4a, aac, m4b, m4p, alac, wma, opus, m3u, m3u8"
    );
    let v = supported_extensions();
    assert_eq!(v.len(), 13);
    assert_eq!(v[0], "mp3");
    assert_eq!(v[12], "m3u8");
}

#[test]
fn extension_follows_file_name_rules() {
    assert_eq!(file_extension("/a/b/song.mp3").as_deref(), Some("mp3"));
    assert_eq!(file_extension("song.tar.gz").as_deref(), Some("gz"));
    assert_eq!(file_extension("/a/.bashrc"), None);
    assert_eq!(file_extension("/a/b/noext"), None);
    assert_eq!(file_extension("trailing.").as_deref(), Some(""));
    assert_eq!(file_extension("/a.b/noext"), None);
    assert_eq!(file_extension("/a/.hidden.opus").as_deref(), Some("opus"));
}

#[test]
fn remote_locators_pass_through_without_filesystem_access() {
    assert!(looks_like_url("https://example.com/stream"));
    assert!(looks_like_url("weird://"));
    assert!(!looks_like_url("plain/path.mp3"));
    // The filesystem answer is irrelevant for a remote locator: even a
    // missing-entry answer leaves it untouched.
    let r = resolve_token("https://radio.example/live.m3u8", &FsEntry::Missing).unwrap();
    assert_eq!(r, "https://radio.example/live.m3u8");
    let r2 = resolve_token(
        "https://radio.example/live.m3u8",
        &FsEntry::Other { canonical: String::from("/dev/null") },
    )
    .unwrap();
    assert_eq!(r2, "https://radio.example/live.m3u8");
}

#[test]
fn local_file_resolves_to_its_canonical_path() {
    let entry = FsEntry::File { canonical: String::from("/tmp/music/song.mp3") };
    let r = resolve_token("song.mp3", &entry).unwrap();
    assert_eq!(r, "/tmp/music/song.mp3");
}

#[test]
fn local_file_with_unknown_extension_is_rejected() {
    let entry = FsEntry::File { canonical: String::from("/tmp/music/song.xyz") };
    let err = resolve_token("song.xyz", &entry).unwrap_err();
    let msg = err.message();
    assert!(msg.contains("song.xyz"));
    assert!(msg.contains("mp3"));
    assert!(msg.contains("flac"));
    assert!(msg.contains("m3u8"));
    match err {
        LaunchError::UnsupportedFileType { path, ext } => {
            assert_eq!(path, "/tmp/music/song.xyz");
            assert_eq!(ext.as_deref(), Some("xyz"));
        }
        other => panic!("wrong error: {:?}", other),
    }
}

#[test]
fn directories_are_accepted_without_extension_validation() {
    let entry = FsEntry::Dir { canonical: String::from("/home/me/Music") };
    let r = resolve_token("Music", &entry).unwrap();
    assert_eq!(r, "/home/me/Music");
}

#[test]
fn missing_and_odd_entries_give_their_errors() {
    let err = resolve_token("gone.mp3", &FsEntry::Missing).unwrap_err();
    assert_eq!(err.message(), "arliamp: path not found: gone.mp3");
    let err = resolve_token(
        "dev",
        &FsEntry::Other { canonical: String::from("/dev/null") },
    )
    .unwrap_err();
    assert_eq!(err.message(), "arliamp: unsupported path type: /dev/null");
}

#[test]
fn token_lists_resolve_in_order_and_stop_at_the_first_failure() {
    let tokens = vec![
        String::from("https://radio.example/a"),
        String::from("song.mp3"),
        String::from("Music"),
    ];
    let entries = vec![
        FsEntry::Missing,
        FsEntry::File { canonical: String::from("/abs/song.mp3") },
        FsEntry::Dir { canonical: String::from("/abs/Music") },
    ];
    let r = resolve_tokens(&tokens, &entries).unwrap();
    assert_eq!(r, vec!["https://radio.example/a", "/abs/song.mp3", "/abs/Music"]);

    let tokens = vec![String::from("bad.xyz"), String::from("song.mp3")];
    let entries = vec![
        FsEntry::File { canonical: String::from("/abs/bad.xyz") },
        FsEntry::File { canonical: String::from("/abs/song.mp3") },
    ];
    let err = resolve_tokens(&tokens, &entries).unwrap_err();
    assert!(err.message().contains("bad.xyz"));
}

#[test]
fn zero_tokens_resolve_to_the_empty_list() {
    let r = resolve_tokens(&Vec::new(), &Vec::new()).unwrap();
    assert!(r.is_empty());
}
