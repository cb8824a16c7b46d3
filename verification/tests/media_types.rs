use vibing_storage::media::{
    audio_type_of, download_headers, download_type_of, mime_type_of, offered_name,
    path_to_mime_type,
};

#[test]
fn audio_files_by_extension() {
    assert_eq!(path_to_mime_type("song.mp3"), "audio/mpeg");
    assert_eq!(path_to_mime_type("song.flac"), "audio/flac");
    assert_eq!(path_to_mime_type("song.wav"), "audio/wav");
    assert_eq!(path_to_mime_type("song.ogg"), "audio/ogg");
    assert_eq!(path_to_mime_type("song.m4a"), "audio/mp4");
}

#[test]
fn the_case_of_the_extension_does_not_matter() {
    assert_eq!(path_to_mime_type("SONG.MP3"), "audio/mpeg");
    assert_eq!(path_to_mime_type("song.Flac"), "audio/flac");
    assert_eq!(mime_type_of(Some("OGG")), "audio/ogg");
}

#[test]
fn unknown_and_missing_extensions() {
    assert_eq!(path_to_mime_type("song.txt"), "application/octet-stream");
    assert_eq!(path_to_mime_type("song"), "application/octet-stream");
    assert_eq!(path_to_mime_type(""), "application/octet-stream");
    assert_eq!(path_to_mime_type(".mp3"), "application/octet-stream");
    assert_eq!(mime_type_of(None), "application/octet-stream");
}

#[test]
fn only_the_last_extension_counts() {
    assert_eq!(path_to_mime_type("dir.mp3/song.wav"), "audio/wav");
    assert_eq!(path_to_mime_type("song.mp3.bak"), "application/octet-stream");
}

#[test]
fn lower_case_extensions_are_compared_exactly() {
    assert_eq!(audio_type_of("mp3"), "audio/mpeg");
    assert_eq!(audio_type_of("MP3"), "application/octet-stream");
    assert_eq!(audio_type_of("mp"), "application/octet-stream");
}

#[test]
fn downloads_by_extension() {
    assert_eq!(download_type_of(Some("txt")), "text/plain");
    assert_eq!(download_type_of(Some("pdf")), "application/pdf");
    assert_eq!(download_type_of(Some("jpg")), "image/jpeg");
    assert_eq!(download_type_of(Some("jpeg")), "image/jpeg");
    assert_eq!(download_type_of(Some("png")), "image/png");
    assert_eq!(download_type_of(Some("mp3")), "audio/mpeg");
    assert_eq!(download_type_of(Some("MP3")), "application/octet-stream");
    assert_eq!(download_type_of(Some("flac")), "application/octet-stream");
    assert_eq!(download_type_of(None), "application/octet-stream");
}

#[test]
fn a_download_is_offered_under_its_file_name() {
    assert_eq!(download_headers("music/a.mp3"), (String::from("a.mp3"), "audio/mpeg"));
    assert_eq!(download_headers("cover.png"), (String::from("cover.png"), "image/png"));
    assert_eq!(download_headers("notes"), (String::from("notes"), "application/octet-stream"));
    assert_eq!(download_headers(""), (String::from("unknown"), "application/octet-stream"));
    assert_eq!(download_headers(".."), (String::from("unknown"), "application/octet-stream"));
}

#[test]
fn a_download_without_a_file_name_is_offered_as_unknown() {
    assert_eq!(offered_name(Some(String::from("a.mp3"))), "a.mp3");
    assert_eq!(offered_name(Some(String::new())), "");
    assert_eq!(offered_name(None), "unknown");
}
