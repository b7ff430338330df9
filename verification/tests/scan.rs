use joujou::audio::{AudioFile, ContainerKind};
use joujou::scan::{
    classify_path, cover_score, dir_to_playlist, is_hidden_name, path_extension, path_file_stem,
    select_cover, sort_entries, CoverFile, CoverKind, FileKind, Playlist, PlaylistError,
};

fn audio(path: &str) -> AudioFile {
    AudioFile { path: path.to_owned(), kind: ContainerKind::Flac, metadata: None, visual: None }
}

fn cover(path: &str) -> CoverFile {
    CoverFile { path: path.to_owned(), mime_type: "image/jpeg" }
}

#[test]
fn cover_kind_from_ext() {
    assert_eq!(CoverKind::from_ext("jpeg"), Some(CoverKind::Jpeg));
    assert_eq!(CoverKind::from_ext("jpg"), Some(CoverKind::Jpeg));
    assert_eq!(CoverKind::from_ext("png"), Some(CoverKind::Png));
    assert_eq!(CoverKind::from_ext("gif"), None);
    // from_ext expects the extension already lowercased.
    assert_eq!(CoverKind::from_ext("PNG"), None);
}

#[test]
fn cover_mime_types() {
    assert_eq!(CoverKind::Jpeg.mime_type(), "image/jpeg");
    assert_eq!(CoverKind::Png.mime_type(), "image/png");
}

#[test]
fn path_parts() {
    assert_eq!(path_extension("/music/album/01 track.flac"), Some("flac"));
    assert_eq!(path_extension("/music/album/cover"), None);
    assert_eq!(path_extension("/music/al.bum/cover"), None);
    assert_eq!(path_extension("/music/album/.hidden"), None);
    assert_eq!(path_file_stem("/music/album/01 track.flac"), "01 track");
    assert_eq!(path_file_stem("/music/album/cover"), "cover");
}

#[test]
fn classification_is_case_insensitive() {
    assert_eq!(
        classify_path("/m/a/track.FLAC"),
        FileKind::Audio(ContainerKind::Flac)
    );
    assert_eq!(classify_path("/m/a/Cover.JPG"), FileKind::Cover(CoverKind::Jpeg));
    assert_eq!(classify_path("/m/a/notes.txt"), FileKind::Other);
    assert_eq!(classify_path("/m/a/track.opus"), FileKind::Audio(ContainerKind::Ogg));
    assert_eq!(classify_path("/m/a/track.m4a"), FileKind::Audio(ContainerKind::Mp4));
    assert_eq!(classify_path("/m/a/track.mka"), FileKind::Audio(ContainerKind::Matroska));
    assert_eq!(classify_path("/m/a/track.mp3"), FileKind::Audio(ContainerKind::Mp3));
}

#[test]
fn hidden_names() {
    assert!(is_hidden_name(b".thumbnails"));
    assert!(!is_hidden_name(b"music"));
    assert!(!is_hidden_name(b""));
}

#[test]
fn cover_scores_rank_known_stems() {
    assert_eq!(cover_score("/a/Cover.jpg"), 0);
    assert_eq!(cover_score("/a/front.png"), 1);
    assert_eq!(cover_score("/a/00 - Cover.jpg"), 2);
    assert_eq!(cover_score("/a/Front Cover.jpg"), 3);
    assert_eq!(cover_score("/a/scan3.jpg"), usize::MAX);
}

#[test]
fn first_cover_wins_unless_better() {
    let picked = select_cover(vec![cover("/a/scan.jpg"), cover("/a/other.jpg")])
        .expect("one is picked");
    assert_eq!(picked.path, "/a/scan.jpg");
    let picked = select_cover(vec![cover("/a/scan.jpg"), cover("/a/front.jpg")])
        .expect("one is picked");
    assert_eq!(picked.path, "/a/front.jpg");
    let picked = select_cover(vec![cover("/a/front.jpg"), cover("/a/cover.jpg")])
        .expect("one is picked");
    assert_eq!(picked.path, "/a/cover.jpg");
    assert!(select_cover(Vec::new()).is_none());
}

#[test]
fn entries_sort_naturally() {
    let sorted = sort_entries(vec![
        audio("/m/rfc2086.txt.flac"),
        audio("/m/rfc822.txt.flac"),
        audio("/m/rfc1.txt.flac"),
    ]);
    let paths: Vec<&str> = sorted.iter().map(|e| e.path.as_str()).collect();
    assert_eq!(
        paths,
        vec!["/m/rfc1.txt.flac", "/m/rfc822.txt.flac", "/m/rfc2086.txt.flac"]
    );
}

#[test]
fn sorting_keeps_every_entry() {
    let sorted = sort_entries(vec![audio("/m/b.flac"), audio("/m/a.flac"), audio("/m/a.flac")]);
    let paths: Vec<&str> = sorted.iter().map(|e| e.path.as_str()).collect();
    assert_eq!(paths, vec!["/m/a.flac", "/m/a.flac", "/m/b.flac"]);
}

#[test]
fn playlist_assembly() {
    let playlist = dir_to_playlist(
        vec![audio("/m/02.flac"), audio("/m/01.flac")],
        vec![cover("/m/cover.jpg")],
    );
    assert_eq!(playlist.cover.expect("cover picked").path, "/m/cover.jpg");
    let paths: Vec<&str> = playlist.entries.iter().map(|e| e.path.as_str()).collect();
    assert_eq!(paths, vec!["/m/01.flac", "/m/02.flac"]);
}

#[test]
fn start_index_bounds() {
    let playlist = Playlist {
        cover: None,
        entries: vec![audio("/m/01.flac"), audio("/m/02.flac")],
    };
    assert_eq!(playlist.start_index(1), Ok(0));
    assert_eq!(playlist.start_index(2), Ok(1));
    assert_eq!(playlist.start_index(3), Err(PlaylistError::StartIndexOutOfRange));
    let empty = Playlist { cover: None, entries: Vec::new() };
    assert_eq!(empty.start_index(1), Err(PlaylistError::StartIndexOutOfRange));
}
