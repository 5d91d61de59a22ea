use stim::load_album_and_track_lists::{
    create_album_list, get_track_metadata, is_supported_extension, run, track_with_defaults,
    Track, TrackTags,
};

fn piece(artist: &str, album: &str, name: &str, number: i32) -> Track {
    Track::new(
        artist.to_string(),
        name.to_string(),
        number,
        format!("/lib/{}.mp3", name),
        album.to_string(),
        30,
    )
}

fn titles(tracks: &[Track]) -> Vec<String> {
    tracks.iter().map(|t| t.track_name.clone()).collect()
}

#[test]
fn new_track_is_neither_queued_nor_playing() {
    let track = Track::new(
        "Artist".to_string(),
        "Title".to_string(),
        4,
        "/p.wav".to_string(),
        "Album".to_string(),
        222,
    );
    assert_eq!(track.artist, "Artist");
    assert_eq!(track.track_name, "Title");
    assert_eq!(track.track_num, 4);
    assert_eq!(track.path, "/p.wav");
    assert_eq!(track.album, "Album");
    assert_eq!(track.length, 222);
    assert!(!track.in_queue);
    assert!(!track.currently_playing);
    let copy = track.clone();
    assert_eq!(copy.track_name, "Title");
    assert_eq!(copy.track_num, 4);
    assert_eq!(copy.path, "/p.wav");
}

#[test]
fn albums_group_tracks_by_artist_and_title() {
    let tracks = vec![
        piece("A", "One", "a3", 3),
        piece("B", "One", "b1", 1),
        piece("A", "One", "a1", 1),
        piece("A", "Two", "t2", 2),
        piece("A", "One", "a2", 2),
        piece("B", "One", "b0", 0),
        piece("A", "Two", "t1", 1),
    ];
    let albums = create_album_list(tracks);
    assert_eq!(albums.len(), 3);
    assert_eq!((albums[0].artist.as_str(), albums[0].name.as_str()), ("A", "One"));
    assert_eq!((albums[1].artist.as_str(), albums[1].name.as_str()), ("B", "One"));
    assert_eq!((albums[2].artist.as_str(), albums[2].name.as_str()), ("A", "Two"));
    assert_eq!(titles(&albums[0].tracks), vec!["a1", "a2", "a3"]);
    assert_eq!(titles(&albums[1].tracks), vec!["b0", "b1"]);
    assert_eq!(titles(&albums[2].tracks), vec!["t1", "t2"]);
}

#[test]
fn tracks_of_one_number_keep_their_order() {
    let tracks = vec![
        piece("A", "One", "x", 2),
        piece("A", "One", "y", 1),
        piece("A", "One", "z", 2),
        piece("A", "One", "w", 1),
        piece("A", "One", "v", -1),
    ];
    let albums = create_album_list(tracks);
    assert_eq!(albums.len(), 1);
    assert_eq!(titles(&albums[0].tracks), vec!["v", "y", "w", "x", "z"]);
}

#[test]
fn no_tracks_give_no_albums() {
    assert!(create_album_list(Vec::new()).is_empty());
    let (tracks, albums) = run(Vec::new());
    assert!(tracks.is_empty());
    assert!(albums.is_empty());
}

#[test]
fn run_returns_tracks_and_albums() {
    let (tracks, albums) = run(vec![
        piece("A", "One", "a2", 2),
        piece("B", "Two", "b1", 1),
        piece("A", "One", "a1", 1),
    ]);
    assert_eq!(titles(&tracks), vec!["a2", "b1", "a1"]);
    assert_eq!(albums.len(), 2);
    assert_eq!(albums[0].name, "One");
    assert_eq!(titles(&albums[0].tracks), vec!["a1", "a2"]);
    assert_eq!(albums[1].artist, "B");
    assert_eq!(titles(&albums[1].tracks), vec!["b1"]);
}

#[test]
fn metadata_takes_what_the_tags_hold() {
    let tags = TrackTags {
        title: Some("Song".to_string()),
        number: Some("7".to_string()),
        artist: Some("Band".to_string()),
        album: Some("Record".to_string()),
    };
    let track = get_track_metadata("/lib/song.flac", tags, 245);
    assert_eq!(track.track_name, "Song");
    assert_eq!(track.track_num, 7);
    assert_eq!(track.artist, "Band");
    assert_eq!(track.album, "Record");
    assert_eq!(track.path, "/lib/song.flac");
    assert_eq!(track.length, 245);
    assert!(!track.in_queue);
    assert!(!track.currently_playing);
}

#[test]
fn metadata_falls_back_where_tags_are_missing() {
    let tags = TrackTags { title: None, number: None, artist: None, album: None };
    let track = get_track_metadata("/lib/x.wav", tags, 0);
    assert_eq!(track.track_name, "Unknown Title");
    assert_eq!(track.artist, "Unknown Artist");
    assert_eq!(track.album, "Unknown Album");
    assert_eq!(track.track_num, 0);
    assert_eq!(track.path, "/lib/x.wav");
}

fn number_of(text: &str) -> i32 {
    let tags = TrackTags { title: None, number: Some(text.to_string()), artist: None, album: None };
    get_track_metadata("/p", tags, 0).track_num
}

#[test]
fn track_number_is_read_as_a_number() {
    assert_eq!(number_of("12"), 12);
    assert_eq!(number_of("+5"), 5);
    assert_eq!(number_of("-3"), -3);
    assert_eq!(number_of("007"), 7);
    assert_eq!(number_of("2147483647"), 2147483647);
    assert_eq!(number_of("2147483648"), 0);
    assert_eq!(number_of("3/12"), 0);
    assert_eq!(number_of(" 7"), 0);
    assert_eq!(number_of(""), 0);
    assert_eq!(number_of("seven"), 0);
}

#[test]
fn track_with_defaults_uses_the_given_number() {
    let track = track_with_defaults("/a.mp3", None, Some(9), Some("Who".to_string()), None, 12);
    assert_eq!(track.track_num, 9);
    assert_eq!(track.artist, "Who");
    assert_eq!(track.track_name, "Unknown Title");
    assert_eq!(track.album, "Unknown Album");
    assert_eq!(track.length, 12);
    let track = track_with_defaults("/a.mp3", Some("T".to_string()), None, None, None, 0);
    assert_eq!(track.track_num, 0);
    assert_eq!(track.track_name, "T");
}

#[test]
fn supported_extensions_are_wav_mp3_flac() {
    assert!(is_supported_extension("wav"));
    assert!(is_supported_extension("mp3"));
    assert!(is_supported_extension("flac"));
    assert!(!is_supported_extension("MP3"));
    assert!(!is_supported_extension("ogg"));
    assert!(!is_supported_extension(""));
    assert!(!is_supported_extension("flac "));
    assert!(!is_supported_extension("mp"));
}
