use chrono::{NaiveDate, NaiveDateTime};
use music_library::playlist_manager::Playlist;
use music_library::song::{Song, SongDetails};

fn date() -> NaiveDateTime {
    NaiveDate::from_ymd_opt(2024, 1, 2).unwrap().and_hms_opt(3, 4, 5).unwrap()
}

fn song(path: &str) -> Song {
    Song::new(path, &format!("{}.json", path), SongDetails::new(path, None, None, None))
}

fn paths(playlist: &Playlist) -> Vec<String> {
    playlist.songs().iter().map(|s| s.path().to_string()).collect()
}

#[test]
fn new_playlist_is_empty() {
    let playlist = Playlist::new("Road trip", date());
    assert_eq!(playlist.name(), "Road trip");
    assert_eq!(*playlist.creation_date(), date());
    assert!(playlist.songs().is_empty());
}

#[test]
fn add_appends_in_order_and_allows_repeats() {
    let mut playlist = Playlist::new("p", date());
    playlist.add(song("A"));
    playlist.add(song("B"));
    playlist.add(song("A"));
    assert_eq!(paths(&playlist), vec!["A", "B", "A"]);
    assert_eq!(playlist.name(), "p");
    assert_eq!(*playlist.creation_date(), date());
}

#[test]
fn add_unique_appends_a_new_song() {
    let mut playlist = Playlist::new("p", date());
    playlist.add_unique(song("A"));
    playlist.add_unique(song("B"));
    assert_eq!(paths(&playlist), vec!["A", "B"]);
}

#[test]
fn add_unique_twice_leaves_the_length() {
    let mut playlist = Playlist::new("p", date());
    playlist.add(song("A"));
    playlist.add_unique(song("B"));
    assert_eq!(playlist.songs().len(), 2);
    playlist.add_unique(song("B"));
    assert_eq!(playlist.songs().len(), 2);
    assert_eq!(paths(&playlist), vec!["A", "B"]);
}

#[test]
fn add_unique_goes_by_path_not_by_details() {
    let mut playlist = Playlist::new("p", date());
    playlist.add_unique(Song::new("A", "a.json", SongDetails::new("first", None, None, None)));
    playlist.add_unique(Song::new("A", "b.json", SongDetails::new("second", None, None, None)));
    assert_eq!(playlist.songs().len(), 1);
    assert_eq!(playlist.songs()[0].details().name(), "first");
    assert_eq!(playlist.songs()[0].details_path(), "a.json");
}

#[test]
fn remove_takes_the_song_out() {
    let mut playlist = Playlist::new("p", date());
    playlist.add(song("A"));
    playlist.add(song("B"));
    playlist.add(song("C"));
    playlist.remove(&song("B"));
    assert_eq!(paths(&playlist), vec!["A", "C"]);
    assert_eq!(playlist.name(), "p");
    assert_eq!(*playlist.creation_date(), date());
}

#[test]
fn remove_of_an_absent_song_changes_nothing() {
    let mut playlist = Playlist::new("p", date());
    playlist.add(song("A"));
    playlist.add(song("B"));
    playlist.remove(&song("Z"));
    assert_eq!(playlist.songs().len(), 2);
    assert_eq!(paths(&playlist), vec!["A", "B"]);
}

#[test]
fn remove_from_an_empty_playlist_changes_nothing() {
    let mut playlist = Playlist::new("p", date());
    playlist.remove(&song("A"));
    assert!(playlist.songs().is_empty());
}

#[test]
fn remove_takes_only_the_first_of_several() {
    let mut playlist = Playlist::new("p", date());
    playlist.add(Song::new("A", "1", SongDetails::new("one", None, None, None)));
    playlist.add(song("B"));
    playlist.add(Song::new("A", "2", SongDetails::new("two", None, None, None)));
    playlist.remove(&song("A"));
    assert_eq!(paths(&playlist), vec!["B", "A"]);
    assert_eq!(playlist.songs()[1].details().name(), "two");
}

#[test]
fn songs_mut_changes_the_playlist_in_place() {
    let mut playlist = Playlist::new("p", date());
    playlist.add(song("A"));
    playlist.songs_mut().push(song("B"));
    playlist.songs_mut().swap(0, 1);
    assert_eq!(paths(&playlist), vec!["B", "A"]);
    assert_eq!(playlist.name(), "p");
}

#[test]
fn load_hydrates_every_song() {
    let raw = |path: &str| Song::new(path, &format!("{}.json", path), SongDetails::default());
    let playlist = Playlist::load(
        "Loaded",
        date(),
        vec![
            (raw("A"), Some(SongDetails::new("Song A", Some("X"), Some(2000), None))),
            (raw("B"), None),
            (raw("C"), Some(SongDetails::new("Song C", None, None, None))),
        ],
    );
    assert_eq!(playlist.name(), "Loaded");
    assert_eq!(*playlist.creation_date(), date());
    assert_eq!(paths(&playlist), vec!["A", "B", "C"]);
    assert_eq!(playlist.songs()[0].details().name(), "Song A");
    assert_eq!(playlist.songs()[0].details().artist(), Some("X"));
    assert_eq!(playlist.songs()[0].details_path(), "A.json");
    assert!(*playlist.songs()[1].details() == SongDetails::default());
    assert_eq!(playlist.songs()[2].details().name(), "Song C");
}

#[test]
fn load_of_no_songs_is_an_empty_playlist() {
    let playlist = Playlist::load("Empty", date(), vec![]);
    assert_eq!(playlist.name(), "Empty");
    assert!(playlist.songs().is_empty());
}
