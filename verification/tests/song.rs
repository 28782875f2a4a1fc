use music_library::song::{frame_song_document, Song, SongDetails, TimeSpan};

fn details(name: &str, artist: Option<&str>) -> SongDetails {
    SongDetails::new(name, artist, None, None)
}

#[test]
fn time_span_from_secs_has_no_fraction() {
    let span = TimeSpan::from_secs(125);
    assert_eq!(span.as_secs(), 125);
    assert_eq!(span.subsec_nanos(), 0);
}

#[test]
fn time_span_new_keeps_both_parts() {
    let span = TimeSpan::new(7, 999_999_999).unwrap();
    assert_eq!(span.as_secs(), 7);
    assert_eq!(span.subsec_nanos(), 999_999_999);
}

#[test]
fn time_span_new_refuses_a_full_second_of_nanos() {
    assert_eq!(TimeSpan::new(7, 1_000_000_000), None);
    assert_eq!(TimeSpan::new(0, u32::MAX), None);
}

#[test]
fn new_details_hold_what_was_given() {
    let d = SongDetails::new("Song", Some("Artist"), Some(1999), Some(TimeSpan::from_secs(61)));
    assert_eq!(d.name(), "Song");
    assert_eq!(d.artist(), Some("Artist"));
    assert_eq!(d.year(), Some(1999));
    assert_eq!(d.duration(), Some(&TimeSpan::from_secs(61)));
}

#[test]
fn new_details_without_optional_parts() {
    let d = SongDetails::new("", None, None, None);
    assert_eq!(d.name(), "");
    assert_eq!(d.artist(), None);
    assert_eq!(d.year(), None);
    assert_eq!(d.duration(), None);
    assert_eq!(d.duration_str(), None);
}

#[test]
fn default_details_are_empty() {
    let d = SongDetails::default();
    assert_eq!(d.name(), "");
    assert_eq!(d.artist(), None);
    assert_eq!(d.year(), None);
    assert_eq!(d.duration(), None);
    assert!(d == SongDetails::new("", None, None, None));
}

#[test]
fn setters_change_one_part_each() {
    let mut d = SongDetails::new("Old", Some("Someone"), Some(1980), None);
    d.set_name("New");
    assert_eq!(d.name(), "New");
    assert_eq!(d.artist(), Some("Someone"));
    assert_eq!(d.year(), Some(1980));
    d.set_artist("Other");
    assert_eq!(d.name(), "New");
    assert_eq!(d.artist(), Some("Other"));
    d.set_year(2001);
    assert_eq!(d.year(), Some(2001));
    assert_eq!(d.duration(), None);
    d.set_duration(TimeSpan::from_secs(10));
    assert_eq!(d.duration(), Some(&TimeSpan::from_secs(10)));
    assert_eq!(d.name(), "New");
    assert_eq!(d.artist(), Some("Other"));
    assert_eq!(d.year(), Some(2001));
}

#[test]
fn empty_name_is_allowed() {
    let mut d = details("Song", None);
    d.set_name("");
    assert_eq!(d.name(), "");
}

#[test]
fn details_equality_is_structural() {
    let a = SongDetails::new("S", Some("A"), Some(1), Some(TimeSpan::from_secs(2)));
    let b = SongDetails::new("S", Some("A"), Some(1), Some(TimeSpan::from_secs(2)));
    assert!(a == b);
    assert!(a != SongDetails::new("T", Some("A"), Some(1), Some(TimeSpan::from_secs(2))));
    assert!(a != SongDetails::new("S", Some("B"), Some(1), Some(TimeSpan::from_secs(2))));
    assert!(a != SongDetails::new("S", None, Some(1), Some(TimeSpan::from_secs(2))));
    assert!(a != SongDetails::new("S", Some("A"), Some(2), Some(TimeSpan::from_secs(2))));
    assert!(a != SongDetails::new("S", Some("A"), None, Some(TimeSpan::from_secs(2))));
    assert!(a != SongDetails::new("S", Some("A"), Some(1), Some(TimeSpan::from_secs(3))));
    assert!(a != SongDetails::new("S", Some("A"), Some(1), TimeSpan::new(2, 1)));
    assert!(a != SongDetails::new("S", Some("A"), Some(1), None));
}

#[test]
fn details_clone_is_equal() {
    let a = SongDetails::new("S", Some("A"), Some(1), TimeSpan::new(2, 3));
    let b = a.clone();
    assert!(a == b);
    assert_eq!(b.duration(), TimeSpan::new(2, 3).as_ref());
}

#[test]
fn duration_str_under_an_hour() {
    let d = SongDetails::new("Song", None, None, Some(TimeSpan::from_secs(125)));
    assert_eq!(d.duration_str(), Some("02:05".to_string()));
}

#[test]
fn duration_str_over_an_hour() {
    let d = SongDetails::new("Song", None, None, Some(TimeSpan::from_secs(3725)));
    assert_eq!(d.duration_str(), Some("1:02:05".to_string()));
}

#[test]
fn duration_str_of_nothing_is_zero() {
    let d = SongDetails::new("Song", None, None, Some(TimeSpan::from_secs(0)));
    assert_eq!(d.duration_str(), Some("00:00".to_string()));
}

#[test]
fn duration_str_just_under_an_hour() {
    let d = SongDetails::new("Song", None, None, Some(TimeSpan::from_secs(3599)));
    assert_eq!(d.duration_str(), Some("59:59".to_string()));
}

#[test]
fn duration_str_at_an_hour() {
    let d = SongDetails::new("Song", None, None, Some(TimeSpan::from_secs(3600)));
    assert_eq!(d.duration_str(), Some("1:00:00".to_string()));
}

#[test]
fn duration_str_does_not_pad_hours() {
    let d = SongDetails::new("Song", None, None, Some(TimeSpan::from_secs(10 * 3600 + 9)));
    assert_eq!(d.duration_str(), Some("10:00:09".to_string()));
    let d = SongDetails::new("Song", None, None, Some(TimeSpan::from_secs(123 * 3600 + 60)));
    assert_eq!(d.duration_str(), Some("123:01:00".to_string()));
}

#[test]
fn duration_str_of_the_longest_span() {
    let d = SongDetails::new("Song", None, None, Some(TimeSpan::from_secs(u64::MAX)));
    assert_eq!(d.duration_str(), Some("5124095576030431:00:15".to_string()));
}

#[test]
fn duration_str_ignores_the_fraction() {
    let d = SongDetails::new("Song", None, None, TimeSpan::new(59, 999_999_999));
    assert_eq!(d.duration_str(), Some("00:59".to_string()));
}

#[test]
fn details_load_of_a_failed_read_is_the_default() {
    let d = SongDetails::load(None);
    assert!(d == SongDetails::default());
    assert_eq!(d.name(), "");
    assert_eq!(d.artist(), None);
    assert_eq!(d.year(), None);
    assert_eq!(d.duration(), None);
}

#[test]
fn details_load_keeps_what_was_read() {
    let read = SongDetails::new("S", Some("A"), Some(1), Some(TimeSpan::from_secs(2)));
    let d = SongDetails::load(Some(read.clone()));
    assert!(d == read);
}

#[test]
fn new_song_holds_what_was_given() {
    let song = Song::new("/music/a.mp3", "/meta/a.json", details("A", Some("X")));
    assert_eq!(song.path(), "/music/a.mp3");
    assert_eq!(song.details_path(), "/meta/a.json");
    assert!(*song.details() == details("A", Some("X")));
}

#[test]
fn default_song_is_empty() {
    let song = Song::default();
    assert_eq!(song.path(), "");
    assert_eq!(song.details_path(), "");
    assert!(*song.details() == SongDetails::default());
}

#[test]
fn songs_with_the_same_path_are_equal() {
    let a = Song::new("/music/a.mp3", "/meta/a.json", details("A", Some("X")));
    let b = Song::new("/music/a.mp3", "/meta/other.json", SongDetails::default());
    assert!(a == b);
    assert!(b == a);
}

#[test]
fn songs_with_different_paths_differ() {
    let a = Song::new("/music/a.mp3", "/meta/a.json", details("A", Some("X")));
    let b = Song::new("/music/b.mp3", "/meta/a.json", details("A", Some("X")));
    assert!(a != b);
}

#[test]
fn song_clone_keeps_everything() {
    let a = Song::new("/music/a.mp3", "/meta/a.json", details("A", Some("X")));
    let b = a.clone();
    assert_eq!(b.path(), "/music/a.mp3");
    assert_eq!(b.details_path(), "/meta/a.json");
    assert!(*b.details() == details("A", Some("X")));
}

#[test]
fn details_mut_changes_the_song_in_place() {
    let mut song = Song::new("/music/a.mp3", "/meta/a.json", details("A", None));
    song.details_mut().set_artist("X");
    song.details_mut().set_year(2020);
    assert_eq!(song.details().artist(), Some("X"));
    assert_eq!(song.details().year(), Some(2020));
    assert_eq!(song.details().name(), "A");
    assert_eq!(song.path(), "/music/a.mp3");
    assert_eq!(song.details_path(), "/meta/a.json");
}

#[test]
fn song_load_takes_the_details_that_were_read() {
    let raw = Song::new("/music/a.mp3", "/meta/a.json", SongDetails::default());
    let song = raw.load(Some(details("A", Some("X"))));
    assert_eq!(song.path(), "/music/a.mp3");
    assert_eq!(song.details_path(), "/meta/a.json");
    assert!(*song.details() == details("A", Some("X")));
}

#[test]
fn song_load_of_a_failed_read_gives_default_details() {
    let raw = Song::new("/music/a.mp3", "/meta/a.json", details("Stale", Some("X")));
    let song = raw.load(None);
    assert_eq!(song.path(), "/music/a.mp3");
    assert_eq!(song.details_path(), "/meta/a.json");
    assert!(*song.details() == SongDetails::default());
}

#[test]
fn song_load_twice_is_load_once() {
    let raw = Song::new("/music/a.mp3", "/meta/a.json", SongDetails::default());
    let once = raw.clone().load(Some(details("A", None)));
    let twice = raw.load(Some(details("A", None))).load(Some(details("A", None)));
    assert_eq!(once.path(), twice.path());
    assert_eq!(once.details_path(), twice.details_path());
    assert!(*once.details() == *twice.details());
}

#[test]
fn song_document_holds_the_two_paths_only() {
    let song = Song::new("/music/a.mp3", "/meta/a.json", details("A", Some("X")));
    assert_eq!(
        song.to_json_str(),
        "{\"path\":\"/music/a.mp3\",\"details_path\":\"/meta/a.json\"}"
    );
}

#[test]
fn song_document_escapes_what_json_must_escape() {
    let song = Song::new("a \"b\"\\c\n", "d\te", SongDetails::default());
    assert_eq!(
        song.to_json_str(),
        "{\"path\":\"a \\\"b\\\"\\\\c\\n\",\"details_path\":\"d\\te\"}"
    );
}

#[test]
fn song_document_reads_back_as_json() {
    let song = Song::new("/músic/\"a\".mp3", "/meta/\u{1}a.json", details("A", Some("X")));
    let value: serde_json::Value = serde_json::from_str(&song.to_json_str()).unwrap();
    let object = value.as_object().unwrap();
    assert_eq!(object.len(), 2);
    assert_eq!(object.get("path").and_then(|v| v.as_str()), Some("/músic/\"a\".mp3"));
    assert_eq!(object.get("details_path").and_then(|v| v.as_str()), Some("/meta/\u{1}a.json"));
    let keys: Vec<&String> = object.keys().collect();
    assert_eq!(keys, vec!["details_path", "path"]);
}

#[test]
fn framing_puts_the_parts_in_their_places() {
    assert_eq!(frame_song_document("1", "2"), "{\"path\":1,\"details_path\":2}");
    assert_eq!(frame_song_document("", ""), "{\"path\":,\"details_path\":}");
}

#[test]
fn details_order_goes_by_name_first() {
    let a = SongDetails::new("a", Some("z"), Some(9), Some(TimeSpan::from_secs(9)));
    let b = SongDetails::new("b", None, None, None);
    assert!(a < b);
    assert!(b > a);
    assert_eq!(a.partial_cmp(&b), Some(std::cmp::Ordering::Less));
    assert_eq!(b.partial_cmp(&a), Some(std::cmp::Ordering::Greater));
}

#[test]
fn details_order_of_equal_details_is_equal() {
    let a = SongDetails::new("a", Some("z"), Some(9), TimeSpan::new(9, 1));
    let b = SongDetails::new("a", Some("z"), Some(9), TimeSpan::new(9, 1));
    assert_eq!(a.partial_cmp(&b), Some(std::cmp::Ordering::Equal));
    assert!(a <= b && a >= b);
}

#[test]
fn details_order_then_goes_by_artist_year_and_duration() {
    let base = SongDetails::new("a", Some("m"), Some(5), Some(TimeSpan::from_secs(5)));
    assert!(SongDetails::new("a", None, Some(9), None) < base);
    assert!(SongDetails::new("a", Some("l"), Some(9), None) < base);
    assert!(SongDetails::new("a", Some("n"), None, None) > base);
    assert!(SongDetails::new("a", Some("m"), None, Some(TimeSpan::from_secs(9))) < base);
    assert!(SongDetails::new("a", Some("m"), Some(4), Some(TimeSpan::from_secs(9))) < base);
    assert!(SongDetails::new("a", Some("m"), Some(6), None) > base);
    assert!(SongDetails::new("a", Some("m"), Some(5), None) < base);
    assert!(SongDetails::new("a", Some("m"), Some(5), Some(TimeSpan::from_secs(4))) < base);
    assert!(SongDetails::new("a", Some("m"), Some(5), TimeSpan::new(5, 1)) > base);
    assert!(SongDetails::new("a", Some("m"), Some(5), TimeSpan::new(4, 999_999_999)) < base);
}

#[test]
fn texts_are_ordered_by_their_characters() {
    let named = |name: &str| SongDetails::new(name, None, None, None);
    assert!(named("") < named("a"));
    assert!(named("ab") < named("abc"));
    assert!(named("abd") > named("abc"));
    assert!(named("Z") < named("a"));
    assert!(named("z") < named("é"));
    assert!(named("é") < named("日本"));
    assert!(named("\u{ffff}") < named("\u{10000}"));
}

#[test]
fn song_order_looks_at_the_whole_song() {
    let song = |path: &str, details_path: &str, name: &str| {
        Song::new(path, details_path, SongDetails::new(name, None, None, None))
    };
    assert!(song("a", "z", "z") < song("b", "a", "a"));
    assert!(song("a", "m", "z") < song("a", "n", "a"));
    assert!(song("a", "m", "x") < song("a", "m", "y"));
    assert_eq!(
        song("a", "m", "x").partial_cmp(&song("a", "m", "x")),
        Some(std::cmp::Ordering::Equal)
    );
    assert!(song("a", "m", "x") == song("a", "n", "y"));
    assert!(song("a", "m", "x") < song("a", "n", "y"));
}
