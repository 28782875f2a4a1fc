//! A personal music library: songs and their descriptive details, ordered
//! playlists, a cursor-based playback queue, and the manager that owns the
//! playlists.
//!
//! The library keeps everything in memory. Each song's details and each
//! playlist live in a document of their own on disk; the functions at the
//! root of the crate say under which file name.

use crate::playlist_manager::playlist::Playlist;
use crate::song::Song;
use vstd::prelude::*;

pub mod playlist_manager;
pub mod order;
pub mod queue;
pub mod song;
pub mod text;

verus! {

/// What `sanitise_file_name::sanitise` makes of `name`: `name` without what
/// a file system would not take in a file name.
pub uninterp spec fn sanitised(name: Seq<char>) -> Seq<char>;

/// `sanitise_file_name::sanitise`, with its default options. The result
/// depends on the name alone.
pub assume_specification[ sanitise_file_name::sanitise ](name: &str) -> (clean: String)
    ensures
        clean@ == sanitised(name@),
;

/// What `str::to_lowercase` makes of `text`: its lowercase form by the
/// rules of Unicode, which know no locale.
pub uninterp spec fn lowercased(text: Seq<char>) -> Seq<char>;

/// `str::to_lowercase` of the standard library. The result depends on the
/// text alone.
pub assume_specification[ str::to_lowercase ](text: &str) -> (lower: String)
    ensures
        lower@ == lowercased(text@),
;

/// `text` with an underscore in place of every space.
pub open spec fn underscored(text: Seq<char>) -> Seq<char> {
    text.map_values(
        |c: char|
            if c == ' ' {
                '_'
            } else {
                c
            },
    )
}

/// `text` with an underscore in place of every space.
pub fn underscore_spaces(text: &str) -> (result: String)
    ensures
        result@ == underscored(text@),
{
    let mut result = String::new();
    for c in chars: text.chars()
        invariant
            chars.seq() == text@,
            result@ == underscored(text@.take(chars.index() as int)),
    {
        result.push(
            if c == ' ' {
                '_'
            } else {
                c
            },
        );
        assert(text@.take(chars.index() + 1) == text@.take(chars.index() as int).push(c));
    }
    assert(text@.take(text@.len() as int) == text@);
    result
}

/// A song's name and artist with two hyphens between them.
pub open spec fn name_and_artist(name: Seq<char>, artist: Seq<char>) -> Seq<char> {
    name + "--"@ + artist
}

/// A song's name and artist with two hyphens between them.
pub fn join_name_and_artist(name: &str, artist: &str) -> (joined: String)
    ensures
        joined@ == name_and_artist(name@, artist@),
{
    let mut joined = name.to_owned();
    joined.append("--");
    joined.append(artist);
    joined
}

/// `stem` with the ending of a JSON document behind it.
pub open spec fn json_file(stem: Seq<char>) -> Seq<char> {
    stem + ".json"@
}

/// `stem` with the ending of a JSON document behind it.
pub fn with_json_ending(stem: &str) -> (file_name: String)
    ensures
        file_name@ == json_file(stem@),
{
    let mut file_name = stem.to_owned();
    file_name.append(".json");
    file_name
}

/// The file name of the document that holds the details of a song with
/// this name and this artist.
///
/// Name and artist are sanitised, each by itself, and joined by two
/// hyphens. The whole is put in lowercase, spaces become underscores, and
/// `.json` follows.
pub open spec fn song_file_name(name: Seq<char>, artist: Seq<char>) -> Seq<char> {
    json_file(underscored(lowercased(name_and_artist(sanitised(name), sanitised(artist)))))
}

/// The file name of the document that holds a playlist with this name.
///
/// The name is sanitised and `.json` follows. The whole is put in
/// lowercase, and spaces become underscores.
pub open spec fn playlist_file_name(name: Seq<char>) -> Seq<char> {
    underscored(lowercased(json_file(sanitised(name))))
}

/// The artist that stands in a file name: the song's artist, or the empty
/// text for a song without one.
pub open spec fn artist_or_empty(artist: Option<Seq<char>>) -> Seq<char> {
    match artist {
        Some(artist) => artist,
        None => Seq::empty(),
    }
}

/// The file name of the document that holds the details of `song`: see
/// [`song_file_name`]. A song without an artist counts as one with an
/// empty artist.
pub fn file_name_from_song(song: &Song) -> (file_name: String)
    ensures
        file_name@ == song_file_name(
            song@.details.name,
            artist_or_empty(song@.details.artist),
        ),
{
    let details = song.details();
    match details.artist() {
        Some(artist) => file_name_from_basics(details.name(), artist),
        None => {
            proof {
                reveal_strlit("");
            }
            assert(""@ =~= Seq::<char>::empty());
            file_name_from_basics(details.name(), "")
        },
    }
}

/// The file name of the document that holds the details of a song called
/// `song_name` by `song_artist`: see [`song_file_name`].
pub fn file_name_from_basics(song_name: &str, song_artist: &str) -> (file_name: String)
    ensures
        file_name@ == song_file_name(song_name@, song_artist@),
{
    let name = sanitise_file_name::sanitise(song_name);
    let artist = sanitise_file_name::sanitise(song_artist);
    let joined = join_name_and_artist(name.as_str(), artist.as_str());
    let lower = joined.as_str().to_lowercase();
    let spaceless = underscore_spaces(lower.as_str());
    with_json_ending(spaceless.as_str())
}

/// The file name of the document that holds `playlist`: see
/// [`playlist_file_name`].
pub fn file_name_from_playlist(playlist: &Playlist) -> (file_name: String)
    ensures
        file_name@ == playlist_file_name(playlist@.name),
{
    let name = sanitise_file_name::sanitise(playlist.name());
    let file_name = with_json_ending(name.as_str());
    let lower = file_name.as_str().to_lowercase();
    underscore_spaces(lower.as_str())
}

} // verus!
