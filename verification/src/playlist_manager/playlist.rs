//! A named, ordered collection of songs.

use crate::song::{
    document_view, hydrated, lemma_song_views_push, lemma_song_views_remove, song_views, Song,
    SongDetails, SongView,
};
use chrono::NaiveDateTime;
use vstd::prelude::*;

verus! {

/// `chrono::NaiveDateTime`: a date and a time of day without a time zone,
/// here always read as UTC. Its content is not modelled: a playlist only
/// carries its creation date along.
#[verifier::external_type_specification]
#[verifier::external_body]
pub struct ExNaiveDateTime(chrono::NaiveDateTime);

/// Mathematical value of a [`Playlist`].
pub struct PlaylistView {
    pub name: Seq<char>,
    pub creation_date: NaiveDateTime,
    pub songs: Seq<SongView>,
}

/// Whether some song of `songs` is at `path`.
pub open spec fn has_path(songs: Seq<SongView>, path: Seq<char>) -> bool {
    exists|i: int| 0 <= i < songs.len() && (#[trigger] songs[i]).path == path
}

/// Whether `i` is the place of the first song of `songs` that is at `path`.
pub open spec fn is_first_at(songs: Seq<SongView>, path: Seq<char>, i: int) -> bool {
    &&& 0 <= i < songs.len()
    &&& songs[i].path == path
    &&& forall|j: int| 0 <= j < i ==> (#[trigger] songs[j]).path != path
}

/// Whether no two songs of `songs` are at the same path.
pub open spec fn no_path_twice(songs: Seq<SongView>) -> bool {
    forall|i: int, j: int|
        0 <= i < j < songs.len() ==> (#[trigger] songs[i]).path != (#[trigger] songs[j]).path
}

/// `songs` after `song` was added unless a song at the same path was
/// already there.
pub open spec fn added_unique(songs: Seq<SongView>, song: SongView) -> Seq<SongView> {
    if has_path(songs, song.path) {
        songs
    } else {
        songs.push(song)
    }
}

/// Adding a song a second time, or another song at the same path, changes
/// nothing: the songs stay as the first addition left them, and so does
/// their number.
pub proof fn lemma_add_unique_twice(songs: Seq<SongView>, first: SongView, second: SongView)
    requires
        first.path == second.path,
    ensures
        added_unique(added_unique(songs, first), second) == added_unique(songs, first),
        added_unique(added_unique(songs, first), second).len() == added_unique(songs, first).len(),
{
    let once = added_unique(songs, first);
    if has_path(songs, first.path) {
        assert(once == songs);
    } else {
        assert(once[songs.len() as int].path == second.path);
    }
    assert(has_path(once, second.path));
}

/// After a song was added, a song at its path is there; and where no path
/// was there twice before, none is there twice after.
pub proof fn lemma_add_unique_keeps_paths_apart(songs: Seq<SongView>, song: SongView)
    requires
        no_path_twice(songs),
    ensures
        has_path(added_unique(songs, song), song.path),
        no_path_twice(added_unique(songs, song)),
{
    let after = added_unique(songs, song);
    if !has_path(songs, song.path) {
        assert(after[songs.len() as int].path == song.path);
        assert forall|i: int, j: int| 0 <= i < j < after.len() implies (#[trigger] after[i]).path
            != (#[trigger] after[j]).path by {
            assert(after[i] == songs[i]);
            if j < songs.len() {
                assert(after[j] == songs[j]);
            }
        }
    }
}

/// Where no path is there twice, taking out the song at a path leaves no
/// song at that path, and still no path twice.
pub proof fn lemma_remove_leaves_no_song_at_path(songs: Seq<SongView>, path: Seq<char>, i: int)
    requires
        no_path_twice(songs),
        is_first_at(songs, path, i),
    ensures
        !has_path(songs.remove(i), path),
        no_path_twice(songs.remove(i)),
{
    let after = songs.remove(i);
    assert forall|k: int| 0 <= k < after.len() implies (#[trigger] after[k]).path != path by {
        if k < i {
            assert(after[k] == songs[k]);
        } else {
            assert(after[k] == songs[k + 1]);
        }
    }
    assert forall|k: int, l: int| 0 <= k < l < after.len() implies (#[trigger] after[k]).path
        != (#[trigger] after[l]).path by {
        let from_k = if k < i {
            k
        } else {
            k + 1
        };
        let from_l = if l < i {
            l
        } else {
            l + 1
        };
        assert(after[k] == songs[from_k]);
        assert(after[l] == songs[from_l]);
    }
}

/// A playlist: songs in playback order under a name, with the moment the
/// playlist was created.
pub struct Playlist {
    name: String,
    creation_date: NaiveDateTime,
    songs: Vec<Song>,
}

impl View for Playlist {
    type V = PlaylistView;

    closed spec fn view(&self) -> PlaylistView {
        PlaylistView {
            name: self.name@,
            creation_date: self.creation_date,
            songs: song_views(self.songs@),
        }
    }
}

impl Playlist {
    /// An empty playlist called `name`, created at `creation_date`.
    pub fn new(name: &str, creation_date: NaiveDateTime) -> (playlist: Playlist)
        ensures
            playlist@ == (PlaylistView { name: name@, creation_date, songs: Seq::empty() }),
    {
        let playlist = Playlist { name: name.to_owned(), creation_date, songs: Vec::new() };
        assert(playlist@.songs =~= Seq::empty());
        playlist
    }

    /// The playlist that a playlist document describes.
    ///
    /// `name` and `creation_date` are the document's. `songs` holds, in the
    /// document's order, each song as the document gives it together with
    /// what a read of that song's details document gave. Every song of the
    /// playlist has its details from there: see [`Song::load`].
    pub fn load(
        name: &str,
        creation_date: NaiveDateTime,
        songs: Vec<(Song, Option<SongDetails>)>,
    ) -> (playlist: Playlist)
        ensures
            playlist@.name == name@,
            playlist@.creation_date == creation_date,
            playlist@.songs.len() == songs@.len(),
            forall|i: int|
                0 <= i < songs@.len() ==> #[trigger] playlist@.songs[i] == hydrated(
                    songs@[i].0@,
                    document_view(songs@[i].1),
                ),
    {
        let ghost given = songs@;
        let mut loaded: Vec<Song> = Vec::new();
        for entry in entries: songs
            invariant
                entries.seq() == given,
                loaded@.len() == entries.index(),
                forall|i: int|
                    0 <= i < entries.index() ==> (#[trigger] loaded@[i])@ == hydrated(
                        given[i].0@,
                        document_view(given[i].1),
                    ),
        {
            let (song, document) = entry;
            loaded.push(song.load(document));
        }
        Playlist { name: name.to_owned(), creation_date, songs: loaded }
    }

    /// The playlist's name.
    pub fn name(&self) -> (name: &str)
        ensures
            name@ == self@.name,
    {
        self.name.as_str()
    }

    /// The moment the playlist was created.
    pub fn creation_date(&self) -> (creation_date: &NaiveDateTime)
        ensures
            *creation_date == self@.creation_date,
    {
        &self.creation_date
    }

    /// The playlist's songs, in playback order.
    pub fn songs(&self) -> (songs: &Vec<Song>)
        ensures
            song_views(songs@) == self@.songs,
    {
        &self.songs
    }

    /// The playlist's songs, to change them in place. Name and creation
    /// date stay as they are.
    pub fn songs_mut(&mut self) -> (songs: &mut Vec<Song>)
        ensures
            song_views(songs@) == old(self)@.songs,
            final(self)@ == (PlaylistView { songs: song_views(final(songs)@), ..old(self)@ }),
    {
        &mut self.songs
    }

    /// Appends `song`, whether or not the playlist already holds it.
    pub fn add(&mut self, song: Song)
        ensures
            final(self)@ == (PlaylistView { songs: old(self)@.songs.push(song@), ..old(self)@ }),
    {
        proof {
            lemma_song_views_push(self.songs@, song);
        }
        self.songs.push(song);
    }

    /// Appends `song` unless the playlist already holds a song at the same
    /// path; then nothing changes.
    pub fn add_unique(&mut self, song: Song)
        ensures
            final(self)@ == (PlaylistView {
                songs: added_unique(old(self)@.songs, song@),
                ..old(self)@
            }),
    {
        match self.find(&song) {
            Some(_) => {},
            None => {
                self.add(song);
            },
        }
    }

    /// Removes the first song that is at the path of `song`. A playlist
    /// that holds no such song stays as it is.
    pub fn remove(&mut self, song: &Song)
        ensures
            final(self)@.name == old(self)@.name,
            final(self)@.creation_date == old(self)@.creation_date,
            !has_path(old(self)@.songs, song@.path) ==> final(self)@.songs == old(self)@.songs,
            forall|i: int| #[trigger]
                is_first_at(old(self)@.songs, song@.path, i) ==> final(self)@.songs == old(
                    self,
                )@.songs.remove(i),
    {
        match self.find(song) {
            Some(index) => {
                proof {
                    lemma_song_views_remove(self.songs@, index as int);
                }
                self.songs.remove(index);
            },
            None => {},
        }
    }

    /// The place of the first song that is at the path of `song`, if there
    /// is one.
    fn find(&self, song: &Song) -> (place: Option<usize>)
        ensures
            place is Some <==> has_path(self@.songs, song@.path),
            place matches Some(i) ==> is_first_at(self@.songs, song@.path, i as int),
    {
        let mut index: usize = 0;
        while index < self.songs.len()
            invariant
                index <= self.songs.len(),
                forall|j: int| 0 <= j < index ==> (#[trigger] self@.songs[j]).path != song@.path,
            decreases self.songs.len() - index,
        {
            if self.songs[index] == *song {
                assert(self@.songs[index as int].path == song@.path);
                return Some(index);
            }
            index += 1;
        }
        None
    }
}

} // verus!
