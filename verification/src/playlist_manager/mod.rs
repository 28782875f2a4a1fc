//! The playlists of a music library and the manager that owns them.

use crate::song::{lemma_song_views_push, song_views, Song, SongView};
use crate::{artist_or_empty, playlist_file_name, song_file_name};
use chrono::{NaiveDateTime, Utc};
use vstd::prelude::*;

pub mod distinct;
pub mod playlist;

use self::distinct::{all_songs, distinct_songs, lemma_first_place_is_unique, song_ref_views};
pub use self::playlist::Playlist;
use self::playlist::{has_path, is_first_at, PlaylistView};

verus! {

/// The name of the playlist that holds every song of the library.
pub const ALL_SONGS: &'static str = "All songs";

/// What can be wrong with a playlist.
#[derive(Debug)]
pub enum PlaylistManagerError {
    /// The name cannot serve as the name of a playlist.
    InvalidPlaylistName(String),
}

impl PlaylistManagerError {
    /// The error in words, on a line of its own.
    pub fn message(&self) -> (message: String)
        ensures
            self matches PlaylistManagerError::InvalidPlaylistName(name) ==> message@ == "`"@
                + name@ + "` isn't a valid name for a playlist\n"@,
    {
        match self {
            PlaylistManagerError::InvalidPlaylistName(name) => {
                let mut message = "`".to_owned();
                message.append(name.as_str());
                message.append("` isn't a valid name for a playlist\n");
                message
            },
        }
    }
}

/// `chrono::Utc::now`, without the time zone: the present moment, as the
/// clock of the machine gives it. Nothing is known of it beforehand.
/// `Utc::now` takes it that the clock does not stand before the year 1970.
#[verifier::external_body]
fn now() -> NaiveDateTime {
    Utc::now().naive_utc()
}

/// Mathematical value of a [`PlaylistManager`].
pub struct PlaylistManagerView {
    pub songs_meta: Seq<char>,
    pub playlists_meta: Seq<char>,
    pub playlists: Seq<PlaylistView>,
}

/// The values of the playlists of `playlists`, in order.
pub open spec fn playlist_views(playlists: Seq<Playlist>) -> Seq<PlaylistView> {
    playlists.map_values(|playlist: Playlist| playlist@)
}

/// Whether some playlist of `playlists` is called `name`.
pub open spec fn has_name(playlists: Seq<PlaylistView>, name: Seq<char>) -> bool {
    exists|i: int| 0 <= i < playlists.len() && (#[trigger] playlists[i]).name == name
}

/// Whether `i` is the place of the first playlist of `playlists` that is
/// called `name`.
pub open spec fn is_first_named(playlists: Seq<PlaylistView>, name: Seq<char>, i: int) -> bool {
    &&& 0 <= i < playlists.len()
    &&& playlists[i].name == name
    &&& forall|j: int| 0 <= j < i ==> (#[trigger] playlists[j]).name != name
}

/// Whether `i` is the place of the first entry of `entries` that could not
/// be loaded.
pub open spec fn is_first_failure<E>(entries: Seq<Result<Playlist, E>>, i: int) -> bool {
    &&& 0 <= i < entries.len()
    &&& entries[i] is Err
    &&& forall|j: int| 0 <= j < i ==> (#[trigger] entries[j]) is Ok
}

/// A document that the library keeps on disk, with the name of its file.
pub enum Document<'a> {
    /// The details of `song`, kept where the details of songs are kept.
    Details { file_name: String, song: &'a Song },
    /// `playlist` with its songs, kept where the playlists are kept.
    Playlist { file_name: String, playlist: &'a Playlist },
}

/// Mathematical value of a [`Document`].
pub enum DocumentView {
    Details { file_name: Seq<char>, song: SongView },
    Playlist { file_name: Seq<char>, playlist: PlaylistView },
}

impl<'a> View for Document<'a> {
    type V = DocumentView;

    open spec fn view(&self) -> DocumentView {
        match self {
            Document::Details { file_name, song } => DocumentView::Details {
                file_name: file_name@,
                song: song@,
            },
            Document::Playlist { file_name, playlist } => DocumentView::Playlist {
                file_name: file_name@,
                playlist: playlist@,
            },
        }
    }
}

/// The values of `documents`, in order.
pub open spec fn document_views(documents: Seq<Document>) -> Seq<DocumentView> {
    documents.map_values(|document: Document| document@)
}

/// The document with the details of `song`, under the file name that goes
/// with the song's name and artist.
pub open spec fn details_document(song: SongView) -> DocumentView {
    DocumentView::Details {
        file_name: song_file_name(song.details.name, artist_or_empty(song.details.artist)),
        song,
    }
}

/// The document with `playlist`, under the file name that goes with the
/// playlist's name.
pub open spec fn playlist_document(playlist: PlaylistView) -> DocumentView {
    DocumentView::Playlist { file_name: playlist_file_name(playlist.name), playlist }
}

/// The documents in which a library with these playlists is kept, in the
/// order in which they are written: first the details of each song that is
/// in any playlist, once for each path, then each playlist.
pub open spec fn library_documents(playlists: Seq<PlaylistView>) -> Seq<DocumentView> {
    distinct_songs(all_songs(playlists)).map_values(|song: SongView| details_document(song))
        + playlists.map_values(|playlist: PlaylistView| playlist_document(playlist))
}

/// The playlists of a library, in the order in which they were loaded,
/// and the two places on disk where the library keeps its documents: one
/// for the details of songs, one for playlists.
pub struct PlaylistManager {
    songs_meta: String,
    playlists_meta: String,
    playlists: Vec<Playlist>,
}

impl View for PlaylistManager {
    type V = PlaylistManagerView;

    closed spec fn view(&self) -> PlaylistManagerView {
        PlaylistManagerView {
            songs_meta: self.songs_meta@,
            playlists_meta: self.playlists_meta@,
            playlists: playlist_views(self.playlists@),
        }
    }
}

impl PlaylistManager {
    /// The manager of the playlists that were found on disk.
    ///
    /// `songs_meta` and `playlists_meta` are the two places on disk.
    /// `entries` holds, for each playlist document in the order in which the
    /// documents were found, the playlist that it describes or the reason
    /// why it could not be loaded. One document that could not be loaded
    /// fails the whole: the result is then the first such reason, and no
    /// playlist is kept.
    pub fn load<E>(
        songs_meta: String,
        playlists_meta: String,
        entries: Vec<Result<Playlist, E>>,
    ) -> (loaded: Result<PlaylistManager, E>)
        ensures
            loaded is Ok <==> forall|i: int|
                0 <= i < entries@.len() ==> (#[trigger] entries@[i]) is Ok,
            loaded matches Ok(manager) ==> {
                &&& manager@.songs_meta == songs_meta@
                &&& manager@.playlists_meta == playlists_meta@
                &&& manager@.playlists.len() == entries@.len()
                &&& forall|i: int|
                    0 <= i < entries@.len() ==> #[trigger] manager@.playlists[i]
                        == entries@[i]->Ok_0@
            },
            loaded matches Err(error) ==> forall|i: int| #[trigger]
                is_first_failure(entries@, i) ==> entries@[i] == Err::<Playlist, E>(error),
    {
        let ghost given = entries@;
        let mut playlists: Vec<Playlist> = Vec::new();
        for entry in found: entries
            invariant
                found.seq() == given,
                playlists@.len() == found.index(),
                forall|i: int| 0 <= i < found.index() ==> (#[trigger] given[i]) is Ok,
                forall|i: int|
                    0 <= i < found.index() ==> (#[trigger] playlists@[i])@ == given[i]->Ok_0@,
        {
            match entry {
                Ok(playlist) => {
                    playlists.push(playlist);
                },
                Err(error) => {
                    assert(is_first_failure(given, found.index() as int));
                    assert forall|i: int| #[trigger] is_first_failure(given, i) implies given[i]
                        == Err::<Playlist, E>(error) by {
                        if i < found.index() {
                            assert(given[i] is Ok);
                        }
                        if found.index() < i {
                            assert(given[found.index() as int] is Ok);
                        }
                    }
                    return Err(error);
                },
            }
        }
        Ok(PlaylistManager { songs_meta, playlists_meta, playlists })
    }

    /// Makes sure that the library has its playlist of all songs, the one
    /// called [`ALL_SONGS`]. Where no playlist has that name, one is made,
    /// as of now, holds `songs` in their order, and comes last. Where one
    /// has, nothing changes.
    ///
    /// `songs` are the songs whose details documents were found on disk.
    pub fn ensure_basics(&mut self, songs: Vec<Song>)
        ensures
            final(self)@.songs_meta == old(self)@.songs_meta,
            final(self)@.playlists_meta == old(self)@.playlists_meta,
            has_name(old(self)@.playlists, ALL_SONGS@) ==> final(self)@.playlists == old(
                self,
            )@.playlists,
            !has_name(old(self)@.playlists, ALL_SONGS@) ==> {
                &&& final(self)@.playlists.len() == old(self)@.playlists.len() + 1
                &&& final(self)@.playlists.drop_last() == old(self)@.playlists
                &&& final(self)@.playlists.last().name == ALL_SONGS@
                &&& final(self)@.playlists.last().songs == song_views(songs@)
            },
    {
        self.ensure_basics_at(songs, now());
    }

    /// As [`PlaylistManager::ensure_basics`], with `created` as the moment
    /// at which a playlist that has to be made is made.
    pub fn ensure_basics_at(&mut self, songs: Vec<Song>, created: NaiveDateTime)
        ensures
            final(self)@ == if has_name(old(self)@.playlists, ALL_SONGS@) {
                old(self)@
            } else {
                PlaylistManagerView {
                    playlists: old(self)@.playlists.push(
                        PlaylistView {
                            name: ALL_SONGS@,
                            creation_date: created,
                            songs: song_views(songs@),
                        },
                    ),
                    ..old(self)@
                }
            },
    {
        match self.find(ALL_SONGS) {
            Some(_) => {},
            None => {
                let mut playlist = Playlist::new(ALL_SONGS, created);
                let ghost given = songs@;
                for song in rest: songs
                    invariant
                        rest.seq() == given,
                        playlist@.name == ALL_SONGS@,
                        playlist@.creation_date == created,
                        playlist@.songs == song_views(given.take(rest.index() as int)),
                {
                    assert(given.take(rest.index() + 1) =~= given.take(rest.index() as int).push(
                        song,
                    ));
                    proof {
                        lemma_song_views_push(given.take(rest.index() as int), song);
                    }
                    playlist.add(song);
                }
                assert(given.take(given.len() as int) =~= given);
                self.playlists.push(playlist);
                assert(self@.playlists =~= old(self)@.playlists.push(playlist@));
            },
        }
    }

    /// Where the documents with the details of songs are kept.
    pub fn songs_meta(&self) -> (songs_meta: &str)
        ensures
            songs_meta@ == self@.songs_meta,
    {
        self.songs_meta.as_str()
    }

    /// Where the playlist documents are kept.
    pub fn playlists_meta(&self) -> (playlists_meta: &str)
        ensures
            playlists_meta@ == self@.playlists_meta,
    {
        self.playlists_meta.as_str()
    }

    /// The playlists, in load order.
    pub fn playlists(&self) -> (playlists: &Vec<Playlist>)
        ensures
            playlist_views(playlists@) == self@.playlists,
    {
        &self.playlists
    }

    /// The playlists, to change them in place. The two places on disk stay
    /// as they are.
    pub fn playlists_mut(&mut self) -> (playlists: &mut Vec<Playlist>)
        ensures
            playlist_views(playlists@) == old(self)@.playlists,
            final(self)@ == (PlaylistManagerView {
                playlists: playlist_views(final(playlists)@),
                ..old(self)@
            }),
    {
        &mut self.playlists
    }

    /// The names of the playlists, in load order.
    pub fn names(&self) -> (names: Vec<&str>)
        ensures
            names@.len() == self@.playlists.len(),
            forall|i: int|
                0 <= i < names@.len() ==> (#[trigger] names@[i])@ == self@.playlists[i].name,
    {
        let mut names: Vec<&str> = Vec::new();
        let mut i: usize = 0;
        while i < self.playlists.len()
            invariant
                i <= self.playlists.len(),
                names@.len() == i,
                forall|j: int| 0 <= j < i ==> (#[trigger] names@[j])@ == self@.playlists[j].name,
            decreases self.playlists.len() - i,
        {
            names.push(self.playlists[i].name());
            i += 1;
        }
        names
    }

    /// Whether there is a playlist called `name`.
    pub fn has_playlist(&self, name: &str) -> (found: bool)
        ensures
            found == has_name(self@.playlists, name@),
    {
        self.find(name).is_some()
    }

    /// Appends `song` to the first playlist called `playlist`. Without
    /// such a playlist nothing changes.
    pub fn add_to(&mut self, song: Song, playlist: &str)
        ensures
            final(self)@.songs_meta == old(self)@.songs_meta,
            final(self)@.playlists_meta == old(self)@.playlists_meta,
            !has_name(old(self)@.playlists, playlist@) ==> final(self)@.playlists == old(
                self,
            )@.playlists,
            forall|i: int| #[trigger]
                is_first_named(old(self)@.playlists, playlist@, i) ==> final(self)@.playlists
                    == old(self)@.playlists.update(
                    i,
                    PlaylistView {
                        songs: old(self)@.playlists[i].songs.push(song@),
                        ..old(self)@.playlists[i]
                    },
                ),
    {
        match self.find(playlist) {
            Some(index) => {
                self.playlists[index].add(song);
                assert(self@.playlists =~= old(self)@.playlists.update(
                    index as int,
                    PlaylistView {
                        songs: old(self)@.playlists[index as int].songs.push(song@),
                        ..old(self)@.playlists[index as int]
                    },
                ));
            },
            None => {},
        }
    }

    /// The place of the first playlist called `name`, if there is one.
    fn find(&self, name: &str) -> (place: Option<usize>)
        ensures
            place is Some <==> has_name(self@.playlists, name@),
            place matches Some(i) ==> is_first_named(self@.playlists, name@, i as int),
    {
        let mut index: usize = 0;
        while index < self.playlists.len()
            invariant
                index <= self.playlists.len(),
                forall|j: int| 0 <= j < index ==> (#[trigger] self@.playlists[j]).name != name@,
            decreases self.playlists.len() - index,
        {
            if *self.playlists[index].name() == *name {
                assert(self@.playlists[index as int].name == name@);
                return Some(index);
            }
            index += 1;
        }
        None
    }

    /// The documents to write so that the library on disk is as the library
    /// in memory: see [`library_documents`]. They are to be written when the
    /// work with the manager ends, whichever way it ends.
    pub fn documents(&self) -> (documents: Vec<Document<'_>>)
        ensures
            document_views(documents@) == library_documents(self@.playlists),
    {
        let mut documents: Vec<Document<'_>> = Vec::new();
        let songs = self.songs();
        let ghost distinct = distinct_songs(all_songs(self@.playlists));
        let ghost first = distinct.map_values(|song: SongView| details_document(song));
        let mut i: usize = 0;
        while i < songs.len()
            invariant
                i <= songs.len(),
                song_ref_views(songs@) == distinct,
                first == distinct.map_values(|song: SongView| details_document(song)),
                document_views(documents@) == first.take(i as int),
            decreases songs.len() - i,
        {
            let song = songs[i];
            let ghost written = document_views(documents@);
            assert(song@ == song_ref_views(songs@)[i as int]);
            documents.push(Document::Details { file_name: crate::file_name_from_song(song), song });
            assert(document_views(documents@) =~= written.push(first[i as int]));
            i += 1;
            assert(document_views(documents@) =~= first.take(i as int));
        }
        assert(first.take(first.len() as int) =~= first);
        let ghost second = self@.playlists.map_values(
            |playlist: PlaylistView| playlist_document(playlist),
        );
        let mut i: usize = 0;
        assert(first + second.take(0) =~= first);
        while i < self.playlists.len()
            invariant
                i <= self.playlists.len(),
                self.playlists@.len() == self@.playlists.len(),
                second == self@.playlists.map_values(
                    |playlist: PlaylistView| playlist_document(playlist),
                ),
                document_views(documents@) == first + second.take(i as int),
            decreases self.playlists.len() - i,
        {
            let playlist = &self.playlists[i];
            let ghost written = document_views(documents@);
            assert(playlist@ == playlist_views(self.playlists@)[i as int]);
            documents.push(
                Document::Playlist { file_name: crate::file_name_from_playlist(playlist), playlist },
            );
            assert(document_views(documents@) =~= written.push(second[i as int]));
            i += 1;
            assert(document_views(documents@) =~= first + second.take(i as int));
        }
        assert(second.take(second.len() as int) =~= second);
        documents
    }

    /// One song for each path that occurs in any playlist: see
    /// [`distinct_songs`] and [`lemma_distinct_songs`].
    pub fn songs(&self) -> (songs: Vec<&Song>)
        ensures
            song_ref_views(songs@) == distinct_songs(all_songs(self@.playlists)),
    {
        let mut found: Vec<&Song> = Vec::new();
        let mut p: usize = 0;
        assert(self@.playlists.take(0) =~= Seq::empty());
        assert(song_ref_views(found@) =~= Seq::empty());
        while p < self.playlists.len()
            invariant
                p <= self.playlists.len(),
                self.playlists@.len() == self@.playlists.len(),
                song_ref_views(found@) == distinct_songs(
                    all_songs(self@.playlists.take(p as int)),
                ),
            decreases self.playlists.len() - p,
        {
            let songs = self.playlists[p].songs();
            let ghost before = all_songs(self@.playlists.take(p as int));
            let ghost here = self@.playlists[p as int].songs;
            let mut k: usize = 0;
            assert(before + here.take(0) =~= before);
            while k < songs.len()
                invariant
                    k <= songs.len(),
                    song_views(songs@) == here,
                    song_ref_views(found@) == distinct_songs(before + here.take(k as int)),
                decreases songs.len() - k,
            {
                let song = &songs[k];
                let ghost sofar = before + here.take(k as int);
                assert((before + here.take(k + 1)).drop_last() =~= sofar);
                assert((before + here.take(k + 1)).last() == song@);
                match place_among(&found, song) {
                    Some(place) => {
                        proof {
                            lemma_first_place_is_unique(
                                song_ref_views(found@),
                                song@.path,
                                place as int,
                            );
                        }
                        found.set(place, song);
                        assert(song_ref_views(found@) =~= distinct_songs(sofar).update(
                            place as int,
                            song@,
                        ));
                    },
                    None => {
                        found.push(song);
                        assert(song_ref_views(found@) =~= distinct_songs(sofar).push(song@));
                    },
                }
                k += 1;
            }
            assert(here.take(here.len() as int) =~= here);
            assert(self@.playlists.take(p + 1).drop_last() =~= self@.playlists.take(p as int));
            assert(self@.playlists.take(p + 1).last() == self@.playlists[p as int]);
            p += 1;
        }
        assert(self@.playlists.take(self@.playlists.len() as int) =~= self@.playlists);
        found
    }
}

/// The place of the first of `songs` that is at the path of `song`, if
/// there is one.
fn place_among(songs: &Vec<&Song>, song: &Song) -> (place: Option<usize>)
    ensures
        place is Some <==> has_path(song_ref_views(songs@), song@.path),
        place matches Some(i) ==> is_first_at(song_ref_views(songs@), song@.path, i as int),
{
    let mut index: usize = 0;
    while index < songs.len()
        invariant
            index <= songs.len(),
            forall|j: int|
                0 <= j < index ==> (#[trigger] song_ref_views(songs@)[j]).path != song@.path,
        decreases songs.len() - index,
    {
        if *songs[index] == *song {
            assert(song_ref_views(songs@)[index as int].path == song@.path);
            return Some(index);
        }
        index += 1;
    }
    None
}

} // verus!
