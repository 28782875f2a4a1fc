//! The playback queue.

use crate::playlist_manager::playlist::Playlist;
use crate::song::{
    lemma_song_views_push, lemma_song_views_remove, lemma_song_views_subrange, song_views, Song,
    SongDetails, SongView,
};
use vstd::prelude::*;

verus! {

/// Mathematical value of a [`QueueManager`]: the songs in playing order and
/// the cursor, the place of the song that [`QueueManager::next`] hands out.
pub struct QueueView {
    pub songs: Seq<SongView>,
    pub current: nat,
}

impl QueueView {
    /// The cursor is inside the queue or just past its end.
    pub open spec fn in_range(self) -> bool {
        self.current <= self.songs.len()
    }

    /// What `next` hands out: the song at the cursor, if the cursor has not
    /// reached the end.
    pub open spec fn next_song(self) -> Option<SongView> {
        if self.current < self.songs.len() {
            Some(self.songs[self.current as int])
        } else {
            None
        }
    }

    /// The queue after `next`: the cursor has moved one on, unless it had
    /// reached the end.
    pub open spec fn after_next(self) -> QueueView {
        if self.current < self.songs.len() {
            QueueView { current: self.current + 1, ..self }
        } else {
            self
        }
    }

    /// What `previous` hands out: the song before the cursor, if there is
    /// one.
    pub open spec fn previous_song(self) -> Option<SongView> {
        if 0 < self.current <= self.songs.len() {
            Some(self.songs[self.current - 1])
        } else {
            None
        }
    }

    /// The queue after `previous`: the cursor has moved one back, unless it
    /// was at the start.
    pub open spec fn after_previous(self) -> QueueView {
        if self.current > 0 {
            QueueView { current: (self.current - 1) as nat, ..self }
        } else {
            self
        }
    }

    /// Where the songs that are not yet fully played start: at the song
    /// before the cursor, which is the one that plays, or at the first song
    /// when the cursor is at the start.
    pub open spec fn pending_start(self) -> int {
        if self.current == 0 {
            0
        } else if self.current - 1 <= self.songs.len() {
            self.current - 1
        } else {
            self.songs.len() as int
        }
    }

    /// The songs that are not yet fully played: the one that plays and
    /// all behind it.
    pub open spec fn pending(self) -> Seq<SongView> {
        self.songs.subrange(self.pending_start(), self.songs.len() as int)
    }

    /// The queue after everything behind the song at the cursor was dropped.
    pub open spec fn after_clear_pending(self) -> QueueView {
        if self.current + 1 < self.songs.len() {
            QueueView { songs: self.songs.take((self.current + 1) as int), ..self }
        } else {
            self
        }
    }
}

/// `songs` turned so that the song at `start` comes first: the songs from
/// `start` to the end, then those before `start`.
pub open spec fn rotated(songs: Seq<SongView>, start: int) -> Seq<SongView> {
    songs.subrange(start, songs.len() as int) + songs.subrange(0, start)
}

/// Turning keeps every song and moves each the same way round: the song
/// at place `i` of the turned songs is the one that stood `start` places
/// further on, going round from the last song to the first.
pub proof fn lemma_rotation_is_circular(songs: Seq<SongView>, start: int)
    requires
        0 <= start <= songs.len(),
    ensures
        rotated(songs, start).len() == songs.len(),
        forall|i: int|
            0 <= i < songs.len() ==> #[trigger] rotated(songs, start)[i] == songs[(start + i) % (
            songs.len() as int)],
{
    let len = songs.len() as int;
    assert forall|i: int| 0 <= i < len implies #[trigger] rotated(songs, start)[i] == songs[(start
        + i) % len] by {
        if start + i < len {
            assert((start + i) % len == start + i) by {
                vstd::arithmetic::div_mod::lemma_small_mod((start + i) as nat, len as nat);
            }
        } else {
            assert((start + i) % len == start + i - len) by {
                vstd::arithmetic::div_mod::lemma_mod_sub_multiples_vanish(start + i, len);
                vstd::arithmetic::div_mod::lemma_small_mod((start + i - len) as nat, len as nat);
            }
        }
    }
}

/// `next` and then `previous` hand out the same song, and the queue is
/// back where it was: from the start of any queue, and from any cursor
/// that has not reached the end. Only a second `previous` goes back to the
/// song before, where there is one.
pub proof fn lemma_next_then_previous(queue: QueueView)
    requires
        queue.current == 0 || queue.current < queue.songs.len(),
    ensures
        queue.after_next().previous_song() == queue.next_song(),
        queue.after_next().after_previous() == queue,
        queue.current > 0 ==> queue.after_next().after_previous().previous_song() == Some(
            queue.songs[queue.current - 1],
        ),
        queue.current == 0 ==> queue.after_next().after_previous().previous_song().is_none(),
{
}

/// A cursor that is in range stays in range when a song is pushed, when
/// the cursor moves, and when what is pending is cleared.
pub proof fn lemma_cursor_stays_in_range(queue: QueueView, song: SongView)
    requires
        queue.in_range(),
    ensures
        (QueueView { songs: queue.songs.push(song), ..queue }).in_range(),
        queue.after_next().in_range(),
        queue.after_previous().in_range(),
        queue.after_clear_pending().in_range(),
{
}

/// A playback queue: its own copies of songs, and a cursor into them.
pub struct QueueManager {
    songs: Vec<Song>,
    current: usize,
}

impl View for QueueManager {
    type V = QueueView;

    closed spec fn view(&self) -> QueueView {
        QueueView { songs: song_views(self.songs@), current: self.current as nat }
    }
}

impl Default for QueueManager {
    fn default() -> (queue: QueueManager)
        ensures
            queue@ == (QueueView { songs: Seq::empty(), current: 0 }),
            queue@.in_range(),
    {
        let queue = QueueManager { songs: Vec::new(), current: 0 };
        assert(queue@.songs =~= Seq::empty());
        queue
    }
}

impl QueueManager {
    /// Whether the queue holds no song.
    pub fn is_empty(&self) -> (empty: bool)
        ensures
            empty == (self@.songs.len() == 0),
    {
        self.songs.is_empty()
    }

    /// Appends `song`. The cursor stays where it is.
    pub fn push(&mut self, song: Song)
        ensures
            final(self)@ == (QueueView { songs: old(self)@.songs.push(song@), ..old(self)@ }),
    {
        proof {
            lemma_song_views_push(self.songs@, song);
        }
        self.songs.push(song);
    }

    /// Hands out the song at the cursor and moves the cursor one on.
    /// When the cursor has reached the end there is no song to hand out and
    /// nothing changes.
    pub fn next(&mut self) -> (song: Option<&Song>)
        ensures
            final(self)@ == old(self)@.after_next(),
            song is Some <==> old(self)@.next_song() is Some,
            song matches Some(s) ==> Some(s@) == old(self)@.next_song(),
    {
        if self.current < self.songs.len() {
            self.current += 1;
            Some(&self.songs[self.current - 1])
        } else {
            None
        }
    }

    /// Moves the cursor one back and hands out the song that is then at the
    /// cursor. With the cursor at the start there is no song to hand out
    /// and nothing changes.
    ///
    /// Right after [`QueueManager::next`] this hands out the song that
    /// `next` handed out; only a second call goes further back.
    pub fn previous(&mut self) -> (song: Option<&Song>)
        ensures
            final(self)@ == old(self)@.after_previous(),
            song is Some <==> old(self)@.previous_song() is Some,
            song matches Some(s) ==> Some(s@) == old(self)@.previous_song(),
    {
        if self.current > 0 {
            self.current -= 1;
            if self.current < self.songs.len() {
                Some(&self.songs[self.current])
            } else {
                None
            }
        } else {
            None
        }
    }

    /// Takes the song at `index` out of the queue; an `index` behind the
    /// last song changes nothing. The cursor stays where it is, also when
    /// the song was before it.
    pub fn remove(&mut self, index: usize)
        ensures
            final(self)@.current == old(self)@.current,
            final(self)@.songs == if index < old(self)@.songs.len() {
                old(self)@.songs.remove(index as int)
            } else {
                old(self)@.songs
            },
    {
        if index < self.songs.len() {
            proof {
                lemma_song_views_remove(self.songs@, index as int);
            }
            self.songs.remove(index);
        }
    }

    /// Empties the queue and puts the cursor at the start.
    pub fn clear(&mut self)
        ensures
            final(self)@ == (QueueView { songs: Seq::empty(), current: 0 }),
            final(self)@.in_range(),
    {
        self.songs.clear();
        self.current = 0;
        assert(self@.songs =~= Seq::empty());
    }

    /// Drops every song behind the song at the cursor. What was played and
    /// the song at the cursor stay.
    pub fn clear_pending(&mut self)
        ensures
            final(self)@ == old(self)@.after_clear_pending(),
    {
        let len = self.songs.len();
        if self.current < len && len - self.current > 1 {
            proof {
                lemma_song_views_subrange(self.songs@, 0, self.current + 1);
            }
            self.songs.truncate(self.current + 1);
        }
    }

    /// Replaces the queue by the songs of `playlist`, turned so that the
    /// song at `index` comes first, with the cursor on it. With `index`
    /// behind the playlist's last song the songs keep the playlist's order
    /// and the cursor stands past the end: the queue counts as played.
    ///
    /// The queue gets copies: the playlist is not touched.
    pub fn set_on_playlist(&mut self, playlist: &Playlist, index: usize)
        ensures
            final(self)@.songs == rotated(
                playlist@.songs,
                if index < playlist@.songs.len() {
                    index as int
                } else {
                    playlist@.songs.len() as int
                },
            ),
            final(self)@.current == if index < playlist@.songs.len() {
                0
            } else {
                playlist@.songs.len()
            },
            final(self)@.in_range(),
    {
        self.clear();
        let songs = playlist.songs();
        let len = songs.len();
        let start = if index < len {
            index
        } else {
            len
        };
        let mut i: usize = start;
        while i < len
            invariant
                start <= i <= len,
                len == songs@.len(),
                song_views(songs@) == playlist@.songs,
                self@.current == 0,
                self@.songs == playlist@.songs.subrange(start as int, i as int),
            decreases len - i,
        {
            self.push(songs[i].clone());
            i += 1;
            assert(self@.songs =~= playlist@.songs.subrange(start as int, i as int));
        }
        let mut i: usize = 0;
        while i < start
            invariant
                i <= start <= len,
                len == songs@.len(),
                song_views(songs@) == playlist@.songs,
                self@.current == 0,
                self@.songs == playlist@.songs.subrange(start as int, len as int)
                    + playlist@.songs.subrange(0, i as int),
            decreases start - i,
        {
            self.push(songs[i].clone());
            i += 1;
            assert(self@.songs =~= playlist@.songs.subrange(start as int, len as int)
                + playlist@.songs.subrange(0, i as int));
        }
        if index >= len {
            self.current = len;
        }
    }

    /// The songs of the queue, in order.
    pub fn songs(&self) -> (songs: Vec<&Song>)
        ensures
            songs@.len() == self@.songs.len(),
            forall|i: int| 0 <= i < songs@.len() ==> (#[trigger] songs@[i])@ == self@.songs[i],
    {
        let mut songs: Vec<&Song> = Vec::new();
        let mut i: usize = 0;
        while i < self.songs.len()
            invariant
                i <= self.songs.len(),
                songs@.len() == i,
                forall|j: int| 0 <= j < i ==> (#[trigger] songs@[j])@ == self@.songs[j],
            decreases self.songs.len() - i,
        {
            songs.push(&self.songs[i]);
            i += 1;
        }
        songs
    }

    /// The names of the songs of the queue, in order.
    pub fn songs_names(&self) -> (names: Vec<&str>)
        ensures
            names@.len() == self@.songs.len(),
            forall|i: int|
                0 <= i < names@.len() ==> (#[trigger] names@[i])@ == self@.songs[i].details.name,
    {
        let mut names: Vec<&str> = Vec::new();
        let mut i: usize = 0;
        while i < self.songs.len()
            invariant
                i <= self.songs.len(),
                names@.len() == i,
                forall|j: int|
                    0 <= j < i ==> (#[trigger] names@[j])@ == self@.songs[j].details.name,
            decreases self.songs.len() - i,
        {
            names.push(self.songs[i].details().name());
            i += 1;
        }
        names
    }

    /// The details of the songs of the queue, in order.
    pub fn details(&self) -> (details: Vec<&SongDetails>)
        ensures
            details@.len() == self@.songs.len(),
            forall|i: int|
                0 <= i < details@.len() ==> (#[trigger] details@[i])@ == self@.songs[i].details,
    {
        self.details_from(0)
    }

    /// The details of the songs that are not yet fully played, in order:
    /// those of the song before the cursor, which is the one that plays,
    /// and of every song behind it, or of all songs when the cursor is at
    /// the start.
    pub fn pending(&self) -> (details: Vec<&SongDetails>)
        ensures
            details@.len() == self@.pending().len(),
            forall|i: int|
                0 <= i < details@.len() ==> (#[trigger] details@[i])@ == self@.pending()[i].details,
    {
        if self.current == 0 {
            self.details_from(0)
        } else {
            self.details_from(self.current - 1)
        }
    }

    /// The details of the songs from `start` on, in order; none when
    /// `start` is behind the last song.
    fn details_from(&self, start: usize) -> (details: Vec<&SongDetails>)
        ensures
            details@.len() == if start <= self@.songs.len() {
                self@.songs.len() - start
            } else {
                0
            },
            forall|i: int|
                0 <= i < details@.len() ==> (#[trigger] details@[i])@ == self@.songs[start
                    + i].details,
    {
        let mut details: Vec<&SongDetails> = Vec::new();
        let mut i: usize = start;
        while i < self.songs.len()
            invariant
                self@.songs.len() == self.songs@.len(),
                start <= i,
                i <= self.songs.len() || i == start,
                details@.len() == i - start,
                forall|j: int|
                    0 <= j < details@.len() ==> (#[trigger] details@[j])@ == self@.songs[start
                        + j].details,
            decreases self.songs.len() - i,
        {
            details.push(self.songs[i].details());
            i += 1;
        }
        details
    }
}

} // verus!
