//! One song for each path: the songs of a library without repeats.

use super::playlist::{has_path, is_first_at, no_path_twice, PlaylistView};
use crate::song::{Song, SongView};
use vstd::prelude::*;

verus! {

/// The songs of all of `playlists`, playlist after playlist, each in its
/// own order. A song that is in several playlists, or several times in
/// one, comes as often.
pub open spec fn all_songs(playlists: Seq<PlaylistView>) -> Seq<SongView>
    decreases playlists.len(),
{
    if playlists.len() == 0 {
        Seq::empty()
    } else {
        all_songs(playlists.drop_last()) + playlists.last().songs
    }
}

/// The place of the first song of `songs` that is at `path`, where there is
/// one.
pub open spec fn place_of(songs: Seq<SongView>, path: Seq<char>) -> int {
    choose|i: int| is_first_at(songs, path, i)
}

/// `songs` with `song` merged in by its path: `song` takes the place of the
/// song at the same path, or comes last when there is none.
pub open spec fn merged(songs: Seq<SongView>, song: SongView) -> Seq<SongView> {
    if has_path(songs, song.path) {
        songs.update(place_of(songs, song.path), song)
    } else {
        songs.push(song)
    }
}

/// One song for each path of `all`: the paths in the order in which they
/// first come in `all`, each with the song that comes last at that path.
pub open spec fn distinct_songs(all: Seq<SongView>) -> Seq<SongView>
    decreases all.len(),
{
    if all.len() == 0 {
        Seq::empty()
    } else {
        merged(distinct_songs(all.drop_last()), all.last())
    }
}

/// Whether `song` is in `all` and no song behind it there is at its path.
pub open spec fn is_last_at_its_path(all: Seq<SongView>, song: SongView) -> bool {
    exists|k: int|
        0 <= k < all.len() && #[trigger] all[k] == song && forall|j: int|
            k < j < all.len() ==> (#[trigger] all[j]).path != song.path
}

/// The values of the songs that `songs` refers to, in order.
pub open spec fn song_ref_views(songs: Seq<&Song>) -> Seq<SongView> {
    songs.map_values(|song: &Song| song@)
}

/// The first song at a path is at one place only.
pub proof fn lemma_first_place_is_unique(songs: Seq<SongView>, path: Seq<char>, i: int)
    requires
        is_first_at(songs, path, i),
    ensures
        has_path(songs, path),
        place_of(songs, path) == i,
{
    let j = place_of(songs, path);
    assert(is_first_at(songs, path, j));
    if j < i {
        assert(songs[j].path != path);
    }
    if i < j {
        assert(songs[i].path != path);
    }
}

/// Where a path occurs, it occurs somewhere first.
pub proof fn lemma_first_place_exists(songs: Seq<SongView>, path: Seq<char>)
    requires
        has_path(songs, path),
    ensures
        is_first_at(songs, path, place_of(songs, path)),
    decreases songs.len(),
{
    let last = songs.len() - 1;
    if has_path(songs.drop_last(), path) {
        lemma_first_place_exists(songs.drop_last(), path);
        let i = place_of(songs.drop_last(), path);
        assert(songs.drop_last()[i] == songs[i]);
        assert forall|j: int| 0 <= j < i implies (#[trigger] songs[j]).path != path by {
            assert(songs.drop_last()[j] == songs[j]);
        }
        assert(is_first_at(songs, path, i));
    } else {
        let k = choose|k: int| 0 <= k < songs.len() && (#[trigger] songs[k]).path == path;
        if k < last {
            assert(songs.drop_last()[k] == songs[k]);
            assert(false);
        }
        assert forall|j: int| 0 <= j < last implies (#[trigger] songs[j]).path != path by {
            assert(songs.drop_last()[j] == songs[j]);
        }
        assert(is_first_at(songs, path, last));
    }
}

/// What [`distinct_songs`] keeps of `all`: no path twice, every path of
/// `all`, and at each path the song that comes last in `all`.
pub proof fn lemma_distinct_songs(all: Seq<SongView>)
    ensures
        no_path_twice(distinct_songs(all)),
        forall|k: int|
            0 <= k < all.len() ==> has_path(distinct_songs(all), (#[trigger] all[k]).path),
        forall|i: int|
            0 <= i < distinct_songs(all).len() ==> is_last_at_its_path(
                all,
                #[trigger] distinct_songs(all)[i],
            ),
    decreases all.len(),
{
    if all.len() > 0 {
        let before = all.drop_last();
        let song = all.last();
        let kept = distinct_songs(before);
        let now = distinct_songs(all);
        let last = all.len() - 1;
        lemma_distinct_songs(before);
        assert(now == merged(kept, song));
        if has_path(kept, song.path) {
            lemma_first_place_exists(kept, song.path);
            let place = place_of(kept, song.path);
            assert(now == kept.update(place, song));
            assert forall|i: int, j: int| 0 <= i < j < now.len() implies (#[trigger] now[i]).path
                != (#[trigger] now[j]).path by {
                assert(now[i].path == kept[i].path);
                assert(now[j].path == kept[j].path);
            }
            assert forall|k: int| 0 <= k < all.len() implies has_path(
                now,
                (#[trigger] all[k]).path,
            ) by {
                if k < last {
                    assert(before[k] == all[k]);
                    let at = choose|at: int|
                        0 <= at < kept.len() && (#[trigger] kept[at]).path == all[k].path;
                    assert(now[at].path == all[k].path);
                } else {
                    assert(now[place].path == all[k].path);
                }
            }
            assert forall|i: int| 0 <= i < now.len() implies is_last_at_its_path(
                all,
                #[trigger] now[i],
            ) by {
                if i == place {
                    assert(all[last] == now[i]);
                } else {
                    assert(now[i] == kept[i]);
                    assert(kept[i].path != kept[place].path);
                    assert(is_last_at_its_path(before, kept[i]));
                    let k = choose|k: int|
                        0 <= k < before.len() && #[trigger] before[k] == kept[i] && forall|j: int|
                            k < j < before.len() ==> (#[trigger] before[j]).path != kept[i].path;
                    assert(all[k] == kept[i]);
                    assert forall|j: int| k < j < all.len() implies (#[trigger] all[j]).path
                        != kept[i].path by {
                        if j < last {
                            assert(before[j] == all[j]);
                        }
                    }
                }
            }
        } else {
            assert(now == kept.push(song));
            assert forall|i: int, j: int| 0 <= i < j < now.len() implies (#[trigger] now[i]).path
                != (#[trigger] now[j]).path by {
                if j < kept.len() {
                    assert(now[i] == kept[i]);
                    assert(now[j] == kept[j]);
                } else {
                    assert(now[i] == kept[i]);
                }
            }
            assert forall|k: int| 0 <= k < all.len() implies has_path(
                now,
                (#[trigger] all[k]).path,
            ) by {
                if k < last {
                    assert(before[k] == all[k]);
                    let at = choose|at: int|
                        0 <= at < kept.len() && (#[trigger] kept[at]).path == all[k].path;
                    assert(now[at].path == all[k].path);
                } else {
                    assert(now[kept.len() as int].path == all[k].path);
                }
            }
            assert forall|i: int| 0 <= i < now.len() implies is_last_at_its_path(
                all,
                #[trigger] now[i],
            ) by {
                if i == kept.len() {
                    assert(all[last] == now[i]);
                } else {
                    assert(now[i] == kept[i]);
                    assert(is_last_at_its_path(before, kept[i]));
                    let k = choose|k: int|
                        0 <= k < before.len() && #[trigger] before[k] == kept[i] && forall|j: int|
                            k < j < before.len() ==> (#[trigger] before[j]).path != kept[i].path;
                    assert(all[k] == kept[i]);
                    assert forall|j: int| k < j < all.len() implies (#[trigger] all[j]).path
                        != kept[i].path by {
                        if j < last {
                            assert(before[j] == all[j]);
                        }
                    }
                }
            }
        }
    }
}

} // verus!
