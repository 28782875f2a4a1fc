//! Songs and their descriptive details.

use crate::order::{and_then_order, compare_texts, number_order, option_order, text_order};
use crate::text::{decimal, push_decimal, push_two_digits, two_digits};
use std::cmp::Ordering;
use vstd::prelude::*;
use vstd::std_specs::cmp::PartialEqSpec;

verus! {

/// Number of nanoseconds in one second.
pub const NANOS_PER_SEC: u32 = 1_000_000_000;

/// Mathematical value of a [`TimeSpan`]: whole seconds and the nanoseconds
/// beyond them.
pub struct TimeSpanView {
    pub secs: nat,
    pub nanos: nat,
}

/// A non-negative span of time: whole seconds plus a sub-second part that is
/// always less than one second.
#[derive(Clone, Copy, Debug, PartialEq, Eq, Structural)]
pub struct TimeSpan {
    secs: u64,
    nanos: u32,
}

impl View for TimeSpan {
    type V = TimeSpanView;

    closed spec fn view(&self) -> TimeSpanView {
        TimeSpanView { secs: self.secs as nat, nanos: self.nanos as nat }
    }
}

impl TimeSpan {
    #[verifier::type_invariant]
    spec fn sub_second(self) -> bool {
        self.nanos < NANOS_PER_SEC
    }

    /// A span of exactly `secs` seconds.
    pub fn from_secs(secs: u64) -> (span: TimeSpan)
        ensures
            span@ == (TimeSpanView { secs: secs as nat, nanos: 0 }),
    {
        TimeSpan { secs, nanos: 0 }
    }

    /// A span of `secs` seconds and `nanos` nanoseconds, or nothing when
    /// `nanos` is a second or more.
    pub fn new(secs: u64, nanos: u32) -> (span: Option<TimeSpan>)
        ensures
            span is Some <==> nanos < NANOS_PER_SEC,
            span matches Some(s) ==> s@ == (TimeSpanView { secs: secs as nat, nanos: nanos as nat }),
    {
        if nanos < NANOS_PER_SEC {
            Some(TimeSpan { secs, nanos })
        } else {
            None
        }
    }

    /// The whole seconds of the span.
    pub fn as_secs(&self) -> (secs: u64)
        ensures
            secs == self@.secs,
    {
        self.secs
    }

    /// The part of the span beyond its whole seconds, in nanoseconds.
    pub fn subsec_nanos(&self) -> (nanos: u32)
        ensures
            nanos == self@.nanos,
            nanos < NANOS_PER_SEC,
    {
        proof {
            use_type_invariant(self);
        }
        self.nanos
    }
}

/// Mathematical value of a [`SongDetails`].
pub struct SongDetailsView {
    pub name: Seq<char>,
    pub artist: Option<Seq<char>>,
    pub year: Option<u16>,
    pub duration: Option<TimeSpanView>,
}

/// Descriptive information about a song.
#[derive(Debug)]
pub struct SongDetails {
    name: String,
    artist: Option<String>,
    year: Option<u16>,
    duration: Option<TimeSpan>,
}

impl View for SongDetails {
    type V = SongDetailsView;

    closed spec fn view(&self) -> SongDetailsView {
        SongDetailsView {
            name: self.name@,
            artist: match self.artist {
                Some(artist) => Some(artist@),
                None => None,
            },
            year: self.year,
            duration: match self.duration {
                Some(duration) => Some(duration@),
                None => None,
            },
        }
    }
}

impl SongDetailsView {
    /// The details of a song about which nothing is known: an empty name
    /// and no artist, year or duration.
    pub open spec fn unknown() -> SongDetailsView {
        SongDetailsView { name: Seq::empty(), artist: None, year: None, duration: None }
    }
}

/// The value of what a read of a details document gave, if it gave
/// anything.
pub open spec fn document_view(document: Option<SongDetails>) -> Option<SongDetailsView> {
    match document {
        Some(details) => Some(details@),
        None => None,
    }
}

/// The details that a song has after its details document was read:
/// what the document held, or the details of an unknown song when the
/// document was missing or could not be understood.
pub open spec fn loaded_details(document: Option<SongDetailsView>) -> SongDetailsView {
    match document {
        Some(details) => details,
        None => SongDetailsView::unknown(),
    }
}

/// How a duration of `secs` whole seconds reads on a player's display.
///
/// Below one hour it is minutes and seconds, `MM:SS`. From one hour on it is
/// hours, minutes and seconds, `H:MM:SS`. Minutes and seconds always take two
/// places; hours take as many as they need.
pub open spec fn clock_text(secs: nat) -> Seq<char> {
    if secs < 3600 {
        two_digits(secs / 60) + seq![':'] + two_digits(secs % 60)
    } else {
        decimal(secs / 3600) + seq![':'] + two_digits(secs / 60 % 60) + seq![':'] + two_digits(
            secs % 60,
        )
    }
}

impl Default for SongDetails {
    fn default() -> (details: SongDetails)
        ensures
            details@ == SongDetailsView::unknown(),
    {
        SongDetails { name: String::new(), artist: None, year: None, duration: None }
    }
}

impl Clone for SongDetails {
    fn clone(&self) -> (copy: SongDetails)
        ensures
            copy@ == self@,
    {
        SongDetails {
            name: self.name.clone(),
            artist: match &self.artist {
                Some(artist) => Some(artist.clone()),
                None => None,
            },
            year: self.year,
            duration: self.duration,
        }
    }
}

impl PartialEq for SongDetails {
    fn eq(&self, other: &SongDetails) -> (equal: bool) {
        let same_artist = match (&self.artist, &other.artist) {
            (Some(mine), Some(theirs)) => *mine == *theirs,
            (None, None) => true,
            _ => false,
        };
        let same_year = self.year == other.year;
        let same_duration = match (&self.duration, &other.duration) {
            (Some(mine), Some(theirs)) => *mine == *theirs,
            (None, None) => true,
            _ => false,
        };
        let same_name = self.name == other.name;
        same_name && same_artist && same_year && same_duration
    }
}

impl Eq for SongDetails {}

impl vstd::std_specs::cmp::PartialEqSpecImpl for SongDetails {
    open spec fn obeys_eq_spec() -> bool {
        true
    }

    open spec fn eq_spec(&self, other: &SongDetails) -> bool {
        self@ == other@
    }
}

/// How two years stand to each other.
pub open spec fn year_order(left: u16, right: u16) -> Ordering {
    if left < right {
        Ordering::Less
    } else if left > right {
        Ordering::Greater
    } else {
        Ordering::Equal
    }
}

/// How two spans of time stand to each other: the shorter comes first.
pub open spec fn span_order(left: TimeSpanView, right: TimeSpanView) -> Ordering {
    and_then_order(number_order(left.secs, right.secs), number_order(left.nanos, right.nanos))
}

/// How the details of two songs stand to each other: by name, then by
/// artist, then by year, then by duration. Names and artists go by
/// [`text_order`], and a part that is missing comes before any that is there.
pub open spec fn details_order(left: SongDetailsView, right: SongDetailsView) -> Ordering {
    and_then_order(
        text_order(left.name, right.name),
        and_then_order(
            option_order(left.artist, right.artist, |l: Seq<char>, r: Seq<char>| text_order(l, r)),
            and_then_order(
                option_order(left.year, right.year, |l: u16, r: u16| year_order(l, r)),
                option_order(
                    left.duration,
                    right.duration,
                    |l: TimeSpanView, r: TimeSpanView| span_order(l, r),
                ),
            ),
        ),
    )
}

impl PartialOrd for SongDetails {
    fn partial_cmp(&self, other: &SongDetails) -> (order: Option<Ordering>) {
        let by_name = compare_texts(self.name.as_str(), other.name.as_str());
        match by_name {
            Ordering::Equal => {},
            _ => {
                return Some(by_name);
            },
        }
        let by_artist = match (&self.artist, &other.artist) {
            (None, None) => Ordering::Equal,
            (None, Some(_)) => Ordering::Less,
            (Some(_), None) => Ordering::Greater,
            (Some(mine), Some(theirs)) => compare_texts(mine.as_str(), theirs.as_str()),
        };
        match by_artist {
            Ordering::Equal => {},
            _ => {
                return Some(by_artist);
            },
        }
        let by_year = match (self.year, other.year) {
            (None, None) => Ordering::Equal,
            (None, Some(_)) => Ordering::Less,
            (Some(_), None) => Ordering::Greater,
            (Some(mine), Some(theirs)) => if mine < theirs {
                Ordering::Less
            } else if mine > theirs {
                Ordering::Greater
            } else {
                Ordering::Equal
            },
        };
        match by_year {
            Ordering::Equal => {},
            _ => {
                return Some(by_year);
            },
        }
        let by_duration = match (&self.duration, &other.duration) {
            (None, None) => Ordering::Equal,
            (None, Some(_)) => Ordering::Less,
            (Some(_), None) => Ordering::Greater,
            (Some(mine), Some(theirs)) => if mine.secs < theirs.secs {
                Ordering::Less
            } else if mine.secs > theirs.secs {
                Ordering::Greater
            } else if mine.nanos < theirs.nanos {
                Ordering::Less
            } else if mine.nanos > theirs.nanos {
                Ordering::Greater
            } else {
                Ordering::Equal
            },
        };
        Some(by_duration)
    }
}

impl vstd::std_specs::cmp::PartialOrdSpecImpl for SongDetails {
    open spec fn obeys_partial_cmp_spec() -> bool {
        true
    }

    open spec fn partial_cmp_spec(&self, other: &SongDetails) -> Option<Ordering> {
        Some(details_order(self@, other@))
    }
}

impl SongDetails {
    /// Details with the given name, artist, year and duration.
    pub fn new(
        name: &str,
        artist: Option<&str>,
        year: Option<u16>,
        duration: Option<TimeSpan>,
    ) -> (details: SongDetails)
        ensures
            details@ == (SongDetailsView {
                name: name@,
                artist: match artist {
                    Some(artist) => Some(artist@),
                    None => None,
                },
                year,
                duration: match duration {
                    Some(duration) => Some(duration@),
                    None => None,
                },
            }),
    {
        SongDetails {
            name: name.to_owned(),
            artist: match artist {
                Some(artist) => Some(artist.to_owned()),
                None => None,
            },
            year,
            duration,
        }
    }

    /// The details to go on with after a details document was read.
    ///
    /// `document` is what the document held, or nothing when it was missing,
    /// unreadable or malformed. A failed read is not an error: the song is
    /// then an unknown one.
    pub fn load(document: Option<SongDetails>) -> (details: SongDetails)
        ensures
            details@ == loaded_details(document_view(document)),
    {
        match document {
            Some(details) => details,
            None => SongDetails::default(),
        }
    }

    /// Replaces the name; an empty name is allowed.
    pub fn set_name(&mut self, name: &str)
        ensures
            final(self)@ == (SongDetailsView { name: name@, ..old(self)@ }),
    {
        self.name = name.to_owned();
    }

    /// Sets the artist.
    pub fn set_artist(&mut self, artist: &str)
        ensures
            final(self)@ == (SongDetailsView { artist: Some(artist@), ..old(self)@ }),
    {
        self.artist = Some(artist.to_owned());
    }

    /// Sets the year.
    pub fn set_year(&mut self, year: u16)
        ensures
            final(self)@ == (SongDetailsView { year: Some(year), ..old(self)@ }),
    {
        self.year = Some(year);
    }

    /// Sets the duration.
    pub fn set_duration(&mut self, duration: TimeSpan)
        ensures
            final(self)@ == (SongDetailsView { duration: Some(duration@), ..old(self)@ }),
    {
        self.duration = Some(duration);
    }

    /// The name.
    pub fn name(&self) -> (name: &str)
        ensures
            name@ == self@.name,
    {
        self.name.as_str()
    }

    /// The artist, if one is known.
    pub fn artist(&self) -> (artist: Option<&str>)
        ensures
            artist is Some <==> self@.artist is Some,
            artist matches Some(a) ==> self@.artist == Some(a@),
    {
        match &self.artist {
            Some(artist) => Some(artist.as_str()),
            None => None,
        }
    }

    /// The year, if one is known.
    pub fn year(&self) -> (year: Option<u16>)
        ensures
            year == self@.year,
    {
        self.year
    }

    /// The duration, if one is known.
    pub fn duration(&self) -> (duration: Option<&TimeSpan>)
        ensures
            duration is Some <==> self@.duration is Some,
            duration matches Some(d) ==> self@.duration == Some(d@),
    {
        self.duration.as_ref()
    }

    /// The duration as a player shows it, if one is known: see
    /// [`clock_text`].
    pub fn duration_str(&self) -> (text: Option<String>)
        ensures
            text is Some <==> self@.duration is Some,
            text matches Some(t) ==> t@ == clock_text(self@.duration->0.secs),
    {
        match &self.duration {
            Some(duration) => {
                let secs = duration.as_secs();
                let mut text = String::new();
                if secs >= 3600 {
                    push_decimal(&mut text, secs / 3600);
                    text.push(':');
                    push_two_digits(&mut text, secs / 60 % 60);
                } else {
                    push_two_digits(&mut text, secs / 60);
                }
                text.push(':');
                push_two_digits(&mut text, secs % 60);
                Some(text)
            },
            None => None,
        }
    }
}

/// Mathematical value of a [`Song`].
pub struct SongView {
    pub path: Seq<char>,
    pub details_path: Seq<char>,
    pub details: SongDetailsView,
}

/// What `serde_json::to_string` makes of the text `text`: the JSON string
/// that stands for it, with its quotation marks.
pub uninterp spec fn json_string(text: Seq<char>) -> Seq<char>;

/// `serde_json::to_string`, on a text: the text as a JSON string. Any text
/// can be written as a JSON string and the writing goes to memory, so the
/// call has no way to fail; the result depends on the text alone.
#[verifier::external_body]
fn to_json_string(text: &str) -> (json: String)
    ensures
        json@ == json_string(text@),
{
    serde_json::to_string(text).unwrap()
}

/// The document that stands for a song: a JSON object with the song's two
/// paths, each as a JSON string, and nothing else. `path` and
/// `details_path` are those JSON strings.
pub open spec fn song_document(path: Seq<char>, details_path: Seq<char>) -> Seq<char> {
    "{\"path\":"@ + path + ",\"details_path\":"@ + details_path + "}"@
}

/// The document that stands for a song whose two paths, written as JSON
/// strings, are `path` and `details_path`: see [`song_document`].
pub fn frame_song_document(path: &str, details_path: &str) -> (document: String)
    ensures
        document@ == song_document(path@, details_path@),
{
    let mut document = "{\"path\":".to_owned();
    document.append(path);
    document.append(",\"details_path\":");
    document.append(details_path);
    document.append("}");
    document
}

/// `song` with its details taken from its details document: see
/// [`loaded_details`].
pub open spec fn hydrated(song: SongView, document: Option<SongDetailsView>) -> SongView {
    SongView { details: loaded_details(document), ..song }
}

/// A song: a playable file, the place of the document that describes it,
/// and its details.
///
/// A song is identified by its path alone: two songs with the same path are
/// the same song, whatever their details say.
#[derive(Debug)]
pub struct Song {
    path: String,
    details_path: String,
    details: SongDetails,
}

impl View for Song {
    type V = SongView;

    closed spec fn view(&self) -> SongView {
        SongView { path: self.path@, details_path: self.details_path@, details: self.details@ }
    }
}

impl Default for Song {
    fn default() -> (song: Song)
        ensures
            song@ == (SongView {
                path: Seq::empty(),
                details_path: Seq::empty(),
                details: SongDetailsView::unknown(),
            }),
    {
        Song { path: String::new(), details_path: String::new(), details: SongDetails::default() }
    }
}

impl Clone for Song {
    fn clone(&self) -> (copy: Song)
        ensures
            copy@ == self@,
    {
        Song {
            path: self.path.clone(),
            details_path: self.details_path.clone(),
            details: self.details.clone(),
        }
    }
}

impl PartialEq for Song {
    fn eq(&self, other: &Song) -> (equal: bool) {
        self.path == other.path
    }
}

impl Eq for Song {}

impl vstd::std_specs::cmp::PartialEqSpecImpl for Song {
    open spec fn obeys_eq_spec() -> bool {
        true
    }

    open spec fn eq_spec(&self, other: &Song) -> bool {
        self@.path == other@.path
    }
}

/// How two songs stand to each other: by path, then by details path, then
/// by details. Unlike equality, the order looks at all of a song.
pub open spec fn song_order(left: SongView, right: SongView) -> Ordering {
    and_then_order(
        text_order(left.path, right.path),
        and_then_order(
            text_order(left.details_path, right.details_path),
            details_order(left.details, right.details),
        ),
    )
}

impl PartialOrd for Song {
    fn partial_cmp(&self, other: &Song) -> (order: Option<Ordering>) {
        let by_path = compare_texts(self.path.as_str(), other.path.as_str());
        match by_path {
            Ordering::Equal => {},
            _ => {
                return Some(by_path);
            },
        }
        let by_details_path = compare_texts(
            self.details_path.as_str(),
            other.details_path.as_str(),
        );
        match by_details_path {
            Ordering::Equal => {},
            _ => {
                return Some(by_details_path);
            },
        }
        self.details.partial_cmp(&other.details)
    }
}

impl vstd::std_specs::cmp::PartialOrdSpecImpl for Song {
    open spec fn obeys_partial_cmp_spec() -> bool {
        true
    }

    open spec fn partial_cmp_spec(&self, other: &Song) -> Option<Ordering> {
        Some(song_order(self@, other@))
    }
}

impl Song {
    /// A song at `path`, described by the document at `details_path`, with
    /// the given details.
    pub fn new(path: &str, details_path: &str, details: SongDetails) -> (song: Song)
        ensures
            song@ == (SongView { path: path@, details_path: details_path@, details: details@ }),
    {
        Song { path: path.to_owned(), details_path: details_path.to_owned(), details }
    }

    /// The song with its details taken from its details document.
    ///
    /// `document` is what a read of the document at the song's details path
    /// gave: see [`SongDetails::load`]. The two paths stay as they are.
    pub fn load(self, document: Option<SongDetails>) -> (song: Song)
        ensures
            song@ == hydrated(self@, document_view(document)),
    {
        Song {
            path: self.path,
            details_path: self.details_path,
            details: SongDetails::load(document),
        }
    }

    /// The song as a JSON document: see [`song_document`]. The document
    /// holds the two paths and leaves the details out, which have a
    /// document of their own.
    pub fn to_json_str(&self) -> (document: String)
        ensures
            document@ == song_document(
                json_string(self@.path),
                json_string(self@.details_path),
            ),
    {
        let path = to_json_string(self.path.as_str());
        let details_path = to_json_string(self.details_path.as_str());
        frame_song_document(path.as_str(), details_path.as_str())
    }

    /// Where the song's file is.
    pub fn path(&self) -> (path: &str)
        ensures
            path@ == self@.path,
    {
        self.path.as_str()
    }

    /// Where the document that describes the song is.
    pub fn details_path(&self) -> (details_path: &str)
        ensures
            details_path@ == self@.details_path,
    {
        self.details_path.as_str()
    }

    /// The song's details.
    pub fn details(&self) -> (details: &SongDetails)
        ensures
            details@ == self@.details,
    {
        &self.details
    }

    /// The song's details, to change them in place. Path and details path
    /// stay as they are.
    pub fn details_mut(&mut self) -> (details: &mut SongDetails)
        ensures
            details@ == old(self)@.details,
            final(self)@ == (SongView { details: final(details)@, ..old(self)@ }),
    {
        &mut self.details
    }
}

/// Songs are told apart by their paths alone: two songs are equal exactly
/// when they are at the same path, whatever their details and their
/// details paths say.
pub proof fn lemma_songs_equal_by_path(one: Song, other: Song)
    ensures
        one.eq_spec(&other) <==> one@.path == other@.path,
{
}

/// Reading the same details document twice gives what reading it once
/// gave.
pub proof fn lemma_load_again_changes_nothing(song: SongView, document: Option<SongDetailsView>)
    ensures
        hydrated(hydrated(song, document), document) == hydrated(song, document),
{
}

/// The values of the songs of `songs`, in order.
pub open spec fn song_views(songs: Seq<Song>) -> Seq<SongView> {
    songs.map_values(|song: Song| song@)
}

/// Appending a song appends its value.
pub proof fn lemma_song_views_push(songs: Seq<Song>, song: Song)
    ensures
        song_views(songs.push(song)) == song_views(songs).push(song@),
{
    assert(song_views(songs.push(song)) =~= song_views(songs).push(song@));
}

/// Taking a song out takes its value out.
pub proof fn lemma_song_views_remove(songs: Seq<Song>, i: int)
    requires
        0 <= i < songs.len(),
    ensures
        song_views(songs.remove(i)) == song_views(songs).remove(i),
{
    assert(song_views(songs.remove(i)) =~= song_views(songs).remove(i));
}

/// The values of a stretch of songs are that stretch of the values.
pub proof fn lemma_song_views_subrange(songs: Seq<Song>, from: int, to: int)
    requires
        0 <= from <= to <= songs.len(),
    ensures
        song_views(songs.subrange(from, to)) == song_views(songs).subrange(from, to),
{
    assert(song_views(songs.subrange(from, to)) =~= song_views(songs).subrange(from, to));
}

} // verus!
