//! The catalogue: tracks, and the albums they are grouped into.

use vstd::prelude::*;

verus! {

/// One playable audio file with its metadata.
///
/// `track_num` serves display and ordering inside an album only; `length` is
/// the duration in whole seconds.
#[derive(Debug)]
pub struct Track {
    pub artist: String,
    pub track_name: String,
    pub track_num: i32,
    pub path: String,
    pub album: String,
    pub in_queue: bool,
    pub currently_playing: bool,
    pub length: u64,
}

/// The tracks that share one artist and one album title.
#[derive(Debug)]
pub struct Album {
    pub artist: String,
    pub name: String,
    pub tracks: Vec<Track>,
}

impl Track {
    /// A track that is neither queued nor playing.
    pub fn new(
        artist: String,
        track_name: String,
        track_num: i32,
        path: String,
        album: String,
        length: u64,
    ) -> (t: Self)
        ensures
            t == (Track {
                artist,
                track_name,
                track_num,
                path,
                album,
                in_queue: false,
                currently_playing: false,
                length,
            }),
    {
        Track {
            artist,
            track_name,
            track_num,
            path,
            album,
            in_queue: false,
            currently_playing: false,
            length,
        }
    }
}

/// What the tags of an audio file say, as far as they say anything.
#[derive(Debug)]
pub struct TrackTags {
    pub title: Option<String>,
    pub number: Option<String>,
    pub artist: Option<String>,
    pub album: Option<String>,
}

/// The number that `text` reads as, where it is a decimal number that an
/// `i32` holds.
pub uninterp spec fn parsed_i32(text: Seq<char>) -> Option<i32>;

/// Reads `text` as a number with `str::parse::<i32>`. The result depends
/// on the characters of `text` alone; text that is no such number gives
/// nothing.
#[verifier::external_body]
fn parse_i32(text: &str) -> (number: Option<i32>)
    ensures
        number == parsed_i32(text@),
{
    text.parse::<i32>().ok()
}

/// The text of a tag, or `fallback` where the tag is missing.
pub open spec fn text_or(tag: Option<String>, fallback: Seq<char>) -> Seq<char> {
    match tag {
        Some(text) => text@,
        None => fallback,
    }
}

/// The track number that a number tag gives: the number it reads as, and
/// zero where the tag is missing or reads as no number.
pub open spec fn number_or_zero(parsed: Option<i32>) -> i32 {
    match parsed {
        Some(number) => number,
        None => 0,
    }
}

/// Whether `track` is what the tags say of the file at `path`, with the
/// track number `number` and the words "Unknown ..." for what they leave
/// out.
pub open spec fn is_track_of(
    track: Track,
    path: Seq<char>,
    title: Option<String>,
    number: Option<i32>,
    artist: Option<String>,
    album: Option<String>,
    length: u64,
) -> bool {
    &&& track.artist@ == text_or(artist, "Unknown Artist"@)
    &&& track.track_name@ == text_or(title, "Unknown Title"@)
    &&& track.album@ == text_or(album, "Unknown Album"@)
    &&& track.track_num == number_or_zero(number)
    &&& track.path@ == path
    &&& track.length == length
    &&& !track.in_queue
    &&& !track.currently_playing
}

/// The text of `tag`, or `fallback` where the tag is missing.
fn text_or_default(tag: Option<String>, fallback: &str) -> (text: String)
    ensures
        text@ == text_or(tag, fallback@),
{
    match tag {
        Some(text) => text,
        None => String::from_str(fallback),
    }
}

/// The track for the file at `file_path` from what its tags hold, with the
/// number tag already read as a number.
pub fn track_with_defaults(
    file_path: &str,
    title: Option<String>,
    number: Option<i32>,
    artist: Option<String>,
    album: Option<String>,
    length: u64,
) -> (track: Track)
    ensures
        is_track_of(track, file_path@, title, number, artist, album, length),
{
    let track_num: i32 = match number {
        Some(n) => n,
        None => 0,
    };
    Track::new(
        text_or_default(artist, "Unknown Artist"),
        text_or_default(title, "Unknown Title"),
        track_num,
        String::from_str(file_path),
        text_or_default(album, "Unknown Album"),
        length,
    )
}

/// The track for the file at `file_path`, of `length` seconds, from the
/// tags that were read from it. A missing tag gives "Unknown ..."; a number
/// tag that is missing or holds no number gives track number zero.
pub fn get_track_metadata(file_path: &str, tags: TrackTags, length: u64) -> (track: Track)
    ensures
        is_track_of(
            track,
            file_path@,
            tags.title,
            match tags.number {
                Some(text) => parsed_i32(text@),
                None => None,
            },
            tags.artist,
            tags.album,
            length,
        ),
{
    let number: Option<i32> = match &tags.number {
        Some(text) => parse_i32(text.as_str()),
        None => None,
    };
    track_with_defaults(file_path, tags.title, number, tags.artist, tags.album, length)
}

/// Whether a file with the extension `extension` is taken into the
/// catalogue: `wav`, `mp3` and `flac` are, in lower case.
pub fn is_supported_extension(extension: &str) -> (supported: bool)
    ensures
        supported == (extension@ == "wav"@ || extension@ == "mp3"@ || extension@ == "flac"@),
{
    let given: String = String::from_str(extension);
    given == String::from_str("wav") || given == String::from_str("mp3") || given
        == String::from_str("flac")
}

impl Clone for Track {
    /// The copy equals the track field by field.
    fn clone(&self) -> (t: Self)
        ensures
            t == *self,
    {
        Track {
            artist: self.artist.clone(),
            track_name: self.track_name.clone(),
            track_num: self.track_num,
            path: self.path.clone(),
            album: self.album.clone(),
            in_queue: self.in_queue,
            currently_playing: self.currently_playing,
            length: self.length,
        }
    }
}

/// Where a track with number `num` goes into `sorted`, a list in rising
/// order of track numbers: behind the last track whose number is not
/// greater.
pub open spec fn insertion_point(sorted: Seq<Track>, num: i32) -> int
    decreases sorted.len(),
{
    if sorted.len() == 0 {
        0
    } else if sorted.last().track_num <= num {
        sorted.len() as int
    } else {
        insertion_point(sorted.drop_last(), num)
    }
}

/// `sorted` with `track` put in by its number, behind the tracks of the
/// same number that are there already.
pub open spec fn insert_by_number(sorted: Seq<Track>, track: Track) -> Seq<Track> {
    sorted.insert(insertion_point(sorted, track.track_num), track)
}

/// Whether `track` belongs to the album `name` by `artist`.
pub open spec fn in_album(track: Track, artist: Seq<char>, name: Seq<char>) -> bool {
    track.artist@ == artist && track.album@ == name
}

/// The tracks among `tracks` that belong to the album `name` by `artist`,
/// in rising order of track numbers; tracks of one number stay in the order
/// in which `tracks` lists them.
pub open spec fn album_tracks(
    tracks: Seq<Track>,
    artist: Seq<char>,
    name: Seq<char>,
) -> Seq<Track>
    decreases tracks.len(),
{
    if tracks.len() == 0 {
        Seq::empty()
    } else {
        let earlier = album_tracks(tracks.drop_last(), artist, name);
        if in_album(tracks.last(), artist, name) {
            insert_by_number(earlier, tracks.last())
        } else {
            earlier
        }
    }
}

/// The albums that `tracks` come from, each as its artist and its title,
/// each once, in the order in which `tracks` first mentions them.
pub open spec fn album_keys(tracks: Seq<Track>) -> Seq<(Seq<char>, Seq<char>)>
    decreases tracks.len(),
{
    if tracks.len() == 0 {
        Seq::empty()
    } else {
        let earlier = album_keys(tracks.drop_last());
        let key = (tracks.last().artist@, tracks.last().album@);
        if earlier.contains(key) {
            earlier
        } else {
            earlier.push(key)
        }
    }
}

/// Whether `albums` is the grouping of `tracks` into albums: one album for
/// each pair of artist and title that occurs, in the order of
/// [`album_keys`], holding the tracks of [`album_tracks`].
pub open spec fn is_album_list(albums: Seq<Album>, tracks: Seq<Track>) -> bool {
    &&& albums.len() == album_keys(tracks).len()
    &&& forall|i: int|
        0 <= i < albums.len() ==> {
            &&& ((#[trigger] albums[i]).artist@, albums[i].name@) == album_keys(tracks)[i]
            &&& albums[i].tracks@ == album_tracks(tracks, albums[i].artist@, albums[i].name@)
        }
}

/// Whether the track numbers never fall along `tracks`.
pub open spec fn numbers_rise(tracks: Seq<Track>) -> bool {
    forall|i: int, j: int|
        0 <= i < j < tracks.len() ==> tracks[i].track_num <= tracks[j].track_num
}

/// The test that picks the tracks of the album `name` by `artist`.
pub open spec fn of_album(artist: Seq<char>, name: Seq<char>) -> spec_fn(Track) -> bool {
    |track: Track| in_album(track, artist, name)
}

/// The insertion point parts a list: no track behind it has a number as
/// small as `num`, and the track before it has no greater number.
pub proof fn lemma_insertion_point_parts(sorted: Seq<Track>, num: i32)
    ensures
        0 <= insertion_point(sorted, num) <= sorted.len(),
        forall|k: int|
            insertion_point(sorted, num) <= k < sorted.len() ==> (#[trigger] sorted[k]).track_num
                > num,
        insertion_point(sorted, num) > 0 ==> sorted[insertion_point(sorted, num) - 1].track_num
            <= num,
    decreases sorted.len(),
{
    if sorted.len() > 0 && sorted.last().track_num > num {
        lemma_insertion_point_parts(sorted.drop_last(), num);
        assert forall|k: int| insertion_point(sorted, num) <= k < sorted.len() implies (
        #[trigger] sorted[k]).track_num > num by {
            if k < sorted.len() - 1 {
                assert(sorted[k] == sorted.drop_last()[k]);
            }
        }
    }
}

/// The list of an album holds the tracks of that album and no others, each
/// as often as the catalogue does, and their numbers never fall.
pub proof fn lemma_album_tracks_are_sorted(tracks: Seq<Track>, artist: Seq<char>, name: Seq<char>)
    ensures
        numbers_rise(album_tracks(tracks, artist, name)),
        album_tracks(tracks, artist, name).to_multiset() == tracks.filter(
            of_album(artist, name),
        ).to_multiset(),
    decreases tracks.len(),
{
    reveal_with_fuel(Seq::filter, 2);
    if tracks.len() > 0 {
        let earlier = album_tracks(tracks.drop_last(), artist, name);
        let last = tracks.last();
        lemma_album_tracks_are_sorted(tracks.drop_last(), artist, name);
        if in_album(last, artist, name) {
            let at = insertion_point(earlier, last.track_num);
            lemma_insertion_point_parts(earlier, last.track_num);
            let longer = earlier.insert(at, last);
            assert forall|i: int, j: int| 0 <= i < j < longer.len() implies longer[i].track_num
                <= longer[j].track_num by {
                if i < at && j == at && at > 0 {
                    assert(earlier[i].track_num <= earlier[at - 1].track_num || i == at - 1);
                }
            }
            vstd::seq_lib::to_multiset_insert(earlier, at, last);
            vstd::seq_lib::to_multiset_build(
                tracks.drop_last().filter(of_album(artist, name)),
                last,
            );
        }
    } else {
        assert(tracks.filter(of_album(artist, name)) =~= Seq::empty());
    }
}

/// An album that no track mentions has no tracks.
pub proof fn lemma_unmentioned_album_is_empty(
    tracks: Seq<Track>,
    artist: Seq<char>,
    name: Seq<char>,
)
    requires
        !album_keys(tracks).contains((artist, name)),
    ensures
        album_tracks(tracks, artist, name).len() == 0,
    decreases tracks.len(),
{
    if tracks.len() > 0 {
        let earlier = album_keys(tracks.drop_last());
        let key = (tracks.last().artist@, tracks.last().album@);
        if earlier.contains(key) {
            assert(key != (artist, name));
        } else {
            assert(earlier.push(key).last() == key);
            assert(key != (artist, name));
            assert forall|k: (Seq<char>, Seq<char>)| earlier.contains(k) implies earlier.push(
                key,
            ).contains(k) by {
                let i = choose|i: int| 0 <= i < earlier.len() && earlier[i] == k;
                assert(earlier.push(key)[i] == k);
            }
        }
        lemma_unmentioned_album_is_empty(tracks.drop_last(), artist, name);
    }
}

/// No album is listed twice.
pub proof fn lemma_album_keys_are_distinct(tracks: Seq<Track>)
    ensures
        forall|i: int, j: int|
            0 <= i < j < album_keys(tracks).len() ==> album_keys(tracks)[i] != album_keys(
                tracks,
            )[j],
    decreases tracks.len(),
{
    if tracks.len() > 0 {
        lemma_album_keys_are_distinct(tracks.drop_last());
        let earlier = album_keys(tracks.drop_last());
        let key = (tracks.last().artist@, tracks.last().album@);
        if !earlier.contains(key) {
            assert forall|i: int, j: int| 0 <= i < j < album_keys(tracks).len() implies album_keys(
                tracks,
            )[i] != album_keys(tracks)[j] by {
                if j == earlier.len() && earlier[i] == key {
                    assert(earlier.contains(key));
                }
            }
        }
    }
}

/// Groups `tracks_vec` into albums by artist and album title. The albums
/// come in the order in which the tracks first mention them; inside an
/// album the tracks are in rising order of their numbers, and tracks of one
/// number keep their order.
pub fn create_album_list(tracks_vec: Vec<Track>) -> (album_list: Vec<Album>)
    ensures
        is_album_list(album_list@, tracks_vec@),
{
    let mut album_list: Vec<Album> = Vec::new();
    let mut done: usize = 0;
    while done < tracks_vec.len()
        invariant
            done <= tracks_vec.len(),
            is_album_list(album_list@, tracks_vec@.subrange(0, done as int)),
        decreases tracks_vec.len() - done,
    {
        let ghost seen = tracks_vec@.subrange(0, done as int);
        let ghost next = tracks_vec@.subrange(0, done as int + 1);
        let ghost before = album_list@;
        let track: Track = tracks_vec[done].clone();
        proof {
            assert(next.drop_last() =~= seen);
            assert(next.last() == track);
            lemma_album_keys_are_distinct(seen);
        }
        let found: Option<usize> = find_album(&album_list, &track);
        match found {
            Some(at) => {
                let mut album: Album = album_list.remove(at);
                let position: usize = place_by_number(&album.tracks, track.track_num);
                album.tracks.insert(position, track);
                album_list.insert(at, album);
                proof {
                    let key = (track.artist@, track.album@);
                    assert(album_keys(seen)[at as int] == key);
                    assert(album_keys(seen).contains(key));
                    assert(album_keys(next) == album_keys(seen));
                    assert(album_list@.len() == before.len());
                    assert forall|i: int| 0 <= i < album_list@.len() implies {
                        &&& ((#[trigger] album_list@[i]).artist@, album_list@[i].name@)
                            == album_keys(next)[i]
                        &&& album_list@[i].tracks@ == album_tracks(
                            next,
                            album_list@[i].artist@,
                            album_list@[i].name@,
                        )
                    } by {
                        if i != at {
                            assert(album_list@[i] == before[i]);
                            assert(album_keys(seen)[i] != album_keys(seen)[at as int]);
                        }
                    }
                }
            },
            None => {
                let artist: String = track.artist.clone();
                let name: String = track.album.clone();
                let mut tracks: Vec<Track> = Vec::new();
                tracks.push(track);
                album_list.push(Album { artist, name, tracks });
                proof {
                    let key = (track.artist@, track.album@);
                    assert(!album_keys(seen).contains(key)) by {
                        if album_keys(seen).contains(key) {
                            let i = choose|i: int|
                                0 <= i < album_keys(seen).len() && album_keys(seen)[i] == key;
                            assert((before[i].artist@, before[i].name@) == key);
                        }
                    }
                    lemma_unmentioned_album_is_empty(seen, track.artist@, track.album@);
                    assert(album_tracks(seen, track.artist@, track.album@) =~= Seq::empty());
                    assert(album_keys(next) == album_keys(seen).push(key));
                    assert(tracks@ =~= insert_by_number(Seq::empty(), track));
                    assert forall|i: int| 0 <= i < album_list@.len() implies {
                        &&& ((#[trigger] album_list@[i]).artist@, album_list@[i].name@)
                            == album_keys(next)[i]
                        &&& album_list@[i].tracks@ == album_tracks(
                            next,
                            album_list@[i].artist@,
                            album_list@[i].name@,
                        )
                    } by {
                        if i < before.len() {
                            assert(album_list@[i] == before[i]);
                            assert(album_keys(seen)[i] != key) by {
                                if album_keys(seen)[i] == key {
                                    assert(album_keys(seen).contains(key));
                                }
                            }
                        }
                    }
                }
            },
        }
        done += 1;
    }
    assert(tracks_vec@.subrange(0, done as int) =~= tracks_vec@);
    album_list
}

/// The index of the album that `track` belongs to, if `albums` holds it.
fn find_album(albums: &Vec<Album>, track: &Track) -> (found: Option<usize>)
    ensures
        found matches Some(at) ==> at < albums@.len() && in_album(
            *track,
            albums@[at as int].artist@,
            albums@[at as int].name@,
        ),
        found is None ==> forall|i: int|
            0 <= i < albums@.len() ==> !in_album(
                *track,
                (#[trigger] albums@[i]).artist@,
                albums@[i].name@,
            ),
{
    let mut at: usize = 0;
    while at < albums.len()
        invariant
            at <= albums.len(),
            forall|i: int|
                0 <= i < at ==> !in_album(
                    *track,
                    (#[trigger] albums@[i]).artist@,
                    albums@[i].name@,
                ),
        decreases albums.len() - at,
    {
        if albums[at].artist == track.artist && albums[at].name == track.album {
            return Some(at);
        }
        at += 1;
    }
    None
}

/// Where a track with number `num` goes into `sorted`.
fn place_by_number(sorted: &Vec<Track>, num: i32) -> (position: usize)
    ensures
        position == insertion_point(sorted@, num),
        position <= sorted@.len(),
{
    let mut position: usize = sorted.len();
    assert(sorted@.subrange(0, position as int) =~= sorted@);
    while position > 0 && sorted[position - 1].track_num > num
        invariant
            position <= sorted.len(),
            insertion_point(sorted@, num) == insertion_point(
                sorted@.subrange(0, position as int),
                num,
            ),
        decreases position,
    {
        assert(sorted@.subrange(0, position as int).drop_last() =~= sorted@.subrange(
            0,
            position as int - 1,
        ));
        position -= 1;
    }
    position
}

/// The catalogue as the user interface wants it: the tracks as they were
/// found, and the albums they group into.
pub fn run(track_list: Vec<Track>) -> (catalogue: (Vec<Track>, Vec<Album>))
    ensures
        catalogue.0 == track_list,
        is_album_list(catalogue.1@, track_list@),
{
    let copy: Vec<Track> = track_list.clone();
    assert(copy@ =~= track_list@);
    let album_list: Vec<Album> = create_album_list(copy);
    (track_list, album_list)
}

impl Clone for Album {
    /// The copy equals the album: the same names, the same tracks in the
    /// same order.
    fn clone(&self) -> (a: Self)
        ensures
            a.artist == self.artist,
            a.name == self.name,
            a.tracks@ == self.tracks@,
    {
        let tracks: Vec<Track> = self.tracks.clone();
        assert(tracks@ =~= self.tracks@);
        Album { artist: self.artist.clone(), name: self.name.clone(), tracks }
    }
}

} // verus!
