//! The record of known songs and of the one that is playing.

use crate::text::str_eq;
use vstd::prelude::*;
use vstd::string::*;

verus! {

/// A song as the playlist knows it. `song_id` is its key.
#[derive(Debug)]
pub struct Song {
    pub song_id: String,
    pub title: String,
    pub tags: String,
    pub prompt: String,
    pub username: String,
    pub audio_url: String,
    pub lyric: Option<String>,
    pub gpt_description_prompt: String,
    /// Seconds since the epoch at which the song was first recorded.
    pub created_at: i64,
    /// Seconds since the epoch of the last write to this record.
    pub last_updated: i64,
    /// Whether the audio is in the local content store.
    pub downloaded: bool,
}

/// Mathematical value of a `Song`.
pub struct SongView {
    pub song_id: Seq<char>,
    pub title: Seq<char>,
    pub tags: Seq<char>,
    pub prompt: Seq<char>,
    pub username: Seq<char>,
    pub audio_url: Seq<char>,
    pub lyric: Option<Seq<char>>,
    pub gpt_description_prompt: Seq<char>,
    pub created_at: int,
    pub last_updated: int,
    pub downloaded: bool,
}

/// The view of an optional string.
pub open spec fn opt_view(s: Option<String>) -> Option<Seq<char>> {
    match s {
        Some(t) => Some(t@),
        None => None,
    }
}

/// Copies an optional string.
pub fn clone_opt(s: &Option<String>) -> (r: Option<String>)
    ensures
        opt_view(r) == opt_view(*s),
{
    match s {
        Some(t) => Some(t.clone()),
        None => None,
    }
}

impl View for Song {
    type V = SongView;

    open spec fn view(&self) -> SongView {
        SongView {
            song_id: self.song_id@,
            title: self.title@,
            tags: self.tags@,
            prompt: self.prompt@,
            username: self.username@,
            audio_url: self.audio_url@,
            lyric: opt_view(self.lyric),
            gpt_description_prompt: self.gpt_description_prompt@,
            created_at: self.created_at as int,
            last_updated: self.last_updated as int,
            downloaded: self.downloaded,
        }
    }
}

impl Clone for Song {
    fn clone(&self) -> (r: Self)
        ensures
            r@ == self@,
    {
        Song {
            song_id: self.song_id.clone(),
            title: self.title.clone(),
            tags: self.tags.clone(),
            prompt: self.prompt.clone(),
            username: self.username.clone(),
            audio_url: self.audio_url.clone(),
            lyric: clone_opt(&self.lyric),
            gpt_description_prompt: self.gpt_description_prompt.clone(),
            created_at: self.created_at,
            last_updated: self.last_updated,
            downloaded: self.downloaded,
        }
    }
}

/// One row of the playlist: a song that was queued, and what became of it.
#[derive(Debug)]
pub struct PlaylistRow {
    pub song_id: String,
    /// When the song was last started, if it ever was.
    pub played_at: Option<i64>,
    /// Whether this is the song that is playing.
    pub playing: bool,
}

/// Mathematical value of a `PlaylistRow`.
pub struct RowView {
    pub song_id: Seq<char>,
    pub played_at: Option<int>,
    pub playing: bool,
}

impl View for PlaylistRow {
    type V = RowView;

    open spec fn view(&self) -> RowView {
        RowView {
            song_id: self.song_id@,
            played_at: match self.played_at {
                Some(t) => Some(t as int),
                None => None,
            },
            playing: self.playing,
        }
    }
}

/// Mathematical value of a `PlaylistState`: the known songs in the order in
/// which they were first recorded, and the rows in the order in which they
/// were queued.
pub struct PlaylistView {
    pub songs: Seq<SongView>,
    pub rows: Seq<RowView>,
}

/// Why a playlist operation could not answer.
#[derive(Debug, PartialEq, Eq, Structural, Clone, Copy)]
pub enum PlaylistError {
    /// No song, or no row, goes by that id; or nothing is current.
    NotFound,
}

/// No two songs share an id.
pub open spec fn songs_unique(songs: Seq<SongView>) -> bool {
    forall|i: int, j: int|
        0 <= i < j < songs.len() ==> (#[trigger] songs[i]).song_id != (#[trigger] songs[j]).song_id
}

/// No two rows share an id.
pub open spec fn rows_unique(rows: Seq<RowView>) -> bool {
    forall|i: int, j: int|
        0 <= i < j < rows.len() ==> (#[trigger] rows[i]).song_id != (#[trigger] rows[j]).song_id
}

/// At most one row is marked as playing.
pub open spec fn at_most_one_playing(rows: Seq<RowView>) -> bool {
    forall|i: int, j: int|
        0 <= i < rows.len() && 0 <= j < rows.len() && (#[trigger] rows[i]).playing && (
        #[trigger] rows[j]).playing ==> i == j
}

impl PlaylistView {
    /// What every playlist satisfies.
    pub open spec fn wf(self) -> bool {
        &&& songs_unique(self.songs)
        &&& rows_unique(self.rows)
        &&& at_most_one_playing(self.rows)
    }

    /// Whether a row exists for `id`.
    pub open spec fn has_row(self, id: Seq<char>) -> bool {
        exists|i: int| 0 <= i < self.rows.len() && (#[trigger] self.rows[i]).song_id == id
    }

    /// Whether a song is known by `id`.
    pub open spec fn has_song(self, id: Seq<char>) -> bool {
        exists|i: int| 0 <= i < self.songs.len() && (#[trigger] self.songs[i]).song_id == id
    }

    /// The playlist after `id` was queued: a fresh row at the end, unless
    /// a row for `id` is there already.
    pub open spec fn enqueue(self, id: Seq<char>) -> PlaylistView {
        if self.has_row(id) {
            self
        } else {
            PlaylistView {
                rows: self.rows.push(RowView { song_id: id, played_at: None, playing: false }),
                ..self
            }
        }
    }

    /// The playlist after the row of `id` was marked as started at `now`:
    /// that row is the one playing, and no other is.
    pub open spec fn mark_played(self, id: Seq<char>, now: int) -> PlaylistView {
        PlaylistView {
            rows: Seq::new(
                self.rows.len(),
                |i: int|
                    if self.rows[i].song_id == id {
                        RowView { song_id: id, played_at: Some(now), playing: true }
                    } else {
                        RowView { playing: false, ..self.rows[i] }
                    },
            ),
            ..self
        }
    }

    /// The playlist after every row was marked as stopped.
    pub open spec fn mark_all_stopped(self) -> PlaylistView {
        PlaylistView {
            rows: Seq::new(self.rows.len(), |i: int| RowView { playing: false, ..self.rows[i] }),
            ..self
        }
    }

    /// The id of the row that is playing, if one is.
    pub open spec fn current_id(self) -> Option<Seq<char>> {
        if exists|i: int| 0 <= i < self.rows.len() && (#[trigger] self.rows[i]).playing {
            let i = choose|i: int| 0 <= i < self.rows.len() && (#[trigger] self.rows[i]).playing;
            Some(self.rows[i].song_id)
        } else {
            None
        }
    }

    /// The song known by `id`, if one is.
    pub open spec fn song(self, id: Seq<char>) -> Option<SongView> {
        if self.has_song(id) {
            let i = choose|i: int|
                0 <= i < self.songs.len() && (#[trigger] self.songs[i]).song_id == id;
            Some(self.songs[i])
        } else {
            None
        }
    }

    /// The song of the row that is playing, if a row is playing and its
    /// song is known.
    pub open spec fn current(self) -> Option<SongView> {
        match self.current_id() {
            Some(id) => self.song(id),
            None => None,
        }
    }

    /// The playlist after `s` was recorded. A new id adds the song at the
    /// end. A known id has its record overwritten, except that the time of
    /// its first recording stays and that `downloaded`, once set, stays set.
    pub open spec fn upsert(self, s: SongView) -> PlaylistView {
        if self.has_song(s.song_id) {
            let i = choose|i: int|
                0 <= i < self.songs.len() && (#[trigger] self.songs[i]).song_id == s.song_id;
            PlaylistView {
                songs: self.songs.update(
                    i,
                    SongView {
                        created_at: self.songs[i].created_at,
                        downloaded: self.songs[i].downloaded || s.downloaded,
                        ..s
                    },
                ),
                ..self
            }
        } else {
            PlaylistView { songs: self.songs.push(s), ..self }
        }
    }

    /// The playlist after the audio of `id` was stored at `now`.
    pub open spec fn mark_downloaded(self, id: Seq<char>, now: int) -> PlaylistView {
        PlaylistView {
            songs: Seq::new(
                self.songs.len(),
                |i: int|
                    if self.songs[i].song_id == id {
                        SongView { downloaded: true, last_updated: now, ..self.songs[i] }
                    } else {
                        self.songs[i]
                    },
            ),
            ..self
        }
    }

    /// Whether row `i` is the one started last: it was started, no row was
    /// started later, and of the rows started at the same time it is the
    /// first.
    pub open spec fn is_last_played(self, i: int) -> bool {
        &&& 0 <= i < self.rows.len()
        &&& self.rows[i].played_at is Some
        &&& forall|j: int|
            0 <= j < self.rows.len() && (#[trigger] self.rows[j]).played_at is Some ==> {
                let t = self.rows[i].played_at->0;
                let u = self.rows[j].played_at->0;
                u < t || (u == t && i <= j)
            }
    }

    /// The id of the row started last, if any row was started.
    pub open spec fn last_played_id(self) -> Option<Seq<char>> {
        if self.any_played() {
            let i = choose|i: int| self.is_last_played(i);
            Some(self.rows[i].song_id)
        } else {
            None
        }
    }

    /// Whether any row was ever started.
    pub open spec fn any_played(self) -> bool {
        exists|j: int| 0 <= j < self.rows.len() && (#[trigger] self.rows[j]).played_at is Some
    }
}


/// The views of a vector of songs.
pub open spec fn song_views(v: Seq<Song>) -> Seq<SongView> {
    v.map_values(|s: Song| s@)
}

/// The views of a vector of rows.
pub open spec fn row_views(v: Seq<PlaylistRow>) -> Seq<RowView> {
    v.map_values(|r: PlaylistRow| r@)
}

/// The known songs and the playlist rows, held in memory. The durable
/// store mirrors it: every write here is one write there.
pub struct PlaylistState {
    songs: Vec<Song>,
    rows: Vec<PlaylistRow>,
}

impl View for PlaylistState {
    type V = PlaylistView;

    closed spec fn view(&self) -> PlaylistView {
        PlaylistView { songs: song_views(self.songs@), rows: row_views(self.rows@) }
    }
}

impl PlaylistState {
    /// What holds of every playlist: its value is well formed.
    #[verifier::type_invariant]
    pub open spec fn inv(self) -> bool {
        self@.wf()
    }

    /// The empty playlist.
    pub fn new() -> (r: Self)
        ensures
            r@.songs.len() == 0,
            r@.rows.len() == 0,
    {
        PlaylistState { songs: Vec::new(), rows: Vec::new() }
    }

    /// The number of known songs.
    pub fn song_count(&self) -> (n: usize)
        ensures
            n == self@.songs.len(),
    {
        self.songs.len()
    }

    /// The number of rows.
    pub fn row_count(&self) -> (n: usize)
        ensures
            n == self@.rows.len(),
    {
        self.rows.len()
    }

    fn row_position(&self, id: &str) -> (r: Option<usize>)
        ensures
            match r {
                Some(i) => i < self.rows.len() && self@.rows[i as int].song_id == id@,
                None => !self@.has_row(id@),
            },
    {
        let mut i: usize = 0;
        while i < self.rows.len()
            invariant
                0 <= i <= self.rows.len(),
                forall|j: int| 0 <= j < i ==> (#[trigger] self@.rows[j]).song_id != id@,
            decreases self.rows.len() - i,
        {
            if str_eq(self.rows[i].song_id.as_str(), id) {
                return Some(i);
            }
            i = i + 1;
        }
        None
    }

    fn song_position(&self, id: &str) -> (r: Option<usize>)
        ensures
            match r {
                Some(i) => i < self.songs.len() && self@.songs[i as int].song_id == id@,
                None => !self@.has_song(id@),
            },
    {
        let mut i: usize = 0;
        while i < self.songs.len()
            invariant
                0 <= i <= self.songs.len(),
                forall|j: int| 0 <= j < i ==> (#[trigger] self@.songs[j]).song_id != id@,
            decreases self.songs.len() - i,
        {
            if str_eq(self.songs[i].song_id.as_str(), id) {
                return Some(i);
            }
            i = i + 1;
        }
        None
    }

    /// Whether a row exists for `id`.
    pub fn has_row(&self, id: &str) -> (r: bool)
        ensures
            r == self@.has_row(id@),
    {
        self.row_position(id).is_some()
    }

    /// Queues `song_id`. Queuing an id twice leaves one row.
    pub fn enqueue(&mut self, song_id: &str)
        ensures
            final(self)@ == old(self)@.enqueue(song_id@),
    {
        proof {
            use_type_invariant(&*self);
        }
        if self.row_position(song_id).is_none() {
            let ghost before = self@;
            let row = PlaylistRow { song_id: String::from_str(song_id), played_at: None, playing: false };
            let mut rows: Vec<PlaylistRow> = Vec::new();
            core::mem::swap(&mut rows, &mut self.rows);
            rows.push(row);
            proof {
                assert(row_views(rows@) =~= before.rows.push(
                    RowView { song_id: song_id@, played_at: None, playing: false },
                ));
            }
            self.rows = rows;
        }
    }

    /// Marks the row of `song_id` as started at `now`: it becomes the one
    /// row that is playing. Without such a row nothing changes.
    pub fn mark_played(&mut self, song_id: &str, now: i64) -> (r: Result<(), PlaylistError>)
        ensures
            r is Ok <==> old(self)@.has_row(song_id@),
            r is Ok ==> final(self)@ == old(self)@.mark_played(song_id@, now as int),
            r is Err ==> final(self)@ == old(self)@,
    {
        proof {
            use_type_invariant(&*self);
        }
        if self.row_position(song_id).is_none() {
            return Err(PlaylistError::NotFound);
        }
        let ghost before = self@;
        let ghost after = before.mark_played(song_id@, now as int);
        let mut rows: Vec<PlaylistRow> = Vec::new();
        let mut i: usize = 0;
        while i < self.rows.len()
            invariant
                0 <= i <= self.rows.len(),
                self@ == before,
                after == before.mark_played(song_id@, now as int),
                rows.len() == i,
                forall|j: int| 0 <= j < i ==> (#[trigger] rows[j])@ == after.rows[j],
            decreases self.rows.len() - i,
        {
            let row = if str_eq(self.rows[i].song_id.as_str(), song_id) {
                PlaylistRow { song_id: String::from_str(song_id), played_at: Some(now), playing: true }
            } else {
                PlaylistRow {
                    song_id: self.rows[i].song_id.clone(),
                    played_at: self.rows[i].played_at,
                    playing: false,
                }
            };
            rows.push(row);
            i = i + 1;
        }
        proof {
            assert(row_views(rows@) =~= after.rows);
        }
        self.rows = rows;
        Ok(())
    }

    /// Marks every row as stopped. This is what idle detection writes.
    pub fn mark_all_stopped(&mut self)
        ensures
            final(self)@ == old(self)@.mark_all_stopped(),
    {
        proof {
            use_type_invariant(&*self);
        }
        let ghost before = self@;
        let ghost after = before.mark_all_stopped();
        let mut rows: Vec<PlaylistRow> = Vec::new();
        let mut i: usize = 0;
        while i < self.rows.len()
            invariant
                0 <= i <= self.rows.len(),
                self@ == before,
                after == before.mark_all_stopped(),
                rows.len() == i,
                forall|j: int| 0 <= j < i ==> (#[trigger] rows[j])@ == after.rows[j],
            decreases self.rows.len() - i,
        {
            rows.push(
                PlaylistRow {
                    song_id: self.rows[i].song_id.clone(),
                    played_at: self.rows[i].played_at,
                    playing: false,
                },
            );
            i = i + 1;
        }
        proof {
            assert(row_views(rows@) =~= after.rows);
        }
        self.rows = rows;
    }

    /// The song known by `song_id`.
    pub fn find_song(&self, song_id: &str) -> (r: Result<Song, PlaylistError>)
        ensures
            match r {
                Ok(s) => self@.song(song_id@) == Some(s@),
                Err(e) => e == PlaylistError::NotFound && self@.song(song_id@) is None,
            },
    {
        proof {
            use_type_invariant(self);
        }
        match self.song_position(song_id) {
            Some(i) => Ok(self.songs[i].clone()),
            None => Err(PlaylistError::NotFound),
        }
    }

    /// The id of the row that is playing.
    pub fn current_id(&self) -> (r: Option<String>)
        ensures
            opt_view(r) == self@.current_id(),
    {
        proof {
            use_type_invariant(self);
        }
        let mut i: usize = 0;
        while i < self.rows.len()
            invariant
                0 <= i <= self.rows.len(),
                self@.wf(),
                forall|j: int| 0 <= j < i ==> !(#[trigger] self@.rows[j]).playing,
            decreases self.rows.len() - i,
        {
            if self.rows[i].playing {
                proof {
                    let v = self@;
                    assert(v.rows[i as int].playing);
                    let k = choose|k: int| 0 <= k < v.rows.len() && (#[trigger] v.rows[k]).playing;
                    assert(v.rows[k].playing);
                    assert(k == i);
                }
                return Some(self.rows[i].song_id.clone());
            }
            i = i + 1;
        }
        None
    }

    /// The song that is playing: the song of the one row marked as playing.
    pub fn get_current(&self) -> (r: Result<Song, PlaylistError>)
        ensures
            match r {
                Ok(s) => self@.current() == Some(s@),
                Err(e) => e == PlaylistError::NotFound && self@.current() is None,
            },
    {
        match self.current_id() {
            Some(id) => self.find_song(id.as_str()),
            None => Err(PlaylistError::NotFound),
        }
    }

    /// One of the known songs, chosen by `pick`: the song at position
    /// `pick` modulo the number of songs. The caller draws `pick`.
    pub fn find_random(&self, pick: u64) -> (r: Result<Song, PlaylistError>)
        ensures
            match r {
                Ok(s) => self@.songs.len() > 0 && s@ == self@.songs[pick as int % (
                self@.songs.len() as int)],
                Err(e) => e == PlaylistError::NotFound && self@.songs.len() == 0,
            },
    {
        let n = self.songs.len();
        if n == 0 {
            return Err(PlaylistError::NotFound);
        }
        let i = (pick % (n as u64)) as usize;
        Ok(self.songs[i].clone())
    }

    /// The id of the row started last.
    pub fn find_last_played(&self) -> (r: Result<String, PlaylistError>)
        ensures
            match r {
                Ok(id) => self@.last_played_id() == Some(id@),
                Err(e) => e == PlaylistError::NotFound && self@.last_played_id() is None,
            },
    {
        let mut best: Option<usize> = None;
        let mut i: usize = 0;
        while i < self.rows.len()
            invariant
                0 <= i <= self.rows.len(),
                match best {
                    None => forall|j: int| 0 <= j < i ==> (#[trigger] self@.rows[j]).played_at is None,
                    Some(b) => b < i && self@.rows[b as int].played_at is Some && forall|j: int|
                        0 <= j < i && (#[trigger] self@.rows[j]).played_at is Some ==> {
                            let t = self@.rows[b as int].played_at->0;
                            let u = self@.rows[j].played_at->0;
                            u < t || (u == t && b <= j)
                        },
                },
            decreases self.rows.len() - i,
        {
            match self.rows[i].played_at {
                None => {},
                Some(u) => {
                    match best {
                        None => {
                            best = Some(i);
                        },
                        Some(b) => {
                            let t = match self.rows[b].played_at {
                                Some(t) => t,
                                None => u,
                            };
                            if u > t {
                                best = Some(i);
                            }
                        },
                    }
                },
            }
            i = i + 1;
        }
        match best {
            Some(b) => {
                proof {
                    let v = self@;
                    assert(v.is_last_played(b as int));
                    assert(v.rows[b as int].played_at is Some);
                    let k = choose|k: int| v.is_last_played(k);
                    assert(v.rows[k].played_at is Some);
                    assert(k == b);
                }
                Ok(self.rows[b].song_id.clone())
            },
            None => Err(PlaylistError::NotFound),
        }
    }

    /// Records `song`, as `PlaylistView::upsert` states.
    pub fn upsert_song(&mut self, song: Song)
        ensures
            final(self)@ == old(self)@.upsert(song@),
    {
        proof {
            use_type_invariant(&*self);
        }
        let ghost before = self@;
        let found = self.song_position(song.song_id.as_str());
        let mut songs: Vec<Song> = Vec::new();
        core::mem::swap(&mut songs, &mut self.songs);
        assert(song_views(songs@) == before.songs);
        match found {
            None => {
                songs.push(song);
                proof {
                    assert(song_views(songs@) =~= before.songs.push(song@));
                }
            },
            Some(i) => {
                let kept = Song {
                    created_at: songs[i].created_at,
                    downloaded: songs[i].downloaded || song.downloaded,
                    ..song
                };
                proof {
                    let k = choose|k: int|
                        0 <= k < before.songs.len() && (#[trigger] before.songs[k]).song_id
                            == song@.song_id;
                    assert(before.songs[i as int].song_id == song@.song_id);
                    assert(k == i);
                }
                let ghost kept_view = kept@;
                songs.set(i, kept);
                proof {
                    assert(song_views(songs@) =~= before.songs.update(i as int, kept_view));
                }
            },
        }
        self.songs = songs;
    }

    /// Notes at `now` that the audio of `song_id` is in the local store.
    /// Without such a song nothing changes.
    pub fn mark_downloaded(&mut self, song_id: &str, now: i64) -> (r: Result<(), PlaylistError>)
        ensures
            r is Ok <==> old(self)@.has_song(song_id@),
            r is Ok ==> final(self)@ == old(self)@.mark_downloaded(song_id@, now as int),
            r is Err ==> final(self)@ == old(self)@,
    {
        proof {
            use_type_invariant(&*self);
        }
        let ghost before = self@;
        let i = match self.song_position(song_id) {
            None => {
                return Err(PlaylistError::NotFound);
            },
            Some(i) => i,
        };
        let mut songs: Vec<Song> = Vec::new();
        core::mem::swap(&mut songs, &mut self.songs);
        assert(song_views(songs@) == before.songs);
        let mut marked = songs[i].clone();
        marked.downloaded = true;
        marked.last_updated = now;
        let ghost marked_view = marked@;
        songs.set(i, marked);
        proof {
            assert(song_views(songs@) =~= before.mark_downloaded(song_id@, now as int).songs);
        }
        self.songs = songs;
        Ok(())
    }
}

/// Stopping everything twice is stopping everything once.
pub proof fn lemma_mark_all_stopped_idempotent(p: PlaylistView)
    ensures
        p.mark_all_stopped().mark_all_stopped() == p.mark_all_stopped(),
        p.mark_all_stopped().current_id() is None,
{
    assert(p.mark_all_stopped().mark_all_stopped().rows =~= p.mark_all_stopped().rows);
}

/// Queuing an id twice is queuing it once.
pub proof fn lemma_enqueue_idempotent(p: PlaylistView, id: Seq<char>)
    ensures
        p.enqueue(id).enqueue(id) == p.enqueue(id),
{
    let q = p.enqueue(id);
    if !p.has_row(id) {
        assert(q.rows[q.rows.len() - 1].song_id == id);
    }
}

/// Marking the same row as started at the same time twice is marking it
/// once.
pub proof fn lemma_mark_played_idempotent(p: PlaylistView, id: Seq<char>, now: int)
    ensures
        p.mark_played(id, now).mark_played(id, now) == p.mark_played(id, now),
{
    assert(p.mark_played(id, now).mark_played(id, now).rows =~= p.mark_played(id, now).rows);
}

/// After a row was marked as started, it is the current one.
pub proof fn lemma_mark_played_sets_current(p: PlaylistView, id: Seq<char>, now: int)
    requires
        p.wf(),
        p.has_row(id),
    ensures
        p.mark_played(id, now).wf(),
        p.mark_played(id, now).current_id() == Some(id),
{
    let q = p.mark_played(id, now);
    let i = choose|i: int| 0 <= i < p.rows.len() && (#[trigger] p.rows[i]).song_id == id;
    assert(q.rows[i].playing);
    assert forall|a: int, b: int|
        0 <= a < b < q.rows.len() implies (#[trigger] q.rows[a]).song_id != (
    #[trigger] q.rows[b]).song_id by {
        assert(q.rows[a].song_id == p.rows[a].song_id);
        assert(q.rows[b].song_id == p.rows[b].song_id);
    }
    assert forall|a: int, b: int|
        0 <= a < q.rows.len() && 0 <= b < q.rows.len() && (#[trigger] q.rows[a]).playing && (
        #[trigger] q.rows[b]).playing implies a == b by {
        assert(p.rows[a].song_id == id);
        assert(p.rows[b].song_id == id);
    }
    let k = choose|k: int| 0 <= k < q.rows.len() && (#[trigger] q.rows[k]).playing;
    assert(q.rows[k].song_id == id);
}


/// Every operation keeps the playlist well formed: ids stay unique among
/// the songs and among the rows, and at most one row is playing.
pub proof fn lemma_operations_keep_wf(p: PlaylistView, id: Seq<char>, now: int, s: SongView)
    requires
        p.wf(),
    ensures
        p.enqueue(id).wf(),
        p.mark_played(id, now).wf(),
        p.mark_all_stopped().wf(),
        p.upsert(s).wf(),
        p.mark_downloaded(id, now).wf(),
{
    let q = p.enqueue(id);
    assert(q.wf()) by {
        if !p.has_row(id) {
            assert forall|a: int, b: int| 0 <= a < b < q.rows.len() implies (
            #[trigger] q.rows[a]).song_id != (#[trigger] q.rows[b]).song_id by {
                if b == p.rows.len() {
                    assert(q.rows[a] == p.rows[a]);
                } else {
                    assert(q.rows[a] == p.rows[a] && q.rows[b] == p.rows[b]);
                }
            }
            assert forall|a: int, b: int|
                0 <= a < q.rows.len() && 0 <= b < q.rows.len() && (#[trigger] q.rows[a]).playing
                    && (#[trigger] q.rows[b]).playing implies a == b by {
                assert(q.rows[a] == p.rows[a] && q.rows[b] == p.rows[b]);
            }
        }
    }
    let m = p.mark_played(id, now);
    assert(m.wf()) by {
        assert forall|a: int, b: int| 0 <= a < b < m.rows.len() implies (
        #[trigger] m.rows[a]).song_id != (#[trigger] m.rows[b]).song_id by {
            assert(m.rows[a].song_id == p.rows[a].song_id);
            assert(m.rows[b].song_id == p.rows[b].song_id);
        }
        assert forall|a: int, b: int|
            0 <= a < m.rows.len() && 0 <= b < m.rows.len() && (#[trigger] m.rows[a]).playing && (
            #[trigger] m.rows[b]).playing implies a == b by {
            assert(p.rows[a].song_id == id && p.rows[b].song_id == id);
        }
    }
    let t = p.mark_all_stopped();
    assert(t.wf()) by {
        assert forall|a: int, b: int| 0 <= a < b < t.rows.len() implies (
        #[trigger] t.rows[a]).song_id != (#[trigger] t.rows[b]).song_id by {
            assert(t.rows[a].song_id == p.rows[a].song_id);
            assert(t.rows[b].song_id == p.rows[b].song_id);
        }
    }
    let u = p.upsert(s);
    assert(u.wf()) by {
        if p.has_song(s.song_id) {
            let k = choose|k: int|
                0 <= k < p.songs.len() && (#[trigger] p.songs[k]).song_id == s.song_id;
            assert forall|a: int, b: int| 0 <= a < b < u.songs.len() implies (
            #[trigger] u.songs[a]).song_id != (#[trigger] u.songs[b]).song_id by {
                assert(u.songs[a].song_id == p.songs[a].song_id);
                assert(u.songs[b].song_id == p.songs[b].song_id);
            }
        } else {
            assert forall|a: int, b: int| 0 <= a < b < u.songs.len() implies (
            #[trigger] u.songs[a]).song_id != (#[trigger] u.songs[b]).song_id by {
                if b == p.songs.len() {
                    assert(u.songs[a] == p.songs[a]);
                } else {
                    assert(u.songs[a] == p.songs[a] && u.songs[b] == p.songs[b]);
                }
            }
        }
    }
    let d = p.mark_downloaded(id, now);
    assert(d.wf()) by {
        assert forall|a: int, b: int| 0 <= a < b < d.songs.len() implies (
        #[trigger] d.songs[a]).song_id != (#[trigger] d.songs[b]).song_id by {
            assert(d.songs[a].song_id == p.songs[a].song_id);
            assert(d.songs[b].song_id == p.songs[b].song_id);
        }
    }
}

} // verus!
