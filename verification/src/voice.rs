use vstd::prelude::*;
use std::collections::HashMap;
use crate::dogebot::views_of;
use crate::text::{chars_equal, chars_of, decimal, push_decimal, push_str};

verus! {

broadcast use vstd::std_specs::hash::group_hash_axioms;

/// Usage of the play command.
pub const PLAY_USAGE: &'static str = "Usage: /play \"song name\"";

/// Refusal of the play command before the bot joined a voice channel.
pub const PLAY_NOT_JOINED: &'static str = "Must run /join first while in a voice channel";

/// Failure to open the music directory.
pub const MUSIC_DIR_ERROR: &'static str = "Don't delay, ping @Emp today!";

/// Failure to start the audio decoder.
pub const DECODER_ERROR: &'static str = "FFmpeg died ping Emp";

/// No song of the requested name.
pub const UNKNOWN_SONG: &'static str = "Invalid song name";

/// Refusal of the join command to someone outside voice channels.
pub const JOIN_NOT_IN_VOICE: &'static str = "Must be in a voice channel";

/// Failure to join a voice channel.
pub const JOIN_FAILED: &'static str = "Failed to join the channel";

/// Usage of the remove command.
pub const REMOVE_USAGE: &'static str = "Syntax: /remove <number in queue>";

/// Refusal of the remove command for a position the queue does not have.
pub const REMOVE_INVALID: &'static str = "Invalid queue number";

/// Answer of the queue command when nothing is playing.
pub const NOTHING_PLAYING: &'static str = "None";

/// Per-guild music state: the song each guild is playing (or last played) and
/// the songs queued after it.
pub struct OofVoice {
    sources: HashMap<u64, String>,
    queue: HashMap<u64, Vec<String>>,
}

/// The queue of guild `g`, empty where it has none.
pub open spec fn queue_of(q: Map<u64, Seq<Seq<char>>>, g: u64) -> Seq<Seq<char>> {
    if q.contains_key(g) {
        q[g]
    } else {
        Seq::empty()
    }
}

/// The queues after `song` is queued in guild `g`: it goes to the back.
pub open spec fn enqueued(q: Map<u64, Seq<Seq<char>>>, g: u64, song: Seq<char>) -> Map<u64, Seq<Seq<char>>> {
    q.insert(g, queue_of(q, g).push(song))
}

/// The queues after the next song of guild `g` is taken, if it has one.
pub open spec fn after_take(q: Map<u64, Seq<Seq<char>>>, g: u64) -> Map<u64, Seq<Seq<char>>> {
    if queue_of(q, g).len() > 0 {
        q.insert(g, queue_of(q, g).drop_first())
    } else {
        q
    }
}

/// The song taken next in guild `g`, if any: the front of its queue.
pub open spec fn next_song(q: Map<u64, Seq<Seq<char>>>, g: u64) -> Option<Seq<char>> {
    if queue_of(q, g).len() > 0 {
        Some(queue_of(q, g)[0])
    } else {
        None
    }
}

/// Whether an entry of the music directory is the song `file`: it is not a
/// directory and its name without extension is `file`.
pub open spec fn entry_is_song(entry: SongEntry, file: Seq<char>) -> bool {
    &&& !entry.is_dir
    &&& entry.stem is Some
    &&& entry.stem.unwrap()@ == file
}

/// An entry of the music directory.
pub struct SongEntry {
    /// Whether the entry is a directory, following links.
    pub is_dir: bool,
    /// Whether the entry itself is a regular file.
    pub is_file: bool,
    /// The entry's name without extension (empty where it has none), or
    /// `None` where that name is not text.
    pub stem: Option<String>,
}

impl OofVoice {
    /// What each guild is playing.
    pub closed spec fn playing(&self) -> Map<u64, Seq<char>> {
        self.sources@.map_values(|s: String| s@)
    }

    /// Each guild's queue.
    pub closed spec fn queues(&self) -> Map<u64, Seq<Seq<char>>> {
        self.queue@.map_values(|v: Vec<String>| views_of(v@))
    }

    /// No guild plays or queues anything.
    pub fn new() -> (v: Self)
        ensures
            v.playing() == Map::<u64, Seq<char>>::empty(),
            v.queues() == Map::<u64, Seq<Seq<char>>>::empty(),
    {
        let v = OofVoice { sources: HashMap::new(), queue: HashMap::new() };
        assert(v.playing() =~= Map::<u64, Seq<char>>::empty());
        assert(v.queues() =~= Map::<u64, Seq<Seq<char>>>::empty());
        v
    }

    /// Whether guild `guild_id` has a song playing (or finished and not replaced).
    pub fn is_playing(&self, guild_id: u64) -> (b: bool)
        ensures
            b == self.playing().contains_key(guild_id),
    {
        self.sources.contains_key(&guild_id)
    }

    /// The song guild `guild_id` is playing, if any.
    pub fn now_playing(&self, guild_id: u64) -> (s: Option<String>)
        ensures
            s is Some == self.playing().contains_key(guild_id),
            s matches Some(t) ==> t@ == self.playing()[guild_id],
    {
        match self.sources.get(&guild_id) {
            Some(t) => Some(t.clone()),
            None => None,
        }
    }

    /// Guild `guild_id` now plays `file`.
    pub fn start_playing(&mut self, guild_id: u64, file: String)
        ensures
            final(self).playing() == old(self).playing().insert(guild_id, file@),
            final(self).queues() == old(self).queues(),
    {
        let ghost f = file@;
        self.sources.insert(guild_id, file);
        assert(final(self).playing() =~= old(self).playing().insert(guild_id, f));
    }

    /// Guild `guild_id` stops playing.
    pub fn stop(&mut self, guild_id: u64)
        ensures
            final(self).playing() == old(self).playing().remove(guild_id),
            final(self).queues() == old(self).queues(),
    {
        self.sources.remove(&guild_id);
        assert(final(self).playing() =~= old(self).playing().remove(guild_id));
    }

    /// Guild `guild_id` forgets its queue.
    pub fn remove_queue(&mut self, guild_id: u64)
        ensures
            final(self).playing() == old(self).playing(),
            final(self).queues() == old(self).queues().remove(guild_id),
    {
        self.queue.remove(&guild_id);
        assert(final(self).queues() =~= old(self).queues().remove(guild_id));
    }

    /// Puts `file` at the back of guild `guild_id`'s queue.
    pub fn enqueue(&mut self, guild_id: u64, file: String)
        ensures
            final(self).playing() == old(self).playing(),
            final(self).queues() == enqueued(old(self).queues(), guild_id, file@),
    {
        let ghost f = file@;
        match self.queue.remove(&guild_id) {
            Some(mut songs) => {
                songs.push(file);
                assert(views_of(songs@) =~= queue_of(old(self).queues(), guild_id).push(f));
                self.queue.insert(guild_id, songs);
            },
            None => {
                let mut songs: Vec<String> = Vec::new();
                songs.push(file);
                assert(views_of(songs@) =~= queue_of(old(self).queues(), guild_id).push(f));
                self.queue.insert(guild_id, songs);
            },
        }
        assert(final(self).queues() =~= enqueued(old(self).queues(), guild_id, f));
    }

    /// Removes the song at position `index` (from zero) of guild `guild_id`'s
    /// queue. Returns whether the queue had that position.
    pub fn remove_from_queue(&mut self, guild_id: u64, index: usize) -> (removed: bool)
        ensures
            final(self).playing() == old(self).playing(),
            removed == (old(self).queues().contains_key(guild_id) && index < old(self).queues()[guild_id].len()),
            final(self).queues() == if removed {
                old(self).queues().insert(guild_id, old(self).queues()[guild_id].remove(index as int))
            } else {
                old(self).queues()
            },
    {
        match self.queue.remove(&guild_id) {
            Some(mut songs) => {
                let ghost before = views_of(songs@);
                if index < songs.len() {
                    songs.remove(index);
                    assert(views_of(songs@) =~= before.remove(index as int));
                    self.queue.insert(guild_id, songs);
                    assert(final(self).queues() =~= old(self).queues().insert(
                        guild_id,
                        old(self).queues()[guild_id].remove(index as int),
                    ));
                    true
                } else {
                    self.queue.insert(guild_id, songs);
                    assert(final(self).queues() =~= old(self).queues());
                    false
                }
            },
            None => {
                assert(final(self).queues() =~= old(self).queues());
                false
            },
        }
    }

    /// Guild `guild_id` stops playing and forgets its queue.
    pub fn leave(&mut self, guild_id: u64)
        ensures
            final(self).playing() == old(self).playing().remove(guild_id),
            final(self).queues() == old(self).queues().remove(guild_id),
    {
        self.stop(guild_id);
        self.remove_queue(guild_id);
    }

    /// Takes the song at the front of guild `guild_id`'s queue, if any.
    pub fn take_next(&mut self, guild_id: u64) -> (next: Option<String>)
        ensures
            final(self).playing() == old(self).playing(),
            final(self).queues() == after_take(old(self).queues(), guild_id),
            next is Some == (next_song(old(self).queues(), guild_id) is Some),
            next matches Some(s) ==> next_song(old(self).queues(), guild_id) == Some(s@),
    {
        match self.queue.remove(&guild_id) {
            Some(mut songs) => {
                let ghost before = views_of(songs@);
                if songs.len() > 0 {
                    let first = songs.remove(0);
                    assert(views_of(songs@) =~= before.drop_first());
                    self.queue.insert(guild_id, songs);
                    assert(final(self).queues() =~= after_take(old(self).queues(), guild_id));
                    Some(first)
                } else {
                    self.queue.insert(guild_id, songs);
                    assert(final(self).queues() =~= old(self).queues());
                    None
                }
            },
            None => {
                assert(final(self).queues() =~= old(self).queues());
                None
            },
        }
    }

    /// The play command in guild `guild_id` for the song named `file` (`None`
    /// where no name could be read), when the bot has joined a voice channel
    /// there or not: a missing name and a missing voice connection are refused;
    /// while a song plays the new one is queued (`Ok(None)`); otherwise it is
    /// to be played now (`Ok(Some(file))`).
    pub fn play_file_cmd(&mut self, guild_id: u64, file: Option<String>, joined: bool) -> (r: Result<
        Option<String>,
        &'static str,
    >)
        ensures
            final(self).playing() == old(self).playing(),
            file is None ==> r == Err::<Option<String>, &'static str>(PLAY_USAGE) && final(self).queues()
                == old(self).queues(),
            file is Some && !joined ==> r == Err::<Option<String>, &'static str>(PLAY_NOT_JOINED)
                && final(self).queues() == old(self).queues(),
            file is Some && joined && old(self).playing().contains_key(guild_id) ==> r == Ok::<
                Option<String>,
                &'static str,
            >(None) && final(self).queues() == enqueued(old(self).queues(), guild_id, file.unwrap()@),
            file is Some && joined && !old(self).playing().contains_key(guild_id) ==> (r matches Ok(
                Some(g),
            ) && g@ == file.unwrap()@) && final(self).queues() == old(self).queues(),
    {
        match file {
            None => Err(PLAY_USAGE),
            Some(f) => {
                if !joined {
                    return Err(PLAY_NOT_JOINED);
                }
                if self.is_playing(guild_id) {
                    self.enqueue(guild_id, f);
                    Ok(None)
                } else {
                    Ok(Some(f))
                }
            },
        }
    }

    /// The remove command in guild `guild_id` for queue position `number`
    /// (counted from one; `None` where no number could be read). Returns the
    /// reply, if any: a usage note for a missing number, a refusal for zero or
    /// a position the queue does not have.
    pub fn remove_command(&mut self, guild_id: u64, number: Option<usize>) -> (reply: Option<&'static str>)
        ensures
            final(self).playing() == old(self).playing(),
            number is None ==> reply == Some(REMOVE_USAGE) && final(self).queues() == old(self).queues(),
            number matches Some(n) ==> {
                let ok = n > 0 && old(self).queues().contains_key(guild_id) && n - 1 < old(self).queues()[guild_id].len();
                &&& reply == if ok { None } else { Some(REMOVE_INVALID) }
                &&& final(self).queues() == if ok {
                    old(self).queues().insert(guild_id, old(self).queues()[guild_id].remove(n - 1))
                } else {
                    old(self).queues()
                }
            },
    {
        match number {
            None => Some(REMOVE_USAGE),
            Some(n) => {
                if n == 0 || !self.remove_from_queue(guild_id, n - 1) {
                    Some(REMOVE_INVALID)
                } else {
                    None
                }
            },
        }
    }
}

/// One tick of the player: for each guild of `finished`, in order, whose song
/// has ended, the next song of its queue is taken to be played. Gives the
/// queues afterwards and the songs to start, each with its guild.
pub open spec fn tick(q: Map<u64, Seq<Seq<char>>>, finished: Seq<u64>) -> (Map<u64, Seq<Seq<char>>>, Seq<(u64, Seq<char>)>)
    decreases finished.len(),
{
    if finished.len() == 0 {
        (q, Seq::empty())
    } else {
        let prev = tick(q, finished.drop_last());
        let g = finished.last();
        match next_song(prev.0, g) {
            Some(song) => (after_take(prev.0, g), prev.1.push((g, song))),
            None => prev,
        }
    }
}

/// A song to start as its guild and the view of its name.
pub open spec fn start_view(p: (u64, String)) -> (u64, Seq<char>) {
    (p.0, p.1@)
}

impl OofVoice {
    /// One tick of the player for the guilds in `finished`, whose songs have
    /// ended: takes the next song of each of their queues, in order, and
    /// returns the songs to start with their guilds.
    pub fn advance(&mut self, finished: &Vec<u64>) -> (started: Vec<(u64, String)>)
        ensures
            final(self).playing() == old(self).playing(),
            final(self).queues() == tick(old(self).queues(), finished@).0,
            started@.map_values(|p: (u64, String)| start_view(p)) == tick(old(self).queues(), finished@).1,
    {
        let mut started: Vec<(u64, String)> = Vec::new();
        let mut i: usize = 0;
        while i < finished.len()
            invariant
                i <= finished.len(),
                self.playing() == old(self).playing(),
                self.queues() == tick(old(self).queues(), finished@.take(i as int)).0,
                started@.map_values(|p: (u64, String)| start_view(p)) == tick(old(self).queues(), finished@.take(i as int)).1,
            decreases finished.len() - i,
        {
            let g = finished[i];
            let ghost before = started@;
            assert(finished@.take(i + 1).drop_last() =~= finished@.take(i as int));
            assert(finished@.take(i + 1).last() == g);
            match self.take_next(g) {
                Some(song) => {
                    let ghost sv = song@;
                    started.push((g, song));
                    assert(started@.map_values(|p: (u64, String)| start_view(p)) =~= before.map_values(
                        |p: (u64, String)| start_view(p),
                    ).push((g, sv)));
                },
                None => {},
            }
            i = i + 1;
        }
        assert(finished@.take(finished.len() as int) =~= finished@);
        started
    }
}

/// A player tick leaves the queue of every guild whose song has not ended as
/// it was; for each guild whose song has ended (listed once) it takes the
/// front song, if any, and that song is among the songs to start, with its
/// guild; and only guilds whose song has ended start a song.
pub proof fn lemma_tick(q: Map<u64, Seq<Seq<char>>>, finished: Seq<u64>, g: u64)
    ensures
        !finished.contains(g) ==> queue_of(tick(q, finished).0, g) == queue_of(q, g),
        finished.no_duplicates() && finished.contains(g) ==> queue_of(tick(q, finished).0, g) == if queue_of(q, g).len() > 0 {
            queue_of(q, g).drop_first()
        } else {
            queue_of(q, g)
        },
        finished.no_duplicates() && finished.contains(g) && queue_of(q, g).len() > 0 ==> tick(q, finished).1.contains((g, queue_of(q, g)[0])),
        forall|i: int| 0 <= i < tick(q, finished).1.len() ==> finished.contains(#[trigger] tick(q, finished).1[i].0),
    decreases finished.len(),
{
    if finished.len() > 0 {
        let f = finished.drop_last();
        let h = finished.last();
        lemma_tick(q, f, g);
        lemma_tick(q, f, h);
        let prev = tick(q, f);
        assert forall|x: u64| f.contains(x) implies finished.contains(x) by {
            let k = choose|k: int| 0 <= k < f.len() && f[k] == x;
            assert(finished[k] == x);
        }
        assert(finished[finished.len() - 1] == h);
        if finished.contains(g) && g != h {
            let k = choose|k: int| 0 <= k < finished.len() && finished[k] == g;
            assert(k != finished.len() - 1);
            assert(f[k] == g);
        }
        if !finished.contains(g) {
            assert forall|k: int| 0 <= k < f.len() implies f[k] != g by {
                assert(finished[k] == f[k]);
            }
        }
        if finished.no_duplicates() {
            assert(f.no_duplicates());
            if g == h {
                assert forall|k: int| 0 <= k < f.len() implies f[k] != g by {
                    assert(finished[k] == f[k]);
                }
            }
        }
        match next_song(prev.0, h) {
            Some(song) => {
                let t = prev.1.push((h, song));
                assert(t[prev.1.len() as int] == (h, song));
                assert forall|i: int| 0 <= i < t.len() implies finished.contains(#[trigger] t[i].0) by {
                    if i < prev.1.len() {
                        assert(t[i] == prev.1[i]);
                    }
                }
                if prev.1.contains((g, queue_of(q, g)[0])) {
                    let k = choose|k: int| 0 <= k < prev.1.len() && prev.1[k] == (g, queue_of(q, g)[0]);
                    assert(t[k] == (g, queue_of(q, g)[0]));
                }
            },
            None => {},
        }
    }
}

/// Reply of the join command, if any: a refusal to someone outside voice
/// channels, a failure notice when joining failed, nothing when it worked.
pub fn join_reply(author_channel: Option<u64>, joined: bool) -> (r: Option<&'static str>)
    ensures
        r == if author_channel is None {
            Some(JOIN_NOT_IN_VOICE)
        } else if joined {
            None
        } else {
            Some(JOIN_FAILED)
        },
{
    match author_channel {
        None => Some(JOIN_NOT_IN_VOICE),
        Some(_) => if joined {
            None
        } else {
            Some(JOIN_FAILED)
        },
    }
}

/// The first index of an entry that is the song `file`, if any.
pub open spec fn first_song_index(entries: Seq<SongEntry>, file: Seq<char>, i: int) -> bool {
    0 <= i < entries.len() && entry_is_song(entries[i], file) && forall|j: int| 0 <= j < i ==> !entry_is_song(entries[j], file)
}

/// Looks the song `file` up in the music directory: the first entry that is
/// not a directory and whose name without extension is `file`.
pub fn find_song(entries: &Vec<SongEntry>, file: &str) -> (r: Option<usize>)
    ensures
        r matches Some(i) ==> first_song_index(entries@, file@, i as int),
        r is None ==> forall|j: int| 0 <= j < entries.len() ==> !entry_is_song(entries@[j], file@),
{
    let wanted = chars_of(file);
    let mut i: usize = 0;
    while i < entries.len()
        invariant
            i <= entries.len(),
            wanted@ == file@,
            forall|j: int| 0 <= j < i ==> !entry_is_song(entries@[j], file@),
        decreases entries.len() - i,
    {
        if !entries[i].is_dir {
            match &entries[i].stem {
                Some(name) => {
                    let stem = chars_of(name.as_str());
                    if chars_equal(&stem, &wanted) {
                        return Some(i);
                    }
                },
                None => {},
            }
        }
        i = i + 1;
    }
    None
}

/// Lines `"{i}: {name}"`, numbered from one, of the first `n` songs of `q`.
pub open spec fn queue_lines(q: Seq<Seq<char>>, n: nat) -> Seq<char>
    decreases n,
{
    if n == 0 {
        Seq::empty()
    } else {
        queue_lines(q, (n - 1) as nat) + decimal(n) + ": "@ + q[n - 1] + "\n"@
    }
}

/// The answer of the queue command in guild `g`: "None" when nothing plays;
/// otherwise the current song followed by the numbered queue, one line each
/// (no lines where the guild has nothing queued).
pub open spec fn queue_listing_text(playing: Map<u64, Seq<char>>, queues: Map<u64, Seq<Seq<char>>>, g: u64) -> Seq<char> {
    if !playing.contains_key(g) {
        NOTHING_PLAYING@
    } else {
        "Currently Playing: "@ + playing[g] + "\n"@ + queue_lines(queue_of(queues, g), queue_of(queues, g).len())
    }
}

impl OofVoice {
    /// The answer of the queue command in guild `guild_id`.
    pub fn queue_listing(&self, guild_id: u64) -> (s: String)
        ensures
            s@ == queue_listing_text(self.playing(), self.queues(), guild_id),
    {
        let song = match self.sources.get(&guild_id) {
            Some(t) => t,
            None => return NOTHING_PLAYING.to_owned(),
        };
        let mut s = String::new();
        push_str(&mut s, "Currently Playing: ");
        push_str(&mut s, song.as_str());
        push_str(&mut s, "\n");
        let ghost head = s@;
        let ghost q = queue_of(self.queues(), guild_id);
        match self.queue.get(&guild_id) {
            Some(songs) => {
                assert(q == views_of(songs@));
                let mut i: usize = 0;
                while i < songs.len()
                    invariant
                        i <= songs.len(),
                        q == views_of(songs@),
                        s@ == head + queue_lines(q, i as nat),
                    decreases songs.len() - i,
                {
                    push_decimal(&mut s, (i + 1) as u64);
                    push_str(&mut s, ": ");
                    push_str(&mut s, songs[i].as_str());
                    push_str(&mut s, "\n");
                    assert(s@ =~= head + queue_lines(q, (i + 1) as nat));
                    i = i + 1;
                }
            },
            None => {
                assert(q.len() == 0);
                assert(s@ =~= head + queue_lines(q, 0));
            },
        }
        assert(s@ =~= "Currently Playing: "@ + self.playing()[guild_id] + "\n"@ + queue_lines(q, q.len()));
        s
    }
}

/// The answer of the list command: the name without extension of each regular
/// file of the music directory, one line each, in directory order.
pub open spec fn song_list_text(entries: Seq<SongEntry>) -> Seq<char>
    decreases entries.len(),
{
    if entries.len() == 0 {
        Seq::empty()
    } else if entries.last().is_file {
        song_list_text(entries.drop_last()) + entries.last().stem.unwrap()@ + "\n"@
    } else {
        song_list_text(entries.drop_last())
    }
}

/// The answer of the list command; each regular file must have a name that is text.
pub fn song_list(entries: &Vec<SongEntry>) -> (s: String)
    requires
        forall|i: int| 0 <= i < entries.len() && #[trigger] entries@[i].is_file ==> entries@[i].stem is Some,
    ensures
        s@ == song_list_text(entries@),
{
    let mut s = String::new();
    let mut i: usize = 0;
    while i < entries.len()
        invariant
            i <= entries.len(),
            forall|j: int| 0 <= j < entries.len() && #[trigger] entries@[j].is_file ==> entries@[j].stem is Some,
            s@ == song_list_text(entries@.take(i as int)),
        decreases entries.len() - i,
    {
        if entries[i].is_file {
            match &entries[i].stem {
                Some(name) => {
                    push_str(&mut s, name.as_str());
                    push_str(&mut s, "\n");
                },
                None => {},
            }
        }
        assert(entries@.take(i + 1).drop_last() =~= entries@.take(i as int));
        i = i + 1;
    }
    assert(entries@.take(entries.len() as int) =~= entries@);
    s
}

/// Queuing behind a non-empty queue does not change which song comes next,
/// and taking it then gives the same queue as taking it first and queuing after.
pub proof fn lemma_enqueue_keeps_next(q: Map<u64, Seq<Seq<char>>>, g: u64, song: Seq<char>)
    requires
        queue_of(q, g).len() > 0,
    ensures
        next_song(enqueued(q, g, song), g) == next_song(q, g),
        after_take(enqueued(q, g, song), g) == enqueued(after_take(q, g), g, song),
{
    let a = after_take(enqueued(q, g, song), g);
    let b = enqueued(after_take(q, g), g, song);
    assert(queue_of(q, g).push(song).drop_first() =~= queue_of(q, g).drop_first().push(song));
    assert(a =~= b);
}

/// A song queued where the queue is empty is the next one, and taking it
/// empties the queue again.
pub proof fn lemma_enqueue_into_empty(q: Map<u64, Seq<Seq<char>>>, g: u64, song: Seq<char>)
    requires
        queue_of(q, g).len() == 0,
    ensures
        next_song(enqueued(q, g, song), g) == Some(song),
        queue_of(after_take(enqueued(q, g, song), g), g) == Seq::<Seq<char>>::empty(),
{
    assert(queue_of(q, g).push(song).drop_first() =~= Seq::<Seq<char>>::empty());
}

/// Queuing in or taking from one guild leaves every other guild's queue as it was.
pub proof fn lemma_other_guilds_untouched(q: Map<u64, Seq<Seq<char>>>, g: u64, h: u64, song: Seq<char>)
    requires
        g != h,
    ensures
        queue_of(enqueued(q, g, song), h) == queue_of(q, h),
        queue_of(after_take(q, g), h) == queue_of(q, h),
{
}

} // verus!
