//! The play queue: an ordered list of tracks and a cursor on the entry that
//! is loaded for playback.

use crate::load_album_and_track_lists::Track;
use rand::seq::SliceRandom;
use vstd::prelude::*;

verus! {

/// Why a queue operation was rejected.
#[derive(Debug, Clone, Copy, PartialEq, Eq, Structural)]
pub enum QueueError {
    /// The position named no entry of the queue.
    OutOfRange,
}

/// The queued tracks in play order, and the index of the entry that is
/// currently loaded, if any.
pub struct Queue {
    tracks: Vec<Track>,
    current: Option<usize>,
}

/// What a queue is, mathematically: the sequence of its tracks and the
/// position of the cursor.
pub struct QueueView {
    pub tracks: Seq<Track>,
    pub current: Option<nat>,
}

impl QueueView {
    /// The cursor, when set, names an entry. An empty queue therefore has
    /// no cursor.
    pub open spec fn consistent(self) -> bool {
        self.current matches Some(i) ==> i < self.tracks.len()
    }

    /// The track under the cursor.
    pub open spec fn current_track(self) -> Option<Track> {
        match self.current {
            Some(i) => if i < self.tracks.len() {
                Some(self.tracks[i as int])
            } else {
                None
            },
            None => None,
        }
    }

    /// The queue with `track` added behind the last entry.
    pub open spec fn enqueue_back(self, track: Track) -> QueueView {
        QueueView { tracks: self.tracks.push(track), current: self.current }
    }

    /// The queue with `track` added before the first entry; the cursor
    /// moves along with the entry it names.
    pub open spec fn enqueue_front(self, track: Track) -> QueueView {
        QueueView {
            tracks: self.tracks.insert(0, track),
            current: match self.current {
                Some(i) => Some(i + 1),
                None => None,
            },
        }
    }

    /// The queue with `tracks` added, in their order, behind the last entry.
    pub open spec fn append(self, tracks: Seq<Track>) -> QueueView {
        QueueView { tracks: self.tracks + tracks, current: self.current }
    }

    /// The queue with `tracks` added, in their order, before the first
    /// entry; the cursor moves along with the entry it names.
    pub open spec fn prepend(self, tracks: Seq<Track>) -> QueueView {
        QueueView {
            tracks: tracks + self.tracks,
            current: match self.current {
                Some(i) => Some(i + tracks.len()),
                None => None,
            },
        }
    }

    /// The queue without the entry at `position`. A cursor behind that
    /// entry moves down by one; a cursor on it stays on the entry that slid
    /// into its place, and is cleared where none did.
    pub open spec fn remove(self, position: nat) -> QueueView
        recommends
            position < self.tracks.len(),
    {
        QueueView {
            tracks: self.tracks.remove(position as int),
            current: match self.current {
                Some(i) => if position < i {
                    Some((i - 1) as nat)
                } else if i + 1 < self.tracks.len() || i < position {
                    Some(i)
                } else {
                    None
                },
                None => None,
            },
        }
    }

    /// The queue after its cursor stepped to the next entry: onto the first
    /// entry where there was no cursor, and off the queue behind the last.
    pub open spec fn advance(self) -> QueueView {
        QueueView {
            tracks: self.tracks,
            current: match self.current {
                Some(i) => if i + 1 < self.tracks.len() {
                    Some(i + 1)
                } else {
                    None
                },
                None => if self.tracks.len() > 0 {
                    Some(0)
                } else {
                    None
                },
            },
        }
    }

    /// The queue after its cursor stepped back by one entry; at the first
    /// entry, and without a cursor, it lands on the first entry.
    pub open spec fn skip_backward(self) -> QueueView {
        QueueView {
            tracks: self.tracks,
            current: if self.tracks.len() == 0 {
                self.current
            } else {
                match self.current {
                    Some(i) => if i > 0 {
                        Some((i - 1) as nat)
                    } else {
                        Some(0)
                    },
                    None => Some(0),
                }
            },
        }
    }

    /// The queue with its cursor on `index`, where that names an entry.
    pub open spec fn start_at(self, index: nat) -> QueueView {
        if index < self.tracks.len() {
            QueueView { tracks: self.tracks, current: Some(index) }
        } else {
            self
        }
    }

    /// Whether `self` may come out of shuffling `before`: the same tracks,
    /// each as often as before, and the cursor on the first of them.
    pub open spec fn shuffled_from(self, before: QueueView) -> bool {
        &&& self.tracks.to_multiset() == before.tracks.to_multiset()
        &&& self.tracks.len() == before.tracks.len()
        &&& self.current == if before.tracks.len() > 0 {
            Some(0nat)
        } else {
            None
        }
    }

    /// The empty queue.
    pub open spec fn cleared() -> QueueView {
        QueueView { tracks: Seq::empty(), current: None }
    }
}

impl View for Queue {
    type V = QueueView;

    closed spec fn view(&self) -> QueueView {
        QueueView {
            tracks: self.tracks@,
            current: match self.current {
                Some(i) => Some(i as nat),
                None => None,
            },
        }
    }
}

/// Reorders `tracks` in place with `rand::seq::SliceRandom::shuffle`, driven
/// by the thread's generator from `rand::rng`. The shuffle only swaps
/// entries, so the vector holds the same tracks afterwards, each as often as
/// before; in which order is left open.
#[verifier::external_body]
fn shuffle_tracks(tracks: &mut Vec<Track>)
    ensures
        final(tracks)@.to_multiset() == old(tracks)@.to_multiset(),
        final(tracks)@.len() == old(tracks)@.len(),
{
    let mut generator = rand::rng();
    tracks.shuffle(&mut generator);
}

impl Queue {
    /// Cursor and list agree in every queue there is.
    #[verifier::type_invariant]
    spec fn cursor_names_an_entry(self) -> bool {
        self@.consistent()
    }

    /// Takes the list and the cursor out and leaves the queue empty, so
    /// that both can be changed and put back together.
    fn take_apart(&mut self) -> (parts: (Vec<Track>, Option<usize>))
        ensures
            parts.0@ == old(self)@.tracks,
            old(self)@.current == match parts.1 {
                Some(i) => Some(i as nat),
                None => None,
            },
            parts.1 matches Some(i) ==> i < parts.0@.len(),
            final(self)@ == QueueView::cleared(),
            final(self)@.consistent(),
    {
        proof {
            use_type_invariant(&*self);
        }
        let cursor: Option<usize> = self.current;
        self.current = None;
        let mut tracks: Vec<Track> = Vec::new();
        core::mem::swap(&mut self.tracks, &mut tracks);
        (tracks, cursor)
    }

    /// An empty queue with no cursor.
    pub fn new() -> (q: Self)
        ensures
            q@ == QueueView::cleared(),
            q@.consistent(),
    {
        Queue { tracks: Vec::new(), current: None }
    }

    /// Appends `track`; the cursor stays where it is.
    pub fn enqueue_back(&mut self, track: Track)
        ensures
            final(self)@ == old(self)@.enqueue_back(track),
            final(self)@.consistent(),
    {
        let (mut tracks, current) = self.take_apart();
        tracks.push(track);
        *self = Queue { tracks, current };
    }

    /// Prepends `track`; a cursor keeps pointing at the same track, one
    /// index further on.
    pub fn enqueue_front(&mut self, track: Track)
        ensures
            final(self)@ == old(self)@.enqueue_front(track),
            final(self)@.consistent(),
    {
        let (mut tracks, cursor) = self.take_apart();
        tracks.insert(0, track);
        let current: Option<usize> = match cursor {
            Some(i) => {
                assert(i < tracks.len());
                Some(i + 1)
            },
            None => None,
        };
        *self = Queue { tracks, current };
    }

    /// Appends copies of `tracks` in their order; the cursor stays where it
    /// is.
    pub fn enqueue_all_back(&mut self, tracks: &Vec<Track>)
        ensures
            final(self)@ == old(self)@.append(tracks@),
            final(self)@.consistent(),
    {
        proof {
            use_type_invariant(&*self);
        }
        let mut done: usize = 0;
        while done < tracks.len()
            invariant
                done <= tracks.len(),
                self@.consistent(),
                self@ == old(self)@.append(tracks@.subrange(0, done as int)),
            decreases tracks.len() - done,
        {
            self.enqueue_back(tracks[done].clone());
            done += 1;
            assert(self@.tracks =~= old(self)@.tracks + tracks@.subrange(0, done as int));
        }
        assert(tracks@.subrange(0, done as int) =~= tracks@);
    }

    /// Prepends copies of `tracks`, which keep their order; a cursor keeps
    /// pointing at the same track.
    pub fn enqueue_all_front(&mut self, tracks: &Vec<Track>)
        ensures
            final(self)@ == old(self)@.prepend(tracks@),
            final(self)@.consistent(),
    {
        proof {
            use_type_invariant(&*self);
        }
        let mut left: usize = tracks.len();
        assert(self@.tracks =~= tracks@.subrange(left as int, tracks.len() as int) + old(
            self,
        )@.tracks);
        while left > 0
            invariant
                left <= tracks.len(),
                self@.consistent(),
                self@ == old(self)@.prepend(tracks@.subrange(left as int, tracks.len() as int)),
            decreases left,
        {
            left -= 1;
            self.enqueue_front(tracks[left].clone());
            assert(self@.tracks =~= tracks@.subrange(left as int, tracks.len() as int) + old(
                self,
            )@.tracks);
        }
        assert(tracks@.subrange(0, tracks.len() as int) =~= tracks@);
    }

    /// Removes the entry at `position`, or rejects the call and leaves the
    /// queue alone where there is no such entry.
    pub fn remove(&mut self, position: usize) -> (r: Result<(), QueueError>)
        ensures
            final(self)@.consistent(),
            position < old(self)@.tracks.len() ==> r is Ok && final(self)@ == old(self)@.remove(
                position as nat,
            ),
            position >= old(self)@.tracks.len() ==> r == Err::<(), QueueError>(
                QueueError::OutOfRange,
            ) && final(self)@ == old(self)@,
    {
        proof {
            use_type_invariant(&*self);
        }
        if position >= self.tracks.len() {
            return Err(QueueError::OutOfRange);
        }
        let (mut tracks, cursor) = self.take_apart();
        let _ = tracks.remove(position);
        let current: Option<usize> = match cursor {
            Some(i) => if position < i {
                Some(i - 1)
            } else if i < tracks.len() {
                Some(i)
            } else {
                None
            },
            None => None,
        };
        *self = Queue { tracks, current };
        Ok(())
    }

    /// The step taken when a track has played to its end: moves the cursor
    /// to the next entry and returns that track to be loaded. Behind the
    /// last entry the cursor is cleared and nothing is returned.
    pub fn advance(&mut self) -> (next: Option<Track>)
        ensures
            final(self)@ == old(self)@.advance(),
            final(self)@.consistent(),
            next == final(self)@.current_track(),
    {
        proof {
            use_type_invariant(&*self);
        }
        let len: usize = self.tracks.len();
        let target: Option<usize> = match self.current {
            Some(i) => if i < len && i + 1 < len {
                Some(i + 1)
            } else {
                None
            },
            None => if len > 0 {
                Some(0)
            } else {
                None
            },
        };
        self.current = target;
        match target {
            Some(i) => Some(self.tracks[i].clone()),
            None => None,
        }
    }

    /// The user's "next track": the same step as [`Queue::advance`].
    pub fn skip_forward(&mut self) -> (next: Option<Track>)
        ensures
            final(self)@ == old(self)@.advance(),
            final(self)@.consistent(),
            next == final(self)@.current_track(),
    {
        self.advance()
    }

    /// The user's "previous track": moves the cursor back by one entry and
    /// returns that track to be loaded. At the first entry, and without a
    /// cursor, the first track is returned, to be started afresh. An empty
    /// queue is left alone.
    pub fn skip_backward(&mut self) -> (previous: Option<Track>)
        ensures
            final(self)@ == old(self)@.skip_backward(),
            final(self)@.consistent(),
            previous == final(self)@.current_track(),
    {
        proof {
            use_type_invariant(&*self);
        }
        if self.tracks.len() == 0 {
            return None;
        }
        let target: usize = match self.current {
            Some(i) => i.saturating_sub(1),
            None => 0,
        };
        self.current = Some(target);
        Some(self.tracks[target].clone())
    }

    /// Puts the cursor on `index` and returns that track to be loaded; an
    /// index behind the last entry changes nothing.
    pub fn start_at(&mut self, index: usize) -> (started: Option<Track>)
        ensures
            final(self)@ == old(self)@.start_at(index as nat),
            final(self)@.consistent(),
            index < old(self)@.tracks.len() ==> started == Some(old(self)@.tracks[index as int]),
            index >= old(self)@.tracks.len() ==> started is None,
    {
        proof {
            use_type_invariant(&*self);
        }
        if index >= self.tracks.len() {
            return None;
        }
        self.current = Some(index);
        Some(self.tracks[index].clone())
    }

    /// Reorders the queue at random. A queue that holds anything then has
    /// its cursor on the first entry.
    pub fn shuffle(&mut self)
        ensures
            final(self)@.shuffled_from(old(self)@),
            final(self)@.consistent(),
    {
        let (mut tracks, _) = self.take_apart();
        shuffle_tracks(&mut tracks);
        let current: Option<usize> = if tracks.len() > 0 {
            Some(0)
        } else {
            None
        };
        *self = Queue { tracks, current };
    }

    /// Empties the queue and clears the cursor.
    pub fn clear(&mut self)
        ensures
            final(self)@ == QueueView::cleared(),
            final(self)@.consistent(),
    {
        *self = Queue::new();
    }

    /// Clears the cursor and keeps the entries: nothing is loaded any more.
    pub fn clear_current(&mut self)
        ensures
            final(self)@.tracks == old(self)@.tracks,
            final(self)@.current is None,
            final(self)@.consistent(),
    {
        self.current = None;
    }

    /// The number of entries.
    pub fn len(&self) -> (n: usize)
        ensures
            n == self@.tracks.len(),
    {
        self.tracks.len()
    }

    /// Whether the queue holds no entry.
    pub fn is_empty(&self) -> (empty: bool)
        ensures
            empty <==> self@.tracks.len() == 0,
    {
        self.tracks.len() == 0
    }

    /// The index of the entry that is loaded, if any.
    pub fn current_index(&self) -> (index: Option<usize>)
        ensures
            index is Some <==> self@.current is Some,
            index matches Some(i) ==> self@.current == Some(i as nat) && i < self@.tracks.len(),
            self@.consistent(),
    {
        proof {
            use_type_invariant(self);
        }
        self.current
    }

    /// A copy of the entry at `position`, if there is one.
    pub fn track_at(&self, position: usize) -> (track: Option<Track>)
        ensures
            position < self@.tracks.len() ==> track == Some(self@.tracks[position as int]),
            position >= self@.tracks.len() ==> track is None,
    {
        if position < self.tracks.len() {
            Some(self.tracks[position].clone())
        } else {
            None
        }
    }

    /// A copy of the entries in play order.
    pub fn tracks(&self) -> (all: Vec<Track>)
        ensures
            all@ == self@.tracks,
    {
        let all: Vec<Track> = self.tracks.clone();
        assert(all@ =~= self.tracks@);
        all
    }
}

/// Cursor and list never fall out of step: every operation turns a
/// consistent queue into a consistent queue, and a consistent queue that is
/// empty has no cursor.
pub proof fn lemma_operations_keep_consistency(
    q: QueueView,
    track: Track,
    position: nat,
    shuffled: QueueView,
)
    requires
        q.consistent(),
    ensures
        q.tracks.len() == 0 ==> q.current is None,
        q.enqueue_back(track).consistent(),
        q.enqueue_front(track).consistent(),
        position < q.tracks.len() ==> q.remove(position).consistent(),
        q.advance().consistent(),
        q.skip_backward().consistent(),
        q.start_at(position).consistent(),
        shuffled.shuffled_from(q) ==> shuffled.consistent(),
        QueueView::cleared().consistent(),
{
}

/// Adding an entry at either end keeps the cursor on the same track: at the
/// same index after an append, one index further on after a prepend.
pub proof fn lemma_enqueue_keeps_current_track(q: QueueView, track: Track)
    requires
        q.consistent(),
    ensures
        q.enqueue_back(track).current_track() == q.current_track(),
        q.enqueue_back(track).current == q.current,
        q.enqueue_front(track).current_track() == q.current_track(),
        q.current matches Some(i) ==> q.enqueue_front(track).current == Some(i + 1),
        q.enqueue_front(track).tracks.first() == track,
        q.enqueue_back(track).tracks.last() == track,
{
}

/// Removing an entry other than the current one keeps the cursor on the
/// same track. Removing the current entry puts the cursor, at the same
/// index, on the track that followed it, and clears it where none did.
pub proof fn lemma_remove_retargets_cursor(q: QueueView, position: nat)
    requires
        q.consistent(),
        position < q.tracks.len(),
    ensures
        q.current != Some(position) ==> q.remove(position).current_track() == q.current_track(),
        q.current == Some(position) && position + 1 < q.tracks.len() ==> {
            &&& q.remove(position).current == Some(position)
            &&& q.remove(position).current_track() == Some(q.tracks[position as int + 1])
        },
        q.current == Some(position) && position + 1 == q.tracks.len() ==> q.remove(
            position,
        ).current is None,
        q.remove(position).tracks.len() + 1 == q.tracks.len(),
{
}

/// Stepping forward from the last entry clears the cursor; stepping back
/// from the first entry, or with no cursor, lands on the first entry.
pub proof fn lemma_steps_at_the_ends(q: QueueView)
    requires
        q.consistent(),
        q.tracks.len() > 0,
    ensures
        q.current == Some((q.tracks.len() - 1) as nat) ==> q.advance().current is None,
        q.current is None ==> q.advance().current == Some(0nat),
        q.current == Some(0nat) || q.current is None ==> q.skip_backward().current == Some(0nat),
        q.skip_backward().current_track() is Some,
{
}

} // verus!
