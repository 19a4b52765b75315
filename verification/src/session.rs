//! The per-session queue manager.
//!
//! One session per occupied voice channel: the connection identity,
//! a strict FIFO queue of entries, and the loop flag of the current
//! entry. The head of the queue is the currently playing entry. All
//! mutations here are serialized by the caller under the session's
//! own guard; the library states what each operation does to the
//! queue, and hands ended entries back so the caller can reap their
//! pipelines before the queue advances.

use vstd::prelude::*;

use crate::source::RestartableSource;
use crate::source::SourceState;
use crate::track::TrackDescriptor;

verus! {

/// One queued track: its restartable source (which carries the
/// resolved descriptor), whether it is to loop, and whether its
/// playback is paused.
pub struct QueueEntry {
    pub source: RestartableSource,
    pub looped: bool,
    pub paused: bool,
}

impl QueueEntry {
    /// An entry is usable once its source passed metadata resolution.
    pub open spec fn wf(&self) -> bool {
        self.source.wf() && self.source.descriptor is Some
    }

    /// The resolved track this entry plays.
    pub open spec fn track(&self) -> TrackDescriptor
        recommends
            self.wf(),
    {
        self.source.descriptor->0
    }

    /// Wraps a resolved source; not looped and not paused.
    pub fn new(source: RestartableSource) -> (e: QueueEntry)
        requires
            source.wf(),
            source.descriptor is Some,
        ensures
            e.wf(),
            e.source == source,
            !e.looped,
            !e.paused,
    {
        QueueEntry { source, looped: false, paused: false }
    }
}

/// The bot's occupancy of one voice channel: where it is connected,
/// and what it queued there. The head of the queue, when any, is the
/// currently playing entry.
pub struct SessionState {
    pub channel: Option<u64>,
    pub queue: Vec<QueueEntry>,
}

/// What happened to the queue when the current track ended on its
/// own: the session was already idle, the looped head stays current
/// to be replayed, or the queue advanced past the ended head.
pub enum TrackEndAdvance {
    Idle,
    Replay,
    Advance { ended: QueueEntry },
}

/// Appending one entry to a queue.
pub open spec fn enqueue_spec(q: Seq<QueueEntry>, e: QueueEntry) -> Seq<QueueEntry> {
    q.push(e)
}

/// Appending a whole sequence of entries, one enqueue at a time.
pub open spec fn enqueue_all_spec(q: Seq<QueueEntry>, es: Seq<QueueEntry>) -> Seq<QueueEntry>
    decreases es.len(),
{
    if es.len() == 0 {
        q
    } else {
        enqueue_all_spec(enqueue_spec(q, es[0]), es.drop_first())
    }
}

/// After any number of enqueue operations and no skips, the queue
/// holds exactly the entries given, after the ones already there, in
/// insertion order — so its length grew by exactly their number.
pub proof fn lemma_queue_after_enqueues(q: Seq<QueueEntry>, es: Seq<QueueEntry>)
    ensures
        enqueue_all_spec(q, es) == q + es,
        enqueue_all_spec(q, es).len() == q.len() + es.len(),
    decreases es.len(),
{
    if es.len() == 0 {
        assert(enqueue_all_spec(q, es) =~= q + es);
    } else {
        lemma_queue_after_enqueues(enqueue_spec(q, es[0]), es.drop_first());
        assert(q.push(es[0]) + es.drop_first() =~= q + es);
    }
}

impl SessionState {
    /// Every queued entry is well-formed.
    pub open spec fn wf(&self) -> bool {
        forall|i: int| 0 <= i < self.queue@.len() ==> #[trigger] self.queue@[i].wf()
    }

    /// The currently playing track: always the queue head while one
    /// is there, nothing while the session is idle.
    pub open spec fn spec_current(&self) -> Option<TrackDescriptor> {
        if self.queue@.len() > 0 {
            Some(self.queue@[0].track())
        } else {
            None
        }
    }

    /// An unconnected session with an empty queue.
    pub fn new() -> (s: SessionState)
        ensures
            s.wf(),
            s.channel is None,
            s.queue@.len() == 0,
    {
        SessionState { channel: None, queue: Vec::new() }
    }

    /// Connects to `channel` (joining or moving there) and appends
    /// `entry` to the queue. Playback of the entry begins right away
    /// exactly when the queue was empty; the return value says so.
    pub fn join_and_enqueue(&mut self, channel: u64, entry: QueueEntry) -> (started: bool)
        requires
            old(self).wf(),
            entry.wf(),
        ensures
            final(self).wf(),
            final(self).channel == Some(channel),
            final(self).queue@ == enqueue_spec(old(self).queue@, entry),
            started == (old(self).queue@.len() == 0),
            started ==> final(self).spec_current() == Some(entry.track()),
    {
        let started = self.queue.len() == 0;
        self.channel = Some(channel);
        self.queue.push(entry);
        started
    }

    /// Forcibly ends the current track, if any, and advances the
    /// queue: the next entry (if any) becomes current, or the session
    /// goes idle. The ended head is handed back, its source ended and
    /// its pipeline torn down, so the caller can reap the processes.
    /// With nothing playing this changes no state.
    pub fn skip_current(&mut self) -> (r: Option<QueueEntry>)
        requires
            old(self).wf(),
        ensures
            final(self).wf(),
            final(self).channel == old(self).channel,
            old(self).queue@.len() == 0 ==> r is None && *final(self) == *old(self),
            old(self).queue@.len() > 0 ==> {
                &&& r matches Some(e)
                &&& e.source.state == SourceState::Ended
                &&& e.source.descriptor == old(self).queue@[0].source.descriptor
                &&& e.looped == old(self).queue@[0].looped
                &&& final(self).queue@ == old(self).queue@.subrange(
                    1,
                    old(self).queue@.len() as int,
                )
                &&& old(self).queue@.len() > 1 ==> final(self).spec_current() == Some(
                    old(self).queue@[1].track(),
                )
                &&& old(self).queue@.len() == 1 ==> final(self).spec_current() is None
            },
    {
        if self.queue.len() == 0 {
            return None;
        }
        let mut head = self.queue.remove(0);
        proof {
            assert(old(self).queue@[0].wf());
        }
        head.source.end();
        proof {
            assert(final(self).queue@ =~= old(self).queue@.subrange(
                1,
                old(self).queue@.len() as int,
            ));
        }
        Some(head)
    }

    /// Ends the current track and discards all queued entries; the
    /// session goes idle but stays connected. Every ended entry is
    /// handed back, sources ended and pipelines torn down.
    pub fn stop_and_clear(&mut self) -> (ended: Vec<QueueEntry>)
        requires
            old(self).wf(),
        ensures
            final(self).wf(),
            final(self).channel == old(self).channel,
            final(self).queue@.len() == 0,
            ended@.len() == old(self).queue@.len(),
            forall|i: int|
                0 <= i < ended@.len() ==> {
                    &&& (#[trigger] ended@[i]).source.state == SourceState::Ended
                    &&& ended@[i].source.descriptor == old(self).queue@[i].source.descriptor
                },
    {
        let mut ended: Vec<QueueEntry> = Vec::new();
        while self.queue.len() > 0
            invariant
                old(self).wf(),
                self.wf(),
                self.channel == old(self).channel,
                ended@.len() + self.queue@.len() == old(self).queue@.len(),
                self.queue@ == old(self).queue@.subrange(
                    ended@.len() as int,
                    old(self).queue@.len() as int,
                ),
                forall|i: int|
                    0 <= i < ended@.len() ==> {
                        &&& (#[trigger] ended@[i]).source.state == SourceState::Ended
                        &&& ended@[i].source.descriptor == old(self).queue@[i].source.descriptor
                    },
            decreases self.queue@.len(),
        {
            let mut head = self.queue.remove(0);
            proof {
                assert(old(self).queue@[ended@.len() as int].wf());
            }
            head.source.end();
            ended.push(head);
            proof {
                assert(self.queue@ =~= old(self).queue@.subrange(
                    ended@.len() as int,
                    old(self).queue@.len() as int,
                ));
            }
        }
        ended
    }

    /// Pauses the current track's playback without touching its
    /// pipeline; reports whether there was a track to pause.
    pub fn pause_current(&mut self) -> (ok: bool)
        requires
            old(self).wf(),
        ensures
            final(self).wf(),
            final(self).channel == old(self).channel,
            ok == (old(self).queue@.len() > 0),
            !ok ==> *final(self) == *old(self),
            ok ==> {
                &&& final(self).queue@.len() == old(self).queue@.len()
                &&& final(self).queue@[0].source == old(self).queue@[0].source
                &&& final(self).queue@[0].looped == old(self).queue@[0].looped
                &&& final(self).queue@[0].paused
                &&& forall|i: int|
                    1 <= i < old(self).queue@.len() ==> final(self).queue@[i] == old(
                        self,
                    ).queue@[i]
            },
    {
        if self.queue.len() == 0 {
            return false;
        }
        self.queue[0].paused = true;
        proof {
            assert forall|i: int| 0 <= i < self.queue@.len() implies #[trigger] self.queue@[i].wf() by {
                assert(old(self).queue@[i].wf());
            }
        }
        true
    }

    /// Resumes the current track's playback without touching its
    /// pipeline; reports whether there was a track to resume.
    pub fn resume_current(&mut self) -> (ok: bool)
        requires
            old(self).wf(),
        ensures
            final(self).wf(),
            final(self).channel == old(self).channel,
            ok == (old(self).queue@.len() > 0),
            !ok ==> *final(self) == *old(self),
            ok ==> {
                &&& final(self).queue@.len() == old(self).queue@.len()
                &&& final(self).queue@[0].source == old(self).queue@[0].source
                &&& final(self).queue@[0].looped == old(self).queue@[0].looped
                &&& !final(self).queue@[0].paused
                &&& forall|i: int|
                    1 <= i < old(self).queue@.len() ==> final(self).queue@[i] == old(
                        self,
                    ).queue@[i]
            },
    {
        if self.queue.len() == 0 {
            return false;
        }
        self.queue[0].paused = false;
        proof {
            assert forall|i: int| 0 <= i < self.queue@.len() implies #[trigger] self.queue@[i].wf() by {
                assert(old(self).queue@[i].wf());
            }
        }
        true
    }

    /// Reacts to the natural end of the current track. With the loop
    /// flag set, the same track is re-enqueued at the queue head
    /// instead of advancing: the queue is left as it was and the
    /// caller restarts the head's source. Otherwise the ended head is
    /// handed back and the next entry, if any, becomes current.
    pub fn advance_after_end(&mut self) -> (r: TrackEndAdvance)
        requires
            old(self).wf(),
        ensures
            final(self).wf(),
            final(self).channel == old(self).channel,
            old(self).queue@.len() == 0 ==> r is Idle && *final(self) == *old(self),
            old(self).queue@.len() > 0 && old(self).queue@[0].looped ==> r is Replay
                && *final(self) == *old(self) && final(self).spec_current() == old(
                self,
            ).spec_current(),
            old(self).queue@.len() > 0 && !old(self).queue@[0].looped ==> {
                &&& r matches TrackEndAdvance::Advance { ended } && ended.source.state
                    == SourceState::Ended && ended.source.descriptor
                    == old(self).queue@[0].source.descriptor
                &&& final(self).queue@ == old(self).queue@.subrange(
                    1,
                    old(self).queue@.len() as int,
                )
                &&& old(self).queue@.len() > 1 ==> final(self).spec_current() == Some(
                    old(self).queue@[1].track(),
                )
                &&& old(self).queue@.len() == 1 ==> final(self).spec_current() is None
            },
    {
        if self.queue.len() == 0 {
            return TrackEndAdvance::Idle;
        }
        if self.queue[0].looped {
            return TrackEndAdvance::Replay;
        }
        let mut head = self.queue.remove(0);
        proof {
            assert(old(self).queue@[0].wf());
        }
        head.source.end();
        proof {
            assert(final(self).queue@ =~= old(self).queue@.subrange(
                1,
                old(self).queue@.len() as int,
            ));
        }
        TrackEndAdvance::Advance { ended: head }
    }

    /// Flips the loop flag of the current track. Returns the new
    /// state of the flag, or nothing when the session is idle.
    pub fn toggle_loop_current(&mut self) -> (r: Option<bool>)
        requires
            old(self).wf(),
        ensures
            final(self).wf(),
            final(self).channel == old(self).channel,
            old(self).queue@.len() == 0 ==> r is None && *final(self) == *old(self),
            old(self).queue@.len() > 0 ==> {
                &&& r == Some(!old(self).queue@[0].looped)
                &&& final(self).queue@.len() == old(self).queue@.len()
                &&& final(self).queue@[0].source == old(self).queue@[0].source
                &&& final(self).queue@[0].paused == old(self).queue@[0].paused
                &&& final(self).queue@[0].looped == !old(self).queue@[0].looped
                &&& forall|i: int|
                    1 <= i < old(self).queue@.len() ==> final(self).queue@[i] == old(
                        self,
                    ).queue@[i]
            },
    {
        if self.queue.len() == 0 {
            return None;
        }
        let now = !self.queue[0].looped;
        self.queue[0].looped = now;
        proof {
            assert forall|i: int| 0 <= i < self.queue@.len() implies #[trigger] self.queue@[i].wf() by {
                assert(old(self).queue@[i].wf());
            }
        }
        Some(now)
    }
}

} // verus!
