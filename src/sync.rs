use vstd::prelude::*;

use std::collections::VecDeque;

use crate::replay::StreamTag;

verus! {

/// A fixed-capacity FIFO that, when full, drops its oldest element to make
/// room instead of blocking the producer.
pub struct BoundedQueue<T> {
    items: VecDeque<T>,
    capacity: usize,
    dropped: u64,
}

impl<T> BoundedQueue<T> {
    /// The queued elements, oldest first.
    pub closed spec fn contents(&self) -> Seq<T> {
        self.items@
    }

    pub closed spec fn cap(&self) -> nat {
        self.capacity as nat
    }

    /// How many elements were dropped on overflow (saturating).
    pub closed spec fn dropped_count(&self) -> nat {
        self.dropped as nat
    }

    pub open spec fn well_formed(&self) -> bool {
        0 < self.cap() && self.contents().len() <= self.cap()
    }

    pub fn new(capacity: usize) -> (r: Self)
        requires
            capacity > 0,
        ensures
            r.well_formed(),
            r.cap() == capacity,
            r.contents() == Seq::<T>::empty(),
            r.dropped_count() == 0,
    {
        BoundedQueue { items: VecDeque::new(), capacity, dropped: 0 }
    }

    pub fn len(&self) -> (r: usize)
        ensures
            r == self.contents().len(),
    {
        self.items.len()
    }

    pub fn dropped(&self) -> (r: u64)
        ensures
            r == self.dropped_count(),
    {
        self.dropped
    }

    /// Enqueues `x`; when the queue is full its oldest element is dropped and
    /// counted. Returns whether a drop took place.
    pub fn push(&mut self, x: T) -> (was_full: bool)
        requires
            old(self).well_formed(),
        ensures
            final(self).well_formed(),
            final(self).cap() == old(self).cap(),
            was_full == (old(self).contents().len() == old(self).cap()),
            was_full ==> final(self).contents() == old(self).contents().push(x).skip(1),
            !was_full ==> final(self).contents() == old(self).contents().push(x),
            final(self).dropped_count() == if was_full && old(self).dropped_count() < u64::MAX {
                old(self).dropped_count() + 1
            } else {
                old(self).dropped_count()
            },
    {
        let was_full = self.items.len() == self.capacity;
        if was_full {
            let _ = self.items.pop_front();
            if self.dropped < u64::MAX {
                self.dropped = self.dropped + 1;
            }
        }
        self.items.push_back(x);
        proof {
            if was_full {
                assert(self.items@ =~= old(self).contents().push(x).skip(1));
            }
        }
        was_full
    }

    /// Dequeues the oldest element.
    pub fn pop(&mut self) -> (r: Option<T>)
        requires
            old(self).well_formed(),
        ensures
            final(self).well_formed(),
            final(self).cap() == old(self).cap(),
            final(self).dropped_count() == old(self).dropped_count(),
            old(self).contents().len() == 0 ==> r is None && final(self).contents() == old(
                self,
            ).contents(),
            old(self).contents().len() > 0 ==> r == Some(old(self).contents()[0])
                && final(self).contents() == old(self).contents().skip(1),
    {
        let r = self.items.pop_front();
        proof {
            if old(self).contents().len() > 0 {
                assert(self.items@ =~= old(self).contents().skip(1));
            }
        }
        r
    }
}

/// What the merge stage does with the next video frame to restore alignment.
#[derive(Debug, Clone, Copy, PartialEq, Eq, Structural)]
pub enum DriftAction {
    /// The streams are aligned: emit the frame as it is.
    Keep,
    /// Video lags audio: repeat the last frame.
    Duplicate,
    /// Video runs ahead of audio: skip the stale frame.
    Drop,
}

/// Video lagging audio by more than `threshold` is padded, video running
/// ahead by more than `threshold` is thinned, anything else is kept.
pub open spec fn drift_decision(video: int, audio: int, threshold: int) -> DriftAction {
    if audio - video > threshold {
        DriftAction::Duplicate
    } else if video - audio > threshold {
        DriftAction::Drop
    } else {
        DriftAction::Keep
    }
}

/// Time since the reference instant, never negative.
pub open spec fn since_start(start: int, ts: int) -> int {
    if ts >= start {
        ts - start
    } else {
        0
    }
}

pub struct SyncView {
    pub start: u64,
    pub threshold: u64,
    pub last_video: u64,
    pub last_audio: u64,
    pub duplicated: u64,
    pub dropped: u64,
}

impl SyncView {
    pub open spec fn last(self, stream: StreamTag) -> u64 {
        match stream {
            StreamTag::Video => self.last_video,
            StreamTag::Audio => self.last_audio,
        }
    }
}

/// Puts two independently clocked producers on one timeline anchored at the
/// pipeline's start, keeps each stream's timestamps non-decreasing, and decides
/// drift correction with metered counters.
pub struct Synchronizer {
    start_us: u64,
    threshold_us: u64,
    last_video: u64,
    last_audio: u64,
    duplicated: u64,
    dropped: u64,
}

impl View for Synchronizer {
    type V = SyncView;

    closed spec fn view(&self) -> SyncView {
        SyncView {
            start: self.start_us,
            threshold: self.threshold_us,
            last_video: self.last_video,
            last_audio: self.last_audio,
            duplicated: self.duplicated,
            dropped: self.dropped,
        }
    }
}

pub open spec fn saturating_inc(n: u64) -> u64 {
    if n < u64::MAX {
        (n + 1) as u64
    } else {
        n
    }
}

impl Synchronizer {
    /// `start_us` is the reference clock reading taken when the pipeline started.
    pub fn new(start_us: u64, threshold_us: u64) -> (r: Self)
        ensures
            r@ == (SyncView {
                start: start_us,
                threshold: threshold_us,
                last_video: 0,
                last_audio: 0,
                duplicated: 0,
                dropped: 0,
            }),
    {
        Synchronizer {
            start_us,
            threshold_us,
            last_video: 0,
            last_audio: 0,
            duplicated: 0,
            dropped: 0,
        }
    }

    pub fn duplicated(&self) -> (r: u64)
        ensures
            r == self@.duplicated,
    {
        self.duplicated
    }

    pub fn dropped(&self) -> (r: u64)
        ensures
            r == self@.dropped,
    {
        self.dropped
    }

    /// Gives a unit captured at `capture_us` its presentation time on the shared
    /// timeline: the time since start, raised where needed so that no unit of
    /// the stream goes back in time.
    pub fn stamp(&mut self, stream: StreamTag, capture_us: u64) -> (pts: u64)
        ensures
            pts >= old(self)@.last(stream),
            pts == if since_start(old(self)@.start as int, capture_us as int) >= old(self)@.last(
                stream,
            ) {
                since_start(old(self)@.start as int, capture_us as int)
            } else {
                old(self)@.last(stream) as int
            },
            final(self)@ == (match stream {
                StreamTag::Video => SyncView { last_video: pts, ..old(self)@ },
                StreamTag::Audio => SyncView { last_audio: pts, ..old(self)@ },
            }),
    {
        let t: u64 = if capture_us >= self.start_us {
            capture_us - self.start_us
        } else {
            0
        };
        match stream {
            StreamTag::Video => {
                let pts = if t >= self.last_video {
                    t
                } else {
                    self.last_video
                };
                self.last_video = pts;
                pts
            },
            StreamTag::Audio => {
                let pts = if t >= self.last_audio {
                    t
                } else {
                    self.last_audio
                };
                self.last_audio = pts;
                pts
            },
        }
    }

    /// Decides how to treat the next video frame from the latest timestamps of
    /// both streams, and counts duplications and drops.
    pub fn correct_drift(&mut self) -> (a: DriftAction)
        ensures
            a == drift_decision(
                old(self)@.last_video as int,
                old(self)@.last_audio as int,
                old(self)@.threshold as int,
            ),
            final(self)@ == (match a {
                DriftAction::Duplicate => SyncView {
                    duplicated: saturating_inc(old(self)@.duplicated),
                    ..old(self)@
                },
                DriftAction::Drop => SyncView { dropped: saturating_inc(old(self)@.dropped), ..old(self)@ },
                DriftAction::Keep => old(self)@,
            }),
    {
        let v = self.last_video;
        let au = self.last_audio;
        if au > v && au - v > self.threshold_us {
            if self.duplicated < u64::MAX {
                self.duplicated = self.duplicated + 1;
            }
            DriftAction::Duplicate
        } else if v > au && v - au > self.threshold_us {
            if self.dropped < u64::MAX {
                self.dropped = self.dropped + 1;
            }
            DriftAction::Drop
        } else {
            DriftAction::Keep
        }
    }
}

} // verus!
