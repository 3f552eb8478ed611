//! Sink registry: bind every configured channel, in list order, to a named
//! output sink, taking exclusive ownership of each upstream channel from
//! the pool the attached session offers. Binding is all-or-nothing: either
//! every entry gets its sink, or the first entry whose channel cannot be
//! had is reported and no session is produced.
//!
//! Creating the output files is I/O done by the caller once binding has
//! succeeded; a file that cannot be created is fatal to startup, exactly
//! like a missing channel.

use vstd::prelude::*;

use crate::capture::{CaptureSession, ChannelSink};
use crate::config::Channel;

verus! {

/// The upstream channels an attached session still offers for binding,
/// indexed by channel number.
pub struct ChannelPool {
    avail: Vec<bool>,
}

impl ChannelPool {
    /// Channel `i` is present and not yet taken.
    pub closed spec fn available(self, i: int) -> bool {
        0 <= i < self.avail@.len() && self.avail@[i]
    }

    /// A fresh pool offering the channels `0 .. n`, as an RTT session
    /// numbers its up-channels.
    pub fn new(n: usize) -> (p: ChannelPool)
        ensures
            forall|i: int| p.available(i) <==> 0 <= i < n,
    {
        let mut avail: Vec<bool> = Vec::new();
        let mut k: usize = 0;
        while k < n
            invariant
                k <= n,
                avail@.len() == k,
                forall|i: int| 0 <= i < k ==> avail@[i],
            decreases n - k,
        {
            avail.push(true);
            k = k + 1;
        }
        ChannelPool { avail }
    }

    /// Take exclusive ownership of channel `i`: it leaves the pool, and the
    /// result says whether it was there to take.
    pub fn take(&mut self, i: usize) -> (r: bool)
        ensures
            r == old(self).available(i as int),
            !final(self).available(i as int),
            forall|j: int| j != i ==> final(self).available(j) == old(self).available(j),
    {
        if i < self.avail.len() {
            let was = self.avail[i];
            self.avail.set(i, false);
            was
        } else {
            false
        }
    }
}

/// Why binding failed: configuration entry `entry` asked for an upstream
/// channel that is out of range or already taken by an earlier entry.
#[derive(Debug, Clone, Copy, PartialEq, Eq, Structural)]
pub struct BindError {
    pub entry: usize,
}

/// One of the first `n` configuration entries asks for upstream channel `j`.
pub open spec fn taken_by_prefix(channels: Seq<Channel>, n: int, j: int) -> bool {
    exists|k: int| 0 <= k < n && channels[k].up == j
}

/// Entry `k` of the configuration can be bound, given the pool as it stood
/// before any binding: its channel is available and no earlier entry asks
/// for the same one.
pub open spec fn entry_bindable(channels: Seq<Channel>, pool: ChannelPool, k: int) -> bool {
    &&& pool.available(channels[k].up as int)
    &&& !taken_by_prefix(channels, k, channels[k].up as int)
}

/// The sink that configuration entry `ch` asks for: same channel, name and
/// path, alive, with an as-yet empty file.
pub open spec fn sink_matches(sink: ChannelSink, ch: Channel) -> bool {
    &&& sink.up == ch.up
    &&& sink.name == ch.name
    &&& sink.path == ch.path
    &&& sink.working
    &&& sink.written@ == Seq::<u8>::empty()
}

/// Bind every configured channel, in list order, to a named output sink.
/// All-or-nothing: the result is a full session — one sink per entry,
/// preserving the entry's channel, name and path — exactly when every
/// entry's channel is distinct and available; otherwise the first entry
/// that cannot be bound is reported and no sinks escape.
pub fn bind_sinks(channels: &Vec<Channel>, pool: &mut ChannelPool) -> (r: Result<
    CaptureSession,
    BindError,
>)
    ensures
        r is Ok <==> (forall|k: int|
            0 <= k < channels@.len() ==> entry_bindable(channels@, *old(pool), k)),
        r matches Ok(s) ==> {
            &&& s.sinks@.len() == channels@.len()
            &&& forall|k: int|
                0 <= k < channels@.len() ==> sink_matches(#[trigger] s.sinks@[k], channels@[k])
            &&& s.wf()
        },
        r matches Err(e) ==> {
            &&& (e.entry as int) < channels@.len()
            &&& !entry_bindable(channels@, *old(pool), e.entry as int)
            &&& forall|k: int| 0 <= k < e.entry ==> entry_bindable(channels@, *old(pool), k)
        },
{
    let ghost pool0 = *pool;
    let mut sinks: Vec<ChannelSink> = Vec::new();
    let mut i: usize = 0;
    while i < channels.len()
        invariant
            pool0 == *old(pool),
            i <= channels@.len(),
            sinks@.len() == i,
            forall|j: int|
                #[trigger] pool.available(j) <==> pool0.available(j) && !taken_by_prefix(
                    channels@,
                    i as int,
                    j,
                ),
            forall|k: int| 0 <= k < i ==> entry_bindable(channels@, pool0, k),
            forall|k: int|
                0 <= k < i ==> sink_matches(#[trigger] sinks@[k], channels@[k]),
        decreases channels@.len() - i,
    {
        let ch = &channels[i];
        let ghost pool_before = *pool;
        let got = pool.take(ch.up);
        proof {
            assert(pool_before.available(ch.up as int) <==> pool0.available(ch.up as int)
                && !taken_by_prefix(channels@, i as int, ch.up as int));
            assert(got <==> entry_bindable(channels@, pool0, i as int));
        }
        if !got {
            return Err(BindError { entry: i });
        }
        proof {
            assert forall|j: int|
                #[trigger] pool.available(j) <==> pool0.available(j) && !taken_by_prefix(
                    channels@,
                    i + 1,
                    j,
                ) by {
                if j == ch.up as int {
                    assert(channels@[i as int].up == j);
                    assert(taken_by_prefix(channels@, i + 1, j));
                } else {
                    assert(pool.available(j) == pool_before.available(j));
                    if taken_by_prefix(channels@, i + 1, j) {
                        let k = choose|k: int| 0 <= k < i + 1 && channels@[k].up == j;
                        assert(0 <= k < i && channels@[k].up == j);
                        assert(taken_by_prefix(channels@, i as int, j));
                    } else {
                        assert(!taken_by_prefix(channels@, i as int, j));
                    }
                }
            }
        }
        let sink = ChannelSink {
            up: ch.up,
            name: ch.name.clone(),
            path: ch.path.clone(),
            working: true,
            written: Ghost(Seq::empty()),
        };
        sinks.push(sink);
        i = i + 1;
    }
    let session = CaptureSession { sinks };
    proof {
        assert forall|a: int, b: int|
            0 <= a < b < session.sinks@.len() implies session.sinks@[a].up
            != session.sinks@[b].up by {
            assert(entry_bindable(channels@, pool0, b));
            assert(sink_matches(session.sinks@[a], channels@[a]));
            assert(sink_matches(session.sinks@[b], channels@[b]));
            if channels@[a].up == channels@[b].up {
                assert(taken_by_prefix(channels@, b, channels@[b].up as int));
            }
        }
    }
    Ok(session)
}

} // verus!
