use vstd::prelude::*;

use std::collections::VecDeque;

use crate::device::{Config, Device};
use crate::error::SoundCardError;
use crate::format::{negotiate, negotiated, NegotiatedFormat, Sample};
use crate::lifecycle::{
    after_start,
    after_stop,
    start_outcome,
    start_transition,
    stop_outcome,
    stop_transition,
    StreamState,
};

verus! {

/// How many blocks a capture channel holds before the callback starts
/// dropping new ones.
pub const CAPTURE_CAPACITY: usize = 1024;

/// The hand-off channel between the input callback and the application:
/// a bounded FIFO of sample blocks, one block per callback invocation.
pub struct CaptureChannel<T> {
    blocks: VecDeque<Vec<T>>,
    capacity: usize,
}

impl<T> View for CaptureChannel<T> {
    type V = Seq<Seq<T>>;

    /// The blocks waiting for the consumer, oldest first.
    closed spec fn view(&self) -> Seq<Seq<T>> {
        self.blocks@.map_values(|b: Vec<T>| b@)
    }
}

/// The queue after the callback offers block `b`: it is appended when the
/// session is running and the queue has room, and dropped otherwise.
pub open spec fn offer<T>(q: Seq<Seq<T>>, cap: nat, running: bool, b: Seq<T>) -> Seq<Seq<T>> {
    if running && q.len() < cap {
        q.push(b)
    } else {
        q
    }
}

/// The queue after the callback offers the blocks of `bs` one after the
/// other, with no consumer in between.
pub open spec fn offer_all<T>(q: Seq<Seq<T>>, cap: nat, running: bool, bs: Seq<Seq<T>>) -> Seq<
    Seq<T>,
>
    decreases bs.len(),
{
    if bs.len() == 0 {
        q
    } else {
        offer_all(offer(q, cap, running, bs[0]), cap, running, bs.drop_first())
    }
}

impl<T: Copy> CaptureChannel<T> {
    /// The number of blocks the channel holds at most.
    pub closed spec fn cap(&self) -> nat {
        self.capacity as nat
    }

    /// An empty channel holding at most `capacity` blocks.
    pub fn new(capacity: usize) -> (r: Self)
        ensures
            r@ == Seq::<Seq<T>>::empty(),
            r.cap() == capacity,
    {
        let r = CaptureChannel { blocks: VecDeque::new(), capacity };
        proof {
            assert(r@ =~= Seq::<Seq<T>>::empty());
        }
        r
    }

    pub fn capacity(&self) -> (r: usize)
        ensures
            r == self.cap(),
    {
        self.capacity
    }

    /// The number of blocks waiting.
    pub fn len(&self) -> (r: usize)
        ensures
            r == self@.len(),
    {
        self.blocks.len()
    }

    /// Hands one block to the consumer without waiting: the block is copied
    /// in when there is room and dropped when the channel is full. Returns
    /// whether it was taken.
    pub fn send(&mut self, block: &[T]) -> (r: bool)
        ensures
            r == (old(self)@.len() < old(self).cap()),
            final(self)@ == offer(old(self)@, old(self).cap(), true, block@),
            final(self).cap() == old(self).cap(),
    {
        if self.blocks.len() >= self.capacity {
            return false;
        }
        let mut copy: Vec<T> = Vec::with_capacity(block.len());
        let mut i: usize = 0;
        while i < block.len()
            invariant
                i <= block@.len(),
                copy@ == block@.take(i as int),
            decreases block@.len() - i,
        {
            copy.push(block[i]);
            i = i + 1;
            proof {
                assert(copy@ =~= block@.take(i as int));
            }
        }
        proof {
            assert(copy@ =~= block@);
        }
        let ghost before = self.blocks@;
        self.blocks.push_back(copy);
        proof {
            assert(self.blocks@ == before.push(copy));
            assert(self@ =~= old(self)@.push(block@));
        }
        true
    }

    /// Takes the oldest waiting block, if any.
    pub fn recv(&mut self) -> (r: Option<Vec<T>>)
        ensures
            old(self)@.len() == 0 ==> r is None && final(self)@ == old(self)@,
            old(self)@.len() > 0 ==> r is Some && r->Some_0@ == old(self)@[0] && final(self)@
                == old(self)@.drop_first(),
            final(self).cap() == old(self).cap(),
    {
        let r = self.blocks.pop_front();
        proof {
            if old(self)@.len() > 0 {
                assert(self@ =~= old(self)@.drop_first());
            }
        }
        r
    }
}

/// A Microphone records audio from its device and hands each block of
/// audio to the application through a `CaptureChannel`.
///
/// The hardware requests themselves are made by the caller; the session
/// decides what to request and what each answer means.
pub struct Microphone {
    device: Device,
    config: Config,
    state: StreamState,
    format: Option<NegotiatedFormat>,
}

impl Microphone {
    pub closed spec fn spec_device(&self) -> Device {
        self.device
    }

    pub closed spec fn spec_config(&self) -> Config {
        self.config
    }

    pub closed spec fn spec_state(&self) -> StreamState {
        self.state
    }

    /// The format of the current start/stop cycle; `None` while idle.
    pub closed spec fn spec_format(&self) -> Option<NegotiatedFormat> {
        self.format
    }

    /// A microphone on `device`, idle, that will open streams with `config`.
    pub fn new(device: Device, config: Config) -> (r: Self)
        ensures
            r.spec_device() == device,
            r.spec_config() == config,
            r.spec_state() == StreamState::Idle,
            r.spec_format() is None,
    {
        Microphone { device, config, state: StreamState::Idle, format: None }
    }

    /// A microphone on the system's default input device, or `None` when
    /// there is none.
    pub fn default(default_device: Option<Device>, config: Config) -> (r: Option<Self>)
        ensures
            r is Some <==> default_device is Some,
            r is Some ==> r->Some_0.spec_device() == default_device->Some_0
                && r->Some_0.spec_config() == config && r->Some_0.spec_state()
                == StreamState::Idle && r->Some_0.spec_format() is None,
    {
        match default_device {
            Some(device) => Some(Microphone::new(device, config)),
            None => None,
        }
    }

    pub fn state(&self) -> (r: StreamState)
        ensures
            r == self.spec_state(),
    {
        self.state
    }

    pub fn device(&self) -> (r: &Device)
        ensures
            *r == self.spec_device(),
    {
        &self.device
    }

    /// The format of the current start/stop cycle; `None` while idle.
    pub fn format(&self) -> (r: Option<NegotiatedFormat>)
        ensures
            r == self.spec_format(),
    {
        self.format
    }

    /// The stream format that `start::<T>` installs: the one to hand to the
    /// hardware before calling `start`.
    pub fn negotiate<T: Sample>(&self) -> (r: NegotiatedFormat)
        ensures
            r == negotiated(self.spec_device(), self.spec_config(), T::spec_format()),
    {
        negotiate(&self.device, &self.config, T::sample_format())
    }

    /// Starts capturing. `hw` is how the hardware answered the requests to
    /// set the negotiated format, install the input callback and start the
    /// stream. On success the session runs with the negotiated format and
    /// the returned channel is where the callback delivers blocks.
    pub fn start<T: Sample>(&mut self, hw: Result<(), SoundCardError>) -> (r: Result<
        CaptureChannel<T>,
        SoundCardError,
    >)
        ensures
            r is Ok <==> start_outcome(old(self).spec_state(), hw) is Ok,
            r is Err ==> r->Err_0 == start_outcome(old(self).spec_state(), hw)->Err_0,
            final(self).spec_state() == after_start(old(self).spec_state(), hw),
            final(self).spec_device() == old(self).spec_device(),
            final(self).spec_config() == old(self).spec_config(),
            r is Ok ==> r->Ok_0@ == Seq::<Seq<T>>::empty() && r->Ok_0.cap() == CAPTURE_CAPACITY
                && final(self).spec_format() == Some(
                negotiated(old(self).spec_device(), old(self).spec_config(), T::spec_format()),
            ),
            r is Err ==> final(self).spec_format() == old(self).spec_format(),
    {
        let format = negotiate(&self.device, &self.config, T::sample_format());
        match start_transition(&mut self.state, hw) {
            Ok(()) => {
                self.format = Some(format);
                Ok(CaptureChannel::new(CAPTURE_CAPACITY))
            },
            Err(e) => Err(e),
        }
    }

    /// Stops capturing. `hw` is how the hardware answered the request to
    /// stop the stream. Once stopped, the callback delivers nothing more.
    pub fn stop(&mut self, hw: Result<(), SoundCardError>) -> (r: Result<(), SoundCardError>)
        ensures
            r is Ok <==> stop_outcome(old(self).spec_state(), hw) is Ok,
            r is Err ==> r->Err_0 == stop_outcome(old(self).spec_state(), hw)->Err_0,
            final(self).spec_state() == after_stop(old(self).spec_state(), hw),
            final(self).spec_device() == old(self).spec_device(),
            final(self).spec_config() == old(self).spec_config(),
            r is Ok ==> final(self).spec_format() is None,
            r is Err ==> final(self).spec_format() == old(self).spec_format(),
    {
        let r = stop_transition(&mut self.state, hw);
        if r.is_ok() {
            self.format = None;
        }
        r
    }

    /// The input callback: offers the block the hardware captured to the
    /// channel without waiting. The block is dropped when the session is
    /// not running or the consumer has fallen behind and the channel is
    /// full; the hardware is never told. Returns whether it was queued.
    pub fn on_input<T: Copy>(&self, channel: &mut CaptureChannel<T>, block: &[T]) -> (r: bool)
        ensures
            r == (self.spec_state() == StreamState::Running && old(channel)@.len() < old(
                channel,
            ).cap()),
            final(channel)@ == offer(
                old(channel)@,
                old(channel).cap(),
                self.spec_state() == StreamState::Running,
                block@,
            ),
            final(channel).cap() == old(channel).cap(),
    {
        if self.state == StreamState::Running {
            channel.send(block)
        } else {
            false
        }
    }
}

/// Blocks offered by consecutive callback invocations reach the consumer in
/// the order they were captured: with room for all of them they are all
/// queued, and on overflow the later ones are dropped, never reordered.
pub proof fn lemma_capture_order<T>(q: Seq<Seq<T>>, cap: nat, bs: Seq<Seq<T>>)
    requires
        q.len() <= cap,
    ensures
        offer_all(q, cap, true, bs) == q + bs.take(
            if bs.len() <= cap - q.len() {
                bs.len() as int
            } else {
                cap - q.len()
            },
        ),
    decreases bs.len(),
{
    if bs.len() == 0 {
        assert(q + bs.take(0) =~= q);
    } else {
        let q1 = offer(q, cap, true, bs[0]);
        lemma_capture_order(q1, cap, bs.drop_first());
        if q.len() < cap {
            let k: int = if bs.len() <= cap - q.len() {
                bs.len() as int
            } else {
                cap - q.len()
            };
            assert(q1 + bs.drop_first().take(k - 1) =~= q + bs.take(k));
        } else {
            assert(bs.drop_first().take(0) =~= bs.take(0));
        }
    }
}

/// The channel as seen over a run of a running session: the blocks the
/// consumer has taken, the blocks waiting, and the blocks the callback
/// managed to queue, each oldest first.
pub struct ChannelTrace<T> {
    pub taken: Seq<Seq<T>>,
    pub waiting: Seq<Seq<T>>,
    pub queued: Seq<Seq<T>>,
}

/// One event on the channel: `Some(b)` is a callback offering block `b`
/// (`send`), `None` is the consumer asking for a block (`recv`).
pub open spec fn trace_step<T>(t: ChannelTrace<T>, cap: nat, ev: Option<Seq<T>>) -> ChannelTrace<
    T,
> {
    match ev {
        Some(b) => ChannelTrace {
            taken: t.taken,
            waiting: offer(t.waiting, cap, true, b),
            queued: if t.waiting.len() < cap {
                t.queued.push(b)
            } else {
                t.queued
            },
        },
        None => if t.waiting.len() > 0 {
            ChannelTrace {
                taken: t.taken.push(t.waiting[0]),
                waiting: t.waiting.drop_first(),
                queued: t.queued,
            }
        } else {
            t
        },
    }
}

/// The channel after the events of `evs`, in order.
pub open spec fn trace_run<T>(t: ChannelTrace<T>, cap: nat, evs: Seq<Option<Seq<T>>>) -> ChannelTrace<
    T,
>
    decreases evs.len(),
{
    if evs.len() == 0 {
        t
    } else {
        trace_run(trace_step(t, cap, evs[0]), cap, evs.drop_first())
    }
}

/// However the consumer's reads interleave with the callback's offers,
/// what it has taken followed by what still waits is exactly what was
/// there at first followed by the queued blocks in the order the
/// callback offered them: blocks may be dropped, never reordered.
pub proof fn lemma_slow_consumer_order<T>(q: Seq<Seq<T>>, cap: nat, evs: Seq<Option<Seq<T>>>)
    ensures
        ({
            let t = trace_run(
                ChannelTrace { taken: Seq::empty(), waiting: q, queued: Seq::empty() },
                cap,
                evs,
            );
            t.taken + t.waiting == q + t.queued
        }),
{
    let t0 = ChannelTrace { taken: Seq::<Seq<T>>::empty(), waiting: q, queued: Seq::empty() };
    assert(t0.taken + t0.waiting =~= q + t0.queued);
    lemma_trace_keeps_order(t0, q, cap, evs);
}

proof fn lemma_trace_keeps_order<T>(
    t: ChannelTrace<T>,
    q: Seq<Seq<T>>,
    cap: nat,
    evs: Seq<Option<Seq<T>>>,
)
    requires
        t.taken + t.waiting == q + t.queued,
    ensures
        trace_run(t, cap, evs).taken + trace_run(t, cap, evs).waiting == q + trace_run(
            t,
            cap,
            evs,
        ).queued,
    decreases evs.len(),
{
    if evs.len() > 0 {
        let t1 = trace_step(t, cap, evs[0]);
        match evs[0] {
            Some(b) => {
                if t.waiting.len() < cap {
                    assert(t1.taken + t1.waiting =~= (t.taken + t.waiting).push(b));
                    assert(q + t1.queued =~= (q + t.queued).push(b));
                }
            },
            None => {
                if t.waiting.len() > 0 {
                    assert(t1.taken + t1.waiting =~= t.taken + t.waiting);
                }
            },
        }
        lemma_trace_keeps_order(t1, q, cap, evs.drop_first());
    }
}

/// A stopped session queues nothing, whatever the callback is handed.
pub proof fn lemma_idle_capture_drops<T>(q: Seq<Seq<T>>, cap: nat, bs: Seq<Seq<T>>)
    ensures
        offer_all(q, cap, false, bs) == q,
    decreases bs.len(),
{
    if bs.len() > 0 {
        lemma_idle_capture_drops(q, cap, bs.drop_first());
    }
}

} // verus!
