use vstd::prelude::*;

use std::collections::VecDeque;

use crate::device::{Config, Device};
use crate::error::SoundCardError;
use crate::format::{negotiate, negotiated, NegotiatedFormat, Sample};
use crate::lifecycle::{
    after_start,
    after_stop,
    start_outcome,
    start_transition,
    stop_outcome,
    stop_transition,
    StreamState,
};

verus! {

/// The queue the application feeds ahead of real time and the output
/// callback drains, oldest sample first.
pub struct SharedBuffer<T> {
    samples: VecDeque<T>,
}

impl<T> View for SharedBuffer<T> {
    type V = Seq<T>;

    closed spec fn view(&self) -> Seq<T> {
        self.samples@
    }
}

impl<T: Copy> SharedBuffer<T> {
    pub fn new() -> (r: Self)
        ensures
            r@ == Seq::<T>::empty(),
    {
        SharedBuffer { samples: VecDeque::new() }
    }

    /// Enqueues one sample behind those already waiting.
    pub fn push(&mut self, sample: T)
        ensures
            final(self)@ == old(self)@.push(sample),
    {
        self.samples.push_back(sample);
    }

    /// The number of samples waiting.
    pub fn len(&self) -> (r: usize)
        ensures
            r == self@.len(),
    {
        self.samples.len()
    }
}

/// How many waiting samples a callback that needs `n` output positions
/// takes: all of them, or as many as fit.
pub open spec fn taken(available: nat, n: nat) -> nat {
    if available < n {
        available
    } else {
        n
    }
}

/// The output of a callback that fills `n` positions from the waiting
/// samples `buf`: the samples first, in their order, then silence.
pub open spec fn rendered<T: Sample>(buf: Seq<T>, n: nat) -> Seq<T> {
    Seq::new(
        n,
        |i: int|
            if i < taken(buf.len(), n) {
                buf[i]
            } else {
                T::spec_silence()
            },
    )
}

/// `n` positions of silence.
pub open spec fn silent<T: Sample>(n: nat) -> Seq<T> {
    Seq::new(n, |i: int| T::spec_silence())
}

/// Fills `out` with silence: what the callback writes when it cannot take
/// the shared buffer without waiting.
pub fn render_silence<T: Sample>(out: &mut [T])
    ensures
        final(out)@ == silent::<T>(old(out)@.len()),
{
    let n = out.len();
    let mut i: usize = 0;
    while i < n
        invariant
            n == out@.len(),
            i <= n,
            forall|j: int| 0 <= j < i ==> out@[j] == T::spec_silence(),
        decreases n - i,
    {
        out[i] = T::silence();
        i = i + 1;
    }
    proof {
        assert(out@ =~= silent::<T>(n as nat));
    }
}

/// Drains up to `out.len()` samples from `buffer` into `out`, in order,
/// and writes silence to every position left over. Nothing of what `out`
/// held before survives. Returns how many samples were taken.
pub fn fill_from<T: Sample>(buffer: &mut SharedBuffer<T>, out: &mut [T]) -> (r: usize)
    ensures
        r == taken(old(buffer)@.len(), old(out)@.len()),
        final(out)@ == rendered(old(buffer)@, old(out)@.len()),
        final(buffer)@ == old(buffer)@.skip(r as int),
{
    let n = out.len();
    let ghost buf = buffer@;
    let k = if buffer.samples.len() < n {
        buffer.samples.len()
    } else {
        n
    };
    let mut i: usize = 0;
    while i < n
        invariant
            n == out@.len(),
            k == taken(buf.len(), n as nat),
            i <= n,
            i <= k ==> buffer@ == buf.skip(i as int),
            i > k ==> buffer@ == buf.skip(k as int),
            forall|j: int| 0 <= j < i ==> out@[j] == rendered(buf, n as nat)[j],
        decreases n - i,
    {
        if i < k {
            let ghost before = buffer@;
            let s = buffer.samples.pop_front();
            match s {
                Some(v) => {
                    out[i] = v;
                },
                None => {
                    out[i] = T::silence();
                },
            }
            proof {
                assert(buffer@ =~= buf.skip(i + 1));
            }
        } else {
            out[i] = T::silence();
        }
        i = i + 1;
    }
    proof {
        assert(out@ =~= rendered(buf, n as nat));
    }
    k
}

/// A Speaker plays the samples the application enqueues in a
/// `SharedBuffer` out of its device.
///
/// The hardware requests themselves are made by the caller; the session
/// decides what to request and what each answer means.
pub struct Speaker {
    device: Device,
    config: Config,
    state: StreamState,
    format: Option<NegotiatedFormat>,
}

impl Speaker {
    pub closed spec fn spec_device(&self) -> Device {
        self.device
    }

    pub closed spec fn spec_config(&self) -> Config {
        self.config
    }

    pub closed spec fn spec_state(&self) -> StreamState {
        self.state
    }

    /// The format of the current start/stop cycle; `None` while idle.
    pub closed spec fn spec_format(&self) -> Option<NegotiatedFormat> {
        self.format
    }

    /// A speaker on `device`, idle, that will open streams with `config`.
    pub fn new(device: Device, config: Config) -> (r: Self)
        ensures
            r.spec_device() == device,
            r.spec_config() == config,
            r.spec_state() == StreamState::Idle,
            r.spec_format() is None,
    {
        Speaker { device, config, state: StreamState::Idle, format: None }
    }

    /// A speaker on the system's default output device, or `None` when
    /// there is none.
    pub fn default(default_device: Option<Device>, config: Config) -> (r: Option<Self>)
        ensures
            r is Some <==> default_device is Some,
            r is Some ==> r->Some_0.spec_device() == default_device->Some_0
                && r->Some_0.spec_config() == config && r->Some_0.spec_state()
                == StreamState::Idle && r->Some_0.spec_format() is None,
    {
        match default_device {
            Some(device) => Some(Speaker::new(device, config)),
            None => None,
        }
    }

    pub fn state(&self) -> (r: StreamState)
        ensures
            r == self.spec_state(),
    {
        self.state
    }

    pub fn device(&self) -> (r: &Device)
        ensures
            *r == self.spec_device(),
    {
        &self.device
    }

    /// The format of the current start/stop cycle; `None` while idle.
    pub fn format(&self) -> (r: Option<NegotiatedFormat>)
        ensures
            r == self.spec_format(),
    {
        self.format
    }

    /// The stream format that `start::<T>` installs: the one to hand to the
    /// hardware before calling `start`.
    pub fn negotiate<T: Sample>(&self) -> (r: NegotiatedFormat)
        ensures
            r == negotiated(self.spec_device(), self.spec_config(), T::spec_format()),
    {
        negotiate(&self.device, &self.config, T::sample_format())
    }

    /// Starts playback. `hw` is how the hardware answered the requests to
    /// set the negotiated format, install the render callback and start the
    /// stream. On success the session runs with the negotiated format and
    /// the returned buffer, empty, is what the callback drains.
    pub fn start<T: Sample>(&mut self, hw: Result<(), SoundCardError>) -> (r: Result<
        SharedBuffer<T>,
        SoundCardError,
    >)
        ensures
            r is Ok <==> start_outcome(old(self).spec_state(), hw) is Ok,
            r is Err ==> r->Err_0 == start_outcome(old(self).spec_state(), hw)->Err_0,
            final(self).spec_state() == after_start(old(self).spec_state(), hw),
            final(self).spec_device() == old(self).spec_device(),
            final(self).spec_config() == old(self).spec_config(),
            r is Ok ==> r->Ok_0@ == Seq::<T>::empty() && final(self).spec_format() == Some(
                negotiated(old(self).spec_device(), old(self).spec_config(), T::spec_format()),
            ),
            r is Err ==> final(self).spec_format() == old(self).spec_format(),
    {
        let format = negotiate(&self.device, &self.config, T::sample_format());
        match start_transition(&mut self.state, hw) {
            Ok(()) => {
                self.format = Some(format);
                Ok(SharedBuffer::new())
            },
            Err(e) => Err(e),
        }
    }

    /// Stops playback. `hw` is how the hardware answered the request to
    /// stop the stream. Samples enqueued afterwards are never drained.
    pub fn stop(&mut self, hw: Result<(), SoundCardError>) -> (r: Result<(), SoundCardError>)
        ensures
            r is Ok <==> stop_outcome(old(self).spec_state(), hw) is Ok,
            r is Err ==> r->Err_0 == stop_outcome(old(self).spec_state(), hw)->Err_0,
            final(self).spec_state() == after_stop(old(self).spec_state(), hw),
            final(self).spec_device() == old(self).spec_device(),
            final(self).spec_config() == old(self).spec_config(),
            r is Ok ==> final(self).spec_format() is None,
            r is Err ==> final(self).spec_format() == old(self).spec_format(),
    {
        let r = stop_transition(&mut self.state, hw);
        if r.is_ok() {
            self.format = None;
        }
        r
    }

    /// The render callback, once it holds the shared buffer: while running
    /// it drains up to `out.len()` samples into `out` and pads the rest
    /// with silence; while idle it writes silence and drains nothing.
    /// Returns how many samples were taken.
    pub fn render<T: Sample>(&self, buffer: &mut SharedBuffer<T>, out: &mut [T]) -> (r: usize)
        ensures
            self.spec_state() == StreamState::Running ==> r == taken(
                old(buffer)@.len(),
                old(out)@.len(),
            ) && final(out)@ == rendered(old(buffer)@, old(out)@.len()),
            self.spec_state() == StreamState::Idle ==> r == 0 && final(out)@ == silent::<T>(
                old(out)@.len(),
            ),
            final(buffer)@ == old(buffer)@.skip(r as int),
    {
        if self.state == StreamState::Running {
            fill_from(buffer, out)
        } else {
            render_silence(out);
            proof {
                assert(buffer@ =~= old(buffer)@.skip(0));
            }
            0
        }
    }
}

/// On an underrun, every output position past the last available sample
/// is silence, whatever the output held before.
pub proof fn lemma_underrun_is_silent<T: Sample>(buf: Seq<T>, n: nat, i: int)
    requires
        buf.len() < n,
        buf.len() <= i < n,
    ensures
        rendered(buf, n)[i] == T::spec_silence(),
        rendered(buf, n).take(buf.len() as int) == buf,
{
    assert(rendered(buf, n).take(buf.len() as int) =~= buf);
}

} // verus!
