use vstd::prelude::*;

use crate::error::SoundCardError;

verus! {

/// Where a session stands: no callback installed, or a callback installed
/// and the hardware stream active.
#[derive(Debug, Clone, Copy, PartialEq, Eq, Structural)]
pub enum StreamState {
    Idle,
    Running,
}

/// What `start` reports, given the state it was called in and how the
/// hardware answered the format, callback and start requests.
pub open spec fn start_outcome(s: StreamState, hw: Result<(), SoundCardError>) -> Result<
    (),
    SoundCardError,
> {
    if s is Running {
        Err(SoundCardError::AlreadyRunning)
    } else {
        hw
    }
}

/// The state after `start`: running exactly when `start` succeeded.
pub open spec fn after_start(s: StreamState, hw: Result<(), SoundCardError>) -> StreamState {
    if start_outcome(s, hw) is Ok {
        StreamState::Running
    } else {
        s
    }
}

/// What `stop` reports, given the state it was called in and how the
/// hardware answered the stop request.
pub open spec fn stop_outcome(s: StreamState, hw: Result<(), SoundCardError>) -> Result<
    (),
    SoundCardError,
> {
    if s is Idle {
        Err(SoundCardError::NotRunning)
    } else {
        hw
    }
}

/// The state after `stop`: idle exactly when `stop` succeeded.
pub open spec fn after_stop(s: StreamState, hw: Result<(), SoundCardError>) -> StreamState {
    if stop_outcome(s, hw) is Ok {
        StreamState::Idle
    } else {
        s
    }
}

/// Takes `state` through a start request. `hw` is the hardware's answer;
/// it is only consulted from `Idle`, since a running session does no
/// hardware work.
pub fn start_transition(state: &mut StreamState, hw: Result<(), SoundCardError>) -> (r: Result<
    (),
    SoundCardError,
>)
    ensures
        r is Ok <==> start_outcome(*old(state), hw) is Ok,
        r is Err ==> r->Err_0 == start_outcome(*old(state), hw)->Err_0,
        *final(state) == after_start(*old(state), hw),
{
    match hw {
        Ok(()) => {
            if *state == StreamState::Running {
                Err(SoundCardError::AlreadyRunning)
            } else {
                *state = StreamState::Running;
                Ok(())
            }
        },
        Err(e) => {
            if *state == StreamState::Running {
                Err(SoundCardError::AlreadyRunning)
            } else {
                Err(e)
            }
        },
    }
}

/// Takes `state` through a stop request. `hw` is the hardware's answer;
/// it is only consulted from `Running`.
pub fn stop_transition(state: &mut StreamState, hw: Result<(), SoundCardError>) -> (r: Result<
    (),
    SoundCardError,
>)
    ensures
        r is Ok <==> stop_outcome(*old(state), hw) is Ok,
        r is Err ==> r->Err_0 == stop_outcome(*old(state), hw)->Err_0,
        *final(state) == after_stop(*old(state), hw),
{
    match hw {
        Ok(()) => {
            if *state == StreamState::Idle {
                Err(SoundCardError::NotRunning)
            } else {
                *state = StreamState::Idle;
                Ok(())
            }
        },
        Err(e) => {
            if *state == StreamState::Idle {
                Err(SoundCardError::NotRunning)
            } else {
                Err(e)
            }
        },
    }
}

/// Starting twice without a `stop` in between: the second start reports
/// `AlreadyRunning` whatever the hardware would say, and leaves the session
/// running.
pub proof fn lemma_start_twice(hw1: Result<(), SoundCardError>, hw2: Result<(), SoundCardError>)
    requires
        hw1 is Ok,
    ensures
        start_outcome(after_start(StreamState::Idle, hw1), hw2) == Err::<(), SoundCardError>(
            SoundCardError::AlreadyRunning,
        ),
        after_start(after_start(StreamState::Idle, hw1), hw2) == StreamState::Running,
{
}

/// Stopping an idle session reports `NotRunning` and leaves it idle.
pub proof fn lemma_stop_idle(hw: Result<(), SoundCardError>)
    ensures
        stop_outcome(StreamState::Idle, hw) == Err::<(), SoundCardError>(SoundCardError::NotRunning),
        after_stop(StreamState::Idle, hw) == StreamState::Idle,
{
}

/// A successful start followed by a successful stop returns the session to
/// `Idle`, from where it can be started again.
pub proof fn lemma_start_stop_cycle(hw: Result<(), SoundCardError>)
    requires
        hw is Ok,
    ensures
        after_stop(after_start(StreamState::Idle, hw), hw) == StreamState::Idle,
        start_outcome(after_stop(after_start(StreamState::Idle, hw), hw), hw) == hw,
{
}

} // verus!
