//! A TLS connection that shakes hands on its first read or write.
//!
//! Accepting a connection costs nothing: the handshake is driven by the
//! first attempt to read or to write, so that many connections can be in it
//! at once. The caller holds the socket, the pending handshake and the
//! established session; [`TlsStream`] holds where the connection stands and
//! decides what each operation does.

use vstd::prelude::*;

verus! {

/// Where a connection stands.
#[derive(Clone, Copy, Debug, PartialEq, Eq, Structural)]
pub enum State {
    /// The handshake has not completed.
    Handshaking,
    /// The session is established.
    Streaming,
}

/// What the owner of the connection asks of it.
#[derive(Clone, Copy, Debug, PartialEq, Eq, Structural)]
pub enum Operation {
    Read,
    Write,
    Flush,
    Shutdown,
}

/// What an operation does first.
#[derive(Clone, Copy, Debug, PartialEq, Eq, Structural)]
pub enum Action {
    /// Drive the handshake, and report with [`TlsStream::on_handshake`].
    DriveHandshake,
    /// Hand the operation to the established session.
    Forward,
    /// Return success at once: nothing has been sent yet, so there is
    /// nothing to flush or to close.
    Succeed,
}

/// What driving the handshake gave. `E` is the caller's error value.
#[derive(Debug, PartialEq, Eq)]
pub enum Handshake<E> {
    /// The handshake needs more input or output.
    Pending,
    /// The handshake completed.
    Established,
    /// The handshake failed.
    Failed(E),
}

/// How a read or a write goes on after the handshake was driven.
#[derive(Debug, PartialEq, Eq)]
pub enum Resume<E> {
    /// The operation is pending, as the handshake is.
    Pending,
    /// Hand the operation to the session that was just established, and
    /// return what it returns.
    Forward,
    /// The operation fails with the error of the handshake.
    Fail(E),
}

/// The protocol state of one accepted connection.
#[derive(Debug)]
pub struct TlsStream {
    state: State,
}

/// What an operation does first in a state: before the session is
/// established a read or a write drives the handshake, and a flush or a
/// shutdown succeeds without doing anything; afterwards every operation goes
/// to the session.
pub open spec fn first_action(state: State, operation: Operation) -> Action {
    match state {
        State::Streaming => Action::Forward,
        State::Handshaking => match operation {
            Operation::Read | Operation::Write => Action::DriveHandshake,
            Operation::Flush | Operation::Shutdown => Action::Succeed,
        },
    }
}

/// The state after the handshake was driven: only its completion moves a
/// connection on, and nothing moves it back.
pub open spec fn state_after<E>(state: State, polled: Handshake<E>) -> State {
    match polled {
        Handshake::Established => State::Streaming,
        _ => state,
    }
}

/// How the operation that drove the handshake goes on.
pub open spec fn resumed<E>(state: State, polled: Handshake<E>) -> Resume<E> {
    match state {
        State::Streaming => Resume::Forward,
        State::Handshaking => match polled {
            Handshake::Pending => Resume::Pending,
            Handshake::Established => Resume::Forward,
            Handshake::Failed(error) => Resume::Fail(error),
        },
    }
}

impl TlsStream {
    /// The state of the connection.
    pub closed spec fn state(&self) -> State {
        self.state
    }

    /// A connection that was just accepted. Its handshake has not begun.
    pub fn new() -> (stream: TlsStream)
        ensures
            stream.state() == State::Handshaking,
    {
        TlsStream { state: State::Handshaking }
    }

    /// Whether the session is established.
    pub fn is_streaming(&self) -> (streaming: bool)
        ensures
            streaming == (self.state() == State::Streaming),
    {
        self.state == State::Streaming
    }

    /// What the operation does first.
    pub fn begin(&self, operation: Operation) -> (action: Action)
        ensures
            action == first_action(self.state(), operation),
    {
        match self.state {
            State::Streaming => Action::Forward,
            State::Handshaking => match operation {
                Operation::Read | Operation::Write => Action::DriveHandshake,
                Operation::Flush | Operation::Shutdown => Action::Succeed,
            },
        }
    }

    /// Takes in what driving the handshake gave, and says how the read or
    /// the write that drove it goes on.
    pub fn on_handshake<E>(&mut self, polled: Handshake<E>) -> (resume: Resume<E>)
        ensures
            final(self).state() == state_after(old(self).state(), polled),
            resume == resumed(old(self).state(), polled),
    {
        match self.state {
            State::Streaming => Resume::Forward,
            State::Handshaking => match polled {
                Handshake::Pending => Resume::Pending,
                Handshake::Established => {
                    self.state = State::Streaming;
                    Resume::Forward
                },
                Handshake::Failed(error) => Resume::Fail(error),
            },
        }
    }
}

/// The state after the handshake was driven any number of times.
pub open spec fn state_after_all<E>(state: State, polls: Seq<Handshake<E>>) -> State
    decreases polls.len(),
{
    if polls.len() == 0 {
        state
    } else {
        state_after(state_after_all(state, polls.drop_last()), polls.last())
    }
}

/// An established session stays established, whatever is reported later.
pub proof fn lemma_streaming_is_final<E>(polls: Seq<Handshake<E>>)
    ensures
        state_after_all(State::Streaming, polls) == State::Streaming,
    decreases polls.len(),
{
    if polls.len() > 0 {
        lemma_streaming_is_final(polls.drop_last());
    }
}

/// A connection is streaming exactly when its handshake has completed.
pub proof fn lemma_streaming_needs_handshake<E>(polls: Seq<Handshake<E>>)
    ensures
        state_after_all(State::Handshaking, polls) == State::Streaming <==> exists|i: int|
            0 <= i < polls.len() && (#[trigger] polls[i]) is Established,
    decreases polls.len(),
{
    if polls.len() > 0 {
        let before = polls.drop_last();
        lemma_streaming_needs_handshake(before);
        if state_after_all(State::Handshaking, before) == State::Streaming {
            let i = choose|i: int| 0 <= i < before.len() && (#[trigger] before[i]) is Established;
            assert(polls[i] is Established);
        } else if polls.last() is Established {
            assert(polls[polls.len() - 1] is Established);
        } else if exists|i: int| 0 <= i < polls.len() && (#[trigger] polls[i]) is Established {
            let i = choose|i: int| 0 <= i < polls.len() && (#[trigger] polls[i]) is Established;
            assert(before[i] is Established);
        }
    }
}

/// No operation reaches the session before the handshake has completed:
/// until then nothing is forwarded, at the start of an operation or after
/// the handshake was driven.
pub proof fn lemma_nothing_forwarded_before_handshake<E>(operation: Operation, polled: Handshake<E>)
    ensures
        first_action(State::Handshaking, operation) != Action::Forward,
        resumed(State::Handshaking, polled) is Forward ==> state_after(State::Handshaking, polled)
            == State::Streaming,
{
}

} // verus!
