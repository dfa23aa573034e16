use vstd::prelude::*;
use vstd::string::*;

use crate::matrix::TemperatureMatrix;
use crate::store::SnapshotStore;

verus! {

/// The sub-protocol a client must request to be served.
pub const SUB_PROTOCOL: &'static str = "thermal-rs";

/// Where a connection stands in its lifecycle.
#[derive(Clone, Copy, Debug, PartialEq, Eq, Structural)]
pub enum SessionState {
    Negotiating,
    Active,
    Closed,
}

/// A frame received from the client.
pub enum Frame {
    Text(String),
    Binary(Vec<u8>),
    Ping(Vec<u8>),
    Pong(Vec<u8>),
    Close,
}

/// A frame to send back to the client.
pub enum Reply {
    Close,
    Pong(Vec<u8>),
    /// The current snapshot, to be sent as one text frame holding a bare JSON
    /// array of rows, each an array of numbers (`[[20.5,21.0],[19.75,22.0]]`).
    Snapshot(TemperatureMatrix),
}

/// Whether the client's list of sub-protocols names ours.
pub open spec fn offers_protocol(offered: Seq<String>) -> bool {
    exists|i: int| 0 <= i < offered.len() && (#[trigger] offered[i])@ == SUB_PROTOCOL@
}

/// The state a handshake leads to from `s`.
pub open spec fn handshake_state(s: SessionState, offered: Seq<String>) -> SessionState {
    if s == SessionState::Negotiating {
        if offers_protocol(offered) {
            SessionState::Active
        } else {
            SessionState::Closed
        }
    } else {
        s
    }
}

/// The state a frame leads to from `s`: a Close ends an active session,
/// anything else leaves the state as it was.
pub open spec fn next_state(s: SessionState, f: Frame) -> SessionState {
    if s == SessionState::Active && f is Close {
        SessionState::Closed
    } else {
        s
    }
}

/// Whether `r` is the reply owed to frame `f` in state `s`, where a snapshot
/// is read from `store`.
pub open spec fn is_reply(s: SessionState, f: Frame, r: Option<Reply>, store: SnapshotStore) -> bool {
    if s == SessionState::Active {
        match f {
            Frame::Close => r matches Some(Reply::Close),
            Frame::Ping(p) => r matches Some(Reply::Pong(q)) && q@ == p@,
            _ => r matches Some(Reply::Snapshot(m)) && m@ == store@,
        }
    } else {
        r is None
    }
}

/// The state after each frame of `frames` in turn, from `s`.
pub open spec fn run(s: SessionState, frames: Seq<Frame>) -> SessionState
    decreases frames.len(),
{
    if frames.len() == 0 {
        s
    } else {
        run(next_state(s, frames[0]), frames.drop_first())
    }
}

/// One client connection.
pub struct Session {
    state: SessionState,
}

impl View for Session {
    type V = SessionState;

    closed spec fn view(&self) -> SessionState {
        self.state
    }
}

impl Session {
    /// A connection that has not yet been negotiated.
    pub fn new() -> (s: Session)
        ensures
            s@ == SessionState::Negotiating,
    {
        Session { state: SessionState::Negotiating }
    }

    pub fn state(&self) -> (s: SessionState)
        ensures
            s == self@,
    {
        self.state
    }

    pub fn is_closed(&self) -> (b: bool)
        ensures
            b == (self@ == SessionState::Closed),
    {
        self.state == SessionState::Closed
    }

    /// Negotiates the sub-protocol: the connection becomes active when the
    /// client offered ours and is closed otherwise. Only a negotiating session
    /// can be accepted.
    pub fn handshake(&mut self, offered: &Vec<String>) -> (accepted: bool)
        ensures
            final(self)@ == handshake_state(old(self)@, offered@),
            accepted == (final(self)@ == SessionState::Active
                && old(self)@ == SessionState::Negotiating),
    {
        if self.state != SessionState::Negotiating {
            return false;
        }
        let found = offers(offered);
        if found {
            self.state = SessionState::Active;
        } else {
            self.state = SessionState::Closed;
        }
        found
    }

    /// Answers one frame from the client. In an active session a Close is
    /// answered by a Close and ends the session, a Ping by a Pong with the
    /// same payload, and any other frame by the store's current snapshot.
    /// A session that is not active answers nothing.
    pub fn on_frame(&mut self, frame: Frame, store: &SnapshotStore) -> (r: Option<Reply>)
        ensures
            final(self)@ == next_state(old(self)@, frame),
            is_reply(old(self)@, frame, r, *store),
    {
        if self.state != SessionState::Active {
            return None;
        }
        match frame {
            Frame::Close => {
                self.state = SessionState::Closed;
                Some(Reply::Close)
            },
            Frame::Ping(payload) => Some(Reply::Pong(payload)),
            _ => Some(Reply::Snapshot(store.get())),
        }
    }

    /// A read or write on the connection failed: this session ends, and
    /// nothing else is touched.
    pub fn on_transport_error(&mut self)
        ensures
            final(self)@ == SessionState::Closed,
    {
        self.state = SessionState::Closed;
    }
}

/// Whether `offered` names our sub-protocol.
pub fn offers(offered: &Vec<String>) -> (b: bool)
    ensures
        b == offers_protocol(offered@),
{
    let wanted = String::from_str(SUB_PROTOCOL);
    let mut i: usize = 0;
    while i < offered.len()
        invariant
            i <= offered@.len(),
            wanted@ == SUB_PROTOCOL@,
            forall|j: int| 0 <= j < i ==> (#[trigger] offered@[j])@ != SUB_PROTOCOL@,
        decreases offered@.len() - i,
    {
        if offered[i] == wanted {
            return true;
        }
        i = i + 1;
    }
    false
}

/// Once closed, a session stays closed whatever frames follow.
pub proof fn lemma_closed_is_terminal(frames: Seq<Frame>)
    ensures
        run(SessionState::Closed, frames) == SessionState::Closed,
    decreases frames.len(),
{
    if frames.len() > 0 {
        lemma_closed_is_terminal(frames.drop_first());
    }
}

/// A closed session answers none of the frames that follow.
pub proof fn lemma_closed_is_silent(frames: Seq<Frame>, store: SnapshotStore)
    ensures
        forall|i: int, r: Option<Reply>|
            0 <= i < frames.len() && #[trigger] is_reply(
                run(SessionState::Closed, frames.take(i)),
                frames[i],
                r,
                store,
            ) ==> r is None,
{
    assert forall|i: int, r: Option<Reply>|
        0 <= i < frames.len() && #[trigger] is_reply(
            run(SessionState::Closed, frames.take(i)),
            frames[i],
            r,
            store,
        ) implies r is None by {
        lemma_closed_is_terminal(frames.take(i));
    }
}

/// A client that does not offer our sub-protocol is refused at the handshake,
/// and none of the frames it sends afterwards is answered.
pub proof fn lemma_handshake_gate(offered: Seq<String>, frames: Seq<Frame>, store: SnapshotStore)
    requires
        !offers_protocol(offered),
    ensures
        handshake_state(SessionState::Negotiating, offered) == SessionState::Closed,
        run(handshake_state(SessionState::Negotiating, offered), frames) == SessionState::Closed,
        forall|i: int, r: Option<Reply>|
            0 <= i < frames.len() && #[trigger] is_reply(
                run(handshake_state(SessionState::Negotiating, offered), frames.take(i)),
                frames[i],
                r,
                store,
            ) ==> r is None,
{
    lemma_closed_is_terminal(frames);
    lemma_closed_is_silent(frames, store);
}

/// In an active session a Ping is answered by a Pong with the same payload,
/// never by a snapshot, and the session stays active.
pub proof fn lemma_ping_pong(payload: Vec<u8>, r: Option<Reply>, store: SnapshotStore)
    requires
        is_reply(SessionState::Active, Frame::Ping(payload), r, store),
    ensures
        r matches Some(Reply::Pong(q)) && q@ == payload@,
        !(r matches Some(Reply::Snapshot(_))),
        next_state(SessionState::Active, Frame::Ping(payload)) == SessionState::Active,
{
}

/// In an active session a Close is answered by a Close, the session ends, and
/// no later frame is answered.
pub proof fn lemma_close_symmetry(r: Option<Reply>, later: Seq<Frame>, store: SnapshotStore)
    requires
        is_reply(SessionState::Active, Frame::Close, r, store),
    ensures
        r matches Some(Reply::Close),
        next_state(SessionState::Active, Frame::Close) == SessionState::Closed,
        run(next_state(SessionState::Active, Frame::Close), later) == SessionState::Closed,
        forall|i: int, r2: Option<Reply>|
            0 <= i < later.len() && #[trigger] is_reply(
                run(next_state(SessionState::Active, Frame::Close), later.take(i)),
                later[i],
                r2,
                store,
            ) ==> r2 is None,
{
    lemma_closed_is_terminal(later);
    lemma_closed_is_silent(later, store);
}

} // verus!
