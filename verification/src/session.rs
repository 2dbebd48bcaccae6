//! The send sequence of one invocation, as a state machine.  The library
//! decides what happens next; an unverified driver performs each network
//! action and reports its outcome.  One session opens the connection at
//! most once, transmits each frame exactly once in order, and closes at
//! most once.

use vstd::prelude::*;
use crate::endpoint::endpoint;
use crate::endpoint::spec_endpoint;
use crate::endpoint::url_well_formed;
use crate::message::Package;
use crate::wire::serialize_package;
use crate::wire::spec_frame;

verus! {

/// The stage at which an invocation failed.
#[derive(Debug, Clone, Copy, PartialEq, Eq)]
pub enum ErrorStage {
    /// The composed endpoint is not a well-formed URL.
    BadEndpoint,
    /// The WebSocket handshake failed; nothing was transmitted.
    ConnectFailed,
    /// A transport write failed; the remaining messages were not sent.
    SendFailed,
    /// The connection could not be closed after all messages were sent.
    CloseFailed,
}

/// What the driver must do next.
#[derive(Debug, PartialEq)]
pub enum Action {
    /// Establish the single WebSocket connection to this URL.
    OpenConnection(String),
    /// Transmit this frame as one text frame on the open connection.
    Transmit(String),
    /// Close the connection gracefully.
    CloseConnection,
    /// Nothing is left to do: report this result.
    Finish(Result<(), ErrorStage>),
}

/// The driver's report on the action it performed.
#[derive(Debug, Clone, Copy, PartialEq, Eq)]
pub enum Outcome {
    Succeeded,
    Failed,
}

/// Where the session stands.
#[derive(Debug, Clone, Copy, PartialEq, Eq)]
pub enum Phase {
    /// The connection has not been attempted yet.
    Ready,
    /// The connection is open.
    Open,
    /// Every frame was transmitted and the connection was closed.
    Done,
    /// The invocation failed at this stage.
    Failed(ErrorStage),
}

/// One invocation: a single connection and one ordered pass over the
/// frames built from the command sequence.
pub struct Session {
    url: String,
    frames: Vec<String>,
    sent: usize,
    phase: Phase,
    transmitted: Ghost<Seq<Seq<char>>>,
}

impl Session {
    /// The endpoint URL.
    pub closed spec fn url_view(self) -> Seq<char> {
        self.url@
    }

    /// The frames to transmit, in order.
    pub closed spec fn frame_views(self) -> Seq<Seq<char>> {
        self.frames.deep_view()
    }

    /// The frames whose transmission the driver has reported successful,
    /// in the order they went out.
    pub closed spec fn transmitted_frames(self) -> Seq<Seq<char>> {
        self.transmitted@
    }

    /// How many frames were fully transmitted.
    pub closed spec fn spec_sent(self) -> int {
        self.sent as int
    }

    pub closed spec fn phase_of(self) -> Phase {
        self.phase
    }

    /// The session invariant: what went out is exactly the initial segment
    /// of the frame sequence, and the phase bounds it.
    pub closed spec fn wf(self) -> bool {
        &&& self.sent <= self.frames@.len()
        &&& self.transmitted@ == self.frames.deep_view().take(self.sent as int)
        &&& match self.phase {
            Phase::Ready => self.sent == 0,
            Phase::Open => true,
            Phase::Done => self.sent == self.frames@.len(),
            Phase::Failed(stage) => match stage {
                ErrorStage::BadEndpoint => self.sent == 0,
                ErrorStage::ConnectFailed => self.sent == 0,
                ErrorStage::SendFailed => self.sent < self.frames@.len(),
                ErrorStage::CloseFailed => self.sent == self.frames@.len(),
            },
        }
    }

    /// Builds the session for one invocation: composes the endpoint URL,
    /// serializes every message in order, and validates the URL.  When the
    /// URL is not well formed the session is born failed and the driver
    /// performs no network action at all.
    pub fn new(server: &str, port: u16, password: &str, packages: Vec<Package>, ssl: bool) -> (s:
        Session)
        requires
            forall|i: int| 0 <= i < packages@.len() ==> packages@[i].wf(),
        ensures
            s.wf(),
            s.url_view() == spec_endpoint(server@, port as nat, password@, ssl),
            s.frame_views().len() == packages@.len(),
            forall|i: int|
                0 <= i < packages@.len() ==> s.frame_views()[i] == spec_frame(
                    packages@[i].message@,
                ),
            s.transmitted_frames() == Seq::<Seq<char>>::empty(),
            s.spec_sent() == 0,
            s.phase_of() == (if url_well_formed(
                spec_endpoint(server@, port as nat, password@, ssl),
            ) {
                Phase::Ready
            } else {
                Phase::Failed(ErrorStage::BadEndpoint)
            }),
    {
        let url = endpoint(server, port, password, ssl);
        let mut frames: Vec<String> = Vec::new();
        let mut i: usize = 0;
        while i < packages.len()
            invariant
                i <= packages.len(),
                forall|k: int| 0 <= k < packages@.len() ==> packages@[k].wf(),
                frames@.len() == i,
                forall|k: int| 0 <= k < i ==> frames@[k]@ == spec_frame(packages@[k].message@),
            decreases packages.len() - i,
        {
            let f = serialize_package(&packages[i]);
            frames.push(f);
            i = i + 1;
        }
        let phase = match url::Url::parse(url.as_str()) {
            Ok(_) => Phase::Ready,
            Err(_) => Phase::Failed(ErrorStage::BadEndpoint),
        };
        let s = Session { url, frames, sent: 0, phase, transmitted: Ghost(Seq::empty()) };
        proof {
            assert(s.transmitted@ =~= s.frames.deep_view().take(0));
            assert forall|k: int| 0 <= k < packages@.len() implies s.frame_views()[k] == spec_frame(
                packages@[k].message@,
            ) by {
                assert(s.frames.deep_view()[k] == s.frames@[k]@);
            }
        }
        s
    }

    /// What the driver must do next.
    pub fn next_action(&self) -> (a: Action)
        requires
            self.wf(),
        ensures
            match self.phase_of() {
                Phase::Ready => (a matches Action::OpenConnection(u) && u@ == self.url_view()),
                Phase::Open => (if self.spec_sent() < self.frame_views().len() {
                    a matches Action::Transmit(f) && f@ == self.frame_views()[self.spec_sent()]
                } else {
                    a == Action::CloseConnection
                }),
                Phase::Done => a == Action::Finish(Result::<(), ErrorStage>::Ok(())),
                Phase::Failed(stage) => a == Action::Finish(Result::<(), ErrorStage>::Err(stage)),
            },
    {
        match self.phase {
            Phase::Ready => Action::OpenConnection(self.url.clone()),
            Phase::Open => {
                if self.sent < self.frames.len() {
                    let f = self.frames[self.sent].clone();
                    proof {
                        assert(f@ == self.frames.deep_view()[self.spec_sent()]);
                    }
                    Action::Transmit(f)
                } else {
                    Action::CloseConnection
                }
            },
            Phase::Done => Action::Finish(Ok(())),
            Phase::Failed(stage) => Action::Finish(Err(stage)),
        }
    }

    /// Advances the session on the driver's report of the pending action's
    /// outcome.  A terminal session is left unchanged.
    pub fn record(&mut self, outcome: Outcome)
        requires
            old(self).wf(),
        ensures
            final(self).wf(),
            final(self).url_view() == old(self).url_view(),
            final(self).frame_views() == old(self).frame_views(),
            match old(self).phase_of() {
                Phase::Ready => match outcome {
                    Outcome::Succeeded => {
                        &&& final(self).phase_of() == Phase::Open
                        &&& final(self).spec_sent() == 0
                        &&& final(self).transmitted_frames() == old(self).transmitted_frames()
                    },
                    Outcome::Failed => {
                        &&& final(self).phase_of() == Phase::Failed(ErrorStage::ConnectFailed)
                        &&& final(self).spec_sent() == 0
                        &&& final(self).transmitted_frames() == old(self).transmitted_frames()
                    },
                },
                Phase::Open => (if old(self).spec_sent() < old(self).frame_views().len() {
                    match outcome {
                        Outcome::Succeeded => {
                            &&& final(self).phase_of() == Phase::Open
                            &&& final(self).spec_sent() == old(self).spec_sent() + 1
                            &&& final(self).transmitted_frames()
                                == old(self).transmitted_frames().push(
                                old(self).frame_views()[old(self).spec_sent()],
                            )
                        },
                        Outcome::Failed => {
                            &&& final(self).phase_of() == Phase::Failed(ErrorStage::SendFailed)
                            &&& final(self).spec_sent() == old(self).spec_sent()
                            &&& final(self).transmitted_frames() == old(self).transmitted_frames()
                        },
                    }
                } else {
                    match outcome {
                        Outcome::Succeeded => {
                            &&& final(self).phase_of() == Phase::Done
                            &&& final(self).spec_sent() == old(self).spec_sent()
                            &&& final(self).transmitted_frames() == old(self).transmitted_frames()
                        },
                        Outcome::Failed => {
                            &&& final(self).phase_of() == Phase::Failed(ErrorStage::CloseFailed)
                            &&& final(self).spec_sent() == old(self).spec_sent()
                            &&& final(self).transmitted_frames() == old(self).transmitted_frames()
                        },
                    }
                }),
                Phase::Done => *final(self) == *old(self),
                Phase::Failed(_) => *final(self) == *old(self),
            },
    {
        match self.phase {
            Phase::Ready => {
                match outcome {
                    Outcome::Succeeded => {
                        self.phase = Phase::Open;
                    },
                    Outcome::Failed => {
                        self.phase = Phase::Failed(ErrorStage::ConnectFailed);
                    },
                }
            },
            Phase::Open => {
                if self.sent < self.frames.len() {
                    match outcome {
                        Outcome::Succeeded => {
                            self.transmitted = Ghost(
                                self.transmitted@.push(self.frames.deep_view()[self.sent as int]),
                            );
                            self.sent = self.sent + 1;
                            proof {
                                assert(self.transmitted@ =~= self.frames.deep_view().take(
                                    self.sent as int,
                                ));
                            }
                        },
                        Outcome::Failed => {
                            self.phase = Phase::Failed(ErrorStage::SendFailed);
                        },
                    }
                } else {
                    match outcome {
                        Outcome::Succeeded => {
                            self.phase = Phase::Done;
                        },
                        Outcome::Failed => {
                            self.phase = Phase::Failed(ErrorStage::CloseFailed);
                        },
                    }
                }
            },
            Phase::Done => {},
            Phase::Failed(_) => {},
        }
    }

    /// How many frames have been fully transmitted.
    pub fn sent_count(&self) -> (n: usize)
        ensures
            n as int == self.spec_sent(),
    {
        self.sent
    }
}

/// Law: the transmitted frames are always the initial segment of the frame
/// sequence — none skipped, none repeated, none out of order.
pub proof fn transmitted_is_ordered_prefix(s: Session)
    requires
        s.wf(),
    ensures
        s.transmitted_frames().len() <= s.frame_views().len(),
        s.transmitted_frames() == s.frame_views().take(s.transmitted_frames().len() as int),
{
}

/// Law: a session that finished cleanly transmitted every frame, in order.
pub proof fn done_transmitted_all(s: Session)
    requires
        s.wf(),
        s.phase_of() is Done,
    ensures
        s.transmitted_frames() == s.frame_views(),
{
    assert(s.frame_views().take(s.frame_views().len() as int) =~= s.frame_views());
}

/// Law: a session whose frames are the frames of a command sequence, once
/// finished cleanly, has transmitted exactly the frame of each command, in
/// command order — no reordering, no drops, no duplication.
pub proof fn done_session_transmits_command_frames(s: Session, cmds: Seq<Seq<char>>)
    requires
        s.wf(),
        s.phase_of() is Done,
        s.frame_views().len() == cmds.len(),
        forall|i: int| 0 <= i < cmds.len() ==> s.frame_views()[i] == spec_frame(cmds[i]),
    ensures
        s.transmitted_frames().len() == cmds.len(),
        forall|i: int| 0 <= i < cmds.len() ==> s.transmitted_frames()[i] == spec_frame(cmds[i]),
{
    done_transmitted_all(s);
}

/// Law: when the endpoint was refused or the connection could not be
/// established, nothing was transmitted.
pub proof fn connect_failure_transmits_nothing(s: Session)
    requires
        s.wf(),
        s.phase_of() == Phase::Failed(ErrorStage::ConnectFailed) || s.phase_of() == Phase::Failed(
            ErrorStage::BadEndpoint,
        ),
    ensures
        s.transmitted_frames() == Seq::<Seq<char>>::empty(),
{
    assert(s.frame_views().take(0) =~= Seq::<Seq<char>>::empty());
}

/// Law: when a send failed, exactly the frames before it had been fully
/// transmitted, and no frame after it ever goes out.
pub proof fn send_failure_transmits_proper_prefix(s: Session)
    requires
        s.wf(),
        s.phase_of() == Phase::Failed(ErrorStage::SendFailed),
    ensures
        s.transmitted_frames().len() < s.frame_views().len(),
        s.transmitted_frames() == s.frame_views().take(s.transmitted_frames().len() as int),
{
}

} // verus!
