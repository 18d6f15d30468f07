//! The responder (peer) state machine.
//!
//! The peer connects out to the server, and for every round the
//! server announces it runs its own inner MTU sweep: apply the next
//! local MTU, measure bandwidth in both directions, and record a
//! result row only when both directions produced a reading.  The
//! machine here makes every decision; the unverified shell merely
//! performs the returned action and feeds the outcome back in.

use vstd::prelude::*;
use crate::messages::{Message, ProtocolError};
use crate::models::MtuTestResult;
use crate::sweep::SweepRange;

verus! {

/// Why a run tore down early.
#[derive(Clone, Copy, Debug, PartialEq, Eq, Structural)]
pub enum AbortCause {
    /// The control channel failed: the connection closed or a frame
    /// could not be read.
    Channel { error: ProtocolError },
    /// A well-formed message arrived that the protocol does not allow
    /// at this point.
    UnexpectedMessage,
}

/// Where the responder stands in the protocol.
#[derive(Clone, Copy, Debug, PartialEq, Eq, Structural)]
pub enum PeerPhase {
    /// Waiting for the server to announce a round or the end of the
    /// sweep.
    AwaitingReady,
    /// `ServerReady` received; waiting for the announced MTU value.
    AwaitingMtu,
    /// Running the inner sweep against the announced `server_mtu`;
    /// the measurement under way uses the sweep value at `inner_idx`.
    Measuring { server_mtu: u32, inner_idx: u64 },
    /// `Finish` received: the run ended normally.
    Done,
    /// The run aborted.
    Failed,
}

/// What the shell must do next on the responder side.
#[derive(Clone, Copy, Debug, PartialEq, Eq, Structural)]
pub enum PeerAction {
    /// Block on the control channel and feed the next message (or the
    /// receive error) back in.
    AwaitMessage,
    /// Apply `client_mtu` locally (best effort), run one bandwidth
    /// test in each direction, and feed both outcomes back in.
    RunMeasurement { client_mtu: u32 },
    /// Send `PeerDone`, then block on the control channel again.
    CompleteRound,
    /// Close the connection and report where the results were
    /// written: the sweep ended normally.
    Finish,
    /// Tear down: the run failed.
    Abort { cause: AbortCause },
}

/// The responder's inner sweep driver.
pub struct PeerMachine {
    /// The peer's own MTU range, walked once per announced round.
    pub range: SweepRange,
    /// Where the machine stands.
    pub phase: PeerPhase,
}

impl PeerMachine {
    /// The machine's invariant: a usable range, and a measurement
    /// index that stays inside the sweep.
    pub open spec fn wf(self) -> bool {
        &&& self.range.wf()
        &&& match self.phase {
            PeerPhase::Measuring { server_mtu, inner_idx } => inner_idx
                < self.range.value_count(),
            _ => true,
        }
    }

    /// A fresh responder, waiting for the first round announcement.
    pub fn new(range: SweepRange) -> (m: PeerMachine)
        requires
            range.wf(),
        ensures
            m.wf(),
            m.range == range,
            m.phase == PeerPhase::AwaitingReady,
    {
        PeerMachine { range, phase: PeerPhase::AwaitingReady }
    }

    /// What one received message does to the responder, and what the
    /// shell must do next.
    pub open spec fn next_on_message(self, msg: Message) -> (PeerMachine, PeerAction) {
        match self.phase {
            PeerPhase::AwaitingReady => match msg {
                Message::ServerReady => (
                    PeerMachine { phase: PeerPhase::AwaitingMtu, ..self },
                    PeerAction::AwaitMessage,
                ),
                Message::Finish => (
                    PeerMachine { phase: PeerPhase::Done, ..self },
                    PeerAction::Finish,
                ),
                _ => (
                    PeerMachine { phase: PeerPhase::Failed, ..self },
                    PeerAction::Abort { cause: AbortCause::UnexpectedMessage },
                ),
            },
            PeerPhase::AwaitingMtu => match msg {
                Message::MtuValue(v) => if self.range.value_count() > 0 {
                    (
                        PeerMachine {
                            phase: PeerPhase::Measuring { server_mtu: v, inner_idx: 0 },
                            ..self
                        },
                        PeerAction::RunMeasurement { client_mtu: self.range.value_seq()[0] },
                    )
                } else {
                    // An empty inner sweep still answers the round.
                    (
                        PeerMachine { phase: PeerPhase::AwaitingReady, ..self },
                        PeerAction::CompleteRound,
                    )
                },
                _ => (
                    PeerMachine { phase: PeerPhase::Failed, ..self },
                    PeerAction::Abort { cause: AbortCause::UnexpectedMessage },
                ),
            },
            _ => (self, PeerAction::Abort { cause: AbortCause::UnexpectedMessage }),
        }
    }

    /// Feeds one received control message into the machine.
    pub fn on_message(&mut self, msg: Message) -> (action: PeerAction)
        requires
            old(self).wf(),
            old(self).phase == PeerPhase::AwaitingReady || old(self).phase
                == PeerPhase::AwaitingMtu,
        ensures
            final(self).wf(),
            (*final(self), action) == old(self).next_on_message(msg),
            // The outer loop ends exactly on `Finish`, never otherwise.
            final(self).phase == PeerPhase::Done <==> (old(self).phase
                == PeerPhase::AwaitingReady && msg == Message::Finish),
    {
        match self.phase {
            PeerPhase::AwaitingReady => match msg {
                Message::ServerReady => {
                    self.phase = PeerPhase::AwaitingMtu;
                    PeerAction::AwaitMessage
                },
                Message::Finish => {
                    self.phase = PeerPhase::Done;
                    PeerAction::Finish
                },
                _ => {
                    self.phase = PeerPhase::Failed;
                    PeerAction::Abort { cause: AbortCause::UnexpectedMessage }
                },
            },
            PeerPhase::AwaitingMtu => match msg {
                Message::MtuValue(v) => {
                    if self.range.min <= self.range.max {
                        let first = self.range.value_at_index(0);
                        proof {
                            self.range.lemma_sweep_shape();
                        }
                        self.phase = PeerPhase::Measuring { server_mtu: v, inner_idx: 0 };
                        PeerAction::RunMeasurement { client_mtu: first }
                    } else {
                        self.phase = PeerPhase::AwaitingReady;
                        PeerAction::CompleteRound
                    }
                },
                _ => {
                    self.phase = PeerPhase::Failed;
                    PeerAction::Abort { cause: AbortCause::UnexpectedMessage }
                },
            },
            _ => {
                // Unreachable under the precondition.
                proof {
                    assert(false);
                }
                PeerAction::AwaitMessage
            },
        }
    }

    /// A failed receive aborts the run with the channel's error and
    /// produces nothing else: no message is sent and no row is
    /// recorded.
    pub fn on_receive_error(&mut self, error: ProtocolError) -> (action: PeerAction)
        requires
            old(self).wf(),
        ensures
            final(self).wf(),
            final(self).range == old(self).range,
            final(self).phase == PeerPhase::Failed,
            action == (PeerAction::Abort { cause: (AbortCause::Channel { error }) }),
    {
        self.phase = PeerPhase::Failed;
        PeerAction::Abort { cause: AbortCause::Channel { error } }
    }

    /// Feeds the two direction outcomes of one measurement back in.
    /// A row is produced exactly when both directions succeeded, and
    /// it carries the announced server MTU, the sweep value just
    /// measured, and the four readings unchanged; a missing direction
    /// skips the row and the sweep simply moves on.  After the last
    /// inner value the round is answered with `PeerDone`.
    pub fn on_measurement<R>(&mut self, upload: Option<(R, R)>, download: Option<(R, R)>) -> (r: (
        Option<MtuTestResult<R>>,
        PeerAction,
    ))
        requires
            old(self).wf(),
            old(self).phase is Measuring,
        ensures
            final(self).wf(),
            final(self).range == old(self).range,
            ({
                let server_mtu = old(self).phase->Measuring_server_mtu;
                let inner_idx = old(self).phase->Measuring_inner_idx;
                let client_mtu = old(self).range.value_seq()[inner_idx as int];
                &&& r.0 == (match (upload, download) {
                    (Some(up), Some(down)) => Some(
                        MtuTestResult {
                            server_mtu,
                            client_mtu,
                            upload_rcv_mbps: up.0,
                            upload_send_mbps: up.1,
                            download_rcv_mbps: down.0,
                            download_send_mbps: down.1,
                        },
                    ),
                    _ => None::<MtuTestResult<R>>,
                })
                &&& (if inner_idx + 1 < old(self).range.value_count() {
                    &&& final(self).phase == (PeerPhase::Measuring {
                        server_mtu,
                        inner_idx: (inner_idx + 1) as u64,
                    })
                    &&& r.1 == (PeerAction::RunMeasurement {
                        client_mtu: old(self).range.value_seq()[inner_idx + 1],
                    })
                } else {
                    &&& final(self).phase == PeerPhase::AwaitingReady
                    &&& r.1 == PeerAction::CompleteRound
                })
            }),
    {
        let (server_mtu, inner_idx) = match self.phase {
            PeerPhase::Measuring { server_mtu, inner_idx } => (server_mtu, inner_idx),
            _ => {
                proof {
                    assert(false);
                }
                (0, 0)
            },
        };
        let client_mtu = self.range.value_at_index(inner_idx);
        let row = match (upload, download) {
            (Some(up), Some(down)) => Some(
                MtuTestResult {
                    server_mtu,
                    client_mtu,
                    upload_rcv_mbps: up.0,
                    upload_send_mbps: up.1,
                    download_rcv_mbps: down.0,
                    download_send_mbps: down.1,
                },
            ),
            _ => None,
        };
        let count = self.range.count();
        proof {
            self.range.lemma_count_bound();
        }
        if inner_idx + 1 < count {
            let next_mtu = self.range.value_at_index(inner_idx + 1);
            self.phase = PeerPhase::Measuring { server_mtu, inner_idx: inner_idx + 1 };
            (row, PeerAction::RunMeasurement { client_mtu: next_mtu })
        } else {
            self.phase = PeerPhase::AwaitingReady;
            (row, PeerAction::CompleteRound)
        }
    }
}

} // verus!
