//! The coordinator (server) state machine.
//!
//! The server owns the outer sweep: for every value of its range it
//! applies the MTU, announces the round with `ServerReady` and
//! `MtuValue`, and blocks until the peer answers `PeerDone`.  When
//! the sweep is exhausted it sends `Finish` exactly once and stops.
//! The machine here makes every decision; the unverified shell
//! performs the returned action and feeds each received message (or
//! receive error) back in.

use vstd::prelude::*;
use crate::messages::{Message, ProtocolError};
use crate::peer::AbortCause;
use crate::sweep::SweepRange;

verus! {

/// Where the coordinator stands in the protocol.
#[derive(Clone, Copy, Debug, PartialEq, Eq, Structural)]
pub enum ServerPhase {
    /// Round `idx` of the sweep is announced; waiting for the peer's
    /// `PeerDone`.
    AwaitingCompletion { idx: u64 },
    /// `Finish` sent: the sweep is over.
    Finished,
    /// The run aborted.
    Failed,
}

/// What the shell must do next on the coordinator side.
#[derive(Clone, Copy, Debug, PartialEq, Eq, Structural)]
pub enum ServerAction {
    /// Apply `mtu` locally (best effort), send `ServerReady` then
    /// `MtuValue(mtu)`, and block for the peer's answer.
    BeginRound { mtu: u32 },
    /// Send `Finish`, stop the bandwidth-test server and close: the
    /// sweep ended normally.
    FinishSweep,
    /// Tear down, still stopping the bandwidth-test server: the run
    /// failed.
    Abort { cause: AbortCause },
}

/// The coordinator's outer sweep driver.
pub struct ServerMachine {
    /// The server's MTU range, one round per value.
    pub range: SweepRange,
    /// Where the machine stands.
    pub phase: ServerPhase,
}

impl ServerMachine {
    /// The machine's invariant: a usable range, and a round index
    /// that stays inside the sweep.
    pub open spec fn wf(self) -> bool {
        &&& self.range.wf()
        &&& match self.phase {
            ServerPhase::AwaitingCompletion { idx } => idx < self.range.value_count(),
            _ => true,
        }
    }

    /// The machine a fresh run starts in, with its first action: the
    /// first round where the sweep has values, `Finish` right away
    /// where it has none.
    pub open spec fn spec_new(range: SweepRange) -> (ServerMachine, ServerAction) {
        if range.value_count() > 0 {
            (
                ServerMachine { range, phase: ServerPhase::AwaitingCompletion { idx: 0 } },
                ServerAction::BeginRound { mtu: range.value_seq()[0] },
            )
        } else {
            (
                ServerMachine { range, phase: ServerPhase::Finished },
                ServerAction::FinishSweep,
            )
        }
    }

    /// A fresh coordinator together with the first thing to do.
    pub fn new(range: SweepRange) -> (r: (ServerMachine, ServerAction))
        requires
            range.wf(),
        ensures
            r == ServerMachine::spec_new(range),
            r.0.wf(),
    {
        if range.min <= range.max {
            let first = range.value_at_index(0);
            proof {
                range.lemma_sweep_shape();
            }
            (
                ServerMachine { range, phase: ServerPhase::AwaitingCompletion { idx: 0 } },
                ServerAction::BeginRound { mtu: first },
            )
        } else {
            (
                ServerMachine { range, phase: ServerPhase::Finished },
                ServerAction::FinishSweep,
            )
        }
    }

    /// What one received message does to the coordinator, and what
    /// the shell must do next.  `PeerDone` closes the round: the next
    /// round begins, or, when the sweep is exhausted, `Finish` is
    /// sent; any other message is a protocol violation.
    pub open spec fn next_on_message(self, msg: Message) -> (ServerMachine, ServerAction) {
        match self.phase {
            ServerPhase::AwaitingCompletion { idx } => match msg {
                Message::PeerDone => if idx + 1 < self.range.value_count() {
                    (
                        ServerMachine {
                            phase: ServerPhase::AwaitingCompletion { idx: (idx + 1) as u64 },
                            ..self
                        },
                        ServerAction::BeginRound { mtu: self.range.value_seq()[idx + 1] },
                    )
                } else {
                    (
                        ServerMachine { phase: ServerPhase::Finished, ..self },
                        ServerAction::FinishSweep,
                    )
                },
                _ => (
                    ServerMachine { phase: ServerPhase::Failed, ..self },
                    ServerAction::Abort { cause: AbortCause::UnexpectedMessage },
                ),
            },
            _ => (self, ServerAction::Abort { cause: AbortCause::UnexpectedMessage }),
        }
    }

    /// Feeds one received control message into the machine.
    pub fn on_message(&mut self, msg: Message) -> (action: ServerAction)
        requires
            old(self).wf(),
            old(self).phase is AwaitingCompletion,
        ensures
            final(self).wf(),
            (*final(self), action) == old(self).next_on_message(msg),
    {
        let idx = match self.phase {
            ServerPhase::AwaitingCompletion { idx } => idx,
            _ => {
                proof {
                    assert(false);
                }
                0
            },
        };
        match msg {
            Message::PeerDone => {
                let count = self.range.count();
                proof {
                    self.range.lemma_count_bound();
                }
                if idx + 1 < count {
                    let mtu = self.range.value_at_index(idx + 1);
                    self.phase = ServerPhase::AwaitingCompletion { idx: idx + 1 };
                    ServerAction::BeginRound { mtu }
                } else {
                    self.phase = ServerPhase::Finished;
                    ServerAction::FinishSweep
                }
            },
            _ => {
                self.phase = ServerPhase::Failed;
                ServerAction::Abort { cause: AbortCause::UnexpectedMessage }
            },
        }
    }

    /// A failed receive aborts the run with the channel's error: no
    /// further message is sent, in particular no `Finish`.
    pub fn on_receive_error(&mut self, error: ProtocolError) -> (action: ServerAction)
        requires
            old(self).wf(),
        ensures
            final(self).wf(),
            final(self).range == old(self).range,
            final(self).phase == ServerPhase::Failed,
            action == (ServerAction::Abort { cause: (AbortCause::Channel { error }) }),
    {
        self.phase = ServerPhase::Failed;
        ServerAction::Abort { cause: AbortCause::Channel { error } }
    }
}

/// The actions a coordinator takes from state `m` on a run of
/// received messages: it stops consuming once it leaves the round
/// loop.
pub open spec fn server_run(m: ServerMachine, msgs: Seq<Message>) -> Seq<ServerAction>
    decreases msgs.len(),
{
    if msgs.len() == 0 || !(m.phase is AwaitingCompletion) {
        Seq::empty()
    } else {
        let (m2, a) = m.next_on_message(msgs[0]);
        seq![a] + server_run(m2, msgs.drop_first())
    }
}

/// How many times `FinishSweep` occurs in a run of actions.
pub open spec fn finish_count(actions: Seq<ServerAction>) -> int
    decreases actions.len(),
{
    if actions.len() == 0 {
        0
    } else {
        (if actions[0] is FinishSweep {
            1int
        } else {
            0int
        }) + finish_count(actions.drop_first())
    }
}

/// How many rounds a run of actions begins.
pub open spec fn begin_count(actions: Seq<ServerAction>) -> int
    decreases actions.len(),
{
    if actions.len() == 0 {
        0
    } else {
        (if actions[0] is BeginRound {
            1int
        } else {
            0int
        }) + begin_count(actions.drop_first())
    }
}

/// The whole action trace of a run: the action `new` returns, then
/// everything the received messages cause.
pub open spec fn server_trace(range: SweepRange, msgs: Seq<Message>) -> Seq<ServerAction> {
    let (m0, a0) = ServerMachine::spec_new(range);
    seq![a0] + server_run(m0, msgs)
}

/// The induction behind the terminal-signal law, stated from an
/// arbitrary mid-run state.
proof fn lemma_server_run_finish(m: ServerMachine, msgs: Seq<Message>)
    requires
        m.wf(),
        m.phase is AwaitingCompletion,
    ensures
        finish_count(server_run(m, msgs)) <= 1,
        finish_count(server_run(m, msgs)) == 1 ==> begin_count(server_run(m, msgs))
            == m.range.value_count() - m.phase->AwaitingCompletion_idx - 1,
        (forall|i: int| 0 <= i < msgs.len() ==> msgs[i] == Message::PeerDone) && msgs.len()
            >= m.range.value_count() - m.phase->AwaitingCompletion_idx ==> finish_count(
            server_run(m, msgs),
        ) == 1,
        forall|i: int|
            0 <= i < server_run(m, msgs).len() && server_run(m, msgs)[i] is FinishSweep ==> i
                == server_run(m, msgs).len() - 1,
    decreases msgs.len(),
{
    let run = server_run(m, msgs);
    if msgs.len() == 0 {
        return ;
    }
    let (m2, a) = m.next_on_message(msgs[0]);
    let rest = server_run(m2, msgs.drop_first());
    assert(run == seq![a] + rest);
    assert(run.len() == 1 + rest.len());
    assert(run[0] == a);
    assert(run.drop_first() =~= rest);
    lemma_counts_split(run);
    assert(finish_count(run.drop_first()) == finish_count(rest));
    assert(begin_count(run.drop_first()) == begin_count(rest));
    let idx = m.phase->AwaitingCompletion_idx;
    match msgs[0] {
        Message::PeerDone => {
            if idx + 1 < m.range.value_count() {
                lemma_server_run_finish(m2, msgs.drop_first());
            } else {
                // `Finish` is sent now; afterwards nothing more runs.
                assert(!(m2.phase is AwaitingCompletion));
                assert(rest =~= Seq::<ServerAction>::empty());
            }
        },
        _ => {
            assert(!(m2.phase is AwaitingCompletion));
            assert(rest =~= Seq::<ServerAction>::empty());
        },
    }
}

/// The terminal-signal law: on any run whatsoever the coordinator
/// sends `Finish` at most once; when it does, it has first begun a
/// round for every value of its sweep — the signal comes only once
/// the sequence is exhausted — and nothing follows it: the signal is
/// always the coordinator's last action.  And a peer that answers
/// every round always gets the signal: with enough `PeerDone`
/// answers the count is exactly one.
pub proof fn lemma_finish_exactly_once(range: SweepRange, msgs: Seq<Message>)
    requires
        range.wf(),
    ensures
        finish_count(server_trace(range, msgs)) <= 1,
        finish_count(server_trace(range, msgs)) == 1 ==> begin_count(server_trace(range, msgs))
            == range.value_count(),
        (forall|i: int| 0 <= i < msgs.len() ==> msgs[i] == Message::PeerDone) && msgs.len()
            >= range.value_count() ==> finish_count(server_trace(range, msgs)) == 1,
        forall|i: int|
            0 <= i < server_trace(range, msgs).len() && server_trace(range, msgs)[i]
                is FinishSweep ==> i == server_trace(range, msgs).len() - 1,
{
    let (m0, a0) = ServerMachine::spec_new(range);
    let trace = server_trace(range, msgs);
    let run = server_run(m0, msgs);
    assert(trace == seq![a0] + run);
    assert(trace[0] == a0);
    assert(trace.drop_first() =~= run);
    if range.value_count() > 0 {
        lemma_server_run_finish(m0, msgs);
        lemma_counts_split(trace);
    } else {
        assert(run =~= Seq::<ServerAction>::empty());
        lemma_counts_split(trace);
    }
}

/// Unfolds the two counters over a one-action head.
proof fn lemma_counts_split(actions: Seq<ServerAction>)
    requires
        actions.len() >= 1,
    ensures
        finish_count(actions) == (if actions[0] is FinishSweep {
            1int
        } else {
            0int
        }) + finish_count(actions.drop_first()),
        begin_count(actions) == (if actions[0] is BeginRound {
            1int
        } else {
            0int
        }) + begin_count(actions.drop_first()),
{
}

} // verus!
