use wg_mtu_finder::messages::{Message, ProtocolError};
use wg_mtu_finder::models::MtuTestResult;
use wg_mtu_finder::peer::{AbortCause, PeerAction, PeerMachine, PeerPhase};
use wg_mtu_finder::server::{ServerAction, ServerMachine, ServerPhase};
use wg_mtu_finder::sweep::SweepRange;

/// Drives a whole cooperative sweep: the server machine and the peer
/// machine exchange messages directly, and every measurement returns
/// `measure(server_mtu, client_mtu)`.  Returns the recorded rows and
/// how many `Finish` signals the server issued.
fn drive_sweep(
    outer: SweepRange,
    inner: SweepRange,
    measure: impl Fn(u32, u32) -> (Option<(f64, f64)>, Option<(f64, f64)>),
) -> (Vec<MtuTestResult<f64>>, usize) {
    let (mut server, mut saction) = ServerMachine::new(outer);
    let mut peer = PeerMachine::new(inner);
    let mut rows: Vec<MtuTestResult<f64>> = Vec::new();
    let mut finish_signals: usize = 0;
    loop {
        match saction {
            ServerAction::BeginRound { mtu } => {
                let a1 = peer.on_message(Message::ServerReady);
                assert_eq!(a1, PeerAction::AwaitMessage);
                let mut pa = peer.on_message(Message::MtuValue(mtu));
                loop {
                    match pa {
                        PeerAction::RunMeasurement { client_mtu } => {
                            let (upload, download) = measure(mtu, client_mtu);
                            let (row, next) = peer.on_measurement(upload, download);
                            if let Some(r) = row {
                                assert_eq!(r.server_mtu, mtu);
                                assert_eq!(r.client_mtu, client_mtu);
                                rows.push(r);
                            }
                            pa = next;
                        }
                        PeerAction::CompleteRound => {
                            saction = server.on_message(Message::PeerDone);
                            break;
                        }
                        other => panic!("unexpected peer action {:?}", other),
                    }
                }
            }
            ServerAction::FinishSweep => {
                finish_signals += 1;
                assert_eq!(server.phase, ServerPhase::Finished);
                let a = peer.on_message(Message::Finish);
                assert_eq!(a, PeerAction::Finish);
                assert_eq!(peer.phase, PeerPhase::Done);
                break;
            }
            ServerAction::Abort { cause } => panic!("unexpected abort {:?}", cause),
        }
    }
    (rows, finish_signals)
}

#[test]
fn full_sweep_records_every_combination() {
    let outer = SweepRange::new(1280, 1500, 20).unwrap();
    let inner = SweepRange::new(1280, 1500, 20).unwrap();
    let (rows, finish_signals) = drive_sweep(outer, inner, |_, _| {
        (Some((10.5, 11.5)), Some((20.25, 21.25)))
    });
    // Twelve outer values times twelve inner values.
    assert_eq!(rows.len(), 144);
    assert_eq!(finish_signals, 1);
    assert_eq!(rows[0].server_mtu, 1500);
    assert_eq!(rows[0].client_mtu, 1500);
    assert_eq!(rows[0].upload_rcv_mbps, 10.5);
    assert_eq!(rows[0].upload_send_mbps, 11.5);
    assert_eq!(rows[0].download_rcv_mbps, 20.25);
    assert_eq!(rows[0].download_send_mbps, 21.25);
    let last = rows.last().unwrap();
    assert_eq!(last.server_mtu, 1280);
    assert_eq!(last.client_mtu, 1280);
}

#[test]
fn failed_direction_skips_the_row_and_continues() {
    let outer = SweepRange::new(1400, 1400, 20).unwrap();
    let inner = SweepRange::new(1280, 1500, 20).unwrap();
    // The upload test fails at one inner value, the download test at
    // another; both points are skipped, nothing aborts.
    let (rows, finish_signals) = drive_sweep(outer, inner, |_, client_mtu| {
        let upload = if client_mtu == 1460 { None } else { Some((1.0, 2.0)) };
        let download = if client_mtu == 1340 { None } else { Some((3.0, 4.0)) };
        (upload, download)
    });
    assert_eq!(rows.len(), 10);
    assert!(rows.iter().all(|r| r.client_mtu != 1460 && r.client_mtu != 1340));
    assert_eq!(finish_signals, 1);
}

#[test]
fn empty_outer_sweep_finishes_immediately() {
    let outer = SweepRange::new(1500, 1280, 20).unwrap();
    let (server, action) = ServerMachine::new(outer);
    assert_eq!(action, ServerAction::FinishSweep);
    assert_eq!(server.phase, ServerPhase::Finished);
}

#[test]
fn empty_inner_sweep_still_answers_the_round() {
    let inner = SweepRange::new(1500, 1280, 20).unwrap();
    let mut peer = PeerMachine::new(inner);
    assert_eq!(peer.on_message(Message::ServerReady), PeerAction::AwaitMessage);
    assert_eq!(peer.on_message(Message::MtuValue(1400)), PeerAction::CompleteRound);
    assert_eq!(peer.phase, PeerPhase::AwaitingReady);
}

#[test]
fn peer_aborts_on_unexpected_message() {
    let inner = SweepRange::new(1280, 1500, 20).unwrap();
    let mut peer = PeerMachine::new(inner);
    let a = peer.on_message(Message::PeerDone);
    assert_eq!(
        a,
        PeerAction::Abort { cause: AbortCause::UnexpectedMessage }
    );
    assert_eq!(peer.phase, PeerPhase::Failed);
}

#[test]
fn peer_aborts_on_wrong_second_message() {
    let inner = SweepRange::new(1280, 1500, 20).unwrap();
    let mut peer = PeerMachine::new(inner);
    assert_eq!(peer.on_message(Message::ServerReady), PeerAction::AwaitMessage);
    let a = peer.on_message(Message::Finish);
    assert_eq!(
        a,
        PeerAction::Abort { cause: AbortCause::UnexpectedMessage }
    );
    assert_eq!(peer.phase, PeerPhase::Failed);
}

#[test]
fn server_aborts_on_unexpected_message() {
    let outer = SweepRange::new(1280, 1500, 20).unwrap();
    let (mut server, action) = ServerMachine::new(outer);
    assert_eq!(action, ServerAction::BeginRound { mtu: 1500 });
    let a = server.on_message(Message::ServerReady);
    assert_eq!(
        a,
        ServerAction::Abort { cause: AbortCause::UnexpectedMessage }
    );
    assert_eq!(server.phase, ServerPhase::Failed);
}

#[test]
fn closed_channel_aborts_peer_without_a_row() {
    let inner = SweepRange::new(1280, 1500, 20).unwrap();
    let mut peer = PeerMachine::new(inner);
    let a = peer.on_receive_error(ProtocolError::ConnectionClosed);
    assert_eq!(
        a,
        PeerAction::Abort {
            cause: AbortCause::Channel { error: ProtocolError::ConnectionClosed }
        }
    );
    assert_eq!(peer.phase, PeerPhase::Failed);
}

#[test]
fn closed_channel_aborts_server_without_finish() {
    let outer = SweepRange::new(1280, 1500, 20).unwrap();
    let (mut server, _) = ServerMachine::new(outer);
    let a = server.on_receive_error(ProtocolError::ConnectionClosed);
    assert_eq!(
        a,
        ServerAction::Abort {
            cause: AbortCause::Channel { error: ProtocolError::ConnectionClosed }
        }
    );
    assert_eq!(server.phase, ServerPhase::Failed);
}

#[test]
fn server_announces_the_whole_sweep_in_order() {
    let outer = SweepRange::new(1280, 1500, 100).unwrap();
    let (mut server, mut action) = ServerMachine::new(outer);
    let mut announced = Vec::new();
    loop {
        match action {
            ServerAction::BeginRound { mtu } => {
                announced.push(mtu);
                action = server.on_message(Message::PeerDone);
            }
            ServerAction::FinishSweep => break,
            other => panic!("unexpected action {:?}", other),
        }
    }
    assert_eq!(announced, vec![1500, 1400, 1300]);
}
