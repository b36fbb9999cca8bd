//! Tests of the countdown, the client race state machine and the server
//! race state machine.

use raceline::client::{ClientState, GameMode, N_LAPS};
use raceline::countdown::{Countdown, CountdownStage};
use raceline::curve::Curve;
use raceline::fx::FX_ONE;
use raceline::kinematics::KinematicPhysics;
use raceline::math::{Quat, Transform, Vec3};
use raceline::server::ServerState;
use raceline::{Finished, InputAbstraction, ServerShipComponent, ShipCharacteristics, ShipUpload, StartRace};
use raceline::client::split_lap_time;

fn v(x: i64, y: i64, z: i64) -> Vec3 {
    Vec3 { x, y, z }
}

fn at(x: i64, y: i64, z: i64) -> Transform {
    Transform {
        pos: v(x, y, z),
        orient: Quat {
            w: FX_ONE,
            x: 0,
            y: 0,
            z: 0,
        },
    }
}

/// A straight test track along the X axis, control points ten units apart,
/// long enough that the finish line (curve index ten) is a real control
/// point.
fn long_track() -> Curve {
    let mut pts = Vec::new();
    for i in 0..20 {
        pts.push(at(i as i64 * 10 * FX_ONE, 0, 0));
    }
    Curve::new(pts)
}

fn test_ship() -> ShipCharacteristics {
    ShipCharacteristics {
        mass: 1000,
        moment: 9000,
        max_twirl: 5000,
        max_impulse: 30000,
    }
}

/// A client already racing, its countdown long over (it defaults to time
/// zero). With neutral input and no velocity the controller holds the ship
/// exactly still, so each tick only the lap detector acts.
fn racing_client(last_x: i64) -> ClientState {
    let mut c = ClientState::new(long_track(), test_ship());
    c.mode = GameMode::Racing {
        client_id: 7,
        lap: 0,
    };
    c.last_ship_pos = at(last_x, 0, 0);
    c
}

#[test]
fn countdown_counts_three_seconds_then_go() {
    let mut cd = Countdown::new();
    cd.restart();
    cd.observe(5000);
    assert_eq!(cd.elapsed(5000), 0);
    assert_eq!(cd.stage(5000), CountdownStage::Three);
    assert_eq!(cd.stage(6000), CountdownStage::Two);
    assert_eq!(cd.stage(7500), CountdownStage::One);
    assert_eq!(cd.stage(8000), CountdownStage::Go);
    assert!(!cd.match_started(7999));
    assert!(cd.match_started(8000));
}

#[test]
fn countdown_restart_latches_at_next_observation() {
    let mut cd = Countdown::new();
    cd.restart();
    assert!(!cd.match_started(1_000_000));
    cd.observe(1_000_000);
    assert!(!cd.match_started(1_000_000));
    assert!(cd.match_started(1_003_000));
}

#[test]
fn lap_time_splits_into_minutes_seconds_milliseconds() {
    assert_eq!(split_lap_time(83_456), (1, 23, 456));
    assert_eq!(split_lap_time(0), (0, 0, 0));
    assert_eq!(split_lap_time(-5), (0, 0, 0));
    assert_eq!(split_lap_time(59_999), (0, 59, 999));
    assert_eq!(split_lap_time(60_000), (1, 0, 0));
}

#[test]
fn toggle_ready_flips_only_for_spectators() {
    let mut c = ClientState::new(long_track(), test_ship());
    assert_eq!(c.toggle_ready(), Some(true));
    assert!(matches!(
        c.mode,
        GameMode::Spectator { ready: true, .. }
    ));
    assert_eq!(c.toggle_ready(), Some(false));
    c.mode = GameMode::Racing {
        client_id: 1,
        lap: 0,
    };
    assert_eq!(c.toggle_ready(), None);
}

#[test]
fn start_race_resets_lap_countdown_and_spawn() {
    let mut c = ClientState::new(long_track(), test_ship());
    let mut tf = at(50, 60, 70);
    c.on_start_race(
        StartRace {
            client_id: 9,
            position: at(0, 0, -5000),
        },
        &mut tf,
    );
    assert!(matches!(
        c.mode,
        GameMode::Racing {
            client_id: 9,
            lap: 0
        }
    ));
    assert!(c.countdown.needs_restart);
    assert_eq!(tf, at(0, 0, -5000));
    assert_eq!(c.last_ship_pos, at(0, 0, -5000));
}

#[test]
fn despawn_hides_own_mirror_and_non_racers_while_racing() {
    let mut c = ClientState::new(long_track(), test_ship());
    let own = ServerShipComponent {
        client_id: 7,
        is_racing: true,
        is_ready: false,
    };
    let other = ServerShipComponent {
        client_id: 8,
        is_racing: true,
        is_ready: false,
    };
    let idle = ServerShipComponent {
        client_id: 9,
        is_racing: false,
        is_ready: false,
    };
    assert!(!c.should_despawn(own));
    c.mode = GameMode::Racing {
        client_id: 7,
        lap: 0,
    };
    assert!(c.should_despawn(own));
    assert!(!c.should_despawn(other));
    assert!(c.should_despawn(idle));
}

#[test]
fn crossing_needs_sign_flip_and_proximity() {
    // The finish line sits at control point ten, world X = 100 units.
    // Behind the line, nearest index ten: the flip counts.
    let mut c = racing_client(99_000);
    let mut tf = at(101_000, 0, 0);
    let mut kt = KinematicPhysics::new(1000);
    let ev = c.motion_update(16, 5000, InputAbstraction::default(), &mut tf, &mut kt);
    assert!(matches!(c.mode, GameMode::Racing { lap: 1, .. }));
    assert!(ev.lap_message.is_some());
    assert_eq!(ev.lap_message.unwrap().lap, 0);
    assert!(ev.finished.is_none());

    // The same sign flip, but ending far from the finish index: no lap.
    let mut c = racing_client(99_000);
    let mut tf = at(150_000, 0, 0);
    let mut kt = KinematicPhysics::new(1000);
    let ev = c.motion_update(16, 5000, InputAbstraction::default(), &mut tf, &mut kt);
    assert!(matches!(c.mode, GameMode::Racing { lap: 0, .. }));
    assert!(ev.lap_message.is_none());
    assert!(ev.finished.is_none());

    // Near the finish index but no sign flip: no lap either.
    let mut c = racing_client(101_000);
    let mut tf = at(102_000, 0, 0);
    let mut kt = KinematicPhysics::new(1000);
    let ev = c.motion_update(16, 5000, InputAbstraction::default(), &mut tf, &mut kt);
    assert!(matches!(c.mode, GameMode::Racing { lap: 0, .. }));
    assert!(ev.lap_message.is_none());
}

#[test]
fn crossing_during_the_countdown_does_not_count() {
    let mut c = racing_client(99_000);
    // The countdown restarts now and has not elapsed yet at this tick.
    c.countdown.restart();
    let mut tf = at(101_000, 0, 0);
    let mut kt = KinematicPhysics::new(1000);
    let ev = c.motion_update(16, 5000, InputAbstraction::default(), &mut tf, &mut kt);
    assert!(matches!(c.mode, GameMode::Racing { lap: 0, .. }));
    assert!(ev.lap_message.is_none());
    // The ship is held still during the countdown.
    assert_eq!(kt.vel, v(0, 0, 0));
}

#[test]
fn laps_count_up_and_the_race_finishes() {
    let mut c = racing_client(99_000);
    let mut tf = at(101_000, 0, 0);
    let mut kt = KinematicPhysics::new(1000);
    let mut last_lap = 0;
    for lap in 1..=N_LAPS {
        let ev = c.motion_update(16, 5000, InputAbstraction::default(), &mut tf, &mut kt);
        match c.mode {
            GameMode::Racing { lap: l, .. } => {
                assert_eq!(l, lap);
                assert!(l >= last_lap, "lap counter went backwards");
                assert!(l <= N_LAPS + 1);
                last_lap = l;
            }
            GameMode::Spectator { .. } => panic!("left the race early"),
        }
        assert!(ev.finished.is_none());
        // Swing back behind the line, then ahead again.
        tf = at(99_000, 0, 0);
        let ev = c.motion_update(16, 5000, InputAbstraction::default(), &mut tf, &mut kt);
        assert!(ev.lap_message.is_none());
        tf = at(101_000, 0, 0);
    }
    // One more crossing ends the race.
    let ev = c.motion_update(16, 5000, InputAbstraction::default(), &mut tf, &mut kt);
    assert!(matches!(
        c.mode,
        GameMode::Spectator {
            watching: None,
            ready: false
        }
    ));
    assert!(ev.finished.is_some());
}

#[test]
fn connection_monitor_adds_and_removes_records() {
    let mut s = ServerState::new();
    s.conn_update(&vec![1, 2]);
    assert_eq!(s.ships.len(), 2);
    assert_eq!(s.ships[0].client_id, 1);
    assert_eq!(s.ships[1].client_id, 2);
    assert!(!s.ships[0].is_racing && !s.ships[0].is_ready);

    // Client 1 vanishes, client 4 appears; client 2 keeps its state.
    s.ships[1].is_ready = true;
    s.conn_update(&vec![2, 4]);
    assert_eq!(s.ships.len(), 2);
    assert_eq!(s.ships[0].client_id, 2);
    assert!(s.ships[0].is_ready);
    assert_eq!(s.ships[1].client_id, 4);
    assert!(!s.ships[1].is_ready);
}

#[test]
fn ready_protocol_needs_every_client_before_start() {
    let mut s = ServerState::new();
    s.conn_update(&vec![1, 2, 3]);

    // Two of three ready: no start, nobody racing.
    let starts = s.client_state_update(&vec![(1, true), (2, true)]);
    assert!(starts.is_empty());
    assert!(s.ships.iter().all(|r| !r.is_racing));
    assert!(s.ships[0].is_ready && s.ships[1].is_ready && !s.ships[2].is_ready);

    // The third toggles ready: the race starts for all three.
    let starts = s.client_state_update(&vec![(3, true)]);
    assert_eq!(starts.len(), 3);
    for (i, m) in starts.iter().enumerate() {
        assert_eq!(m.client_id, s.ships[i].client_id);
    }
    assert_ne!(starts[0].position, starts[1].position);
    assert_ne!(starts[0].position, starts[2].position);
    assert_ne!(starts[1].position, starts[2].position);
    // The spawn fan-out: five units further aside per ship, mirrored in
    // depth every other ship.
    assert_eq!(starts[0].position.pos, v(0, 0, -5000));
    assert_eq!(starts[1].position.pos, v(-5000, 0, 5000));
    assert_eq!(starts[2].position.pos, v(-10000, 0, -5000));
    assert!(s.ships.iter().all(|r| r.is_racing && !r.is_ready));
}

#[test]
fn unready_toggle_blocks_the_start() {
    let mut s = ServerState::new();
    s.conn_update(&vec![1, 2]);
    // Ready then unready in the same batch: the last message wins.
    let starts = s.client_state_update(&vec![(1, true), (2, true), (2, false)]);
    assert!(starts.is_empty());
    assert!(s.ships[0].is_ready && !s.ships[1].is_ready);
}

#[test]
fn relay_takes_each_clients_newest_upload() {
    let mut s = ServerState::new();
    s.conn_update(&vec![1, 2]);
    let up_old = ShipUpload(at(1000, 0, 0), KinematicPhysics::new(1000));
    let up_new = ShipUpload(at(2000, 0, 0), KinematicPhysics::new(1000));
    s.ship_update(&vec![(1, up_old), (1, up_new)]);
    assert_eq!(s.ships[0].tf, at(2000, 0, 0));
    // Client 2 sent nothing: its record keeps the previous value.
    assert_eq!(s.ships[1].tf, at(0, 0, 0));
}

#[test]
fn earlier_finish_time_wins() {
    let mut s = ServerState::new();
    s.conn_update(&vec![1, 2, 3, 4]);
    let _ = s.client_state_update(&vec![(1, true), (2, true), (3, true), (4, true)]);

    // Client 1 finishes at 12.0; client 4 keeps racing throughout.
    s.win_reset(100_000, &vec![(1, Finished(12_000))]);
    assert_eq!(s.winner, Some((1, 12_000)));
    assert_eq!(s.reset_countdown, 150_000);
    assert!(!s.ships[0].is_racing && s.ships[1].is_racing);

    // Client 2 finishes later in wall time but with the earlier race time
    // 9.5: it takes the win and refreshes the reset deadline.
    s.win_reset(100_016, &vec![(2, Finished(9_500))]);
    assert_eq!(s.winner, Some((2, 9_500)));
    assert_eq!(s.reset_countdown, 150_016);

    // A later, slower finish changes nothing.
    s.win_reset(100_032, &vec![(3, Finished(20_000))]);
    assert_eq!(s.winner, Some((2, 9_500)));
    assert_eq!(s.reset_countdown, 150_016);
    assert!(s.ships[3].is_racing);
}

#[test]
fn equal_times_keep_the_earlier_recorded_winner() {
    let mut s = ServerState::new();
    s.conn_update(&vec![1, 2, 3]);
    let _ = s.client_state_update(&vec![(1, true), (2, true), (3, true)]);
    s.win_reset(100_000, &vec![(1, Finished(9_500))]);
    s.win_reset(100_016, &vec![(2, Finished(9_500))]);
    assert_eq!(s.winner, Some((1, 9_500)));
}

#[test]
fn winner_clears_after_the_reset_deadline() {
    let mut s = ServerState::new();
    s.conn_update(&vec![1, 2]);
    let _ = s.client_state_update(&vec![(1, true), (2, true)]);
    s.win_reset(100_000, &vec![(1, Finished(12_000))]);
    assert_eq!(s.winner, Some((1, 12_000)));

    // Before the deadline, with someone still racing, nothing clears.
    s.win_reset(120_000, &vec![]);
    assert_eq!(s.winner, Some((1, 12_000)));

    // Past the deadline the winner record clears.
    s.win_reset(150_001, &vec![]);
    assert_eq!(s.winner, None);

    // A new ready-up cycle can then start a new race.
    let starts = s.client_state_update(&vec![(1, true), (2, true)]);
    assert_eq!(starts.len(), 2);
}

#[test]
fn winner_clears_when_nobody_races_any_more() {
    let mut s = ServerState::new();
    s.conn_update(&vec![1, 2]);
    let _ = s.client_state_update(&vec![(1, true), (2, true)]);
    s.win_reset(100_000, &vec![(1, Finished(12_000))]);
    assert_eq!(s.winner, Some((1, 12_000)));
    // The last racer finishes well before the deadline: the winner record
    // clears in the same pass.
    s.win_reset(100_016, &vec![(2, Finished(13_000))]);
    assert_eq!(s.winner, None);
}

#[test]
fn late_finish_from_a_non_racing_client_is_idempotent() {
    let mut s = ServerState::new();
    s.conn_update(&vec![1]);
    assert!(!s.ships[0].is_racing);
    // A finish report from a client that never raced: marking it not racing
    // is a no-op, and with nobody racing the winner clears immediately.
    s.win_reset(100_000, &vec![(1, Finished(5_000))]);
    assert!(!s.ships[0].is_racing);
    assert_eq!(s.winner, None);
}
