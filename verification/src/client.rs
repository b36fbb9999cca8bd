//! The client-side race state machine.
//!
//! A client is either a spectator (possibly watching another ship, possibly
//! ready for the next race) or racing under its client identity, counting
//! laps. While racing and once the countdown has elapsed, each tick runs the
//! flight controller on the locally owned ship; before that the ship is held
//! still. After motion, the lap detector compares the last and the current
//! position against the finish line, and every tick the resulting placement
//! and kinematic state are uploaded to the server, which merely relays them:
//! this client alone is authoritative over its ship's motion.

use crate::controls::{ship_controller, ship_controller_s};
use crate::countdown::{observe_s, Countdown};
use crate::curve::{curve_lerp_s, nearest_s, Curve};
use crate::fx::FX_ONE;
use crate::kinematics::KinematicPhysics;
use crate::math::{to_local, to_local_s, Transform, Vec3};
use crate::{Finished, InputAbstraction, ServerShipComponent, ShipCharacteristics, ShipUpload};
use vstd::arithmetic::div_mod::{lemma_div_denominator, lemma_fundamental_div_mod};
use vstd::prelude::*;

verus! {

/// How many laps a race runs.
pub const N_LAPS: usize = 3;

/// The curve index whose sample is the finish line.
pub const FINISH_LINE_INDEX: i64 = 10;

/// How close (in curve indices) the nearest control point must be to the
/// finish line's index for a crossing to count.
pub const FINISH_PROXIMITY: i64 = 3;

/// What a client is doing: watching, or racing.
#[derive(Clone, Copy, Debug)]
pub enum GameMode {
    /// Watching the race, or the lobby, from someone else's ship.
    Spectator {
        /// Which player to spectate, if any.
        watching: Option<u64>,
        /// Whether this player is ready to enter the next race.
        ready: bool,
    },
    /// Flying in the current race.
    Racing {
        /// This client's identity, as assigned by the race start.
        client_id: u64,
        /// Laps completed so far.
        lap: usize,
    },
}

/// A finished lap's number and its time, split for display.
#[derive(Clone, Copy, Debug)]
pub struct LapTime {
    /// The lap just completed, counted from zero.
    pub lap: usize,
    /// Whole minutes of the elapsed race time.
    pub minutes: i64,
    /// Whole seconds beyond the minutes, below sixty.
    pub seconds: i64,
    /// Fixed-point steps beyond the seconds, below one second.
    pub milliseconds: i64,
}

/// What one motion tick asks the host to send.
#[derive(Clone, Copy, Debug)]
pub struct MotionEvents {
    /// The ship state to upload to the server; sent every tick.
    pub upload: ShipUpload,
    /// A lap was completed: announce its time.
    pub lap_message: Option<LapTime>,
    /// The whole race was completed: report the total time.
    pub finished: Option<Finished>,
}

/// All state of the client-side race logic.
pub struct ClientState {
    /// Spectating or racing.
    pub mode: GameMode,
    /// The pre-race countdown clock.
    pub countdown: Countdown,
    /// The ship design this client flies.
    pub motion_cfg: ShipCharacteristics,
    /// This client's own copy of the track.
    pub path: Curve,
    /// The ship's placement at the end of the previous tick.
    pub last_ship_pos: Transform,
}

/// Whether a mode is the racing mode.
pub open spec fn mode_is_racing_s(m: GameMode) -> bool {
    match m {
        GameMode::Racing { .. } => true,
        GameMode::Spectator { .. } => false,
    }
}

/// The lap count of a racing mode, zero for a spectator.
pub open spec fn mode_lap_s(m: GameMode) -> int {
    match m {
        GameMode::Racing { lap, .. } => lap as int,
        GameMode::Spectator { .. } => 0,
    }
}

/// The racer's identity, zero for a spectator.
pub open spec fn mode_racer_s(m: GameMode) -> u64 {
    match m {
        GameMode::Racing { client_id, .. } => client_id,
        GameMode::Spectator { .. } => 0,
    }
}

/// The finish line: the track sample at a fixed curve index.
pub open spec fn finish_line_s(path: Seq<Transform>) -> Transform {
    curve_lerp_s(path, FINISH_LINE_INDEX as int * FX_ONE as int)
}

/// Whether a position's nearest control point lies within the proximity
/// window around the finish line's index.
pub open spec fn near_finish_s(path: Seq<Transform>, pos: Vec3) -> bool {
    let d = nearest_s(path, pos) - FINISH_LINE_INDEX as int;
    -(FINISH_PROXIMITY as int) < d < FINISH_PROXIMITY as int
}

/// Whether the motion from `last` to `now` crossed the finish line's plane
/// from behind to ahead: the line-local X coordinate flips from negative to
/// nonnegative.
pub open spec fn sign_flip_s(path: Seq<Transform>, last: Vec3, now: Vec3) -> bool {
    to_local_s(finish_line_s(path), last).x < 0 && to_local_s(finish_line_s(path), now).x >= 0
}

/// A lap boundary crossing: the sign flip at the finish line, honored only
/// near the finish line's own curve index, so that cutting across the track
/// elsewhere on the loop cannot count as a lap.
pub open spec fn finish_crossed_s(path: Seq<Transform>, last: Vec3, now: Vec3) -> bool {
    near_finish_s(path, now) && sign_flip_s(path, last, now)
}

/// A lap is detected this tick: the finish line was crossed, and the
/// pre-race countdown has run its course — crossings during the countdown
/// do not count.
pub open spec fn lap_detected_s(s: ClientState, time: int, now: Vec3) -> bool {
    observe_s(s.countdown, time).match_started_s(time) && finish_crossed_s(
        s.path.ctrlps@,
        s.last_ship_pos.pos,
        now,
    )
}

/// Negative elapsed times count as zero.
pub open spec fn clamp0_s(e: int) -> int {
    if e < 0 {
        0
    } else {
        e
    }
}

/// Whole minutes of an elapsed time.
pub open spec fn lap_minutes_s(e: int) -> int {
    clamp0_s(e) / (60 * FX_ONE as int)
}

/// Whole seconds of an elapsed time beyond its minutes.
pub open spec fn lap_seconds_s(e: int) -> int {
    (clamp0_s(e) / (FX_ONE as int)) % 60
}

/// Fixed-point steps of an elapsed time beyond its seconds.
pub open spec fn lap_millis_s(e: int) -> int {
    clamp0_s(e) % (FX_ONE as int)
}

/// Split an elapsed race time into minutes, seconds and milliseconds. The
/// three parts recompose exactly to the elapsed time (clamped to zero).
pub fn split_lap_time(elapsed: i64) -> (r: (i64, i64, i64))
    ensures
        r.0 == lap_minutes_s(elapsed as int),
        r.1 == lap_seconds_s(elapsed as int),
        r.2 == lap_millis_s(elapsed as int),
        r.0 * 60000 + r.1 * 1000 + r.2 == clamp0_s(elapsed as int),
        0 <= r.1 < 60,
        0 <= r.2 < 1000,
        0 <= r.0,
{
    let e: u64 = if elapsed < 0 {
        0
    } else {
        elapsed as u64
    };
    let minutes = e / 60000;
    let seconds = (e / 1000) % 60;
    let millis = e % 1000;
    proof {
        let ei = e as int;
        lemma_div_denominator(ei, 1000, 60);
        lemma_fundamental_div_mod(ei, 1000);
        lemma_fundamental_div_mod(ei / 1000, 60);
        assert(60 * (ei / 60000) * 1000 == (ei / 60000) * 60000) by (nonlinear_arith);
    }
    (minutes as i64, seconds as i64, millis as i64)
}

/// The finish line transform of a track.
pub fn finish_line_pos(curve: &Curve) -> (r: Transform)
    requires
        curve.wf(),
    ensures
        r == finish_line_s(curve.ctrlps@),
        r.wf(),
{
    curve.lerp(FINISH_LINE_INDEX * FX_ONE)
}

/// One motion tick's outcome over the whole client state.
pub open spec fn motion_update_s(
    s: ClientState,
    delta: int,
    time: int,
    input: InputAbstraction,
    tf0: Transform,
    kt0: KinematicPhysics,
) -> (ClientState, Transform, KinematicPhysics, MotionEvents) {
    let cd = observe_s(s.countdown, time);
    let moving = mode_is_racing_s(s.mode) && cd.match_started_s(time);
    let (tf1, kt1) = if moving {
        ship_controller_s(delta, s.motion_cfg, input, s.path.ctrlps@, tf0, kt0)
    } else {
        (tf0, KinematicPhysics { vel: Vec3::zero_s(), ang_vel: Vec3::zero_s(), ..kt0 })
    };
    let upload = ShipUpload(tf1, kt1);
    let crossed = lap_detected_s(s, time, tf1.pos);
    let e = cd.elapsed_s(time);
    let (mode2, lap_message, finished) = match s.mode {
        GameMode::Racing { client_id, lap } => {
            if crossed {
                let lt = LapTime {
                    lap,
                    minutes: lap_minutes_s(e) as i64,
                    seconds: lap_seconds_s(e) as i64,
                    milliseconds: lap_millis_s(e) as i64,
                };
                if lap + 1 > N_LAPS {
                    (
                        GameMode::Spectator { watching: None, ready: false },
                        Some(lt),
                        Some(Finished(e as i64)),
                    )
                } else {
                    (
                        GameMode::Racing { client_id, lap: (lap + 1) as usize },
                        Some(lt),
                        None::<Finished>,
                    )
                }
            } else {
                (s.mode, None::<LapTime>, None::<Finished>)
            }
        },
        GameMode::Spectator { .. } => (s.mode, None::<LapTime>, None::<Finished>),
    };
    (
        ClientState { mode: mode2, countdown: cd, last_ship_pos: tf1, ..s },
        tf1,
        kt1,
        MotionEvents { upload, lap_message, finished },
    )
}

impl ClientState {
    /// The track and configuration are sound, and a racing lap count never
    /// passes the race's lap total.
    pub open spec fn wf(&self) -> bool {
        self.path.wf() && self.motion_cfg.wf() && self.last_ship_pos.wf() && (match self.mode {
            GameMode::Racing { lap, .. } => lap <= N_LAPS,
            GameMode::Spectator { .. } => true,
        })
    }

    /// A fresh client: spectating, not ready, parked at the origin.
    pub fn new(path: Curve, motion_cfg: ShipCharacteristics) -> (r: Self)
        requires
            path.wf(),
            motion_cfg.wf(),
        ensures
            r.mode == (GameMode::Spectator { watching: None, ready: false }),
            r.countdown == (Countdown { start_time: 0, needs_restart: false }),
            r.motion_cfg == motion_cfg,
            r.path.ctrlps@ == path.ctrlps@,
            r.last_ship_pos == Transform::identity_s(),
            r.wf(),
    {
        Self {
            mode: GameMode::Spectator { watching: None, ready: false },
            countdown: Countdown::new(),
            motion_cfg,
            path,
            last_ship_pos: Transform::identity(),
        }
    }

    /// A spectator's ready toggle: flip the flag and report the new state,
    /// to be sent to the server and announced. Mid-race, toggling does
    /// nothing.
    pub fn toggle_ready(&mut self) -> (r: Option<bool>)
        ensures
            match old(self).mode {
                GameMode::Spectator { watching, ready } => {
                    &&& final(self).mode == (GameMode::Spectator { watching, ready: !ready })
                    &&& r == Some(!ready)
                },
                GameMode::Racing { .. } => {
                    &&& final(self).mode == old(self).mode
                    &&& r == None::<bool>
                },
            },
            final(self).countdown == old(self).countdown,
            final(self).motion_cfg == old(self).motion_cfg,
            final(self).path == old(self).path,
            final(self).last_ship_pos == old(self).last_ship_pos,
            old(self).wf() ==> final(self).wf(),
    {
        match self.mode {
            GameMode::Spectator { watching, ready } => {
                self.mode = GameMode::Spectator { watching, ready: !ready };
                Some(!ready)
            },
            GameMode::Racing { .. } => None,
        }
    }

    /// A race start addressed to this client: enter racing mode with a fresh
    /// lap count, restart the countdown, and snap the ship to its assigned
    /// spawn placement.
    pub fn on_start_race(&mut self, msg: crate::StartRace, tf: &mut Transform)
        requires
            msg.position.wf(),
        ensures
            final(self).mode == (GameMode::Racing { client_id: msg.client_id, lap: 0 }),
            final(self).countdown == (Countdown { needs_restart: true, ..old(self).countdown }),
            *final(tf) == msg.position,
            final(self).last_ship_pos == msg.position,
            final(self).motion_cfg == old(self).motion_cfg,
            final(self).path == old(self).path,
            old(self).wf() ==> final(self).wf(),
    {
        self.mode = GameMode::Racing { client_id: msg.client_id, lap: 0 };
        self.countdown.restart();
        *tf = msg.position;
        self.last_ship_pos = msg.position;
    }

    /// Whether a replicated server ship should be hidden on this client:
    /// while racing, this client's own mirror and every non-racing ship.
    pub fn should_despawn(&self, comp: ServerShipComponent) -> (r: bool)
        ensures
            r == match self.mode {
                GameMode::Racing { client_id, .. } => comp.client_id == client_id
                    || !comp.is_racing,
                GameMode::Spectator { .. } => false,
            },
    {
        match self.mode {
            GameMode::Racing { client_id, .. } => comp.client_id == client_id || !comp.is_racing,
            GameMode::Spectator { .. } => false,
        }
    }

    /// One motion tick for the locally owned ship. While racing and once the
    /// countdown has elapsed, the flight controller moves the ship;
    /// otherwise its velocities are held at zero. Then the lap detector
    /// checks the finish line, and the resulting state is packaged for
    /// upload — every tick, racing or not. The lap count never decreases
    /// during a race and never passes the lap total; it steps up exactly on
    /// a detected crossing, and the crossing needs both the sign flip at the
    /// finish line and nearness to the finish line's curve index.
    #[verifier::rlimit(100)]
    pub fn motion_update(
        &mut self,
        delta: i64,
        time: i64,
        input: InputAbstraction,
        tf: &mut Transform,
        kt: &mut KinematicPhysics,
    ) -> (ev: MotionEvents)
        requires
            old(self).wf(),
            old(tf).wf(),
            old(kt).wf(),
        ensures
            (*final(self), *final(tf), *final(kt), ev) == motion_update_s(
                *old(self),
                delta as int,
                time as int,
                input,
                *old(tf),
                *old(kt),
            ),
            final(self).wf(),
            final(tf).wf(),
            final(kt).wf(),
            mode_is_racing_s(old(self).mode) && mode_is_racing_s(final(self).mode)
                ==> mode_racer_s(final(self).mode) == mode_racer_s(old(self).mode)
                && mode_lap_s(old(self).mode) <= mode_lap_s(final(self).mode) <= mode_lap_s(
                old(self).mode,
            ) + 1 && mode_lap_s(final(self).mode) <= N_LAPS as int,
            mode_is_racing_s(old(self).mode) && !lap_detected_s(
                *old(self),
                time as int,
                final(tf).pos,
            ) ==> final(self).mode == old(self).mode && ev.lap_message is None && ev.finished
                is None,
            mode_is_racing_s(old(self).mode) && lap_detected_s(
                *old(self),
                time as int,
                final(tf).pos,
            ) ==> ev.lap_message is Some && (mode_lap_s(final(self).mode) == mode_lap_s(
                old(self).mode,
            ) + 1 || ev.finished is Some),
            !mode_is_racing_s(old(self).mode) ==> final(self).mode == old(self).mode
                && ev.lap_message is None && ev.finished is None,
    {
        self.countdown.observe(time);
        let moving = match self.mode {
            GameMode::Racing { .. } => self.countdown.match_started(time),
            GameMode::Spectator { .. } => false,
        };
        if moving {
            ship_controller(delta, self.motion_cfg, input, &self.path, tf, kt);
        } else {
            kt.vel = Vec3::zero();
            kt.ang_vel = Vec3::zero();
        }
        let upload = ShipUpload(*tf, *kt);

        // Lap detection: a sign flip at the finish line, honored only near
        // the finish line's own curve index.
        let near = self.path.nearest_ctrlp(tf.pos);
        let d = (near as i64) - FINISH_LINE_INDEX;
        let fl = finish_line_pos(&self.path);
        let last_local = to_local(&fl, self.last_ship_pos.pos);
        let now_local = to_local(&fl, tf.pos);
        let crossed = self.countdown.match_started(time) && -FINISH_PROXIMITY < d && d
            < FINISH_PROXIMITY && last_local.x < 0 && now_local.x >= 0;

        let mut lap_message: Option<LapTime> = None;
        let mut finished: Option<Finished> = None;
        if crossed {
            if let GameMode::Racing { client_id, lap } = self.mode {
                let e = self.countdown.elapsed(time);
                let (minutes, seconds, milliseconds) = split_lap_time(e);
                lap_message = Some(LapTime { lap, minutes, seconds, milliseconds });
                if lap + 1 > N_LAPS {
                    finished = Some(Finished(e));
                    self.mode = GameMode::Spectator { watching: None, ready: false };
                } else {
                    self.mode = GameMode::Racing { client_id, lap: lap + 1 };
                }
            }
        }
        self.last_ship_pos = *tf;
        MotionEvents { upload, lap_message, finished }
    }
}

} // verus!
