//! Core of a multiplayer anti-gravity racing simulation.
//!
//! Ships fly along a closed, oriented 3D track. Each client steers its own
//! ship with an analog input vector; a server aggregates ready signals,
//! starts races, relays self-reported ship states, and tracks the finish
//! order. All geometry and physics is carried out in signed fixed-point
//! arithmetic (see [`fx`]) so that every step of the simulation is an exact,
//! machine-checkable function of its inputs.
//!
//! Clients are authoritative over their own ship's motion: the server only
//! stores and forwards each client's self-reported transform and kinematic
//! state. This is a deliberate trade-off of latency hiding over cheat
//! resistance.

use vstd::prelude::*;

pub mod client;
pub mod controls;
pub mod countdown;
pub mod curve;
pub mod fx;
pub mod kinematics;
pub mod math;
pub mod server;

verus! {

/// Clients own their ship's motion; this message carries the position and
/// kinematic state of a client's ship to the server, every tick.
#[derive(Clone, Copy, PartialEq, Eq, Structural, Debug)]
pub struct ShipUpload(pub math::Transform, pub kinematics::KinematicPhysics);

/// Tells the server that a client is ready, or no longer ready, to race.
#[derive(Clone, Copy, PartialEq, Eq, Structural, Debug)]
pub struct ClientReady(pub bool);

/// A client finished the race, in the given time.
#[derive(Clone, Copy, PartialEq, Eq, Structural, Debug)]
pub struct Finished(pub i64);

/// Tells one client that the race starts, where to spawn, and under which
/// client identity it races.
#[derive(Clone, Copy, PartialEq, Eq, Structural, Debug)]
pub struct StartRace {
    /// The addressed client.
    pub client_id: u64,
    /// The spawn placement assigned to that client.
    pub position: math::Transform,
}

/// The server-side record of one connected client's ship.
#[derive(Clone, Copy, PartialEq, Eq, Structural, Debug)]
pub struct ServerShipComponent {
    /// The owning client.
    pub client_id: u64,
    /// Whether that client is currently racing.
    pub is_racing: bool,
    /// Whether that client has signalled readiness for the next race.
    pub is_ready: bool,
}

/// Immutable per-design configuration of a ship.
#[derive(Clone, Copy, PartialEq, Eq, Structural, Debug)]
pub struct ShipCharacteristics {
    /// Mass of the ship.
    pub mass: i64,
    /// Ship's moment of inertia.
    pub moment: i64,
    /// Maximum angular impulse power.
    pub max_twirl: i64,
    /// Maximum thrust.
    pub max_impulse: i64,
}

impl ShipCharacteristics {
    /// Positive, representable mass and moment; nonnegative limits.
    pub open spec fn wf(self) -> bool {
        0 < self.mass <= fx::FX_LIM && 0 < self.moment <= fx::FX_LIM && 0 <= self.max_twirl
            <= fx::FX_LIM && 0 <= self.max_impulse <= fx::FX_LIM
    }
}

/// The abstract input vector for one tick, each axis a fixed-point value in
/// about `[-1, 1]`. It is recomputed fresh every tick from raw device state
/// and never persisted across ticks.
#[derive(Clone, Copy, PartialEq, Eq, Structural, Debug, Default)]
pub struct InputAbstraction {
    /// Desired pitching power.
    pub pitch: i64,
    /// Desired yaw power.
    pub yaw: i64,
    /// Desired roll power.
    pub roll: i64,
    /// Desired thrust.
    pub throttle: i64,
}

} // verus!
