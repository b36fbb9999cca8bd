//! The server-side race state machine.
//!
//! The server keeps one record per connected client: its identity, whether
//! it is racing, whether it is ready, and the last placement and kinematic
//! state that client reported. A connection monitor keeps the records in
//! step with the host's roster. Once every connected client is ready, the
//! race starts: each client is sent its own spawn placement, fanned out
//! laterally and mirrored in depth so no two ships spawn together. During
//! the race the server only relays each client's self-reported ship state —
//! it never computes physics for them. Finishes are ordered by reported
//! time, strictly earlier times winning, and a bounded reset window lets the
//! remaining racers finish before the next ready-up cycle.

use crate::fx::{fx_add, fx_add_s};
use crate::kinematics::KinematicPhysics;
use crate::math::{Quat, Transform, Vec3};
use crate::{Finished, ShipUpload, StartRace};
use vstd::prelude::*;

verus! {

/// How long every other racer may keep racing after the first finish.
pub const RESET_TIME: i64 = 50000;

/// How ships spawn apart from one another at a race start.
pub const SPAWN_STEP: i64 = 5000;

/// The server's record of one connected client's ship.
#[derive(Clone, Copy, PartialEq, Eq, Structural, Debug)]
pub struct ShipRecord {
    /// The owning client.
    pub client_id: u64,
    /// Whether that client is currently racing.
    pub is_racing: bool,
    /// Whether that client has signalled readiness for the next race.
    pub is_ready: bool,
    /// The last placement that client reported.
    pub tf: Transform,
    /// The last kinematic state that client reported.
    pub kt: KinematicPhysics,
}

/// All state of the server-side race logic.
pub struct ServerState {
    /// One record per connected client.
    pub ships: Vec<ShipRecord>,
    /// The leading finisher of the current race, and their time.
    pub winner: Option<(u64, i64)>,
    /// The server time after which the current race's bookkeeping clears.
    pub reset_countdown: i64,
}

/// Whether some record belongs to the given client.
pub open spec fn has_ship_s(ships: Seq<ShipRecord>, id: u64) -> bool {
    exists|i: int| 0 <= i < ships.len() && ships[i].client_id == id
}

/// The record a newly connected client starts with: parked and idle.
pub open spec fn fresh_ship_s(id: u64) -> ShipRecord {
    ShipRecord {
        client_id: id,
        is_racing: false,
        is_ready: false,
        tf: Transform::identity_s(),
        kt: KinematicPhysics {
            vel: Vec3::zero_s(),
            mass: crate::fx::FX_ONE,
            ang_vel: Vec3::zero_s(),
            moment: crate::fx::FX_ONE,
        },
    }
}

/// The first `n` records, kept in order, with the disconnected dropped.
pub open spec fn retain_upto_s(ships: Seq<ShipRecord>, roster: Seq<u64>, n: int) -> Seq<
    ShipRecord,
>
    decreases n,
{
    if n <= 0 {
        Seq::empty()
    } else {
        let prev = retain_upto_s(ships, roster, n - 1);
        if roster.contains(ships[n - 1].client_id) {
            prev.push(ships[n - 1])
        } else {
            prev
        }
    }
}

/// Fresh records for the first `n` roster entries that have none yet, in
/// roster order.
pub open spec fn added_upto_s(ships: Seq<ShipRecord>, roster: Seq<u64>, n: int) -> Seq<ShipRecord>
    decreases n,
{
    if n <= 0 {
        Seq::empty()
    } else {
        let prev = added_upto_s(ships, roster, n - 1);
        if has_ship_s(ships, roster[n - 1]) {
            prev
        } else {
            prev.push(fresh_ship_s(roster[n - 1]))
        }
    }
}

/// The records after a roster change: survivors in order, then newcomers in
/// roster order.
pub open spec fn conn_update_s(ships: Seq<ShipRecord>, roster: Seq<u64>) -> Seq<ShipRecord> {
    retain_upto_s(ships, roster, ships.len() as int) + added_upto_s(
        ships,
        roster,
        roster.len() as int,
    )
}

/// The records after one ready message: the sender's ready flag is set.
pub open spec fn set_ready_s(ships: Seq<ShipRecord>, id: u64, ready: bool) -> Seq<ShipRecord> {
    ships.map_values(
        |r: ShipRecord|
            if r.client_id == id {
                ShipRecord { is_ready: ready, ..r }
            } else {
                r
            },
    )
}

/// The records after a batch of ready messages, applied in arrival order:
/// for one sender, the last message wins.
pub open spec fn apply_ready_s(ships: Seq<ShipRecord>, msgs: Seq<(u64, bool)>) -> Seq<ShipRecord>
    decreases msgs.len(),
{
    if msgs.len() == 0 {
        ships
    } else {
        set_ready_s(apply_ready_s(ships, msgs.drop_last()), msgs.last().0, msgs.last().1)
    }
}

/// Every record is ready.
pub open spec fn all_ready_s(ships: Seq<ShipRecord>) -> bool {
    forall|i: int| 0 <= i < ships.len() ==> ships[i].is_ready
}

/// At least one record is ready.
pub open spec fn any_ready_s(ships: Seq<ShipRecord>) -> bool {
    exists|i: int| 0 <= i < ships.len() && ships[i].is_ready
}

/// At least one record is still racing.
pub open spec fn any_racing_s(ships: Seq<ShipRecord>) -> bool {
    exists|i: int| 0 <= i < ships.len() && ships[i].is_racing
}

/// The spawn placement of the `i`-th record at a race start: stepped
/// laterally per index and mirrored in depth, so all spawns are distinct.
pub open spec fn spawn_tf_s(i: int) -> Transform {
    Transform {
        pos: Vec3 {
            x: (-SPAWN_STEP as int * i) as i64,
            y: 0,
            z: if i % 2 == 0 {
                (-SPAWN_STEP as int) as i64
            } else {
                SPAWN_STEP
            },
        },
        orient: Quat::identity_s(),
    }
}

/// The start messages of a race start: each record's client, with its own
/// spawn placement.
pub open spec fn start_msgs_s(ships: Seq<ShipRecord>) -> Seq<StartRace> {
    Seq::new(
        ships.len(),
        |i: int| StartRace { client_id: ships[i].client_id, position: spawn_tf_s(i) },
    )
}

/// All records as a race start leaves them: racing, readiness spent.
pub open spec fn start_all_s(ships: Seq<ShipRecord>) -> Seq<ShipRecord> {
    ships.map_values(|r: ShipRecord| ShipRecord { is_ready: false, is_racing: true, ..r })
}

/// The records and start messages after one batch of ready messages: if
/// afterwards every connected record is ready and at least one exists, the
/// race starts.
pub open spec fn client_state_update_s(ships: Seq<ShipRecord>, msgs: Seq<(u64, bool)>) -> (
    Seq<ShipRecord>,
    Seq<StartRace>,
) {
    let s1 = apply_ready_s(ships, msgs);
    if any_ready_s(s1) && all_ready_s(s1) {
        (start_all_s(s1), start_msgs_s(s1))
    } else {
        (s1, Seq::empty())
    }
}

/// The newest upload a client sent this tick, if any.
pub open spec fn last_upload_s(ups: Seq<(u64, ShipUpload)>, id: u64) -> Option<ShipUpload>
    decreases ups.len(),
{
    if ups.len() == 0 {
        None
    } else if ups.last().0 == id {
        Some(ups.last().1)
    } else {
        last_upload_s(ups.drop_last(), id)
    }
}

/// The records after the relay: each takes its own client's newest reported
/// placement and kinematic state, or keeps the previous one. No prediction
/// is performed: the server trusts and stores what clients report.
pub open spec fn ship_update_s(ships: Seq<ShipRecord>, ups: Seq<(u64, ShipUpload)>) -> Seq<
    ShipRecord,
> {
    Seq::new(
        ships.len(),
        |i: int|
            match last_upload_s(ups, ships[i].client_id) {
                Some(u) => ShipRecord { tf: u.0, kt: u.1, ..ships[i] },
                None => ships[i],
            },
    )
}

/// The records after one finish report: the sender stops racing. A report
/// from a client that is not racing is an idempotent no-op.
pub open spec fn mark_finished_s(ships: Seq<ShipRecord>, id: u64) -> Seq<ShipRecord> {
    ships.map_values(
        |r: ShipRecord|
            if r.client_id == id {
                ShipRecord { is_racing: false, ..r }
            } else {
                r
            },
    )
}

/// One finish report folded into the race bookkeeping: the sender stops
/// racing, and it becomes the winner exactly when no winner is recorded yet
/// or its time is strictly earlier — on equal times the earlier-recorded
/// winner stays. A new winner resets the reset window.
pub open spec fn finish_step_s(
    ships: Seq<ShipRecord>,
    winner: Option<(u64, i64)>,
    reset: int,
    server_time: int,
    msg: (u64, Finished),
) -> (Seq<ShipRecord>, Option<(u64, i64)>, int) {
    let ships2 = mark_finished_s(ships, msg.0);
    let ft = msg.1.0;
    match winner {
        Some((_w, wt)) => {
            if (ft as int) < wt as int {
                (ships2, Some((msg.0, ft)), fx_add_s(server_time, RESET_TIME as int))
            } else {
                (ships2, winner, reset)
            }
        },
        None => (ships2, Some((msg.0, ft)), fx_add_s(server_time, RESET_TIME as int)),
    }
}

/// A batch of finish reports folded in arrival order.
pub open spec fn finish_fold_s(
    ships: Seq<ShipRecord>,
    winner: Option<(u64, i64)>,
    reset: int,
    server_time: int,
    msgs: Seq<(u64, Finished)>,
) -> (Seq<ShipRecord>, Option<(u64, i64)>, int)
    decreases msgs.len(),
{
    if msgs.len() == 0 {
        (ships, winner, reset)
    } else {
        let prev = finish_fold_s(ships, winner, reset, server_time, msgs.drop_last());
        finish_step_s(prev.0, prev.1, prev.2, server_time, msgs.last())
    }
}

/// The whole finish-and-reset pass: fold the reports, then clear the winner
/// record once the reset window has passed or nobody is racing any more,
/// which frees the server for the next ready-up cycle.
pub open spec fn win_reset_s(
    ships: Seq<ShipRecord>,
    winner: Option<(u64, i64)>,
    reset: int,
    server_time: int,
    msgs: Seq<(u64, Finished)>,
) -> (Seq<ShipRecord>, Option<(u64, i64)>, int) {
    let folded = finish_fold_s(ships, winner, reset, server_time, msgs);
    let clear = folded.1 is Some && (server_time > folded.2 || !any_racing_s(folded.0));
    (folded.0, if clear { None } else { folded.1 }, folded.2)
}

/// A race start hands out one message per record, and no two of them share
/// a spawn placement: the lateral offset strictly separates them.
pub proof fn lemma_start_spawns_distinct(ships: Seq<ShipRecord>)
    requires
        ships.len() <= 1000000,
    ensures
        start_msgs_s(ships).len() == ships.len(),
        forall|i: int, j: int|
            0 <= i < j < ships.len() ==> #[trigger] start_msgs_s(ships)[i].position
                != #[trigger] start_msgs_s(ships)[j].position,
{
    assert forall|i: int, j: int| 0 <= i < j < ships.len() implies #[trigger] start_msgs_s(
        ships,
    )[i].position != #[trigger] start_msgs_s(ships)[j].position by {
        assert(-(SPAWN_STEP as int) * i != -(SPAWN_STEP as int) * j) by (nonlinear_arith)
            requires
                SPAWN_STEP as int == 5000,
                i != j;
        assert(-5000000000000 <= -(SPAWN_STEP as int) * i <= 0 && -5000000000000 <= -(
        SPAWN_STEP as int) * j <= 0) by (nonlinear_arith)
            requires
                SPAWN_STEP as int == 5000,
                0 <= i <= 1000000,
                0 <= j <= 1000000;
        assert(spawn_tf_s(i).pos.x != spawn_tf_s(j).pos.x);
    }
}

/// A recorded winner's time, or a time past every representable finish for
/// no winner at all.
pub open spec fn winner_time_s(w: Option<(u64, i64)>) -> int {
    match w {
        Some(p) => p.1 as int,
        None => i64::MAX as int + 1,
    }
}

/// The earliest finish time wins: after folding a batch of finish reports,
/// the recorded winner's time is no later than the previously recorded
/// winner's and no later than any reported time.
pub proof fn lemma_winner_time_minimal(
    ships: Seq<ShipRecord>,
    winner: Option<(u64, i64)>,
    reset: int,
    server_time: int,
    msgs: Seq<(u64, Finished)>,
)
    ensures
        winner_time_s(finish_fold_s(ships, winner, reset, server_time, msgs).1) <= winner_time_s(
            winner,
        ),
        forall|k: int|
            0 <= k < msgs.len() ==> winner_time_s(
                finish_fold_s(ships, winner, reset, server_time, msgs).1,
            ) <= (#[trigger] msgs[k]).1.0,
    decreases msgs.len(),
{
    if msgs.len() > 0 {
        lemma_winner_time_minimal(ships, winner, reset, server_time, msgs.drop_last());
        let prev = finish_fold_s(ships, winner, reset, server_time, msgs.drop_last());
        let stepped = finish_step_s(prev.0, prev.1, prev.2, server_time, msgs.last());
        assert(winner_time_s(stepped.1) <= winner_time_s(prev.1));
        assert(winner_time_s(stepped.1) <= msgs.last().1.0);
        assert(forall|k: int| 0 <= k < msgs.len() - 1 ==> (#[trigger] msgs[k])
            == msgs.drop_last()[k]);
    }
}

/// Once a winner is recorded and either the reset deadline has passed or no
/// record is still racing, the finish-and-reset pass clears the winner,
/// freeing the server for a new ready-up cycle.
pub proof fn lemma_reset_clears(
    ships: Seq<ShipRecord>,
    winner: Option<(u64, i64)>,
    reset: int,
    server_time: int,
    msgs: Seq<(u64, Finished)>,
)
    requires
        ({
            let folded = finish_fold_s(ships, winner, reset, server_time, msgs);
            folded.1 is Some && (server_time > folded.2 || !any_racing_s(folded.0))
        }),
    ensures
        win_reset_s(ships, winner, reset, server_time, msgs).1 is None,
{
}

/// Whether a roster names the given client.
fn roster_contains(roster: &Vec<u64>, id: u64) -> (r: bool)
    ensures
        r == roster@.contains(id),
{
    let mut i: usize = 0;
    while i < roster.len()
        invariant
            0 <= i <= roster@.len(),
            forall|j: int| 0 <= j < i ==> roster@[j] != id,
        decreases roster@.len() - i,
    {
        if roster[i] == id {
            return true;
        }
        i = i + 1;
    }
    false
}

/// Whether some record belongs to the given client.
fn ships_contain(ships: &Vec<ShipRecord>, id: u64) -> (r: bool)
    ensures
        r == has_ship_s(ships@, id),
{
    let mut i: usize = 0;
    while i < ships.len()
        invariant
            0 <= i <= ships@.len(),
            forall|j: int| 0 <= j < i ==> ships@[j].client_id != id,
        decreases ships@.len() - i,
    {
        if ships[i].client_id == id {
            return true;
        }
        i = i + 1;
    }
    false
}

impl ServerState {
    /// Few enough records that spawn placements stay representable.
    pub open spec fn wf(&self) -> bool {
        self.ships@.len() <= 1000000
    }

    /// A fresh server: no records, no winner.
    pub fn new() -> (r: Self)
        ensures
            r.ships@ == Seq::<ShipRecord>::empty(),
            r.winner is None,
            r.reset_countdown == 0,
            r.wf(),
    {
        Self { ships: Vec::new(), winner: None, reset_countdown: 0 }
    }

    /// Bring the records in step with the connection roster: drop records of
    /// vanished clients, add a fresh record per new client. Runs before the
    /// gameplay systems each tick, so they never see a stale roster.
    pub fn conn_update(&mut self, roster: &Vec<u64>)
        requires
            old(self).ships@.len() + roster@.len() <= 1000000,
        ensures
            final(self).ships@ == conn_update_s(old(self).ships@, roster@),
            final(self).winner == old(self).winner,
            final(self).reset_countdown == old(self).reset_countdown,
            final(self).wf(),
    {
        let ghost orig = self.ships@;
        let mut out: Vec<ShipRecord> = Vec::new();
        let mut i: usize = 0;
        while i < self.ships.len()
            invariant
                0 <= i <= self.ships@.len(),
                self.ships@ == orig,
                out@ == retain_upto_s(orig, roster@, i as int),
                out@.len() <= i,
            decreases self.ships@.len() - i,
        {
            if roster_contains(roster, self.ships[i].client_id) {
                let rec = self.ships[i];
                out.push(rec);
            }
            i = i + 1;
        }
        let ghost retained = out@;
        let mut k: usize = 0;
        while k < roster.len()
            invariant
                0 <= k <= roster@.len(),
                self.ships@ == orig,
                out@ == retained + added_upto_s(orig, roster@, k as int),
                retained == retain_upto_s(orig, roster@, orig.len() as int),
                out@.len() <= retained.len() + k,
            decreases roster@.len() - k,
        {
            proof {
                assert(retained + added_upto_s(orig, roster@, k as int) =~= out@);
            }
            if !ships_contain(&self.ships, roster[k]) {
                out.push(
                    ShipRecord {
                        client_id: roster[k],
                        is_racing: false,
                        is_ready: false,
                        tf: Transform::identity(),
                        kt: KinematicPhysics {
                            vel: Vec3::zero(),
                            mass: crate::fx::FX_ONE,
                            ang_vel: Vec3::zero(),
                            moment: crate::fx::FX_ONE,
                        },
                    },
                );
            }
            k = k + 1;
            proof {
                assert(out@ =~= retained + added_upto_s(orig, roster@, k as int));
            }
        }
        self.ships = out;
    }

    /// Apply this tick's ready messages in arrival order, then start the
    /// race if every connected record is ready and at least one exists: each
    /// record's client is sent its own distinct spawn placement, and every
    /// record becomes racing with its readiness spent. Readiness cannot
    /// retrigger mid-race, since a start spends all ready flags.
    pub fn client_state_update(&mut self, msgs: &Vec<(u64, bool)>) -> (starts: Vec<StartRace>)
        requires
            old(self).wf(),
        ensures
            (final(self).ships@, starts@) == client_state_update_s(old(self).ships@, msgs@),
            final(self).winner == old(self).winner,
            final(self).reset_countdown == old(self).reset_countdown,
            final(self).wf(),
    {
        let ghost orig = self.ships@;
        let mut m: usize = 0;
        while m < msgs.len()
            invariant
                0 <= m <= msgs@.len(),
                self.ships@ == apply_ready_s(orig, msgs@.take(m as int)),
                self.ships@.len() == orig.len(),
                self.winner == old(self).winner,
                self.reset_countdown == old(self).reset_countdown,
            decreases msgs@.len() - m,
        {
            let (id, ready) = msgs[m];
            let ghost pre = self.ships@;
            let mut j: usize = 0;
            while j < self.ships.len()
                invariant
                    0 <= j <= self.ships@.len(),
                    self.ships@.len() == pre.len(),
                    forall|l: int| 0 <= l < j ==> self.ships@[l] == set_ready_s(pre, id, ready)[l],
                    forall|l: int| j <= l < pre.len() ==> self.ships@[l] == pre[l],
                    self.winner == old(self).winner,
                    self.reset_countdown == old(self).reset_countdown,
                decreases self.ships@.len() - j,
            {
                if self.ships[j].client_id == id {
                    let mut rec = self.ships[j];
                    rec.is_ready = ready;
                    self.ships.set(j, rec);
                }
                j = j + 1;
            }
            proof {
                assert(self.ships@ =~= set_ready_s(pre, id, ready));
                assert(msgs@.take(m as int + 1).drop_last() =~= msgs@.take(m as int));
                assert(msgs@.take(m as int + 1).last() == msgs@[m as int]);
            }
            m = m + 1;
        }
        proof {
            assert(msgs@.take(msgs@.len() as int) =~= msgs@);
        }
        let ghost s1 = self.ships@;

        // Are all connected records ready, and is anyone there at all?
        let mut all_ready = true;
        let mut any_ready = false;
        let mut j: usize = 0;
        while j < self.ships.len()
            invariant
                0 <= j <= self.ships@.len(),
                self.ships@ == s1,
                all_ready == (forall|l: int| 0 <= l < j ==> s1[l].is_ready),
                any_ready == (exists|l: int| 0 <= l < j && s1[l].is_ready),
            decreases self.ships@.len() - j,
        {
            let r = self.ships[j].is_ready;
            all_ready = all_ready && r;
            any_ready = any_ready || r;
            j = j + 1;
        }

        let mut starts: Vec<StartRace> = Vec::new();
        if any_ready && all_ready {
            // Start the race: fan the spawns out.
            let mut px: i64 = 0;
            let mut pz: i64 = -SPAWN_STEP;
            let mut i: usize = 0;
            while i < self.ships.len()
                invariant
                    0 <= i <= self.ships@.len(),
                    self.ships@.len() == s1.len(),
                    s1.len() <= 1000000,
                    px as int == -SPAWN_STEP as int * i as int,
                    pz as int == (if i as int % 2 == 0 {
                        -SPAWN_STEP as int
                    } else {
                        SPAWN_STEP as int
                    }),
                    starts@ == start_msgs_s(s1).take(i as int),
                    forall|l: int| 0 <= l < i ==> self.ships@[l] == start_all_s(s1)[l],
                    forall|l: int| i <= l < s1.len() ==> self.ships@[l] == s1[l],
                    self.winner == old(self).winner,
                    self.reset_countdown == old(self).reset_countdown,
                decreases self.ships@.len() - i,
            {
                let mut rec = self.ships[i];
                starts.push(
                    StartRace {
                        client_id: rec.client_id,
                        position: Transform {
                            pos: Vec3 { x: px, y: 0, z: pz },
                            orient: Quat::identity(),
                        },
                    },
                );
                rec.is_ready = false;
                rec.is_racing = true;
                self.ships.set(i, rec);
                proof {
                    assert(px as int - SPAWN_STEP as int == -(SPAWN_STEP as int) * (i as int + 1)
                        && px as int - SPAWN_STEP as int >= -5000000000000int)
                        by (nonlinear_arith)
                        requires
                            px as int == -(SPAWN_STEP as int) * (i as int),
                            SPAWN_STEP as int == 5000,
                            0 <= (i as int) < 1000000;
                }
                px = px - SPAWN_STEP;
                pz = -pz;
                proof {
                    vstd::arithmetic::div_mod::lemma_add_mod_noop(i as int, 1, 2);
                    vstd::arithmetic::div_mod::lemma_small_mod(1nat, 2nat);
                    vstd::arithmetic::div_mod::lemma_mod_self_0(2);
                    vstd::arithmetic::div_mod::lemma_mod_bound(i as int, 2);
                    assert(starts@ =~= start_msgs_s(s1).take(i as int + 1));
                }
                i = i + 1;
            }
            proof {
                assert(starts@ =~= start_msgs_s(s1));
                assert(self.ships@ =~= start_all_s(s1));
            }
        }
        starts
    }

    /// Relay this tick's uploads: each record takes its own client's newest
    /// reported placement and kinematic state; a record whose client sent
    /// nothing keeps its previous value.
    pub fn ship_update(&mut self, ups: &Vec<(u64, ShipUpload)>)
        ensures
            final(self).ships@ == ship_update_s(old(self).ships@, ups@),
            final(self).winner == old(self).winner,
            final(self).reset_countdown == old(self).reset_countdown,
            old(self).wf() ==> final(self).wf(),
    {
        let ghost orig = self.ships@;
        let mut i: usize = 0;
        while i < self.ships.len()
            invariant
                0 <= i <= self.ships@.len(),
                self.ships@.len() == orig.len(),
                forall|l: int| 0 <= l < i ==> self.ships@[l] == ship_update_s(orig, ups@)[l],
                forall|l: int| i <= l < orig.len() ==> self.ships@[l] == orig[l],
                self.winner == old(self).winner,
                self.reset_countdown == old(self).reset_countdown,
            decreases self.ships@.len() - i,
        {
            let id = self.ships[i].client_id;
            let mut found: Option<ShipUpload> = None;
            let mut j: usize = 0;
            while j < ups.len()
                invariant
                    0 <= j <= ups@.len(),
                    found == last_upload_s(ups@.take(j as int), id),
                decreases ups@.len() - j,
            {
                proof {
                    assert(ups@.take(j as int + 1).drop_last() =~= ups@.take(j as int));
                    assert(ups@.take(j as int + 1).last() == ups@[j as int]);
                }
                if ups[j].0 == id {
                    found = Some(ups[j].1);
                }
                j = j + 1;
            }
            proof {
                assert(ups@.take(ups@.len() as int) =~= ups@);
            }
            if let Some(u) = found {
                let mut rec = self.ships[i];
                rec.tf = u.0;
                rec.kt = u.1;
                self.ships.set(i, rec);
            }
            i = i + 1;
        }
        proof {
            assert(self.ships@ =~= ship_update_s(orig, ups@));
        }
    }

    /// Fold this tick's finish reports into the race bookkeeping, in arrival
    /// order: each reporting client stops racing, and becomes the recorded
    /// winner exactly when no winner exists yet or its time is strictly
    /// earlier (ties keep the earlier-recorded winner), pushing the reset
    /// deadline out by the reset window. Then, if a winner is recorded and
    /// the deadline has passed — or nobody is racing any more — the winner
    /// record clears, and the server awaits the next ready-up cycle. A
    /// recorded winner may name a client that has since disconnected; the
    /// clearing works the same.
    pub fn win_reset(&mut self, server_time: i64, msgs: &Vec<(u64, Finished)>)
        ensures
            final(self).ships@ == win_reset_s(
                old(self).ships@,
                old(self).winner,
                old(self).reset_countdown as int,
                server_time as int,
                msgs@,
            ).0,
            final(self).winner == win_reset_s(
                old(self).ships@,
                old(self).winner,
                old(self).reset_countdown as int,
                server_time as int,
                msgs@,
            ).1,
            final(self).reset_countdown as int == win_reset_s(
                old(self).ships@,
                old(self).winner,
                old(self).reset_countdown as int,
                server_time as int,
                msgs@,
            ).2,
            old(self).wf() ==> final(self).wf(),
    {
        let ghost orig = self.ships@;
        let ghost worig = self.winner;
        let ghost rorig = self.reset_countdown as int;
        let mut m: usize = 0;
        while m < msgs.len()
            invariant
                0 <= m <= msgs@.len(),
                self.ships@.len() == orig.len(),
                (self.ships@, self.winner, self.reset_countdown as int) == finish_fold_s(
                    orig,
                    worig,
                    rorig,
                    server_time as int,
                    msgs@.take(m as int),
                ),
            decreases msgs@.len() - m,
        {
            let (id, f) = msgs[m];
            let ghost pre = self.ships@;
            let ghost wcur = self.winner;
            let ghost rcur = self.reset_countdown;
            let mut j: usize = 0;
            while j < self.ships.len()
                invariant
                    0 <= j <= self.ships@.len(),
                    self.ships@.len() == pre.len(),
                    forall|l: int|
                        0 <= l < j ==> self.ships@[l] == mark_finished_s(pre, id)[l],
                    forall|l: int| j <= l < pre.len() ==> self.ships@[l] == pre[l],
                    self.winner == wcur,
                    self.reset_countdown == rcur,
                decreases self.ships@.len() - j,
            {
                if self.ships[j].client_id == id {
                    let mut rec = self.ships[j];
                    rec.is_racing = false;
                    self.ships.set(j, rec);
                }
                j = j + 1;
            }
            proof {
                assert(self.ships@ =~= mark_finished_s(pre, id));
            }
            let replace = match self.winner {
                None => true,
                Some((_w, wt)) => f.0 < wt,
            };
            if replace {
                self.winner = Some((id, f.0));
                self.reset_countdown = fx_add(server_time, RESET_TIME);
            }
            proof {
                assert(msgs@.take(m as int + 1).drop_last() =~= msgs@.take(m as int));
                assert(msgs@.take(m as int + 1).last() == msgs@[m as int]);
            }
            m = m + 1;
        }
        proof {
            assert(msgs@.take(msgs@.len() as int) =~= msgs@);
        }

        // Is anybody still racing?
        let ghost folded = self.ships@;
        let mut anybody_racing = false;
        let mut j: usize = 0;
        while j < self.ships.len()
            invariant
                0 <= j <= self.ships@.len(),
                self.ships@ == folded,
                anybody_racing == (exists|l: int| 0 <= l < j && folded[l].is_racing),
            decreases self.ships@.len() - j,
        {
            anybody_racing = anybody_racing || self.ships[j].is_racing;
            j = j + 1;
        }

        // Clear the race once the window passed or everyone stopped.
        let awaiting_losers = server_time > self.reset_countdown;
        if self.winner.is_some() && (awaiting_losers || !anybody_racing) {
            self.winner = None;
        }
    }
}

} // verus!
