use vstd::prelude::*;
use crate::geometry::{BlockFace, BlockPos, Direction};
use crate::player::{ClientPacket, Notice, Player};

verus! {

/// An event for the server above the plots.
#[derive(Debug)]
pub enum BusMessage {
    /// Chat to relay to every plot.
    Chat { uuid: u128, username: String, message: String },
    /// Stop the whole server.
    Shutdown,
    /// The player left this plot and asks to join the named player.
    TeleportToPlayer { player: Player, target: String },
}

/// A bulk operation for the region-editing engine.
#[derive(Debug)]
pub enum RegionOp {
    Fill(String),
    Replace(String, String),
    Copy,
    Paste,
    Count(String),
    Load(String),
}

/// Work on the world that the plot's collaborators carry out.
#[derive(Debug)]
pub enum WorldAction {
    /// Run the "use on block" behaviour of the item in inventory slot `slot`.
    UseItemOnBlock {
        player: usize,
        slot: usize,
        face: BlockFace,
        pos: BlockPos,
        crouching: bool,
        facing: Direction,
    },
    /// Run the default "use" behaviour of the block at `pos`.
    UseBlock { pos: BlockPos },
    /// Send every player the world's true block at `pos`.
    ResendBlock { pos: BlockPos },
    /// Destroy the block at `pos`, then report it with `announce_block_break`.
    DestroyBlock { player: usize, pos: BlockPos },
    /// Run a region operation, then report failure with `report_invalid_block`.
    RegionEdit { player: usize, op: RegionOp },
    /// Run `ticks` ticks back to back, then report with `report_advanced`.
    AdvanceTicks { player: usize, ticks: u32 },
}

/// One plot: its players, its tick-rate controller and what it hands outward.
#[derive(Debug)]
pub struct Plot {
    pub x: i32,
    pub z: i32,
    pub players: Vec<Player>,
    /// Target ticks per second; 0 runs at the fallback delay.
    pub tps: u32,
    /// Delay between ticks, in microseconds.
    pub sleep_micros: u64,
    /// Accumulated lag, in microseconds.
    pub lag_micros: u64,
    /// Events for the server, oldest first.
    pub bus: Vec<BusMessage>,
    /// World work still to be done, oldest first.
    pub world_actions: Vec<WorldAction>,
}

/// `b` is `a` with `pkts` appended to its outbox and nothing else changed.
pub open spec fn received(a: Player, b: Player, pkts: Seq<ClientPacket>) -> bool {
    &&& b == (Player { outbox: b.outbox, ..a })
    &&& b.outbox@ == a.outbox@ + pkts
}

/// Every player but the one at `from` received `pkts`; that one is unchanged.
pub open spec fn fanned_out(
    before: Seq<Player>,
    after: Seq<Player>,
    from: int,
    pkts: Seq<ClientPacket>,
) -> bool {
    &&& after.len() == before.len()
    &&& after[from] == before[from]
    &&& forall|i: int|
        0 <= i < before.len() && i != from ==> received(#[trigger] before[i], after[i], pkts)
}

/// Like `fanned_out`, after the player at `from` changed from `before[from]`
/// to `acting`.
pub open spec fn updated_and_fanned_out(
    before: Seq<Player>,
    after: Seq<Player>,
    from: int,
    acting: Player,
    pkts: Seq<ClientPacket>,
) -> bool {
    fanned_out(before.update(from, acting), after, from, pkts)
}

/// The player at `player` was told `n`, and nothing else changed.
pub open spec fn notified(before: Seq<Player>, after: Seq<Player>, player: int, n: Notice) -> bool {
    &&& after == before.update(player, Player { outbox: after[player].outbox, ..before[player] })
    &&& after[player].outbox@ == before[player].outbox@.push(ClientPacket::System(n))
}

/// Every player is well formed and no identity appears twice.
pub open spec fn players_wf(ps: Seq<Player>) -> bool {
    &&& forall|i: int| 0 <= i < ps.len() ==> #[trigger] ps[i].wf()
    &&& forall|i: int, j: int|
        0 <= i < ps.len() && 0 <= j < ps.len() && i != j ==> #[trigger] ps[i].uuid
            != #[trigger] ps[j].uuid
}

/// Replacing a player by a well-formed one (or one with the same inventory
/// and hand) of the same identity keeps the list well formed.
pub proof fn lemma_update_keeps_wf(ps: Seq<Player>, i: int, p: Player)
    requires
        players_wf(ps),
        0 <= i < ps.len(),
        p.wf() || (p.inventory@ == ps[i].inventory@ && p.selected_slot == ps[i].selected_slot),
        p.uuid == ps[i].uuid,
    ensures
        players_wf(ps.update(i, p)),
{
    assert(ps[i].wf());
    let qs = ps.update(i, p);
    assert forall|a: int, b: int|
        0 <= a < qs.len() && 0 <= b < qs.len() && a != b implies #[trigger] qs[a].uuid
        != #[trigger] qs[b].uuid by {
        assert(ps[a].uuid != ps[b].uuid);
    }
}

impl Plot {
    pub open spec fn wf(&self) -> bool {
        players_wf(self.players@)
    }

    /// An empty plot at grid coordinates (`x`, `z`), ticking ten times a second.
    pub fn new(x: i32, z: i32) -> (r: Plot)
        ensures
            r.wf(),
            r.x == x,
            r.z == z,
            r.players@.len() == 0,
            r.tps == 10,
            r.sleep_micros == 100_000,
            r.lag_micros == 0,
            r.bus@.len() == 0,
            r.world_actions@.len() == 0,
    {
        Plot {
            x,
            z,
            players: Vec::new(),
            tps: 10,
            sleep_micros: 100_000,
            lag_micros: 0,
            bus: Vec::new(),
            world_actions: Vec::new(),
        }
    }

    /// Whether a player with this identity is connected here.
    pub fn has_player(&self, uuid: u128) -> (r: bool)
        ensures
            r <==> exists|i: int| 0 <= i < self.players@.len() && self.players@[i].uuid == uuid,
    {
        let mut i: usize = 0;
        while i < self.players.len()
            invariant
                i <= self.players@.len(),
                forall|j: int| 0 <= j < i ==> self.players@[j].uuid != uuid,
            decreases self.players@.len() - i,
        {
            if self.players[i].uuid == uuid {
                return true;
            }
            i += 1;
        }
        false
    }

    /// Connects `p`, unless a player with its identity is already here; the
    /// player is handed back in that case.
    pub fn add_player(&mut self, p: Player) -> (r: Option<Player>)
        requires
            old(self).wf(),
            p.wf(),
        ensures
            final(self).wf(),
            (exists|i: int|
                0 <= i < old(self).players@.len() && old(self).players@[i].uuid == p.uuid) ==> {
                &&& r == Some(p)
                &&& *final(self) == *old(self)
            },
            (forall|i: int|
                0 <= i < old(self).players@.len() ==> old(self).players@[i].uuid != p.uuid) ==> {
                &&& r is None
                &&& final(self).players@ == old(self).players@.push(p)
                &&& *final(self) == (Plot { players: final(self).players, ..*old(self) })
            },
    {
        if self.has_player(p.uuid) {
            return Some(p);
        }
        self.players.push(p);
        None
    }

    /// Disconnects the player at `player` and hands it back; later players
    /// move down one place.
    pub fn leave_plot(&mut self, player: usize) -> (r: Player)
        requires
            old(self).wf(),
            player < old(self).players@.len(),
        ensures
            final(self).wf(),
            r == old(self).players@[player as int],
            final(self).players@ == old(self).players@.remove(player as int),
            *final(self) == (Plot { players: final(self).players, ..*old(self) }),
    {
        let r = self.players.remove(player);
        assert(forall|i: int|
            0 <= i < self.players@.len() ==> #[trigger] self.players@[i] == old(self).players@[
                if i < player { i } else { i + 1 }
            ]);
        r
    }

    /// Sends `pkts` to every player but the one at `from`.
    pub fn broadcast(&mut self, from: usize, pkts: &Vec<ClientPacket>)
        requires
            old(self).wf(),
            from < old(self).players@.len(),
        ensures
            final(self).wf(),
            fanned_out(old(self).players@, final(self).players@, from as int, pkts@),
            *final(self) == (Plot { players: final(self).players, ..*old(self) }),
    {
        let n = self.players.len();
        let mut i: usize = 0;
        while i < n
            invariant
                n == self.players@.len() == old(self).players@.len(),
                from < n,
                i <= n,
                *self == (Plot { players: self.players, ..*old(self) }),
                forall|j: int| 0 <= j < i && j != from ==> received(
                    #[trigger] old(self).players@[j],
                    self.players@[j],
                    pkts@,
                ),
                forall|j: int| i <= j < n || j == from ==> #[trigger] self.players@[j]
                    == old(self).players@[j],
            decreases n - i,
        {
            if i != from {
                let mut k: usize = 0;
                while k < pkts.len()
                    invariant
                        n == self.players@.len(),
                        i < n,
                        k <= pkts@.len(),
                        *self == (Plot { players: self.players, ..*old(self) }),
                        i != from,
                        from < n,
                        forall|j: int| 0 <= j < i && j != from ==> received(
                            #[trigger] old(self).players@[j],
                            self.players@[j],
                            pkts@,
                        ),
                        forall|j: int| i < j < n || j == from ==> #[trigger] self.players@[j]
                            == old(self).players@[j],
                        received(old(self).players@[i as int], self.players@[i as int], pkts@.take(k as int)),
                    decreases pkts@.len() - k,
                {
                    self.players[i].send(pkts[k]);
                    assert(pkts@.take(k as int + 1) == pkts@.take(k as int).push(pkts@[k as int]));
                    k += 1;
                }
                assert(pkts@.take(pkts@.len() as int) == pkts@);
            }
            i += 1;
        }
        assert forall|j: int| 0 <= j < n implies #[trigger] self.players@[j].wf() by {
            assert(old(self).players@[j].wf());
        }
        assert forall|a: int, b: int|
            0 <= a < n && 0 <= b < n && a != b implies #[trigger] self.players@[a].uuid
            != #[trigger] self.players@[b].uuid by {
            assert(old(self).players@[a].uuid != old(self).players@[b].uuid);
        }
    }

    /// Sends `p` to every player but the one at `from`.
    pub fn broadcast_one(&mut self, from: usize, p: ClientPacket)
        requires
            old(self).wf(),
            from < old(self).players@.len(),
        ensures
            final(self).wf(),
            fanned_out(old(self).players@, final(self).players@, from as int, seq![p]),
            *final(self) == (Plot { players: final(self).players, ..*old(self) }),
    {
        let pkts = vec![p];
        assert(pkts@ =~= seq![p]);
        self.broadcast(from, &pkts);
    }

    /// Sends `a`, then `b`, to every player but the one at `from`.
    pub fn broadcast_two(&mut self, from: usize, a: ClientPacket, b: ClientPacket)
        requires
            old(self).wf(),
            from < old(self).players@.len(),
        ensures
            final(self).wf(),
            fanned_out(old(self).players@, final(self).players@, from as int, seq![a, b]),
            *final(self) == (Plot { players: final(self).players, ..*old(self) }),
    {
        let pkts = vec![a, b];
        assert(pkts@ =~= seq![a, b]);
        self.broadcast(from, &pkts);
    }
}

} // verus!
