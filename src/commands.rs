use vstd::prelude::*;
use crate::geometry::{
    block_of, block_of_spec, plot_of, plot_of_spec, BlockPos, Position,
};
use crate::ownership::OwnershipRegistry;
use crate::player::{ClientPacket, Notice, Player};
use crate::plot::{lemma_update_keeps_wf, notified, BusMessage, Plot, RegionOp, WorldAction};
use crate::text::{
    coordinate_units, i32_of, is_unsigned_numeral, lemma_unsigned_nonneg, parse_coordinate,
    parse_i32, parse_u32, text_is, u32_of, unsigned_value,
};

verus! {

/// Highest tick rate `/rtps` accepts.
pub const MAX_RTPS: u32 = 35000;

/// Delay between ticks, in microseconds, when the tick rate is 0.
pub const FALLBACK_SLEEP_MICROS: u64 = 2000;

/// The plot grid coordinates holding a player's position, rounded down.
pub open spec fn plot_x_of(p: Player) -> i32 {
    plot_of_spec(p.pos.x)
}

pub open spec fn plot_z_of(p: Player) -> i32 {
    plot_of_spec(p.pos.z)
}

/// Owner and reply after a claim of a plot whose owner was `owner`.
pub open spec fn claim_outcome(owner: Option<u128>, uuid: u128, x: i32, z: i32) -> (
    Option<u128>,
    Notice,
) {
    match owner {
        Some(o) => (Some(o), Notice::AlreadyClaimed),
        None => (Some(uuid), Notice::Claimed { x, z }),
    }
}

/// A plot may be claimed only once: after a claim, a second claim by anyone
/// keeps the owner that the first left and is answered "already claimed".
pub proof fn claim_is_exactly_once(owner: Option<u128>, first: u128, second: u128, x: i32, z: i32)
    ensures
        ({
            let (after_first, _) = claim_outcome(owner, first, x, z);
            let (after_second, reply) = claim_outcome(after_first, second, x, z);
            &&& after_second == after_first
            &&& reply == Notice::AlreadyClaimed
            &&& owner is None ==> after_first == Some(first)
        }),
{
}

/// Everything but the players and the registry stays; the acting player is told `n`.
pub open spec fn only_told(
    before: Plot,
    after: Plot,
    ob: OwnershipRegistry,
    oa: OwnershipRegistry,
    player: int,
    n: Notice,
) -> bool {
    &&& after == (Plot { players: after.players, ..before })
    &&& oa == ob
    &&& notified(before.players@, after.players@, player, n)
}

/// Effect of `/plot <sub>` with sub-command `sub`.
pub open spec fn plot_command_effect(
    before: Plot,
    after: Plot,
    ob: OwnershipRegistry,
    oa: OwnershipRegistry,
    player: int,
    sub: Seq<char>,
) -> bool {
    let p = before.players@[player];
    let (x, z) = (plot_x_of(p), plot_z_of(p));
    if sub == "claim"@ || sub == "c"@ {
        let (o, n) = claim_outcome(ob.owner(x, z), p.uuid, x, z);
        &&& after == (Plot { players: after.players, ..before })
        &&& notified(before.players@, after.players@, player, n)
        &&& oa.owner(x, z) == o
        &&& forall|a: i32, b: i32| !(a == x && b == z) ==> oa.owner(a, b) == ob.owner(a, b)
    } else if sub == "info"@ || sub == "i"@ {
        only_told(
            before,
            after,
            ob,
            oa,
            player,
            match ob.owner(x, z) {
                Some(o) => Notice::Owner(o),
                None => Notice::Unowned,
            },
        )
    } else {
        only_told(before, after, ob, oa, player, Notice::WrongPlotArgument)
    }
}

/// The region corner `//1` or `//2` sets without coordinates: the block the
/// player stands in, with a height below 0 read as 0.
pub open spec fn standing_block(p: Player) -> BlockPos {
    let y = block_of_spec(p.pos.y);
    BlockPos {
        x: block_of_spec(p.pos.x),
        y: if y < 0 { 0 } else { y as u32 },
        z: block_of_spec(p.pos.z),
    }
}

/// The corner given as arguments, or the notice for the first that does not parse.
pub open spec fn corner_from_args(args: Seq<&str>) -> Result<BlockPos, Notice> {
    if i32_of(args[0]@) is None {
        Err(Notice::BadX)
    } else if u32_of(args[1]@) is None {
        Err(Notice::BadY)
    } else if i32_of(args[2]@) is None {
        Err(Notice::BadZ)
    } else {
        Ok(
            BlockPos {
                x: i32_of(args[0]@)->0,
                y: u32_of(args[1]@)->0,
                z: i32_of(args[2]@)->0,
            },
        )
    }
}

/// Effect of `//1` (`first`) or `//2`.
pub open spec fn corner_effect(
    before: Plot,
    after: Plot,
    player: int,
    first: bool,
    args: Seq<&str>,
) -> bool {
    let p = before.players@[player];
    let corner = if args.len() >= 3 { corner_from_args(args) } else { Ok(standing_block(p)) };
    &&& after == (Plot { players: after.players, ..before })
    &&& match corner {
        Err(n) => notified(before.players@, after.players@, player, n),
        Ok(c) => {
            let q = after.players@[player];
            &&& after.players@ == before.players@.update(
                player,
                if first {
                    Player { first_position: Some(c), outbox: q.outbox, ..p }
                } else {
                    Player { second_position: Some(c), outbox: q.outbox, ..p }
                },
            )
            &&& q.outbox@ == p.outbox@.push(
                ClientPacket::System(
                    if first {
                        Notice::FirstPositionSet(c)
                    } else {
                        Notice::SecondPositionSet(c)
                    },
                ),
            )
        },
    }
}

/// Effect of `/rtps` with `args`.
pub open spec fn rtps_effect(before: Plot, after: Plot, player: int, args: Seq<&str>) -> bool {
    if args.len() == 0 {
        &&& after == (Plot { players: after.players, ..before })
        &&& notified(before.players@, after.players@, player, Notice::RtpsMissing)
    } else {
        match unsigned_value(args[0]@) {
            None => {
                &&& after == (Plot { players: after.players, ..before })
                &&& notified(before.players@, after.players@, player, Notice::RtpsUnparsable)
            },
            Some(v) => if v > MAX_RTPS {
                &&& after == (Plot { players: after.players, ..before })
                &&& notified(before.players@, after.players@, player, Notice::RtpsTooHigh)
            } else {
                &&& after == (Plot {
                    players: after.players,
                    tps: v as u32,
                    sleep_micros: if v > 0 {
                        (1_000_000int / v) as u64
                    } else {
                        FALLBACK_SLEEP_MICROS
                    },
                    lag_micros: 0,
                    ..before
                })
                &&& notified(before.players@, after.players@, player, Notice::RtpsSet)
            },
        }
    }
}

/// Effect of `/radv` with `args`.
pub open spec fn advance_effect(before: Plot, after: Plot, player: int, args: Seq<&str>) -> bool {
    if args.len() == 0 {
        &&& after == (Plot { players: after.players, ..before })
        &&& notified(before.players@, after.players@, player, Notice::TicksMissing)
    } else if u32_of(args[0]@) is None {
        &&& after == (Plot { players: after.players, ..before })
        &&& notified(before.players@, after.players@, player, Notice::TicksUnparsable)
    } else {
        &&& after == (Plot { world_actions: after.world_actions, ..before })
        &&& after.world_actions@ == before.world_actions@.push(
            WorldAction::AdvanceTicks { player: player as usize, ticks: u32_of(args[0]@)->0 },
        )
    }
}

/// Effect of `/tp` with `args`: three decimal coordinates move the player;
/// one name hands the player to the server to join that player.
pub open spec fn teleport_effect(before: Plot, after: Plot, player: int, args: Seq<&str>) -> bool {
    let p = before.players@[player];
    if args.len() == 3 {
        if coordinate_units(args[0]@) is None {
            &&& after == (Plot { players: after.players, ..before })
            &&& notified(before.players@, after.players@, player, Notice::BadX)
        } else if coordinate_units(args[1]@) is None {
            &&& after == (Plot { players: after.players, ..before })
            &&& notified(before.players@, after.players@, player, Notice::BadY)
        } else if coordinate_units(args[2]@) is None {
            &&& after == (Plot { players: after.players, ..before })
            &&& notified(before.players@, after.players@, player, Notice::BadZ)
        } else {
            let pos = Position {
                x: coordinate_units(args[0]@)->0 as i64,
                y: coordinate_units(args[1]@)->0 as i64,
                z: coordinate_units(args[2]@)->0 as i64,
            };
            let q = after.players@[player];
            &&& after == (Plot { players: after.players, ..before })
            &&& after.players@ == before.players@.update(player, Player { pos, outbox: q.outbox, ..p })
            &&& q.outbox@ == p.outbox@.push(
                ClientPacket::PositionAndLook { pos, yaw: p.yaw, pitch: p.pitch },
            )
        }
    } else if args.len() == 1 {
        &&& after == (Plot { players: after.players, bus: after.bus, ..before })
        &&& after.players@ == before.players@.remove(player)
        &&& after.bus@.len() == before.bus@.len() + 1
        &&& after.bus@.drop_last() == before.bus@
        &&& after.bus@.last() matches BusMessage::TeleportToPlayer { player: left, target }
            && left == p && target@ == args[0]@
    } else {
        &&& after == (Plot { players: after.players, ..before })
        &&& notified(before.players@, after.players@, player, Notice::TeleportUsage)
    }
}

/// The region commands.
#[derive(Clone, Copy, Debug, PartialEq, Eq, Structural)]
pub enum RegionKind {
    Fill,
    Replace,
    Copy,
    Paste,
    Count,
    Load,
}

/// Number of arguments a region command needs.
pub open spec fn region_arity(kind: RegionKind) -> int {
    match kind {
        RegionKind::Replace => 2,
        RegionKind::Copy | RegionKind::Paste => 0,
        _ => 1,
    }
}

/// A region operation was queued for `player`.
pub open spec fn region_queued(before: Plot, after: Plot, player: int) -> bool {
    &&& after == (Plot { world_actions: after.world_actions, ..before })
    &&& after.world_actions@.len() == before.world_actions@.len() + 1
    &&& after.world_actions@.drop_last() == before.world_actions@
    &&& after.world_actions@.last() matches WorldAction::RegionEdit { player: pl, op: _ }
        && pl == player
}

/// The last queued region operation is of `kind`, on text `a` (and `b` for
/// a replacement).
pub open spec fn last_op_is(after: Plot, kind: RegionKind, a: Seq<char>, b: Seq<char>) -> bool {
    after.world_actions@.last() matches WorldAction::RegionEdit { player: _, op } && match op {
        RegionOp::Fill(s) => kind == RegionKind::Fill && s@ == a,
        RegionOp::Replace(s, t) => kind == RegionKind::Replace && s@ == a && t@ == b,
        RegionOp::Copy => kind == RegionKind::Copy,
        RegionOp::Paste => kind == RegionKind::Paste,
        RegionOp::Count(s) => kind == RegionKind::Count && s@ == a,
        RegionOp::Load(s) => kind == RegionKind::Load && s@ == a,
    }
}

/// Effect of a region command `kind` that needs `needed` arguments.
pub open spec fn region_effect(
    before: Plot,
    after: Plot,
    player: int,
    kind: RegionKind,
    args: Seq<&str>,
) -> bool {
    let needed = region_arity(kind);
    if args.len() < needed {
        &&& after == (Plot { players: after.players, ..before })
        &&& notified(before.players@, after.players@, player, Notice::WrongArgumentCount)
    } else {
        &&& region_queued(before, after, player)
        &&& last_op_is(
            after,
            kind,
            if needed >= 1 { args[0]@ } else { Seq::empty() },
            if needed >= 2 { args[1]@ } else { Seq::empty() },
        )
    }
}

fn owned(s: &str) -> (r: String)
    ensures
        r@ == s@,
{
    s.to_owned()
}

impl Plot {
    /// Runs `/plot <sub>` for `player` against the plot their position lies in.
    pub fn handle_plot_command(&mut self, player: usize, sub: &str, owners: &mut OwnershipRegistry)
        requires
            old(self).wf(),
            player < old(self).players@.len(),
        ensures
            final(self).wf(),
            plot_command_effect(*old(self), *final(self), *old(owners), *final(owners), player as int, sub@),
    {
        let x = plot_of(self.players[player].pos.x);
        let z = plot_of(self.players[player].pos.z);
        if text_is(sub, "claim") || text_is(sub, "c") {
            if owners.get_owner(x, z).is_some() {
                self.notify_player(player, Notice::AlreadyClaimed);
            } else {
                let uuid = self.players[player].uuid;
                owners.claim(x, z, uuid);
                self.notify_player(player, Notice::Claimed { x, z });
            }
        } else if text_is(sub, "info") || text_is(sub, "i") {
            match owners.get_owner(x, z) {
                Some(o) => self.notify_player(player, Notice::Owner(o)),
                None => self.notify_player(player, Notice::Unowned),
            }
        } else {
            self.notify_player(player, Notice::WrongPlotArgument);
        }
    }

    /// Sets the first (`//1`) or second (`//2`) region corner of `player`.
    pub fn command_corner(&mut self, player: usize, first: bool, args: &Vec<&str>)
        requires
            old(self).wf(),
            player < old(self).players@.len(),
        ensures
            final(self).wf(),
            corner_effect(*old(self), *final(self), player as int, first, args@),
    {
        let p = &self.players[player];
        let mut x = block_of(p.pos.x);
        let by = block_of(p.pos.y);
        let mut y: u32 = if by < 0 {
            0
        } else {
            by as u32
        };
        let mut z = block_of(p.pos.z);
        if args.len() >= 3 {
            match parse_i32(args[0]) {
                Some(v) => x = v,
                None => {
                    self.notify_player(player, Notice::BadX);
                    return;
                },
            }
            match parse_u32(args[1]) {
                Some(v) => y = v,
                None => {
                    self.notify_player(player, Notice::BadY);
                    return;
                },
            }
            match parse_i32(args[2]) {
                Some(v) => z = v,
                None => {
                    self.notify_player(player, Notice::BadZ);
                    return;
                },
            }
        }
        let corner = BlockPos { x, y, z };
        if first {
            self.players[player].set_first_position(corner);
        } else {
            self.players[player].set_second_position(corner);
        }
        proof {
            lemma_update_keeps_wf(old(self).players@, player as int, self.players@[player as int]);
        }
        assert(self.players@ =~= old(self).players@.update(
            player as int,
            self.players@[player as int],
        ));
    }

    /// Sets the target tick rate from `/rtps <rate>`.
    pub fn command_rtps(&mut self, player: usize, args: &Vec<&str>)
        requires
            old(self).wf(),
            player < old(self).players@.len(),
        ensures
            final(self).wf(),
            rtps_effect(*old(self), *final(self), player as int, args@),
    {
        if args.len() == 0 {
            self.notify_player(player, Notice::RtpsMissing);
            return;
        }
        proof {
            lemma_unsigned_nonneg(args@[0]@);
        }
        let tps = match parse_u32(args[0]) {
            Some(t) => t,
            None => {
                if is_unsigned_numeral(args[0]) {
                    proof {
                        lemma_unsigned_nonneg(args@[0]@);
                    }
                    self.notify_player(player, Notice::RtpsTooHigh);
                } else {
                    self.notify_player(player, Notice::RtpsUnparsable);
                }
                return;
            },
        };
        if tps > MAX_RTPS {
            self.notify_player(player, Notice::RtpsTooHigh);
            return;
        }
        self.lag_micros = 0;
        if tps > 0 {
            self.sleep_micros = 1_000_000 / tps as u64;
        } else {
            self.sleep_micros = FALLBACK_SLEEP_MICROS;
        }
        self.tps = tps;
        self.notify_player(player, Notice::RtpsSet);
    }

    /// Queues `/radv <ticks>`: that many ticks run back to back.
    pub fn command_advance(&mut self, player: usize, args: &Vec<&str>)
        requires
            old(self).wf(),
            player < old(self).players@.len(),
        ensures
            final(self).wf(),
            advance_effect(*old(self), *final(self), player as int, args@),
    {
        if args.len() == 0 {
            self.notify_player(player, Notice::TicksMissing);
            return;
        }
        match parse_u32(args[0]) {
            Some(ticks) => self.world_actions.push(WorldAction::AdvanceTicks { player, ticks }),
            None => self.notify_player(player, Notice::TicksUnparsable),
        }
    }

    /// Runs `/tp x y z` or `/tp <name>`.
    pub fn command_teleport(&mut self, player: usize, args: &Vec<&str>)
        requires
            old(self).wf(),
            player < old(self).players@.len(),
        ensures
            final(self).wf(),
            teleport_effect(*old(self), *final(self), player as int, args@),
    {
        if args.len() == 3 {
            let x = match parse_coordinate(args[0]) {
                Some(v) => v,
                None => {
                    self.notify_player(player, Notice::BadX);
                    return;
                },
            };
            let y = match parse_coordinate(args[1]) {
                Some(v) => v,
                None => {
                    self.notify_player(player, Notice::BadY);
                    return;
                },
            };
            let z = match parse_coordinate(args[2]) {
                Some(v) => v,
                None => {
                    self.notify_player(player, Notice::BadZ);
                    return;
                },
            };
            let pos = Position { x, y, z };
            let yaw = self.players[player].yaw;
            let pitch = self.players[player].pitch;
            self.players[player].pos = pos;
            self.players[player].send(ClientPacket::PositionAndLook { pos, yaw, pitch });
            proof {
                lemma_update_keeps_wf(
                    old(self).players@,
                    player as int,
                    self.players@[player as int],
                );
            }
            assert(self.players@ =~= old(self).players@.update(
                player as int,
                self.players@[player as int],
            ));
        } else if args.len() == 1 {
            let left = self.leave_plot(player);
            let target = owned(args[0]);
            self.bus.push(BusMessage::TeleportToPlayer { player: left, target });
            assert(self.bus@.drop_last() =~= old(self).bus@);
        } else {
            self.notify_player(player, Notice::TeleportUsage);
        }
    }

    /// Queues a region operation of `kind` with its arguments.
    pub fn command_region(&mut self, player: usize, kind: RegionKind, args: &Vec<&str>)
        requires
            old(self).wf(),
            player < old(self).players@.len(),
        ensures
            final(self).wf(),
            region_effect(*old(self), *final(self), player as int, kind, args@),
    {
        let needed: usize = match kind {
            RegionKind::Replace => 2,
            RegionKind::Copy | RegionKind::Paste => 0,
            _ => 1,
        };
        if args.len() < needed {
            self.notify_player(player, Notice::WrongArgumentCount);
            return;
        }
        let op = match kind {
            RegionKind::Fill => RegionOp::Fill(owned(args[0])),
            RegionKind::Replace => RegionOp::Replace(owned(args[0]), owned(args[1])),
            RegionKind::Copy => RegionOp::Copy,
            RegionKind::Paste => RegionOp::Paste,
            RegionKind::Count => RegionOp::Count(owned(args[0])),
            RegionKind::Load => RegionOp::Load(owned(args[0])),
        };
        self.world_actions.push(WorldAction::RegionEdit { player, op });
        assert(self.world_actions@.drop_last() =~= old(self).world_actions@);
    }

    /// Runs a queued command `command` with whitespace-separated `args` for
    /// `player`.
    pub fn handle_command(
        &mut self,
        player: usize,
        command: &str,
        args: Vec<&str>,
        owners: &mut OwnershipRegistry,
    )
        requires
            old(self).wf(),
            player < old(self).players@.len(),
        ensures
            final(self).wf(),
            ({
                let (b, a, c) = (*old(self), *final(self), command@);
                let (ob, oa) = (*old(owners), *final(owners));
                let pl = player as int;
                if c == "/plot"@ || c == "/p"@ {
                    if args@.len() == 0 {
                        only_told(b, a, ob, oa, pl, Notice::WrongArgumentCount)
                    } else {
                        plot_command_effect(b, a, ob, oa, pl, args@[0]@)
                    }
                } else {
                    &&& oa == ob
                    &&& if c == "//1"@ || c == "//pos1"@ {
                        corner_effect(b, a, pl, true, args@)
                    } else if c == "//2"@ || c == "//pos2"@ {
                        corner_effect(b, a, pl, false, args@)
                    } else if c == "//set"@ {
                        region_effect(b, a, pl, RegionKind::Fill, args@)
                    } else if c == "//replace"@ {
                        region_effect(b, a, pl, RegionKind::Replace, args@)
                    } else if c == "//copy"@ || c == "//c"@ {
                        region_effect(b, a, pl, RegionKind::Copy, args@)
                    } else if c == "//paste"@ || c == "//p"@ {
                        region_effect(b, a, pl, RegionKind::Paste, args@)
                    } else if c == "//count"@ {
                        region_effect(b, a, pl, RegionKind::Count, args@)
                    } else if c == "//load"@ {
                        region_effect(b, a, pl, RegionKind::Load, args@)
                    } else if c == "/rtps"@ {
                        rtps_effect(b, a, pl, args@)
                    } else if c == "/radv"@ || c == "/radvance"@ {
                        advance_effect(b, a, pl, args@)
                    } else if c == "/teleport"@ || c == "/tp"@ {
                        teleport_effect(b, a, pl, args@)
                    } else if c == "/stop"@ {
                        &&& a == (Plot { bus: a.bus, ..b })
                        &&& a.bus@ == b.bus@.push(BusMessage::Shutdown)
                    } else {
                        only_told(b, a, ob, oa, pl, Notice::CommandNotFound)
                    }
                }
            }),
    {
        if text_is(command, "/plot") || text_is(command, "/p") {
            if args.len() == 0 {
                self.notify_player(player, Notice::WrongArgumentCount);
            } else {
                self.handle_plot_command(player, args[0], owners);
            }
        } else if text_is(command, "//1") || text_is(command, "//pos1") {
            self.command_corner(player, true, &args);
        } else if text_is(command, "//2") || text_is(command, "//pos2") {
            self.command_corner(player, false, &args);
        } else if text_is(command, "//set") {
            self.command_region(player, RegionKind::Fill, &args);
        } else if text_is(command, "//replace") {
            self.command_region(player, RegionKind::Replace, &args);
        } else if text_is(command, "//copy") || text_is(command, "//c") {
            self.command_region(player, RegionKind::Copy, &args);
        } else if text_is(command, "//paste") || text_is(command, "//p") {
            self.command_region(player, RegionKind::Paste, &args);
        } else if text_is(command, "//count") {
            self.command_region(player, RegionKind::Count, &args);
        } else if text_is(command, "//load") {
            self.command_region(player, RegionKind::Load, &args);
        } else if text_is(command, "/rtps") {
            self.command_rtps(player, &args);
        } else if text_is(command, "/radv") || text_is(command, "/radvance") {
            self.command_advance(player, &args);
        } else if text_is(command, "/teleport") || text_is(command, "/tp") {
            self.command_teleport(player, &args);
        } else if text_is(command, "/stop") {
            self.bus.push(BusMessage::Shutdown);
        } else {
            self.notify_player(player, Notice::CommandNotFound);
        }
    }
}

} // verus!
