use vstd::prelude::*;
use crate::geometry::{
    facing, facing_spec, face_of_id, in_plot_bounds, in_plot_spec, offset_spec, BlockFace, BlockPos,
    Position,
};
use crate::movement::{encode_movement, encode_spec, MoveEncoding};
use crate::player::{
    stack_ok, ClientPacket, ItemStack, Notice, Player, SlotSummary, HOTBAR_SIZE, HOTBAR_START,
    INVENTORY_SIZE, OFF_HAND_SLOT,
};
use crate::plot::{
    fanned_out, lemma_update_keeps_wf, notified, updated_and_fanned_out, BusMessage, Plot,
    WorldAction,
};
use vstd::string::StrSliceExecFns;

verus! {

/// Item id of the selection wand, which marks region corners instead of breaking blocks.
pub const SELECTION_WAND_ID: u32 = 586;

/// Digging status: the player starts breaking a block.
pub const DIG_START: i32 = 0;

/// Digging status: the player drops the whole held stack.
pub const DIG_DROP_STACK: i32 = 3;

/// Digging status: the player drops one item of the held stack.
pub const DIG_DROP_ONE: i32 = 4;

/// An item as a client describes it.
#[derive(Debug)]
pub struct SlotData {
    pub item_id: u32,
    pub count: u8,
    pub nbt: Option<Vec<u8>>,
}

/// A message from a client, decoded.
#[derive(Debug)]
pub enum ServerBoundPacket {
    KeepAlive,
    CreativeInventoryAction { slot: i16, clicked_item: Option<SlotData> },
    PlayerAbilities { is_flying: bool },
    Animation { hand: i32 },
    PlayerBlockPlacement { pos: BlockPos, face: u32, hand: i32 },
    ChatMessage { message: String },
    ClientSettings { displayed_skin_parts: u8 },
    PluginMessage { channel: String },
    PlayerPosition { pos: Position, on_ground: bool },
    PlayerPositionAndRotation { pos: Position, yaw: i32, pitch: i32, on_ground: bool },
    PlayerRotation { yaw: i32, pitch: i32, on_ground: bool },
    PlayerMovement { on_ground: bool },
    PlayerDigging { status: i32, pos: BlockPos },
    EntityAction { action_id: i32 },
    HeldItemChange { slot: i16 },
}

/// Skin-part bits that mean something; others are dropped.
pub const SKIN_PARTS_MASK: u8 = 0x7f;

/// Flag bit set while an entity crouches.
pub const CROUCH_FLAG: u8 = 0x02;

/// Flag bit set while an entity sprints.
pub const SPRINT_FLAG: u8 = 0x08;

/// Pose of a crouching entity; standing is pose 0.
pub const CROUCH_POSE: u8 = 5;

/// What observers see after a player moved from `p.pos` to `new`.
pub open spec fn position_packet(p: Player, new: Position, on_ground: bool) -> ClientPacket {
    match encode_spec(p.pos, new) {
        MoveEncoding::Relative { dx, dy, dz } => ClientPacket::EntityPosition {
            entity_id: p.entity_id,
            dx,
            dy,
            dz,
            on_ground,
        },
        MoveEncoding::Absolute => ClientPacket::EntityTeleport {
            entity_id: p.entity_id,
            pos: new,
            yaw: p.yaw,
            pitch: p.pitch,
            on_ground,
        },
    }
}

/// What observers see after a player moved from `p.pos` to `new` and turned.
pub open spec fn position_rotation_packet(
    p: Player,
    new: Position,
    yaw: i32,
    pitch: i32,
    on_ground: bool,
) -> ClientPacket {
    match encode_spec(p.pos, new) {
        MoveEncoding::Relative { dx, dy, dz } => ClientPacket::EntityPositionAndRotation {
            entity_id: p.entity_id,
            dx,
            dy,
            dz,
            yaw,
            pitch,
            on_ground,
        },
        MoveEncoding::Absolute => ClientPacket::EntityTeleport {
            entity_id: p.entity_id,
            pos: new,
            yaw,
            pitch,
            on_ground,
        },
    }
}

pub open spec fn flags_of(crouching: bool, sprinting: bool) -> u8 {
    ((if crouching { CROUCH_FLAG } else { 0u8 }) + (if sprinting { SPRINT_FLAG } else { 0u8 })) as u8
}

pub open spec fn animation_of(hand: i32) -> u8 {
    if hand == 1 {
        3
    } else {
        0
    }
}

/// The player after an entity action with this id.
pub open spec fn after_entity_action(p: Player, action_id: i32) -> Player {
    if action_id == 0 {
        Player { crouching: true, ..p }
    } else if action_id == 1 {
        Player { crouching: false, ..p }
    } else if action_id == 3 {
        Player { sprinting: true, ..p }
    } else if action_id == 4 {
        Player { sprinting: false, ..p }
    } else {
        p
    }
}

pub open spec fn summary_of(s: Option<ItemStack>) -> Option<SlotSummary> {
    match s {
        Some(st) => Some(SlotSummary { item_id: st.item_id, count: st.count }),
        None => None,
    }
}

fn summary(s: &Option<ItemStack>) -> (r: Option<SlotSummary>)
    ensures
        r == summary_of(*s),
{
    match s {
        Some(st) => Some(SlotSummary { item_id: st.item_id, count: st.count }),
        None => None,
    }
}

/// Whether the player holds the selection wand in the main hand.
pub open spec fn holds_wand(p: Player) -> bool {
    p.inventory@[p.main_hand()] matches Some(st) && st.item_id == SELECTION_WAND_ID
}

/// The main-hand slot after dropping one item from it.
pub open spec fn after_drop_one(s: Option<ItemStack>) -> Option<ItemStack> {
    match s {
        Some(st) => if st.count <= 1 {
            None
        } else {
            Some(ItemStack { count: (st.count - 1) as u8, ..st })
        },
        None => None,
    }
}

/// What `handle_keep_alive` does.
pub open spec fn keep_alive_effect(before: Plot, after: Plot, player: usize, now: u64) -> bool {
    &&& after.players@ == before.players@.update(
        player as int,
        Player { last_keep_alive: now, ..before.players@[player as int] },
    )
    &&& after == (Plot { players: after.players, ..before })
}

/// What `handle_player_abilities` does.
pub open spec fn player_abilities_effect(
    before: Plot,
    after: Plot,
    player: usize,
    is_flying: bool,
) -> bool {
    &&& after.players@ == before.players@.update(
        player as int,
        Player { flying: is_flying, ..before.players@[player as int] },
    )
    &&& after == (Plot { players: after.players, ..before })
}

/// What `handle_animation` does.
pub open spec fn animation_effect(before: Plot, after: Plot, player: usize, hand: i32) -> bool {
    &&& updated_and_fanned_out(
        before.players@,
        after.players@,
        player as int,
        before.players@[player as int],
        seq![
            ClientPacket::EntityAnimation {
                entity_id: before.players@[player as int].entity_id,
                animation: animation_of(hand),
            },
        ],
    )
    &&& after == (Plot { players: after.players, ..before })
}

/// What `handle_client_settings` does.
pub open spec fn client_settings_effect(
    before: Plot,
    after: Plot,
    player: usize,
    displayed_skin_parts: u8,
) -> bool {
    &&& updated_and_fanned_out(
        before.players@,
        after.players@,
        player as int,
        Player {
            skin_parts: displayed_skin_parts & SKIN_PARTS_MASK,
            ..before.players@[player as int]
        },
        seq![
            ClientPacket::SkinParts {
                entity_id: before.players@[player as int].entity_id,
                parts: displayed_skin_parts & SKIN_PARTS_MASK,
            },
        ],
    )
    &&& after == (Plot { players: after.players, ..before })
}

/// What `handle_player_position` does.
pub open spec fn player_position_effect(
    before: Plot,
    after: Plot,
    player: usize,
    pos: Position,
    on_ground: bool,
) -> bool {
    &&& updated_and_fanned_out(
        before.players@,
        after.players@,
        player as int,
        Player { pos, on_ground, ..before.players@[player as int] },
        seq![position_packet(before.players@[player as int], pos, on_ground)],
    )
    &&& after == (Plot { players: after.players, ..before })
}

/// What `handle_player_position_and_rotation` does.
pub open spec fn player_position_and_rotation_effect(
    before: Plot,
    after: Plot,
    player: usize,
    pos: Position,
    yaw: i32,
    pitch: i32,
    on_ground: bool,
) -> bool {
    &&& updated_and_fanned_out(
        before.players@,
        after.players@,
        player as int,
        Player { pos, yaw, pitch, on_ground, ..before.players@[player as int] },
        seq![
            position_rotation_packet(before.players@[player as int], pos, yaw, pitch, on_ground),
            ClientPacket::EntityHeadLook {
                entity_id: before.players@[player as int].entity_id,
                yaw,
            },
        ],
    )
    &&& after == (Plot { players: after.players, ..before })
}

/// What `handle_player_rotation` does.
pub open spec fn player_rotation_effect(
    before: Plot,
    after: Plot,
    player: usize,
    yaw: i32,
    pitch: i32,
    on_ground: bool,
) -> bool {
    &&& updated_and_fanned_out(
        before.players@,
        after.players@,
        player as int,
        Player { yaw, pitch, on_ground, ..before.players@[player as int] },
        seq![
            ClientPacket::EntityRotation {
                entity_id: before.players@[player as int].entity_id,
                yaw,
                pitch,
                on_ground,
            },
            ClientPacket::EntityHeadLook {
                entity_id: before.players@[player as int].entity_id,
                yaw,
            },
        ],
    )
    &&& after == (Plot { players: after.players, ..before })
}

/// What `handle_player_movement` does.
pub open spec fn player_movement_effect(
    before: Plot,
    after: Plot,
    player: usize,
    on_ground: bool,
) -> bool {
    &&& updated_and_fanned_out(
        before.players@,
        after.players@,
        player as int,
        Player { on_ground, ..before.players@[player as int] },
        seq![
            ClientPacket::EntityMovement {
                entity_id: before.players@[player as int].entity_id,
            },
        ],
    )
    &&& after == (Plot { players: after.players, ..before })
}

/// What `handle_entity_action` does.
pub open spec fn entity_action_effect(
    before: Plot,
    after: Plot,
    player: usize,
    action_id: i32,
) -> bool {
    &&& ({
        let p = after_entity_action(before.players@[player as int], action_id);
        updated_and_fanned_out(
            before.players@,
            after.players@,
            player as int,
            p,
            seq![
                ClientPacket::EntityFlags {
                    entity_id: p.entity_id,
                    flags: flags_of(p.crouching, p.sprinting),
                    pose: if p.crouching { CROUCH_POSE } else { 0 },
                },
            ],
        )
    })
    &&& after == (Plot { players: after.players, ..before })
}

/// What `handle_creative_inventory_action` does.
pub open spec fn creative_inventory_action_effect(
    before: Plot,
    after: Plot,
    player: usize,
    slot: i16,
    clicked_item: Option<SlotData>,
) -> bool {
    &&& after == (Plot { players: after.players, ..before })
    &&& !(0 <= slot < INVENTORY_SIZE) ==> after.players@ == before.players@
    &&& 0 <= slot < INVENTORY_SIZE ==> {
        let p = before.players@[player as int];
        let acting = Player { inventory: after.players@[player as int].inventory, ..p };
        match clicked_item {
            Some(d) if d.count > 0 => {
                let st = ItemStack { item_id: d.item_id, count: d.count, damage: 0, nbt: d.nbt };
                &&& acting.inventory@ == p.inventory@.update(slot as int, Some(st))
                &&& if slot == p.main_hand() {
                    updated_and_fanned_out(
                        before.players@,
                        after.players@,
                        player as int,
                        acting,
                        seq![
                            ClientPacket::EntityEquipment {
                                entity_id: p.entity_id,
                                item: Some(SlotSummary { item_id: d.item_id, count: d.count }),
                            },
                        ],
                    )
                } else {
                    after.players@ == before.players@.update(player as int, acting)
                }
            },
            Some(d) => {
                &&& acting.inventory@ == p.inventory@.update(slot as int, None)
                &&& if slot == p.main_hand() {
                    updated_and_fanned_out(
                        before.players@,
                        after.players@,
                        player as int,
                        acting,
                        seq![ClientPacket::EntityEquipment { entity_id: p.entity_id, item: None }],
                    )
                } else {
                    after.players@ == before.players@.update(player as int, acting)
                }
            },
            None => {
                &&& acting.inventory@ == p.inventory@.update(slot as int, None)
                &&& after.players@ == before.players@.update(player as int, acting)
            },
        }
    }
}

/// What `handle_held_item_change` does.
pub open spec fn held_item_change_effect(
    before: Plot,
    after: Plot,
    player: usize,
    slot: i16,
) -> bool {
    &&& after == (Plot { players: after.players, ..before })
    &&& !(0 <= slot < HOTBAR_SIZE) ==> after.players@ == before.players@
    &&& 0 <= slot < HOTBAR_SIZE ==> {
        let p = before.players@[player as int];
        updated_and_fanned_out(
            before.players@,
            after.players@,
            player as int,
            Player { selected_slot: slot as u32, ..p },
            seq![
                ClientPacket::EntityEquipment {
                    entity_id: p.entity_id,
                    item: summary_of(p.inventory@[slot + HOTBAR_START]),
                },
            ],
        )
    }
}

/// What `handle_player_block_placement` does.
pub open spec fn player_block_placement_effect(
    before: Plot,
    after: Plot,
    player: usize,
    pos: BlockPos,
    face_id: u32,
    hand: i32,
) -> bool {
    &&& after == (Plot {
        players: after.players,
        world_actions: after.world_actions,
        ..before
    })
    &&& ({
        let p = before.players@[player as int];
        let face = face_of_id(face_id);
        let slot = if hand == 0 { p.main_hand() } else { OFF_HAND_SLOT as int };
        if !in_plot_spec(before.x as int, before.z as int, pos.x as int, pos.z as int) {
            &&& after.players@[player as int].outbox@ == p.outbox@.push(
                ClientPacket::System(Notice::OutsideInteract),
            )
            &&& after.players@ == before.players@.update(
                player as int,
                Player { outbox: after.players@[player as int].outbox, ..p },
            )
            &&& after.world_actions@ == before.world_actions@.push(
                WorldAction::ResendBlock { pos: offset_spec(pos, face) },
            )
        } else {
            &&& after.players@ == before.players@
            &&& if p.inventory@[slot] is Some {
                after.world_actions@ == before.world_actions@.push(
                    WorldAction::UseItemOnBlock {
                        player,
                        slot: slot as usize,
                        face,
                        pos,
                        crouching: p.crouching,
                        facing: facing_spec(p.yaw),
                    },
                )
            } else if !p.crouching {
                after.world_actions@ == before.world_actions@.push(
                    WorldAction::UseBlock { pos },
                )
            } else {
                after.world_actions@ == before.world_actions@
            }
        }
    })
}

/// What `handle_player_digging` does.
pub open spec fn player_digging_effect(
    before: Plot,
    after: Plot,
    player: usize,
    status: i32,
    pos: BlockPos,
) -> bool {
    &&& after == (Plot {
        players: after.players,
        world_actions: after.world_actions,
        ..before
    })
    &&& ({
        let p = before.players@[player as int];
        let q = after.players@[player as int];
        let inside = in_plot_spec(before.x as int, before.z as int, pos.x as int, pos.z as int);
        if status == DIG_START && !inside {
            &&& q.outbox@ == p.outbox@.push(ClientPacket::System(Notice::OutsideBreak))
            &&& after.players@ == before.players@.update(
                player as int,
                Player { outbox: q.outbox, ..p },
            )
            &&& after.world_actions@ == before.world_actions@
        } else if status == DIG_START && holds_wand(p) {
            &&& after.world_actions@ == before.world_actions@.push(
                WorldAction::ResendBlock { pos },
            )
            &&& if p.first_position == Some(pos) {
                after.players@ == before.players@
            } else {
                &&& q.outbox@ == p.outbox@.push(
                    ClientPacket::System(Notice::FirstPositionSet(pos)),
                )
                &&& after.players@ == before.players@.update(
                    player as int,
                    Player { first_position: Some(pos), outbox: q.outbox, ..p },
                )
            }
        } else if status == DIG_START {
            &&& after.world_actions@ == before.world_actions@.push(
                WorldAction::DestroyBlock { player, pos },
            )
            &&& after.players@ == before.players@
        } else {
            &&& after.world_actions@ == before.world_actions@
            &&& after.players@ == before.players@.update(
                player as int,
                Player { inventory: q.inventory, ..p },
            )
            &&& q.inventory@ == if status == DIG_DROP_STACK {
                p.inventory@.update(p.main_hand(), None)
            } else if status == DIG_DROP_ONE {
                p.inventory@.update(p.main_hand(), after_drop_one(p.inventory@[p.main_hand()]))
            } else {
                p.inventory@
            }
        }
    })
}

/// What `handle_chat_message` does.
pub open spec fn chat_message_effect(
    before: Plot,
    after: Plot,
    player: usize,
    message: String,
) -> bool {
    &&& ({
        let p = before.players@[player as int];
        if message@.len() > 0 && message@[0] == '/' {
            let q = after.players@[player as int];
            &&& q.command_queue@ == p.command_queue@.push(message)
            &&& after.players@ == before.players@.update(
                player as int,
                Player { command_queue: q.command_queue, ..p },
            )
            &&& after == (Plot { players: after.players, ..before })
        } else {
            &&& after.bus@.len() == before.bus@.len() + 1
            &&& after.bus@.drop_last() == before.bus@
            &&& after.bus@.last() matches BusMessage::Chat { uuid, username, message: m }
                && uuid == p.uuid && username == p.username && m == message
            &&& after == (Plot { bus: after.bus, ..before })
        }
    })
}

/// With the selection wand in the main hand, starting to dig inside the plot
/// never destroys the block: the first corner becomes the clicked block, and
/// the same click again leaves every player as it was. Each click only asks
/// for the block to be sent again.
pub proof fn wand_click_is_idempotent(
    before: Plot,
    mid: Plot,
    after: Plot,
    player: usize,
    pos: BlockPos,
)
    requires
        before.wf(),
        player < before.players@.len(),
        holds_wand(before.players@[player as int]),
        in_plot_spec(before.x as int, before.z as int, pos.x as int, pos.z as int),
        player_digging_effect(before, mid, player, DIG_START, pos),
        player_digging_effect(mid, after, player, DIG_START, pos),
    ensures
        mid.players@[player as int].first_position == Some(pos),
        after.players@ == mid.players@,
        after.world_actions@ == before.world_actions@.push(WorldAction::ResendBlock { pos }).push(
            WorldAction::ResendBlock { pos },
        ),
{
    assert(mid.players@[player as int].inventory == before.players@[player as int].inventory);
}

/// What handling `packet` from `player`, arrived at time `now`, does.
pub open spec fn packet_effect(
    b: Plot,
    a: Plot,
    player: usize,
    packet: ServerBoundPacket,
    now: u64,
) -> bool {
    match packet {
        ServerBoundPacket::KeepAlive => keep_alive_effect(b, a, player, now),
        ServerBoundPacket::CreativeInventoryAction { slot, clicked_item } => {
            creative_inventory_action_effect(b, a, player, slot, clicked_item)
        },
        ServerBoundPacket::PlayerAbilities { is_flying } => {
            player_abilities_effect(b, a, player, is_flying)
        },
        ServerBoundPacket::Animation { hand } => animation_effect(b, a, player, hand),
        ServerBoundPacket::PlayerBlockPlacement { pos, face, hand } => {
            player_block_placement_effect(b, a, player, pos, face, hand)
        },
        ServerBoundPacket::ChatMessage { message } => {
            chat_message_effect(b, a, player, message)
        },
        ServerBoundPacket::ClientSettings { displayed_skin_parts } => {
            client_settings_effect(b, a, player, displayed_skin_parts)
        },
        ServerBoundPacket::PluginMessage { channel: _ } => a == b,
        ServerBoundPacket::PlayerPosition { pos, on_ground } => {
            player_position_effect(b, a, player, pos, on_ground)
        },
        ServerBoundPacket::PlayerPositionAndRotation { pos, yaw, pitch, on_ground } => {
            player_position_and_rotation_effect(b, a, player, pos, yaw, pitch, on_ground)
        },
        ServerBoundPacket::PlayerRotation { yaw, pitch, on_ground } => {
            player_rotation_effect(b, a, player, yaw, pitch, on_ground)
        },
        ServerBoundPacket::PlayerMovement { on_ground } => {
            player_movement_effect(b, a, player, on_ground)
        },
        ServerBoundPacket::PlayerDigging { status, pos } => {
            player_digging_effect(b, a, player, status, pos)
        },
        ServerBoundPacket::EntityAction { action_id } => {
            entity_action_effect(b, a, player, action_id)
        },
        ServerBoundPacket::HeldItemChange { slot } => {
            held_item_change_effect(b, a, player, slot)
        },
    }
}

impl Plot {
    /// Records when a keep-alive from the player arrived.
    pub fn handle_keep_alive(&mut self, player: usize, now: u64)
        requires
            old(self).wf(),
            player < old(self).players@.len(),
        ensures
            final(self).wf(),
            keep_alive_effect(*old(self), *final(self), player, now),
    {
        self.players[player].last_keep_alive = now;
        proof {
            lemma_update_keeps_wf(old(self).players@, player as int, self.players@[player as int]);
        }
    }

    /// Records whether the player flies.
    pub fn handle_player_abilities(&mut self, player: usize, is_flying: bool)
        requires
            old(self).wf(),
            player < old(self).players@.len(),
        ensures
            final(self).wf(),
            player_abilities_effect(*old(self), *final(self), player, is_flying),
    {
        self.players[player].flying = is_flying;
        proof {
            lemma_update_keeps_wf(old(self).players@, player as int, self.players@[player as int]);
        }
    }

    /// Shows the player's arm swing to the others: hand 1 swings the off hand,
    /// any other value the main hand.
    pub fn handle_animation(&mut self, player: usize, hand: i32)
        requires
            old(self).wf(),
            player < old(self).players@.len(),
        ensures
            final(self).wf(),
            animation_effect(*old(self), *final(self), player, hand),
    {
        let animation: u8 = if hand == 1 {
            3
        } else {
            0
        };
        let entity_id = self.players[player].entity_id;
        assert(self.players@ =~= old(self).players@.update(
            player as int,
            self.players@[player as int],
        ));
        self.broadcast_one(player, ClientPacket::EntityAnimation { entity_id, animation });
    }

    /// Records the skin parts the player displays and shows them to the others.
    pub fn handle_client_settings(&mut self, player: usize, displayed_skin_parts: u8)
        requires
            old(self).wf(),
            player < old(self).players@.len(),
        ensures
            final(self).wf(),
            client_settings_effect(*old(self), *final(self), player, displayed_skin_parts),
    {
        let parts = displayed_skin_parts & SKIN_PARTS_MASK;
        self.players[player].skin_parts = parts;
        proof {
            lemma_update_keeps_wf(old(self).players@, player as int, self.players@[player as int]);
        }
        let entity_id = self.players[player].entity_id;
        assert(self.players@ =~= old(self).players@.update(
            player as int,
            self.players@[player as int],
        ));
        self.broadcast_one(player, ClientPacket::SkinParts { entity_id, parts });
    }

    /// Moves the player and shows the move to the others, relative or absolute
    /// as `encode_movement` decides against the position held before.
    pub fn handle_player_position(&mut self, player: usize, pos: Position, on_ground: bool)
        requires
            old(self).wf(),
            player < old(self).players@.len(),
        ensures
            final(self).wf(),
            player_position_effect(*old(self), *final(self), player, pos, on_ground),
    {
        let old_pos = self.players[player].pos;
        let entity_id = self.players[player].entity_id;
        let yaw = self.players[player].yaw;
        let pitch = self.players[player].pitch;
        self.players[player].pos = pos;
        self.players[player].on_ground = on_ground;
        proof {
            lemma_update_keeps_wf(old(self).players@, player as int, self.players@[player as int]);
        }
        let packet = match encode_movement(old_pos, pos) {
            MoveEncoding::Relative { dx, dy, dz } => ClientPacket::EntityPosition {
                entity_id,
                dx,
                dy,
                dz,
                on_ground,
            },
            MoveEncoding::Absolute => ClientPacket::EntityTeleport {
                entity_id,
                pos,
                yaw,
                pitch,
                on_ground,
            },
        };
        assert(self.players@ =~= old(self).players@.update(
            player as int,
            self.players@[player as int],
        ));
        self.broadcast_one(player, packet);
    }

    /// Moves and turns the player; the others see the move, relative or
    /// absolute, then where the head looks.
    pub fn handle_player_position_and_rotation(
        &mut self,
        player: usize,
        pos: Position,
        yaw: i32,
        pitch: i32,
        on_ground: bool,
    )
        requires
            old(self).wf(),
            player < old(self).players@.len(),
        ensures
            final(self).wf(),
            player_position_and_rotation_effect(*old(self), *final(self), player, pos, yaw, pitch, on_ground),
    {
        let old_pos = self.players[player].pos;
        let entity_id = self.players[player].entity_id;
        self.players[player].pos = pos;
        self.players[player].yaw = yaw;
        self.players[player].pitch = pitch;
        self.players[player].on_ground = on_ground;
        proof {
            lemma_update_keeps_wf(old(self).players@, player as int, self.players@[player as int]);
        }
        let packet = match encode_movement(old_pos, pos) {
            MoveEncoding::Relative { dx, dy, dz } => ClientPacket::EntityPositionAndRotation {
                entity_id,
                dx,
                dy,
                dz,
                yaw,
                pitch,
                on_ground,
            },
            MoveEncoding::Absolute => ClientPacket::EntityTeleport {
                entity_id,
                pos,
                yaw,
                pitch,
                on_ground,
            },
        };
        assert(self.players@ =~= old(self).players@.update(
            player as int,
            self.players@[player as int],
        ));
        self.broadcast_two(player, packet, ClientPacket::EntityHeadLook { entity_id, yaw });
    }

    /// Turns the player; the others see the body and the head turn.
    pub fn handle_player_rotation(&mut self, player: usize, yaw: i32, pitch: i32, on_ground: bool)
        requires
            old(self).wf(),
            player < old(self).players@.len(),
        ensures
            final(self).wf(),
            player_rotation_effect(*old(self), *final(self), player, yaw, pitch, on_ground),
    {
        let entity_id = self.players[player].entity_id;
        self.players[player].yaw = yaw;
        self.players[player].pitch = pitch;
        self.players[player].on_ground = on_ground;
        proof {
            lemma_update_keeps_wf(old(self).players@, player as int, self.players@[player as int]);
        }
        assert(self.players@ =~= old(self).players@.update(
            player as int,
            self.players@[player as int],
        ));
        self.broadcast_two(
            player,
            ClientPacket::EntityRotation { entity_id, yaw, pitch, on_ground },
            ClientPacket::EntityHeadLook { entity_id, yaw },
        );
    }

    /// Records whether the player stands on the ground; the others see that
    /// it did not move.
    pub fn handle_player_movement(&mut self, player: usize, on_ground: bool)
        requires
            old(self).wf(),
            player < old(self).players@.len(),
        ensures
            final(self).wf(),
            player_movement_effect(*old(self), *final(self), player, on_ground),
    {
        self.players[player].on_ground = on_ground;
        proof {
            lemma_update_keeps_wf(old(self).players@, player as int, self.players@[player as int]);
        }
        let entity_id = self.players[player].entity_id;
        assert(self.players@ =~= old(self).players@.update(
            player as int,
            self.players@[player as int],
        ));
        self.broadcast_one(player, ClientPacket::EntityMovement { entity_id });
    }

    /// Starts or stops crouching (ids 0, 1) or sprinting (ids 3, 4); other ids
    /// change nothing. The others then see the flags and the pose.
    pub fn handle_entity_action(&mut self, player: usize, action_id: i32)
        requires
            old(self).wf(),
            player < old(self).players@.len(),
        ensures
            final(self).wf(),
            entity_action_effect(*old(self), *final(self), player, action_id),
    {
        if action_id == 0 {
            self.players[player].crouching = true;
        } else if action_id == 1 {
            self.players[player].crouching = false;
        } else if action_id == 3 {
            self.players[player].sprinting = true;
        } else if action_id == 4 {
            self.players[player].sprinting = false;
        }
        proof {
            lemma_update_keeps_wf(old(self).players@, player as int, self.players@[player as int]);
        }
        let crouching = self.players[player].crouching;
        let sprinting = self.players[player].sprinting;
        let flags: u8 = (if crouching { CROUCH_FLAG } else { 0 }) + (if sprinting { SPRINT_FLAG } else { 0 });
        let pose: u8 = if crouching {
            CROUCH_POSE
        } else {
            0
        };
        let entity_id = self.players[player].entity_id;
        assert(self.players@ =~= old(self).players@.update(
            player as int,
            self.players@[player as int],
        ));
        self.broadcast_one(player, ClientPacket::EntityFlags { entity_id, flags, pose });
    }

    /// Puts a client-chosen stack in inventory slot `slot`, or empties the slot
    /// when no item or an empty stack is given. A slot outside the inventory
    /// changes nothing. A stack put in the main hand, empty or not, is shown
    /// to the others.
    pub fn handle_creative_inventory_action(
        &mut self,
        player: usize,
        slot: i16,
        clicked_item: Option<SlotData>,
    )
        requires
            old(self).wf(),
            player < old(self).players@.len(),
        ensures
            final(self).wf(),
            creative_inventory_action_effect(*old(self), *final(self), player, slot, clicked_item),
    {
        if slot < 0 || slot >= INVENTORY_SIZE as i16 {
            return;
        }
        proof {
            assert(old(self).players@[player as int].wf());
        }
        let idx = slot as usize;
        let main_hand = self.players[player].selected_slot as usize + HOTBAR_START;
        let entity_id = self.players[player].entity_id;
        match clicked_item {
            Some(d) => {
                if d.count > 0 {
                    let item_id = d.item_id;
                    let count = d.count;
                    let st = ItemStack { item_id, count, damage: 0, nbt: d.nbt };
                    self.players[player].inventory[idx] = Some(st);
                    proof {
                        let q = self.players@[player as int];
                        assert forall|i: int| 0 <= i < INVENTORY_SIZE implies #[trigger] stack_ok(
                            q.inventory@[i],
                        ) by {
                            if i != idx {
                                assert(stack_ok(old(self).players@[player as int].inventory@[i]));
                            }
                        }
                        lemma_update_keeps_wf(old(self).players@, player as int, q);
                    }
                    assert(self.players@ =~= old(self).players@.update(
                        player as int,
                        self.players@[player as int],
                    ));
                    if idx == main_hand {
                        self.broadcast_one(
                            player,
                            ClientPacket::EntityEquipment {
                                entity_id,
                                item: Some(SlotSummary { item_id, count }),
                            },
                        );
                    }
                    return;
                }
                self.players[player].inventory[idx] = None;
                proof {
                    let q = self.players@[player as int];
                    assert forall|i: int| 0 <= i < INVENTORY_SIZE implies #[trigger] stack_ok(
                        q.inventory@[i],
                    ) by {
                        if i != idx {
                            assert(stack_ok(old(self).players@[player as int].inventory@[i]));
                        }
                    }
                    lemma_update_keeps_wf(old(self).players@, player as int, q);
                }
                assert(self.players@ =~= old(self).players@.update(
                    player as int,
                    self.players@[player as int],
                ));
                if idx == main_hand {
                    self.broadcast_one(player, ClientPacket::EntityEquipment { entity_id, item: None });
                }
                return;
            },
            None => {},
        }
        self.players[player].inventory[idx] = None;
        proof {
            let q = self.players@[player as int];
            assert forall|i: int| 0 <= i < INVENTORY_SIZE implies #[trigger] stack_ok(
                q.inventory@[i],
            ) by {
                if i != idx {
                    assert(stack_ok(old(self).players@[player as int].inventory@[i]));
                }
            }
            lemma_update_keeps_wf(old(self).players@, player as int, q);
        }
        assert(self.players@ =~= old(self).players@.update(
            player as int,
            self.players@[player as int],
        ));
    }

    /// Selects hotbar slot `slot` and shows the others what is now held; a
    /// slot outside the hotbar changes nothing.
    pub fn handle_held_item_change(&mut self, player: usize, slot: i16)
        requires
            old(self).wf(),
            player < old(self).players@.len(),
        ensures
            final(self).wf(),
            held_item_change_effect(*old(self), *final(self), player, slot),
    {
        if slot < 0 || slot >= HOTBAR_SIZE as i16 {
            return;
        }
        proof {
            assert(old(self).players@[player as int].wf());
        }
        let item = summary(&self.players[player].inventory[slot as usize + HOTBAR_START]);
        let entity_id = self.players[player].entity_id;
        self.players[player].selected_slot = slot as u32;
        proof {
            lemma_update_keeps_wf(old(self).players@, player as int, self.players@[player as int]);
        }
        assert(self.players@ =~= old(self).players@.update(
            player as int,
            self.players@[player as int],
        ));
        self.broadcast_one(player, ClientPacket::EntityEquipment { entity_id, item });
    }

    /// A right click on the block at `pos`. Outside the plot the player is told
    /// so and the block beyond the clicked face is sent again to undo the
    /// client's guess. Inside, the item in the used hand (main hand for hand 0,
    /// off hand otherwise) is used on the block; with an empty hand the block's
    /// own use runs, unless the player crouches.
    pub fn handle_player_block_placement(
        &mut self,
        player: usize,
        pos: BlockPos,
        face_id: u32,
        hand: i32,
    )
        requires
            old(self).wf(),
            player < old(self).players@.len(),
        ensures
            final(self).wf(),
            player_block_placement_effect(*old(self), *final(self), player, pos, face_id, hand),
    {
        proof {
            assert(old(self).players@[player as int].wf());
        }
        let face = BlockFace::from_id(face_id);
        if !in_plot_bounds(self.x, self.z, pos.x, pos.z) {
            self.players[player].notify(Notice::OutsideInteract);
            proof {
                lemma_update_keeps_wf(
                    old(self).players@,
                    player as int,
                    self.players@[player as int],
                );
            }
            self.world_actions.push(WorldAction::ResendBlock { pos: pos.offset(face) });
            return;
        }
        let slot = if hand == 0 {
            self.players[player].selected_slot as usize + HOTBAR_START
        } else {
            OFF_HAND_SLOT
        };
        let crouching = self.players[player].crouching;
        if self.players[player].inventory[slot].is_some() {
            let facing = facing(self.players[player].yaw);
            self.world_actions.push(
                WorldAction::UseItemOnBlock { player, slot, face, pos, crouching, facing },
            );
        } else if !crouching {
            self.world_actions.push(WorldAction::UseBlock { pos });
        }
    }

    /// A digging event. Starting to break a block outside the plot only tells
    /// the player so. Inside, with the selection wand in the main hand the
    /// block is sent again unbroken and becomes the first selection corner
    /// (clicking the current corner again changes nothing); without it the
    /// block is destroyed. Dropping the stack empties the main hand; dropping
    /// one takes one item from it. Other statuses change nothing.
    pub fn handle_player_digging(&mut self, player: usize, status: i32, pos: BlockPos)
        requires
            old(self).wf(),
            player < old(self).players@.len(),
        ensures
            final(self).wf(),
            player_digging_effect(*old(self), *final(self), player, status, pos),
    {
        proof {
            assert(old(self).players@[player as int].wf());
        }
        let main_hand = self.players[player].selected_slot as usize + HOTBAR_START;
        if status == DIG_START {
            if !in_plot_bounds(self.x, self.z, pos.x, pos.z) {
                self.players[player].notify(Notice::OutsideBreak);
                proof {
                    lemma_update_keeps_wf(
                        old(self).players@,
                        player as int,
                        self.players@[player as int],
                    );
                }
                return;
            }
            let wand = match &self.players[player].inventory[main_hand] {
                Some(st) => st.item_id == SELECTION_WAND_ID,
                None => false,
            };
            if wand {
                self.world_actions.push(WorldAction::ResendBlock { pos });
                let again = match self.players[player].first_position {
                    Some(first) => first == pos,
                    None => false,
                };
                if !again {
                    self.players[player].set_first_position(pos);
                    proof {
                        lemma_update_keeps_wf(
                            old(self).players@,
                            player as int,
                            self.players@[player as int],
                        );
                    }
                }
                return;
            }
            self.world_actions.push(WorldAction::DestroyBlock { player, pos });
            return;
        }
        if status == DIG_DROP_STACK {
            self.players[player].inventory[main_hand] = None;
        } else if status == DIG_DROP_ONE {
            let held = self.players[player].inventory[main_hand].take();
            let next = match held {
                Some(st) => if st.count <= 1 {
                    None
                } else {
                    Some(ItemStack { count: st.count - 1, ..st })
                },
                None => None,
            };
            self.players[player].inventory[main_hand] = next;
        }
        proof {
            let q = self.players@[player as int];
            assert forall|i: int| 0 <= i < INVENTORY_SIZE implies #[trigger] stack_ok(
                q.inventory@[i],
            ) by {
                if i != main_hand {
                    assert(stack_ok(old(self).players@[player as int].inventory@[i]));
                }
            }
            lemma_update_keeps_wf(old(self).players@, player as int, q);
        }
        assert(self.players@ =~= old(self).players@.update(
            player as int,
            self.players@[player as int],
        ));
        assert(self.players@ == old(self).players@.update(
            player as int,
            Player { inventory: self.players@[player as int].inventory, ..old(self).players@[player as int] },
        ));
        let ghost held = old(self).players@[player as int].inventory@;
        assert(status == DIG_DROP_STACK ==> self.players@[player as int].inventory@ == held.update(
            main_hand as int,
            None,
        ));
        assert(status == DIG_DROP_ONE ==> self.players@[player as int].inventory@ == held.update(
            main_hand as int,
            after_drop_one(held[main_hand as int]),
        ));
    }

    /// A chat line. One starting with `/` is queued as a command; any other
    /// goes to the server to be relayed everywhere.
    pub fn handle_chat_message(&mut self, player: usize, message: String)
        requires
            old(self).wf(),
            player < old(self).players@.len(),
        ensures
            final(self).wf(),
            chat_message_effect(*old(self), *final(self), player, message),
    {
        let is_command = !message.as_str().is_empty() && message.as_str().get_char(0) == '/';
        if is_command {
            self.players[player].command_queue.push(message);
            proof {
                lemma_update_keeps_wf(
                    old(self).players@,
                    player as int,
                    self.players@[player as int],
                );
            }
            assert(self.players@ =~= old(self).players@.update(
                player as int,
                self.players@[player as int],
            ));
        } else {
            let uuid = self.players[player].uuid;
            let username = self.players[player].username.clone();
            self.bus.push(BusMessage::Chat { uuid, username, message });
            assert(self.bus@.drop_last() =~= old(self).bus@);
        }
    }

    /// After the block at `pos` was destroyed for `player`: the others see it
    /// break, with the identity of the block it was.
    pub fn announce_block_break(&mut self, player: usize, pos: BlockPos, block: u32)
        requires
            old(self).wf(),
            player < old(self).players@.len(),
        ensures
            final(self).wf(),
            fanned_out(
                old(self).players@,
                final(self).players@,
                player as int,
                seq![ClientPacket::BlockBreakEffect { pos, block }],
            ),
            *final(self) == (Plot { players: final(self).players, ..*old(self) }),
    {
        self.broadcast_one(player, ClientPacket::BlockBreakEffect { pos, block });
    }

    /// Tells `player` of `n`.
    pub fn notify_player(&mut self, player: usize, n: Notice)
        requires
            old(self).wf(),
            player < old(self).players@.len(),
        ensures
            final(self).wf(),
            notified(old(self).players@, final(self).players@, player as int, n),
            *final(self) == (Plot { players: final(self).players, ..*old(self) }),
    {
        self.players[player].notify(n);
        proof {
            lemma_update_keeps_wf(old(self).players@, player as int, self.players@[player as int]);
        }
        assert(self.players@ =~= old(self).players@.update(
            player as int,
            self.players@[player as int],
        ));
    }

    /// After a region operation for `player` failed on an unknown block.
    pub fn report_invalid_block(&mut self, player: usize)
        requires
            old(self).wf(),
            player < old(self).players@.len(),
        ensures
            final(self).wf(),
            notified(old(self).players@, final(self).players@, player as int, Notice::InvalidBlock),
            *final(self) == (Plot { players: final(self).players, ..*old(self) }),
    {
        self.notify_player(player, Notice::InvalidBlock);
    }

    /// After `ticks` ticks ran back to back for `player`, taking `micros`
    /// microseconds of wall-clock time.
    pub fn report_advanced(&mut self, player: usize, ticks: u32, micros: u64)
        requires
            old(self).wf(),
            player < old(self).players@.len(),
        ensures
            final(self).wf(),
            notified(
                old(self).players@,
                final(self).players@,
                player as int,
                Notice::Advanced { ticks, micros },
            ),
            *final(self) == (Plot { players: final(self).players, ..*old(self) }),
    {
        self.notify_player(player, Notice::Advanced { ticks, micros });
    }

    /// Hands `packet` from `player` to the handler for its kind; `now` is the
    /// time it arrived. Plugin messages are ignored.
    pub fn handle_packet(&mut self, player: usize, packet: ServerBoundPacket, now: u64)
        requires
            old(self).wf(),
            player < old(self).players@.len(),
        ensures
            final(self).wf(),
            final(self).players@.len() == old(self).players@.len(),
            packet_effect(*old(self), *final(self), player, packet, now),
    {
        match packet {
            ServerBoundPacket::KeepAlive => self.handle_keep_alive(player, now),
            ServerBoundPacket::CreativeInventoryAction { slot, clicked_item } => {
                self.handle_creative_inventory_action(player, slot, clicked_item)
            },
            ServerBoundPacket::PlayerAbilities { is_flying } => {
                self.handle_player_abilities(player, is_flying)
            },
            ServerBoundPacket::Animation { hand } => self.handle_animation(player, hand),
            ServerBoundPacket::PlayerBlockPlacement { pos, face, hand } => {
                self.handle_player_block_placement(player, pos, face, hand)
            },
            ServerBoundPacket::ChatMessage { message } => self.handle_chat_message(player, message),
            ServerBoundPacket::ClientSettings { displayed_skin_parts } => {
                self.handle_client_settings(player, displayed_skin_parts)
            },
            ServerBoundPacket::PluginMessage { channel: _ } => {},
            ServerBoundPacket::PlayerPosition { pos, on_ground } => {
                self.handle_player_position(player, pos, on_ground)
            },
            ServerBoundPacket::PlayerPositionAndRotation { pos, yaw, pitch, on_ground } => {
                self.handle_player_position_and_rotation(player, pos, yaw, pitch, on_ground)
            },
            ServerBoundPacket::PlayerRotation { yaw, pitch, on_ground } => {
                self.handle_player_rotation(player, yaw, pitch, on_ground)
            },
            ServerBoundPacket::PlayerMovement { on_ground } => {
                self.handle_player_movement(player, on_ground)
            },
            ServerBoundPacket::PlayerDigging { status, pos } => {
                self.handle_player_digging(player, status, pos)
            },
            ServerBoundPacket::EntityAction { action_id } => {
                self.handle_entity_action(player, action_id)
            },
            ServerBoundPacket::HeldItemChange { slot } => self.handle_held_item_change(player, slot),
        }
    }

    /// Handles the packets `player` sent, in the order they came.
    pub fn handle_packets_for_player(
        &mut self,
        player: usize,
        packets: Vec<ServerBoundPacket>,
        now: u64,
    )
        requires
            old(self).wf(),
            player < old(self).players@.len(),
        ensures
            final(self).wf(),
            final(self).players@.len() == old(self).players@.len(),
            exists|states: Seq<Plot>|
                {
                    &&& states.len() == packets@.len() + 1
                    &&& states[0] == *old(self)
                    &&& states.last() == *final(self)
                    &&& forall|i: int|
                        0 <= i < packets@.len() ==> packet_effect(
                            #[trigger] states[i],
                            states[i + 1],
                            player,
                            packets@[i],
                            now,
                        )
                },
    {
        let ghost all = packets@;
        let ghost mut states: Seq<Plot> = seq![*self];
        let mut rest = packets;
        while rest.len() > 0
            invariant
                self.wf(),
                self.players@.len() == old(self).players@.len(),
                player < self.players@.len(),
                self.x == old(self).x && self.z == old(self).z,
                rest@.len() <= all.len(),
                rest@ == all.skip(all.len() - rest@.len()),
                states.len() == all.len() - rest@.len() + 1,
                states[0] == *old(self),
                states.last() == *self,
                forall|i: int|
                    0 <= i < states.len() - 1 ==> packet_effect(
                        #[trigger] states[i],
                        states[i + 1],
                        player,
                        all[i],
                        now,
                    ),
            decreases rest@.len(),
        {
            let ghost done = all.len() - rest@.len();
            let packet = rest.remove(0);
            assert(packet == all[done]);
            assert(rest@ =~= all.skip(all.len() - rest@.len()));
            self.handle_packet(player, packet, now);
            proof {
                states = states.push(*self);
            }
        }
        assert(states.len() == all.len() + 1);
    }
}

} // verus!
