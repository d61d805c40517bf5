use vstd::prelude::*;
use crate::geometry::{BlockPos, Position};

verus! {

/// Number of inventory slots a player has.
pub const INVENTORY_SIZE: usize = 46;

/// Inventory index of the first hotbar slot; hotbar slot `s` is index `s + HOTBAR_START`.
pub const HOTBAR_START: usize = 36;

/// Number of hotbar slots.
pub const HOTBAR_SIZE: u32 = 9;

/// Inventory index of the off-hand slot.
pub const OFF_HAND_SLOT: usize = 45;

/// A stack of items in one inventory slot. A stored stack never has count 0.
#[derive(Debug)]
pub struct ItemStack {
    pub item_id: u32,
    pub count: u8,
    pub damage: u16,
    /// Auxiliary item data, carried as it came and never read here.
    pub nbt: Option<Vec<u8>>,
}

/// What observers are told about a held stack.
#[derive(Clone, Copy, Debug, PartialEq, Eq, Structural)]
pub struct SlotSummary {
    pub item_id: u32,
    pub count: u8,
}

/// A message shown to a single player.
#[derive(Clone, Copy, Debug, PartialEq, Eq, Structural)]
pub enum Notice {
    AlreadyClaimed,
    Claimed { x: i32, z: i32 },
    Owner(u128),
    Unowned,
    WrongPlotArgument,
    WrongArgumentCount,
    BadX,
    BadY,
    BadZ,
    InvalidBlock,
    RtpsMissing,
    RtpsUnparsable,
    RtpsTooHigh,
    RtpsSet,
    TicksMissing,
    TicksUnparsable,
    Advanced { ticks: u32, micros: u64 },
    TeleportUsage,
    CommandNotFound,
    OutsideInteract,
    OutsideBreak,
    FirstPositionSet(BlockPos),
    SecondPositionSet(BlockPos),
}

/// An update sent to a client.
#[derive(Clone, Copy, Debug, PartialEq, Eq, Structural)]
pub enum ClientPacket {
    /// What an entity holds in its main hand.
    EntityEquipment { entity_id: u32, item: Option<SlotSummary> },
    EntityAnimation { entity_id: u32, animation: u8 },
    /// Displayed skin parts, as a bit set.
    SkinParts { entity_id: u32, parts: u8 },
    /// Crouch and sprint flags (bits 0x02 and 0x08) with the pose they imply.
    EntityFlags { entity_id: u32, flags: u8, pose: u8 },
    EntityTeleport { entity_id: u32, pos: Position, yaw: i32, pitch: i32, on_ground: bool },
    EntityPosition { entity_id: u32, dx: i16, dy: i16, dz: i16, on_ground: bool },
    EntityPositionAndRotation {
        entity_id: u32,
        dx: i16,
        dy: i16,
        dz: i16,
        yaw: i32,
        pitch: i32,
        on_ground: bool,
    },
    EntityRotation { entity_id: u32, yaw: i32, pitch: i32, on_ground: bool },
    EntityHeadLook { entity_id: u32, yaw: i32 },
    EntityMovement { entity_id: u32 },
    /// Particles and sound of a block that broke.
    BlockBreakEffect { pos: BlockPos, block: u32 },
    /// Moves the receiving player itself.
    PositionAndLook { pos: Position, yaw: i32, pitch: i32 },
    System(Notice),
}

/// A connected player as the plot holds it.
#[derive(Debug)]
pub struct Player {
    pub uuid: u128,
    pub username: String,
    pub entity_id: u32,
    /// Position in sub-units.
    pub pos: Position,
    /// Yaw and pitch in hundredths of a degree.
    pub yaw: i32,
    pub pitch: i32,
    pub on_ground: bool,
    pub flying: bool,
    pub crouching: bool,
    pub sprinting: bool,
    pub skin_parts: u8,
    pub inventory: Vec<Option<ItemStack>>,
    /// Hotbar slot held in the main hand, below `HOTBAR_SIZE`.
    pub selected_slot: u32,
    pub first_position: Option<BlockPos>,
    pub second_position: Option<BlockPos>,
    /// Commands received and not yet run, oldest first.
    pub command_queue: Vec<String>,
    /// When the last keep-alive arrived, in the caller's clock.
    pub last_keep_alive: u64,
    /// Packets waiting to be sent to this player, oldest first.
    pub outbox: Vec<ClientPacket>,
}

pub open spec fn stack_ok(s: Option<ItemStack>) -> bool {
    s matches Some(st) ==> st.count > 0
}

impl Player {
    pub open spec fn wf(&self) -> bool {
        &&& self.inventory@.len() == INVENTORY_SIZE
        &&& self.selected_slot < HOTBAR_SIZE
        &&& forall|i: int| 0 <= i < INVENTORY_SIZE ==> #[trigger] stack_ok(self.inventory@[i])
    }

    /// Inventory index of the main hand.
    pub open spec fn main_hand(&self) -> int {
        self.selected_slot + HOTBAR_START
    }

    /// A player with an empty inventory, standing still at `pos`.
    pub fn new(uuid: u128, username: String, entity_id: u32, pos: Position) -> (r: Player)
        ensures
            r.wf(),
            r.uuid == uuid,
            r.username == username,
            r.entity_id == entity_id,
            r.pos == pos,
            r.yaw == 0 && r.pitch == 0,
            r.on_ground,
            !r.flying && !r.crouching && !r.sprinting,
            r.skin_parts == 0,
            r.last_keep_alive == 0,
            r.selected_slot == 0,
            r.first_position is None,
            r.second_position is None,
            r.command_queue@.len() == 0,
            r.outbox@.len() == 0,
            forall|i: int| 0 <= i < INVENTORY_SIZE ==> r.inventory@[i] is None,
    {
        let mut inventory: Vec<Option<ItemStack>> = Vec::new();
        while inventory.len() < INVENTORY_SIZE
            invariant
                inventory@.len() <= INVENTORY_SIZE,
                forall|i: int| 0 <= i < inventory@.len() ==> inventory@[i] is None,
            decreases INVENTORY_SIZE - inventory@.len(),
        {
            inventory.push(None);
        }
        Player {
            uuid,
            username,
            entity_id,
            pos,
            yaw: 0,
            pitch: 0,
            on_ground: true,
            flying: false,
            crouching: false,
            sprinting: false,
            skin_parts: 0,
            inventory,
            selected_slot: 0,
            first_position: None,
            second_position: None,
            command_queue: Vec::new(),
            last_keep_alive: 0,
            outbox: Vec::new(),
        }
    }

    /// Queues `p` for this player.
    pub fn send(&mut self, p: ClientPacket)
        ensures
            *final(self) == (Player { outbox: final(self).outbox, ..*old(self) }),
            final(self).outbox@ == old(self).outbox@.push(p),
    {
        self.outbox.push(p);
    }

    /// Tells this player `n`.
    pub fn notify(&mut self, n: Notice)
        ensures
            *final(self) == (Player { outbox: final(self).outbox, ..*old(self) }),
            final(self).outbox@ == old(self).outbox@.push(ClientPacket::System(n)),
    {
        self.outbox.push(ClientPacket::System(n));
    }

    /// Sets the first corner of the region selection and confirms it.
    pub fn set_first_position(&mut self, pos: BlockPos)
        ensures
            *final(self) == (Player {
                first_position: Some(pos),
                outbox: final(self).outbox,
                ..*old(self)
            }),
            final(self).outbox@ == old(self).outbox@.push(
                ClientPacket::System(Notice::FirstPositionSet(pos)),
            ),
    {
        self.first_position = Some(pos);
        self.notify(Notice::FirstPositionSet(pos));
    }

    /// Sets the second corner of the region selection and confirms it.
    pub fn set_second_position(&mut self, pos: BlockPos)
        ensures
            *final(self) == (Player {
                second_position: Some(pos),
                outbox: final(self).outbox,
                ..*old(self)
            }),
            final(self).outbox@ == old(self).outbox@.push(
                ClientPacket::System(Notice::SecondPositionSet(pos)),
            ),
    {
        self.second_position = Some(pos);
        self.notify(Notice::SecondPositionSet(pos));
    }
}

impl Notice {
    /// The wording of a notice that carries no values; `None` for the others.
    pub fn fixed_text(&self) -> (r: Option<&'static str>)
        ensures
            r is None <==> (self is Claimed || self is Owner || self is Advanced
                || self is FirstPositionSet || self is SecondPositionSet),
            *self == Notice::AlreadyClaimed ==> r == Some("Plot is already claimed!"),
            *self == Notice::Unowned ==> r == Some("Plot is not owned by anyone."),
            *self == Notice::WrongPlotArgument ==> r == Some("Wrong argument for /plot"),
            *self == Notice::WrongArgumentCount ==> r == Some("Wrong number of arguments!"),
            *self == Notice::BadX ==> r == Some("Unable to parse x coordinate!"),
            *self == Notice::BadY ==> r == Some("Unable to parse y coordinate!"),
            *self == Notice::BadZ ==> r == Some("Unable to parse z coordinate!"),
            *self == Notice::InvalidBlock ==> r == Some("Invalid block. Note that not all blocks are supported."),
            *self == Notice::RtpsMissing ==> r == Some("Please specify the rtps you want to set to."),
            *self == Notice::RtpsUnparsable ==> r == Some("Unable to parse rtps!"),
            *self == Notice::RtpsTooHigh ==> r == Some("The rtps cannot go higher than 35000!"),
            *self == Notice::RtpsSet ==> r == Some("The rtps was successfully set."),
            *self == Notice::TicksMissing ==> r == Some("Please specify a number of ticks to advance."),
            *self == Notice::TicksUnparsable ==> r == Some("Unable to parse ticks!"),
            *self == Notice::TeleportUsage ==> r == Some("Wrong number of arguments for teleport command!"),
            *self == Notice::CommandNotFound ==> r == Some("Command not found!"),
            *self == Notice::OutsideInteract ==> r == Some("Can't interact with blocks outside of plot"),
            *self == Notice::OutsideBreak ==> r == Some("Can't break blocks outside of plot"),
    {
        match self {
            Notice::AlreadyClaimed => Some("Plot is already claimed!"),
            Notice::Unowned => Some("Plot is not owned by anyone."),
            Notice::WrongPlotArgument => Some("Wrong argument for /plot"),
            Notice::WrongArgumentCount => Some("Wrong number of arguments!"),
            Notice::BadX => Some("Unable to parse x coordinate!"),
            Notice::BadY => Some("Unable to parse y coordinate!"),
            Notice::BadZ => Some("Unable to parse z coordinate!"),
            Notice::InvalidBlock => Some("Invalid block. Note that not all blocks are supported."),
            Notice::RtpsMissing => Some("Please specify the rtps you want to set to."),
            Notice::RtpsUnparsable => Some("Unable to parse rtps!"),
            Notice::RtpsTooHigh => Some("The rtps cannot go higher than 35000!"),
            Notice::RtpsSet => Some("The rtps was successfully set."),
            Notice::TicksMissing => Some("Please specify a number of ticks to advance."),
            Notice::TicksUnparsable => Some("Unable to parse ticks!"),
            Notice::TeleportUsage => Some("Wrong number of arguments for teleport command!"),
            Notice::CommandNotFound => Some("Command not found!"),
            Notice::OutsideInteract => Some("Can't interact with blocks outside of plot"),
            Notice::OutsideBreak => Some("Can't break blocks outside of plot"),
            _ => None,
        }
    }
}

} // verus!
