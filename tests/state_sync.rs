use plot_sync::geometry::{BlockPos, Direction, Position};
use plot_sync::packet_handlers::{ServerBoundPacket, SlotData, SELECTION_WAND_ID};
use plot_sync::player::{ClientPacket, Notice, Player, SlotSummary};
use plot_sync::plot::{BusMessage, Plot, WorldAction};

fn plot_with_three() -> Plot {
    let mut plot = Plot::new(0, 0);
    for (i, name) in ["alice", "bob", "carol"].iter().enumerate() {
        let p = Player::new(i as u128 + 1, name.to_string(), 10 * (i as u32 + 1), Position { x: 0, y: 0, z: 0 });
        assert!(plot.add_player(p).is_none());
    }
    plot
}

fn item(id: u32, count: u8) -> Option<SlotData> {
    Some(SlotData { item_id: id, count, nbt: None })
}

#[test]
fn duplicate_identity_is_refused() {
    let mut plot = plot_with_three();
    let again = Player::new(2, "bob".to_string(), 99, Position { x: 0, y: 0, z: 0 });
    assert!(plot.add_player(again).is_some());
    assert_eq!(plot.players.len(), 3);
}

#[test]
fn creative_slot_out_of_range_is_ignored() {
    let mut plot = plot_with_three();
    plot.handle_creative_inventory_action(0, 46, item(1, 1));
    plot.handle_creative_inventory_action(0, -1, item(1, 1));
    plot.handle_creative_inventory_action(0, i16::MAX, None);
    assert!(plot.players[0].inventory.iter().all(|s| s.is_none()));
    assert!(plot.players.iter().all(|p| p.outbox.is_empty()));
}

#[test]
fn creative_main_hand_is_shown_to_others() {
    let mut plot = plot_with_three();
    plot.handle_creative_inventory_action(0, 36, item(7, 12));
    let st = plot.players[0].inventory[36].as_ref().unwrap();
    assert_eq!((st.item_id, st.count, st.damage), (7, 12, 0));
    let expected = ClientPacket::EntityEquipment { entity_id: 10, item: Some(SlotSummary { item_id: 7, count: 12 }) };
    assert_eq!(plot.players[1].outbox, vec![expected]);
    assert_eq!(plot.players[2].outbox, vec![expected]);
    assert!(plot.players[0].outbox.is_empty());
}

#[test]
fn creative_other_slot_and_clearing() {
    let mut plot = plot_with_three();
    plot.handle_creative_inventory_action(0, 0, item(3, 1));
    assert!(plot.players[0].inventory[0].is_some());
    assert!(plot.players[1].outbox.is_empty());
    plot.handle_creative_inventory_action(0, 0, None);
    assert!(plot.players[0].inventory[0].is_none());
    plot.handle_creative_inventory_action(0, 5, item(3, 0));
    assert!(plot.players[0].inventory[5].is_none());
}

#[test]
fn held_item_change_selects_and_shows() {
    let mut plot = plot_with_three();
    plot.handle_creative_inventory_action(1, 40, item(9, 2));
    plot.handle_held_item_change(1, 4);
    assert_eq!(plot.players[1].selected_slot, 4);
    assert_eq!(
        plot.players[0].outbox,
        vec![ClientPacket::EntityEquipment { entity_id: 20, item: Some(SlotSummary { item_id: 9, count: 2 }) }]
    );
    plot.handle_held_item_change(1, 9);
    plot.handle_held_item_change(1, -1);
    assert_eq!(plot.players[1].selected_slot, 4);
    assert_eq!(plot.players[0].outbox.len(), 1);
}

#[test]
fn entity_actions_set_flags_and_pose() {
    let mut plot = plot_with_three();
    plot.handle_entity_action(0, 0);
    plot.handle_entity_action(0, 3);
    assert!(plot.players[0].crouching && plot.players[0].sprinting);
    plot.handle_entity_action(0, 1);
    plot.handle_entity_action(0, 7);
    assert_eq!(
        plot.players[1].outbox,
        vec![
            ClientPacket::EntityFlags { entity_id: 10, flags: 0x02, pose: 5 },
            ClientPacket::EntityFlags { entity_id: 10, flags: 0x0a, pose: 5 },
            ClientPacket::EntityFlags { entity_id: 10, flags: 0x08, pose: 0 },
            ClientPacket::EntityFlags { entity_id: 10, flags: 0x08, pose: 0 },
        ]
    );
}

#[test]
fn skin_parts_are_masked_and_shown_to_others() {
    let mut plot = plot_with_three();
    plot.handle_client_settings(2, 0xff);
    assert_eq!(plot.players[2].skin_parts, 0x7f);
    assert_eq!(plot.players[0].outbox, vec![ClientPacket::SkinParts { entity_id: 30, parts: 0x7f }]);
    assert!(plot.players[2].outbox.is_empty());
}

#[test]
fn animation_picks_hand() {
    let mut plot = plot_with_three();
    plot.handle_animation(0, 1);
    plot.handle_animation(0, 0);
    plot.handle_animation(0, 5);
    assert_eq!(
        plot.players[2].outbox,
        vec![
            ClientPacket::EntityAnimation { entity_id: 10, animation: 3 },
            ClientPacket::EntityAnimation { entity_id: 10, animation: 0 },
            ClientPacket::EntityAnimation { entity_id: 10, animation: 0 },
        ]
    );
}

#[test]
fn chat_commands_are_queued_and_chat_is_relayed() {
    let mut plot = plot_with_three();
    plot.handle_chat_message(0, "/rtps 20".to_string());
    assert_eq!(plot.players[0].command_queue, vec!["/rtps 20".to_string()]);
    plot.handle_chat_message(1, "hello".to_string());
    plot.handle_chat_message(1, String::new());
    assert_eq!(plot.bus.len(), 2);
    match &plot.bus[0] {
        BusMessage::Chat { uuid, username, message } => {
            assert_eq!((*uuid, username.as_str(), message.as_str()), (2, "bob", "hello"));
        }
        other => panic!("unexpected {:?}", other),
    }
}

#[test]
fn wand_click_sets_first_corner_once() {
    let mut plot = plot_with_three();
    plot.handle_creative_inventory_action(0, 36, item(SELECTION_WAND_ID, 1));
    let pos = BlockPos { x: 5, y: 10, z: 7 };
    plot.handle_player_digging(0, 0, pos);
    assert_eq!(plot.players[0].first_position, Some(pos));
    assert_eq!(plot.players[0].outbox, vec![ClientPacket::System(Notice::FirstPositionSet(pos))]);
    plot.handle_player_digging(0, 0, pos);
    assert_eq!(plot.players[0].first_position, Some(pos));
    assert_eq!(plot.players[0].outbox.len(), 1);
    assert_eq!(plot.world_actions.len(), 2);
    assert!(plot.world_actions.iter().all(|a| matches!(a, WorldAction::ResendBlock { pos: p } if *p == pos)));
}

#[test]
fn digging_without_wand_destroys() {
    let mut plot = plot_with_three();
    let pos = BlockPos { x: 1, y: 2, z: 3 };
    plot.handle_player_digging(1, 0, pos);
    assert!(matches!(plot.world_actions[0], WorldAction::DestroyBlock { player: 1, pos: p } if p == pos));
    plot.announce_block_break(1, pos, 42);
    assert_eq!(plot.players[0].outbox, vec![ClientPacket::BlockBreakEffect { pos, block: 42 }]);
    assert!(plot.players[1].outbox.is_empty());
}

#[test]
fn digging_outside_plot_is_refused() {
    let mut plot = plot_with_three();
    plot.handle_player_digging(0, 0, BlockPos { x: 128, y: 2, z: 3 });
    assert!(plot.world_actions.is_empty());
    assert_eq!(plot.players[0].outbox, vec![ClientPacket::System(Notice::OutsideBreak)]);
}

#[test]
fn dropping_items_from_main_hand() {
    let mut plot = plot_with_three();
    plot.handle_creative_inventory_action(0, 36, item(4, 2));
    plot.handle_player_digging(0, 4, BlockPos { x: 0, y: 0, z: 0 });
    assert_eq!(plot.players[0].inventory[36].as_ref().unwrap().count, 1);
    plot.handle_player_digging(0, 4, BlockPos { x: 0, y: 0, z: 0 });
    assert!(plot.players[0].inventory[36].is_none());
    plot.handle_player_digging(0, 4, BlockPos { x: 0, y: 0, z: 0 });
    assert!(plot.players[0].inventory[36].is_none());
    plot.handle_creative_inventory_action(0, 36, item(4, 64));
    plot.handle_player_digging(0, 3, BlockPos { x: 0, y: 0, z: 0 });
    assert!(plot.players[0].inventory[36].is_none());
    plot.handle_creative_inventory_action(0, 36, item(4, 64));
    plot.handle_player_digging(0, 2, BlockPos { x: 0, y: 0, z: 0 });
    assert_eq!(plot.players[0].inventory[36].as_ref().unwrap().count, 64);
}

#[test]
fn placement_outside_plot_resends_neighbour() {
    let mut plot = plot_with_three();
    plot.handle_player_block_placement(0, BlockPos { x: -1, y: 5, z: 0 }, 1, 0);
    assert_eq!(plot.players[0].outbox, vec![ClientPacket::System(Notice::OutsideInteract)]);
    assert!(matches!(plot.world_actions[0], WorldAction::ResendBlock { pos: BlockPos { x: -1, y: 6, z: 0 } }));
}

#[test]
fn placement_uses_item_or_block() {
    let mut plot = plot_with_three();
    let pos = BlockPos { x: 3, y: 5, z: 4 };
    plot.handle_player_block_placement(0, pos, 5, 0);
    assert!(matches!(plot.world_actions[0], WorldAction::UseBlock { pos: p } if p == pos));
    plot.handle_entity_action(0, 0);
    plot.handle_player_block_placement(0, pos, 5, 0);
    assert_eq!(plot.world_actions.len(), 1);
    plot.handle_creative_inventory_action(0, 45, item(1, 1));
    plot.players[0].yaw = 18000;
    plot.handle_player_block_placement(0, pos, 2, 1);
    match plot.world_actions[1] {
        WorldAction::UseItemOnBlock { player, slot, face, pos: p, crouching, facing } => {
            assert_eq!((player, slot, p, crouching, facing), (0, 45, pos, true, Direction::North));
            assert_eq!(face, plot_sync::geometry::BlockFace::North);
        }
        ref other => panic!("unexpected {:?}", other),
    }
}

#[test]
fn dispatcher_routes_in_order() {
    let mut plot = plot_with_three();
    let packets = vec![
        ServerBoundPacket::KeepAlive,
        ServerBoundPacket::PlayerAbilities { is_flying: true },
        ServerBoundPacket::PluginMessage { channel: "minecraft:brand".to_string() },
        ServerBoundPacket::PlayerMovement { on_ground: false },
    ];
    plot.handle_packets_for_player(2, packets, 77);
    assert_eq!(plot.players[2].last_keep_alive, 77);
    assert!(plot.players[2].flying);
    assert!(!plot.players[2].on_ground);
    assert_eq!(plot.players[0].outbox, vec![ClientPacket::EntityMovement { entity_id: 30 }]);
}

#[test]
fn empty_stack_in_main_hand_is_shown_as_empty() {
    let mut plot = plot_with_three();
    plot.handle_creative_inventory_action(0, 36, item(7, 3));
    plot.handle_creative_inventory_action(0, 36, item(7, 0));
    assert!(plot.players[0].inventory[36].is_none());
    assert_eq!(plot.players[1].outbox[1], ClientPacket::EntityEquipment { entity_id: 10, item: None });
    plot.handle_creative_inventory_action(0, 36, None);
    assert_eq!(plot.players[1].outbox.len(), 2);
}

#[test]
fn placement_bottom_face_at_height_zero_stays() {
    let mut plot = plot_with_three();
    plot.handle_player_block_placement(0, BlockPos { x: 200, y: 0, z: 0 }, 0, 0);
    assert!(matches!(plot.world_actions[0], WorldAction::ResendBlock { pos: BlockPos { x: 200, y: 0, z: 0 } }));
}

#[test]
fn notice_wording_is_exact() {
    assert_eq!(Notice::AlreadyClaimed.fixed_text(), Some("Plot is already claimed!"));
    assert_eq!(Notice::OutsideBreak.fixed_text(), Some("Can't break blocks outside of plot"));
}
