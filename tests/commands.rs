use plot_sync::geometry::{BlockPos, Position, UNITS_PER_BLOCK};
use plot_sync::ownership::OwnershipRegistry;
use plot_sync::player::{ClientPacket, Notice, Player};
use plot_sync::plot::{BusMessage, Plot, RegionOp, WorldAction};

fn plot_with(players: &[(u128, &str, i64, i64)]) -> Plot {
    let mut plot = Plot::new(3, 3);
    for (i, (uuid, name, x, z)) in players.iter().enumerate() {
        let pos = Position { x: *x * UNITS_PER_BLOCK, y: 64 * UNITS_PER_BLOCK, z: *z * UNITS_PER_BLOCK };
        assert!(plot.add_player(Player::new(*uuid, name.to_string(), i as u32, pos)).is_none());
    }
    plot
}

fn last_notice(plot: &Plot, player: usize) -> Notice {
    match plot.players[player].outbox.last() {
        Some(ClientPacket::System(n)) => *n,
        other => panic!("no notice: {:?}", other),
    }
}

#[test]
fn claim_then_info_from_another_player() {
    let mut owners = OwnershipRegistry::new();
    let mut plot = plot_with(&[(0xabc, "alice", 400, 420), (0xdef, "bob", 410, 390)]);
    plot.handle_command(0, "/plot", vec!["claim"], &mut owners);
    assert_eq!(last_notice(&plot, 0), Notice::Claimed { x: 3, z: 3 });
    assert_eq!(owners.get_owner(3, 3), Some(0xabc));
    plot.handle_command(1, "/p", vec!["info"], &mut owners);
    assert_eq!(last_notice(&plot, 1), Notice::Owner(0xabc));
}

#[test]
fn second_claim_keeps_first_owner() {
    let mut owners = OwnershipRegistry::new();
    let mut plot = plot_with(&[(1, "alice", 400, 400), (2, "bob", 401, 401)]);
    plot.handle_command(0, "/plot", vec!["c"], &mut owners);
    plot.handle_command(1, "/plot", vec!["claim"], &mut owners);
    assert_eq!(last_notice(&plot, 1), Notice::AlreadyClaimed);
    assert_eq!(owners.get_owner(3, 3), Some(1));
    plot.handle_command(0, "/plot", vec!["claim"], &mut owners);
    assert_eq!(last_notice(&plot, 0), Notice::AlreadyClaimed);
    assert_eq!(owners.get_owner(3, 3), Some(1));
}

#[test]
fn plot_info_unowned_and_bad_sub_commands() {
    let mut owners = OwnershipRegistry::new();
    let mut plot = plot_with(&[(1, "alice", -5, 0)]);
    plot.handle_command(0, "/plot", vec!["i"], &mut owners);
    assert_eq!(last_notice(&plot, 0), Notice::Unowned);
    plot.handle_command(0, "/plot", vec!["sell"], &mut owners);
    assert_eq!(last_notice(&plot, 0), Notice::WrongPlotArgument);
    plot.handle_command(0, "/plot", vec![], &mut owners);
    assert_eq!(last_notice(&plot, 0), Notice::WrongArgumentCount);
    plot.handle_command(0, "/plot", vec!["claim"], &mut owners);
    assert_eq!(last_notice(&plot, 0), Notice::Claimed { x: -1, z: 0 });
}

#[test]
fn rtps_sets_rate_and_delay() {
    let mut owners = OwnershipRegistry::new();
    let mut plot = plot_with(&[(1, "alice", 0, 0)]);
    plot.lag_micros = 999;
    plot.handle_command(0, "/rtps", vec!["20"], &mut owners);
    assert_eq!((plot.tps, plot.sleep_micros, plot.lag_micros), (20, 50_000, 0));
    assert_eq!(last_notice(&plot, 0), Notice::RtpsSet);
    plot.handle_command(0, "/rtps", vec!["0"], &mut owners);
    assert_eq!((plot.tps, plot.sleep_micros), (0, 2000));
    plot.handle_command(0, "/rtps", vec!["35000"], &mut owners);
    assert_eq!((plot.tps, plot.sleep_micros), (35000, 28));
}

#[test]
fn rtps_rejects_above_ceiling() {
    let mut owners = OwnershipRegistry::new();
    let mut plot = plot_with(&[(1, "alice", 0, 0)]);
    plot.handle_command(0, "/rtps", vec!["20"], &mut owners);
    for v in ["35001", "+40000", "99999999999999999999"] {
        plot.handle_command(0, "/rtps", vec![v], &mut owners);
        assert_eq!(last_notice(&plot, 0), Notice::RtpsTooHigh);
        assert_eq!((plot.tps, plot.sleep_micros), (20, 50_000));
    }
}

#[test]
fn rtps_argument_errors() {
    let mut owners = OwnershipRegistry::new();
    let mut plot = plot_with(&[(1, "alice", 0, 0)]);
    plot.handle_command(0, "/rtps", vec![], &mut owners);
    assert_eq!(last_notice(&plot, 0), Notice::RtpsMissing);
    for v in ["fast", "-5", "", "+", "1.5"] {
        plot.handle_command(0, "/rtps", vec![v], &mut owners);
        assert_eq!(last_notice(&plot, 0), Notice::RtpsUnparsable);
    }
    assert_eq!(plot.tps, 10);
}

#[test]
fn corners_from_position_and_arguments() {
    let mut owners = OwnershipRegistry::new();
    let mut plot = plot_with(&[(1, "alice", 0, 0)]);
    plot.players[0].pos = Position { x: -UNITS_PER_BLOCK * 3 - 100, y: 70 * UNITS_PER_BLOCK + 5, z: 9 * UNITS_PER_BLOCK };
    plot.handle_command(0, "//1", vec![], &mut owners);
    assert_eq!(plot.players[0].first_position, Some(BlockPos { x: -3, y: 70, z: 9 }));
    plot.handle_command(0, "//pos2", vec!["-4", "12", "+8"], &mut owners);
    assert_eq!(plot.players[0].second_position, Some(BlockPos { x: -4, y: 12, z: 8 }));
    assert_eq!(last_notice(&plot, 0), Notice::SecondPositionSet(BlockPos { x: -4, y: 12, z: 8 }));
}

#[test]
fn corner_parse_errors_leave_corners() {
    let mut owners = OwnershipRegistry::new();
    let mut plot = plot_with(&[(1, "alice", 0, 0)]);
    plot.handle_command(0, "//2", vec!["x", "1", "1"], &mut owners);
    assert_eq!(last_notice(&plot, 0), Notice::BadX);
    plot.handle_command(0, "//2", vec!["1", "-1", "1"], &mut owners);
    assert_eq!(last_notice(&plot, 0), Notice::BadY);
    plot.handle_command(0, "//2", vec!["1", "4294967295", "2147483648"], &mut owners);
    assert_eq!(last_notice(&plot, 0), Notice::BadZ);
    assert_eq!(plot.players[0].second_position, None);
}

#[test]
fn region_commands_are_queued() {
    let mut owners = OwnershipRegistry::new();
    let mut plot = plot_with(&[(1, "alice", 0, 0)]);
    plot.handle_command(0, "//set", vec!["stone"], &mut owners);
    plot.handle_command(0, "//replace", vec!["stone", "glass"], &mut owners);
    plot.handle_command(0, "//c", vec![], &mut owners);
    plot.handle_command(0, "//paste", vec![], &mut owners);
    plot.handle_command(0, "//count", vec!["glass"], &mut owners);
    plot.handle_command(0, "//load", vec!["castle"], &mut owners);
    let ops: Vec<&RegionOp> = plot
        .world_actions
        .iter()
        .map(|a| match a {
            WorldAction::RegionEdit { player: 0, op } => op,
            other => panic!("unexpected {:?}", other),
        })
        .collect();
    assert!(matches!(ops[0], RegionOp::Fill(s) if s == "stone"));
    assert!(matches!(ops[1], RegionOp::Replace(a, b) if a == "stone" && b == "glass"));
    assert!(matches!(ops[2], RegionOp::Copy));
    assert!(matches!(ops[3], RegionOp::Paste));
    assert!(matches!(ops[4], RegionOp::Count(s) if s == "glass"));
    assert!(matches!(ops[5], RegionOp::Load(s) if s == "castle"));
    plot.handle_command(0, "//replace", vec!["stone"], &mut owners);
    assert_eq!(last_notice(&plot, 0), Notice::WrongArgumentCount);
    plot.report_invalid_block(0);
    assert_eq!(last_notice(&plot, 0), Notice::InvalidBlock);
}

#[test]
fn advance_teleport_stop_and_unknown() {
    let mut owners = OwnershipRegistry::new();
    let mut plot = plot_with(&[(1, "alice", 0, 0), (2, "bob", 1, 1)]);
    plot.handle_command(0, "/radv", vec!["30"], &mut owners);
    assert!(matches!(plot.world_actions[0], WorldAction::AdvanceTicks { player: 0, ticks: 30 }));
    plot.handle_command(0, "/radvance", vec!["x"], &mut owners);
    assert_eq!(last_notice(&plot, 0), Notice::TicksUnparsable);
    plot.handle_command(0, "/radv", vec![], &mut owners);
    assert_eq!(last_notice(&plot, 0), Notice::TicksMissing);
    plot.report_advanced(0, 30, 1234);
    assert_eq!(last_notice(&plot, 0), Notice::Advanced { ticks: 30, micros: 1234 });
    plot.handle_command(0, "/tp", vec!["10", "-64", "3"], &mut owners);
    let pos = Position { x: 10 * UNITS_PER_BLOCK, y: -64 * UNITS_PER_BLOCK, z: 3 * UNITS_PER_BLOCK };
    assert_eq!(plot.players[0].pos, pos);
    assert_eq!(plot.players[0].outbox.last(), Some(&ClientPacket::PositionAndLook { pos, yaw: 0, pitch: 0 }));
    plot.handle_command(0, "/tp", vec!["1", "y", "3"], &mut owners);
    assert_eq!(last_notice(&plot, 0), Notice::BadY);
    plot.handle_command(0, "/tp", vec!["1", "2"], &mut owners);
    assert_eq!(last_notice(&plot, 0), Notice::TeleportUsage);
    plot.handle_command(0, "/warp", vec![], &mut owners);
    assert_eq!(last_notice(&plot, 0), Notice::CommandNotFound);
    plot.handle_command(0, "/stop", vec![], &mut owners);
    assert!(matches!(plot.bus[0], BusMessage::Shutdown));
    plot.handle_command(1, "/teleport", vec!["alice"], &mut owners);
    assert_eq!(plot.players.len(), 1);
    match &plot.bus[1] {
        BusMessage::TeleportToPlayer { player, target } => {
            assert_eq!((player.uuid, target.as_str()), (2, "alice"));
        }
        other => panic!("unexpected {:?}", other),
    }
}

#[test]
fn notices_have_fixed_wording() {
    assert_eq!(Notice::RtpsTooHigh.fixed_text(), Some("The rtps cannot go higher than 35000!"));
    assert_eq!(Notice::CommandNotFound.fixed_text(), Some("Command not found!"));
    assert_eq!(Notice::Owner(5).fixed_text(), None);
}

#[test]
fn teleport_takes_decimal_coordinates() {
    let mut owners = OwnershipRegistry::new();
    let mut plot = plot_with(&[(1, "alice", 0, 0)]);
    plot.handle_command(0, "/tp", vec!["1.5", "-0.25", "+3."], &mut owners);
    assert_eq!(plot.players[0].pos, Position { x: 6144, y: -1024, z: 3 * UNITS_PER_BLOCK });
    plot.handle_command(0, "/tp", vec!["0.0001", "-7.99999", "2.123456789"], &mut owners);
    assert_eq!(plot.players[0].pos, Position { x: 0, y: -7 * 4096 - 4095, z: 2 * 4096 + 505 });
    for bad in ["1.2.3", "x", "", "-", ".", "-.", "1e3", "inf", "2251799813685248"] {
        plot.handle_command(0, "/tp", vec![bad, "0", "0"], &mut owners);
        assert_eq!(last_notice(&plot, 0), Notice::BadX);
    }
    plot.handle_command(0, "/tp", vec![".5", "-.25", "2147483648"], &mut owners);
    assert_eq!(plot.players[0].pos, Position { x: 2048, y: -1024, z: 2147483648 * 4096 });
    plot.handle_command(0, "/tp", vec!["2251799813685247.5", "0", "0"], &mut owners);
    assert_eq!(plot.players[0].pos.x, 2251799813685247 * 4096 + 2048);
}

#[test]
fn corner_takes_any_unsigned_height() {
    let mut owners = OwnershipRegistry::new();
    let mut plot = plot_with(&[(1, "alice", 0, 0)]);
    plot.handle_command(0, "//1", vec!["1", "4294967295", "2"], &mut owners);
    assert_eq!(plot.players[0].first_position, Some(BlockPos { x: 1, y: u32::MAX, z: 2 }));
    assert_eq!(plot.players[0].second_position, None);
}

#[test]
fn plot_of_position_rounds_down() {
    let mut owners = OwnershipRegistry::new();
    let mut plot = plot_with(&[(1, "alice", 0, 0)]);
    plot.players[0].pos = Position { x: -UNITS_PER_BLOCK / 2, y: 0, z: -128 * UNITS_PER_BLOCK - 1 };
    plot.handle_command(0, "/plot", vec!["claim"], &mut owners);
    assert_eq!(last_notice(&plot, 0), Notice::Claimed { x: -1, z: -2 });
    plot.players[0].pos = Position { x: 127 * UNITS_PER_BLOCK + 4095, y: 0, z: 128 * UNITS_PER_BLOCK };
    plot.handle_command(0, "/plot", vec!["claim"], &mut owners);
    assert_eq!(last_notice(&plot, 0), Notice::Claimed { x: 0, z: 1 });
}
