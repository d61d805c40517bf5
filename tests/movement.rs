use plot_sync::geometry::{Position, UNITS_PER_BLOCK};
use plot_sync::movement::{encode_movement, MoveEncoding};
use plot_sync::player::{ClientPacket, Player};
use plot_sync::plot::Plot;

fn at(x: i64, y: i64, z: i64) -> Position {
    Position { x: x * UNITS_PER_BLOCK, y: y * UNITS_PER_BLOCK, z: z * UNITS_PER_BLOCK }
}

fn plot_with_two() -> Plot {
    let mut plot = Plot::new(0, 0);
    assert!(plot.add_player(Player::new(1, "alice".to_string(), 10, at(0, 64, 0))).is_none());
    assert!(plot.add_player(Player::new(2, "bob".to_string(), 20, at(3, 64, 3))).is_none());
    plot
}

#[test]
fn small_move_is_relative() {
    let r = encode_movement(at(0, 64, 0), at(1, 63, 2));
    assert_eq!(r, MoveEncoding::Relative { dx: 4096, dy: -4096, dz: 8192 });
}

#[test]
fn exactly_eight_blocks_is_relative() {
    let r = encode_movement(at(0, 0, 0), at(8, 0, -8));
    assert_eq!(r, MoveEncoding::Relative { dx: i16::MAX, dy: 0, dz: i16::MIN });
}

#[test]
fn just_over_eight_blocks_is_absolute() {
    let old = at(0, 0, 0);
    let new = Position { x: 0, y: 8 * UNITS_PER_BLOCK + 1, z: 0 };
    assert_eq!(encode_movement(old, new), MoveEncoding::Absolute);
    let back = Position { x: -8 * UNITS_PER_BLOCK - 1, y: 0, z: 0 };
    assert_eq!(encode_movement(old, back), MoveEncoding::Absolute);
}

#[test]
fn relative_deltas_rebuild_the_new_position() {
    let old = Position { x: 123, y: -77, z: 4096 * 3 + 5 };
    let new = Position { x: 123 + 30000, y: -77 - 12345, z: 4096 * 3 + 5 + 1 };
    match encode_movement(old, new) {
        MoveEncoding::Relative { dx, dy, dz } => {
            assert_eq!(old.x + dx as i64, new.x);
            assert_eq!(old.y + dy as i64, new.y);
            assert_eq!(old.z + dz as i64, new.z);
        }
        MoveEncoding::Absolute => panic!("expected a relative move"),
    }
}

#[test]
fn walking_then_jumping_far() {
    let mut plot = plot_with_two();
    plot.handle_player_position(0, at(0, 64, 5), true);
    assert_eq!(plot.players[0].pos, at(0, 64, 5));
    assert_eq!(
        plot.players[1].outbox,
        vec![ClientPacket::EntityPosition { entity_id: 10, dx: 0, dy: 0, dz: 5 * 4096, on_ground: true }]
    );
    assert!(plot.players[0].outbox.is_empty());
    plot.handle_player_position(0, at(0, 64, 20), false);
    assert_eq!(
        plot.players[1].outbox[1],
        ClientPacket::EntityTeleport { entity_id: 10, pos: at(0, 64, 20), yaw: 0, pitch: 0, on_ground: false }
    );
}

#[test]
fn move_and_turn_sends_head_look() {
    let mut plot = plot_with_two();
    plot.handle_player_position_and_rotation(0, at(0, 65, 0), 9000, -1000, true);
    assert_eq!(plot.players[0].yaw, 9000);
    assert_eq!(
        plot.players[1].outbox,
        vec![
            ClientPacket::EntityPositionAndRotation {
                entity_id: 10,
                dx: 0,
                dy: 4096,
                dz: 0,
                yaw: 9000,
                pitch: -1000,
                on_ground: true,
            },
            ClientPacket::EntityHeadLook { entity_id: 10, yaw: 9000 },
        ]
    );
}

#[test]
fn turning_sends_rotation_and_head_look() {
    let mut plot = plot_with_two();
    plot.handle_player_rotation(1, 18000, 4500, false);
    assert_eq!(
        plot.players[0].outbox,
        vec![
            ClientPacket::EntityRotation { entity_id: 20, yaw: 18000, pitch: 4500, on_ground: false },
            ClientPacket::EntityHeadLook { entity_id: 20, yaw: 18000 },
        ]
    );
    assert!(plot.players[1].outbox.is_empty());
}

#[test]
fn standing_still_sends_movement() {
    let mut plot = plot_with_two();
    plot.handle_player_movement(0, false);
    assert!(!plot.players[0].on_ground);
    assert_eq!(plot.players[1].outbox, vec![ClientPacket::EntityMovement { entity_id: 10 }]);
}
