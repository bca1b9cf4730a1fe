use simcore::common::interpolate_fix9;
use simcore::frame::{Frame, UpdateTarget};
use simcore::npc::Npc;
use simcore::player::Player;
use simcore::common::{Cond, Rect};

fn frame_on_players() -> Frame {
    Frame {
        x: 0,
        y: 0,
        prev_x: 0,
        prev_y: 0,
        update_target: UpdateTarget::Player,
        target_x: 0,
        target_y: 0,
        wait: 16,
    }
}

fn live_player(x: i32, y: i32) -> Player {
    let mut p = Player::new();
    p.cond.alive = true;
    p.x = x;
    p.y = y;
    p.target_x = x;
    p.target_y = y;
    p
}

#[test]
fn single_player_target_is_exact() {
    let mut frame = frame_on_players();
    let p1 = live_player(5000, 6000);
    let mut p2 = Player::new();
    p2.cond.alive = false;
    frame.update_camera_target(&p1, &p2, &Vec::new(), &Vec::new());
    assert_eq!(frame.target_x, 5000);
    assert_eq!(frame.target_y, 6000);
}

#[test]
fn coop_target_blends_and_stays_in_window() {
    let mut frame = frame_on_players();
    let p1 = live_player(0, 0);
    let p2 = live_player(90_000, 30_000);
    frame.update_camera_target(&p1, &p2, &Vec::new(), &Vec::new());
    // Blend (2 * 0 + 90000) / 3 = 30000, then clamped into the window
    // around the primary.
    assert_eq!(frame.target_x, 30_000);
    assert!(frame.target_x >= p1.x - 0x8000 && frame.target_x <= p1.x + 0x8000);
    // The vertical target is pinned to the primary's position.
    assert_eq!(frame.target_y, 0);
}

#[test]
fn coop_target_clamps_horizontal_drift() {
    let mut frame = frame_on_players();
    let p1 = live_player(0, 0);
    let p2 = live_player(120_000, 0);
    frame.update_camera_target(&p1, &p2, &Vec::new(), &Vec::new());
    // Blend 40000 exceeds the 0x8000 window and is pulled back.
    assert_eq!(frame.target_x, 0x8000);
}

#[test]
fn distant_second_player_is_ignored() {
    let mut frame = frame_on_players();
    let p1 = live_player(0, 0);
    let p2 = live_player(240 * 0x200, 0); // at the distance threshold
    frame.update_camera_target(&p1, &p2, &Vec::new(), &Vec::new());
    assert_eq!(frame.target_x, 0);
    assert_eq!(frame.target_y, 0);
}

#[test]
fn npc_target_tracks_live_npc_and_retains_on_death() {
    let mut frame = frame_on_players();
    frame.update_target = UpdateTarget::NPC(0);
    frame.target_x = 7;
    frame.target_y = 8;
    let p1 = live_player(0, 0);
    let p2 = Player::new();

    let mut npc = Npc {
        id: 0,
        npc_type: 0,
        x: 4444,
        y: 5555,
        prev_x: 0,
        prev_y: 0,
        life: 10,
        shock: 0,
        event_num: 0,
        size: 1,
        cond: Cond { alive: true, ..Default::default() },
        npc_flags: Default::default(),
        hit_bounds: Rect { left: 0, top: 0, right: 0, bottom: 0 },
        display_bounds: Rect { left: 0, top: 0, right: 0, bottom: 0 },
        popup_value: 0,
    };
    let npcs = vec![npc];
    frame.update_camera_target(&p1, &p2, &npcs, &Vec::new());
    assert_eq!((frame.target_x, frame.target_y), (4444, 5555));

    // A dead subject keeps the previous target instead of snapping away.
    npc.cond.alive = false;
    npc.x = 1;
    npc.y = 2;
    let npcs = vec![npc];
    frame.update_camera_target(&p1, &p2, &npcs, &Vec::new());
    assert_eq!((frame.target_x, frame.target_y), (4444, 5555));

    // A missing subject does the same.
    frame.update_target = UpdateTarget::NPC(9);
    frame.update_camera_target(&p1, &p2, &npcs, &Vec::new());
    assert_eq!((frame.target_x, frame.target_y), (4444, 5555));
}

#[test]
fn boss_target_tracks_live_part() {
    let mut frame = frame_on_players();
    frame.update_target = UpdateTarget::Boss(0);
    let p1 = live_player(0, 0);
    let p2 = Player::new();
    let part = Npc {
        id: 0,
        npc_type: 0,
        x: -300,
        y: 400,
        prev_x: 0,
        prev_y: 0,
        life: 10,
        shock: 0,
        event_num: 0,
        size: 1,
        cond: Cond { alive: true, ..Default::default() },
        npc_flags: Default::default(),
        hit_bounds: Rect { left: 0, top: 0, right: 0, bottom: 0 },
        display_bounds: Rect { left: 0, top: 0, right: 0, bottom: 0 },
        popup_value: 0,
    };
    frame.update_camera_target(&p1, &p2, &Vec::new(), &vec![part]);
    assert_eq!((frame.target_x, frame.target_y), (-300, 400));
}

#[test]
fn interpolation_moves_between_prev_and_current() {
    assert_eq!(interpolate_fix9(0, 512, 0), 0);
    assert_eq!(interpolate_fix9(0, 512, 512), 512);
    assert_eq!(interpolate_fix9(0, 512, 256), 256);
    assert_eq!(interpolate_fix9(100, 0, 256), 50);
    assert_eq!(interpolate_fix9(-512, 512, 128), -256);
    // result = prev + (cur - prev) * t / 512, truncated toward zero
    assert_eq!(interpolate_fix9(0, 3, 256), 1);
}

#[test]
fn frame_interpolated_position() {
    let mut frame = frame_on_players();
    frame.prev_x = 0;
    frame.prev_y = 1024;
    frame.x = 1024;
    frame.y = 0;
    assert_eq!(frame.xy_interpolated(256), (512, 512));
    assert_eq!(frame.xy_interpolated(0), (0, 1024));
    assert_eq!(frame.xy_interpolated(512), (1024, 0));
}
