use simcore::player::Player;
use simcore::water::{DynamicWater, DynamicWaterColumn, WaterRegionType, WaterRenderer, RESTING_HEIGHT};
use simcore::common::Rect;

fn resting_player() -> Player {
    Player::new()
}

#[test]
fn new_surface_has_expected_columns() {
    let w = DynamicWater::new(0, 0, 4);
    assert_eq!(w.columns.len(), 33);
    assert_eq!(w.end_x, 4);
    for c in w.columns.iter() {
        assert_eq!(c.target_height, RESTING_HEIGHT);
        assert_eq!(c.height, RESTING_HEIGHT);
        assert_eq!(c.speed, 0);
    }
}

#[test]
fn resting_surface_stays_at_rest() {
    let mut w = DynamicWater::new(0, 0, 4);
    for _ in 0..25 {
        w.tick();
    }
    for c in w.columns.iter() {
        assert_eq!(c.height, RESTING_HEIGHT);
        assert_eq!(c.speed, 0);
    }
}

#[test]
fn single_column_surface_ticks() {
    let mut w = DynamicWater::new(0, 0, 0);
    assert_eq!(w.columns.len(), 1);
    w.columns[0].height = RESTING_HEIGHT + 100;
    w.tick();
    // A lone column has no neighbors; only the spring acts on it.
    assert!(w.columns[0].height < RESTING_HEIGHT + 100);
}

#[test]
fn impulse_disturbs_immediate_neighbors_within_one_tick() {
    let mut w = DynamicWater::new(0, 0, 4);
    w.columns[16].speed = -2048;
    w.tick();
    // The displaced column's immediate neighbors pick up nonzero speed
    // after one relaxation-and-spread tick.
    assert_eq!(w.columns[15].speed, -78);
    assert_eq!(w.columns[17].speed, -78);
    assert_eq!(w.columns[16].speed, -1872);
    assert_eq!(w.columns[14].speed, 0);
}

#[test]
fn centered_impulse_spreads_symmetrically() {
    let mut w = DynamicWater::new(0, 0, 4);
    w.columns[16].speed = -2048;
    for _ in 0..6 {
        w.tick();
    }
    for d in 0..17 {
        assert_eq!(w.columns[16 - d].height, w.columns[16 + d].height);
        assert_eq!(w.columns[16 - d].speed, w.columns[16 + d].speed);
    }
}

#[test]
fn impulse_wave_travels_and_decays_with_distance() {
    // A 4-tile surface (33 columns) at rest; column 16 is pushed up at
    // 4 pixels per tick (-4.0 in pixel units, -2048 fixed-point).
    let mut w = DynamicWater::new(0, 0, 4);
    w.columns[16].speed = -2048;
    for _ in 0..8 {
        w.tick();
    }
    // While the wavefront is still at the center, amplitude decreases
    // monotonically with distance from column 16.
    let amp = |w: &DynamicWater, i: usize| (w.columns[i].height - RESTING_HEIGHT).abs();
    let amps8: Vec<i32> = (0..8).map(|d| amp(&w, 16 + d)).collect();
    assert!(w.columns[16].height < RESTING_HEIGHT);
    assert!(amps8[1] > 0 && amps8[1] < amps8[0]);
    for d in 0..7 {
        assert!(amps8[d] >= amps8[d + 1]);
    }

    w.tick();
    w.tick();
    // After 10 ticks the center is still measurably below its target and
    // the neighbors carry delayed deviations; the wavefront itself has
    // moved one column outward by now, and amplitude decreases
    // monotonically with distance from there.
    assert_eq!(w.columns[16].height, 2132);
    assert!(w.columns[16].height < RESTING_HEIGHT);
    assert!(amp(&w, 15) > 0 && amp(&w, 17) > 0);
    assert_eq!(amp(&w, 15), amp(&w, 17));
    for d in 1..7 {
        assert!(amp(&w, 16 + d) >= amp(&w, 16 + d + 1));
    }
}

#[test]
fn impulse_range_is_clamped_into_columns() {
    let w = DynamicWater::new(0, 0, 4);
    // A fast player just inside the right edge of the surface's window,
    // with a huge hit box: the range must stay inside [0, 33).
    let mut p = resting_player();
    p.vel_y = -2048;
    p.x = 4 * 16 * 512 - 4096 - 1; // just left of end_x in fixed units
    p.y = -4096; // the player center sits exactly on the water line
    p.hit_bounds = Rect { left: 1_000_000_000, top: 0, right: 0, bottom: 0 };
    let r = w.impulse_columns(&p);
    let (lo, hi) = r.expect("player is inside the window");
    assert_eq!((lo, hi), (0, 32));
}

#[test]
fn entity_outside_surface_gives_no_impulse() {
    let w = DynamicWater::new(0, 0, 4);
    let mut p = resting_player();
    p.vel_y = -2048;
    p.x = 100 * 16 * 512; // far to the right of the surface
    p.y = -4096;
    assert!(w.impulse_columns(&p).is_none());

    // Fast enough but vertically far away.
    p.x = 2 * 16 * 512;
    p.y = 50 * 16 * 512;
    assert!(w.impulse_columns(&p).is_none());

    // Inside the window but too slow to disturb the surface.
    p.y = -4096;
    p.vel_y = 0x40;
    assert!(w.impulse_columns(&p).is_none());
}

#[test]
fn renderer_tick_applies_impulse_then_physics() {
    let mut r = WaterRenderer::new();
    r.initialize(vec![
        (WaterRegionType::WaterLine, Rect { left: 0, top: 0, right: 3, bottom: 1 }),
        (WaterRegionType::WaterDepth, Rect { left: 0, top: 1, right: 3, bottom: 4 }),
    ]);
    assert_eq!(r.water_surfaces.len(), 1);
    assert_eq!(r.surf_regions.len(), 1);
    assert_eq!(r.depth_regions.len(), 1);
    assert_eq!(r.water_surfaces[0].columns.len(), 33);

    // A player dropping through the middle of the surface.
    let mut p = resting_player();
    p.vel_y = 2048;
    p.x = 2 * 16 * 512 - 4096;
    p.y = -4096;
    r.tick(&p);
    let disturbed = r.water_surfaces[0].columns.iter().any(|c| c.speed != 0 || c.height != RESTING_HEIGHT);
    assert!(disturbed);

    // With no player nearby the surface settles back toward rest.
    let calm = resting_player();
    for _ in 0..2000 {
        r.tick(&calm);
    }
    // Truncated fixed-point dynamics keep a small residual ripple, but
    // it stays well under a pixel (512 units) and never grows.
    for c in r.water_surfaces[0].columns.iter() {
        assert!((c.height - RESTING_HEIGHT).abs() < 512);
    }
}

#[test]
fn column_tick_is_a_damped_spring_step() {
    let mut c = DynamicWaterColumn::new();
    c.height = RESTING_HEIGHT - 1000;
    c.speed = 0;
    c.tick(1, 3);
    // speed += 3% of (target - height); height += speed.
    assert_eq!(c.speed, 30);
    assert_eq!(c.height, RESTING_HEIGHT - 1000 + 30);
}
