//! Dynamic water surfaces: a mass-spring column simulation driven by
//! external impulses (an entity hitting the surface) and its own per-tick
//! relaxation and wave-propagation passes.
//!
//! Heights and speeds are fixed-point values in the shared coordinate
//! scale (512 units per pixel). The spring rates are rational constants
//! (`n / 100`), applied with truncating division, and every update is
//! clipped into `[-WATER_FIX_BOUND, WATER_FIX_BOUND]` so the integer math
//! can never overflow, matching the design rule that numeric edge cases
//! are resolved by clamping.

use vstd::prelude::*;

use crate::common::{clamp_i64, sclamp, tdiv, tdiv_i64, lemma_tdiv_scale_bounded, Rect};
use crate::player::Player;

verus! {

/// Spring rate numerators, over a denominator of 100.
pub const TENSION_NUM: i32 = 3;

pub const DAMPENING_NUM: i32 = 1;

pub const SPREAD_NUM: i32 = 2;

/// All heights and speeds are kept inside this bound by clipping.
pub const WATER_FIX_BOUND: i32 = 0x0800_0000;

/// The flat resting height of a freshly created surface: 8 pixels in
/// fixed-point units.
pub const RESTING_HEIGHT: i32 = 4096;

/// No surface has more columns than the longest possible water line
/// produces (65535 tiles, eight columns per tile, one closing column).
pub const MAX_COLUMNS: usize = 524288;

/// A saturating write into the representable fixed-point band.
pub open spec fn clip(v: int) -> int {
    sclamp(v, -WATER_FIX_BOUND as int, WATER_FIX_BOUND as int)
}

pub fn clip_i32(v: i64) -> (r: i32)
    ensures
        r as int == clip(v as int),
{
    if v < -WATER_FIX_BOUND as i64 {
        -WATER_FIX_BOUND
    } else if v > WATER_FIX_BOUND as i64 {
        WATER_FIX_BOUND
    } else {
        v as i32
    }
}

#[derive(Clone, Copy, PartialEq, Eq, Structural, Debug)]
pub struct DynamicWaterColumn {
    pub target_height: i32,
    pub height: i32,
    pub speed: i32,
}

/// The column's fields lie inside the clipped fixed-point band.
pub open spec fn col_wf(c: DynamicWaterColumn) -> bool {
    &&& -WATER_FIX_BOUND <= c.target_height <= WATER_FIX_BOUND
    &&& -WATER_FIX_BOUND <= c.height <= WATER_FIX_BOUND
    &&& -WATER_FIX_BOUND <= c.speed <= WATER_FIX_BOUND
}

pub open spec fn cols_wf(cols: Seq<DynamicWaterColumn>) -> bool {
    forall|i: int| 0 <= i < cols.len() ==> col_wf(#[trigger] cols[i])
}

/// One relaxation step of a single column: a damped spring pulling the
/// height toward the target height.
pub open spec fn relax_col(c: DynamicWaterColumn, dampening_num: int, tension_num: int) -> DynamicWaterColumn {
    let accel = tdiv(tension_num * (c.target_height - c.height), 100);
    let drag = tdiv(dampening_num * c.speed, 100);
    let s = clip(c.speed + accel - drag);
    let h = clip(c.height + s);
    DynamicWaterColumn { target_height: c.target_height, height: h as i32, speed: s as i32 }
}

impl DynamicWaterColumn {
    pub fn new() -> (c: DynamicWaterColumn)
        ensures
            c == (DynamicWaterColumn {
                target_height: RESTING_HEIGHT,
                height: RESTING_HEIGHT,
                speed: 0,
            }),
    {
        DynamicWaterColumn { target_height: RESTING_HEIGHT, height: RESTING_HEIGHT, speed: 0 }
    }

    /// Advances the spring by one step with the given rate numerators
    /// (each over a denominator of 100).
    pub fn tick(&mut self, dampening_num: i32, tension_num: i32)
        requires
            0 <= dampening_num <= 100,
            0 <= tension_num <= 100,
            col_wf(*old(self)),
        ensures
            *final(self) == relax_col(*old(self), dampening_num as int, tension_num as int),
            col_wf(*final(self)),
    {
        let d: i64 = self.target_height as i64 - self.height as i64;
        proof {
            assert(-0x4000_0000_0000 <= tension_num * d <= 0x4000_0000_0000) by (nonlinear_arith)
                requires
                    0 <= tension_num <= 100,
                    -0x2000_0000 <= d <= 0x2000_0000,
            ;
            assert(-0x4000_0000_0000 <= dampening_num * (self.speed as int) <= 0x4000_0000_0000)
                by (nonlinear_arith)
                requires
                    0 <= dampening_num <= 100,
                    -0x0800_0000 <= self.speed <= 0x0800_0000,
            ;
        }
        let accel: i64 = tdiv_i64(tension_num as i64 * d, 100);
        let drag: i64 = tdiv_i64(dampening_num as i64 * self.speed as i64, 100);
        proof {
            lemma_tdiv_scale_bounded(tension_num * d, 1, 100);
            lemma_tdiv_scale_bounded(dampening_num * (self.speed as int), 1, 100);
            assert(tension_num * d * 1 == tension_num * d) by (nonlinear_arith);
            assert(dampening_num * (self.speed as int) * 1 == dampening_num * (self.speed as int))
                by (nonlinear_arith);
        }
        let s = clip_i32(self.speed as i64 + accel - drag);
        self.speed = s;
        self.height = clip_i32(self.height as i64 + s as i64);
    }
}

/// The relaxation pass over every column, with the fixed surface rates.
pub open spec fn relax_seq(cols: Seq<DynamicWaterColumn>) -> Seq<DynamicWaterColumn> {
    Seq::new(cols.len(), |j: int| relax_col(cols[j], DAMPENING_NUM as int, TENSION_NUM as int))
}

/// The spread delta between column `i` and its left neighbor, over the
/// heights at the start of a pass. Defined for `1 <= i < cols.len()`.
pub open spec fn l_delta(cols: Seq<DynamicWaterColumn>, i: int) -> int {
    tdiv(SPREAD_NUM * (cols[i].height - cols[i - 1].height), 100)
}

/// The spread delta between column `i` and its right neighbor. Defined
/// for `0 <= i < cols.len() - 1`.
pub open spec fn r_delta(cols: Seq<DynamicWaterColumn>, i: int) -> int {
    tdiv(SPREAD_NUM * (cols[i].height - cols[i + 1].height), 100)
}

/// The effect of one wave-propagation pass on column `j`: the deltas its
/// two neighbors computed against it are added to both its speed and its
/// height. All deltas are functions of the heights at the start of the
/// pass, so propagation never sees a height already updated in the same
/// pass.
pub open spec fn pass_col(cols: Seq<DynamicWaterColumn>, j: int) -> DynamicWaterColumn {
    let dl = if j + 1 < cols.len() {
        l_delta(cols, j + 1)
    } else {
        0
    };
    let dr = if j >= 1 {
        r_delta(cols, j - 1)
    } else {
        0
    };
    let s = clip(cols[j].speed + dl + dr);
    let h = clip(cols[j].height + dl + dr);
    DynamicWaterColumn { target_height: cols[j].target_height, height: h as i32, speed: s as i32 }
}

/// One full wave-propagation pass.
pub open spec fn spread_pass_spec(cols: Seq<DynamicWaterColumn>) -> Seq<DynamicWaterColumn> {
    Seq::new(cols.len(), |j: int| pass_col(cols, j))
}

/// One full surface tick: a relaxation pass, then exactly two
/// wave-propagation passes (two passes widen the influence radius per
/// tick).
pub open spec fn water_tick_spec(cols: Seq<DynamicWaterColumn>) -> Seq<DynamicWaterColumn> {
    spread_pass_spec(spread_pass_spec(relax_seq(cols)))
}

/// An ordered sequence of columns over a horizontal band of the map,
/// together with the scratch buffers for the propagation deltas (owned by
/// the surface so a tick never reallocates them).
pub struct DynamicWater {
    pub x: u16,
    pub y: u16,
    pub end_x: u16,
    pub columns: Vec<DynamicWaterColumn>,
    pub l_deltas: Vec<i32>,
    pub r_deltas: Vec<i32>,
}

impl DynamicWater {
    /// A flat resting surface spanning `length` tiles: `length * 8 + 1`
    /// columns, eight subdivisions per tile plus a closing column.
    pub fn new(x: u16, y: u16, length: u16) -> (w: DynamicWater)
        requires
            x + length <= u16::MAX,
        ensures
            w.x == x,
            w.y == y,
            w.end_x == x + length,
            w.columns@.len() == length * 8 + 1,
            forall|i: int|
                0 <= i < w.columns@.len() ==> w.columns@[i] == (DynamicWaterColumn {
                    target_height: RESTING_HEIGHT,
                    height: RESTING_HEIGHT,
                    speed: 0,
                }),
            cols_wf(w.columns@),
    {
        let mut columns: Vec<DynamicWaterColumn> = Vec::new();
        let count: usize = length as usize * 8 + 1;

        for _k in 0..count
            invariant
                columns@.len() == _k,
                forall|i: int|
                    0 <= i < columns@.len() ==> columns@[i] == (DynamicWaterColumn {
                        target_height: RESTING_HEIGHT,
                        height: RESTING_HEIGHT,
                        speed: 0,
                    }),
        {
            columns.push(DynamicWaterColumn::new());
        }

        DynamicWater { x, y, end_x: x + length, columns, l_deltas: Vec::new(), r_deltas: Vec::new() }
    }

    /// One wave-propagation pass: all deltas are computed from the current
    /// heights first, then applied, so no delta observes a height mutated
    /// within the same pass.
    fn spread_pass(&mut self)
        requires
            cols_wf(old(self).columns@),
        ensures
            final(self).columns@ == spread_pass_spec(old(self).columns@),
            cols_wf(final(self).columns@),
            final(self).x == old(self).x,
            final(self).y == old(self).y,
            final(self).end_x == old(self).end_x,
    {
        let ghost cols0 = self.columns@;
        let n = self.columns.len();
        self.l_deltas.resize(n, 0);
        self.r_deltas.resize(n, 0);

        let mut i: usize = 0;
        while i < n
            invariant
                n == cols0.len(),
                i <= n,
                cols_wf(cols0),
                self.columns@ == cols0,
                self.x == old(self).x,
                self.y == old(self).y,
                self.end_x == old(self).end_x,
                self.l_deltas@.len() == n,
                self.r_deltas@.len() == n,
                forall|k: int| 1 <= k < i ==> self.l_deltas@[k] as int == l_delta(cols0, k),
                forall|k: int| 0 <= k < i && k + 1 < n ==> self.r_deltas@[k] as int == r_delta(cols0, k),
            decreases n - i,
        {
            if i > 0 {
                let d: i64 = self.columns[i].height as i64 - self.columns[i - 1].height as i64;
                proof {
                    lemma_tdiv_scale_bounded(SPREAD_NUM * d, 1, 100);
                    assert(SPREAD_NUM * d * 1 == SPREAD_NUM * d) by (nonlinear_arith);
                }
                let dv = tdiv_i64(SPREAD_NUM as i64 * d, 100);
                self.l_deltas[i] = dv as i32;
            }
            if i + 1 < n {
                let d: i64 = self.columns[i].height as i64 - self.columns[i + 1].height as i64;
                proof {
                    lemma_tdiv_scale_bounded(SPREAD_NUM * d, 1, 100);
                    assert(SPREAD_NUM * d * 1 == SPREAD_NUM * d) by (nonlinear_arith);
                }
                let dv = tdiv_i64(SPREAD_NUM as i64 * d, 100);
                self.r_deltas[i] = dv as i32;
            }
            i = i + 1;
        }

        let mut j: usize = 0;
        while j < n
            invariant
                n == cols0.len(),
                j <= n,
                cols_wf(cols0),
                self.columns@.len() == n,
                self.x == old(self).x,
                self.y == old(self).y,
                self.end_x == old(self).end_x,
                self.l_deltas@.len() == n,
                self.r_deltas@.len() == n,
                forall|k: int| 1 <= k < n ==> self.l_deltas@[k] as int == l_delta(cols0, k),
                forall|k: int| 0 <= k < n && k + 1 < n ==> self.r_deltas@[k] as int == r_delta(cols0, k),
                forall|k: int| 0 <= k < j ==> self.columns@[k] == pass_col(cols0, k),
                forall|k: int| j <= k < n ==> self.columns@[k] == cols0[k],
            decreases n - j,
        {
            let dl: i64 = if j + 1 < n {
                self.l_deltas[j + 1] as i64
            } else {
                0
            };
            let dr: i64 = if j >= 1 {
                self.r_deltas[j - 1] as i64
            } else {
                0
            };
            proof {
                if j + 1 < n {
                    lemma_tdiv_scale_bounded(SPREAD_NUM * (cols0[j as int + 1].height - cols0[j as int].height), 1, 100);
                    assert(SPREAD_NUM * (cols0[j as int + 1].height - cols0[j as int].height) * 1
                        == SPREAD_NUM * (cols0[j as int + 1].height - cols0[j as int].height)) by (nonlinear_arith);
                }
                if j >= 1 {
                    lemma_tdiv_scale_bounded(SPREAD_NUM * (cols0[j as int - 1].height - cols0[j as int].height), 1, 100);
                    assert(SPREAD_NUM * (cols0[j as int - 1].height - cols0[j as int].height) * 1
                        == SPREAD_NUM * (cols0[j as int - 1].height - cols0[j as int].height)) by (nonlinear_arith);
                }
            }
            let c = self.columns[j];
            let s = clip_i32(c.speed as i64 + dl + dr);
            let h = clip_i32(c.height as i64 + dl + dr);
            self.columns[j] = DynamicWaterColumn { target_height: c.target_height, height: h, speed: s };
            j = j + 1;
        }

        proof {
            assert(self.columns@ =~= spread_pass_spec(cols0));
        }
    }

    /// One full surface tick: relaxation, then two propagation passes.
    pub fn tick(&mut self)
        requires
            cols_wf(old(self).columns@),
        ensures
            final(self).columns@ == water_tick_spec(old(self).columns@),
            cols_wf(final(self).columns@),
            final(self).x == old(self).x,
            final(self).y == old(self).y,
            final(self).end_x == old(self).end_x,
    {
        let ghost cols0 = self.columns@;
        let n = self.columns.len();
        let mut i: usize = 0;
        while i < n
            invariant
                n == cols0.len(),
                i <= n,
                cols_wf(cols0),
                self.columns@.len() == n,
                self.x == old(self).x,
                self.y == old(self).y,
                self.end_x == old(self).end_x,
                forall|k: int|
                    0 <= k < i ==> self.columns@[k] == relax_col(
                        cols0[k],
                        DAMPENING_NUM as int,
                        TENSION_NUM as int,
                    ),
                forall|k: int| i <= k < n ==> self.columns@[k] == cols0[k],
            decreases n - i,
        {
            let mut c = self.columns[i];
            proof {
                assert(c == cols0[i as int]);
                assert(col_wf(cols0[i as int]));
            }
            c.tick(DAMPENING_NUM, TENSION_NUM);
            self.columns[i] = c;
            i = i + 1;
        }
        proof {
            assert(self.columns@ =~= relax_seq(cols0));
        }

        self.spread_pass();
        self.spread_pass();
    }
}

/// A surface is flat and at rest: every column sits exactly at the shared
/// target height with zero speed.
pub open spec fn flat_at_rest(cols: Seq<DynamicWaterColumn>, target: int) -> bool {
    &&& -WATER_FIX_BOUND <= target <= WATER_FIX_BOUND
    &&& forall|i: int|
        0 <= i < cols.len() ==> (#[trigger] cols[i]) == (DynamicWaterColumn {
            target_height: target as i32,
            height: target as i32,
            speed: 0,
        })
}

/// The surface state after `k` ticks with no impulses in between.
pub open spec fn water_ticks(cols: Seq<DynamicWaterColumn>, k: nat) -> Seq<DynamicWaterColumn>
    decreases k,
{
    if k == 0 {
        cols
    } else {
        water_tick_spec(water_ticks(cols, (k - 1) as nat))
    }
}

/// A flat resting surface is a fixed point of the tick: with no impulses
/// the heights stay at the target height, so the damped spring neither
/// oscillates nor diverges from rest.
pub proof fn lemma_flat_surface_tick_fixed(cols: Seq<DynamicWaterColumn>, target: int)
    requires
        flat_at_rest(cols, target),
    ensures
        water_tick_spec(cols) == cols,
{
    assert forall|j: int| 0 <= j < cols.len() implies relax_seq(cols)[j] == cols[j] by {
        assert(cols[j].target_height == cols[j].height);
        assert(tdiv(0, 100) == 0);
    }
    assert(relax_seq(cols) =~= cols);
    assert forall|j: int| 0 <= j < cols.len() implies spread_pass_spec(cols)[j] == cols[j] by {
        if j + 1 < cols.len() {
            assert(cols[j + 1].height == cols[j].height);
        }
        if j >= 1 {
            assert(cols[j - 1].height == cols[j].height);
        }
        assert(tdiv(0, 100) == 0);
    }
    assert(spread_pass_spec(cols) =~= cols);
}

/// With no impulses, a flat resting surface stays converged at its target
/// height for any number of ticks.
pub proof fn lemma_flat_surface_stays_at_rest(cols: Seq<DynamicWaterColumn>, target: int, k: nat)
    requires
        flat_at_rest(cols, target),
    ensures
        water_ticks(cols, k) == cols,
    decreases k,
{
    if k > 0 {
        lemma_flat_surface_stays_at_rest(cols, target, (k - 1) as nat);
        lemma_flat_surface_tick_fixed(cols, target);
    }
}

/// The column sequence reads the same from both ends.
pub open spec fn mirrored(cols: Seq<DynamicWaterColumn>) -> bool {
    forall|i: int| 0 <= i < cols.len() ==> (#[trigger] cols[i]) == cols[cols.len() - 1 - i]
}

proof fn lemma_relax_preserves_mirror(cols: Seq<DynamicWaterColumn>)
    requires
        mirrored(cols),
    ensures
        mirrored(relax_seq(cols)),
{
    let r = relax_seq(cols);
    assert forall|j: int| 0 <= j < r.len() implies (#[trigger] r[j]) == r[r.len() - 1 - j] by {
        assert(cols[j] == cols[cols.len() - 1 - j]);
    }
}

proof fn lemma_spread_pass_preserves_mirror(cols: Seq<DynamicWaterColumn>)
    requires
        mirrored(cols),
    ensures
        mirrored(spread_pass_spec(cols)),
{
    let n = cols.len() as int;
    let r = spread_pass_spec(cols);
    assert forall|j: int| 0 <= j < n implies (#[trigger] r[j]) == r[n - 1 - j] by {
        let m = n - 1 - j;
        assert(cols[j] == cols[n - 1 - j]);
        if j + 1 < n {
            assert(cols[j + 1] == cols[n - 1 - (j + 1)]);
        }
        if j >= 1 {
            assert(cols[j - 1] == cols[n - 1 - (j - 1)]);
        }
        assert(pass_col(cols, j) == pass_col(cols, m));
    }
}

/// A disturbance applied symmetrically about the center column spreads
/// symmetrically: the tick preserves mirror symmetry of the columns.
pub proof fn lemma_water_tick_preserves_symmetry(cols: Seq<DynamicWaterColumn>)
    requires
        mirrored(cols),
    ensures
        mirrored(water_tick_spec(cols)),
{
    lemma_relax_preserves_mirror(cols);
    lemma_spread_pass_preserves_mirror(relax_seq(cols));
    lemma_spread_pass_preserves_mirror(spread_pass_spec(relax_seq(cols)));
}

#[derive(Clone, Copy, PartialEq, Eq, Structural, Debug)]
pub enum WaterRegionType {
    WaterLine,
    WaterDepth,
}

/// The rectangles of the water-line regions, in order.
pub open spec fn line_rects(regions: Seq<(WaterRegionType, Rect<u16>)>) -> Seq<Rect<u16>>
    decreases regions.len(),
{
    if regions.len() == 0 {
        Seq::empty()
    } else {
        let rest = line_rects(regions.drop_last());
        if regions.last().0 is WaterLine {
            rest.push(regions.last().1)
        } else {
            rest
        }
    }
}

/// The rectangles of the water-depth regions, in order.
pub open spec fn depth_rects(regions: Seq<(WaterRegionType, Rect<u16>)>) -> Seq<Rect<u16>>
    decreases regions.len(),
{
    if regions.len() == 0 {
        Seq::empty()
    } else {
        let rest = depth_rects(regions.drop_last());
        if regions.last().0 is WaterDepth {
            rest.push(regions.last().1)
        } else {
            rest
        }
    }
}

/// The surface a water-line rectangle gives rise to: a flat resting
/// surface one tile wider than the rectangle (its closing edge included).
pub open spec fn surface_from_rect(w: DynamicWater, r: Rect<u16>) -> bool {
    &&& w.x == r.left
    &&& w.y == r.top
    &&& w.end_x == r.right + 1
    &&& w.columns@.len() == (r.right - r.left + 1) * 8 + 1
    &&& flat_at_rest(w.columns@, RESTING_HEIGHT as int)
}

/// True when the entity is fast enough and inside the surface's
/// horizontal span and vertical band, so that it disturbs the surface.
///
/// All comparisons happen in fixed-point units: a tile is 16 pixels, a
/// pixel is 512 units, and the entity's center is offset by half a tile.
pub open spec fn impulse_hit(x: u16, y: u16, end_x: u16, p: Player) -> bool {
    let px = p.x + 4096;
    let py = p.y + 4096;
    let line_x = x * 8192;
    let line_y = y * 8192;
    &&& (p.vel_y > 0x80 || p.vel_y < -0x80)
    &&& px > line_x
    &&& px < end_x * 8192
    &&& py > line_y - 2560
    &&& py < line_y + 2048
}

/// The column under the entity's center, clamped into the column range.
pub open spec fn impulse_center(x: u16, p: Player, n: int) -> int {
    sclamp(tdiv(p.x + 4096 - x * 8192, 1024), 0, n - 1)
}

/// Half the impacted column span, from the entity's horizontal half-width.
pub open spec fn impulse_half(p: Player) -> int {
    tdiv(p.hit_bounds.left as int, 4096)
}

pub open spec fn impulse_lo(x: u16, p: Player, n: int) -> int {
    sclamp(impulse_center(x, p, n) - impulse_half(p), 0, n - 1)
}

pub open spec fn impulse_hi(x: u16, p: Player, n: int) -> int {
    sclamp(impulse_center(x, p, n) + impulse_half(p), 0, n - 1)
}

/// The columns after an entity's impulse: each impacted column's speed is
/// set to the entity's vertical velocity; everything else is untouched.
pub open spec fn impulse_cols(cols: Seq<DynamicWaterColumn>, x: u16, y: u16, end_x: u16, p: Player) -> Seq<
    DynamicWaterColumn,
> {
    if impulse_hit(x, y, end_x, p) {
        let lo = impulse_lo(x, p, cols.len() as int);
        let hi = impulse_hi(x, p, cols.len() as int);
        Seq::new(
            cols.len(),
            |j: int|
                if lo <= j <= hi {
                    DynamicWaterColumn {
                        target_height: cols[j].target_height,
                        height: cols[j].height,
                        speed: clip(p.vel_y as int) as i32,
                    }
                } else {
                    cols[j]
                },
        )
    } else {
        cols
    }
}

impl DynamicWater {
    /// The inclusive range of columns an entity's impulse lands on, or
    /// `None` when the entity misses the surface's window. The range is
    /// always clamped into `[0, columns.len())`, however far outside the
    /// surface the entity stands.
    pub fn impulse_columns(&self, player: &Player) -> (r: Option<(usize, usize)>)
        requires
            1 <= self.columns@.len() <= MAX_COLUMNS,
        ensures
            r is Some <==> impulse_hit(self.x, self.y, self.end_x, *player),
            r matches Some((lo, hi)) ==> {
                &&& lo as int == impulse_lo(self.x, *player, self.columns@.len() as int)
                &&& hi as int == impulse_hi(self.x, *player, self.columns@.len() as int)
                &&& lo <= hi < self.columns@.len()
            },
    {
        let n = self.columns.len();
        let px: i64 = player.x as i64 + 4096;
        let py: i64 = player.y as i64 + 4096;
        let line_x: i64 = self.x as i64 * 8192;
        let line_y: i64 = self.y as i64 * 8192;

        if (player.vel_y > 0x80 || player.vel_y < -0x80)
            && px > line_x
            && px < self.end_x as i64 * 8192
            && py > line_y - 2560
            && py < line_y + 2048
        {
            let center: i64 = clamp_i64(tdiv_i64(px - line_x, 1024), 0, n as i64 - 1);
            let half: i64 = player.hit_bounds.left as i64 / 4096;
            let lo: i64 = clamp_i64(center - half, 0, n as i64 - 1);
            let hi: i64 = clamp_i64(center + half, 0, n as i64 - 1);
            Some((lo as usize, hi as usize))
        } else {
            None
        }
    }
}

/// Owns the scene's water: the depth regions, the animated surface
/// regions, and one dynamic surface per water line.
pub struct WaterRenderer {
    pub depth_regions: Vec<Rect<u16>>,
    pub surf_regions: Vec<Rect<u16>>,
    pub water_surfaces: Vec<DynamicWater>,
}

/// Every surface has at least one column and all columns are inside the
/// clipped fixed-point band.
pub open spec fn renderer_wf(w: WaterRenderer) -> bool {
    forall|s: int|
        0 <= s < w.water_surfaces.len() ==> {
            &&& 1 <= (#[trigger] w.water_surfaces[s]).columns@.len() <= MAX_COLUMNS
            &&& cols_wf(w.water_surfaces[s].columns@)
        }
}

impl WaterRenderer {
    pub fn new() -> (w: WaterRenderer)
        ensures
            w.depth_regions@.len() == 0,
            w.surf_regions@.len() == 0,
            w.water_surfaces@.len() == 0,
            renderer_wf(w),
    {
        WaterRenderer { depth_regions: Vec::new(), surf_regions: Vec::new(), water_surfaces: Vec::new() }
    }

    /// Splits the level's water regions into depth rectangles and surface
    /// rectangles, and creates one flat resting surface per water line.
    pub fn initialize(&mut self, regions: Vec<(WaterRegionType, Rect<u16>)>)
        requires
            renderer_wf(*old(self)),
            forall|i: int|
                0 <= i < regions@.len() ==> {
                    &&& (#[trigger] regions@[i]).1.left <= regions@[i].1.right
                    &&& regions@[i].1.right < u16::MAX
                },
        ensures
            final(self).depth_regions@ == old(self).depth_regions@ + depth_rects(regions@),
            final(self).surf_regions@ == old(self).surf_regions@ + line_rects(regions@),
            final(self).water_surfaces@.len() == old(self).water_surfaces@.len() + line_rects(
                regions@,
            ).len(),
            forall|k: int|
                0 <= k < old(self).water_surfaces@.len() ==> final(self).water_surfaces@[k] == old(
                    self,
                ).water_surfaces@[k],
            forall|k: int|
                0 <= k < line_rects(regions@).len() ==> surface_from_rect(
                    #[trigger] final(self).water_surfaces@[old(self).water_surfaces@.len() + k],
                    line_rects(regions@)[k],
                ),
            renderer_wf(*final(self)),
    {
        let ghost old_depth = self.depth_regions@;
        let ghost old_surf = self.surf_regions@;
        let ghost old_waters = self.water_surfaces@;
        let ghost all = regions@;

        let mut i: usize = 0;
        let n = regions.len();
        while i < n
            invariant
                n == all.len(),
                i <= n,
                regions@ == all,
                forall|k: int|
                    0 <= k < all.len() ==> {
                        &&& (#[trigger] all[k]).1.left <= all[k].1.right
                        &&& all[k].1.right < u16::MAX
                    },
                self.depth_regions@ == old_depth + depth_rects(all.take(i as int)),
                self.surf_regions@ == old_surf + line_rects(all.take(i as int)),
                self.water_surfaces@.len() == old_waters.len() + line_rects(all.take(i as int)).len(),
                forall|k: int|
                    0 <= k < old_waters.len() ==> self.water_surfaces@[k] == old_waters[k],
                forall|k: int|
                    0 <= k < line_rects(all.take(i as int)).len() ==> surface_from_rect(
                        #[trigger] self.water_surfaces@[old_waters.len() + k],
                        line_rects(all.take(i as int))[k],
                    ),
                renderer_wf(*self),
            decreases n - i,
        {
            proof {
                assert(all.take(i + 1).drop_last() =~= all.take(i as int));
                assert(all.take(i + 1).last() == all[i as int]);
            }
            let (reg_type, bounds) = regions[i];
            match reg_type {
                WaterRegionType::WaterLine => {
                    self.surf_regions.push(bounds);
                    let length = bounds.right - bounds.left + 1;
                    let surf = DynamicWater::new(bounds.left, bounds.top, length);
                    self.water_surfaces.push(surf);
                }
                WaterRegionType::WaterDepth => {
                    self.depth_regions.push(bounds);
                }
            }
            i = i + 1;
        }
        proof {
            assert(all.take(n as int) =~= all);
        }
    }

    /// One water tick: for every surface, the tracked entity's impulse is
    /// applied first (if it lands), then the surface runs its relaxation
    /// and propagation passes.
    pub fn tick(&mut self, player: &Player)
        requires
            renderer_wf(*old(self)),
        ensures
            final(self).depth_regions@ == old(self).depth_regions@,
            final(self).surf_regions@ == old(self).surf_regions@,
            final(self).water_surfaces@.len() == old(self).water_surfaces@.len(),
            forall|s: int|
                0 <= s < old(self).water_surfaces@.len() ==> {
                    let prev = old(self).water_surfaces@[s];
                    let cur = #[trigger] final(self).water_surfaces@[s];
                    &&& cur.columns@ == water_tick_spec(
                        impulse_cols(prev.columns@, prev.x, prev.y, prev.end_x, *player),
                    )
                    &&& cur.x == prev.x
                    &&& cur.y == prev.y
                    &&& cur.end_x == prev.end_x
                },
            renderer_wf(*final(self)),
    {
        let ghost surfs0 = self.water_surfaces@;
        let n = self.water_surfaces.len();
        let mut s: usize = 0;
        while s < n
            invariant
                n == surfs0.len(),
                s <= n,
                self.depth_regions@ == old(self).depth_regions@,
                self.surf_regions@ == old(self).surf_regions@,
                self.water_surfaces@.len() == n,
                forall|k: int|
                    0 <= k < surfs0.len() ==> {
                        &&& 1 <= (#[trigger] surfs0[k]).columns@.len() <= MAX_COLUMNS
                        &&& cols_wf(surfs0[k].columns@)
                    },
                forall|k: int| s <= k < n ==> self.water_surfaces@[k] == surfs0[k],
                forall|k: int|
                    0 <= k < s ==> {
                        let prev = surfs0[k];
                        let cur = #[trigger] self.water_surfaces@[k];
                        &&& cur.columns@ == water_tick_spec(
                            impulse_cols(prev.columns@, prev.x, prev.y, prev.end_x, *player),
                        )
                        &&& cur.x == prev.x
                        &&& cur.y == prev.y
                        &&& cur.end_x == prev.end_x
                    },
                renderer_wf(*self),
            decreases n - s,
        {
            let ghost prev = self.water_surfaces@[s as int];
            match self.water_surfaces[s].impulse_columns(player) {
                Some((lo, hi)) => {
                    let speed = clip_i32(player.vel_y as i64);
                    let mut j = lo;
                    while j <= hi
                        invariant
                            lo <= j <= hi + 1,
                            hi < self.water_surfaces@[s as int].columns@.len(),
                            s < self.water_surfaces@.len() == n == surfs0.len(),
                            speed as int == clip(player.vel_y as int),
                            self.depth_regions@ == old(self).depth_regions@,
                            self.surf_regions@ == old(self).surf_regions@,
                            forall|k: int| #![auto] s <= k < n ==> self.water_surfaces@[k].x == surfs0[k].x
                                && self.water_surfaces@[k].y == surfs0[k].y
                                && self.water_surfaces@[k].end_x == surfs0[k].end_x,
                            forall|k: int| s < k < n ==> self.water_surfaces@[k] == surfs0[k],
                            forall|k: int|
                                0 <= k < s ==> {
                                    let pv = surfs0[k];
                                    let cur = #[trigger] self.water_surfaces@[k];
                                    &&& cur.columns@ == water_tick_spec(
                                        impulse_cols(pv.columns@, pv.x, pv.y, pv.end_x, *player),
                                    )
                                    &&& cur.x == pv.x
                                    &&& cur.y == pv.y
                                    &&& cur.end_x == pv.end_x
                                },
                            self.water_surfaces@[s as int].columns@.len() == prev.columns@.len(),
                            prev == surfs0[s as int],
                            forall|c: int|
                                lo <= c < j ==> #[trigger] self.water_surfaces@[s as int].columns@[c]
                                    == (DynamicWaterColumn {
                                    target_height: prev.columns@[c].target_height,
                                    height: prev.columns@[c].height,
                                    speed: speed,
                                }),
                            forall|c: int|
                                0 <= c < prev.columns@.len() && !(lo <= c < j)
                                    ==> #[trigger] self.water_surfaces@[s as int].columns@[c]
                                    == prev.columns@[c],
                            renderer_wf(*self),
                        decreases hi + 1 - j,
                    {
                        let c = self.water_surfaces[s].columns[j];
                        self.water_surfaces[s].columns[j] = DynamicWaterColumn {
                            target_height: c.target_height,
                            height: c.height,
                            speed,
                        };
                        j = j + 1;
                    }
                    proof {
                        assert(self.water_surfaces@[s as int].columns@ =~= impulse_cols(
                            prev.columns@,
                            prev.x,
                            prev.y,
                            prev.end_x,
                            *player,
                        ));
                    }
                }
                None => {
                    proof {
                        assert(self.water_surfaces@[s as int].columns@ =~= impulse_cols(
                            prev.columns@,
                            prev.x,
                            prev.y,
                            prev.end_x,
                            *player,
                        ));
                    }
                }
            }
            self.water_surfaces[s].tick();
            s = s + 1;
        }
    }
}

/// Negating the dividend negates the truncating quotient.
proof fn lemma_tdiv_neg(a: int, b: int)
    requires
        0 < b,
    ensures
        tdiv(-a, b) == -tdiv(a, b),
{
}

/// A single impulse on an interior column of a flat resting surface is a
/// visible traveling disturbance: after one relaxation-and-spread tick,
/// both immediate neighbors carry nonzero speed of the impulse's sign.
/// (An impulse is only ever written with a magnitude above the entry
/// threshold of 0x80.)
pub proof fn lemma_single_impulse_disturbs_neighbors(
    cols: Seq<DynamicWaterColumn>,
    j: int,
    target: int,
    v: int,
)
    requires
        3 <= cols.len(),
        1 <= j <= cols.len() - 2,
        -0x0100_0000 <= target <= 0x0100_0000,
        129 <= v <= 0x0010_0000 || -0x0010_0000 <= v <= -129,
        forall|i: int|
            0 <= i < cols.len() && i != j ==> (#[trigger] cols[i]) == (DynamicWaterColumn {
                target_height: target as i32,
                height: target as i32,
                speed: 0,
            }),
        cols[j] == (DynamicWaterColumn {
            target_height: target as i32,
            height: target as i32,
            speed: v as i32,
        }),
    ensures
        v > 0 ==> water_tick_spec(cols)[j - 1].speed > 0 && water_tick_spec(cols)[j + 1].speed > 0,
        v < 0 ==> water_tick_spec(cols)[j - 1].speed < 0 && water_tick_spec(cols)[j + 1].speed < 0,
{
    let n = cols.len() as int;
    let rs = relax_seq(cols);
    let p1 = spread_pass_spec(rs);
    let p2 = spread_pass_spec(p1);
    assert(water_tick_spec(cols) == p2);

    // Relaxation: resting columns stay put; the struck column keeps most
    // of its impulse (the drag sheds at most one percent).
    let drag = tdiv(v, 100);
    let s1 = v - drag;
    lemma_tdiv_scale_bounded(v, 1, 100);
    assert(v * 1 == v) by (nonlinear_arith);
    vstd::arithmetic::div_mod::lemma_fundamental_div_mod(if v >= 0 { v } else { -v }, 100);
    assert(v >= 129 ==> s1 >= 128);
    assert(v <= -129 ==> s1 <= -128);
    assert forall|i: int| 0 <= i < n && i != j implies (#[trigger] rs[i]) == cols[i] by {
        assert(cols[i].target_height == cols[i].height && cols[i].speed == 0);
    }
    assert(rs[j] == (DynamicWaterColumn {
        target_height: target as i32,
        height: (target + s1) as i32,
        speed: s1 as i32,
    }));

    // First spread pass: the struck column hands the same delta to both
    // neighbors; everything further out is still untouched.
    let d = tdiv(2 * s1, 100);
    lemma_tdiv_scale_bounded(s1, 2, 100);
    assert(s1 * 2 == 2 * s1) by (nonlinear_arith);
    lemma_tdiv_neg(2 * s1, 100);
    vstd::arithmetic::div_mod::lemma_fundamental_div_mod(if s1 >= 0 { 2 * s1 } else { -2 * s1 }, 100);
    assert(s1 >= 128 ==> d >= 2);
    assert(s1 <= -128 ==> d <= -2);

    assert(l_delta(rs, j) == d);
    assert(r_delta(rs, j) == d);
    assert(l_delta(rs, j + 1) == -d);
    assert(r_delta(rs, j - 1) == -d);
    assert(p1[j - 1] == (DynamicWaterColumn {
        target_height: target as i32,
        height: (target + d) as i32,
        speed: d as i32,
    }));
    assert(p1[j + 1] == (DynamicWaterColumn {
        target_height: target as i32,
        height: (target + d) as i32,
        speed: d as i32,
    }));
    assert(p1[j] == (DynamicWaterColumn {
        target_height: target as i32,
        height: (target + s1 - 2 * d) as i32,
        speed: (s1 - 2 * d) as i32,
    }));
    if j - 2 >= 0 {
        assert(p1[j - 2] == cols[j - 2]);
    }
    if j + 2 < n {
        assert(p1[j + 2] == cols[j + 2]);
    }

    // Second spread pass: the neighbor keeps its delta, gains a further
    // push from the still-displaced center, and loses at most a smaller
    // backwash toward the outside.
    let d2 = tdiv(2 * (s1 - 3 * d), 100);
    let e = tdiv(2 * d, 100);
    lemma_tdiv_scale_bounded(s1 - 3 * d, 2, 100);
    assert((s1 - 3 * d) * 2 == 2 * (s1 - 3 * d)) by (nonlinear_arith);
    lemma_tdiv_neg(2 * (s1 - 3 * d), 100);
    lemma_tdiv_scale_bounded(d, 2, 100);
    assert(d * 2 == 2 * d) by (nonlinear_arith);
    lemma_tdiv_neg(2 * d, 100);
    vstd::arithmetic::div_mod::lemma_fundamental_div_mod(if d >= 0 { 2 * d } else { -2 * d }, 100);
    // The backwash is strictly smaller than the neighbor's own delta.
    assert(d >= 2 ==> e < d);
    assert(d <= -2 ==> e > d);
    // The center is still displaced in the impulse's direction.
    assert(s1 >= 128 ==> s1 - 3 * d > 0 && d2 >= 0);
    assert(s1 <= -128 ==> s1 - 3 * d < 0 && d2 <= 0);

    assert(l_delta(p1, j) == d2);
    assert(r_delta(p1, j) == d2);
    if j - 2 >= 0 {
        assert(r_delta(p1, j - 2) == -e);
    }
    if j + 2 < n {
        assert(l_delta(p1, j + 2) == -e);
    }

    assert(p2[j - 1].speed as int == (if j - 2 >= 0 {
        clip(d + d2 + -e)
    } else {
        clip(d + d2)
    }));
    assert(p2[j + 1].speed as int == (if j + 2 < n {
        clip(d + d2 + -e)
    } else {
        clip(d + d2)
    }));
}

/// The tick never diverges: every relaxation and propagation write is
/// clipped, and targets pass through unchanged, so well-formed columns
/// stay well-formed.
pub proof fn lemma_water_tick_spec_wf(cols: Seq<DynamicWaterColumn>)
    requires
        cols_wf(cols),
    ensures
        cols_wf(water_tick_spec(cols)),
{
    let rs = relax_seq(cols);
    assert forall|i: int| 0 <= i < rs.len() implies col_wf(#[trigger] rs[i]) by {
        assert(col_wf(cols[i]));
    }
    let p1 = spread_pass_spec(rs);
    assert forall|i: int| 0 <= i < p1.len() implies col_wf(#[trigger] p1[i]) by {
        assert(col_wf(rs[i]));
    }
    let p2 = spread_pass_spec(p1);
    assert forall|i: int| 0 <= i < p2.len() implies col_wf(#[trigger] p2[i]) by {
        assert(col_wf(p1[i]));
    }
}

/// However long a surface runs and whatever impulses it has absorbed,
/// its heights and speeds remain inside the clipped fixed-point band:
/// the simulation is stable for the given rate constants.
pub proof fn lemma_water_ticks_never_diverge(cols: Seq<DynamicWaterColumn>, k: nat)
    requires
        cols_wf(cols),
    ensures
        cols_wf(water_ticks(cols, k)),
    decreases k,
{
    if k > 0 {
        lemma_water_ticks_never_diverge(cols, (k - 1) as nat);
        lemma_water_tick_spec_wf(water_ticks(cols, (k - 1) as nat));
    }
}

} // verus!
