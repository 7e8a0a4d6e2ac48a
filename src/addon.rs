use vstd::prelude::*;

use crate::keypress::{keypress_wf, VisualKeypress};
use crate::matrix::{LedmatrixState, Side, HEIGHT, WIDTH};

verus! {

/// The integer mixing function behind `rand`: one multiply by the golden
/// ratio constant followed by the three xor-shift/multiply rounds of the
/// murmur3 finaliser, all modulo 2^32.
pub open spec fn mix_spec(seed: u32) -> u32 {
    let a = seed.wrapping_mul(0x9E37_79B9);
    let b = a ^ (a >> 16u32);
    let c = b.wrapping_mul(0x85EB_CA6B);
    let d = c ^ (c >> 13u32);
    let e = d.wrapping_mul(0xC2B2_AE35);
    e ^ (e >> 16u32)
}

/// The denominator of a value returned by `rand`.
pub const RAND_SCALE: u32 = 0x0080_0000;

/// What `rand(seed)` returns: the top 23 bits of the mixed seed.
pub open spec fn rand_spec(seed: u32) -> u32 {
    mix_spec(seed) >> 9u32
}

/// Deterministic hash of `seed` into a fraction in `[0, 1)`, returned as its
/// numerator over `RAND_SCALE` (2^23). This is exactly the mantissa of the
/// float in `[1, 2)` whose fractional part is the random value.
pub fn rand(seed: u32) -> (r: u32)
    ensures
        r == rand_spec(seed),
        r < RAND_SCALE,
{
    let mut x: u32 = seed.wrapping_mul(0x9E37_79B9);
    x = x ^ (x >> 16u32);
    x = x.wrapping_mul(0x85EB_CA6B);
    x = x ^ (x >> 13u32);
    x = x.wrapping_mul(0xC2B2_AE35);
    x = x ^ (x >> 16u32);
    let r = x >> 9u32;
    assert(x >> 9u32 < 0x0080_0000u32) by (bit_vector);
    r
}

/// `rand` is a function of its seed alone, and its value is a fraction in `[0, 1)`.
pub proof fn lemma_rand_deterministic(a: u32, b: u32)
    requires
        a == b,
    ensures
        rand_spec(a) == rand_spec(b),
        0 <= rand_spec(a) < RAND_SCALE,
{
    let m = mix_spec(a);
    assert(m >> 9u32 < 0x0080_0000u32) by (bit_vector);
}


/// A continuously running procedural pattern.
#[derive(Clone, Copy, PartialEq, Eq, Structural, Debug)]
pub enum AddonAnimation {
    Spiral,
    Splashes,
    Helix,
}

/// The wire values that select an addon animation.
#[derive(Clone, Copy, PartialEq, Eq, Structural, Debug)]
pub enum AddonAnimationVals {
    Spiral,
    Splashes,
    Helix,
}

impl AddonAnimationVals {
    /// The variant whose wire value is `n`: 0, 1 and 2, in declaration order.
    pub fn from_u8(n: u8) -> (r: Option<AddonAnimationVals>)
        ensures
            n == 0 <==> r == Some(AddonAnimationVals::Spiral),
            n == 1 <==> r == Some(AddonAnimationVals::Splashes),
            n == 2 <==> r == Some(AddonAnimationVals::Helix),
            n > 2 <==> r is None,
    {
        if n == 0 {
            Some(AddonAnimationVals::Spiral)
        } else if n == 1 {
            Some(AddonAnimationVals::Splashes)
        } else if n == 2 {
            Some(AddonAnimationVals::Helix)
        } else {
            None
        }
    }

    /// The animation this wire value selects.
    pub fn animation(&self) -> (r: AddonAnimation)
        ensures
            *self == AddonAnimationVals::Spiral <==> r == AddonAnimation::Spiral,
            *self == AddonAnimationVals::Splashes <==> r == AddonAnimation::Splashes,
            *self == AddonAnimationVals::Helix <==> r == AddonAnimation::Helix,
    {
        match self {
            AddonAnimationVals::Spiral => AddonAnimation::Spiral,
            AddonAnimationVals::Splashes => AddonAnimation::Splashes,
            AddonAnimationVals::Helix => AddonAnimation::Helix,
        }
    }
}

/// Denominator of `CachedUV::uv_x`: `WIDTH - 1`.
pub const UV_X_DEN: i64 = 8;

/// Denominator of `CachedUV::uv_y`: `2 * HEIGHT`.
pub const UV_Y_DEN: i64 = 68;

/// Denominator of `CachedUV::centered_x`.
pub const CENTERED_X_DEN: i64 = 8;

/// Denominator of `CachedUV::centered_y`: `UV_Y_DEN * WIDTH`.
pub const CENTERED_Y_DEN: i64 = 612;

/// The two coordinate systems of one pixel, as exact fractions: each field is
/// a numerator over the constant denominator named after it.
///
/// `uv` lies in `[0, 1]^2`, x running right to left and each row sampled
/// at its centre; `uv_centered` is
/// `((uv.x - 1/2) * 2, ((uv.y - 1/2) / (WIDTH / HEIGHT)) * 2)`.
#[derive(Clone, Copy, PartialEq, Eq, Structural, Debug)]
pub struct CachedUV {
    pub uv_x: i64,
    pub uv_y: i64,
    pub centered_x: i64,
    pub centered_y: i64,
}

/// `uv.x` of column `x` is `(WIDTH - 1 - x) / (WIDTH - 1)`.
pub open spec fn uv_x_spec(x: int) -> int {
    (WIDTH - 1) - x
}

/// `uv.y` of row `y` is `(y + 1/2) / HEIGHT`, the centre of the row.
pub open spec fn uv_y_spec(y: int) -> int {
    2 * y + 1
}

/// The centered coordinates as a function of `uv`, over their denominators.
pub open spec fn centered_x_of(uv_x: int) -> int {
    2 * uv_x - UV_X_DEN
}

pub open spec fn centered_y_of(uv_y: int) -> int {
    (HEIGHT as int) * (2 * uv_y - UV_Y_DEN)
}

pub open spec fn cached_uv_spec(x: int, y: int) -> CachedUV {
    CachedUV {
        uv_x: uv_x_spec(x) as i64,
        uv_y: uv_y_spec(y) as i64,
        centered_x: centered_x_of(uv_x_spec(x)) as i64,
        centered_y: centered_y_of(uv_y_spec(y)) as i64,
    }
}

impl CachedUV {
    /// The coordinates of the pixel at column `x`, row `y`.
    pub fn at(x: usize, y: usize) -> (r: CachedUV)
        requires
            x < WIDTH,
            y < HEIGHT,
        ensures
            r == cached_uv_spec(x as int, y as int),
    {
        let ux: i64 = (WIDTH - 1 - x) as i64;
        let uy: i64 = (2 * y + 1) as i64;
        CachedUV {
            uv_x: ux,
            uv_y: uy,
            centered_x: 2 * ux - UV_X_DEN,
            centered_y: (HEIGHT as i64) * (2 * uy - UV_Y_DEN),
        }
    }
}

/// The table of every pixel's coordinates, indexed `[x][y]`.
pub fn cached_uvs() -> (r: [[CachedUV; HEIGHT]; WIDTH])
    ensures
        forall|x: int, y: int|
            0 <= x < WIDTH && 0 <= y < HEIGHT ==> #[trigger] r[x][y] == cached_uv_spec(x, y),
{
    let zero = CachedUV { uv_x: 0, uv_y: 0, centered_x: 0, centered_y: 0 };
    let col0: [CachedUV; HEIGHT] = [zero; HEIGHT];
    let mut table: [[CachedUV; HEIGHT]; WIDTH] = [col0; WIDTH];
    let mut x: usize = 0;
    while x < WIDTH
        invariant
            0 <= x <= WIDTH,
            forall|i: int, y: int|
                0 <= i < x && 0 <= y < HEIGHT ==> #[trigger] table[i][y] == cached_uv_spec(i, y),
        decreases WIDTH - x,
    {
        let mut col: [CachedUV; HEIGHT] = [zero; HEIGHT];
        let mut y: usize = 0;
        while y < HEIGHT
            invariant
                0 <= y <= HEIGHT,
                x < WIDTH,
                forall|j: int| 0 <= j < y ==> #[trigger] col[j] == cached_uv_spec(x as int, j),
            decreases HEIGHT - y,
        {
            col[y] = CachedUV::at(x, y);
            y = y + 1;
        }
        let ghost before = table;
        table[x] = col;
        assert forall|i: int, y: int|
            0 <= i < x + 1 && 0 <= y < HEIGHT implies #[trigger] table[i][y] == cached_uv_spec(i, y) by {
            if i < x {
                assert(table[i] == before[i]);
                assert(before[i][y] == cached_uv_spec(i, y));
            } else {
                assert(table[i] == col);
            }
        }
        x = x + 1;
    }
    table
}

/// Every cached pixel's centered coordinates are its `uv` coordinates mapped
/// by `((u - 1/2) * 2, ((v - 1/2) / (WIDTH / HEIGHT)) * 2)`, exactly.
pub proof fn lemma_centered_from_uv(x: int, y: int)
    requires
        0 <= x < WIDTH,
        0 <= y < HEIGHT,
    ensures
        ({
            let c = cached_uv_spec(x, y);
            &&& c.centered_x * UV_X_DEN == (2 * c.uv_x - UV_X_DEN) * CENTERED_X_DEN
            &&& c.centered_y * UV_Y_DEN * (WIDTH as int) == (2 * c.uv_y - UV_Y_DEN) * (HEIGHT as int)
                * CENTERED_Y_DEN
            &&& 0 <= c.uv_x <= UV_X_DEN
            &&& 0 < c.uv_y < UV_Y_DEN
        }),
{
    let c = cached_uv_spec(x, y);
    let d = 2 * c.uv_y - UV_Y_DEN;
    assert(c.centered_y == 34 * d);
    assert(34 * d * 68 * 9 == d * 34 * 612) by (nonlinear_arith);
}


/// The x coordinate of the pixel seen from the splash centre, which is offset
/// by `rand1 - 1/2`, over `16 * RAND_SCALE`.
pub open spec fn splash_dx(uv: CachedUV, k: VisualKeypress) -> int {
    2 * (RAND_SCALE as int) * uv.centered_x + CENTERED_X_DEN * (2 * k.rand1 - RAND_SCALE)
}

/// The y coordinate of the pixel seen from the splash centre, offset by
/// `rand0 * 6 - 3`, over `CENTERED_Y_DEN * RAND_SCALE`.
pub open spec fn splash_dy(uv: CachedUV, k: VisualKeypress) -> int {
    (RAND_SCALE as int) * uv.centered_y + CENTERED_Y_DEN * (6 * k.rand0 - 3 * RAND_SCALE)
}

/// Whether the pixel lies within the splash's current radius,
/// `1.5 * life / max_life`: the squared distance from the centre compared
/// with the squared radius, both brought to one denominator.
pub open spec fn splash_reaches_spec(uv: CachedUV, k: VisualKeypress, max_life: u8) -> bool {
    let dx = splash_dx(uv, k);
    let dy = splash_dy(uv, k);
    let m = max_life as int;
    let l = k.life as int;
    let s = RAND_SCALE as int;
    4 * m * m * (CENTERED_Y_DEN * CENTERED_Y_DEN * dx * dx + 256 * dy * dy)
        <= 9 * l * l * 256 * CENTERED_Y_DEN * CENTERED_Y_DEN * s * s
}

/// The centered coordinates lie within the panel's bounds.
pub open spec fn uv_in_range(uv: CachedUV) -> bool {
    &&& -CENTERED_X_DEN <= uv.centered_x <= CENTERED_X_DEN
    &&& -2244 <= uv.centered_y <= 2244
}

/// Whether the splash of keypress `k` covers the pixel at `uv`.
pub fn splash_reaches(uv: &CachedUV, k: &VisualKeypress, max_life: u8) -> (r: bool)
    requires
        uv_in_range(*uv),
        keypress_wf(*k, max_life),
    ensures
        r == splash_reaches_spec(*uv, *k, max_life),
{
    let s: i128 = RAND_SCALE as i128;
    let cx: i128 = uv.centered_x as i128;
    let cy: i128 = uv.centered_y as i128;
    let r0: i128 = k.rand0 as i128;
    let r1: i128 = k.rand1 as i128;
    let dx: i128 = 2 * s * cx + 8 * (2 * r1 - s);
    let dy: i128 = s * cy + 612 * (6 * r0 - 3 * s);
    let m: i128 = max_life as i128;
    let l: i128 = k.life as i128;
    assert(-0x1_0000_0000 <= dx <= 0x1_0000_0000);
    assert(-0x10_0000_0000 <= dy <= 0x10_0000_0000);
    assert(0 <= dx * dx <= 0x1_0000_0000_0000_0000) by (nonlinear_arith)
        requires
            -0x1_0000_0000 <= dx <= 0x1_0000_0000,
    ;
    assert(0 <= dy * dy <= 0x100_0000_0000_0000_0000) by (nonlinear_arith)
        requires
            -0x10_0000_0000 <= dy <= 0x10_0000_0000,
    ;
    let dx2: i128 = dx * dx;
    let dy2: i128 = dy * dy;
    let sum: i128 = 374544 * dx2 + 256 * dy2;
    assert(0 <= m * m <= 65025) by (nonlinear_arith)
        requires
            0 <= m <= 255,
    ;
    assert(0 <= l * l <= 65025) by (nonlinear_arith)
        requires
            0 <= l <= 255,
    ;
    let mm: i128 = 4 * (m * m);
    let ll: i128 = 9 * (l * l);
    assert(0 <= mm * sum <= 260100 * 0x10_0000_0000_0000_0000_0000) by (nonlinear_arith)
        requires
            0 <= mm <= 260100,
            0 <= sum <= 0x10_0000_0000_0000_0000_0000,
    ;
    let lhs: i128 = mm * sum;
    assert(0 <= ll * 0x4000_0000_0000 <= 585225 * 0x4000_0000_0000) by (nonlinear_arith)
        requires
            0 <= ll <= 585225,
    ;
    let rhs: i128 = ll * 0x4000_0000_0000 * 95883264;
    assert(s * s == 0x4000_0000_0000);
    assert(256 * 612 * 612 == 95883264);
    assert(rhs == 9 * l * l * 256 * 612 * 612 * s * s) by (nonlinear_arith)
        requires
            rhs == ll * 0x4000_0000_0000 * 95883264,
            ll == 9 * (l * l),
            s * s == 0x4000_0000_0000,
    ;
    assert(lhs == 4 * m * m * (612 * 612 * dx * dx + 256 * dy * dy)) by (nonlinear_arith)
        requires
            lhs == mm * sum,
            mm == 4 * (m * m),
            sum == 374544 * dx2 + 256 * dy2,
            dx2 == dx * dx,
            dy2 == dy * dy,
    ;
    lhs <= rhs
}

/// The keypresses, in list order, whose splash is drawn at `uv`: the live
/// ones on `side` whose radius reaches the pixel.
pub open spec fn splash_sources_spec(s: Seq<VisualKeypress>, side: Side, max_life: u8, uv: CachedUV) -> Seq<VisualKeypress>
    decreases s.len(),
{
    if s.len() == 0 {
        Seq::<VisualKeypress>::empty()
    } else {
        let rest = splash_sources_spec(s.drop_last(), side, max_life, uv);
        if s.last().life > 0 && s.last().side == side && splash_reaches_spec(uv, s.last(), max_life) {
            rest.push(s.last())
        } else {
            rest
        }
    }
}

/// The keypresses whose splash is drawn at the pixel `uv` of `state`'s panel.
pub fn splash_sources(state: &LedmatrixState, uv: &CachedUV) -> (r: Vec<VisualKeypress>)
    requires
        state.wf(),
        uv_in_range(*uv),
    ensures
        r@ == splash_sources_spec(state.keypresses(), state.side, state.visual_keypress_life, *uv),
{
    let ghost all = state.keypresses();
    let items = crate::keypress::list_slice(&state.visual_keypresses);
    let n = items.len();
    let mut r: Vec<VisualKeypress> = Vec::new();
    let mut i: usize = 0;
    while i < n
        invariant
            0 <= i <= n,
            n == all.len(),
            items@ == all,
            state.wf(),
            all == state.keypresses(),
            uv_in_range(*uv),
            r@ == splash_sources_spec(all.take(i as int), state.side, state.visual_keypress_life, *uv),
        decreases n - i,
    {
        let k = items[i];
        proof {
            assert(all.take(i as int + 1).drop_last() == all.take(i as int));
            assert(all.take(i as int + 1).last() == k);
            assert(keypress_wf(all[i as int], state.visual_keypress_life));
        }
        if k.side == state.side && splash_reaches(uv, &k, state.visual_keypress_life) {
            r.push(k);
        }
        i = i + 1;
    }
    proof {
        assert(all.take(n as int) == all);
    }
    r
}

/// A pixel that no live splash on the module's side reaches has no splash
/// sources, so the splash pattern leaves it dark.
pub proof fn lemma_unreached_pixel_is_dark(s: Seq<VisualKeypress>, side: Side, max_life: u8, uv: CachedUV)
    requires
        forall|i: int| 0 <= i < s.len() ==> !splash_reaches_spec(uv, #[trigger] s[i], max_life),
    ensures
        splash_sources_spec(s, side, max_life, uv).len() == 0,
    decreases s.len(),
{
    if s.len() > 0 {
        let t = s.drop_last();
        assert forall|i: int| 0 <= i < t.len() implies !splash_reaches_spec(uv, #[trigger] t[i], max_life) by {
            assert(t[i] == s[i]);
        }
        lemma_unreached_pixel_is_dark(t, side, max_life, uv);
        assert(s.last() == s[s.len() - 1]);
    }
}

/// Every cached pixel's coordinates lie within the panel's bounds.
pub proof fn lemma_cached_uv_in_range(x: int, y: int)
    requires
        0 <= x < WIDTH,
        0 <= y < HEIGHT,
    ensures
        uv_in_range(cached_uv_spec(x, y)),
{
}

/// An event whose life has run out takes no part in the splash pattern:
/// appending one leaves every pixel's splash sources as they were.
pub proof fn lemma_expired_keypress_is_ignored(
    s: Seq<VisualKeypress>,
    e: VisualKeypress,
    side: Side,
    max_life: u8,
    uv: CachedUV,
)
    requires
        e.life == 0,
    ensures
        splash_sources_spec(s.push(e), side, max_life, uv) == splash_sources_spec(s, side, max_life, uv),
{
    assert(s.push(e).drop_last() =~= s);
}

/// Every splash source of a pixel is a live event of the list on `side`, and
/// the pixel lies within its disc of radius `1.5 * life / max_life`.
pub proof fn lemma_sources_within_radius(s: Seq<VisualKeypress>, side: Side, max_life: u8, uv: CachedUV)
    ensures
        forall|i: int|
            0 <= i < splash_sources_spec(s, side, max_life, uv).len() ==> {
                let k = #[trigger] splash_sources_spec(s, side, max_life, uv)[i];
                &&& s.contains(k)
                &&& k.life > 0
                &&& k.side == side
                &&& splash_reaches_spec(uv, k, max_life)
            },
    decreases s.len(),
{
    if s.len() > 0 {
        let t = s.drop_last();
        lemma_sources_within_radius(t, side, max_life, uv);
        let r = splash_sources_spec(s, side, max_life, uv);
        let rt = splash_sources_spec(t, side, max_life, uv);
        assert forall|i: int| 0 <= i < r.len() implies {
            let k = #[trigger] r[i];
            &&& s.contains(k)
            &&& k.life > 0
            &&& k.side == side
            &&& splash_reaches_spec(uv, k, max_life)
        } by {
            if i < rt.len() {
                assert(r[i] == rt[i]);
                let j = choose|j: int| 0 <= j < t.len() && t[j] == rt[i];
                assert(s[j] == t[j]);
            } else {
                assert(r[i] == s.last());
                assert(s[s.len() - 1] == s.last());
            }
        }
    }
}

/// Once as many ticks have passed as a new keypress has life, no pixel has a
/// splash source left, so the splash pattern draws nothing.
pub proof fn lemma_splashes_end_after_life(s: LedmatrixState, uv: CachedUV)
    requires
        s.wf(),
    ensures
        splash_sources_spec(
            crate::keypress::decayed_n(s.keypresses(), s.visual_keypress_life as nat),
            s.side,
            s.visual_keypress_life,
            uv,
        ).len() == 0,
{
    crate::matrix::lemma_state_keypresses_expire(s);
}

} // verus!
