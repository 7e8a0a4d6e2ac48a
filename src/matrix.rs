use vstd::prelude::*;

use crate::addon::{rand, rand_spec, AddonAnimation};
use crate::keypress::{
    decayed, keypress_wf, keypresses_held, list_new, list_push, list_slice,
    VisualKeypress, KEYPRESS_CAPACITY, KEYPRESS_DECAY,
};

verus! {

/// Number of LED columns.
pub const WIDTH: usize = 9;

/// Number of LED rows.
pub const HEIGHT: usize = 34;

/// Number of LEDs on the panel.
pub const LEDS: usize = 306;

/// One frame: an 8-bit intensity per LED, indexed `[x][y]`.
#[derive(Clone, Copy)]
pub struct Grid(pub [[u8; HEIGHT]; WIDTH]);

impl Default for Grid {
    fn default() -> (r: Self)
        ensures
            forall|x: int, y: int| 0 <= x < WIDTH && 0 <= y < HEIGHT ==> #[trigger] r.at(x, y) == 0,
    {
        Grid::blank()
    }
}

impl Grid {
    /// The intensity at column `x`, row `y`.
    pub open spec fn at(self, x: int, y: int) -> u8 {
        self.0[x][y]
    }

    /// The all-dark frame.
    pub fn blank() -> (r: Self)
        ensures
            forall|x: int, y: int| 0 <= x < WIDTH && 0 <= y < HEIGHT ==> #[trigger] r.at(x, y) == 0,
    {
        let col: [u8; HEIGHT] = [0u8; HEIGHT];
        let r = Grid([col; WIDTH]);
        assert forall|x: int, y: int| 0 <= x < WIDTH && 0 <= y < HEIGHT implies #[trigger] r.at(x, y) == 0 by {
            assert(r.0[x] == col);
        }
        r
    }

    /// Shifts every column down by `rotations` rows, cyclically: the value at
    /// row `y` moves to row `(y + rotations) % HEIGHT`.
    pub fn rotate(&mut self, rotations: usize)
        requires
            rotations <= HEIGHT,
        ensures
            forall|x: int, y: int|
                0 <= x < WIDTH && 0 <= y < HEIGHT ==> #[trigger] final(self).at(x, (y + rotations) % (HEIGHT as int))
                    == old(self).at(x, y),
    {
        let ghost before = *self;
        let mut x: usize = 0;
        while x < WIDTH
            invariant
                0 <= x <= WIDTH,
                rotations <= HEIGHT,
                forall|i: int, y: int|
                    0 <= i < x && 0 <= y < HEIGHT ==> #[trigger] self.at(i, (y + rotations) % (HEIGHT as int))
                        == before.at(i, y),
                forall|i: int| x <= i < WIDTH ==> #[trigger] self.0[i] == before.0[i],
            decreases WIDTH - x,
        {
            let old_col: [u8; HEIGHT] = self.0[x];
            let mut col: [u8; HEIGHT] = [0u8; HEIGHT];
            let mut j: usize = 0;
            while j < HEIGHT
                invariant
                    0 <= j <= HEIGHT,
                    x < WIDTH,
                    rotations <= HEIGHT,
                    old_col == before.0[x as int],
                    forall|k: int|
                        0 <= k < j ==> #[trigger] col[k] == old_col[(k + HEIGHT - rotations) % (HEIGHT as int)],
                decreases HEIGHT - j,
            {
                col[j] = old_col[(j + HEIGHT - rotations) % HEIGHT];
                j = j + 1;
            }
            let ghost mid = *self;
            self.0[x] = col;
            assert forall|i: int, y: int|
                0 <= i < x + 1 && 0 <= y < HEIGHT implies #[trigger] self.at(i, (y + rotations) % (HEIGHT as int))
                    == before.at(i, y) by {
                let k = (y + rotations) % (HEIGHT as int);
                if i == x {
                    if y + rotations < HEIGHT {
                        assert(k == y + rotations);
                        assert((k + HEIGHT - rotations) % (HEIGHT as int) == y) by {
                            assert(k + HEIGHT - rotations == y + HEIGHT);
                        }
                    } else {
                        assert(k == y + rotations - HEIGHT);
                        assert((k + HEIGHT - rotations) % (HEIGHT as int) == y);
                    }
                    assert(self.0[i] == col);
                    assert(col[k] == old_col[(k + HEIGHT - rotations) % (HEIGHT as int)]);
                    assert(self.at(i, k) == col[k]);
                } else {
                    assert(self.0[i] == mid.0[i]);
                    assert(mid.at(i, k) == before.at(i, y));
                }
            }
            x = x + 1;
        }
    }
}

/// The half of a split keyboard a module sits on.
#[derive(Clone, Copy, PartialEq, Eq, Structural, Debug)]
pub enum Side {
    Left,
    Right,
}

impl Side {
    pub fn is_left(&self) -> (r: bool)
        ensures
            r <==> *self == Side::Left,
    {
        match self {
            Side::Left => true,
            Side::Right => false,
        }
    }

    pub fn is_right(&self) -> (r: bool)
        ensures
            r <==> *self == Side::Right,
    {
        match self {
            Side::Left => false,
            Side::Right => true,
        }
    }
}


/// Whether asleep or not; when asleep, the frame and brightness to restore.
#[derive(Clone, Copy)]
pub enum SleepState {
    Awake,
    Sleeping((Grid, u8)),
}

/// What sent the module to sleep.
#[derive(Clone, Copy, Debug, PartialEq, Eq, Structural)]
pub enum SleepReason {
    Command,
    SleepPin,
    Timeout,
    UsbSuspend,
}

/// The running game, held but not interpreted here.
#[derive(Clone, Copy, Debug, PartialEq, Eq, Structural)]
pub enum GameState {
    Snake,
    Pong,
    GameOfLife,
}

/// Which rendering path produces the next frame.
#[derive(Clone, Copy, Debug, PartialEq, Eq, Structural)]
pub enum RenderMode {
    /// The current static pattern stays on screen.
    Static,
    Addon(AddonAnimation),
    Game(GameState),
}

/// The whole device state.
pub struct LedmatrixState {
    /// Recent keypresses for the reactive patterns, oldest first.
    pub visual_keypresses: heapless::Vec<VisualKeypress, 64>,
    /// The life a new keypress starts with.
    pub visual_keypress_life: u8,
    /// Animation clock in ticks; wraps around.
    pub timer: u32,
    pub addon_animation: Option<AddonAnimation>,
    pub side: Side,
    /// Currently displayed grid
    pub grid: Grid,
    /// Buffer the next frame is composed in
    pub col_buffer: Grid,
    /// Whether the grid is currently being animated
    pub animate: bool,
    /// LED brightness out of 255
    pub brightness: u8,
    pub sleeping: SleepState,
    /// State of the current game, if any
    pub game: Option<GameState>,
    /// Animation period in microseconds
    pub animation_period: u64,
    /// LED PWM frequency in Hz
    pub pwm_freq: u16,
    /// Debug mode: sleep, wake and startup happen at once, without fading,
    /// and idle timeouts do not send the module to sleep.
    pub debug_mode: bool,
}

impl LedmatrixState {
    pub open spec fn keypresses(self) -> Seq<VisualKeypress> {
        keypresses_held(self.visual_keypresses)
    }

    /// At most one of addon animation and game is active, and the keypress
    /// list is within capacity and holds only live events.
    pub open spec fn wf(self) -> bool {
        &&& self.visual_keypress_life > 0
        &&& self.keypresses().len() <= KEYPRESS_CAPACITY
        &&& forall|i: int|
            0 <= i < self.keypresses().len() ==> keypress_wf(
                #[trigger] self.keypresses()[i],
                self.visual_keypress_life,
            )
        &&& !(self.addon_animation is Some && self.game is Some)
    }

    /// The rendering path the state selects.
    pub open spec fn mode(self) -> RenderMode {
        match self.game {
            Some(g) => RenderMode::Game(g),
            None => match self.addon_animation {
                Some(a) => RenderMode::Addon(a),
                None => RenderMode::Static,
            },
        }
    }

    /// The fields that no mode change, tick or sleep transition touches.
    pub open spec fn same_settings(self, other: Self) -> bool {
        &&& self.visual_keypress_life == other.visual_keypress_life
        &&& self.side == other.side
        &&& self.animate == other.animate
        &&& self.animation_period == other.animation_period
        &&& self.pwm_freq == other.pwm_freq
        &&& self.debug_mode == other.debug_mode
    }

    /// An awake state showing a blank static frame, with no keypresses.
    pub fn new(side: Side, visual_keypress_life: u8, brightness: u8, animation_period: u64, pwm_freq: u16) -> (r: Self)
        requires
            visual_keypress_life > 0,
        ensures
            r.wf(),
            r.keypresses().len() == 0,
            r.mode() == RenderMode::Static,
            r.sleeping is Awake,
            r.side == side,
            r.visual_keypress_life == visual_keypress_life,
            r.brightness == brightness,
            r.animation_period == animation_period,
            r.pwm_freq == pwm_freq,
            r.timer == 0,
            r.animate,
            !r.debug_mode,
            forall|x: int, y: int| 0 <= x < WIDTH && 0 <= y < HEIGHT ==> #[trigger] r.grid.at(x, y) == 0,
    {
        let grid = Grid::blank();
        LedmatrixState {
            visual_keypresses: list_new(),
            visual_keypress_life,
            timer: 0,
            addon_animation: None,
            side,
            grid,
            col_buffer: grid,
            animate: true,
            brightness,
            sleeping: SleepState::Awake,
            game: None,
            animation_period,
            pwm_freq,
            debug_mode: false,
        }
    }

    /// The two states agree on every field but the keypress list and the timer.
    pub open spec fn same_but_keypresses_and_timer(self, other: Self) -> bool {
        &&& self.same_settings(other)
        &&& self.addon_animation == other.addon_animation
        &&& self.grid == other.grid
        &&& self.col_buffer == other.col_buffer
        &&& self.brightness == other.brightness
        &&& self.sleeping == other.sleeping
        &&& self.game == other.game
    }

    /// The event a keypress of `keycode` on `side` creates: full life, and its
    /// two random fractions drawn once from the keycode.
    pub open spec fn new_keypress(self, keycode: u32, side: Side) -> VisualKeypress {
        VisualKeypress {
            keycode,
            life: self.visual_keypress_life,
            alive: true,
            side,
            rand0: rand_spec(keycode),
            rand1: rand_spec(keycode.wrapping_add(1)),
        }
    }

    /// Takes in a key event. A press is appended with full life unless the
    /// list is full, in which case it is dropped; a release changes nothing.
    /// Returns whether an event was added.
    pub fn enqueue_keypress(&mut self, keycode: u32, side: Side, pressed: bool) -> (r: bool)
        requires
            old(self).wf(),
        ensures
            final(self).wf(),
            final(self).same_but_keypresses_and_timer(*old(self)),
            final(self).timer == old(self).timer,
            r <==> pressed && old(self).keypresses().len() < KEYPRESS_CAPACITY,
            r ==> final(self).keypresses() == old(self).keypresses().push(old(self).new_keypress(keycode, side)),
            !r ==> final(self).keypresses() == old(self).keypresses(),
    {
        if !pressed {
            return false;
        }
        let k = VisualKeypress {
            keycode,
            life: self.visual_keypress_life,
            alive: true,
            side,
            rand0: rand(keycode),
            rand1: rand(keycode.wrapping_add(1)),
        };
        let ghost before = self.keypresses();
        let r = list_push(&mut self.visual_keypresses, k);
        assert forall|i: int|
            0 <= i < self.keypresses().len() implies keypress_wf(#[trigger] self.keypresses()[i], self.visual_keypress_life) by {
            if i < before.len() {
                assert(self.keypresses()[i] == before[i]);
            }
        }
        r
    }

    /// Ages every keypress by one tick, removing those whose life runs out.
    pub fn decay_keypresses(&mut self)
        requires
            old(self).wf(),
        ensures
            final(self).wf(),
            final(self).same_but_keypresses_and_timer(*old(self)),
            final(self).timer == old(self).timer,
            final(self).keypresses() == decayed(old(self).keypresses()),
    {
        let ghost before = self.keypresses();
        let mut fresh = list_new();
        let items = list_slice(&self.visual_keypresses);
        let n = items.len();
        let mut i: usize = 0;
        while i < n
            invariant
                0 <= i <= n,
                n == before.len(),
                items@ == before,
                n <= KEYPRESS_CAPACITY,
                keypresses_held(fresh) == decayed(before.take(i as int)),
                keypresses_held(fresh).len() <= i,
            decreases n - i,
        {
            let k = items[i];
            proof {
                assert(before.take(i as int + 1).drop_last() == before.take(i as int));
                assert(before.take(i as int + 1).last() == k);
            }
            if k.life > KEYPRESS_DECAY {
                let d = VisualKeypress {
                    keycode: k.keycode,
                    life: k.life - KEYPRESS_DECAY,
                    alive: true,
                    side: k.side,
                    rand0: k.rand0,
                    rand1: k.rand1,
                };
                list_push(&mut fresh, d);
            }
            i = i + 1;
        }
        proof {
            assert(before.take(n as int) == before);
            crate::keypress::lemma_decayed_lowers_life(before, self.visual_keypress_life, self.visual_keypress_life as int);
        }
        self.visual_keypresses = fresh;
    }

    /// What one tick does to the state and which rendering path it selects.
    /// Asleep, nothing happens and nothing is drawn. Awake, keypresses decay
    /// and the timer advances by `elapsed`, wrapping; the active mode is drawn
    /// if animation is enabled.
    pub open spec fn tick_post(pre: Self, post: Self, elapsed: u32, r: Option<RenderMode>) -> bool {
        if pre.sleeping is Sleeping {
            post == pre && r is None
        } else {
            &&& post.same_but_keypresses_and_timer(pre)
            &&& post.keypresses() == decayed(pre.keypresses())
            &&& post.timer == pre.timer.wrapping_add(elapsed)
            &&& r == (if pre.animate { Some(pre.mode()) } else { None::<RenderMode> })
        }
    }

    /// Advances one animation tick; the returned mode, if any, is the one
    /// whose frame is to be composed and handed to `publish`.
    pub fn tick(&mut self, elapsed: u32) -> (r: Option<RenderMode>)
        requires
            old(self).wf(),
        ensures
            final(self).wf(),
            Self::tick_post(*old(self), *final(self), elapsed, r),
    {
        if let SleepState::Sleeping(_) = self.sleeping {
            return None;
        }
        self.decay_keypresses();
        self.timer = self.timer.wrapping_add(elapsed);
        if !self.animate {
            return None;
        }
        match self.game {
            Some(g) => Some(RenderMode::Game(g)),
            None => match self.addon_animation {
                Some(a) => Some(RenderMode::Addon(a)),
                None => Some(RenderMode::Static),
            },
        }
    }

    /// Makes a composed frame the displayed one: it is written into the
    /// compose buffer and the buffer is then shown as a whole.
    pub fn publish(&mut self, frame: Grid)
        requires
            old(self).wf(),
        ensures
            final(self).wf(),
            final(self).grid == frame,
            final(self).col_buffer == frame,
            final(self).same_settings(*old(self)),
            final(self).keypresses() == old(self).keypresses(),
            final(self).timer == old(self).timer,
            final(self).brightness == old(self).brightness,
            final(self).sleeping == old(self).sleeping,
            final(self).mode() == old(self).mode(),
            final(self).addon_animation == old(self).addon_animation,
            final(self).game == old(self).game,
    {
        self.col_buffer = frame;
        self.grid = self.col_buffer;
    }

    /// The sleep transition. Going to sleep while awake saves the frame and
    /// brightness and darkens the panel; waking while asleep restores them.
    /// Asking for the current state changes nothing. Debug mode only decides
    /// whether the outside driver fades, so both paths are the same here.
    pub open spec fn sleep_post(pre: Self, post: Self, sleeping: bool) -> bool {
        &&& post.same_settings(pre)
        &&& post.keypresses() == pre.keypresses()
        &&& post.timer == pre.timer
        &&& post.addon_animation == pre.addon_animation
        &&& post.game == pre.game
        &&& post.col_buffer == pre.col_buffer
        &&& match (sleeping, pre.sleeping) {
            (true, SleepState::Awake) => {
                &&& post.sleeping == SleepState::Sleeping((pre.grid, pre.brightness))
                &&& post.grid == pre.grid
                &&& post.brightness == 0
            },
            (false, SleepState::Sleeping((g, b))) => {
                &&& post.sleeping is Awake
                &&& post.grid == g
                &&& post.brightness == b
            },
            _ => {
                &&& post.sleeping == pre.sleeping
                &&& post.grid == pre.grid
                &&& post.brightness == pre.brightness
            },
        }
    }

    pub fn set_sleeping(&mut self, sleeping: bool)
        requires
            old(self).wf(),
        ensures
            final(self).wf(),
            Self::sleep_post(*old(self), *final(self), sleeping),
    {
        match self.sleeping {
            SleepState::Awake => {
                if sleeping {
                    self.sleeping = SleepState::Sleeping((self.grid, self.brightness));
                    self.brightness = 0;
                }
            },
            SleepState::Sleeping((g, b)) => {
                if !sleeping {
                    self.grid = g;
                    self.brightness = b;
                    self.sleeping = SleepState::Awake;
                }
            },
        }
    }

    /// Goes to sleep for `reason`, except that an idle timeout is ignored in
    /// debug mode. Returns whether the sleep transition was taken.
    pub fn sleep_for(&mut self, reason: SleepReason) -> (r: bool)
        requires
            old(self).wf(),
        ensures
            final(self).wf(),
            r <==> !(reason == SleepReason::Timeout && old(self).debug_mode),
            r ==> Self::sleep_post(*old(self), *final(self), true),
            !r ==> *final(self) == *old(self),
    {
        if reason == SleepReason::Timeout && self.debug_mode {
            return false;
        }
        self.set_sleeping(true);
        true
    }

    /// Turns debug mode on or off; nothing else changes.
    pub fn set_debug_mode(&mut self, on: bool)
        requires
            old(self).wf(),
        ensures
            final(self).wf(),
            final(self).debug_mode == on,
            final(self).visual_keypress_life == old(self).visual_keypress_life,
            final(self).side == old(self).side,
            final(self).animate == old(self).animate,
            final(self).animation_period == old(self).animation_period,
            final(self).pwm_freq == old(self).pwm_freq,
            final(self).addon_animation == old(self).addon_animation,
            final(self).game == old(self).game,
            final(self).timer == old(self).timer,
            final(self).col_buffer == old(self).col_buffer,
            final(self).mode() == old(self).mode(),
            final(self).sleeping == old(self).sleeping,
            final(self).grid == old(self).grid,
            final(self).brightness == old(self).brightness,
            final(self).keypresses() == old(self).keypresses(),
    {
        self.debug_mode = on;
    }

    /// Starting an addon animation stops any game, whose state is dropped;
    /// `None` stops the addon animation and leaves a game as it is.
    pub open spec fn set_addon_post(pre: Self, post: Self, a: Option<AddonAnimation>) -> bool {
        &&& post.same_but_keypresses_and_timer_and_mode(pre)
        &&& post.addon_animation == a
        &&& post.game == (if a is Some { None::<GameState> } else { pre.game })
    }

    /// Starting a game stops any addon animation; `None` stops the game and
    /// leaves an addon animation as it is.
    pub open spec fn set_game_post(pre: Self, post: Self, g: Option<GameState>) -> bool {
        &&& post.same_but_keypresses_and_timer_and_mode(pre)
        &&& post.game == g
        &&& post.addon_animation == (if g is Some { None::<AddonAnimation> } else { pre.addon_animation })
    }

    /// Every field but the two mode fields agrees.
    pub open spec fn same_but_keypresses_and_timer_and_mode(self, other: Self) -> bool {
        &&& self.same_settings(other)
        &&& self.keypresses() == other.keypresses()
        &&& self.timer == other.timer
        &&& self.grid == other.grid
        &&& self.col_buffer == other.col_buffer
        &&& self.brightness == other.brightness
        &&& self.sleeping == other.sleeping
    }

    pub fn set_addon_animation(&mut self, a: Option<AddonAnimation>)
        requires
            old(self).wf(),
        ensures
            final(self).wf(),
            Self::set_addon_post(*old(self), *final(self), a),
    {
        if a.is_some() {
            self.game = None;
        }
        self.addon_animation = a;
    }

    pub fn set_game(&mut self, g: Option<GameState>)
        requires
            old(self).wf(),
        ensures
            final(self).wf(),
            Self::set_game_post(*old(self), *final(self), g),
    {
        if g.is_some() {
            self.addon_animation = None;
        }
        self.game = g;
    }

    /// Shows a static pattern: any addon animation and game stop.
    pub fn set_pattern(&mut self, frame: Grid)
        requires
            old(self).wf(),
        ensures
            final(self).wf(),
            final(self).mode() == RenderMode::Static,
            final(self).grid == frame,
            final(self).same_settings(*old(self)),
            final(self).keypresses() == old(self).keypresses(),
            final(self).timer == old(self).timer,
            final(self).brightness == old(self).brightness,
            final(self).sleeping == old(self).sleeping,
            final(self).col_buffer == old(self).col_buffer,
    {
        self.addon_animation = None;
        self.game = None;
        self.grid = frame;
    }
}

/// Going to sleep and waking again restores the frame and brightness shown
/// just before sleeping.
pub proof fn lemma_sleep_round_trip(s0: LedmatrixState, s1: LedmatrixState, s2: LedmatrixState)
    requires
        s0.sleeping is Awake,
        LedmatrixState::sleep_post(s0, s1, true),
        LedmatrixState::sleep_post(s1, s2, false),
    ensures
        s2.grid == s0.grid,
        s2.brightness == s0.brightness,
        s2.sleeping is Awake,
{
}

/// Once a game is started, a tick never draws an addon animation: it draws
/// the game, or nothing.
pub proof fn lemma_game_excludes_addon(
    s0: LedmatrixState,
    s1: LedmatrixState,
    g: GameState,
    s2: LedmatrixState,
    elapsed: u32,
    r: Option<RenderMode>,
)
    requires
        LedmatrixState::set_game_post(s0, s1, Some(g)),
        LedmatrixState::tick_post(s1, s2, elapsed, r),
    ensures
        s1.addon_animation is None,
        r is None || r == Some(RenderMode::Game(g)),
{
}

/// Starting an addon animation discards the game state, and ticks then draw
/// that animation or nothing.
pub proof fn lemma_addon_discards_game(
    s0: LedmatrixState,
    s1: LedmatrixState,
    a: AddonAnimation,
    s2: LedmatrixState,
    elapsed: u32,
    r: Option<RenderMode>,
)
    requires
        LedmatrixState::set_addon_post(s0, s1, Some(a)),
        LedmatrixState::tick_post(s1, s2, elapsed, r),
    ensures
        s1.game is None,
        r is None || r == Some(RenderMode::Addon(a)),
{
}

/// Every keypress of a well-formed state is gone after as many ticks as a
/// new keypress has life.
pub proof fn lemma_state_keypresses_expire(s: LedmatrixState)
    requires
        s.wf(),
    ensures
        crate::keypress::decayed_n(s.keypresses(), s.visual_keypress_life as nat).len() == 0,
{
    assert forall|i: int| 0 <= i < s.keypresses().len() implies #[trigger] s.keypresses()[i].life <= s.visual_keypress_life as nat by {
        assert(keypress_wf(s.keypresses()[i], s.visual_keypress_life));
    }
    crate::keypress::lemma_keypresses_expire(s.keypresses(), s.visual_keypress_life, s.visual_keypress_life as nat);
}

} // verus!
