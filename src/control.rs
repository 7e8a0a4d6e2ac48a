use vstd::prelude::*;
use vstd::string::StringSliceAdditionalSpecFns;

verus! {

/// A static pattern the host can ask for.
#[derive(Clone, Copy, Debug, PartialEq, Eq, Structural)]
pub enum Pattern {
    Percentage,
    Gradient,
    DoubleGradient,
    LotusSideways,
    Zigzag,
    AllOn,
    Panic,
    LotusTopDown,
}

impl Pattern {
    /// The wire value: the position in declaration order.
    pub fn as_u8(&self) -> (r: u8)
        ensures
            r == match *self {
                Pattern::Percentage => 0u8,
                Pattern::Gradient => 1,
                Pattern::DoubleGradient => 2,
                Pattern::LotusSideways => 3,
                Pattern::Zigzag => 4,
                Pattern::AllOn => 5,
                Pattern::Panic => 6,
                Pattern::LotusTopDown => 7,
            },
    {
        match self {
            Pattern::Percentage => 0,
            Pattern::Gradient => 1,
            Pattern::DoubleGradient => 2,
            Pattern::LotusSideways => 3,
            Pattern::Zigzag => 4,
            Pattern::AllOn => 5,
            Pattern::Panic => 6,
            Pattern::LotusTopDown => 7,
        }
    }
}

/// A game the host can start.
#[derive(Clone, Copy, Debug, PartialEq, Eq, Structural)]
pub enum Game {
    Snake,
    Pong,
    Tetris,
    GameOfLife,
}

impl Game {
    /// The wire value: the position in declaration order.
    pub fn as_u8(&self) -> (r: u8)
        ensures
            r == match *self {
                Game::Snake => 0u8,
                Game::Pong => 1,
                Game::Tetris => 2,
                Game::GameOfLife => 3,
            },
    {
        match self {
            Game::Snake => 0,
            Game::Pong => 1,
            Game::Tetris => 2,
            Game::GameOfLife => 3,
        }
    }
}

/// An addon animation the host can start.
#[derive(Clone, Copy, Debug, PartialEq, Eq, Structural)]
pub enum AddonAnimation {
    Spiral,
    Splashes,
}

impl AddonAnimation {
    /// The wire value: the position in declaration order.
    pub fn as_u8(&self) -> (r: u8)
        ensures
            r == match *self {
                AddonAnimation::Spiral => 0u8,
                AddonAnimation::Splashes => 1,
            },
    {
        match self {
            AddonAnimation::Spiral => 0,
            AddonAnimation::Splashes => 1,
        }
    }
}

/// The starting board of a Game of Life.
#[derive(Clone, Copy, Debug, PartialEq, Eq, Structural)]
pub enum GameOfLifeStartParam {
    CurrentMatrix,
    Pattern1,
    Blinker,
    Toad,
    Beacon,
    Glider,
    BeaconToadBlinker,
}

impl GameOfLifeStartParam {
    /// The wire value: the position in declaration order.
    pub fn as_u8(&self) -> (r: u8)
        ensures
            r == match *self {
                GameOfLifeStartParam::CurrentMatrix => 0u8,
                GameOfLifeStartParam::Pattern1 => 1,
                GameOfLifeStartParam::Blinker => 2,
                GameOfLifeStartParam::Toad => 3,
                GameOfLifeStartParam::Beacon => 4,
                GameOfLifeStartParam::Glider => 5,
                GameOfLifeStartParam::BeaconToadBlinker => 6,
            },
    {
        match self {
            GameOfLifeStartParam::CurrentMatrix => 0,
            GameOfLifeStartParam::Pattern1 => 1,
            GameOfLifeStartParam::Blinker => 2,
            GameOfLifeStartParam::Toad => 3,
            GameOfLifeStartParam::Beacon => 4,
            GameOfLifeStartParam::Glider => 5,
            GameOfLifeStartParam::BeaconToadBlinker => 6,
        }
    }
}

/// The half of a split keyboard, as the host names it.
#[derive(Clone, Copy, Debug, PartialEq, Eq, Structural)]
pub enum Side {
    Left,
    Right,
}


/// A key event to send: `keycode,pressed`, as in `30,true`.
#[derive(Clone, Copy, Debug, PartialEq, Eq, Structural)]
pub struct KeypressArg {
    pub keycode: u16,
    pub pressed: bool,
}

/// Why a `keycode,pressed` text was refused.
#[derive(Clone, Copy, Debug, PartialEq, Eq, Structural)]
pub enum KeypressArgError {
    MissingKey,
    BadKey,
    MissingBool,
    BadBool,
}

/// The message text of each error.
pub open spec fn error_text(e: KeypressArgError) -> Seq<char> {
    match e {
        KeypressArgError::MissingKey => "missing key"@,
        KeypressArgError::BadKey => "bad key"@,
        KeypressArgError::MissingBool => "missing bool"@,
        KeypressArgError::BadBool => "bad bool"@,
    }
}

impl KeypressArgError {
    /// The message shown for this error.
    pub fn message(&self) -> (r: &'static str)
        ensures
            r@ == error_text(*self),
    {
        match self {
            KeypressArgError::MissingKey => "missing key",
            KeypressArgError::BadKey => "bad key",
            KeypressArgError::MissingBool => "missing bool",
            KeypressArgError::BadBool => "bad bool",
        }
    }
}

pub open spec fn is_digit(c: u8) -> bool {
    48 <= c <= 57
}

/// The number a run of decimal digits spells.
pub open spec fn digits_value(t: Seq<u8>) -> int
    decreases t.len(),
{
    if t.len() == 0 {
        0
    } else {
        digits_value(t.drop_last()) * 10 + (t.last() - 48)
    }
}

/// The text of an unsigned number without its optional leading `+`.
pub open spec fn unsigned_digits(t: Seq<u8>) -> Seq<u8> {
    if t.len() > 0 && t[0] == 43 {
        t.drop_first()
    } else {
        t
    }
}

/// Whether `t` is a `u16` in decimal: an optional `+`, then one or more
/// digits whose value is at most 65535.
pub open spec fn is_u16_text(t: Seq<u8>) -> bool {
    let d = unsigned_digits(t);
    &&& d.len() > 0
    &&& forall|i: int| 0 <= i < d.len() ==> is_digit(#[trigger] d[i])
    &&& digits_value(d) <= 65535
}

/// `Some(true)` for `true`, `Some(false)` for `false`, else `None`.
pub open spec fn bool_text(t: Seq<u8>) -> Option<bool> {
    if t == seq![116u8, 114, 117, 101] {
        Some(true)
    } else if t == seq![102u8, 97, 108, 115, 101] {
        Some(false)
    } else {
        None
    }
}

/// Where the comma-separated field starting at `start` ends: at the next
/// comma, or at the end of the text.
pub open spec fn field_end(b: Seq<u8>, start: int) -> int
    decreases b.len() - start,
{
    if start < 0 || start >= b.len() || b[start] == 44 {
        start
    } else {
        field_end(b, start + 1)
    }
}

/// What `KeypressArg::parse` yields on the bytes `b`: the first field must be
/// a `u16`, a second field must follow, and it must be a `bool`; anything
/// after a second comma is ignored.
pub open spec fn keypress_arg_spec(b: Seq<u8>) -> Result<KeypressArg, KeypressArgError> {
    let e1 = field_end(b, 0);
    let key = b.subrange(0, e1);
    if !is_u16_text(key) {
        Err(KeypressArgError::BadKey)
    } else if e1 >= b.len() {
        Err(KeypressArgError::MissingBool)
    } else {
        let e2 = field_end(b, e1 + 1);
        match bool_text(b.subrange(e1 + 1, e2)) {
            Some(p) => Ok(KeypressArg { keycode: digits_value(unsigned_digits(key)) as u16, pressed: p }),
            None => Err(KeypressArgError::BadBool),
        }
    }
}

proof fn lemma_field_end_bounds(b: Seq<u8>, start: int)
    requires
        0 <= start <= b.len(),
    ensures
        start <= field_end(b, start) <= b.len(),
        field_end(b, start) < b.len() ==> b[field_end(b, start)] == 44,
    decreases b.len() - start,
{
    if start < b.len() && b[start] != 44 {
        lemma_field_end_bounds(b, start + 1);
    }
}

fn find_field_end(b: &[u8], start: usize) -> (r: usize)
    requires
        start <= b@.len(),
    ensures
        r as int == field_end(b@, start as int),
        start <= r <= b@.len(),
{
    let mut i: usize = start;
    while i < b.len() && b[i] != 44
        invariant
            start <= i <= b@.len(),
            field_end(b@, i as int) == field_end(b@, start as int),
        decreases b@.len() - i,
    {
        i = i + 1;
    }
    i
}

fn parse_u16(b: &[u8], lo: usize, hi: usize) -> (r: Option<u16>)
    requires
        lo <= hi <= b@.len(),
    ensures
        r is Some <==> is_u16_text(b@.subrange(lo as int, hi as int)),
        r is Some ==> r->0 as int == digits_value(unsigned_digits(b@.subrange(lo as int, hi as int))),
{
    let ghost t = b@.subrange(lo as int, hi as int);
    let mut start: usize = lo;
    if lo < hi && b[lo] == 43 {
        start = lo + 1;
    }
    let ghost d = b@.subrange(start as int, hi as int);
    assert(unsigned_digits(t) =~= d);
    if start == hi {
        return None;
    }
    let mut acc: u32 = 0;
    let mut i: usize = start;
    while i < hi
        invariant
            start <= i <= hi <= b@.len(),
            d == b@.subrange(start as int, hi as int),
            unsigned_digits(b@.subrange(lo as int, hi as int)) == d,
            forall|j: int| start <= j < i ==> is_digit(#[trigger] b@[j]),
            acc as int == if digits_value(b@.subrange(start as int, i as int)) >= 65536 {
                65536
            } else {
                digits_value(b@.subrange(start as int, i as int))
            },
            digits_value(b@.subrange(start as int, i as int)) >= 0,
        decreases hi - i,
    {
        let c = b[i];
        if c < 48 || c > 57 {
            assert(d[i - start] == c);
            assert(!is_digit(d[i - start]));
            return None;
        }
        let ghost prev = b@.subrange(start as int, i as int);
        let ghost next = b@.subrange(start as int, i as int + 1);
        assert(next.drop_last() =~= prev);
        assert(next.last() == c);
        if acc < 65536 {
            acc = acc * 10 + (c - 48) as u32;
            if acc > 65536 {
                acc = 65536;
            }
        }
        i = i + 1;
    }
    assert(b@.subrange(start as int, hi as int) == d);
    assert forall|j: int| 0 <= j < d.len() implies is_digit(#[trigger] d[j]) by {
        assert(d[j] == b@[start + j]);
    }
    if acc > 65535 {
        None
    } else {
        Some(acc as u16)
    }
}

fn parse_bool(b: &[u8], lo: usize, hi: usize) -> (r: Option<bool>)
    requires
        lo <= hi <= b@.len(),
    ensures
        r == bool_text(b@.subrange(lo as int, hi as int)),
{
    let ghost t = b@.subrange(lo as int, hi as int);
    if hi - lo == 4 && b[lo] == 116 && b[lo + 1] == 114 && b[lo + 2] == 117 && b[lo + 3] == 101 {
        assert(t =~= seq![116u8, 114, 117, 101]);
        return Some(true);
    }
    if hi - lo == 5 && b[lo] == 102 && b[lo + 1] == 97 && b[lo + 2] == 108 && b[lo + 3] == 115 && b[lo + 4] == 101 {
        assert(t =~= seq![102u8, 97, 108, 115, 101]);
        return Some(false);
    }
    proof {
        if t == seq![116u8, 114, 117, 101] {
            assert(t.len() == 4);
            assert(t[0] == b@[lo as int] && t[1] == b@[lo + 1] && t[2] == b@[lo + 2] && t[3] == b@[lo + 3]);
            assert(t[0] == 116 && t[1] == 114 && t[2] == 117 && t[3] == 101);
        }
        if t == seq![102u8, 97, 108, 115, 101] {
            assert(t.len() == 5);
            assert(t[0] == b@[lo as int] && t[1] == b@[lo + 1] && t[2] == b@[lo + 2] && t[3] == b@[lo + 3]
                && t[4] == b@[lo + 4]);
            assert(t[0] == 102 && t[1] == 97 && t[2] == 108 && t[3] == 115 && t[4] == 101);
        }
    }
    None
}

impl KeypressArg {
    /// Reads `keycode,pressed`.
    pub fn parse(s: &str) -> (r: Result<KeypressArg, KeypressArgError>)
        ensures
            r == keypress_arg_spec(s.spec_bytes()),
    {
        let b = s.as_bytes();
        let e1 = find_field_end(b, 0);
        proof {
            lemma_field_end_bounds(b@, 0);
        }
        let key = parse_u16(b, 0, e1);
        match key {
            None => Err(KeypressArgError::BadKey),
            Some(keycode) => {
                if e1 >= b.len() {
                    Err(KeypressArgError::MissingBool)
                } else {
                    let e2 = find_field_end(b, e1 + 1);
                    match parse_bool(b, e1 + 1, e2) {
                        Some(pressed) => Ok(KeypressArg { keycode, pressed }),
                        None => Err(KeypressArgError::BadBool),
                    }
                }
            },
        }
    }
}

/// The options a host can send to the LED matrix.
pub struct LedMatrixSubcommand {
    /// Sends keypresses to the matrix, by keycode.
    pub keypress: Option<KeypressArg>,
    /// Sets the current addon animation.
    pub set_addon_animation: Option<AddonAnimation>,
    pub stop_addon_animation: bool,
    pub set_side: Option<Side>,
    /// Set LED max brightness percentage or get, if no value provided
    pub brightness: Option<Option<u8>>,
    /// Set sleep status or get, if no value provided
    pub sleeping: Option<Option<bool>>,
    /// Jump to the bootloader
    pub bootloader: bool,
    /// Display a percentage (0-100)
    pub percentage: Option<u8>,
    /// Start/stop animation
    pub animate: Option<Option<bool>>,
    /// Display a pattern
    pub pattern: Option<Pattern>,
    /// Show every brightness, one per pixel
    pub all_brightnesses: bool,
    /// Blink the current pattern once a second
    pub blinking: bool,
    /// Breathing brightness of the current pattern
    pub breathing: bool,
    /// Display black&white image (9x34px)
    pub image_bw: Option<String>,
    /// Display grayscale image
    pub image_gray: Option<String>,
    /// Random EQ
    pub random_eq: bool,
    /// EQ with custom values
    pub eq: Option<Vec<u8>>,
    /// Clock
    pub clock: bool,
    /// Display a string (max 5 chars)
    pub string: Option<String>,
    /// Display a string (max 5 symbols)
    pub symbols: Option<Vec<String>>,
    /// Start a game
    pub start_game: Option<Game>,
    /// Parameter for starting the game. Required for some games
    pub game_param: Option<GameOfLifeStartParam>,
    /// Stop the currently running game
    pub stop_game: bool,
    /// Set/get animation FPS
    pub animation_fps: Option<Option<u16>>,
    /// Set/get PWM Frequency in Hz
    pub pwm_freq: Option<Option<u16>>,
    /// Set debug mode or get current mode, if no value provided
    pub debug_mode: Option<Option<bool>>,
    /// Crash the firmware (testing only)
    pub panic: bool,
    /// Get the device version
    pub version: bool,
}

impl std::str::FromStr for KeypressArg {
    type Err = String;

    /// Reads `keycode,pressed` as `KeypressArg::parse` does; an error comes
    /// back as its message text.
    fn from_str(s: &str) -> (r: Result<Self, Self::Err>)
        ensures
            match keypress_arg_spec(s.spec_bytes()) {
                Ok(k) => r == Ok::<KeypressArg, String>(k),
                Err(e) => match r {
                    Ok(_) => false,
                    Err(m) => m@ == error_text(e),
                },
            },
    {
        match KeypressArg::parse(s) {
            Ok(k) => Ok(k),
            Err(e) => Err(e.message().to_owned()),
        }
    }
}

} // verus!
