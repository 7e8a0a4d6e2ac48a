use vstd::prelude::*;

use crate::matrix::Side;

verus! {

/// Most keypress events held at once.
pub const KEYPRESS_CAPACITY: usize = 64;

/// One recent key event feeding the reactive splash pattern.
#[derive(Clone, Copy, PartialEq, Eq, Structural, Debug)]
pub struct VisualKeypress {
    pub keycode: u32,
    /// Remaining life; the event is dropped when it reaches zero.
    pub life: u8,
    pub alive: bool,
    pub side: Side,
    /// Random offset fraction, numerator over `RAND_SCALE`.
    pub rand0: u32,
    /// Second random offset fraction, numerator over `RAND_SCALE`.
    pub rand1: u32,
}

#[verifier::external_type_specification]
#[verifier::external_body]
#[verifier::reject_recursive_types(T)]
pub struct ExHeaplessVec<T, const N: usize>(heapless::Vec<T, N>);

/// The events a fixed-capacity list holds, oldest first.
pub uninterp spec fn keypresses_held(v: heapless::Vec<VisualKeypress, 64>) -> Seq<VisualKeypress>;

/// Relies on heapless::Vec::new: a new vector is empty.
#[verifier::external_body]
pub(crate) fn list_new() -> (r: heapless::Vec<VisualKeypress, 64>)
    ensures
        keypresses_held(r) == Seq::<VisualKeypress>::empty(),
{
    heapless::Vec::new()
}

/// Relies on heapless::Vec::push: appends when below capacity `N`, and
/// otherwise hands the item back and leaves the vector as it was.
#[verifier::external_body]
pub(crate) fn list_push(v: &mut heapless::Vec<VisualKeypress, 64>, k: VisualKeypress) -> (r: bool)
    ensures
        keypresses_held(*old(v)).len() < 64 ==> r && keypresses_held(*final(v)) == keypresses_held(*old(v)).push(k),
        keypresses_held(*old(v)).len() >= 64 ==> !r && keypresses_held(*final(v)) == keypresses_held(*old(v)),
{
    v.push(k).is_ok()
}

/// Relies on heapless::Vec::as_slice: the slice holds the elements in order.
#[verifier::external_body]
pub(crate) fn list_slice(v: &heapless::Vec<VisualKeypress, 64>) -> (r: &[VisualKeypress])
    ensures
        r@ == keypresses_held(*v),
{
    v.as_slice()
}

/// Life lost by every event on each tick.
pub const KEYPRESS_DECAY: u8 = 1;

/// A well-formed event: alive, with life in `1..=max_life` and both random
/// fractions below one.
pub open spec fn keypress_wf(k: VisualKeypress, max_life: u8) -> bool {
    &&& 0 < k.life <= max_life
    &&& k.alive
    &&& k.rand0 < crate::addon::RAND_SCALE
    &&& k.rand1 < crate::addon::RAND_SCALE
}

/// One tick of decay applied to a single event.
pub open spec fn decay_one(k: VisualKeypress) -> VisualKeypress {
    VisualKeypress {
        keycode: k.keycode,
        life: (k.life - KEYPRESS_DECAY) as u8,
        alive: true,
        side: k.side,
        rand0: k.rand0,
        rand1: k.rand1,
    }
}

/// The list after one tick: every event loses `KEYPRESS_DECAY` life, those
/// that reach zero are removed, and the order of the others is kept.
pub open spec fn decayed(s: Seq<VisualKeypress>) -> Seq<VisualKeypress>
    decreases s.len(),
{
    if s.len() == 0 {
        Seq::<VisualKeypress>::empty()
    } else {
        let rest = decayed(s.drop_last());
        if s.last().life > KEYPRESS_DECAY {
            rest.push(decay_one(s.last()))
        } else {
            rest
        }
    }
}

/// The list after `n` ticks.
pub open spec fn decayed_n(s: Seq<VisualKeypress>, n: nat) -> Seq<VisualKeypress>
    decreases n,
{
    if n == 0 {
        s
    } else {
        decayed_n(decayed(s), (n - 1) as nat)
    }
}

/// After one tick every remaining event has lost one life and is still
/// well formed; none is added.
pub proof fn lemma_decayed_lowers_life(s: Seq<VisualKeypress>, max_life: u8, bound: int)
    requires
        forall|i: int| 0 <= i < s.len() ==> keypress_wf(#[trigger] s[i], max_life),
        forall|i: int| 0 <= i < s.len() ==> #[trigger] s[i].life <= bound,
    ensures
        decayed(s).len() <= s.len(),
        forall|i: int| 0 <= i < decayed(s).len() ==> keypress_wf(#[trigger] decayed(s)[i], max_life),
        forall|i: int| 0 <= i < decayed(s).len() ==> #[trigger] decayed(s)[i].life <= bound - 1,
    decreases s.len(),
{
    if s.len() > 0 {
        let t = s.drop_last();
        assert forall|i: int| 0 <= i < t.len() implies keypress_wf(#[trigger] t[i], max_life) by {
            assert(t[i] == s[i]);
        }
        assert forall|i: int| 0 <= i < t.len() implies #[trigger] t[i].life <= bound by {
            assert(t[i] == s[i]);
        }
        lemma_decayed_lowers_life(t, max_life, bound);
        assert(s.last() == s[s.len() - 1]);
    }
}

/// Events whose life is at most `n` are all gone after `n` ticks.
pub proof fn lemma_keypresses_expire(s: Seq<VisualKeypress>, max_life: u8, n: nat)
    requires
        forall|i: int| 0 <= i < s.len() ==> keypress_wf(#[trigger] s[i], max_life),
        forall|i: int| 0 <= i < s.len() ==> #[trigger] s[i].life <= n,
    ensures
        decayed_n(s, n).len() == 0,
    decreases n,
{
    if n == 0 {
        if s.len() > 0 {
            assert(keypress_wf(s[0], max_life));
        }
    } else {
        lemma_decayed_lowers_life(s, max_life, n as int);
        lemma_keypresses_expire(decayed(s), max_life, (n - 1) as nat);
    }
}

} // verus!
