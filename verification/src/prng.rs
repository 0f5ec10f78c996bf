//! The Middle Square Weyl Sequence generator.
//!
//! A generator squares its middle-square word, adds a Weyl sequence to it and
//! swaps the halves of the sum. The Weyl sequence advances by an odd
//! increment, which is what keeps the middle square out of short cycles.
use vstd::prelude::*;
use vstd::arithmetic::div_mod::{
    lemma_add_mod_noop, lemma_fundamental_div_mod, lemma_mod_equivalence,
    lemma_mod_multiples_basic,
};
use vstd::arithmetic::power2::{
    lemma2_to64, lemma2_to64_rest, lemma_pow2_pos, lemma_pow2_unfold, pow2,
};

verus! {

/// The odd constant that every increment is built on.
pub const WEYL_CONST: u64 = 0xb5ad4eceda1ce2a9;

/// The generator used where no other is asked for.
pub type RNG = MSWS;

/// The three words of a generator: the middle-square word `x`, the Weyl
/// sequence `w` and its increment `s`.
pub ghost struct State {
    pub x: u64,
    pub w: u64,
    pub s: u64,
}

/// The Weyl increment that a seed stands for.
pub open spec fn increment(seed: u64) -> u64 {
    (seed << 1).wrapping_add(WEYL_CONST)
}

/// The 64-bit value made of two successive 32-bit outputs, the first in the
/// low half.
pub open spec fn join(first: u32, second: u32) -> u64 {
    (first as u64) | ((second as u64) << 32)
}

impl State {
    /// The increment is odd. Every generator is in such a state.
    pub open spec fn wf(self) -> bool {
        self.s % 2 == 1
    }

    /// The state one step later.
    pub open spec fn tick(self) -> State {
        let w = self.w.wrapping_add(self.s);
        let x = self.x.wrapping_mul(self.x).wrapping_add(w);
        State { x: (x >> 32) | (x << 32), w, s: self.s }
    }

    /// The state `n` steps later.
    pub open spec fn ticks(self, n: nat) -> State
        decreases n,
    {
        if n == 0 {
            self
        } else {
            self.ticks((n - 1) as nat).tick()
        }
    }

    /// The 32-bit value that a state shows: the low half of `x`.
    pub open spec fn output(self) -> u32 {
        self.x as u32
    }

    /// The state of a generator fresh from `seed`, which has already made
    /// one step.
    pub open spec fn seeded(seed: u64) -> State {
        State { x: 0, w: 0, s: increment(seed) }.tick()
    }

    /// The first `n` 32-bit values that a generator in this state will give.
    pub open spec fn stream(self, n: nat) -> Seq<u32> {
        Seq::new(n, |i: int| self.ticks((i + 1) as nat).output())
    }
}

/// A Middle Square Weyl Sequence generator.
pub struct MSWS {
    x: u64,
    w: u64,
    s: u64,
}

impl View for MSWS {
    type V = State;

    closed spec fn view(&self) -> State {
        State { x: self.x, w: self.w, s: self.s }
    }
}

impl MSWS {
    /// Every generator has an odd increment.
    #[verifier::type_invariant]
    spec fn odd_increment(self) -> bool {
        self.s % 2 == 1
    }

    /// A generator for `seed`. It has made its first step already, so that
    /// no generator is ever seen in the all-zero state.
    pub fn new(seed: u64) -> (ret: MSWS)
        ensures
            ret@ == State::seeded(seed),
            ret@.wf(),
    {
        proof {
            lemma_increment_is_odd(seed);
        }
        let mut ret = MSWS { x: 0, w: 0, s: (seed << 1).wrapping_add(WEYL_CONST) };
        ret.tick();
        ret
    }

    /// Advances the generator by one step.
    #[inline(always)]
    fn tick(&mut self)
        ensures
            final(self)@ == old(self)@.tick(),
            final(self)@.wf(),
    {
        proof {
            use_type_invariant(&*self);
        }
        self.w = self.w.wrapping_add(self.s);
        self.x = self.x.wrapping_mul(self.x).wrapping_add(self.w);
        self.x = (self.x >> 32) | (self.x << 32);
    }

    /// Advances by one step and gives the low half of the middle-square
    /// word.
    pub fn get_u32(&mut self) -> (r: u32)
        ensures
            final(self)@ == old(self)@.tick(),
            final(self)@.s == old(self)@.s,
            final(self)@.wf(),
            r == final(self)@.output(),
    {
        self.tick();
        self.x as u32
    }

    /// Draws two 32-bit values and joins them, the first in the low half.
    pub fn get_u64(&mut self) -> (r: u64)
        ensures
            final(self)@ == old(self)@.tick().tick(),
            final(self)@.s == old(self)@.s,
            final(self)@.wf(),
            r == join(old(self)@.tick().output(), old(self)@.tick().tick().output()),
    {
        let first = self.get_u32();
        let second = self.get_u32();
        (first as u64) | ((second as u64) << 32)
    }

    /// A new generator, seeded with one 64-bit draw from this one. The two
    /// share nothing afterwards.
    pub fn new_seeded(&mut self) -> (child: MSWS)
        ensures
            final(self)@ == old(self)@.tick().tick(),
            final(self)@.s == old(self)@.s,
            final(self)@.wf(),
            child@ == State::seeded(
                join(old(self)@.tick().output(), old(self)@.tick().tick().output()),
            ),
            child@.wf(),
    {
        MSWS::new(self.get_u64())
    }
}

impl Default for MSWS {
    /// The generator for seed zero.
    fn default() -> (ret: MSWS)
        ensures
            ret@ == State::seeded(0),
            ret@.wf(),
    {
        MSWS::new(0)
    }
}

/// Whatever the seed, the increment derived from it is odd.
pub proof fn lemma_increment_is_odd(seed: u64)
    ensures
        increment(seed) % 2 == 1,
        State::seeded(seed).wf(),
{
    let d = seed << 1;
    assert(d % 2 == 0) by (bit_vector)
        requires
            d == seed << 1,
    ;
}

/// The increment never changes, so a state with an odd increment keeps one.
pub proof fn lemma_ticks_keep_increment(st: State, n: nat)
    ensures
        st.ticks(n).s == st.s,
        st.wf() ==> st.ticks(n).wf(),
    decreases n,
{
    if n > 0 {
        lemma_ticks_keep_increment(st, (n - 1) as nat);
    }
}

/// Taking `n + 1` steps is taking one step and then `n`.
pub proof fn lemma_ticks_shift(st: State, n: nat)
    ensures
        st.ticks(n + 1) == st.tick().ticks(n),
    decreases n,
{
    if n > 0 {
        lemma_ticks_shift(st, (n - 1) as nat);
    } else {
        assert(st.ticks(1) == st.ticks(0).tick());
    }
}

/// The stream of a state begins with the value that the next draw gives and
/// goes on with the stream of the state that the draw leaves behind.
pub proof fn lemma_stream_unfolds(st: State, n: nat)
    ensures
        st.stream(n + 1) == seq![st.tick().output()] + st.tick().stream(n),
{
    let whole = st.stream(n + 1);
    let parts = seq![st.tick().output()] + st.tick().stream(n);
    assert(st.ticks(1) == st.ticks(0).tick());
    assert forall|i: int| 0 <= i < n + 1 implies whole[i] == parts[i] by {
        if i > 0 {
            lemma_ticks_shift(st, i as nat);
        }
    }
    assert(whole =~= parts);
}

/// Two generators made from the same seed give the same values, draw after
/// draw, and are in the same state after any number of draws.
pub proof fn lemma_same_seed_same_stream(seed_a: u64, seed_b: u64, n: nat)
    requires
        seed_a == seed_b,
    ensures
        State::seeded(seed_a).stream(n) == State::seeded(seed_b).stream(n),
        State::seeded(seed_a).ticks(n) == State::seeded(seed_b).ticks(n),
{
}

/// The number of values of a 64-bit word.
pub open spec fn word_range() -> int {
    0x1_0000_0000_0000_0000
}

/// After `n` steps the Weyl sequence has advanced by `n` increments, modulo
/// the range of a word.
pub proof fn lemma_weyl_closed_form(st: State, n: nat)
    ensures
        st.ticks(n).w == (st.w + n * st.s) % word_range(),
    decreases n,
{
    let r = word_range();
    if n == 0 {
        assert(0 * st.s == 0);
        assert(st.w as int % r == st.w);
    } else {
        let m = (n - 1) as nat;
        let a = st.w + m * st.s;
        let prev = st.ticks(m);
        lemma_weyl_closed_form(st, m);
        lemma_ticks_keep_increment(st, m);
        assert(st.ticks(n).w == prev.w.wrapping_add(st.s));
        assert(prev.w.wrapping_add(st.s) == (prev.w + st.s) % r);
        assert(st.s as int % r == st.s);
        lemma_add_mod_noop(a, st.s as int, r);
        assert(a + st.s == st.w + n * st.s) by (nonlinear_arith)
            requires
                a == st.w + m * st.s,
                m == n - 1,
        ;
    }
}

/// An odd factor cannot supply a power of two: if `2^k` divides `d * s` and
/// `s` is odd, then `2^k` divides `d`.
proof fn lemma_odd_factor_cancels(d: int, s: int, k: nat)
    requires
        0 <= d,
        0 <= s,
        s % 2 == 1,
        (d * s) % pow2(k) as int == 0,
    ensures
        d % pow2(k) as int == 0,
    decreases k,
{
    lemma_pow2_pos(k);
    if k == 0 {
        lemma2_to64();
    } else {
        let half = pow2((k - 1) as nat) as int;
        let full = pow2(k) as int;
        lemma_pow2_unfold(k);
        lemma_pow2_pos((k - 1) as nat);
        assert(full == 2 * half);
        let q = (d * s) / full;
        lemma_fundamental_div_mod(d * s, full);
        assert(d * s == 2 * (half * q)) by (nonlinear_arith)
            requires
                d * s == full * q + 0,
                full == 2 * half,
        ;
        let t = s / 2;
        let e = d / 2;
        assert(d % 2 == 0) by (nonlinear_arith)
            requires
                d * s == 2 * (half * q),
                s == 2 * t + 1,
        {
            assert(d * s == 2 * (d * t) + d);
        }
        assert(e * s == half * q) by (nonlinear_arith)
            requires
                d == 2 * e,
                d * s == 2 * (half * q),
        ;
        lemma_mod_multiples_basic(q, half);
        assert(half * q == q * half) by (nonlinear_arith);
        lemma_odd_factor_cancels(e, s, (k - 1) as nat);
        let r = e / half;
        lemma_fundamental_div_mod(e, half);
        assert(d == r * full) by (nonlinear_arith)
            requires
                d == 2 * e,
                e == half * r + 0,
                full == 2 * half,
        ;
        lemma_mod_multiples_basic(r, full);
    }
}

/// With an odd increment the Weyl sequence has full period: within any run
/// of fewer steps than a word has values, no value of `w` comes twice, and
/// so the generator is never twice in the same state.
pub proof fn lemma_weyl_full_period(st: State, i: nat, j: nat)
    requires
        st.wf(),
        i < j,
        j - i < word_range(),
    ensures
        st.ticks(i).w != st.ticks(j).w,
        st.ticks(i) != st.ticks(j),
{
    lemma_weyl_closed_form(st, i);
    lemma_weyl_closed_form(st, j);
    if st.ticks(i).w == st.ticks(j).w {
        let d = (j - i) as int;
        let s = st.s as int;
        lemma_mod_equivalence(st.w + j * st.s, st.w + i * st.s, word_range());
        assert((st.w + j * st.s) - (st.w + i * st.s) == d * s) by (nonlinear_arith)
            requires
                d == j - i,
                s == st.s,
        ;
        lemma2_to64_rest();
        assert(pow2(64) as int == word_range());
        lemma_odd_factor_cancels(d, s, 64);
    }
}

/// After as many steps as a word has values, the Weyl sequence is back where
/// it started.
pub proof fn lemma_weyl_returns(st: State, n: nat)
    ensures
        st.ticks(n + word_range() as nat).w == st.ticks(n).w,
{
    let r = word_range();
    lemma_weyl_closed_form(st, n);
    lemma_weyl_closed_form(st, n + r as nat);
    let a = st.w + n * st.s;
    let b = st.w + (n + r as nat) * st.s;
    assert(b - a == st.s * r) by (nonlinear_arith)
        requires
            a == st.w + n * st.s,
            b == st.w + (n + r) * st.s,
    ;
    lemma_mod_multiples_basic(st.s as int, r);
    lemma_mod_equivalence(b, a, r);
}

} // verus!
