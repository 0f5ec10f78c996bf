//! The Middle Square Weyl Sequence generator on fixed seeds.
use numcore::prng::{MSWS, RNG, WEYL_CONST};

/// The generator written out on three plain words.
struct Plain {
    x: u64,
    w: u64,
    s: u64,
}

impl Plain {
    fn new(seed: u64) -> Plain {
        let mut p = Plain { x: 0, w: 0, s: (seed << 1).wrapping_add(WEYL_CONST) };
        p.next();
        p
    }

    fn next(&mut self) -> u32 {
        self.w = self.w.wrapping_add(self.s);
        self.x = self.x.wrapping_mul(self.x).wrapping_add(self.w);
        self.x = self.x.rotate_left(32);
        self.x as u32
    }
}

#[test]
fn seed_42_first_u64() {
    assert_eq!(MSWS::new(42).get_u64(), 0xd8cb9bd6190a9f8c);
}

#[test]
fn seed_42_second_u64() {
    let mut rng = MSWS::new(42);
    rng.get_u64();
    assert_eq!(rng.get_u64(), 0x5c25480f1cb74bd9);
}

#[test]
fn seed_zero_first_values() {
    let mut rng = MSWS::new(0);
    assert_eq!(rng.get_u32(), 0xdf4ee85c);
    assert_eq!(rng.get_u32(), 0x1889155f);
    assert_eq!(rng.get_u32(), 0xc6dcbccf);
    assert_eq!(rng.get_u32(), 0x1106e0c5);
    assert_eq!(rng.get_u32(), 0x473066ae);
    assert_eq!(rng.get_u32(), 0x374ac427);
}

#[test]
fn largest_seed_first_values() {
    let mut rng = MSWS::new(u64::MAX);
    assert_eq!(rng.get_u32(), 0x0899ad24);
    assert_eq!(rng.get_u32(), 0xdc98948f);
    assert_eq!(rng.get_u32(), 0x5b789917);
}

#[test]
fn constructor_has_already_stepped_once() {
    // The first output is the second step of the recurrence from the
    // all-zero words: after the first, x is the Weyl constant with its
    // halves swapped.
    let s = WEYL_CONST;
    let x1 = s.rotate_left(32);
    let w2 = s.wrapping_add(s);
    let x2 = x1.wrapping_mul(x1).wrapping_add(w2).rotate_left(32);
    assert_eq!(MSWS::new(0).get_u32(), x2 as u32);
}

#[test]
fn u64_is_two_u32_low_half_first() {
    let mut a = MSWS::new(7);
    let mut b = MSWS::new(7);
    for _ in 0..100 {
        let lo = a.get_u32() as u64;
        let hi = a.get_u32() as u64;
        assert_eq!(b.get_u64(), lo | (hi << 32));
    }
    assert_eq!(MSWS::new(0).get_u64(), 0x1889155fdf4ee85c);
}

#[test]
fn same_seed_same_sequence() {
    for seed in [0u64, 1, 42, 0xdead_beef, u64::MAX] {
        let mut a = MSWS::new(seed);
        let mut b = MSWS::new(seed);
        for _ in 0..10_000 {
            assert_eq!(a.get_u32(), b.get_u32());
        }
        for _ in 0..1_000 {
            assert_eq!(a.get_u64(), b.get_u64());
        }
    }
}

#[test]
fn follows_the_recurrence_for_ten_thousand_draws() {
    for seed in [0u64, 1, 42, u64::MAX] {
        let mut rng = MSWS::new(seed);
        let mut plain = Plain::new(seed);
        for _ in 0..10_000 {
            assert_eq!(rng.get_u32(), plain.next());
        }
    }
    let mut rng = MSWS::new(1);
    for _ in 0..9_999 {
        rng.get_u32();
    }
    assert_eq!(rng.get_u32(), 0xaa62a200);
}

#[test]
fn first_thousand_draws_are_not_all_equal() {
    let mut rng = MSWS::new(0);
    let first = rng.get_u32();
    let mut differs = false;
    let mut seen = std::collections::HashSet::new();
    seen.insert(first);
    for _ in 1..1000 {
        let v = rng.get_u32();
        differs = differs || v != first;
        seen.insert(v);
    }
    assert!(differs);
    assert_eq!(seen.len(), 1000);
}

#[test]
fn different_seeds_give_different_sequences() {
    let mut a = MSWS::new(1);
    let mut b = MSWS::new(2);
    let same = (0..64).filter(|_| a.get_u32() == b.get_u32()).count();
    assert!(same < 4);
}

#[test]
fn top_seed_bit_is_shifted_out() {
    // The increment is twice the seed plus the constant, in 64 bits.
    let mut a = MSWS::new(5);
    let mut b = MSWS::new(5 | (1 << 63));
    for _ in 0..100 {
        assert_eq!(a.get_u32(), b.get_u32());
    }
}

#[test]
fn child_is_seeded_by_one_u64_of_the_parent() {
    let mut parent = MSWS::new(42);
    let mut twin = MSWS::new(42);
    let mut child = parent.new_seeded();
    let mut expected = MSWS::new(twin.get_u64());
    assert_eq!(child.get_u32(), 0x683bbefa);
    assert_eq!(expected.get_u32(), 0x683bbefa);
    for _ in 0..1000 {
        assert_eq!(child.get_u32(), expected.get_u32());
    }
    // The parent has moved on by exactly two steps.
    assert_eq!(parent.get_u32(), 0x1cb74bd9);
    assert_eq!(twin.get_u32(), 0x1cb74bd9);
    for _ in 0..1000 {
        assert_eq!(parent.get_u32(), twin.get_u32());
    }
}

#[test]
fn child_runs_apart_from_its_parent() {
    let mut parent = MSWS::new(9);
    let mut child = parent.new_seeded();
    let mut lone_parent = MSWS::new(9);
    lone_parent.get_u64();
    for _ in 0..100 {
        child.get_u32();
    }
    for _ in 0..100 {
        assert_eq!(parent.get_u32(), lone_parent.get_u32());
    }
}

#[test]
fn default_is_seed_zero() {
    let mut a = MSWS::default();
    let mut b: RNG = RNG::new(0);
    for _ in 0..100 {
        assert_eq!(a.get_u32(), b.get_u32());
    }
}
