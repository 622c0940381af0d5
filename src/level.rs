//! Level progression: every difficulty figure is a function of the level
//! counter, and the asteroid population comes from a greedy budget.
use crate::asteroid::AsteroidSize;
use crate::fixed::{lerp, lerp_spec};
use vstd::prelude::*;

verus! {

/// Number of cosmetic asteroid variants.
pub const ASTEROID_VARIANTS: u32 = 10;

/// Number of background images.
pub const BACKGROUND_IMAGES: u32 = 5;

/// An inclusive range of fixed-point values.
#[derive(Clone, Copy, Debug, PartialEq, Eq, Structural)]
pub struct Bounds {
    pub lo: i64,
    pub hi: i64,
}

/// The level counter, from zero.
#[derive(Clone, Copy, Debug, PartialEq, Eq, Structural)]
pub struct Level(pub u32);

/// The player's score.
#[derive(Clone, Copy, Debug, PartialEq, Eq, Structural)]
pub struct Score(pub u32);

/// Sizes a level may start with, in descending cost order.
pub open spec fn allowed_sizes_spec(level: u32) -> Seq<AsteroidSize> {
    if level <= 4 {
        seq![AsteroidSize::Large]
    } else if level <= 8 {
        seq![AsteroidSize::Large, AsteroidSize::Medium]
    } else if level <= 12 {
        seq![AsteroidSize::Large, AsteroidSize::Medium, AsteroidSize::Small]
    } else {
        seq![AsteroidSize::Large, AsteroidSize::Medium, AsteroidSize::Small, AsteroidSize::Tiny]
    }
}

/// A level's asteroid budget: `(level mod 20 + 2)` times the cost of a Large one.
pub open spec fn budget_spec(level: u32) -> int {
    (level % 20 + 2) * AsteroidSize::Large.cost_spec()
}

/// `n` Tiny asteroids.
pub open spec fn tiny_run(n: int) -> Seq<AsteroidSize> {
    Seq::new(n as nat, |_j: int| AsteroidSize::Tiny)
}

/// The greedy allocation: sizes are drawn cyclically from `allowed`, starting at
/// position `i`, each taken at its cost while the budget can pay for it; once
/// it cannot pay for the next size, the rest of the budget is spent one unit at
/// a time as Tiny asteroids; allocation stops when the budget is spent.
pub open spec fn allocation(allowed: Seq<AsteroidSize>, budget: int, i: nat) -> Seq<AsteroidSize>
    decreases budget,
{
    if budget <= 0 || allowed.len() == 0 {
        seq![]
    } else {
        let s = allowed[(i % allowed.len()) as int];
        if budget >= s.cost_spec() && s.cost_spec() > 0 {
            seq![s] + allocation(allowed, budget - s.cost_spec(), i + 1)
        } else {
            tiny_run(budget)
        }
    }
}

/// What a sequence of asteroids costs in all.
pub open spec fn total_cost(sizes: Seq<AsteroidSize>) -> int
    decreases sizes.len(),
{
    if sizes.len() == 0 {
        0
    } else {
        sizes[0].cost_spec() + total_cost(sizes.drop_first())
    }
}

proof fn lemma_tiny_run_cost(n: int)
    requires
        n >= 0,
    ensures
        total_cost(tiny_run(n)) == n,
    decreases n,
{
    if n > 0 {
        lemma_tiny_run_cost(n - 1);
        assert(tiny_run(n).drop_first() =~= tiny_run(n - 1));
    }
}

/// The allocation spends a non-negative budget exactly: what is left is never
/// negative, and is zero at the end.
pub proof fn lemma_allocation_spends_budget(allowed: Seq<AsteroidSize>, budget: int, i: nat)
    requires
        budget >= 0,
        allowed.len() > 0,
    ensures
        total_cost(allocation(allowed, budget, i)) == budget,
    decreases budget,
{
    if budget > 0 {
        let s = allowed[(i % allowed.len()) as int];
        let r = allocation(allowed, budget, i);
        if budget >= s.cost_spec() && s.cost_spec() > 0 {
            lemma_allocation_spends_budget(allowed, budget - s.cost_spec(), i + 1);
            assert(r.drop_first() =~= allocation(allowed, budget - s.cost_spec(), i + 1));
        } else {
            lemma_tiny_run_cost(budget);
        }
    }
}

/// `r` starts with `k` sizes taken in turn from the cycle through `allowed`
/// (from position `i`), and every asteroid after them is Tiny.
pub open spec fn cycle_then_tiny(r: Seq<AsteroidSize>, allowed: Seq<AsteroidSize>, i: nat, k: int) -> bool {
    &&& 0 <= k <= r.len()
    &&& forall|j: int| 0 <= j < k ==> r[j] == allowed[((i + j) % (allowed.len() as int))]
    &&& forall|j: int| k <= j < r.len() ==> r[j] == AsteroidSize::Tiny
}

/// The allocation takes the sizes of the cycle in turn up to the first one the
/// budget cannot pay for; from there on every asteroid is Tiny.
pub proof fn lemma_allocation_follows_cycle(allowed: Seq<AsteroidSize>, budget: int, i: nat)
    requires
        allowed.len() > 0,
    ensures
        exists|k: int| #[trigger] cycle_then_tiny(allocation(allowed, budget, i), allowed, i, k),
    decreases budget,
{
    let r = allocation(allowed, budget, i);
    if budget <= 0 {
        assert(cycle_then_tiny(r, allowed, i, 0));
    } else {
        let s = allowed[(i % allowed.len()) as int];
        if budget >= s.cost_spec() && s.cost_spec() > 0 {
            let next = budget - s.cost_spec();
            lemma_allocation_follows_cycle(allowed, next, i + 1);
            let rest = allocation(allowed, next, i + 1);
            let k0 = choose|k: int| #[trigger] cycle_then_tiny(rest, allowed, i + 1, k);
            assert forall|j: int| 0 <= j < k0 + 1 implies r[j] == allowed[((i + j) % (
            allowed.len() as int))] by {
                if j > 0 {
                    assert(r[j] == rest[j - 1]);
                    assert(i + 1 + (j - 1) == i + j);
                }
            }
            assert forall|j: int| k0 + 1 <= j < r.len() implies r[j] == AsteroidSize::Tiny by {
                assert(r[j] == rest[j - 1]);
            }
            assert(cycle_then_tiny(r, allowed, i, k0 + 1));
        } else {
            assert(cycle_then_tiny(r, allowed, i, 0));
        }
    }
}

/// The sizes a level may draw from are in strictly descending cost order.
pub proof fn lemma_allowed_sizes_descend(level: u32)
    ensures
        allowed_sizes_spec(level).len() > 0,
        forall|a: int, b: int|
            0 <= a < b < allowed_sizes_spec(level).len() ==> allowed_sizes_spec(level)[a].cost_spec()
                > allowed_sizes_spec(level)[b].cost_spec(),
{
}

impl Level {
    /// The level number shown to the player, from one.
    pub fn number(&self) -> (r: u32)
        requires
            self.0 < u32::MAX,
        ensures
            r == self.0 + 1,
    {
        self.0 + 1
    }

    /// Moves on to the next level.
    pub fn increment(&mut self)
        requires
            old(self).0 < u32::MAX,
        ensures
            final(self).0 == old(self).0 + 1,
    {
        self.0 = self.0 + 1;
    }

    /// The cosmetic variant of this level's asteroids.
    pub fn asteroid_variant(&self) -> (r: u32)
        ensures
            r == self.0 % ASTEROID_VARIANTS,
    {
        self.0 % ASTEROID_VARIANTS
    }

    /// The background image of this level, from one.
    pub fn background_image(&self) -> (r: u32)
        ensures
            r == self.0 % BACKGROUND_IMAGES + 1,
    {
        self.0 % BACKGROUND_IMAGES + 1
    }

    /// How far from the centre asteroids are placed, in thousandths of a unit.
    pub fn asteroid_distance_bounds(&self) -> (r: Bounds)
        ensures
            r.lo == 100000,
            r.hi == 200000,
    {
        Bounds { lo: 100000, hi: 200000 }
    }

    /// Sizes this level may start with: Large only below level 5, Medium from
    /// 5, Small from 9, Tiny from 13.
    pub fn asteroid_sizes(&self) -> (r: Vec<AsteroidSize>)
        ensures
            r@ == allowed_sizes_spec(self.0),
    {
        if self.0 <= 4 {
            vec![AsteroidSize::Large]
        } else if self.0 <= 8 {
            vec![AsteroidSize::Large, AsteroidSize::Medium]
        } else if self.0 <= 12 {
            vec![AsteroidSize::Large, AsteroidSize::Medium, AsteroidSize::Small]
        } else {
            vec![AsteroidSize::Large, AsteroidSize::Medium, AsteroidSize::Small, AsteroidSize::Tiny]
        }
    }

    /// Speed range of new asteroids, per second in thousandths of a unit,
    /// rising with the level until level 40.
    pub fn asteroid_speed_bounds(&self) -> (r: Bounds)
        ensures
            r.lo == lerp_spec(10000, 20000, self.0 * 25),
            r.hi == lerp_spec(20000, 60000, self.0 * 25),
    {
        let t: i64 = self.0 as i64 * 25;
        Bounds { lo: lerp(10000, 20000, t), hi: lerp(20000, 60000, t) }
    }

    /// Fragments an asteroid of this level breaks into.
    pub fn asteroid_frag_count(&self) -> (r: u32)
        ensures
            r == 2 + self.0 / 20,
    {
        2 + self.0 / 20
    }

    /// The level's asteroid population, by the greedy budget allocation.
    pub fn asteroids(&self) -> (r: Vec<AsteroidSize>)
        ensures
            r@ == allocation(allowed_sizes_spec(self.0), budget_spec(self.0), 0),
    {
        let sizes = self.asteroid_sizes();
        let total: u32 = (self.0 % 20 + 2) * AsteroidSize::Large.cost();
        let mut budget: u32 = total;
        let mut i: usize = 0;
        let mut out: Vec<AsteroidSize> = Vec::new();
        while budget > 0
            invariant
                sizes@ == allowed_sizes_spec(self.0),
                total == budget_spec(self.0),
                budget <= total <= 168,
                i <= total - budget,
                out@ + allocation(sizes@, budget as int, i as nat) == allocation(
                    sizes@,
                    total as int,
                    0,
                ),
            decreases budget,
        {
            let s = sizes[i % sizes.len()];
            let c: u32 = s.cost();
            let ghost before = allocation(sizes@, budget as int, i as nat);
            let ghost prev = out@;
            if budget >= c {
                budget = budget - c;
                out.push(s);
                proof {
                    assert(prev + before =~= out@ + allocation(sizes@, budget as int, (i + 1) as nat));
                }
                i = i + 1;
            } else {
                let ghost b0 = budget;
                while budget > 0
                    invariant
                        budget <= b0,
                        out@ =~= prev + tiny_run(b0 - budget),
                    decreases budget,
                {
                    out.push(AsteroidSize::Tiny);
                    budget = budget - 1;
                }
                proof {
                    assert(before == tiny_run(b0 as int));
                    assert(out@ + allocation(sizes@, 0, i as nat) =~= prev + before);
                }
            }
        }
        out
    }

    /// How long a UFO takes to cross, in milliseconds, falling until level 40.
    pub fn ufo_duration(&self) -> (r: i64)
        ensures
            r == lerp_spec(20000, 10000, self.0 * 25),
    {
        lerp(20000, 10000, self.0 as i64 * 25)
    }

    /// Milliseconds between UFO shots at first, falling until level 60.
    pub fn ufo_shoot_delay(&self) -> (r: i64)
        ensures
            r == lerp_spec(3000, 1500, self.0 * 1000 / 60),
    {
        lerp(3000, 1500, self.0 as i64 * 1000 / 60)
    }

    /// UFO aiming accuracy in per-mille, rising until level 60.
    pub fn ufo_shoot_accuracy(&self) -> (r: i64)
        ensures
            r == lerp_spec(600, 900, self.0 * 1000 / 60),
    {
        lerp(600, 900, self.0 as i64 * 1000 / 60)
    }
}

impl Score {
    /// Adds `amount`, stopping at the largest representable score.
    pub fn increase(&mut self, amount: u32)
        ensures
            final(self).0 == if old(self).0 + amount > u32::MAX {
                u32::MAX as int
            } else {
                old(self).0 + amount
            },
    {
        self.0 = self.0.saturating_add(amount);
    }

    pub fn value(&self) -> (r: u32)
        ensures
            r == self.0,
    {
        self.0
    }
}

} // verus!
