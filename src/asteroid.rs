//! Asteroids: their sizes, hit points, scores and break-up.
use crate::level::Level;
use crate::motion::TAU_MILLI;
use vstd::arithmetic::power2::pow2;
use vstd::prelude::*;

verus! {

/// The four sizes of asteroid, smallest first.
#[derive(Clone, Copy, Debug, PartialEq, Eq, Structural)]
pub enum AsteroidSize {
    Tiny,
    Small,
    Medium,
    Large,
}

impl AsteroidSize {
    /// Position in the order Tiny, Small, Medium, Large.
    pub open spec fn ordinal(self) -> nat {
        match self {
            AsteroidSize::Tiny => 0,
            AsteroidSize::Small => 1,
            AsteroidSize::Medium => 2,
            AsteroidSize::Large => 3,
        }
    }

    /// One step down, none below Tiny.
    pub open spec fn smaller_spec(self) -> Option<AsteroidSize> {
        match self {
            AsteroidSize::Tiny => None,
            AsteroidSize::Small => Some(AsteroidSize::Tiny),
            AsteroidSize::Medium => Some(AsteroidSize::Small),
            AsteroidSize::Large => Some(AsteroidSize::Medium),
        }
    }

    /// What an asteroid of this size takes out of a level's budget.
    pub open spec fn cost_spec(self) -> nat {
        match self {
            AsteroidSize::Tiny => 1,
            AsteroidSize::Small => 2,
            AsteroidSize::Medium => 4,
            AsteroidSize::Large => 8,
        }
    }

    /// Score for destroying an asteroid of this size.
    pub open spec fn score_spec(self) -> nat {
        50 * (self.ordinal() + 1)
    }

    /// Collision radius in thousandths of a unit.
    pub open spec fn radius_spec(self) -> int {
        match self {
            AsteroidSize::Tiny => 4000,
            AsteroidSize::Small => 8000,
            AsteroidSize::Medium => 16000,
            AsteroidSize::Large => 24000,
        }
    }

    pub fn ordinal_of(&self) -> (r: u32)
        ensures
            r == self.ordinal(),
    {
        match self {
            AsteroidSize::Tiny => 0,
            AsteroidSize::Small => 1,
            AsteroidSize::Medium => 2,
            AsteroidSize::Large => 3,
        }
    }

    /// The next size down, none below Tiny.
    pub fn smaller(&self) -> (r: Option<AsteroidSize>)
        ensures
            r == self.smaller_spec(),
    {
        match self {
            AsteroidSize::Tiny => None,
            AsteroidSize::Small => Some(AsteroidSize::Tiny),
            AsteroidSize::Medium => Some(AsteroidSize::Small),
            AsteroidSize::Large => Some(AsteroidSize::Medium),
        }
    }

    /// Collision radius in thousandths of a unit.
    pub fn radius(&self) -> (r: i64)
        ensures
            r == self.radius_spec(),
    {
        match self {
            AsteroidSize::Tiny => 4000,
            AsteroidSize::Small => 8000,
            AsteroidSize::Medium => 16000,
            AsteroidSize::Large => 24000,
        }
    }

    /// Budget cost: one for Tiny, twice the next size down for the others.
    pub fn cost(&self) -> (r: u32)
        ensures
            r == self.cost_spec(),
        decreases self.ordinal(),
    {
        match self.smaller() {
            None => 1,
            Some(s) => 2 * s.cost(),
        }
    }

    /// Hit points of a fresh asteroid: four per size step above Tiny, plus one.
    pub fn initial_integrity(&self) -> (r: i32)
        ensures
            r == self.ordinal() * 4 + 1,
    {
        self.ordinal_of() as i32 * 4 + 1
    }

    /// Score for destroying an asteroid of this size.
    pub fn score(&self) -> (r: u32)
        ensures
            r == self.score_spec(),
    {
        match self {
            AsteroidSize::Tiny => 50,
            AsteroidSize::Small => 100,
            AsteroidSize::Medium => 150,
            AsteroidSize::Large => 200,
        }
    }
}

/// Costs double at each size step: Tiny costs one, and each larger size twice
/// the next size down, so a size costs two to the power of its ordinal.
pub proof fn lemma_cost_doubles(size: AsteroidSize)
    ensures
        size.cost_spec() == pow2(size.ordinal()),
        size.smaller_spec() is None ==> size.cost_spec() == 1,
        size.smaller_spec() matches Some(s) ==> size.cost_spec() == 2 * s.cost_spec(),
{
    vstd::arithmetic::power2::lemma2_to64();
}

/// An asteroid: its size, its remaining hit points, and its cosmetic variant.
#[derive(Clone, Copy, Debug, PartialEq, Eq, Structural)]
pub struct Asteroid {
    pub size: AsteroidSize,
    pub integrity: i32,
    pub variant: u32,
}

/// A smaller asteroid thrown off by a destroyed one, heading `angle`
/// thousandths of a radian from the break-up's base direction.
#[derive(Clone, Copy, Debug, PartialEq, Eq, Structural)]
pub struct Fragment {
    pub size: AsteroidSize,
    pub variant: u32,
    pub angle: i64,
}

/// What the destruction of an asteroid produces.
#[derive(Debug, PartialEq, Eq)]
pub struct Destruction {
    /// Score awarded.
    pub score: u32,
    /// Size of the burst effect, in per-mille of a Large asteroid's.
    pub effect_scale: i64,
    /// Whether the loud explosion sound plays (Medium and Large).
    pub loud: bool,
    pub fragments: Vec<Fragment>,
}

/// Fragment `i` of `n`: the given size and variant, at `i / n` of a full turn.
pub open spec fn fragment_spec(size: AsteroidSize, variant: u32, i: int, n: int) -> Fragment {
    Fragment { size, variant, angle: (i * TAU_MILLI / n) as i64 }
}

impl Asteroid {
    /// A fresh asteroid, with `4 · ordinal + 1` hit points.
    pub fn new(size: AsteroidSize, variant: u32) -> (r: Asteroid)
        ensures
            r.size == size,
            r.variant == variant,
            r.integrity == size.ordinal() * 4 + 1,
    {
        Asteroid { size, integrity: size.initial_integrity(), variant }
    }

    /// The destruction of an asteroid whose hit points are gone (none while it
    /// has any): the size's score, a burst sized by its radius, and, unless it
    /// is Tiny, the level's fragment count of next-smaller asteroids of the same
    /// variant at evenly spaced angles.
    pub fn destroy(&self, level: &Level) -> (r: Option<Destruction>)
        ensures
            (self.integrity > 0) == (r is None),
            r matches Some(d) ==> {
                &&& d.score == self.size.score_spec()
                &&& d.effect_scale == self.size.radius_spec() * 1000 / 24000
                &&& d.loud == (self.size.ordinal() >= 2)
                &&& self.size.smaller_spec() is None ==> d.fragments@.len() == 0
                &&& self.size.smaller_spec() matches Some(s) ==> {
                    let n = 2 + level.0 / 20;
                    &&& d.fragments@.len() == n
                    &&& forall|i: int|
                        0 <= i < n ==> d.fragments@[i] == fragment_spec(s, self.variant, i, n)
                }
            },
    {
        if self.integrity > 0 {
            return None;
        }
        let mut fragments: Vec<Fragment> = Vec::new();
        if let Some(s) = self.size.smaller() {
            let n: u32 = level.asteroid_frag_count();
            let mut i: u32 = 0;
            while i < n
                invariant
                    0 <= i <= n,
                    n == 2 + level.0 / 20,
                    fragments@.len() == i,
                    forall|k: int|
                        0 <= k < i ==> fragments@[k] == fragment_spec(s, self.variant, k, n as int),
                decreases n - i,
            {
                let angle: i64 = i as i64 * TAU_MILLI / n as i64;
                fragments.push(Fragment { size: s, variant: self.variant, angle });
                i = i + 1;
            }
        }
        Some(
            Destruction {
                score: self.size.score(),
                effect_scale: self.size.radius() * 1000 / 24000,
                loud: self.size.ordinal_of() >= 2,
                fragments,
            },
        )
    }
}

} // verus!
