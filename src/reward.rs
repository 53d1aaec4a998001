//! The random reward that a miner draws for each new block, and the per-epoch
//! bookkeeping of how many rewards of each category remain.
use vstd::prelude::*;
use rand::distributions::{Distribution, WeightedIndex};
use rand::Rng;

verus! {

pub const TOTAL_NUGGETS: u32 = 80000000;
pub const TOTAL_VEINS: u32 = 1400000;
pub const TOTAL_MOTHERLODES: u32 = 20000;
pub const N_BLOCKS_PER_EPOCH: u32 = 16000000;
pub const NUGGET_FINAL_EPOCH: u16 = 300;
pub const VEIN_FINAL_EPOCH: u8 = 200;
pub const MOTHERLODE_FINAL_EPOCH: u8 = 100;
/// Each range holds its lower bound and excludes its upper bound.
pub const FLAKE_REWARD_RANGE: (u32, u32) = (1, 7);
pub const GRAIN_REWARD_RANGE: (u32, u32) = (8, 63);
pub const NUGGET_REWARD_RANGE: (u32, u32) = (64, 511);
pub const VEIN_REWARD_RANGE: (u32, u32) = (512, 4095);
pub const MOTHERLODE_REWARD_RANGE: (u32, u32) = (4096, 32767);

/// A reward category, with the amount once one has been drawn.
#[derive(Clone, Copy, Debug, PartialEq, Eq, Structural)]
pub enum Category {
    Flake(Option<i128>),
    Grain(Option<i128>),
    Nugget(Option<i128>),
    Vein(Option<i128>),
    Motherlode(Option<i128>),
}

/// Where the chain stands in its reward schedule.
#[derive(Clone, Copy, Debug, PartialEq, Eq, Structural)]
pub struct RewardState {
    pub epoch: u32,
    pub next_epoch_block: u32,
    pub current_block: u32,
    pub n_nuggets_remaining: u32,
    pub n_veins_remaining: u32,
    pub n_motherlodes_remaining: u32,
    pub n_nuggets_current_epoch: u32,
    pub n_veins_current_epoch: u32,
    pub n_motherlodes_current_epoch: u32,
    pub n_flakes_current_epoch: u32,
    pub n_grains_current_epoch: u32,
}

/// The numbers of nuggets, veins and motherlodes that the decay curve allots
/// to an epoch. The curve is computed in floating point by the caller.
#[derive(Clone, Copy, Debug, PartialEq, Eq, Structural)]
pub struct EpochAllotment {
    pub nuggets: u32,
    pub veins: u32,
    pub motherlodes: u32,
}

/// A reward paid to a miner.
#[derive(Clone, Debug, PartialEq, Eq)]
pub struct Reward {
    pub miner: String,
    pub category: Category,
    pub amount: i128,
}

impl EpochAllotment {
    /// The rare rewards leave room for the common ones in an epoch.
    pub open spec fn fits_epoch(self) -> bool {
        self.nuggets + self.veins + self.motherlodes <= N_BLOCKS_PER_EPOCH
    }
}

/// The flakes and grains that share the blocks of an epoch that no rare
/// reward takes: three fifths and two fifths, rounded down.
pub open spec fn common_split(a: EpochAllotment) -> (u32, u32) {
    let rest = N_BLOCKS_PER_EPOCH - (a.nuggets + a.veins + a.motherlodes);
    ((rest * 3 / 5) as u32, (rest * 2 / 5) as u32)
}

pub open spec fn is_drawn_flake(c: Category) -> bool {
    c matches Category::Flake(Some(_))
}

pub open spec fn is_drawn_grain(c: Category) -> bool {
    c matches Category::Grain(Some(_))
}

pub open spec fn is_drawn_nugget(c: Category) -> bool {
    c matches Category::Nugget(Some(_))
}

pub open spec fn is_drawn_vein(c: Category) -> bool {
    c matches Category::Vein(Some(_))
}

pub open spec fn is_drawn_motherlode(c: Category) -> bool {
    c matches Category::Motherlode(Some(_))
}

pub open spec fn minus_if(n: u32, cond: bool) -> u32 {
    if cond {
        (n - 1) as u32
    } else {
        n
    }
}

impl RewardState {
    /// The block before the current one is not past the epoch's end.
    pub open spec fn wf(self) -> bool {
        self.current_block < self.next_epoch_block
    }

    /// The next block is the last of the current epoch.
    pub open spec fn ends_epoch(self) -> bool {
        self.current_block + 1 == self.next_epoch_block
    }

    /// The state at the start of the chain, with the first epoch's allotment.
    pub open spec fn initial(a: EpochAllotment) -> RewardState {
        RewardState {
            current_block: 0,
            epoch: 1,
            next_epoch_block: N_BLOCKS_PER_EPOCH,
            n_nuggets_remaining: TOTAL_NUGGETS,
            n_veins_remaining: TOTAL_VEINS,
            n_motherlodes_remaining: TOTAL_MOTHERLODES,
            n_nuggets_current_epoch: a.nuggets,
            n_veins_current_epoch: a.veins,
            n_motherlodes_current_epoch: a.motherlodes,
            n_flakes_current_epoch: common_split(a).0,
            n_grains_current_epoch: common_split(a).1,
        }
    }

    /// `last_reward` can be taken from the counts without going below zero,
    /// and the epoch counters do not overflow when the epoch ends.
    pub open spec fn can_record(self, last_reward: Category, a: EpochAllotment) -> bool {
        &&& is_drawn_nugget(last_reward) ==> self.n_nuggets_remaining > 0
        &&& is_drawn_vein(last_reward) ==> self.n_veins_remaining > 0
        &&& is_drawn_motherlode(last_reward) ==> self.n_motherlodes_remaining > 0
        &&& !self.ends_epoch() ==> {
            &&& is_drawn_nugget(last_reward) ==> self.n_nuggets_current_epoch > 0
            &&& is_drawn_vein(last_reward) ==> self.n_veins_current_epoch > 0
            &&& is_drawn_motherlode(last_reward) ==> self.n_motherlodes_current_epoch > 0
            &&& is_drawn_flake(last_reward) ==> self.n_flakes_current_epoch > 0
            &&& is_drawn_grain(last_reward) ==> self.n_grains_current_epoch > 0
        }
        &&& self.ends_epoch() ==> {
            &&& a.fits_epoch()
            &&& self.epoch < u32::MAX
            &&& self.next_epoch_block + N_BLOCKS_PER_EPOCH <= u32::MAX
        }
    }

    /// The state after a block that paid `last_reward`. Within an epoch the
    /// reward is taken from the epoch's count of its category; at the end of
    /// an epoch the counts are those of allotment `a` for the next one.
    pub open spec fn next(self, last_reward: Category, a: EpochAllotment) -> RewardState {
        let ends = self.ends_epoch();
        RewardState {
            current_block: (self.current_block + 1) as u32,
            epoch: if ends {
                (self.epoch + 1) as u32
            } else {
                self.epoch
            },
            next_epoch_block: if ends {
                (self.next_epoch_block + N_BLOCKS_PER_EPOCH) as u32
            } else {
                self.next_epoch_block
            },
            n_nuggets_remaining: minus_if(self.n_nuggets_remaining, is_drawn_nugget(last_reward)),
            n_veins_remaining: minus_if(self.n_veins_remaining, is_drawn_vein(last_reward)),
            n_motherlodes_remaining: minus_if(
                self.n_motherlodes_remaining,
                is_drawn_motherlode(last_reward),
            ),
            n_nuggets_current_epoch: if ends {
                a.nuggets
            } else {
                minus_if(self.n_nuggets_current_epoch, is_drawn_nugget(last_reward))
            },
            n_veins_current_epoch: if ends {
                a.veins
            } else {
                minus_if(self.n_veins_current_epoch, is_drawn_vein(last_reward))
            },
            n_motherlodes_current_epoch: if ends {
                a.motherlodes
            } else {
                minus_if(self.n_motherlodes_current_epoch, is_drawn_motherlode(last_reward))
            },
            n_flakes_current_epoch: if ends {
                common_split(a).0
            } else {
                minus_if(self.n_flakes_current_epoch, is_drawn_flake(last_reward))
            },
            n_grains_current_epoch: if ends {
                common_split(a).1
            } else {
                minus_if(self.n_grains_current_epoch, is_drawn_grain(last_reward))
            },
        }
    }
}

fn common_counts(a: EpochAllotment) -> (r: (u32, u32))
    requires
        a.fits_epoch(),
    ensures
        r == common_split(a),
{
    let rest: u32 = N_BLOCKS_PER_EPOCH - (a.nuggets + a.veins + a.motherlodes);
    let flakes: u32 = (rest as u64 * 3 / 5) as u32;
    let grains: u32 = (rest as u64 * 2 / 5) as u32;
    (flakes, grains)
}

impl RewardState {
    /// The state at the start of the chain: block zero of epoch one, with all
    /// rare rewards remaining and the first epoch allotted `a`.
    pub fn start(a: EpochAllotment) -> (r: RewardState)
        requires
            a.fits_epoch(),
        ensures
            r == RewardState::initial(a),
            r.wf(),
    {
        let (flakes, grains) = common_counts(a);
        RewardState {
            current_block: 0,
            epoch: 1,
            next_epoch_block: N_BLOCKS_PER_EPOCH,
            n_nuggets_remaining: TOTAL_NUGGETS,
            n_veins_remaining: TOTAL_VEINS,
            n_motherlodes_remaining: TOTAL_MOTHERLODES,
            n_nuggets_current_epoch: a.nuggets,
            n_veins_current_epoch: a.veins,
            n_motherlodes_current_epoch: a.motherlodes,
            n_flakes_current_epoch: flakes,
            n_grains_current_epoch: grains,
        }
    }

    /// The state after a block that paid `last_reward`; `a` is the allotment
    /// of the next epoch, used only where this block ends the current one.
    pub fn update(&self, last_reward: Category, a: EpochAllotment) -> (r: RewardState)
        requires
            self.wf(),
            self.can_record(last_reward, a),
        ensures
            r == self.next(last_reward, a),
            r.wf(),
    {
        let mut n_nuggets_ce: u32 = self.n_nuggets_current_epoch;
        let mut n_veins_ce: u32 = self.n_veins_current_epoch;
        let mut n_motherlodes_ce: u32 = self.n_motherlodes_current_epoch;
        let mut n_flakes_ce: u32 = self.n_flakes_current_epoch;
        let mut n_grains_ce: u32 = self.n_grains_current_epoch;
        let remaining_blocks_in_ce: u32 = self.next_epoch_block - (self.current_block + 1);
        if remaining_blocks_in_ce != 0 {
            match last_reward {
                Category::Nugget(Some(_)) => n_nuggets_ce = n_nuggets_ce - 1,
                Category::Vein(Some(_)) => n_veins_ce = n_veins_ce - 1,
                Category::Motherlode(Some(_)) => n_motherlodes_ce = n_motherlodes_ce - 1,
                Category::Flake(Some(_)) => n_flakes_ce = n_flakes_ce - 1,
                Category::Grain(Some(_)) => n_grains_ce = n_grains_ce - 1,
                _ => {},
            }
        } else {
            n_nuggets_ce = a.nuggets;
            n_veins_ce = a.veins;
            n_motherlodes_ce = a.motherlodes;
            let (flakes, grains) = common_counts(a);
            n_flakes_ce = flakes;
            n_grains_ce = grains;
        }
        let ends = self.current_block + 1 == self.next_epoch_block;
        RewardState {
            current_block: self.current_block + 1,
            epoch: if ends {
                self.epoch + 1
            } else {
                self.epoch
            },
            next_epoch_block: if ends {
                self.next_epoch_block + N_BLOCKS_PER_EPOCH
            } else {
                self.next_epoch_block
            },
            n_nuggets_remaining: match last_reward {
                Category::Nugget(Some(_)) => self.n_nuggets_remaining - 1,
                _ => self.n_nuggets_remaining,
            },
            n_veins_remaining: match last_reward {
                Category::Vein(Some(_)) => self.n_veins_remaining - 1,
                _ => self.n_veins_remaining,
            },
            n_motherlodes_remaining: match last_reward {
                Category::Motherlode(Some(_)) => self.n_motherlodes_remaining - 1,
                _ => self.n_motherlodes_remaining,
            },
            n_nuggets_current_epoch: n_nuggets_ce,
            n_veins_current_epoch: n_veins_ce,
            n_motherlodes_current_epoch: n_motherlodes_ce,
            n_flakes_current_epoch: n_flakes_ce,
            n_grains_current_epoch: n_grains_ce,
        }
    }
}

/// The sum of the weights `w`.
pub open spec fn sum_weights(w: Seq<u32>) -> nat
    decreases w.len(),
{
    if w.len() == 0 {
        0
    } else {
        w[0] as nat + sum_weights(w.drop_first())
    }
}

/// Relies on `rand::distributions::WeightedIndex`: built from weights that are
/// not all zero and whose sum fits the weight type, it samples an index of
/// the weights, never one whose weight is zero.
#[verifier::external_body]
fn weighted_index(weights: &Vec<u32>) -> (r: usize)
    requires
        0 < sum_weights(weights@) <= u32::MAX,
    ensures
        r < weights@.len(),
        weights@[r as int] > 0,
{
    let dist = WeightedIndex::new(weights.iter()).unwrap();
    dist.sample(&mut rand::thread_rng())
}

/// Relies on `rand::Rng::gen_range`: a value drawn from `low` up to but not
/// including `high`, which must exceed `low`.
#[verifier::external_body]
fn random_in_range(low: u32, high: u32) -> (r: u32)
    requires
        low < high,
    ensures
        low <= r < high,
{
    rand::thread_rng().gen_range(low, high)
}

/// The weights with which the categories are drawn, in the order flake,
/// grain, nugget, vein, motherlode. Motherlodes are drawn with the weight of
/// veins.
pub open spec fn draw_weights(s: RewardState) -> Seq<u32> {
    seq![
        s.n_flakes_current_epoch,
        s.n_grains_current_epoch,
        s.n_nuggets_current_epoch,
        s.n_veins_current_epoch,
        s.n_veins_current_epoch,
    ]
}

/// The weights leave something to draw and their sum fits a `u32`.
pub open spec fn can_draw(s: RewardState) -> bool {
    0 < s.n_flakes_current_epoch + s.n_grains_current_epoch + s.n_nuggets_current_epoch + 2
        * s.n_veins_current_epoch <= u32::MAX
}

/// The undrawn category at position `i` of the draw order.
pub open spec fn category_of_index(i: int) -> Category {
    if i == 0 {
        Category::Flake(None)
    } else if i == 1 {
        Category::Grain(None)
    } else if i == 2 {
        Category::Nugget(None)
    } else if i == 3 {
        Category::Vein(None)
    } else {
        Category::Motherlode(None)
    }
}

/// The amounts that a category pays, lower bound included, upper excluded.
/// A category that already holds an amount pays as a flake.
pub open spec fn range_of(c: Category) -> (u32, u32) {
    match c {
        Category::Grain(None) => GRAIN_REWARD_RANGE,
        Category::Nugget(None) => NUGGET_REWARD_RANGE,
        Category::Vein(None) => VEIN_REWARD_RANGE,
        Category::Motherlode(None) => MOTHERLODE_REWARD_RANGE,
        _ => FLAKE_REWARD_RANGE,
    }
}

/// The category that `c` becomes once amount `v` is drawn for it. Grains and
/// categories that already hold an amount become flakes.
pub open spec fn with_amount_of(c: Category, v: i128) -> Category {
    match c {
        Category::Nugget(None) => Category::Nugget(Some(v)),
        Category::Vein(None) => Category::Vein(Some(v)),
        Category::Motherlode(None) => Category::Motherlode(Some(v)),
        _ => Category::Flake(Some(v)),
    }
}

/// The amount that a drawn category holds, zero for one not drawn.
pub open spec fn amount_of(c: Category) -> i128 {
    match c {
        Category::Flake(Some(v)) => v,
        Category::Grain(Some(v)) => v,
        Category::Nugget(Some(v)) => v,
        Category::Vein(Some(v)) => v,
        Category::Motherlode(Some(v)) => v,
        _ => 0,
    }
}

/// `c` holds an amount drawn within the range of category `k`.
pub open spec fn is_priced_from(k: Category, c: Category) -> bool {
    &&& c == with_amount_of(k, amount_of(c))
    &&& range_of(k).0 <= amount_of(c) < range_of(k).1
}

/// `c` is a reward that state `s` can pay: a category with a positive draw
/// weight, priced within its range.
pub open spec fn is_reward_for(s: RewardState, c: Category) -> bool {
    exists|i: int|
        0 <= i < 5 && draw_weights(s)[i] > 0 && #[trigger] is_priced_from(category_of_index(i), c)
}

/// Whether a reward can be drawn from `s`: some category has weight and the
/// weights sum within a `u32`.
pub fn can_draw_now(s: &RewardState) -> (r: bool)
    ensures
        r == can_draw(*s),
{
    let total: u64 = s.n_flakes_current_epoch as u64 + s.n_grains_current_epoch as u64
        + s.n_nuggets_current_epoch as u64 + 2 * (s.n_veins_current_epoch as u64);
    0 < total && total <= 0xffff_ffff
}

impl Category {
    /// The undrawn category at position `i` of the draw order.
    pub fn from_index(i: usize) -> (r: Category)
        requires
            i < 5,
        ensures
            r == category_of_index(i as int),
    {
        if i == 0 {
            Category::Flake(None)
        } else if i == 1 {
            Category::Grain(None)
        } else if i == 2 {
            Category::Nugget(None)
        } else if i == 3 {
            Category::Vein(None)
        } else {
            Category::Motherlode(None)
        }
    }

    /// The amounts this category pays.
    pub fn reward_range(&self) -> (r: (u32, u32))
        ensures
            r == range_of(*self),
            r.0 < r.1,
    {
        match self {
            Category::Grain(None) => GRAIN_REWARD_RANGE,
            Category::Nugget(None) => NUGGET_REWARD_RANGE,
            Category::Vein(None) => VEIN_REWARD_RANGE,
            Category::Motherlode(None) => MOTHERLODE_REWARD_RANGE,
            _ => FLAKE_REWARD_RANGE,
        }
    }

    /// This category holding the amount `v`.
    pub fn with_amount(&self, v: i128) -> (r: Category)
        ensures
            r == with_amount_of(*self, v),
            amount_of(r) == v,
    {
        match self {
            Category::Nugget(None) => Category::Nugget(Some(v)),
            Category::Vein(None) => Category::Vein(Some(v)),
            Category::Motherlode(None) => Category::Motherlode(Some(v)),
            _ => Category::Flake(Some(v)),
        }
    }

    /// Draws an undrawn category, each with the weight of its count in the
    /// current epoch.
    pub fn generate_category(reward_state: &RewardState) -> (r: Category)
        requires
            can_draw(*reward_state),
        ensures
            exists|i: int|
                0 <= i < 5 && draw_weights(*reward_state)[i] > 0 && r == category_of_index(i),
    {
        let weights: Vec<u32> = vec![
            reward_state.n_flakes_current_epoch,
            reward_state.n_grains_current_epoch,
            reward_state.n_nuggets_current_epoch,
            reward_state.n_veins_current_epoch,
            reward_state.n_veins_current_epoch,
        ];
        proof {
            let w = weights@;
            assert(w =~= draw_weights(*reward_state));
            assert(w.drop_first().drop_first().drop_first().drop_first().drop_first().len() == 0);
            reveal_with_fuel(sum_weights, 6);
            assert(sum_weights(w) == w[0] + w[1] + w[2] + w[3] + w[4]);
        }
        let i = weighted_index(&weights);
        let r = Category::from_index(i);
        assert(draw_weights(*reward_state)[i as int] > 0);
        r
    }

    /// Draws an amount for this category within its range.
    pub fn amount(&self) -> (r: Category)
        ensures
            is_priced_from(*self, r),
    {
        let (low, high) = self.reward_range();
        let v = random_in_range(low, high);
        self.with_amount(v as i128)
    }

    /// Draws the reward for the next block: a category by weight, then its
    /// amount.
    pub fn new(reward_state: &RewardState) -> (r: Category)
        requires
            can_draw(*reward_state),
        ensures
            is_reward_for(*reward_state, r),
    {
        let k = Category::generate_category(reward_state);
        let r = k.amount();
        let ghost i = choose|i: int|
            0 <= i < 5 && draw_weights(*reward_state)[i] > 0 && k == category_of_index(i);
        assert(is_priced_from(category_of_index(i), r));
        r
    }
}

impl Reward {
    /// The reward for the next block, paid to `miner`.
    pub fn new(miner: String, reward_state: &RewardState) -> (r: Reward)
        requires
            can_draw(*reward_state),
        ensures
            r.miner == miner,
            is_reward_for(*reward_state, r.category),
            r.amount == amount_of(r.category),
    {
        let category = Category::new(reward_state);
        let amount: i128 = match category {
            Category::Flake(Some(amount)) => amount,
            Category::Grain(Some(amount)) => amount,
            Category::Nugget(Some(amount)) => amount,
            Category::Vein(Some(amount)) => amount,
            Category::Motherlode(Some(amount)) => amount,
            _ => 0,
        };
        Reward { miner, category, amount }
    }
}

} // verus!
