use vstd::prelude::*;
use crate::rng::random_in;

verus! {

/// The player's upgrade levels, each starting at 1: bullet count, fire
/// rate, bullet speed, bullet spread, bullet damage, grenade range, skill
/// cooldown, resistance.
#[derive(Clone, Copy, Debug, PartialEq, Eq, Structural)]
pub struct Buff(pub i8, pub i8, pub i8, pub i8, pub i8, pub i8, pub i8, pub i8);

impl Buff {
    /// Every upgrade at level 1.
    pub fn default() -> (b: Buff)
        ensures
            b == Buff(1, 1, 1, 1, 1, 1, 1, 1),
    {
        Buff(1, 1, 1, 1, 1, 1, 1, 1)
    }

    /// The running totals of the levels, from the first level up to each one.
    pub open spec fn partial(self, k: int) -> int {
        if k <= 0 {
            self.0 as int
        } else if k == 1 {
            self.0 + self.1
        } else if k == 2 {
            self.0 + self.1 + self.2
        } else if k == 3 {
            self.0 + self.1 + self.2 + self.3
        } else if k == 4 {
            self.0 + self.1 + self.2 + self.3 + self.4
        } else if k == 5 {
            self.0 + self.1 + self.2 + self.3 + self.4 + self.5
        } else if k == 6 {
            self.0 + self.1 + self.2 + self.3 + self.4 + self.5 + self.6
        } else {
            self.0 + self.1 + self.2 + self.3 + self.4 + self.5 + self.6 + self.7
        }
    }

    /// The sum of all levels.
    pub open spec fn total(self) -> int {
        self.partial(7)
    }

    /// Whether adding the levels up one by one stays within a byte.
    pub open spec fn sum_fits(self) -> bool {
        forall|k: int| 1 <= k <= 7 ==> -128 <= #[trigger] self.partial(k) <= 127
    }

    /// Adds up all levels.
    pub fn sum(&self) -> (s: i8)
        requires
            self.sum_fits(),
        ensures
            s == self.total(),
    {
        assert(-128 <= self.partial(1) <= 127);
        assert(-128 <= self.partial(2) <= 127);
        assert(-128 <= self.partial(3) <= 127);
        assert(-128 <= self.partial(4) <= 127);
        assert(-128 <= self.partial(5) <= 127);
        assert(-128 <= self.partial(6) <= 127);
        assert(-128 <= self.partial(7) <= 127);
        self.0 + self.1 + self.2 + self.3 + self.4 + self.5 + self.6 + self.7
    }

    /// The character level shown at game over: the upgrades taken, that is
    /// the sum of the levels less the eight starting ones.
    pub fn level(&self) -> (l: i8)
        requires
            self.sum_fits(),
            self.total() - 8 >= -128,
        ensures
            l == self.total() - 8,
    {
        -8 + self.sum()
    }
}

/// What picking a reward gives.
#[derive(Clone, Copy, Debug, PartialEq, Eq, Structural)]
pub enum Reward {
    /// An upgrade was applied to the levels.
    Upgrade,
    /// The player heals 15% of full health, up to full health.
    Heal,
    /// The pick does not exist for this chest.
    Nothing,
}

/// The levels after picking reward `choice` from a chest of kind `chest`:
/// the best chest offers five upgrades (two more bullets, two more damage,
/// one more fire rate, one more cooldown, one more resistance), the big chest
/// the first three, and the small chest healing only.
pub open spec fn reward_spec(b: Buff, chest: u8, choice: u8) -> (Buff, Reward) {
    if chest == 0 || chest == 1 {
        if choice == 0 {
            (Buff((b.0 + 2) as i8, b.1, b.2, b.3, b.4, b.5, b.6, b.7), Reward::Upgrade)
        } else if choice == 1 {
            (Buff(b.0, b.1, b.2, b.3, (b.4 + 2) as i8, b.5, b.6, b.7), Reward::Upgrade)
        } else if choice == 2 {
            (Buff(b.0, (b.1 + 1) as i8, b.2, b.3, b.4, b.5, b.6, b.7), Reward::Upgrade)
        } else if chest == 0 && choice == 3 {
            (Buff(b.0, b.1, b.2, b.3, b.4, b.5, (b.6 + 1) as i8, b.7), Reward::Upgrade)
        } else if chest == 0 && choice == 4 {
            (Buff(b.0, b.1, b.2, b.3, b.4, b.5, b.6, (b.7 + 1) as i8), Reward::Upgrade)
        } else {
            (b, Reward::Nothing)
        }
    } else if chest == 2 && choice <= 2 {
        (b, Reward::Heal)
    } else {
        (b, Reward::Nothing)
    }
}

/// Whether picking the reward would count a level past a byte.
pub open spec fn reward_overflows(b: Buff, chest: u8, choice: u8) -> bool {
    (chest == 0 || chest == 1) && (
        (choice == 0 && b.0 + 2 > 127)
        || (choice == 1 && b.4 + 2 > 127)
        || (choice == 2 && b.1 + 1 > 127)
        || (chest == 0 && choice == 3 && b.6 + 1 > 127)
        || (chest == 0 && choice == 4 && b.7 + 1 > 127))
}

/// Applies the reward picked in the chest menu; see `reward_spec`.
pub fn handle_choosingbuffmenu(b: &mut Buff, chest: u8, choice: u8) -> (r: Reward)
    requires
        !reward_overflows(*old(b), chest, choice),
    ensures
        (*final(b), r) == reward_spec(*old(b), chest, choice),
{
    if chest == 0 || chest == 1 {
        if choice == 0 {
            b.0 = b.0 + 2;
            Reward::Upgrade
        } else if choice == 1 {
            b.4 = b.4 + 2;
            Reward::Upgrade
        } else if choice == 2 {
            b.1 = b.1 + 1;
            Reward::Upgrade
        } else if chest == 0 && choice == 3 {
            b.6 = b.6 + 1;
            Reward::Upgrade
        } else if chest == 0 && choice == 4 {
            b.7 = b.7 + 1;
            Reward::Upgrade
        } else {
            Reward::Nothing
        }
    } else if chest == 2 && choice <= 2 {
        Reward::Heal
    } else {
        Reward::Nothing
    }
}

/// Whether `n` is `b` with exactly level `k` (0 to 7) raised by `by`.
pub open spec fn raised(b: Buff, n: Buff, k: int, by: int) -> bool {
    &&& n.0 == b.0 + if k == 0 { by } else { 0 }
    &&& n.1 == b.1 + if k == 1 { by } else { 0 }
    &&& n.2 == b.2 + if k == 2 { by } else { 0 }
    &&& n.3 == b.3 + if k == 3 { by } else { 0 }
    &&& n.4 == b.4 + if k == 4 { by } else { 0 }
    &&& n.5 == b.5 + if k == 5 { by } else { 0 }
    &&& n.6 == b.6 + if k == 6 { by } else { 0 }
    &&& n.7 == b.7 + if k == 7 { by } else { 0 }
}

/// The reward table, for every set of levels: the best chest (0) and the
/// big chest (1) alike give two more bullets for the first pick, two more
/// damage for the second and one more fire rate for the third; only the
/// best chest goes on with one more cooldown level and one more resistance
/// level; the small chest (2) heals for each of its three picks; any other
/// pick gives nothing. Healing and nothing leave the levels as they are.
pub proof fn lemma_reward_table(b: Buff, chest: u8, choice: u8)
    requires
        !reward_overflows(b, chest, choice),
    ensures
        ({
            let (n, r) = reward_spec(b, chest, choice);
            &&& (chest == 0 || chest == 1) && choice == 0 ==> r == Reward::Upgrade && raised(b, n, 0, 2)
            &&& (chest == 0 || chest == 1) && choice == 1 ==> r == Reward::Upgrade && raised(b, n, 4, 2)
            &&& (chest == 0 || chest == 1) && choice == 2 ==> r == Reward::Upgrade && raised(b, n, 1, 1)
            &&& chest == 0 && choice == 3 ==> r == Reward::Upgrade && raised(b, n, 6, 1)
            &&& chest == 0 && choice == 4 ==> r == Reward::Upgrade && raised(b, n, 7, 1)
            &&& chest == 1 && choice >= 3 ==> r == Reward::Nothing
            &&& chest == 0 && choice >= 5 ==> r == Reward::Nothing
            &&& chest == 2 && choice <= 2 ==> r == Reward::Heal
            &&& chest == 2 && choice > 2 ==> r == Reward::Nothing
            &&& chest > 2 ==> r == Reward::Nothing
            &&& r != Reward::Upgrade ==> n == b
        }),
{
}

/// Upgrades only ever raise levels: every level after a pick is at least
/// what it was, and the total grows by the size of the upgrade.
pub proof fn lemma_rewards_only_raise(b: Buff, chest: u8, choice: u8)
    requires
        !reward_overflows(b, chest, choice),
    ensures
        ({
            let n = reward_spec(b, chest, choice).0;
            &&& n.0 >= b.0 && n.1 >= b.1 && n.2 >= b.2 && n.3 >= b.3
            &&& n.4 >= b.4 && n.5 >= b.5 && n.6 >= b.6 && n.7 >= b.7
            &&& n.total() >= b.total()
            &&& reward_spec(b, chest, choice).1 == Reward::Upgrade ==> n.total() > b.total()
            &&& reward_spec(b, chest, choice).1 != Reward::Upgrade ==> n == b
        }),
{
}

/// Number of upgrades offered by the best chest, and of rewards offered by
/// the other chests.
pub const BEST_CHEST_OFFERS: u32 = 5;
pub const CHEST_OFFERS: u32 = 3;

/// The different numbers among `draws`, in the order in which each first
/// came up, keeping no more than three.
pub open spec fn distinct_draws(draws: Seq<u32>) -> Seq<u32>
    decreases draws.len(),
{
    if draws.len() == 0 {
        seq![]
    } else {
        let before = distinct_draws(draws.drop_last());
        if before.len() < 3 && !before.contains(draws.last()) {
            before.push(draws.last())
        } else {
            before
        }
    }
}

/// `offers` completed to three by the smallest numbers from `next` on that
/// it does not hold yet (only numbers below 3 are ever needed).
pub open spec fn fill_offers(offers: Seq<u32>, next: nat) -> Seq<u32>
    decreases 3 - next,
{
    if next >= 3 || offers.len() >= 3 {
        offers
    } else if offers.contains(next as u32) {
        fill_offers(offers, next + 1)
    } else {
        fill_offers(offers.push(next as u32), next + 1)
    }
}

/// The three offers that a run of draws gives: the first three different
/// draws in the order they came up, completed by the smallest rewards not
/// drawn where the draws held fewer than three different ones.
pub open spec fn first_distinct(draws: Seq<u32>) -> Seq<u32> {
    fill_offers(distinct_draws(draws), 0)
}

/// The offers of the reward menu for a given run of draws, each draw a
/// reward number below `kinds`: see `first_distinct`. The result is three
/// different rewards below `kinds`.
pub fn offers_from_draws(kinds: u32, draws: &Vec<u32>) -> (offers: Vec<u32>)
    requires
        3 <= kinds,
        forall|i: int| 0 <= i < draws@.len() ==> #[trigger] draws@[i] < kinds,
    ensures
        offers@ == first_distinct(draws@),
        offers@.len() == 3,
        forall|i: int| 0 <= i < 3 ==> #[trigger] offers@[i] < kinds,
        forall|i: int, j: int| 0 <= i < j < 3 ==> offers@[i] != offers@[j],
{
    let mut offers: Vec<u32> = Vec::new();
    let mut k: usize = 0;
    while k < draws.len()
        invariant
            k <= draws@.len(),
            3 <= kinds,
            forall|i: int| 0 <= i < draws@.len() ==> #[trigger] draws@[i] < kinds,
            offers@ == distinct_draws(draws@.take(k as int)),
            offers@.len() <= 3,
            forall|i: int| 0 <= i < offers@.len() ==> #[trigger] offers@[i] < kinds,
            forall|i: int, j: int| 0 <= i < j < offers@.len() ==> offers@[i] != offers@[j],
        decreases draws@.len() - k,
    {
        let n = draws[k];
        assert(draws@.take(k + 1).drop_last() == draws@.take(k as int));
        assert(draws@.take(k + 1).last() == n);
        if offers.len() < 3 && !offered(&offers, n) {
            offers.push(n);
        }
        k = k + 1;
    }
    assert(draws@.take(draws@.len() as int) == draws@);
    let mut v: u32 = 0;
    while v < 3 && offers.len() < 3
        invariant
            v <= 3,
            3 <= kinds,
            offers@.len() <= 3,
            fill_offers(offers@, v as nat) == first_distinct(draws@),
            forall|i: int| 0 <= i < offers@.len() ==> #[trigger] offers@[i] < kinds,
            forall|i: int, j: int| 0 <= i < j < offers@.len() ==> offers@[i] != offers@[j],
            forall|w: u32| w < v ==> offers@.contains(w),
        decreases 3 - v,
    {
        let ghost before = offers@;
        if !offered(&offers, v) {
            offers.push(v);
            assert(offers@[offers@.len() - 1] == v);
        }
        assert(offers@.contains(v));
        assert forall|w: u32| w < v + 1 implies offers@.contains(w) by {
            if w < v {
                assert(before.contains(w));
                let j = choose|j: int| 0 <= j < before.len() && before[j] == w;
                assert(offers@[j] == w);
            }
        }
        v = v + 1;
    }
    proof {
        if offers@.len() < 3 {
            assert forall|w: u32| w < 3 implies offers@.contains(w) by {}
            lemma_three_distinct_below_three(offers@);
        }
    }
    offers
}

/// The reward menu shows three different rewards, drawn at random among
/// `kinds` (5 for the best chest, 3 for the others): draws are repeated
/// until three different ones came up, and `offers_from_draws` turns the
/// draws into the offers. Should the draws ever fail to do so within
/// `u64::MAX` attempts, the smallest unused rewards fill the menu.
pub fn roll_offers(kinds: u32) -> (offers: Vec<u32>)
    requires
        3 <= kinds,
    ensures
        exists|draws: Seq<u32>|
            (forall|i: int| 0 <= i < draws.len() ==> #[trigger] draws[i] < kinds)
                && offers@ == first_distinct(draws),
        offers@.len() == 3,
        forall|i: int| 0 <= i < 3 ==> #[trigger] offers@[i] < kinds,
        forall|i: int, j: int| 0 <= i < j < 3 ==> offers@[i] != offers@[j],
{
    let mut draws: Vec<u32> = Vec::new();
    let mut seen: Vec<u32> = Vec::new();
    let mut attempts: u64 = u64::MAX;
    while seen.len() < 3 && attempts > 0
        invariant
            3 <= kinds,
            forall|i: int| 0 <= i < draws@.len() ==> #[trigger] draws@[i] < kinds,
        decreases attempts,
    {
        attempts = attempts - 1;
        let n = random_in(0, kinds);
        draws.push(n);
        if !offered(&seen, n) {
            seen.push(n);
        }
    }
    let offers = offers_from_draws(kinds, &draws);
    assert(offers@ == first_distinct(draws@));
    offers
}

/// Whether `n` is already among the offers.
fn offered(offers: &Vec<u32>, n: u32) -> (b: bool)
    ensures
        b == offers@.contains(n),
{
    let mut i: usize = 0;
    while i < offers.len()
        invariant
            i <= offers@.len(),
            forall|j: int| 0 <= j < i ==> offers@[j] != n,
        decreases offers@.len() - i,
    {
        if offers[i] == n {
            return true;
        }
        i += 1;
    }
    false
}

proof fn lemma_three_distinct_below_three(s: Seq<u32>)
    requires
        forall|w: u32| w < 3 ==> s.contains(w),
    ensures
        s.len() >= 3,
{
    let i0 = choose|i: int| 0 <= i < s.len() && s[i] == 0u32;
    let i1 = choose|i: int| 0 <= i < s.len() && s[i] == 1u32;
    let i2 = choose|i: int| 0 <= i < s.len() && s[i] == 2u32;
    assert(s.contains(0u32));
    assert(s.contains(1u32));
    assert(s.contains(2u32));
    assert(i0 != i1 && i1 != i2 && i0 != i2);
    if s.len() < 3 {
        assert(0 <= i0 < s.len() && 0 <= i1 < s.len() && 0 <= i2 < s.len());
    }
}

/// The different draws keep the order in which they first came up: the
/// first draw is the first of them, each comes from the draws, none occurs
/// twice, there are at most three, and when fewer than three came up every
/// draw is among them.
pub proof fn lemma_distinct_draws(draws: Seq<u32>)
    ensures
        draws.len() > 0 ==> distinct_draws(draws).len() > 0 && distinct_draws(draws)[0] == draws[0],
        forall|i: int| 0 <= i < distinct_draws(draws).len() ==> draws.contains(#[trigger] distinct_draws(draws)[i]),
        forall|i: int, j: int| 0 <= i < j < distinct_draws(draws).len() ==> distinct_draws(draws)[i] != distinct_draws(draws)[j],
        distinct_draws(draws).len() <= 3,
        distinct_draws(draws).len() < 3 ==> forall|i: int| 0 <= i < draws.len() ==> distinct_draws(draws).contains(#[trigger] draws[i]),
    decreases draws.len(),
{
    if draws.len() > 0 {
        let rest = draws.drop_last();
        lemma_distinct_draws(rest);
        let before = distinct_draws(rest);
        assert forall|i: int| 0 <= i < distinct_draws(draws).len() implies draws.contains(#[trigger] distinct_draws(draws)[i]) by {
            if i < before.len() {
                let k = choose|k: int| 0 <= k < rest.len() && rest[k] == before[i];
                assert(draws[k] == before[i]);
            } else {
                assert(draws[draws.len() - 1] == draws.last());
            }
        }
        if distinct_draws(draws).len() < 3 {
            assert forall|i: int| 0 <= i < draws.len() implies distinct_draws(draws).contains(#[trigger] draws[i]) by {
                if i < rest.len() {
                    assert(rest[i] == draws[i]);
                    let k = choose|k: int| 0 <= k < before.len() && before[k] == rest[i];
                    assert(distinct_draws(draws)[k] == draws[i]);
                } else {
                    if before.contains(draws.last()) {
                        let k = choose|k: int| 0 <= k < before.len() && before[k] == draws.last();
                        assert(distinct_draws(draws)[k] == draws[i]);
                    } else {
                        assert(distinct_draws(draws)[before.len() as int] == draws[i]);
                    }
                }
            }
        }
        if rest.len() == 0 {
            assert(before.len() == 0);
        }
    }
}

/// The reward menu takes the first three different draws: when the draws
/// hold three different rewards, the offers are exactly those, in the
/// order they first came up, starting with the first draw.
pub proof fn lemma_offers_are_the_first_draws(draws: Seq<u32>)
    requires
        distinct_draws(draws).len() == 3,
    ensures
        first_distinct(draws) == distinct_draws(draws),
        first_distinct(draws)[0] == draws[0],
        forall|i: int| 0 <= i < 3 ==> draws.contains(#[trigger] first_distinct(draws)[i]),
{
    lemma_distinct_draws(draws);
    if draws.len() == 0 {
        assert(distinct_draws(draws).len() == 0);
    }
}

} // verus!
