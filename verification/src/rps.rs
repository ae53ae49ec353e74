//! Elements, payoffs, actions and the round resolver.
//!
//! The seven elements stand in a fixed cyclic order; an element loses to the
//! three elements that follow it in the cycle and beats the three after
//! those.  A mutable [`ElementTable`] stores a [`Payout`] for every ordered
//! pair of elements; [`Outcome::new`] resolves one round of play from two
//! actions, the table and the players' carried-over markers.

use vstd::prelude::*;
use vstd::string::StringExecFns;

use core::cmp::Ordering;

verus! {

/// One of the seven basic moves, arranged in a fixed cyclic dominance order.
#[derive(Clone, Copy, Debug, PartialEq, Eq, Hash, PartialOrd, Ord, Structural)]
pub enum Element {
    Rock,
    Water,
    Air,
    Paper,
    Earth,
    Scissors,
    Fire,
}

/// Position of an element in the canonical cyclic order.
pub open spec fn elem_idx(e: Element) -> int {
    match e {
        Element::Rock => 0,
        Element::Water => 1,
        Element::Air => 2,
        Element::Paper => 3,
        Element::Earth => 4,
        Element::Scissors => 5,
        Element::Fire => 6,
    }
}

/// The element at a given position of the canonical cyclic order.
pub open spec fn elem_of_idx(i: int) -> Element {
    if i == 0 {
        Element::Rock
    } else if i == 1 {
        Element::Water
    } else if i == 2 {
        Element::Air
    } else if i == 3 {
        Element::Paper
    } else if i == 4 {
        Element::Earth
    } else if i == 5 {
        Element::Scissors
    } else {
        Element::Fire
    }
}

/// How `a` fares against `b`: an element draws against itself, loses to the
/// next three elements of the cycle and beats the three after those.
pub open spec fn spec_compare(a: Element, b: Element) -> Ordering {
    let d = (elem_idx(b) - elem_idx(a) + 7) % 7;
    if d == 0 {
        Ordering::Equal
    } else if d <= 3 {
        Ordering::Less
    } else {
        Ordering::Greater
    }
}

/// `a` beats `b` in the base dominance relation.
pub open spec fn beats(a: Element, b: Element) -> bool {
    spec_compare(a, b) == Ordering::Greater
}

impl Element {
    /// Position of this element in the canonical cyclic order.
    pub fn index(self) -> (i: usize)
        ensures
            i == elem_idx(self),
    {
        match self {
            Element::Rock => 0,
            Element::Water => 1,
            Element::Air => 2,
            Element::Paper => 3,
            Element::Earth => 4,
            Element::Scissors => 5,
            Element::Fire => 6,
        }
    }

    /// The element at a given position of the canonical cyclic order.
    pub fn from_index(i: usize) -> (e: Element)
        requires
            i < 7,
        ensures
            e == elem_of_idx(i as int),
            elem_idx(e) == i,
    {
        if i == 0 {
            Element::Rock
        } else if i == 1 {
            Element::Water
        } else if i == 2 {
            Element::Air
        } else if i == 3 {
            Element::Paper
        } else if i == 4 {
            Element::Earth
        } else if i == 5 {
            Element::Scissors
        } else {
            Element::Fire
        }
    }

    /// All seven elements, in canonical order.
    pub fn all() -> (v: Vec<Element>)
        ensures
            v@.len() == 7,
            forall|k: int| 0 <= k < 7 ==> #[trigger] v@[k] == elem_of_idx(k),
    {
        let mut v: Vec<Element> = Vec::new();
        v.push(Element::Rock);
        v.push(Element::Water);
        v.push(Element::Air);
        v.push(Element::Paper);
        v.push(Element::Earth);
        v.push(Element::Scissors);
        v.push(Element::Fire);
        v
    }

    /// How this element fares against `rhs` under the base cyclic rule.
    pub fn naive_compare(self, rhs: Element) -> (r: Ordering)
        ensures
            r == spec_compare(self, rhs),
    {
        let i = self.index();
        let j = rhs.index();
        let d = (j + 7 - i) % 7;
        if d == 0 {
            Ordering::Equal
        } else if d <= 3 {
            Ordering::Less
        } else {
            Ordering::Greater
        }
    }

    /// Display name of this element.
    pub fn name(self) -> (s: &'static str)
        ensures
            s@ == spec_name(self),
    {
        match self {
            Element::Rock => "Rock",
            Element::Water => "Water",
            Element::Air => "Air",
            Element::Paper => "Paper",
            Element::Earth => "Earth",
            Element::Scissors => "Scissors",
            Element::Fire => "Fire",
        }
    }

    /// Lower-case identifier of this element, as used for asset lookup.
    pub fn key(&self) -> (s: String)
        ensures
            s@ == spec_key(*self),
    {
        let k = match self {
            Element::Rock => "rock",
            Element::Water => "water",
            Element::Air => "air",
            Element::Paper => "paper",
            Element::Earth => "earth",
            Element::Scissors => "scissors",
            Element::Fire => "fire",
        };
        String::from_str(k)
    }
}

impl Element {
    /// A uniformly drawn element.
    pub fn random(rng: &mut rand::rngs::StdRng) -> Element {
        let all = Element::all();
        let k = crate::rng::draw_below(rng, 7);
        all[k]
    }

    /// A uniformly drawn element other than `exception`.
    pub fn random_without(rng: &mut rand::rngs::StdRng, exception: Element) -> (e: Element)
        ensures
            e != exception,
    {
        let mut others = Element::all();
        let ghost all = others@;
        let ex_idx = exception.index();
        others.remove(ex_idx);
        proof {
            all.remove_ensures(elem_idx(exception));
        }
        let k = crate::rng::draw_below(rng, others.len());
        let e = others[k];
        proof {
            if k < ex_idx {
                assert(e == all[k as int] && elem_idx(e) == k);
            } else {
                assert(e == all[k + 1] && elem_idx(e) == k + 1);
            }
        }
        e
    }

    /// Up to `amount` distinct elements drawn without replacement from all
    /// seven; fewer only when `amount` exceeds seven.
    pub fn random_set(rng: &mut rand::rngs::StdRng, amount: usize) -> (v: Vec<Element>)
        ensures
            v@.no_duplicates(),
            v@.len() == if amount <= 7 {
                amount as int
            } else {
                7
            },
    {
        let all = Element::all();
        proof {
            assert forall|j: int, k: int| 0 <= j < k < all@.len() implies all@[j] != all@[k] by {
                assert(elem_idx(all@[j]) == j && elem_idx(all@[k]) == k);
            }
        }
        Element::random_subset(rng, &all, amount)
    }

    /// A uniformly drawn item of a non-empty list.
    pub fn random_item(rng: &mut rand::rngs::StdRng, set: &Vec<Element>) -> (e: Element)
        requires
            set@.len() >= 1,
        ensures
            set@.contains(e),
    {
        let k = crate::rng::draw_below(rng, set.len());
        set[k]
    }

    /// Up to `amount` distinct elements drawn without replacement from
    /// `set`; fewer only when `amount` exceeds the size of `set`.
    pub fn random_subset(rng: &mut rand::rngs::StdRng, set: &Vec<Element>, amount: usize) -> (v:
        Vec<Element>)
        requires
            set@.no_duplicates(),
        ensures
            v@.no_duplicates(),
            v@.len() == if amount <= set@.len() {
                amount as int
            } else {
                set@.len() as int
            },
            forall|k: int| 0 <= k < v@.len() ==> set@.contains(#[trigger] v@[k]),
    {
        let mut pool: Vec<Element> = Vec::new();
        let mut i: usize = 0;
        while i < set.len()
            invariant
                i <= set@.len(),
                pool@ == set@.subrange(0, i as int),
            decreases set@.len() - i,
        {
            pool.push(set[i]);
            i = i + 1;
        }
        assert(pool@ == set@);

        let mut out: Vec<Element> = Vec::new();
        while out.len() < amount && pool.len() > 0
            invariant
                pool@.no_duplicates(),
                out@.no_duplicates(),
                out@.len() <= amount,
                out@.len() + pool@.len() == set@.len(),
                forall|k: int| 0 <= k < pool@.len() ==> set@.contains(#[trigger] pool@[k]),
                forall|k: int| 0 <= k < out@.len() ==> set@.contains(#[trigger] out@[k]),
                forall|k: int| 0 <= k < out@.len() ==> !pool@.contains(#[trigger] out@[k]),
            decreases amount - out@.len(),
        {
            let idx = crate::rng::draw_below(rng, pool.len());
            let ghost old_pool = pool@;
            let ghost old_out = out@;
            let picked = pool.remove(idx);
            proof {
                lemma_remove_keeps_distinct(old_pool, idx as int);
            }
            assert(!old_out.contains(picked));
            out.push(picked);
            proof {
                assert forall|k: int| 0 <= k < out@.len() implies !pool@.contains(
                    #[trigger] out@[k],
                ) by {
                    if k < old_out.len() {
                        assert(out@[k] == old_out[k]);
                        assert(forall|m: int|
                            0 <= m < pool@.len() ==> #[trigger] pool@[m] == old_pool.remove(
                                idx as int,
                            )[m]);
                    }
                }
            }
        }
        out
    }
}

/// Removing one position from a duplicate-free sequence keeps it
/// duplicate-free, keeps every remaining value, and drops the removed value.
proof fn lemma_remove_keeps_distinct(s: Seq<Element>, i: int)
    requires
        0 <= i < s.len(),
        s.no_duplicates(),
    ensures
        s.remove(i).no_duplicates(),
        forall|e: Element| s.remove(i).contains(e) ==> s.contains(e),
        !s.remove(i).contains(s[i]),
{
    s.remove_ensures(i);
    assert forall|e: Element| s.remove(i).contains(e) implies s.contains(e) by {
        let k = choose|k: int| 0 <= k < s.remove(i).len() && s.remove(i)[k] == e;
        if k < i {
            assert(s[k] == e);
        } else {
            assert(s[k + 1] == e);
        }
    }
    if s.remove(i).contains(s[i]) {
        let k = choose|k: int| 0 <= k < s.remove(i).len() && s.remove(i)[k] == s[i];
        if k < i {
            assert(s[k] == s[i]);
        } else {
            assert(s[k + 1] == s[i]);
        }
    }
}

/// Display name of an element.
pub open spec fn spec_name(e: Element) -> Seq<char> {
    match e {
        Element::Rock => "Rock"@,
        Element::Water => "Water"@,
        Element::Air => "Air"@,
        Element::Paper => "Paper"@,
        Element::Earth => "Earth"@,
        Element::Scissors => "Scissors"@,
        Element::Fire => "Fire"@,
    }
}

/// Lower-case identifier of an element.
pub open spec fn spec_key(e: Element) -> Seq<char> {
    match e {
        Element::Rock => "rock"@,
        Element::Water => "water"@,
        Element::Air => "air"@,
        Element::Paper => "paper"@,
        Element::Earth => "earth"@,
        Element::Scissors => "scissors"@,
        Element::Fire => "fire"@,
    }
}

/// A player's currently chosen element for the round.
#[derive(Clone, Copy, Debug, PartialEq, Eq, Structural)]
pub struct Guess(pub Element);

impl Guess {
    /// Wraps a chosen element.
    pub fn new(element: Element) -> (g: Guess)
        ensures
            g.0 == element,
    {
        Guess(element)
    }
}

/// The damage pair stored for one ordered pair of elements:
/// how much the owner takes and how much the opponent takes.
#[derive(Clone, Copy, Debug, PartialEq, Eq, Structural)]
pub struct Payout {
    pub damage_to_me: i32,
    pub damage_to_enemy: i32,
}

impl Payout {
    /// The same payout seen from the opponent's side.
    pub fn invert(self) -> (r: Payout)
        ensures
            r.damage_to_me == self.damage_to_enemy,
            r.damage_to_enemy == self.damage_to_me,
    {
        Payout { damage_to_enemy: self.damage_to_me, damage_to_me: self.damage_to_enemy }
    }
}

impl Default for Payout {
    /// The zero payout.
    fn default() -> (r: Payout)
        ensures
            r.damage_to_me == 0,
            r.damage_to_enemy == 0,
    {
        Payout { damage_to_me: 0, damage_to_enemy: 0 }
    }
}

/// A persistent modifier attached to one owned element.
/// Each element may carry at most one augmentation.
#[derive(Clone, Copy, Debug, PartialEq, Eq, Structural)]
pub enum Augmentation {
    /// The owner takes at most 1 damage when losing with this element.
    Armored,
    /// On a mirrored throw, reduce own incoming damage by 1 and stagger the
    /// opponent into repeating their guess.
    Parry,
    /// Carried combo markers double this element's winning damage.
    Combo,
}

impl Augmentation {
    /// Display name of this augmentation.
    pub fn name(self) -> (s: &'static str)
        ensures
            s@ == spec_augmentation_name(self),
    {
        match self {
            Augmentation::Armored => "Armored",
            Augmentation::Parry => "Parry",
            Augmentation::Combo => "Combo",
        }
    }
}

/// Display name of an augmentation.
pub open spec fn spec_augmentation_name(a: Augmentation) -> Seq<char> {
    match a {
        Augmentation::Armored => "Armored"@,
        Augmentation::Parry => "Parry"@,
        Augmentation::Combo => "Combo"@,
    }
}

/// What an augmentation does to the given element, in words.
pub open spec fn spec_augmentation_description(a: Augmentation, element: Element) -> Seq<char> {
    match a {
        Augmentation::Armored => "When "@ + spec_name(element)
            + " takes damage, it takes only 1 damage."@,
        Augmentation::Parry => "When "@ + spec_name(element) + " meets "@ + spec_name(element)
            + ", heal 1. The opponent must repeat "@ + spec_name(element) + " next turn."@,
        Augmentation::Combo => spec_name(element)
            + " gains Combo. Combo provides advantages to chained successful Combo moves. Whenever a Combo move wins a round, the player gains Combo. The next time the player uses a Combo move, if it wins, the damage is doubled. If it loses, the player loses Combo."@,
    }
}

impl Augmentation {
    /// What this augmentation does to the given element, in words.
    pub fn get_description(&self, element: Element) -> (s: String)
        ensures
            s@ == spec_augmentation_description(*self, element),
    {
        match self {
            Augmentation::Armored => {
                let mut s = String::from_str("When ");
                s.append(element.name());
                s.append(" takes damage, it takes only 1 damage.");
                s
            },
            Augmentation::Parry => {
                let mut s = String::from_str("When ");
                s.append(element.name());
                s.append(" meets ");
                s.append(element.name());
                s.append(", heal 1. The opponent must repeat ");
                s.append(element.name());
                s.append(" next turn.");
                s
            },
            Augmentation::Combo => {
                let mut s = String::from_str(element.name());
                s.append(
                    " gains Combo. Combo provides advantages to chained successful Combo moves. Whenever a Combo move wins a round, the player gains Combo. The next time the player uses a Combo move, if it wins, the damage is doubled. If it loses, the player loses Combo.",
                );
                s
            },
        }
    }
}

/// A secondary element attached to a primary one; the enchanted element
/// fights as both at once and the two comparison results are summed.
#[derive(Clone, Copy, Debug, PartialEq, Eq, Structural)]
pub struct Aspect(pub Element);

impl Aspect {
    /// Wraps the aspect's element.
    pub fn new(element: Element) -> (a: Aspect)
        ensures
            a.0 == element,
    {
        Aspect(element)
    }

    /// What enchanting the given element with this aspect does, in words.
    pub fn get_description(&self, element: Element) -> (s: String)
        ensures
            s@ == spec_aspect_description(*self, element),
    {
        let mut s = String::from_str(element.name());
        s.append(" gains the Aspect of ");
        s.append(self.0.name());
        s.append(
            ". All results are computed as the sum of the results of those two elements.",
        );
        s
    }
}

/// What enchanting the given element with an aspect does, in words.
pub open spec fn spec_aspect_description(a: Aspect, element: Element) -> Seq<char> {
    spec_name(element) + " gains the Aspect of "@ + spec_name(a.0)
        + ". All results are computed as the sum of the results of those two elements."@
}

/// Presence-only marker: the player carries a combo advantage into the next
/// round.
#[derive(Clone, Copy, Debug)]
pub struct Combo;

/// Presence-only marker: the player must repeat their previous guess next
/// round.
#[derive(Clone, Copy, Debug)]
pub struct Stagger;

/// A chosen element together with the modifiers snapshotted at throw time.
#[derive(Clone, Copy, Debug, PartialEq, Eq, Structural)]
pub struct Action {
    pub guess: Element,
    pub enchantment: Option<Aspect>,
    pub augmentation: Option<Augmentation>,
}

impl Action {
    /// Builds an action from its parts.
    pub fn new(
        guess: Element,
        enchantment: Option<Aspect>,
        augmentation: Option<Augmentation>,
    ) -> (a: Action)
        ensures
            a.guess == guess,
            a.enchantment == enchantment,
            a.augmentation == augmentation,
    {
        Action { guess, augmentation, enchantment }
    }

    /// The same action with the given augmentation attached.
    pub fn with_augmentation(self, augmentation: Augmentation) -> (a: Action)
        ensures
            a.guess == self.guess,
            a.enchantment == self.enchantment,
            a.augmentation == Some(augmentation),
    {
        Action { augmentation: Some(augmentation), ..self }
    }

    /// The same action with the given aspect attached.
    pub fn with_enchantment(self, aspect: Aspect) -> (a: Action)
        ensures
            a.guess == self.guess,
            a.enchantment == Some(aspect),
            a.augmentation == self.augmentation,
    {
        Action { enchantment: Some(aspect), ..self }
    }
}

impl From<Element> for Action {
    /// A bare action: just the chosen element, no modifiers.
    fn from(element: Element) -> (a: Action)
        ensures
            a == (Action { guess: element, enchantment: None, augmentation: None }),
    {
        Action { guess: element, augmentation: None, enchantment: None }
    }
}

impl vstd::std_specs::convert::FromSpecImpl<Element> for Action {
    open spec fn obeys_from_spec() -> bool {
        true
    }

    open spec fn from_spec(element: Element) -> Action {
        Action { guess: element, enchantment: None, augmentation: None }
    }
}

impl From<Guess> for Action {
    /// A bare action from a wrapped guess.
    fn from(guess: Guess) -> (a: Action)
        ensures
            a == (Action { guess: guess.0, enchantment: None, augmentation: None }),
    {
        Action { guess: guess.0, augmentation: None, enchantment: None }
    }
}

impl vstd::std_specs::convert::FromSpecImpl<Guess> for Action {
    open spec fn obeys_from_spec() -> bool {
        true
    }

    open spec fn from_spec(guess: Guess) -> Action {
        Action { guess: guess.0, enchantment: None, augmentation: None }
    }
}

/// Payouts this large can be summed over a round (up to four lookups, a
/// parry adjustment and a doubling) without leaving `i32`.
pub const PAYOUT_LIMIT: i32 = 0x0400_0000;

/// Both fields of a payout lie within [`PAYOUT_LIMIT`].
pub open spec fn payout_moderate(p: Payout) -> bool {
    &&& -PAYOUT_LIMIT <= p.damage_to_me <= PAYOUT_LIMIT
    &&& -PAYOUT_LIMIT <= p.damage_to_enemy <= PAYOUT_LIMIT
}

/// Index of the ordered pair `(mine, theirs)` in the dense payoff store.
pub open spec fn table_idx(mine: Element, theirs: Element) -> int {
    elem_idx(mine) * 7 + elem_idx(theirs)
}

/// The payout the base table assigns to an ordered pair of elements:
/// win `(0, 1)`, loss `(1, 0)`, draw `(0, 0)`.
pub open spec fn default_payout(a: Element, b: Element) -> Payout {
    if spec_compare(a, b) == Ordering::Greater {
        Payout { damage_to_me: 0, damage_to_enemy: 1 }
    } else if spec_compare(a, b) == Ordering::Less {
        Payout { damage_to_me: 1, damage_to_enemy: 0 }
    } else {
        Payout { damage_to_me: 0, damage_to_enemy: 0 }
    }
}

/// A complete mapping from every ordered pair of elements to a payout.
/// The store is dense: all 49 entries exist for the table's whole lifetime;
/// they are only ever mutated in place.
#[derive(Clone, Debug)]
pub struct ElementTable {
    entries: Vec<Payout>,
}

impl ElementTable {
    /// Density invariant: one entry for each of the 49 ordered pairs.
    pub closed spec fn wf(self) -> bool {
        self.entries@.len() == 49
    }

    /// The payout stored for `(mine, theirs)`.
    pub closed spec fn payout(self, mine: Element, theirs: Element) -> Payout {
        self.entries@[table_idx(mine, theirs)]
    }

    /// All stored payouts small enough that one round's sums and doublings
    /// stay well inside `i32`.
    pub open spec fn moderate(self) -> bool {
        forall|a: Element, b: Element| payout_moderate(#[trigger] self.payout(a, b))
    }

    /// Runtime check of [`ElementTable::moderate`].
    pub fn is_moderate(&self) -> (b: bool)
        requires
            self.wf(),
        ensures
            b == self.moderate(),
    {
        let mut i: usize = 0;
        while i < 7
            invariant
                self.wf(),
                i <= 7,
                forall|a: Element, b: Element|
                    elem_idx(a) < i ==> payout_moderate(#[trigger] self.payout(a, b)),
            decreases 7 - i,
        {
            let me = Element::from_index(i);
            let mut j: usize = 0;
            while j < 7
                invariant
                    self.wf(),
                    i < 7,
                    j <= 7,
                    me == elem_of_idx(i as int),
                    forall|a: Element, b: Element|
                        elem_idx(a) < i ==> payout_moderate(#[trigger] self.payout(a, b)),
                    forall|b: Element|
                        elem_idx(b) < j ==> payout_moderate(#[trigger] self.payout(me, b)),
                decreases 7 - j,
            {
                let them = Element::from_index(j);
                let p = self.evaluate(me, them);
                if !(-PAYOUT_LIMIT <= p.damage_to_me && p.damage_to_me <= PAYOUT_LIMIT
                    && -PAYOUT_LIMIT <= p.damage_to_enemy && p.damage_to_enemy <= PAYOUT_LIMIT) {
                    return false;
                }
                j = j + 1;
            }
            i = i + 1;
        }
        proof {
            assert forall|a: Element, b: Element| payout_moderate(#[trigger] self.payout(a, b)) by {
                assert(elem_idx(a) < 7);
            }
        }
        true
    }

    /// Position of the entry for `(mine, theirs)` in the dense store.
    fn slot(mine: Element, theirs: Element) -> (k: usize)
        ensures
            k == table_idx(mine, theirs),
            k < 49,
    {
        mine.index() * 7 + theirs.index()
    }

    /// Adds `delta_payout` to the entry for the ordered pair, in place.
    pub fn update(&mut self, my_element: Element, enemy_element: Element, delta_payout: Payout)
        requires
            old(self).wf(),
            i32::MIN <= old(self).payout(my_element, enemy_element).damage_to_me
                + delta_payout.damage_to_me <= i32::MAX,
            i32::MIN <= old(self).payout(my_element, enemy_element).damage_to_enemy
                + delta_payout.damage_to_enemy <= i32::MAX,
        ensures
            final(self).wf(),
            final(self).payout(my_element, enemy_element).damage_to_me == old(self).payout(
                my_element,
                enemy_element,
            ).damage_to_me + delta_payout.damage_to_me,
            final(self).payout(my_element, enemy_element).damage_to_enemy == old(self).payout(
                my_element,
                enemy_element,
            ).damage_to_enemy + delta_payout.damage_to_enemy,
            forall|a: Element, b: Element|
                !(a == my_element && b == enemy_element) ==> #[trigger] final(self).payout(a, b)
                    == old(self).payout(a, b),
    {
        let k = Self::slot(my_element, enemy_element);
        let cur = self.entries[k];
        self.entries.set(
            k,
            Payout {
                damage_to_me: cur.damage_to_me + delta_payout.damage_to_me,
                damage_to_enemy: cur.damage_to_enemy + delta_payout.damage_to_enemy,
            },
        );
        proof {
            lemma_table_idx_injective();
        }
    }

    /// Doubles both fields of the entry for the ordered pair, in place.
    pub fn double(&mut self, my_element: Element, enemy_element: Element)
        requires
            old(self).wf(),
            i32::MIN <= 2 * old(self).payout(my_element, enemy_element).damage_to_me <= i32::MAX,
            i32::MIN <= 2 * old(self).payout(my_element, enemy_element).damage_to_enemy
                <= i32::MAX,
        ensures
            final(self).wf(),
            final(self).payout(my_element, enemy_element).damage_to_me == 2 * old(self).payout(
                my_element,
                enemy_element,
            ).damage_to_me,
            final(self).payout(my_element, enemy_element).damage_to_enemy == 2 * old(self).payout(
                my_element,
                enemy_element,
            ).damage_to_enemy,
            forall|a: Element, b: Element|
                !(a == my_element && b == enemy_element) ==> #[trigger] final(self).payout(a, b)
                    == old(self).payout(a, b),
    {
        let k = Self::slot(my_element, enemy_element);
        let cur = self.entries[k];
        self.entries.set(
            k,
            Payout { damage_to_me: 2 * cur.damage_to_me, damage_to_enemy: 2 * cur.damage_to_enemy },
        );
        proof {
            lemma_table_idx_injective();
        }
    }

    /// Pure lookup; never fails thanks to the density invariant.
    pub fn evaluate(&self, me: Element, enemy: Element) -> (r: Payout)
        requires
            self.wf(),
        ensures
            r == self.payout(me, enemy),
    {
        let k = Self::slot(me, enemy);
        self.entries[k]
    }
}

/// Distinct ordered pairs of elements occupy distinct slots of the dense
/// store.
pub proof fn lemma_table_idx_injective()
    ensures
        forall|a1: Element, b1: Element, a2: Element, b2: Element|
            #[trigger] table_idx(a1, b1) == #[trigger] table_idx(a2, b2) ==> a1 == a2 && b1 == b2,
{
    assert forall|a1: Element, b1: Element, a2: Element, b2: Element|
        #[trigger] table_idx(a1, b1) == #[trigger] table_idx(a2, b2) implies a1 == a2 && b1 == b2 by {
        assert(0 <= elem_idx(a1) < 7 && 0 <= elem_idx(b1) < 7);
        assert(0 <= elem_idx(a2) < 7 && 0 <= elem_idx(b2) < 7);
        assert(elem_idx(a1) == elem_idx(a2) && elem_idx(b1) == elem_idx(b2));
        assert(a1 == a2 && b1 == b2) by {
            lemma_elem_idx_injective(a1, a2);
            lemma_elem_idx_injective(b1, b2);
        }
    }
}

/// Two elements with the same canonical index are the same element.
proof fn lemma_elem_idx_injective(a: Element, b: Element)
    requires
        elem_idx(a) == elem_idx(b),
    ensures
        a == b,
{
}

/// Distinct elements have distinct canonical indices.
pub proof fn lemma_elem_idx_distinct()
    ensures
        forall|a: Element, b: Element| a != b ==> elem_idx(a) != elem_idx(b),
{
}

impl Default for ElementTable {
    /// The base dominance table: every pair gets win `(0, 1)`, loss `(1, 0)`
    /// or draw `(0, 0)` according to the cyclic rule.
    fn default() -> (t: ElementTable)
        ensures
            t.wf(),
            forall|a: Element, b: Element| #[trigger] t.payout(a, b) == default_payout(a, b),
    {
        let mut entries: Vec<Payout> = Vec::new();
        let mut i: usize = 0;
        while i < 7
            invariant
                i <= 7,
                entries@.len() == i * 7,
                forall|a: Element, b: Element|
                    elem_idx(a) < i ==> #[trigger] entries@[table_idx(a, b)] == default_payout(
                        a,
                        b,
                    ),
            decreases 7 - i,
        {
            let me = Element::from_index(i);
            let mut j: usize = 0;
            while j < 7
                invariant
                    i < 7,
                    j <= 7,
                    me == elem_of_idx(i as int),
                    entries@.len() == i * 7 + j,
                    forall|a: Element, b: Element|
                        elem_idx(a) < i ==> #[trigger] entries@[table_idx(a, b)] == default_payout(
                            a,
                            b,
                        ),
                    forall|b: Element|
                        elem_idx(b) < j ==> #[trigger] entries@[table_idx(me, b)]
                            == default_payout(me, b),
                decreases 7 - j,
            {
                let them = Element::from_index(j);
                let p = match me.naive_compare(them) {
                    Ordering::Greater => Payout { damage_to_me: 0, damage_to_enemy: 1 },
                    Ordering::Less => Payout { damage_to_me: 1, damage_to_enemy: 0 },
                    Ordering::Equal => Payout { damage_to_me: 0, damage_to_enemy: 0 },
                };
                entries.push(p);
                j = j + 1;
            }
            i = i + 1;
        }
        let t = ElementTable { entries };
        proof {
            assert forall|a: Element, b: Element| #[trigger] t.payout(a, b) == default_payout(a, b)
            by {
                assert(elem_idx(a) < 7);
            }
        }
        t
    }
}

// ---------------------------------------------------------------------------
// Round resolution.
//
// The spec functions below mirror the resolution steps one by one: raw payout
// over the aspect-expanded element lists, the armored clamp, the parry
// adjustment on mirrored throws, stagger assignment, combo eligibility and
// combo doubling.  `Outcome::new` is proved to follow them exactly.
// ---------------------------------------------------------------------------

/// Raw damage to participant 1: the sum, over the Cartesian product of the
/// two aspect-expanded element lists, of the table's `damage_to_me` entries.
pub open spec fn raw_to_p1(t: ElementTable, a1: Action, a2: Action) -> int {
    match (a1.enchantment, a2.enchantment) {
        (None, None) => t.payout(a1.guess, a2.guess).damage_to_me as int,
        (Some(x), None) => t.payout(a1.guess, a2.guess).damage_to_me + t.payout(
            x.0,
            a2.guess,
        ).damage_to_me,
        (None, Some(y)) => t.payout(a1.guess, a2.guess).damage_to_me + t.payout(
            a1.guess,
            y.0,
        ).damage_to_me,
        (Some(x), Some(y)) => t.payout(a1.guess, a2.guess).damage_to_me + t.payout(
            a1.guess,
            y.0,
        ).damage_to_me + t.payout(x.0, a2.guess).damage_to_me + t.payout(x.0, y.0).damage_to_me,
    }
}

/// Raw damage to participant 2, summed the same way over `damage_to_enemy`.
pub open spec fn raw_to_p2(t: ElementTable, a1: Action, a2: Action) -> int {
    match (a1.enchantment, a2.enchantment) {
        (None, None) => t.payout(a1.guess, a2.guess).damage_to_enemy as int,
        (Some(x), None) => t.payout(a1.guess, a2.guess).damage_to_enemy + t.payout(
            x.0,
            a2.guess,
        ).damage_to_enemy,
        (None, Some(y)) => t.payout(a1.guess, a2.guess).damage_to_enemy + t.payout(
            a1.guess,
            y.0,
        ).damage_to_enemy,
        (Some(x), Some(y)) => t.payout(a1.guess, a2.guess).damage_to_enemy + t.payout(
            a1.guess,
            y.0,
        ).damage_to_enemy + t.payout(x.0, a2.guess).damage_to_enemy + t.payout(
            x.0,
            y.0,
        ).damage_to_enemy,
    }
}

/// The armored clamp: with Armored and strictly positive raw incoming
/// damage, incoming damage becomes exactly 1; otherwise it is unchanged.
pub open spec fn armored_clamp(aug: Option<Augmentation>, raw: int) -> int {
    if aug == Some(Augmentation::Armored) && raw >= 1 {
        1
    } else {
        raw
    }
}

/// Damage to participant 1 after their own armored clamp.
pub open spec fn armored_to_p1(t: ElementTable, a1: Action, a2: Action) -> int {
    armored_clamp(a1.augmentation, raw_to_p1(t, a1, a2))
}

/// Damage to participant 2 after their own armored clamp.
pub open spec fn armored_to_p2(t: ElementTable, a1: Action, a2: Action) -> int {
    armored_clamp(a2.augmentation, raw_to_p2(t, a1, a2))
}

/// Both participants chose the same base guess.
pub open spec fn is_mirror_throw(a1: Action, a2: Action) -> bool {
    a1.guess == a2.guess
}

/// Damage to participant 1 after the parry adjustment: on a mirrored throw a
/// participant with Parry takes 1 less (possibly healing); otherwise the
/// armored value stands.
pub open spec fn parry_to_p1(t: ElementTable, a1: Action, a2: Action) -> int {
    if is_mirror_throw(a1, a2) && a1.augmentation == Some(Augmentation::Parry) {
        armored_to_p1(t, a1, a2) - 1
    } else {
        armored_to_p1(t, a1, a2)
    }
}

/// Damage to participant 2 after the parry adjustment.
pub open spec fn parry_to_p2(t: ElementTable, a1: Action, a2: Action) -> int {
    if is_mirror_throw(a1, a2) && a2.augmentation == Some(Augmentation::Parry) {
        armored_to_p2(t, a1, a2) - 1
    } else {
        armored_to_p2(t, a1, a2)
    }
}

/// Participant 1 is staggered for the next round: mirrored throw, the
/// opponent's element has Parry, and participant 1 is not already staggered.
pub open spec fn p1_next_stagger(a1: Action, a2: Action, p1_staggered: bool) -> bool {
    is_mirror_throw(a1, a2) && a2.augmentation == Some(Augmentation::Parry) && !p1_staggered
}

/// Participant 2 is staggered for the next round, symmetrically.
pub open spec fn p2_next_stagger(a1: Action, a2: Action, p2_staggered: bool) -> bool {
    is_mirror_throw(a1, a2) && a1.augmentation == Some(Augmentation::Parry) && !p2_staggered
}

/// Participant 1 is eligible to carry a combo into the next round: they dealt
/// at least as much post-parry damage as they took.
pub open spec fn p1_continues_combo(t: ElementTable, a1: Action, a2: Action) -> bool {
    parry_to_p2(t, a1, a2) >= parry_to_p1(t, a1, a2)
}

/// Participant 2 is eligible to carry a combo into the next round.
pub open spec fn p2_continues_combo(t: ElementTable, a1: Action, a2: Action) -> bool {
    parry_to_p1(t, a1, a2) >= parry_to_p2(t, a1, a2)
}

/// Final damage to participant 1: the post-parry value, doubled when the
/// opponent entered the round holding a combo marker and threw a
/// Combo-augmented element.
pub open spec fn damage_to_p1(t: ElementTable, a1: Action, a2: Action, p2_held_combo: bool) -> int {
    if p2_held_combo && a2.augmentation == Some(Augmentation::Combo) {
        2 * parry_to_p1(t, a1, a2)
    } else {
        parry_to_p1(t, a1, a2)
    }
}

/// Final damage to participant 2, symmetrically.
pub open spec fn damage_to_p2(t: ElementTable, a1: Action, a2: Action, p1_held_combo: bool) -> int {
    if p1_held_combo && a1.augmentation == Some(Augmentation::Combo) {
        2 * parry_to_p2(t, a1, a2)
    } else {
        parry_to_p2(t, a1, a2)
    }
}

// ---------------------------------------------------------------------------
// Laws of the dominance table and of the resolution steps.
// ---------------------------------------------------------------------------

/// How many elements `a` beats in the base relation.
pub open spec fn beats_count(a: Element) -> int {
    (if beats(a, Element::Rock) {
        1int
    } else {
        0int
    }) + (if beats(a, Element::Water) {
        1int
    } else {
        0int
    }) + (if beats(a, Element::Air) {
        1int
    } else {
        0int
    }) + (if beats(a, Element::Paper) {
        1int
    } else {
        0int
    }) + (if beats(a, Element::Earth) {
        1int
    } else {
        0int
    }) + (if beats(a, Element::Scissors) {
        1int
    } else {
        0int
    }) + (if beats(a, Element::Fire) {
        1int
    } else {
        0int
    })
}

/// How many elements `a` loses to in the base relation.
pub open spec fn loses_count(a: Element) -> int {
    (if spec_compare(a, Element::Rock) == Ordering::Less {
        1int
    } else {
        0int
    }) + (if spec_compare(a, Element::Water) == Ordering::Less {
        1int
    } else {
        0int
    }) + (if spec_compare(a, Element::Air) == Ordering::Less {
        1int
    } else {
        0int
    }) + (if spec_compare(a, Element::Paper) == Ordering::Less {
        1int
    } else {
        0int
    }) + (if spec_compare(a, Element::Earth) == Ordering::Less {
        1int
    } else {
        0int
    }) + (if spec_compare(a, Element::Scissors) == Ordering::Less {
        1int
    } else {
        0int
    }) + (if spec_compare(a, Element::Fire) == Ordering::Less {
        1int
    } else {
        0int
    })
}

/// The base table gives every element a zero payout against itself, assigns
/// mirrored payouts to the two orderings of any pair (`a` beats `b` exactly
/// when `b` loses to `a`), and lets every element beat exactly three others
/// and lose to exactly three others.
pub proof fn lemma_default_table_balanced(a: Element, b: Element)
    ensures
        default_payout(a, a) == (Payout { damage_to_me: 0, damage_to_enemy: 0 }),
        default_payout(a, b).damage_to_enemy == default_payout(b, a).damage_to_me,
        default_payout(a, b).damage_to_me == default_payout(b, a).damage_to_enemy,
        beats(a, b) <==> spec_compare(b, a) == Ordering::Less,
        beats_count(a) == 3,
        loses_count(a) == 3,
{
}

/// Doubling one entry twice leaves the same table as a single update that
/// adds three times the entry's original payout: both quadruple it and touch
/// nothing else.  The table arguments are related exactly as the `double` and
/// `update` operations relate their input to their output.
pub proof fn lemma_double_twice_matches_triple_update(
    t0: ElementTable,
    t1: ElementTable,
    t2: ElementTable,
    u1: ElementTable,
    a: Element,
    b: Element,
)
    requires
        t1.payout(a, b).damage_to_me == 2 * t0.payout(a, b).damage_to_me,
        t1.payout(a, b).damage_to_enemy == 2 * t0.payout(a, b).damage_to_enemy,
        forall|x: Element, y: Element|
            !(x == a && y == b) ==> #[trigger] t1.payout(x, y) == t0.payout(x, y),
        t2.payout(a, b).damage_to_me == 2 * t1.payout(a, b).damage_to_me,
        t2.payout(a, b).damage_to_enemy == 2 * t1.payout(a, b).damage_to_enemy,
        forall|x: Element, y: Element|
            !(x == a && y == b) ==> #[trigger] t2.payout(x, y) == t1.payout(x, y),
        u1.payout(a, b).damage_to_me == t0.payout(a, b).damage_to_me + 3 * t0.payout(
            a,
            b,
        ).damage_to_me,
        u1.payout(a, b).damage_to_enemy == t0.payout(a, b).damage_to_enemy + 3 * t0.payout(
            a,
            b,
        ).damage_to_enemy,
        forall|x: Element, y: Element|
            !(x == a && y == b) ==> #[trigger] u1.payout(x, y) == t0.payout(x, y),
    ensures
        forall|x: Element, y: Element| #[trigger] t2.payout(x, y) == u1.payout(x, y),
{
}

/// The armored clamp: raw incoming damage above 1 is clamped to exactly 1
/// when Armored is present; non-positive raw damage is never affected.
pub proof fn lemma_armored_clamp(raw: int)
    ensures
        raw > 1 ==> armored_clamp(Some(Augmentation::Armored), raw) == 1,
        raw <= 0 ==> armored_clamp(Some(Augmentation::Armored), raw) == raw,
        armored_clamp(None, raw) == raw,
{
}

/// Mirror-throw parry: on a mirrored guess where only participant 2 has
/// Parry and neither participant is already staggered, participant 1 is
/// staggered for the next round and participant 2 is not; participant 2's
/// incoming damage drops by exactly 1 from its armored-clamped value, while
/// participant 1's is unchanged by the parry step.
pub proof fn lemma_mirror_parry(t: ElementTable, a1: Action, a2: Action)
    requires
        a1.guess == a2.guess,
        a2.augmentation == Some(Augmentation::Parry),
        a1.augmentation != Some(Augmentation::Parry),
    ensures
        p1_next_stagger(a1, a2, false),
        !p2_next_stagger(a1, a2, false),
        parry_to_p2(t, a1, a2) == armored_to_p2(t, a1, a2) - 1,
        parry_to_p1(t, a1, a2) == armored_to_p1(t, a1, a2),
{
}

/// One participant's share of a resolved round: the damage they take and the
/// markers that apply to them next round.
pub struct PlayerOutcome {
    pub damage: i32,
    pub next_combo: Option<Combo>,
    pub next_stagger: Option<Stagger>,
}

/// The result of resolving one round for both participants.
pub struct Outcome {
    pub p1_action: Action,
    pub p1_outcome: PlayerOutcome,
    pub p2_action: Action,
    pub p2_outcome: PlayerOutcome,
}

impl Outcome {
    /// Resolves one round from the two actions, the table, and each
    /// participant's carried-over combo and stagger markers.
    #[verifier::rlimit(60)]
    pub fn new(
        table: &ElementTable,
        p1_action: Action,
        p1_combo: Option<&Combo>,
        p1_stagger: Option<&Stagger>,
        p2_action: Action,
        p2_combo: Option<&Combo>,
        p2_stagger: Option<&Stagger>,
    ) -> (o: Outcome)
        requires
            table.wf(),
            table.moderate(),
        ensures
            o.p1_action == p1_action,
            o.p2_action == p2_action,
            o.p1_outcome.damage == damage_to_p1(*table, p1_action, p2_action, p2_combo.is_some()),
            o.p2_outcome.damage == damage_to_p2(*table, p1_action, p2_action, p1_combo.is_some()),
            o.p1_outcome.next_combo.is_some() == p1_continues_combo(*table, p1_action, p2_action),
            o.p2_outcome.next_combo.is_some() == p2_continues_combo(*table, p1_action, p2_action),
            o.p1_outcome.next_stagger.is_some() == p1_next_stagger(
                p1_action,
                p2_action,
                p1_stagger.is_some(),
            ),
            o.p2_outcome.next_stagger.is_some() == p2_next_stagger(
                p1_action,
                p2_action,
                p2_stagger.is_some(),
            ),
    {
        // Step 1 and 2: aspect expansion and raw payout over the Cartesian
        // product of the aspect lists.
        let base = table.evaluate(p1_action.guess, p2_action.guess);
        let mut raw_me: i32 = base.damage_to_me;
        let mut raw_enemy: i32 = base.damage_to_enemy;
        if let Some(y) = p2_action.enchantment {
            let p = table.evaluate(p1_action.guess, y.0);
            raw_me = raw_me + p.damage_to_me;
            raw_enemy = raw_enemy + p.damage_to_enemy;
        }
        if let Some(x) = p1_action.enchantment {
            let p = table.evaluate(x.0, p2_action.guess);
            raw_me = raw_me + p.damage_to_me;
            raw_enemy = raw_enemy + p.damage_to_enemy;
            if let Some(y) = p2_action.enchantment {
                let q = table.evaluate(x.0, y.0);
                raw_me = raw_me + q.damage_to_me;
                raw_enemy = raw_enemy + q.damage_to_enemy;
            }
        }

        assert(raw_me == raw_to_p1(*table, p1_action, p2_action));
        assert(raw_enemy == raw_to_p2(*table, p1_action, p2_action));

        // Step 3: each participant's own armored clamp.
        let p1_armored = matches!(p1_action.augmentation, Some(Augmentation::Armored));
        let p2_armored = matches!(p2_action.augmentation, Some(Augmentation::Armored));
        let armored_me: i32 = if p1_armored && raw_me >= 1 {
            1
        } else {
            raw_me
        };
        let armored_enemy: i32 = if p2_armored && raw_enemy >= 1 {
            1
        } else {
            raw_enemy
        };

        assert(armored_me == armored_to_p1(*table, p1_action, p2_action));
        assert(armored_enemy == armored_to_p2(*table, p1_action, p2_action));

        // Step 4: parry adjustment, mirrored throws only.
        let is_parry_throw = p1_action.guess == p2_action.guess;
        let p1_has_parry = matches!(p1_action.augmentation, Some(Augmentation::Parry));
        let p2_has_parry = matches!(p2_action.augmentation, Some(Augmentation::Parry));
        let parry_me: i32 = if is_parry_throw && p1_has_parry {
            armored_me - 1
        } else {
            armored_me
        };
        let parry_enemy: i32 = if is_parry_throw && p2_has_parry {
            armored_enemy - 1
        } else {
            armored_enemy
        };

        assert(parry_me == parry_to_p1(*table, p1_action, p2_action));
        assert(parry_enemy == parry_to_p2(*table, p1_action, p2_action));

        // Step 5: stagger assignment, without re-staggering.
        let p1_new_stagger = is_parry_throw && p2_has_parry && p1_stagger.is_none();
        let p2_new_stagger = is_parry_throw && p1_has_parry && p2_stagger.is_none();

        // Step 6: combo eligibility from the post-parry exchange.
        let p1_continues = parry_enemy >= parry_me;
        let p2_continues = parry_me >= parry_enemy;

        // Step 7: combo doubling from markers carried into this round.
        let p1_has_combo_aug = matches!(p1_action.augmentation, Some(Augmentation::Combo));
        let p2_has_combo_aug = matches!(p2_action.augmentation, Some(Augmentation::Combo));
        let damage_me: i32 = if p2_combo.is_some() && p2_has_combo_aug {
            2 * parry_me
        } else {
            parry_me
        };
        let damage_enemy: i32 = if p1_combo.is_some() && p1_has_combo_aug {
            2 * parry_enemy
        } else {
            parry_enemy
        };

        Outcome {
            p1_action,
            p1_outcome: PlayerOutcome {
                damage: damage_me,
                next_combo: if p1_continues {
                    Some(Combo)
                } else {
                    None
                },
                next_stagger: if p1_new_stagger {
                    Some(Stagger)
                } else {
                    None
                },
            },
            p2_action,
            p2_outcome: PlayerOutcome {
                damage: damage_enemy,
                next_combo: if p2_continues {
                    Some(Combo)
                } else {
                    None
                },
                next_stagger: if p2_new_stagger {
                    Some(Stagger)
                } else {
                    None
                },
            },
        }
    }
}

} // verus!
