//! Players: health, owned elements and their per-element modifiers.

use vstd::prelude::*;

use crate::rps::{elem_idx, Aspect, Augmentation, Element, Guess};

verus! {

/// A hit-point counter.  Damage saturates at zero; healing saturates at the
/// top of the range.
#[derive(Clone, Copy, Debug, PartialEq, Eq, Structural)]
pub struct Health(pub u32);

/// The hit points left after taking `damage` (negative damage heals),
/// saturating at both ends of the `u32` range.
pub open spec fn spec_after_damage(hp: u32, damage: i32) -> int {
    if hp - damage < 0 {
        0
    } else if hp - damage > u32::MAX {
        u32::MAX as int
    } else {
        hp - damage
    }
}

impl Health {
    /// A counter starting at `hp`.
    pub fn new(hp: u32) -> (h: Health)
        ensures
            h.0 == hp,
    {
        Health(hp)
    }

    /// Subtracts `damage` (negative damage heals), saturating at both ends.
    pub fn apply_damage(&mut self, damage: i32)
        ensures
            final(self).0 == spec_after_damage(old(self).0, damage),
    {
        if damage >= 0 {
            let d = damage as u32;
            if d >= self.0 {
                self.0 = 0;
            } else {
                self.0 = self.0 - d;
            }
        } else {
            let heal = (-(damage as i64)) as u64;
            let sum = self.0 as u64 + heal;
            if sum > u32::MAX as u64 {
                self.0 = u32::MAX;
            } else {
                self.0 = sum as u32;
            }
        }
    }
}

/// How many of the first `i` entries of a boolean sequence are true.
pub open spec fn count_true(s: Seq<bool>, i: int) -> int
    decreases i,
{
    if i <= 0 {
        0
    } else {
        count_true(s, i - 1) + if s[i - 1] {
            1int
        } else {
            0int
        }
    }
}

/// How updating one slot changes the count of true entries.
proof fn lemma_count_true_update(s: Seq<bool>, k: int, v: bool, i: int)
    requires
        0 <= k < s.len(),
        i <= s.len(),
    ensures
        count_true(s.update(k, v), i) == count_true(s, i) + if k < i {
            (if v {
                1int
            } else {
                0int
            }) - (if s[k] {
                1int
            } else {
                0int
            })
        } else {
            0int
        },
    decreases i,
{
    if i > 0 {
        lemma_count_true_update(s, k, v, i - 1);
    }
}

/// A sequence with no true entry below `i` counts zero.
proof fn lemma_count_true_all_false(s: Seq<bool>, i: int)
    requires
        forall|k: int| 0 <= k < i ==> !(#[trigger] s[k]),
    ensures
        count_true(s, i) == 0,
    decreases i,
{
    if i > 0 {
        lemma_count_true_all_false(s, i - 1);
    }
}

/// The modifiers one owned element carries: at most one augmentation and at
/// most one aspect.
#[derive(Clone, Copy, Debug, PartialEq, Eq, Structural)]
pub struct ElementUpgrades {
    pub augmentation: Option<Augmentation>,
    pub aspect: Option<Aspect>,
}

impl ElementUpgrades {
    /// Builds the pair of modifiers.
    pub fn new(augmentation: Option<Augmentation>, aspect: Option<Aspect>) -> (u: ElementUpgrades)
        ensures
            u.augmentation == augmentation,
            u.aspect == aspect,
    {
        ElementUpgrades { augmentation, aspect }
    }
}

/// A player's loadout: which elements they own, and for each owned element
/// at most one augmentation and at most one aspect.  Only an owned element
/// may carry a modifier.
#[derive(Clone, Debug)]
pub struct PlayerElements {
    /// For each canonical element index, whether that element is owned.
    elements: Vec<bool>,
    /// For each canonical element index, the augmentation, if any.
    augmentations: Vec<Option<Augmentation>>,
    /// For each canonical element index, the aspect, if any.
    enchantments: Vec<Option<Aspect>>,
}

impl PlayerElements {
    /// Shape and ownership invariant: one slot per element, and modifiers
    /// only on owned elements.
    pub closed spec fn wf(self) -> bool {
        &&& self.elements@.len() == 7
        &&& self.augmentations@.len() == 7
        &&& self.enchantments@.len() == 7
        &&& forall|i: int|
            0 <= i < 7 && (#[trigger] self.augmentations@[i]).is_some() ==> self.elements@[i]
        &&& forall|i: int|
            0 <= i < 7 && (#[trigger] self.enchantments@[i]).is_some() ==> self.elements@[i]
    }

    /// Whether `e` is owned.
    pub closed spec fn owns(self, e: Element) -> bool {
        self.elements@[elem_idx(e)]
    }

    /// The augmentation attached to `e`, if any.
    pub closed spec fn augmentation_of(self, e: Element) -> Option<Augmentation> {
        self.augmentations@[elem_idx(e)]
    }

    /// The aspect attached to `e`, if any.
    pub closed spec fn enchantment_of(self, e: Element) -> Option<Aspect> {
        self.enchantments@[elem_idx(e)]
    }

    /// How many elements are owned, counting the slots below `i`.
    pub closed spec fn owned_below(self, i: int) -> int {
        count_true(self.elements@, i)
    }

    /// How many elements are owned.
    pub open spec fn owned_count(self) -> int {
        self.owned_below(7)
    }

    /// An empty loadout: nothing owned, no modifiers.
    fn empty() -> (p: PlayerElements)
        ensures
            p.wf(),
            forall|e: Element| !(#[trigger] p.owns(e)),
            forall|e: Element| #[trigger] p.augmentation_of(e) == Option::<Augmentation>::None,
            forall|e: Element| #[trigger] p.enchantment_of(e) == Option::<Aspect>::None,
            p.owned_count() == 0,
    {
        let mut elements: Vec<bool> = Vec::new();
        let mut augmentations: Vec<Option<Augmentation>> = Vec::new();
        let mut enchantments: Vec<Option<Aspect>> = Vec::new();
        let mut i: usize = 0;
        while i < 7
            invariant
                i <= 7,
                elements@.len() == i,
                augmentations@.len() == i,
                enchantments@.len() == i,
                forall|k: int| 0 <= k < i ==> !(#[trigger] elements@[k]),
                forall|k: int|
                    0 <= k < i ==> #[trigger] augmentations@[k] == Option::<Augmentation>::None,
                forall|k: int|
                    0 <= k < i ==> #[trigger] enchantments@[k] == Option::<Aspect>::None,
            decreases 7 - i,
        {
            elements.push(false);
            augmentations.push(None);
            enchantments.push(None);
            i = i + 1;
        }
        let p = PlayerElements { elements, augmentations, enchantments };
        proof {
            lemma_count_true_all_false(p.elements@, 7);
        }
        p
    }

    /// A loadout owning exactly the given elements, with no modifiers.
    pub fn from_set(elements: &Vec<Element>) -> (p: PlayerElements)
        ensures
            p.wf(),
            forall|e: Element| #[trigger] p.owns(e) <==> elements@.contains(e),
            forall|e: Element| #[trigger] p.augmentation_of(e) == Option::<Augmentation>::None,
            forall|e: Element| #[trigger] p.enchantment_of(e) == Option::<Aspect>::None,
            elements@.no_duplicates() ==> p.owned_count() == elements@.len(),
    {
        let mut p = PlayerElements::empty();
        let mut i: usize = 0;
        while i < elements.len()
            invariant
                i <= elements@.len(),
                p.wf(),
                forall|e: Element|
                    #[trigger] p.owns(e) <==> elements@.subrange(0, i as int).contains(e),
                forall|e: Element| #[trigger] p.augmentation_of(e) == Option::<Augmentation>::None,
                forall|e: Element| #[trigger] p.enchantment_of(e) == Option::<Aspect>::None,
                elements@.no_duplicates() ==> p.owned_count() == i,
            decreases elements@.len() - i,
        {
            proof {
                if elements@.no_duplicates() && elements@.subrange(0, i as int).contains(
                    elements@[i as int],
                ) {
                    let k = choose|k: int|
                        0 <= k < i && elements@.subrange(0, i as int)[k] == elements@[i as int];
                    assert(elements@[k] == elements@[i as int]);
                }
            }
            p.insert(elements[i]);
            proof {
                let sub_new = elements@.subrange(0, i + 1);
                let sub_old = elements@.subrange(0, i as int);
                assert(sub_new.drop_last() =~= sub_old);
                assert forall|e: Element| #[trigger] p.owns(e) <==> sub_new.contains(e) by {
                    if p.owns(e) {
                        if e == elements@[i as int] {
                            assert(sub_new[i as int] == e);
                        } else {
                            assert(sub_old.contains(e));
                            let k = choose|k: int|
                                0 <= k < sub_old.len() && sub_old[k] == e;
                            assert(sub_new[k] == e);
                        }
                    }
                    if sub_new.contains(e) {
                        let k = choose|k: int| 0 <= k < sub_new.len() && sub_new[k] == e;
                        if k < i {
                            assert(sub_old[k] == e);
                        }
                    }
                }
            }
            i = i + 1;
        }
        proof {
            assert(elements@.subrange(0, elements@.len() as int) =~= elements@);
        }
        p
    }

    /// The human player's starting loadout: the classic three elements with
    /// no modifiers.
    pub fn rock_paper_scissors() -> (p: PlayerElements)
        ensures
            p.wf(),
            forall|e: Element|
                #[trigger] p.owns(e) <==> (e == Element::Rock || e == Element::Paper || e
                    == Element::Scissors),
            forall|e: Element| #[trigger] p.augmentation_of(e) == Option::<Augmentation>::None,
            forall|e: Element| #[trigger] p.enchantment_of(e) == Option::<Aspect>::None,
    {
        let mut base: Vec<Element> = Vec::new();
        base.push(Element::Rock);
        base.push(Element::Paper);
        base.push(Element::Scissors);
        let p = PlayerElements::from_set(&base);
        proof {
            assert forall|e: Element|
                base@.contains(e) <==> (e == Element::Rock || e == Element::Paper || e
                    == Element::Scissors) by {
                if e == Element::Rock {
                    assert(base@[0] == e);
                }
                if e == Element::Paper {
                    assert(base@[1] == e);
                }
                if e == Element::Scissors {
                    assert(base@[2] == e);
                }
            }
        }
        p
    }

    /// Adds `element` to the owned set; owning it already changes nothing.
    pub fn insert(&mut self, element: Element)
        requires
            old(self).wf(),
        ensures
            final(self).wf(),
            final(self).owns(element),
            forall|e: Element|
                e != element ==> (#[trigger] final(self).owns(e) == old(self).owns(e)),
            forall|e: Element|
                #[trigger] final(self).augmentation_of(e) == old(self).augmentation_of(e),
            forall|e: Element|
                #[trigger] final(self).enchantment_of(e) == old(self).enchantment_of(e),
            final(self).owned_count() == old(self).owned_count() + if old(self).owns(element) {
                0int
            } else {
                1int
            },
    {
        let i = element.index();
        let ghost before = self.elements@;
        self.elements.set(i, true);
        proof {
            crate::rps::lemma_elem_idx_distinct();
            lemma_count_true_update(before, i as int, true, 7);
        }
    }

    /// Attaches `augmentation` to an owned `element`, replacing any prior
    /// augmentation on it.
    pub fn augment(&mut self, element: Element, augmentation: Augmentation)
        requires
            old(self).wf(),
            old(self).owns(element),
        ensures
            final(self).wf(),
            final(self).augmentation_of(element) == Some(augmentation),
            forall|e: Element|
                e != element ==> #[trigger] final(self).augmentation_of(e) == old(
                    self,
                ).augmentation_of(e),
            forall|e: Element| #[trigger] final(self).owns(e) == old(self).owns(e),
            forall|e: Element|
                #[trigger] final(self).enchantment_of(e) == old(self).enchantment_of(e),
    {
        let i = element.index();
        self.augmentations.set(i, Some(augmentation));
        proof {
            crate::rps::lemma_elem_idx_distinct();
        }
    }

    /// Attaches `aspect` to an owned `element`, replacing any prior aspect
    /// on it.
    pub fn enchant(&mut self, element: Element, aspect: Aspect)
        requires
            old(self).wf(),
            old(self).owns(element),
        ensures
            final(self).wf(),
            final(self).enchantment_of(element) == Some(aspect),
            forall|e: Element|
                e != element ==> #[trigger] final(self).enchantment_of(e) == old(
                    self,
                ).enchantment_of(e),
            forall|e: Element| #[trigger] final(self).owns(e) == old(self).owns(e),
            forall|e: Element|
                #[trigger] final(self).augmentation_of(e) == old(self).augmentation_of(e),
    {
        let i = element.index();
        self.enchantments.set(i, Some(aspect));
        proof {
            crate::rps::lemma_elem_idx_distinct();
        }
    }

    /// The aspect attached to `element`, if any.  An unowned element never
    /// carries one, so the query is safe on any element.
    pub fn get_enchantment(&self, element: Element) -> (r: Option<Aspect>)
        requires
            self.wf(),
        ensures
            r == self.enchantment_of(element),
            r.is_some() ==> self.owns(element),
    {
        let i = element.index();
        self.enchantments[i]
    }

    /// The augmentation attached to `element`, if any.  An unowned element
    /// never carries one, so the query is safe on any element.
    pub fn get_augmentation(&self, element: Element) -> (r: Option<Augmentation>)
        requires
            self.wf(),
        ensures
            r == self.augmentation_of(element),
            r.is_some() ==> self.owns(element),
    {
        let i = element.index();
        self.augmentations[i]
    }

    /// Whether `element` is owned.
    pub fn contains(&self, element: Element) -> (b: bool)
        requires
            self.wf(),
        ensures
            b == self.owns(element),
    {
        let i = element.index();
        self.elements[i]
    }

    /// The owned elements, in canonical order.
    pub fn owned_elements(&self) -> (v: Vec<Element>)
        requires
            self.wf(),
        ensures
            v@.no_duplicates(),
            forall|e: Element| v@.contains(e) <==> #[trigger] self.owns(e),
            v@.len() == self.owned_count(),
    {
        let mut v: Vec<Element> = Vec::new();
        let mut i: usize = 0;
        while i < 7
            invariant
                self.wf(),
                i <= 7,
                v@.len() == self.owned_below(i as int),
                forall|k: int|
                    0 <= k < v@.len() ==> elem_idx(#[trigger] v@[k]) < i && self.owns(v@[k]),
                forall|e: Element| elem_idx(e) < i && self.owns(e) ==> v@.contains(e),
                forall|j: int, k: int| 0 <= j < k < v@.len() ==> elem_idx(v@[j]) < elem_idx(v@[k]),
            decreases 7 - i,
        {
            let e = crate::rps::Element::from_index(i);
            if self.contains(e) {
                let ghost before = v@;
                v.push(e);
                proof {
                    assert forall|x: Element| elem_idx(x) < i + 1 && self.owns(x) implies v@
                        .contains(x) by {
                        if elem_idx(x) < i {
                            let k = choose|k: int| 0 <= k < before.len() && before[k] == x;
                            assert(v@[k] == x);
                        } else {
                            crate::rps::lemma_elem_idx_distinct();
                            assert(v@[v@.len() - 1] == x);
                        }
                    }
                }
            }
            i = i + 1;
        }
        proof {
            assert forall|e: Element| v@.contains(e) implies self.owns(e) by {}
            assert forall|e: Element| self.owns(e) implies v@.contains(e) by {
                assert(elem_idx(e) < 7);
            }
            assert forall|j: int, k: int| 0 <= j < k < v@.len() implies v@[j] != v@[k] by {}
        }
        v
    }

    /// The elements not yet owned, in canonical order.
    pub fn unowned_elements(&self) -> (v: Vec<Element>)
        requires
            self.wf(),
        ensures
            v@.no_duplicates(),
            forall|e: Element| v@.contains(e) <==> !(#[trigger] self.owns(e)),
            v@.len() == 7 - self.owned_count(),
    {
        let mut v: Vec<Element> = Vec::new();
        let mut i: usize = 0;
        while i < 7
            invariant
                self.wf(),
                i <= 7,
                v@.len() == i - self.owned_below(i as int),
                forall|k: int|
                    0 <= k < v@.len() ==> elem_idx(#[trigger] v@[k]) < i && !self.owns(v@[k]),
                forall|e: Element| elem_idx(e) < i && !self.owns(e) ==> v@.contains(e),
                forall|j: int, k: int| 0 <= j < k < v@.len() ==> elem_idx(v@[j]) < elem_idx(v@[k]),
            decreases 7 - i,
        {
            let e = crate::rps::Element::from_index(i);
            if !self.contains(e) {
                let ghost before = v@;
                v.push(e);
                proof {
                    assert forall|x: Element| elem_idx(x) < i + 1 && !self.owns(x) implies v@
                        .contains(x) by {
                        if elem_idx(x) < i {
                            let k = choose|k: int| 0 <= k < before.len() && before[k] == x;
                            assert(v@[k] == x);
                        } else {
                            crate::rps::lemma_elem_idx_distinct();
                            assert(v@[v@.len() - 1] == x);
                        }
                    }
                }
            }
            i = i + 1;
        }
        proof {
            assert forall|e: Element| v@.contains(e) implies !self.owns(e) by {}
            assert forall|e: Element| !self.owns(e) implies v@.contains(e) by {
                assert(elem_idx(e) < 7);
            }
            assert forall|j: int, k: int| 0 <= j < k < v@.len() implies v@[j] != v@[k] by {}
        }
        v
    }
}

/// A battle participant: health, loadout, the current guess if one has been
/// made, and the carried-over combo and stagger markers.
#[derive(Clone, Debug)]
pub struct Player {
    pub health: Health,
    pub elements: PlayerElements,
    pub guess: Option<Guess>,
    pub combo: bool,
    pub stagger: bool,
}

impl Player {
    /// A participant's state is valid when its loadout is.
    pub open spec fn wf(self) -> bool {
        self.elements.wf()
    }

    /// Accepts a chosen element for this round.  A guess is accepted at most
    /// once per round: a pending one must first be consumed by resolution.
    pub fn set_guess(&mut self, element: Element)
        requires
            old(self).guess is None,
        ensures
            final(self).guess == Some(Guess(element)),
            final(self).health == old(self).health,
            final(self).elements == old(self).elements,
            final(self).combo == old(self).combo,
            final(self).stagger == old(self).stagger,
    {
        self.guess = Some(Guess::new(element));
    }

    /// Draws a guess uniformly from the owned elements, as an opponent
    /// without a current guess does each round.
    pub fn make_random_guess(&mut self, rng: &mut rand::rngs::StdRng)
        requires
            old(self).wf(),
            old(self).elements.owned_count() >= 1,
        ensures
            final(self).guess is Some,
            final(self).elements.owns((final(self).guess->0).0),
            final(self).health == old(self).health,
            final(self).elements == old(self).elements,
            final(self).combo == old(self).combo,
            final(self).stagger == old(self).stagger,
    {
        let owned = self.elements.owned_elements();
        let e = Element::random_item(rng, &owned);
        self.guess = Some(Guess::new(e));
    }

    /// The human player's starting state: full health, the classic three
    /// elements, no guess and no markers.
    pub fn new() -> (p: Player)
        ensures
            p.wf(),
            p.health.0 == crate::PLAYER_START_HP,
            forall|e: Element|
                #[trigger] p.elements.owns(e) <==> (e == Element::Rock || e == Element::Paper || e
                    == Element::Scissors),
            p.guess is None,
            !p.combo,
            !p.stagger,
    {
        Player {
            health: Health::new(crate::PLAYER_START_HP),
            elements: PlayerElements::rock_paper_scissors(),
            guess: None,
            combo: false,
            stagger: false,
        }
    }
}

} // verus!
