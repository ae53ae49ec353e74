//! The campaign layer: levels, rounds, phases, reward generation and the
//! transitions driven by battle results.

use vstd::prelude::*;
use vstd::string::StringExecFns;

use crate::game::{GameOver, PlayerSlot};
use crate::player::{Player, PlayerElements};
use crate::rng::draw_below;
use crate::rps::{
    default_payout, spec_aspect_description, spec_augmentation_description,
    spec_augmentation_name, spec_name, Aspect, Augmentation, Element, ElementTable, Payout,
};

verus! {

/// The number of completed battles in a campaign, starting at 1.
#[derive(Clone, Copy, Debug, PartialEq, Eq, Structural)]
pub struct Round(pub u16);

impl Default for Round {
    /// A campaign starts in round 1.
    fn default() -> (r: Round)
        ensures
            r.0 == 1,
    {
        Round(1)
    }
}

/// The battle difficulty tier; it fixes how many elements an opponent is
/// granted.
#[derive(Clone, Copy, Debug, PartialEq, Eq, Structural)]
pub enum Level {
    Three,
    Four,
    Five,
    Six,
    Seven,
}

/// The tier after `l`: tiers advance one by one and wrap from the top back
/// to the bottom.
pub open spec fn spec_next_level(l: Level) -> Level {
    match l {
        Level::Three => Level::Four,
        Level::Four => Level::Five,
        Level::Five => Level::Six,
        Level::Six => Level::Seven,
        Level::Seven => Level::Three,
    }
}

/// How many elements an opponent at tier `l` is granted.
pub open spec fn spec_num_elements(l: Level) -> int {
    match l {
        Level::Three => 3,
        Level::Four => 4,
        Level::Five => 5,
        Level::Six => 6,
        Level::Seven => 7,
    }
}

impl Level {
    /// Advances to the next tier; the top tier wraps back to the bottom.
    pub fn increment(&mut self)
        ensures
            *final(self) == spec_next_level(*old(self)),
    {
        *self = match self {
            Level::Three => Level::Four,
            Level::Four => Level::Five,
            Level::Five => Level::Six,
            Level::Six => Level::Seven,
            Level::Seven => Level::Three,
        };
    }

    /// How many elements an opponent at this tier is granted.
    pub fn num_elements(&self) -> (n: usize)
        ensures
            n == spec_num_elements(*self),
            3 <= n <= 7,
    {
        match self {
            Level::Three => 3,
            Level::Four => 4,
            Level::Five => 5,
            Level::Six => 6,
            Level::Seven => 7,
        }
    }
}

impl Default for Level {
    /// A campaign starts at the lowest tier.
    fn default() -> (l: Level)
        ensures
            l == Level::Three,
    {
        Level::Three
    }
}

/// The campaign state machine's phase.
#[derive(Clone, Copy, Debug, PartialEq, Eq, Structural)]
pub enum Phase {
    InGame,
    ProvidingBonus,
    GameOver,
    Victory,
}

impl Default for Phase {
    /// A campaign starts in battle.
    fn default() -> (p: Phase)
        ensures
            p == Phase::InGame,
    {
        Phase::InGame
    }
}

/// The kind of bonus a weight roll selects, before any element is drawn for
/// it.
#[derive(Clone, Copy, Debug, PartialEq, Eq, Structural)]
pub enum BonusKind {
    AttackPlus,
    DefensePlus,
    AugmentArmored,
    AugmentCombo,
    AugmentParry,
    Enchant,
    DoubleDown,
}

/// The fixed weight table on a roll in `[0, 100)`: 45 attack, 15 defense,
/// 5 for each augmentation, 15 enchant, 10 double down.
pub open spec fn spec_kind_of_roll(roll: int) -> BonusKind {
    if roll < 45 {
        BonusKind::AttackPlus
    } else if roll < 60 {
        BonusKind::DefensePlus
    } else if roll < 65 {
        BonusKind::AugmentArmored
    } else if roll < 70 {
        BonusKind::AugmentCombo
    } else if roll < 75 {
        BonusKind::AugmentParry
    } else if roll < 90 {
        BonusKind::Enchant
    } else {
        BonusKind::DoubleDown
    }
}

/// A single offered upgrade.
#[derive(Clone, Copy, Debug, PartialEq, Eq, Structural)]
pub enum Bonus {
    /// The chosen element deals 1 more damage against this enemy element.
    AttackPlus { enemy_element: Element },
    /// The chosen element takes 1 less damage against this enemy element.
    DefensePlus { enemy_element: Element },
    /// Doubles every payout of the chosen element.
    DoubleDown,
    /// Attaches an augmentation to the chosen element.
    Augment(Augmentation),
    /// Attaches an aspect to the chosen element.
    Enchant(Aspect),
}

/// A bonus offered for `element` never enchants it with its own aspect.
pub open spec fn bonus_wf(b: Bonus, element: Element) -> bool {
    match b {
        Bonus::Enchant(aspect) => aspect.0 != element,
        _ => true,
    }
}

impl Bonus {
    /// Maps a weight roll in `[0, 100)` to the kind of bonus it selects.
    pub fn kind_of_roll(roll: usize) -> (k: BonusKind)
        requires
            roll < 100,
        ensures
            k == spec_kind_of_roll(roll as int),
    {
        if roll < 45 {
            BonusKind::AttackPlus
        } else if roll < 60 {
            BonusKind::DefensePlus
        } else if roll < 65 {
            BonusKind::AugmentArmored
        } else if roll < 70 {
            BonusKind::AugmentCombo
        } else if roll < 75 {
            BonusKind::AugmentParry
        } else if roll < 90 {
            BonusKind::Enchant
        } else {
            BonusKind::DoubleDown
        }
    }

    /// Draws a bonus to offer for `bonus_element`: a weight roll picks the
    /// kind, then any element the kind needs is drawn (the aspect for an
    /// enchantment is never the element itself).
    pub fn new_random(bonus_element: Element, rng: &mut rand::rngs::StdRng) -> (b: Bonus)
        ensures
            bonus_wf(b, bonus_element),
    {
        let roll = draw_below(rng, 100);
        match Self::kind_of_roll(roll) {
            BonusKind::AttackPlus => Bonus::AttackPlus { enemy_element: Element::random(rng) },
            BonusKind::DefensePlus => Bonus::DefensePlus { enemy_element: Element::random(rng) },
            BonusKind::AugmentArmored => Bonus::Augment(Augmentation::Armored),
            BonusKind::AugmentCombo => Bonus::Augment(Augmentation::Combo),
            BonusKind::AugmentParry => Bonus::Augment(Augmentation::Parry),
            BonusKind::Enchant => Bonus::Enchant(
                Aspect::new(Element::random_without(rng, bonus_element)),
            ),
            BonusKind::DoubleDown => Bonus::DoubleDown,
        }
    }

    /// Short display name of this bonus.
    pub fn get_readable_name(&self) -> (s: String)
        ensures
            s@ == spec_readable_name(*self),
    {
        match self {
            Bonus::AttackPlus { enemy_element } => {
                let mut s = String::from_str("Attack+ vs. ");
                s.append(enemy_element.name());
                s
            },
            Bonus::DefensePlus { enemy_element } => {
                let mut s = String::from_str("Defense+ vs. ");
                s.append(enemy_element.name());
                s
            },
            Bonus::DoubleDown => String::from_str("Double Down"),
            Bonus::Augment(augmentation) => {
                let mut s = String::from_str("Augmentation: ");
                s.append(augmentation.name());
                s
            },
            Bonus::Enchant(aspect) => {
                let mut s = String::from_str("Enchantment: Aspect of ");
                s.append(aspect.0.name());
                s
            },
        }
    }

    /// What this bonus does when applied to `element`, in words.
    pub fn get_description(&self, element: Element) -> (s: String)
        ensures
            s@ == spec_bonus_description(*self, element),
    {
        match self {
            Bonus::AttackPlus { enemy_element } => {
                let mut s = String::from_str(element.name());
                s.append(" deals 1 additional damage against ");
                s.append(enemy_element.name());
                s
            },
            Bonus::DefensePlus { enemy_element } => {
                let mut s = String::from_str(element.name());
                s.append(" receives 1 less damage (or heals 1 more HP) against ");
                s.append(enemy_element.name());
                s
            },
            Bonus::DoubleDown => {
                let mut s = String::from_str("Doubles all payouts for ");
                s.append(element.name());
                s.append(".");
                s
            },
            Bonus::Augment(augmentation) => augmentation.get_description(element),
            Bonus::Enchant(aspect) => aspect.get_description(element),
        }
    }
}

/// The overflow room `update_game` needs on the entries it touches, when the
/// chosen element is owned.
pub open spec fn update_game_fits(b: Bonus, t: ElementTable, element: Element) -> bool {
    match b {
        Bonus::AttackPlus { enemy_element } => t.payout(element, enemy_element).damage_to_enemy + 1
            <= i32::MAX,
        Bonus::DefensePlus { enemy_element } => i32::MIN <= t.payout(
            element,
            enemy_element,
        ).damage_to_me - 1,
        Bonus::DoubleDown => forall|x: Element|
            {
                &&& i32::MIN <= 2 * (#[trigger] t.payout(element, x)).damage_to_me <= i32::MAX
                &&& i32::MIN <= 2 * t.payout(element, x).damage_to_enemy <= i32::MAX
            },
        Bonus::Augment(_) => true,
        Bonus::Enchant(_) => true,
    }
}

/// What applying bonus `b` for an owned `element` leaves behind: `t0`/`p0`
/// are the table and loadout before, `t1`/`p1` after.
pub open spec fn spec_update_game(
    b: Bonus,
    t0: ElementTable,
    t1: ElementTable,
    p0: PlayerElements,
    p1: PlayerElements,
    element: Element,
) -> bool {
    match b {
        Bonus::AttackPlus { enemy_element } => {
            &&& p1 == p0
            &&& t1.payout(element, enemy_element).damage_to_enemy == t0.payout(
                element,
                enemy_element,
            ).damage_to_enemy + 1
            &&& t1.payout(element, enemy_element).damage_to_me == t0.payout(
                element,
                enemy_element,
            ).damage_to_me
            &&& forall|a: Element, x: Element|
                !(a == element && x == enemy_element) ==> #[trigger] t1.payout(a, x) == t0.payout(
                    a,
                    x,
                )
        },
        Bonus::DefensePlus { enemy_element } => {
            &&& p1 == p0
            &&& t1.payout(element, enemy_element).damage_to_me == t0.payout(
                element,
                enemy_element,
            ).damage_to_me - 1
            &&& t1.payout(element, enemy_element).damage_to_enemy == t0.payout(
                element,
                enemy_element,
            ).damage_to_enemy
            &&& forall|a: Element, x: Element|
                !(a == element && x == enemy_element) ==> #[trigger] t1.payout(a, x) == t0.payout(
                    a,
                    x,
                )
        },
        Bonus::DoubleDown => {
            &&& p1 == p0
            &&& forall|x: Element|
                {
                    &&& (#[trigger] t1.payout(element, x)).damage_to_me == 2 * t0.payout(
                        element,
                        x,
                    ).damage_to_me
                    &&& t1.payout(element, x).damage_to_enemy == 2 * t0.payout(
                        element,
                        x,
                    ).damage_to_enemy
                }
            &&& forall|a: Element, x: Element|
                a != element ==> #[trigger] t1.payout(a, x) == t0.payout(a, x)
        },
        Bonus::Augment(augmentation) => {
            &&& t1 == t0
            &&& p1.augmentation_of(element) == Some(augmentation)
            &&& forall|e: Element|
                e != element ==> #[trigger] p1.augmentation_of(e) == p0.augmentation_of(e)
            &&& forall|e: Element| #[trigger] p1.owns(e) == p0.owns(e)
            &&& forall|e: Element| #[trigger] p1.enchantment_of(e) == p0.enchantment_of(e)
        },
        Bonus::Enchant(aspect) => {
            &&& t1 == t0
            &&& p1.enchantment_of(element) == Some(aspect)
            &&& forall|e: Element|
                e != element ==> #[trigger] p1.enchantment_of(e) == p0.enchantment_of(e)
            &&& forall|e: Element| #[trigger] p1.owns(e) == p0.owns(e)
            &&& forall|e: Element| #[trigger] p1.augmentation_of(e) == p0.augmentation_of(e)
        },
    }
}

impl Bonus {
    /// Applies this bonus for `element_to_upgrade`.  An unowned chosen
    /// element makes the call a silent no-op; otherwise the attack, defense
    /// and double-down variants mutate the table entry rows of the chosen
    /// element, and the augment and enchant variants mutate the loadout.
    pub fn update_game(
        &self,
        table: &mut ElementTable,
        player_elements: &mut PlayerElements,
        element_to_upgrade: Element,
    )
        requires
            old(table).wf(),
            old(player_elements).wf(),
            old(player_elements).owns(element_to_upgrade) ==> update_game_fits(
                *self,
                *old(table),
                element_to_upgrade,
            ),
        ensures
            final(table).wf(),
            final(player_elements).wf(),
            !old(player_elements).owns(element_to_upgrade) ==> *final(table) == *old(table)
                && *final(player_elements) == *old(player_elements),
            old(player_elements).owns(element_to_upgrade) ==> spec_update_game(
                *self,
                *old(table),
                *final(table),
                *old(player_elements),
                *final(player_elements),
                element_to_upgrade,
            ),
    {
        if !player_elements.contains(element_to_upgrade) {
            return;
        }
        match self {
            Bonus::AttackPlus { enemy_element } => {
                table.update(
                    element_to_upgrade,
                    *enemy_element,
                    Payout { damage_to_enemy: 1, damage_to_me: 0 },
                );
            },
            Bonus::DefensePlus { enemy_element } => {
                table.update(
                    element_to_upgrade,
                    *enemy_element,
                    Payout { damage_to_enemy: 0, damage_to_me: -1 },
                );
            },
            Bonus::DoubleDown => {
                let ghost t0 = *table;
                let mut j: usize = 0;
                while j < 7
                    invariant
                        table.wf(),
                        j <= 7,
                        update_game_fits(Bonus::DoubleDown, t0, element_to_upgrade),
                        forall|x: Element|
                            crate::rps::elem_idx(x) < j ==> {
                                &&& (#[trigger] table.payout(element_to_upgrade, x)).damage_to_me
                                    == 2 * t0.payout(element_to_upgrade, x).damage_to_me
                                &&& table.payout(element_to_upgrade, x).damage_to_enemy == 2
                                    * t0.payout(element_to_upgrade, x).damage_to_enemy
                            },
                        forall|x: Element|
                            crate::rps::elem_idx(x) >= j ==> #[trigger] table.payout(
                                element_to_upgrade,
                                x,
                            ) == t0.payout(element_to_upgrade, x),
                        forall|a: Element, x: Element|
                            a != element_to_upgrade ==> #[trigger] table.payout(a, x) == t0.payout(
                                a,
                                x,
                            ),
                    decreases 7 - j,
                {
                    let enemy = Element::from_index(j);
                    table.double(element_to_upgrade, enemy);
                    proof {
                        crate::rps::lemma_elem_idx_distinct();
                    }
                    j = j + 1;
                }
                proof {
                    assert forall|x: Element| crate::rps::elem_idx(x) < 7 implies {
                        &&& (#[trigger] table.payout(element_to_upgrade, x)).damage_to_me == 2
                            * t0.payout(element_to_upgrade, x).damage_to_me
                        &&& table.payout(element_to_upgrade, x).damage_to_enemy == 2 * t0.payout(
                            element_to_upgrade,
                            x,
                        ).damage_to_enemy
                    } by {}
                }
            },
            Bonus::Augment(augmentation) => {
                player_elements.augment(element_to_upgrade, *augmentation);
            },
            Bonus::Enchant(aspect) => {
                player_elements.enchant(element_to_upgrade, *aspect);
            },
        }
    }
}

/// The bundle offered on entering the reward phase: three bonus offers, each
/// paired with the owned element it would apply to, and up to two elements
/// offered as new acquisitions.
#[derive(Clone, Debug)]
pub struct Upgrades {
    pub bonuses: Vec<(Bonus, Element)>,
    pub evolutions: Vec<Element>,
}

impl Upgrades {
    /// Draws the offered bundle against the player's current loadout: three
    /// bonuses, each for a uniformly drawn owned element (repeats allowed),
    /// and up to two distinct not-yet-owned elements as evolutions.
    pub fn new_random(elements: &PlayerElements, rng: &mut rand::rngs::StdRng) -> (u: Upgrades)
        requires
            elements.wf(),
            elements.owned_count() >= 1,
        ensures
            u.bonuses@.len() == 3,
            forall|k: int|
                0 <= k < 3 ==> elements.owns((#[trigger] u.bonuses@[k]).1) && bonus_wf(
                    u.bonuses@[k].0,
                    u.bonuses@[k].1,
                ),
            u.evolutions@.no_duplicates(),
            forall|k: int|
                0 <= k < u.evolutions@.len() ==> !elements.owns(#[trigger] u.evolutions@[k]),
            u.evolutions@.len() == if 7 - elements.owned_count() <= 2 {
                7 - elements.owned_count()
            } else {
                2int
            },
    {
        let owned = elements.owned_elements();
        let bonus_element_1 = Element::random_item(rng, &owned);
        let bonus_element_2 = Element::random_item(rng, &owned);
        let bonus_element_3 = Element::random_item(rng, &owned);
        let mut bonuses: Vec<(Bonus, Element)> = Vec::new();
        bonuses.push((Bonus::new_random(bonus_element_1, rng), bonus_element_1));
        bonuses.push((Bonus::new_random(bonus_element_2, rng), bonus_element_2));
        bonuses.push((Bonus::new_random(bonus_element_3, rng), bonus_element_3));

        let remaining = elements.unowned_elements();
        let evolutions = Element::random_subset(rng, &remaining, 2);
        Upgrades { bonuses, evolutions }
    }
}

/// The meta-progression state: the tier, the round counter, the phase, and
/// the campaign's accumulating payoff table.
#[derive(Clone, Debug)]
pub struct Campaign {
    pub level: Level,
    pub round: Round,
    pub phase: Phase,
    pub table: ElementTable,
}

impl Campaign {
    /// A fresh campaign: lowest tier, round 1, in battle, base table.
    pub fn new() -> (c: Campaign)
        ensures
            c.level == Level::Three,
            c.round.0 == 1,
            c.phase == Phase::InGame,
            c.table.wf(),
            forall|a: Element, b: Element| #[trigger] c.table.payout(a, b) == default_payout(a, b),
    {
        Campaign {
            level: Level::Three,
            round: Round(1),
            phase: Phase::InGame,
            table: ElementTable::default(),
        }
    }

    /// Consumes a battle's terminal signal: a draw or an opponent win ends
    /// the campaign; a player win at the top tier is victory; a player win
    /// below it opens the reward phase and advances the round counter.  The
    /// tracked player fights in slot one.
    pub fn handle_game_over(&mut self, game_over: GameOver)
        requires
            old(self).round.0 < u16::MAX,
        ensures
            final(self).level == old(self).level,
            final(self).table == old(self).table,
            match game_over {
                GameOver::Draw => final(self).phase == Phase::GameOver && final(self).round
                    == old(self).round,
                GameOver::Winner(PlayerSlot::Two) => final(self).phase == Phase::GameOver
                    && final(self).round == old(self).round,
                GameOver::Winner(PlayerSlot::One) => if old(self).level == Level::Seven {
                    final(self).phase == Phase::Victory && final(self).round == old(self).round
                } else {
                    final(self).phase == Phase::ProvidingBonus && final(self).round.0
                        == old(self).round.0 + 1
                },
            },
    {
        match game_over {
            GameOver::Winner(slot) => {
                if matches!(slot, PlayerSlot::One) {
                    if matches!(self.level, Level::Seven) {
                        self.phase = Phase::Victory;
                    } else {
                        self.phase = Phase::ProvidingBonus;
                        self.round = Round(self.round.0 + 1);
                    }
                } else {
                    self.phase = Phase::GameOver;
                }
            },
            GameOver::Draw => {
                self.phase = Phase::GameOver;
            },
        }
    }

    /// On (re-)entering battle: a fresh opponent holding a random set of
    /// elements sized by the tier, with the fixed opponent health and no
    /// modifiers, guess or markers.
    pub fn spawn_opponent(&self, rng: &mut rand::rngs::StdRng) -> (p: Player)
        ensures
            p.wf(),
            p.health.0 == crate::ENEMY_START_HP,
            p.elements.owned_count() == spec_num_elements(self.level),
            p.guess is None,
            !p.combo,
            !p.stagger,
            forall|e: Element|
                #[trigger] p.elements.augmentation_of(e) == Option::<Augmentation>::None,
            forall|e: Element| #[trigger] p.elements.enchantment_of(e) == Option::<Aspect>::None,
    {
        let n = self.level.num_elements();
        let set = Element::random_set(rng, n);
        let elements = PlayerElements::from_set(&set);
        Player {
            health: crate::player::Health::new(crate::ENEMY_START_HP),
            elements,
            guess: None,
            combo: false,
            stagger: false,
        }
    }

    /// Applies the bonus the player picked and returns to battle.  The tier
    /// and round are untouched; the table and loadout change as
    /// [`Bonus::update_game`] says.
    pub fn apply_bonus(
        &mut self,
        player_elements: &mut PlayerElements,
        bonus: &Bonus,
        element: Element,
    )
        requires
            old(self).table.wf(),
            old(player_elements).wf(),
            old(player_elements).owns(element) ==> update_game_fits(
                *bonus,
                old(self).table,
                element,
            ),
        ensures
            final(self).phase == Phase::InGame,
            final(self).level == old(self).level,
            final(self).round == old(self).round,
            final(self).table.wf(),
            final(player_elements).wf(),
            !old(player_elements).owns(element) ==> final(self).table == old(self).table
                && *final(player_elements) == *old(player_elements),
            old(player_elements).owns(element) ==> spec_update_game(
                *bonus,
                old(self).table,
                final(self).table,
                *old(player_elements),
                *final(player_elements),
                element,
            ),
    {
        bonus.update_game(&mut self.table, player_elements, element);
        self.phase = Phase::InGame;
    }

    /// Applies the evolution the player picked: the element joins the
    /// loadout, the tier advances (wrapping at the top), and the campaign
    /// returns to battle.
    pub fn apply_evolution(&mut self, player_elements: &mut PlayerElements, element: Element)
        requires
            old(player_elements).wf(),
        ensures
            final(self).phase == Phase::InGame,
            final(self).level == spec_next_level(old(self).level),
            final(self).round == old(self).round,
            final(self).table == old(self).table,
            final(player_elements).wf(),
            final(player_elements).owns(element),
            forall|e: Element|
                e != element ==> (#[trigger] final(player_elements).owns(e) == old(
                    player_elements,
                ).owns(e)),
            forall|e: Element|
                #[trigger] final(player_elements).augmentation_of(e) == old(
                    player_elements,
                ).augmentation_of(e),
            forall|e: Element|
                #[trigger] final(player_elements).enchantment_of(e) == old(
                    player_elements,
                ).enchantment_of(e),
    {
        player_elements.insert(element);
        self.level.increment();
        self.phase = Phase::InGame;
    }
}

/// Short display name of a bonus.
pub open spec fn spec_readable_name(b: Bonus) -> Seq<char> {
    match b {
        Bonus::AttackPlus { enemy_element } => "Attack+ vs. "@ + spec_name(enemy_element),
        Bonus::DefensePlus { enemy_element } => "Defense+ vs. "@ + spec_name(enemy_element),
        Bonus::DoubleDown => "Double Down"@,
        Bonus::Augment(augmentation) => "Augmentation: "@ + spec_augmentation_name(augmentation),
        Bonus::Enchant(aspect) => "Enchantment: Aspect of "@ + spec_name(aspect.0),
    }
}

/// What a bonus does when applied to `element`, in words.
pub open spec fn spec_bonus_description(b: Bonus, element: Element) -> Seq<char> {
    match b {
        Bonus::AttackPlus { enemy_element } => spec_name(element)
            + " deals 1 additional damage against "@ + spec_name(enemy_element),
        Bonus::DefensePlus { enemy_element } => spec_name(element)
            + " receives 1 less damage (or heals 1 more HP) against "@ + spec_name(enemy_element),
        Bonus::DoubleDown => "Doubles all payouts for "@ + spec_name(element) + "."@,
        Bonus::Augment(augmentation) => spec_augmentation_description(augmentation, element),
        Bonus::Enchant(aspect) => spec_aspect_description(aspect, element),
    }
}

} // verus!
