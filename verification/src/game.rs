//! One battle: resolving a round between two participants and detecting the
//! end of the battle from their health.

use vstd::prelude::*;
use vstd::string::StringExecFns;

use crate::player::{spec_after_damage, Health, Player};
use crate::rps::{
    damage_to_p1, damage_to_p2, p1_continues_combo, p1_next_stagger, p2_continues_combo,
    p2_next_stagger, Action, ElementTable, Outcome,
};

verus! {

/// Which of the two battle participants is meant.
#[derive(Clone, Copy, Debug, PartialEq, Eq, Structural)]
pub enum PlayerSlot {
    One,
    Two,
}

/// The terminal signal of one battle.
#[derive(Clone, Copy, Debug, PartialEq, Eq, Structural)]
pub enum GameOver {
    Winner(PlayerSlot),
    Draw,
}

/// The most recently resolved round, kept for display.
pub struct LastOutcome(pub Outcome);

/// The action a participant throws this round: their current guess plus the
/// modifiers their loadout attaches to it.
pub open spec fn action_of(p: Player) -> Action {
    Action {
        guess: (p.guess->0).0,
        enchantment: p.elements.enchantment_of((p.guess->0).0),
        augmentation: p.elements.augmentation_of((p.guess->0).0),
    }
}

/// Resolves one round between two participants that both have a guess, and
/// applies the outcome: health drops by the resolved damage (saturating at
/// zero), a combo marker is attached where the round earned one (and never
/// removed here), and a staggered participant keeps their guess for the next
/// round while the other's guess is cleared.
pub fn throw_hands(table: &ElementTable, p1: &mut Player, p2: &mut Player) -> (o: Outcome)
    requires
        table.wf(),
        table.moderate(),
        old(p1).wf(),
        old(p2).wf(),
        old(p1).guess is Some,
        old(p2).guess is Some,
    ensures
        o.p1_action == action_of(*old(p1)),
        o.p2_action == action_of(*old(p2)),
        o.p1_outcome.damage == damage_to_p1(
            *table,
            action_of(*old(p1)),
            action_of(*old(p2)),
            old(p2).combo,
        ),
        o.p2_outcome.damage == damage_to_p2(
            *table,
            action_of(*old(p1)),
            action_of(*old(p2)),
            old(p1).combo,
        ),
        final(p1).health.0 == spec_after_damage(old(p1).health.0, o.p1_outcome.damage),
        final(p2).health.0 == spec_after_damage(old(p2).health.0, o.p2_outcome.damage),
        final(p1).combo == (old(p1).combo || p1_continues_combo(
            *table,
            action_of(*old(p1)),
            action_of(*old(p2)),
        )),
        final(p2).combo == (old(p2).combo || p2_continues_combo(
            *table,
            action_of(*old(p1)),
            action_of(*old(p2)),
        )),
        final(p1).guess == if p1_next_stagger(
            action_of(*old(p1)),
            action_of(*old(p2)),
            old(p1).stagger,
        ) {
            old(p1).guess
        } else {
            None
        },
        final(p2).guess == if p2_next_stagger(
            action_of(*old(p1)),
            action_of(*old(p2)),
            old(p2).stagger,
        ) {
            old(p2).guess
        } else {
            None
        },
        final(p1).elements == old(p1).elements,
        final(p2).elements == old(p2).elements,
        final(p1).stagger == old(p1).stagger,
        final(p2).stagger == old(p2).stagger,
        final(p1).wf(),
        final(p2).wf(),
{
    let p1_guess = p1.guess.unwrap().0;
    let p2_guess = p2.guess.unwrap().0;
    let p1_action = Action::new(
        p1_guess,
        p1.elements.get_enchantment(p1_guess),
        p1.elements.get_augmentation(p1_guess),
    );
    let p2_action = Action::new(
        p2_guess,
        p2.elements.get_enchantment(p2_guess),
        p2.elements.get_augmentation(p2_guess),
    );

    let p1_combo = if p1.combo {
        Some(&crate::rps::Combo)
    } else {
        None
    };
    let p2_combo = if p2.combo {
        Some(&crate::rps::Combo)
    } else {
        None
    };
    let p1_stagger = if p1.stagger {
        Some(&crate::rps::Stagger)
    } else {
        None
    };
    let p2_stagger = if p2.stagger {
        Some(&crate::rps::Stagger)
    } else {
        None
    };

    let outcome = Outcome::new(
        table,
        p1_action,
        p1_combo,
        p1_stagger,
        p2_action,
        p2_combo,
        p2_stagger,
    );

    p1.health.apply_damage(outcome.p1_outcome.damage);
    p2.health.apply_damage(outcome.p2_outcome.damage);
    if outcome.p1_outcome.next_combo.is_some() {
        p1.combo = true;
    }
    if outcome.p2_outcome.next_combo.is_some() {
        p2.combo = true;
    }
    if outcome.p1_outcome.next_stagger.is_none() {
        p1.guess = None;
    }
    if outcome.p2_outcome.next_stagger.is_none() {
        p2.guess = None;
    }
    outcome
}

/// The decimal digit characters, as one-character strings.
pub open spec fn spec_digit(d: int) -> Seq<char> {
    if d == 0 {
        "0"@
    } else if d == 1 {
        "1"@
    } else if d == 2 {
        "2"@
    } else if d == 3 {
        "3"@
    } else if d == 4 {
        "4"@
    } else if d == 5 {
        "5"@
    } else if d == 6 {
        "6"@
    } else if d == 7 {
        "7"@
    } else if d == 8 {
        "8"@
    } else {
        "9"@
    }
}

/// The decimal representation of a non-negative number.
pub open spec fn spec_decimal(n: int) -> Seq<char>
    decreases n,
{
    if n < 10 {
        spec_digit(n)
    } else {
        spec_decimal(n / 10) + spec_digit(n % 10)
    }
}

/// One decimal digit as a string.
fn digit_str(d: u32) -> (s: &'static str)
    requires
        d < 10,
    ensures
        s@ == spec_digit(d as int),
{
    match d {
        0 => "0",
        1 => "1",
        2 => "2",
        3 => "3",
        4 => "4",
        5 => "5",
        6 => "6",
        7 => "7",
        8 => "8",
        _ => "9",
    }
}

/// A number rendered in decimal.
fn decimal_text(n: u32) -> (s: String)
    ensures
        s@ == spec_decimal(n as int),
    decreases n,
{
    if n < 10 {
        String::from_str(digit_str(n))
    } else {
        let mut s = decimal_text(n / 10);
        s.append(digit_str(n % 10));
        s
    }
}

/// Display marker for the tracked player's hit points.
pub struct PlayerHPNode;

impl PlayerHPNode {
    /// The hit-point label shown for the player.
    pub fn text(health: &Health) -> (s: String)
        ensures
            s@ == "HP: "@ + spec_decimal(health.0 as int),
    {
        let mut s = String::from_str("HP: ");
        let digits = decimal_text(health.0);
        s.append(digits.as_str());
        s
    }
}

/// Display marker for the opponent's hit points.
pub struct EnemyHPNode;

impl EnemyHPNode {
    /// The hit-point label shown for the opponent.
    pub fn text(health: &Health) -> (s: String)
        ensures
            s@ == "HP: "@ + spec_decimal(health.0 as int),
    {
        let mut s = String::from_str("HP: ");
        let digits = decimal_text(health.0);
        s.append(digits.as_str());
        s
    }
}

/// The battle-over rule on a pair of health values: both at zero is a draw,
/// one at zero hands the win to the other side, otherwise the battle goes
/// on.
pub open spec fn spec_detect_game_over(h1: u32, h2: u32) -> Option<GameOver> {
    if h1 == 0 && h2 == 0 {
        Some(GameOver::Draw)
    } else if h1 == 0 {
        Some(GameOver::Winner(PlayerSlot::Two))
    } else if h2 == 0 {
        Some(GameOver::Winner(PlayerSlot::One))
    } else {
        None
    }
}

/// Inspects both participants' health and raises the terminal signal, if
/// any.
pub fn detect_game_over(p1: &Player, p2: &Player) -> (r: Option<GameOver>)
    ensures
        r == spec_detect_game_over(p1.health.0, p2.health.0),
{
    if p1.health.0 == 0 && p2.health.0 == 0 {
        Some(GameOver::Draw)
    } else if p1.health.0 == 0 {
        Some(GameOver::Winner(PlayerSlot::Two))
    } else if p2.health.0 == 0 {
        Some(GameOver::Winner(PlayerSlot::One))
    } else {
        None
    }
}

} // verus!
