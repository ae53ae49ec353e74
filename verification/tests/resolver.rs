use rock_paper_paradise::game::{
    detect_game_over, throw_hands, EnemyHPNode, GameOver, PlayerHPNode, PlayerSlot,
};
use rock_paper_paradise::player::{Health, Player, PlayerElements};
use rock_paper_paradise::rps::{
    Action, Aspect, Augmentation, Combo, Element, ElementTable, Outcome,
};

fn plain(e: Element) -> Action {
    Action::new(e, None, None)
}

#[test]
fn aspect_expansion_sums_both_comparisons() {
    let t = ElementTable::default();
    // Paper beats Rock; the Air aspect also beats Rock: participant 1 takes 2.
    let a1 = plain(Element::Rock);
    let a2 = plain(Element::Paper).with_enchantment(Aspect::new(Element::Air));
    let o = Outcome::new(&t, a1, None, None, a2, None, None);
    assert_eq!(o.p1_outcome.damage, 2);
    assert_eq!(o.p2_outcome.damage, 0);
}

#[test]
fn armored_clamps_large_incoming_damage_to_one() {
    let t = ElementTable::default();
    let a1 = plain(Element::Rock).with_augmentation(Augmentation::Armored);
    let a2 = plain(Element::Paper).with_enchantment(Aspect::new(Element::Air));
    // Raw incoming damage would be 2 (> 1); Armored clamps it to exactly 1.
    let o = Outcome::new(&t, a1, None, None, a2, None, None);
    assert_eq!(o.p1_outcome.damage, 1);
    // Armored never affects damage dealt.
    assert_eq!(o.p2_outcome.damage, 0);
}

#[test]
fn armored_leaves_non_positive_damage_alone() {
    let t = ElementTable::default();
    // Rock beats Scissors: the armored winner takes 0, which stays 0.
    let a1 = plain(Element::Rock).with_augmentation(Augmentation::Armored);
    let a2 = plain(Element::Scissors);
    let o = Outcome::new(&t, a1, None, None, a2, None, None);
    assert_eq!(o.p1_outcome.damage, 0);
    assert_eq!(o.p2_outcome.damage, 1);
}

#[test]
fn mirror_throw_parry_staggers_opponent_and_heals_owner() {
    let t = ElementTable::default();
    // Both throw Rock; only participant 2 has Parry; nobody is staggered.
    let a1 = plain(Element::Rock);
    let a2 = plain(Element::Rock).with_augmentation(Augmentation::Parry);
    let o = Outcome::new(&t, a1, None, None, a2, None, None);
    // Participant 2's incoming damage drops by 1 from its clamped value 0.
    assert_eq!(o.p2_outcome.damage, -1);
    // Participant 1 is unaffected by the reduction.
    assert_eq!(o.p1_outcome.damage, 0);
    // Participant 1 gains a stagger marker; participant 2 does not.
    assert!(o.p1_outcome.next_stagger.is_some());
    assert!(o.p2_outcome.next_stagger.is_none());
}

#[test]
fn parry_does_nothing_off_mirror() {
    let t = ElementTable::default();
    let a1 = plain(Element::Rock);
    let a2 = plain(Element::Paper).with_augmentation(Augmentation::Parry);
    let o = Outcome::new(&t, a1, None, None, a2, None, None);
    assert_eq!(o.p1_outcome.damage, 1);
    assert_eq!(o.p2_outcome.damage, 0);
    assert!(o.p1_outcome.next_stagger.is_none());
    assert!(o.p2_outcome.next_stagger.is_none());
}

#[test]
fn staggered_participant_is_not_restaggered() {
    let t = ElementTable::default();
    let a1 = plain(Element::Rock);
    let a2 = plain(Element::Rock).with_augmentation(Augmentation::Parry);
    let o = Outcome::new(
        &t,
        a1,
        None,
        Some(&rock_paper_paradise::rps::Stagger),
        a2,
        None,
        None,
    );
    assert!(o.p1_outcome.next_stagger.is_none());
}

#[test]
fn combo_doubling_scenario() {
    let t = ElementTable::default();
    // Participant 2 enters holding a combo marker and throws a
    // Combo-augmented Paper against Rock: base damage 1 to participant 1.
    let a1 = plain(Element::Rock);
    let a2 = plain(Element::Paper).with_augmentation(Augmentation::Combo);
    let o = Outcome::new(&t, a1, None, None, a2, Some(&Combo), None);
    // Doubled.
    assert_eq!(o.p1_outcome.damage, 2);
    // Participant 2's next combo is recomputed fresh from this exchange
    // (they broke even or better), not carried over blindly.
    assert!(o.p2_outcome.next_combo.is_some());
    assert!(o.p1_outcome.next_combo.is_none());
}

#[test]
fn combo_augment_without_marker_does_not_double() {
    let t = ElementTable::default();
    let a1 = plain(Element::Rock);
    let a2 = plain(Element::Paper).with_augmentation(Augmentation::Combo);
    let o = Outcome::new(&t, a1, None, None, a2, None, None);
    assert_eq!(o.p1_outcome.damage, 1);
}

#[test]
fn marker_without_combo_augment_does_not_double() {
    let t = ElementTable::default();
    let a1 = plain(Element::Rock);
    let a2 = plain(Element::Paper);
    let o = Outcome::new(&t, a1, None, None, a2, Some(&Combo), None);
    assert_eq!(o.p1_outcome.damage, 1);
}

fn battler(elements: &[Element], guess: Element, hp: u32) -> Player {
    let owned: Vec<Element> = elements.to_vec();
    Player {
        health: Health::new(hp),
        elements: PlayerElements::from_set(&owned),
        guess: Some(rock_paper_paradise::rps::Guess::new(guess)),
        combo: false,
        stagger: false,
    }
}

#[test]
fn throw_hands_applies_damage_and_clears_guesses() {
    let t = ElementTable::default();
    let mut p1 = battler(&[Element::Rock], Element::Rock, 10);
    let mut p2 = battler(&[Element::Paper], Element::Paper, 5);
    let o = throw_hands(&t, &mut p1, &mut p2);
    assert_eq!(o.p1_outcome.damage, 1);
    assert_eq!(p1.health.0, 9);
    assert_eq!(p2.health.0, 5);
    assert!(p1.guess.is_none());
    assert!(p2.guess.is_none());
    // The loser is not combo-eligible; the winner is.
    assert!(!p1.combo);
    assert!(p2.combo);
}

#[test]
fn throw_hands_keeps_guess_of_staggered_player() {
    let t = ElementTable::default();
    let mut p1 = battler(&[Element::Rock], Element::Rock, 10);
    let mut p2 = battler(&[Element::Rock], Element::Rock, 10);
    p2.elements.augment(Element::Rock, Augmentation::Parry);
    let o = throw_hands(&t, &mut p1, &mut p2);
    assert!(o.p1_outcome.next_stagger.is_some());
    // Participant 1 must repeat: the guess survives the round.
    assert_eq!(p1.guess.as_ref().map(|g| g.0), Some(Element::Rock));
    assert!(p2.guess.is_none());
    // Parry healed participant 2 by 1, saturating at the top of the range.
    assert_eq!(p2.health.0, 11);
}

#[test]
fn throw_hands_damage_saturates_at_zero() {
    let t = ElementTable::default();
    let mut p1 = battler(&[Element::Rock], Element::Rock, 1);
    let mut p2 = battler(&[Element::Paper], Element::Paper, 5);
    let mut p2_guess_paper = 0;
    // Two rounds: health hits 0 and stays there.
    for _ in 0..2 {
        p1.guess = Some(rock_paper_paradise::rps::Guess::new(Element::Rock));
        p2.guess = Some(rock_paper_paradise::rps::Guess::new(Element::Paper));
        throw_hands(&t, &mut p1, &mut p2);
        p2_guess_paper += 1;
    }
    assert_eq!(p2_guess_paper, 2);
    assert_eq!(p1.health.0, 0);
}

#[test]
fn health_apply_damage_saturates_both_ways() {
    let mut h = Health::new(3);
    h.apply_damage(5);
    assert_eq!(h.0, 0);
    let mut h2 = Health::new(3);
    h2.apply_damage(-4);
    assert_eq!(h2.0, 7);
    let mut h3 = Health::new(u32::MAX - 1);
    h3.apply_damage(-10);
    assert_eq!(h3.0, u32::MAX);
}

#[test]
fn hp_labels_render_in_decimal() {
    assert_eq!(PlayerHPNode::text(&Health::new(25)), "HP: 25");
    assert_eq!(PlayerHPNode::text(&Health::new(0)), "HP: 0");
    assert_eq!(PlayerHPNode::text(&Health::new(4_294_967_295)), "HP: 4294967295");
    assert_eq!(EnemyHPNode::text(&Health::new(5)), "HP: 5");
    assert_eq!(EnemyHPNode::text(&Health::new(103)), "HP: 103");
}

#[test]
fn game_over_detection() {
    let t = |h1: u32, h2: u32| {
        let p1 = battler(&[Element::Rock], Element::Rock, h1);
        let p2 = battler(&[Element::Rock], Element::Rock, h2);
        detect_game_over(&p1, &p2)
    };
    assert_eq!(t(0, 0), Some(GameOver::Draw));
    assert_eq!(t(0, 3), Some(GameOver::Winner(PlayerSlot::Two)));
    assert_eq!(t(3, 0), Some(GameOver::Winner(PlayerSlot::One)));
    assert_eq!(t(3, 3), None);
}

#[test]
fn set_guess_and_random_guess_pick_owned_elements() {
    let mut p = Player::new();
    assert!(p.guess.is_none());
    p.set_guess(Element::Paper);
    assert_eq!(p.guess.as_ref().map(|g| g.0), Some(Element::Paper));

    let mut rng: rand::rngs::StdRng = rand::SeedableRng::seed_from_u64(9);
    for _ in 0..100 {
        let mut q = Player::new();
        q.make_random_guess(&mut rng);
        let g = q.guess.expect("a guess was drawn").0;
        assert!(matches!(g, Element::Rock | Element::Paper | Element::Scissors));
    }
}

#[test]
fn actions_snapshot_loadout_modifiers() {
    let t = ElementTable::default();
    let mut p1 = battler(&[Element::Rock], Element::Rock, 10);
    p1.elements.enchant(Element::Rock, Aspect::new(Element::Air));
    p1.elements.augment(Element::Rock, Augmentation::Armored);
    let mut p2 = battler(&[Element::Paper], Element::Paper, 10);
    let o = throw_hands(&t, &mut p1, &mut p2);
    assert_eq!(o.p1_action.enchantment, Some(Aspect::new(Element::Air)));
    assert_eq!(o.p1_action.augmentation, Some(Augmentation::Armored));
    assert_eq!(o.p2_action.enchantment, None);
}
