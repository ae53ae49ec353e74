use rock_paper_paradise::campaign::{Bonus, BonusKind};
use rock_paper_paradise::player::PlayerElements;
use rock_paper_paradise::rps::{Aspect, Augmentation, Element};

fn seeded(seed: u64) -> rand::rngs::StdRng {
    rand::SeedableRng::seed_from_u64(seed)
}

const ALL: [Element; 7] = [
    Element::Rock,
    Element::Water,
    Element::Air,
    Element::Paper,
    Element::Earth,
    Element::Scissors,
    Element::Fire,
];

#[test]
fn roll_weights_match_the_specified_percentages() {
    let mut attack = 0;
    let mut defense = 0;
    let mut armored = 0;
    let mut combo = 0;
    let mut parry = 0;
    let mut enchant = 0;
    let mut double_down = 0;
    for roll in 0..100 {
        match Bonus::kind_of_roll(roll) {
            BonusKind::AttackPlus => attack += 1,
            BonusKind::DefensePlus => defense += 1,
            BonusKind::AugmentArmored => armored += 1,
            BonusKind::AugmentCombo => combo += 1,
            BonusKind::AugmentParry => parry += 1,
            BonusKind::Enchant => enchant += 1,
            BonusKind::DoubleDown => double_down += 1,
        }
    }
    assert_eq!(
        (attack, defense, armored, combo, parry, enchant, double_down),
        (45, 15, 5, 5, 5, 15, 10)
    );
}

#[test]
fn random_bonuses_follow_the_weights_on_a_large_sample() {
    // The roll-to-kind mapping is exact (see above); here the drawn bonuses
    // themselves are sampled and must land in the same ballpark.
    let mut rng = seeded(42);
    let mut attack = 0;
    let mut enchant = 0;
    let n = 10_000;
    for _ in 0..n {
        match Bonus::new_random(Element::Rock, &mut rng) {
            Bonus::AttackPlus { .. } => attack += 1,
            Bonus::Enchant(_) => enchant += 1,
            _ => {}
        }
    }
    // 45% and 15% with generous tolerance.
    assert!((4000..5000).contains(&attack), "attack draws: {attack}");
    assert!((1100..1900).contains(&enchant), "enchant draws: {enchant}");
}

#[test]
fn enchant_bonus_never_offers_the_element_its_own_aspect() {
    let mut rng = seeded(7);
    for element in ALL {
        for _ in 0..300 {
            if let Bonus::Enchant(aspect) = Bonus::new_random(element, &mut rng) {
                assert_ne!(aspect.0, element);
            }
        }
    }
}

#[test]
fn random_item_on_singleton_returns_it() {
    let mut rng = seeded(1);
    let set = vec![Element::Earth];
    for _ in 0..10 {
        assert_eq!(Element::random_item(&mut rng, &set), Element::Earth);
    }
}

#[test]
fn random_draws_stay_in_range() {
    let mut rng = seeded(2);
    let set = vec![Element::Rock, Element::Fire, Element::Air];
    for _ in 0..200 {
        let e = Element::random_item(&mut rng, &set);
        assert!(set.contains(&e));
        let w = Element::random_without(&mut rng, Element::Water);
        assert_ne!(w, Element::Water);
    }
}

#[test]
fn random_set_draws_distinct_elements() {
    let mut rng = seeded(3);
    for amount in 0..=7 {
        let v = Element::random_set(&mut rng, amount);
        assert_eq!(v.len(), amount);
        for i in 0..v.len() {
            for j in 0..i {
                assert_ne!(v[i], v[j]);
            }
        }
    }
    // Oversized requests cap at the seven elements.
    assert_eq!(Element::random_set(&mut rng, 12).len(), 7);
}

#[test]
fn random_subset_respects_the_pool() {
    let mut rng = seeded(4);
    let pool = vec![Element::Rock, Element::Water, Element::Paper];
    let v = Element::random_subset(&mut rng, &pool, 2);
    assert_eq!(v.len(), 2);
    assert_ne!(v[0], v[1]);
    for e in &v {
        assert!(pool.contains(e));
    }
    assert_eq!(Element::random_subset(&mut rng, &pool, 9).len(), 3);
}

#[test]
fn readable_names() {
    assert_eq!(
        Bonus::AttackPlus { enemy_element: Element::Fire }.get_readable_name(),
        "Attack+ vs. Fire"
    );
    assert_eq!(
        Bonus::DefensePlus { enemy_element: Element::Air }.get_readable_name(),
        "Defense+ vs. Air"
    );
    assert_eq!(Bonus::DoubleDown.get_readable_name(), "Double Down");
    assert_eq!(
        Bonus::Augment(Augmentation::Parry).get_readable_name(),
        "Augmentation: Parry"
    );
    assert_eq!(
        Bonus::Enchant(Aspect::new(Element::Water)).get_readable_name(),
        "Enchantment: Aspect of Water"
    );
}

#[test]
fn bonus_descriptions() {
    assert_eq!(
        Bonus::AttackPlus { enemy_element: Element::Fire }.get_description(Element::Rock),
        "Rock deals 1 additional damage against Fire"
    );
    assert_eq!(
        Bonus::DefensePlus { enemy_element: Element::Air }.get_description(Element::Paper),
        "Paper receives 1 less damage (or heals 1 more HP) against Air"
    );
    assert_eq!(
        Bonus::DoubleDown.get_description(Element::Earth),
        "Doubles all payouts for Earth."
    );
    assert_eq!(
        Bonus::Augment(Augmentation::Armored).get_description(Element::Rock),
        "When Rock takes damage, it takes only 1 damage."
    );
    assert_eq!(
        Bonus::Augment(Augmentation::Parry).get_description(Element::Fire),
        "When Fire meets Fire, heal 1. The opponent must repeat Fire next turn."
    );
    assert_eq!(
        Bonus::Enchant(Aspect::new(Element::Water)).get_description(Element::Scissors),
        "Scissors gains the Aspect of Water. All results are computed as the sum of the results of those two elements."
    );
}

#[test]
fn loadout_queries_and_ownership() {
    let mut p = PlayerElements::rock_paper_scissors();
    assert!(p.contains(Element::Rock));
    assert!(!p.contains(Element::Fire));
    assert_eq!(p.owned_elements(), vec![Element::Rock, Element::Paper, Element::Scissors]);
    p.insert(Element::Fire);
    p.insert(Element::Fire);
    assert_eq!(p.owned_elements().len(), 4);
    let unowned = p.unowned_elements();
    assert_eq!(unowned, vec![Element::Water, Element::Air, Element::Earth]);
    p.augment(Element::Fire, Augmentation::Armored);
    p.enchant(Element::Fire, Aspect::new(Element::Rock));
    assert_eq!(p.get_augmentation(Element::Fire), Some(Augmentation::Armored));
    assert_eq!(p.get_enchantment(Element::Fire), Some(Aspect::new(Element::Rock)));
    assert_eq!(p.get_enchantment(Element::Water), None);
}
