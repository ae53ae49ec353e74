use rock_paper_paradise::rps::{Element, ElementTable, Payout};

use std::cmp::Ordering;

const ALL: [Element; 7] = [
    Element::Rock,
    Element::Water,
    Element::Air,
    Element::Paper,
    Element::Earth,
    Element::Scissors,
    Element::Fire,
];

#[test]
fn default_table_has_zero_diagonal() {
    let t = ElementTable::default();
    for a in ALL {
        let p = t.evaluate(a, a);
        assert_eq!(p.damage_to_me, 0);
        assert_eq!(p.damage_to_enemy, 0);
    }
}

#[test]
fn default_table_win_loss_values() {
    let t = ElementTable::default();
    // Rock beats Earth, Scissors and Fire; loses to Water, Air and Paper.
    let win = t.evaluate(Element::Rock, Element::Scissors);
    assert_eq!((win.damage_to_me, win.damage_to_enemy), (0, 1));
    let loss = t.evaluate(Element::Rock, Element::Paper);
    assert_eq!((loss.damage_to_me, loss.damage_to_enemy), (1, 0));
    // Fire loses to Rock (the cycle wraps).
    let wrap = t.evaluate(Element::Fire, Element::Rock);
    assert_eq!((wrap.damage_to_me, wrap.damage_to_enemy), (1, 0));
    // Water beats Scissors.
    let w = t.evaluate(Element::Water, Element::Scissors);
    assert_eq!((w.damage_to_me, w.damage_to_enemy), (0, 1));
}

#[test]
fn default_table_is_mirror_symmetric() {
    let t = ElementTable::default();
    for a in ALL {
        for b in ALL {
            let ab = t.evaluate(a, b);
            let ba = t.evaluate(b, a);
            assert_eq!(ab.damage_to_me, ba.damage_to_enemy);
            assert_eq!(ab.damage_to_enemy, ba.damage_to_me);
        }
    }
}

#[test]
fn every_element_beats_three_and_loses_to_three() {
    for a in ALL {
        let mut beats = 0;
        let mut loses = 0;
        for b in ALL {
            match a.naive_compare(b) {
                Ordering::Greater => beats += 1,
                Ordering::Less => loses += 1,
                Ordering::Equal => assert_eq!(a, b),
            }
        }
        assert_eq!(beats, 3);
        assert_eq!(loses, 3);
    }
}

#[test]
fn update_adds_in_place_and_touches_one_entry() {
    let mut t = ElementTable::default();
    t.update(
        Element::Rock,
        Element::Paper,
        Payout { damage_to_me: -1, damage_to_enemy: 2 },
    );
    let p = t.evaluate(Element::Rock, Element::Paper);
    assert_eq!((p.damage_to_me, p.damage_to_enemy), (0, 2));
    // Every other entry still matches the base table.
    let base = ElementTable::default();
    for a in ALL {
        for b in ALL {
            if (a, b) != (Element::Rock, Element::Paper) {
                assert_eq!(t.evaluate(a, b), base.evaluate(a, b));
            }
        }
    }
}

#[test]
fn double_twice_equals_one_triple_update() {
    // Start from a table with a non-trivial entry so the law is exercised
    // on something other than 0 and 1.
    let mut start = ElementTable::default();
    start.update(
        Element::Water,
        Element::Fire,
        Payout { damage_to_me: 2, damage_to_enemy: 4 },
    );
    let orig = start.evaluate(Element::Water, Element::Fire);

    let mut doubled = start.clone();
    doubled.double(Element::Water, Element::Fire);
    doubled.double(Element::Water, Element::Fire);

    let mut updated = start.clone();
    updated.update(
        Element::Water,
        Element::Fire,
        Payout {
            damage_to_me: 3 * orig.damage_to_me,
            damage_to_enemy: 3 * orig.damage_to_enemy,
        },
    );

    for a in ALL {
        for b in ALL {
            assert_eq!(doubled.evaluate(a, b), updated.evaluate(a, b));
        }
    }
}

#[test]
fn invert_swaps_the_two_sides() {
    let p = Payout { damage_to_me: 3, damage_to_enemy: -5 };
    let q = p.invert();
    assert_eq!(q.damage_to_me, -5);
    assert_eq!(q.damage_to_enemy, 3);
}

#[test]
fn payout_default_is_zero() {
    let p = Payout::default();
    assert_eq!((p.damage_to_me, p.damage_to_enemy), (0, 0));
}

#[test]
fn moderate_check_accepts_base_and_rejects_huge_entries() {
    let t = ElementTable::default();
    assert!(t.is_moderate());
    let mut big = ElementTable::default();
    big.update(
        Element::Air,
        Element::Air,
        Payout { damage_to_me: i32::MAX - 1, damage_to_enemy: 0 },
    );
    assert!(!big.is_moderate());
}

#[test]
fn element_key_is_lower_case_name() {
    assert_eq!(Element::Rock.key(), "rock");
    assert_eq!(Element::Scissors.key(), "scissors");
    assert_eq!(Element::Fire.key(), "fire");
    assert_eq!(Element::Water.name(), "Water");
}
