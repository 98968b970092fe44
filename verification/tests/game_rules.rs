//! Tests of the pure game rules: dice turns, wall gaps, asset declarations.

use my_library::assets::{AssetError, AssetManager, AssetType};
use my_library::dice::{
    apply_roll, check_game_over, cpu_hold, cpu_should_roll, die_sprite_slot, hand_total,
    player_pass, winner, Scores, Winner,
};
use my_library::wall::wall_slots;

#[test]
fn hand_total_sums_the_faces() {
    assert_eq!(hand_total(&vec![]), 0);
    assert_eq!(hand_total(&vec![2, 3, 4]), 9);
    assert_eq!(hand_total(&vec![6, 6, 6, 6]), 24);
}

#[test]
fn rolling_one_busts_the_hand() {
    let mut hand = vec![3, 5];
    assert!(apply_roll(&mut hand, 1));
    assert!(hand.is_empty());
}

#[test]
fn rolling_any_other_face_joins_the_hand() {
    let mut hand = vec![3, 5];
    assert!(!apply_roll(&mut hand, 6));
    assert_eq!(hand, vec![3, 5, 6]);
}

#[test]
fn passing_banks_the_hand_for_the_player() {
    let mut scores = Scores { player: 10, cpu: 20 };
    let mut hand = vec![4, 4, 2];
    player_pass(&mut scores, &mut hand);
    assert_eq!(scores, Scores { player: 20, cpu: 20 });
    assert!(hand.is_empty());
}

#[test]
fn holding_banks_the_hand_for_the_cpu() {
    let mut scores = Scores { player: 10, cpu: 20 };
    let mut hand = vec![5, 5];
    cpu_hold(&mut scores, &mut hand);
    assert_eq!(scores, Scores { player: 10, cpu: 30 });
    assert!(hand.is_empty());
}

#[test]
fn cpu_rolls_under_twenty_and_holds_at_twenty() {
    assert!(cpu_should_roll(19, 0));
    assert!(!cpu_should_roll(20, 0));
    assert!(!cpu_should_roll(25, 0));
    // ... and never rolls past a winning total.
    assert!(cpu_should_roll(19, 80));
    assert!(!cpu_should_roll(19, 81));
    assert!(!cpu_should_roll(5, 95));
}

#[test]
fn game_ends_at_one_hundred() {
    assert!(!check_game_over(&Scores { player: 99, cpu: 99 }));
    assert!(check_game_over(&Scores { player: 100, cpu: 0 }));
    assert!(check_game_over(&Scores { player: 0, cpu: 100 }));
    assert!(check_game_over(&Scores { player: 120, cpu: 101 }));
}

#[test]
fn cpu_wins_only_with_the_strictly_higher_total() {
    assert_eq!(winner(&Scores { player: 10, cpu: 20 }), Winner::Cpu);
    assert_eq!(winner(&Scores { player: 20, cpu: 10 }), Winner::Player);
    assert_eq!(winner(&Scores { player: 15, cpu: 15 }), Winner::Player);
}

#[test]
fn dice_line_up_on_the_tray() {
    assert_eq!(die_sprite_slot(0, 3), (-400, 2));
    assert_eq!(die_sprite_slot(1, 1), (-348, 0));
    assert_eq!(die_sprite_slot(2, 6), (-296, 5));
}

#[test]
fn wall_leaves_a_nine_row_gap() {
    assert_eq!(
        wall_slots(0),
        vec![-12, -11, -10, -9, -8, -7, -6, -5, 5, 6, 7, 8, 9, 10, 11, 12]
    );
}

#[test]
fn wall_gap_follows_its_centre() {
    assert_eq!(wall_slots(-5), vec![-12, -11, -10, 0, 1, 2, 3, 4, 5, 6, 7, 8, 9, 10, 11, 12]);
    assert_eq!(wall_slots(4), vec![-12, -11, -10, -9, -8, -7, -6, -5, -4, -3, -2, -1, 9, 10, 11, 12]);
    // A centred gap always costs nine of the twenty-five rows.
    for gap in -4..5 {
        assert_eq!(wall_slots(gap).len(), 16);
    }
}

#[test]
fn declaring_a_present_image_appends_it() {
    let manager = AssetManager::new();
    let manager = manager
        .add_image("dragon".to_string(), "flappy_dragon.png".to_string(), true)
        .unwrap();
    let manager = manager.add_image("wall".to_string(), "wall.png".to_string(), true).unwrap();
    let entries = manager.entries();
    assert_eq!(entries.len(), 2);
    assert_eq!(entries[0].tag, "dragon");
    assert_eq!(entries[0].filename, "flappy_dragon.png");
    assert!(matches!(entries[0].asset_type, AssetType::Image));
    assert_eq!(entries[1].tag, "wall");
}

#[test]
fn declaring_a_missing_image_is_refused() {
    let manager = AssetManager::new();
    let r = manager.add_image("dragon".to_string(), "not_there.png".to_string(), false);
    assert!(matches!(r, Err(AssetError::MissingFile)));
}
