use card_duel::entities::{
    AbilityType, Action, Card, CoreSchool, Effect, InPlayPhilosopher, Philosopher,
};
use card_duel::game_management::{GameBoard, GameConfig, GamePhase};
use card_duel::player::RemainingDeck;
use card_duel::test_utils;
use uuid::Uuid;

fn get_example_board() -> GameBoard {
    let p1_hand = test_utils::get_populated_player_hand(10);
    let p2_hand = test_utils::get_populated_player_hand(12);
    let game_board = GameBoard {
        player_1_hand: p1_hand,
        player_1_deck: RemainingDeck::new(Vec::new(), None),
        player_2_hand: p2_hand,
        player_2_deck: RemainingDeck::new(Vec::new(), None),
        game_phase: GamePhase::Player1Turn,
        game_config: GameConfig::default(),
    };
    game_board
}

fn get_target<'a>(
    board: &'a mut GameBoard,
    ability_type: &AbilityType,
) -> Option<&'a mut InPlayPhilosopher> {
    match ability_type {
        AbilityType::Damage { .. } => match board.game_phase {
            GamePhase::Player1Turn => board.player_2_hand.active_philosopher.as_mut(),
            GamePhase::Player2Turn => board.player_1_hand.active_philosopher.as_mut(),
            _ => None,
        },
        AbilityType::Heal { .. } => match board.game_phase {
            GamePhase::Player1Turn => board.player_1_hand.active_philosopher.as_mut(),
            GamePhase::Player2Turn => board.player_2_hand.active_philosopher.as_mut(),
            _ => None,
        },
    }
}

#[test]
fn test_next_phase() {
    let mut game_board = get_example_board();
    assert_eq!(game_board.game_phase, GamePhase::Player1Turn);
    game_board.update_game_phase();
    assert_eq!(game_board.game_phase, GamePhase::Player2Turn);
}

fn unwrap_action_card(card: Card) -> Action {
    if let Card::Action(a) = card {
        a
    } else {
        panic!("Expected 'Action' card")
    }
}

#[test]
fn test_take_single_action_damage_no_duration() {
    let expected_damage = 5;
    let mut game_board = get_example_board();
    let action_card = unwrap_action_card(test_utils::get_example_damage_action(expected_damage, 0));
    let target_initial_health = get_target(&mut game_board, &action_card.ability_type)
        .expect("target philosopher not found")
        .remaining_health();
    let _ = game_board.take_single_action(&action_card);
    let post_action_health = get_target(&mut game_board, &action_card.ability_type)
        .expect("post-action philosopher not found")
        .remaining_health();
    assert_eq!(post_action_health, target_initial_health - expected_damage);
}

#[test]
fn test_take_single_action_damage_w_duration() {
    let expected_damage = 5;
    let duration = 4;
    let mut game_board = get_example_board();
    let action_card = unwrap_action_card(test_utils::get_example_damage_action(
        expected_damage,
        duration,
    ));
    let target = get_target(&mut game_board, &action_card.ability_type)
        .expect("target philosopher not found");
    let target_initial_health = target.remaining_health();
    let _ = game_board.take_single_action(&action_card);
    let post_action_target = get_target(&mut game_board, &action_card.ability_type)
        .expect("post-action philosopher not found");
    assert_eq!(
        post_action_target.remaining_health(),
        target_initial_health - expected_damage
    );
    assert_eq!(post_action_target.effects.len(), 1);
    let applied_effect = &post_action_target.effects[0];
    if let Effect::Poison {
        damage: ab_damage,
        duration: ab_duration,
    } = *applied_effect
    {
        assert_eq!(ab_damage, expected_damage);
        assert_eq!(ab_duration, duration - 1);
    } else {
        panic!("Ability wasn't Damage/Poison!")
    }
}

#[test]
fn test_take_single_action_heal() {
    let initial_damage = 5;
    let heal = 2;
    let mut game_board = get_example_board();
    let action_card = unwrap_action_card(test_utils::get_example_heal_action(heal, 0));
    let target = get_target(&mut game_board, &action_card.ability_type).unwrap();
    let target_initial_health = target.remaining_health();
    target.apply_direct_damage(initial_damage);
    let _ = game_board.take_single_action(&action_card);
    let post_action_health = get_target(&mut game_board, &action_card.ability_type)
        .expect("post-action philosopher not found")
        .remaining_health();
    assert_eq!(
        post_action_health,
        target_initial_health - initial_damage + heal
    );
}

#[test]
fn test_take_single_action_heal_duration_full_health() {
    let expected_heal = 6;
    let duration = 2;
    let mut game_board = get_example_board();
    let action_card = unwrap_action_card(test_utils::get_example_heal_action(expected_heal, duration));
    let target = get_target(&mut game_board, &action_card.ability_type);
    let target_initial_health = target
        .expect("target philosopher not found")
        .remaining_health();
    let _ = game_board.take_single_action(&action_card);
    let post_action_target = get_target(&mut game_board, &action_card.ability_type)
        .expect("post-action philosopher not found");
    assert_eq!(post_action_target.remaining_health(), target_initial_health);
    assert_eq!(post_action_target.effects.len(), 1);
    let applied_effect = &post_action_target.effects[0];
    if let Effect::Recovery {
        heal: ab_heal,
        duration: ab_duration,
    } = *applied_effect
    {
        assert_eq!(ab_heal, expected_heal);
        assert_eq!(ab_duration, duration - 1);
    } else {
        panic!("Ability wasn't Damage/Poison!")
    }
}

#[test]
fn test_apply_cards_damage_and_then_play_philosopher() {
    let expected_damage = 3;
    let expected_philosopher_name = Uuid::new_v4().to_string();
    let mut game_board = get_example_board();
    let action_card = unwrap_action_card(test_utils::get_example_damage_action(expected_damage, 3));
    let ability_type = action_card.ability_type.clone();
    let target =
        get_target(&mut game_board, &ability_type).expect("target philosopher not found");
    let target_initial_health = target.remaining_health();
    let cards = vec![
        Card::Action(action_card),
        Card::Philosopher(Philosopher::new(
            expected_philosopher_name.clone(),
            CoreSchool::Skeptic,
            13,
        )),
    ];
    let _ = game_board.apply_cards(cards);
    let post_action_target =
        get_target(&mut game_board, &ability_type).expect("target philosopher not found");
    assert_eq!(
        post_action_target.remaining_health(),
        target_initial_health - expected_damage
    );
    let (active_player_hand, _d) = game_board.active_player_data().unwrap();
    let active_philosopher = active_player_hand.active_philosopher.as_ref().unwrap();
    assert_eq!(
        active_philosopher.philosopher.name,
        expected_philosopher_name
    );
}

#[test]
fn test_apply_cards_in_play_philosopher() {
    let mut game_board = get_example_board();
    let expected_name = Uuid::new_v4().to_string();
    let cards = vec![Card::InPlayPhilosopher(
        test_utils::get_example_in_play_philosopher(expected_name.clone(), 3),
    )];
    let _ = game_board.apply_cards(cards);
    let (active_player_hand, _d) = game_board.active_player_data().unwrap();
    let active_philosopher = active_player_hand.active_philosopher.as_ref().unwrap();
    assert_eq!(active_philosopher.philosopher.name, expected_name)
}

#[test]
fn test_apply_cards_no_cards() {
    let mut game_board = get_example_board();
    let game_board_repr = format!("{:?}", game_board);
    let cards = vec![];
    let _ = game_board.apply_cards(cards);
    assert_eq!(format!("{:?}", game_board), game_board_repr)
}
