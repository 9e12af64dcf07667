use scoundrel::card::{Card, Rank, Suit};
use scoundrel::deck::{Deck, DeckError, DECK_SIZE};

fn card(suit: Suit, value: i32) -> Card {
    Card::new(suit, Rank::from_value(value))
}

fn count(cards: &[Card], c: Card) -> usize {
    cards.iter().filter(|x| **x == c).count()
}

#[test]
fn rank_values_run_from_two_to_ace() {
    assert_eq!(Rank::Two.value(), 2);
    assert_eq!(Rank::Ten.value(), 10);
    assert_eq!(Rank::Jack.value(), 11);
    assert_eq!(Rank::Queen.value(), 12);
    assert_eq!(Rank::King.value(), 13);
    assert_eq!(Rank::Ace.value(), 14);
    for v in 2..=14 {
        assert_eq!(Rank::from_value(v).value(), v);
    }
}

#[test]
fn names_and_symbols() {
    assert_eq!(Suit::Hearts.name(), "Hearts");
    assert_eq!(Suit::Spades.name(), "Spades");
    assert_eq!(Suit::Diamonds.symbol(), "\u{2666}");
    assert_eq!(Rank::Ace.symbol(), "A");
    assert_eq!(Rank::Ten.symbol(), "10");
    let c = Card::new(Suit::Clubs, Rank::Queen);
    assert_eq!(c.suit(), Suit::Clubs);
    assert_eq!(c.rank(), 12);
    assert!(c.is_monster_card());
    assert!(!c.is_potion_card());
    assert!(Card::new(Suit::Hearts, Rank::Two).is_potion_card());
}

#[test]
fn new_deck_holds_the_44_cards() {
    let deck = Deck::new(4);
    let pile = deck.draw_pile();
    assert_eq!(pile.len(), DECK_SIZE);
    assert_eq!(pile.len(), 44);
    assert!(deck.get_room().is_empty());
    assert!(!deck.room_clear());
    assert_eq!(pile[0], card(Suit::Clubs, 14));
    assert_eq!(pile[12], card(Suit::Clubs, 2));
    assert_eq!(pile[13], card(Suit::Spades, 14));
    assert_eq!(pile[26], card(Suit::Diamonds, 2));
    assert_eq!(pile[34], card(Suit::Diamonds, 10));
    assert_eq!(pile[43], card(Suit::Hearts, 10));
    for v in 2..=14 {
        assert_eq!(count(pile, card(Suit::Clubs, v)), 1);
        assert_eq!(count(pile, card(Suit::Spades, v)), 1);
    }
    for v in 2..=10 {
        assert_eq!(count(pile, card(Suit::Diamonds, v)), 1);
        assert_eq!(count(pile, card(Suit::Hearts, v)), 1);
    }
    // All monsters: 2 * (2 + ... + 14) = 208.
    assert_eq!(deck.get_remaining_monsters(), 208);
}

#[test]
fn shuffle_keeps_the_cards_and_reorders_them() {
    let fresh = Deck::new(4);
    let mut deck = Deck::new(4);
    deck.shuffle();
    let pile = deck.draw_pile();
    assert_eq!(pile.len(), 44);
    for c in fresh.draw_pile() {
        assert_eq!(count(pile, *c), 1);
    }
    assert_ne!(pile, fresh.draw_pile());
    assert_eq!(deck.get_remaining_monsters(), 208);
}

#[test]
fn populate_room_takes_the_top_four_in_order() {
    let mut deck = Deck::new(4);
    deck.populate_room();
    assert_eq!(deck.get_room().len(), 4);
    assert_eq!(deck.draw_pile().len(), 40);
    assert!(!deck.room_clear());
    let expected = [card(Suit::Hearts, 7), card(Suit::Hearts, 8), card(Suit::Hearts, 9), card(Suit::Hearts, 10)];
    assert_eq!(deck.get_room(), &expected[..]);
    // A full room draws nothing more.
    deck.populate_room();
    assert_eq!(deck.get_room().len(), 4);
    assert_eq!(deck.draw_pile().len(), 40);
}

#[test]
fn populate_room_refills_only_the_free_places() {
    let mut deck = Deck::new(4);
    deck.populate_room();
    deck.remove_card_from_room(0).unwrap();
    deck.remove_card_from_room(0).unwrap();
    deck.remove_card_from_room(0).unwrap();
    assert!(deck.room_clear());
    assert_eq!(deck.get_room(), &[card(Suit::Hearts, 10)][..]);
    deck.populate_room();
    assert_eq!(deck.get_room().len(), 4);
    assert_eq!(deck.draw_pile().len(), 37);
    assert_eq!(deck.get_room()[0], card(Suit::Hearts, 10));
    assert_eq!(deck.get_room()[1], card(Suit::Hearts, 4));
    assert_eq!(deck.get_room()[3], card(Suit::Hearts, 6));
    assert_eq!(deck.draw_pile().len() + deck.get_room().len(), 41);
}

#[test]
fn partial_final_room() {
    let mut deck = Deck::from_cards(vec![card(Suit::Spades, 3), card(Suit::Hearts, 5)], 4);
    deck.populate_room();
    assert_eq!(deck.get_room().len(), 2);
    assert!(deck.draw_pile().is_empty());
    // One card left but nothing to refill with: the room goes on.
    deck.remove_card_from_room(0).unwrap();
    assert!(!deck.room_clear());
    assert!(deck.dungeon_cleared());
    deck.remove_card_from_room(0).unwrap();
    assert!(deck.room_clear());
    assert!(deck.dungeon_cleared());
}

#[test]
fn remove_card_out_of_range_is_an_error() {
    let mut deck = Deck::new(4);
    assert_eq!(deck.remove_card_from_room(0), Err(DeckError::InvalidRoomIndex));
    deck.populate_room();
    assert_eq!(deck.remove_card_from_room(4), Err(DeckError::InvalidRoomIndex));
    assert_eq!(deck.get_room().len(), 4);
    assert_eq!(deck.remove_card_from_room(3), Ok(()));
    assert_eq!(deck.get_room().len(), 3);
    assert!(!deck.room_clear());
}

#[test]
fn escape_then_populate_brings_the_room_back() {
    let mut deck = Deck::new(4);
    deck.populate_room();
    let room: Vec<Card> = deck.get_room().to_vec();
    let pile: Vec<Card> = deck.draw_pile().to_vec();
    deck.escape_room();
    assert!(deck.room_clear());
    assert!(deck.get_room().is_empty());
    assert_eq!(deck.draw_pile().len(), 44);
    deck.populate_room();
    assert_eq!(deck.get_room(), &room[..]);
    assert_eq!(deck.draw_pile(), &pile[..]);
}

#[test]
fn escape_with_a_partial_room_draws_it_back_first() {
    let a = card(Suit::Spades, 9);
    let b = card(Suit::Diamonds, 4);
    let mut deck = Deck::from_cards(vec![a, b], 4);
    deck.populate_room();
    deck.escape_room();
    assert_eq!(deck.draw_pile(), &[a, b][..]);
    deck.populate_room();
    assert_eq!(deck.get_room(), &[a, b][..]);
    assert!(deck.draw_pile().is_empty());
}

#[test]
fn dungeon_cleared_cases() {
    let empty = Deck::from_cards(vec![], 4);
    assert!(empty.dungeon_cleared());

    let mut potion = Deck::from_cards(vec![card(Suit::Hearts, 6)], 4);
    assert!(!potion.dungeon_cleared());
    potion.populate_room();
    assert!(potion.dungeon_cleared());

    let mut monster = Deck::from_cards(vec![card(Suit::Clubs, 6)], 4);
    monster.populate_room();
    assert!(!monster.dungeon_cleared());

    let mut two = Deck::from_cards(vec![card(Suit::Hearts, 6), card(Suit::Hearts, 3)], 4);
    two.populate_room();
    assert!(!two.dungeon_cleared());
}

#[test]
fn remaining_monsters_counts_pile_and_room() {
    let mut deck = Deck::from_cards(
        vec![
            card(Suit::Clubs, 14),
            card(Suit::Hearts, 9),
            card(Suit::Spades, 11),
            card(Suit::Diamonds, 7),
            card(Suit::Spades, 3),
        ],
        4,
    );
    assert_eq!(deck.get_remaining_monsters(), 28);
    deck.populate_room();
    assert_eq!(deck.draw_pile().len(), 1);
    assert_eq!(deck.get_remaining_monsters(), 28);
    deck.remove_card_from_room(3).unwrap();
    assert_eq!(deck.get_remaining_monsters(), 25);
}

#[test]
fn final_potion_bonus() {
    let mut potion = Deck::from_cards(vec![card(Suit::Hearts, 6)], 4);
    potion.populate_room();
    assert_eq!(potion.get_final_potion_bonus_score(), 6);
    assert!(potion.get_room().is_empty());
    assert_eq!(potion.get_final_potion_bonus_score(), 0);

    let mut weapon = Deck::from_cards(vec![card(Suit::Diamonds, 6)], 4);
    weapon.populate_room();
    assert_eq!(weapon.get_final_potion_bonus_score(), 0);
    assert_eq!(weapon.get_room().len(), 1);
}

#[test]
fn cards_are_conserved_until_discarded() {
    let mut deck = Deck::new(4);
    deck.shuffle();
    let total = |d: &Deck| d.draw_pile().len() + d.get_room().len();
    assert_eq!(total(&deck), 44);
    deck.populate_room();
    assert_eq!(total(&deck), 44);
    deck.escape_room();
    assert_eq!(total(&deck), 44);
    deck.populate_room();
    deck.remove_card_from_room(1).unwrap();
    assert_eq!(total(&deck), 43);
    deck.remove_card_from_room(0).unwrap();
    assert_eq!(total(&deck), 42);
    deck.populate_room();
    assert_eq!(total(&deck), 42);
}
