// A single-player dungeon card game: the deck and its rooms, the player, and the rules of a turn.
pub mod card;
pub mod deck;
pub mod game_state;
pub mod player;
