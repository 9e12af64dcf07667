use vstd::prelude::*;

use crate::card::{Card, Suit};
use crate::deck::{Deck, DeckView, DECK_SIZE, standard_deck};
use crate::player::{PlayerState, PlayerView};

verus! {

/// Health the player starts a game with.
pub const START_HEALTH: i32 = 20;

/// Number of cards a room holds when the draw pile can fill it.
pub const ROOM_SIZE: usize = 4;

/// Highest power a card can have.
pub const MAX_CARD_VALUE: i32 = 14;

/// A choice offered to the player. Each room card gives one, carrying the card's value.
#[derive(Clone, Copy, Debug, PartialEq, Eq, Structural)]
pub enum PlayerAction {
    EscapeRoom,
    EquipWeapon(i32),
    DrinkPotion(i32),
    FightMonster(i32),
}

/// How a game stands at a room boundary, with the final score once it is over.
#[derive(Clone, Copy, Debug, PartialEq, Eq, Structural)]
pub enum GameOutcome {
    Ongoing,
    Defeat(i32),
    Victory(i32),
}

/// The action a room card offers: diamonds are weapons, hearts potions, the rest monsters.
pub open spec fn action_of(c: Card) -> PlayerAction {
    match c.suit {
        Suit::Diamonds => PlayerAction::EquipWeapon(c.rank.spec_value() as i32),
        Suit::Hearts => PlayerAction::DrinkPotion(c.rank.spec_value() as i32),
        _ => PlayerAction::FightMonster(c.rank.spec_value() as i32),
    }
}

/// The game as mathematical values.
pub ghost struct GameView {
    pub player: PlayerView,
    pub deck: DeckView,
    pub can_escape: bool,
    pub escape_cooldown: int,
}

impl GameView {
    pub open spec fn wf(self) -> bool {
        &&& self.deck.wf()
        &&& self.deck.room_size == ROOM_SIZE
        &&& 0 <= self.escape_cooldown <= 1
        &&& 0 <= self.player.weapon_power
        &&& -MAX_CARD_VALUE * (DECK_SIZE - self.deck.total()) <= self.player.health
        &&& self.player.health <= self.player.max_health
        &&& self.player.max_health + MAX_CARD_VALUE <= i32::MAX
    }

    /// The actions offered, in room order, with escape last when it is allowed.
    pub open spec fn actions(self) -> Seq<PlayerAction> {
        Seq::new(self.deck.room.len(), |i: int| action_of(self.deck.room[i])) + if self.can_escape {
            seq![PlayerAction::EscapeRoom]
        } else {
            Seq::empty()
        }
    }

    /// Escape is barred for one room after it was used.
    pub open spec fn escape_updated(self) -> GameView {
        if self.escape_cooldown <= 0 {
            GameView { can_escape: true, ..self }
        } else {
            GameView { can_escape: false, escape_cooldown: self.escape_cooldown - 1, ..self }
        }
    }

    /// Entering a room: escape status updated, room refilled, potion cooldown lifted.
    pub open spec fn entered(self) -> GameView {
        let g = self.escape_updated();
        GameView { deck: g.deck.populated(), player: g.player.cooled_down(), ..g }
    }

    /// The game after the player takes action `i`; a monster is fought with the weapon only
    /// when the player asks for it and the weapon is usable against it.
    pub open spec fn turn(self, i: int, use_weapon: bool) -> GameView {
        match self.actions()[i] {
            PlayerAction::FightMonster(v) => GameView {
                player: self.player.attacked(
                    v as int,
                    use_weapon && self.player.weapon_usable(v as int),
                ),
                deck: self.deck.removed(i),
                can_escape: false,
                ..self
            },
            PlayerAction::DrinkPotion(v) => GameView {
                player: self.player.healed(self.player.heal_amount(v as int)),
                deck: self.deck.removed(i),
                can_escape: false,
                ..self
            },
            PlayerAction::EquipWeapon(v) => GameView {
                player: self.player.equipped(v as int),
                deck: self.deck.removed(i),
                can_escape: false,
                ..self
            },
            PlayerAction::EscapeRoom => GameView {
                deck: self.deck.escaped(),
                escape_cooldown: 1,
                ..self
            },
        }
    }

    /// The room's turn loop goes on while the room is not over and the player lives.
    pub open spec fn room_active(self) -> bool {
        !self.deck.room_clear && self.player.health > 0
    }

    pub open spec fn outcome(self) -> GameOutcome {
        if self.player.health <= 0 {
            GameOutcome::Defeat((self.player.health - self.deck.remaining_monsters()) as i32)
        } else if self.deck.dungeon_cleared() {
            GameOutcome::Victory((self.player.health + self.deck.final_potion_bonus()) as i32)
        } else {
            GameOutcome::Ongoing
        }
    }

    /// The game after the end check: on victory the final potion is taken as the bonus.
    pub open spec fn after_outcome(self) -> GameView {
        if self.player.health > 0 && self.deck.dungeon_cleared() {
            GameView { deck: self.deck.bonus_taken(), ..self }
        } else {
            self
        }
    }
}

/// Sum of the power of the monster cards in `s` is at most fourteen per card.
proof fn lemma_monster_total_bound(s: Seq<Card>)
    ensures
        0 <= crate::deck::monster_total(s) <= MAX_CARD_VALUE * s.len(),
    decreases s.len(),
{
    if s.len() > 0 {
        lemma_monster_total_bound(s.drop_last());
    }
}

/// One game: the player, the deck and the escape rule.
pub struct GameState {
    player: PlayerState,
    deck: Deck,
    can_escape: bool,
    escape_cooldown: i32,
}

impl View for GameState {
    type V = GameView;

    closed spec fn view(&self) -> GameView {
        GameView {
            player: self.player@,
            deck: self.deck@,
            can_escape: self.can_escape,
            escape_cooldown: self.escape_cooldown as int,
        }
    }
}

/// The action offered by a room card.
fn action_for(card: &Card) -> (a: PlayerAction)
    ensures
        a == action_of(*card),
{
    match card.suit() {
        Suit::Diamonds => PlayerAction::EquipWeapon(card.rank()),
        Suit::Hearts => PlayerAction::DrinkPotion(card.rank()),
        _ => PlayerAction::FightMonster(card.rank()),
    }
}

impl GameState {
    /// A new game: a shuffled full deck, an empty room and a player at full health.
    pub fn new() -> (g: GameState)
        ensures
            g@.deck.pile.to_multiset() == standard_deck().to_multiset(),
            g@.deck.room == Seq::<Card>::empty(),
            !g@.deck.room_clear,
            g@.deck.room_size == ROOM_SIZE,
            g@.player == (PlayerView {
                health: START_HEALTH as int,
                max_health: START_HEALTH as int,
                weapon_power: 0,
                weapon_durability: 0,
                potion_on_cooldown: false,
            }),
            g@.can_escape,
            g@.escape_cooldown == 0,
            g@.wf(),
    {
        let player = PlayerState::new(START_HEALTH);
        let mut deck = Deck::new(ROOM_SIZE);
        deck.shuffle();
        GameState { player, deck, can_escape: true, escape_cooldown: 0 }
    }

    /// A game on a prepared deck, with a player at full health.
    pub fn with_deck(deck: Deck, max_health: i32) -> (g: GameState)
        requires
            deck@.wf(),
            deck@.room_size == ROOM_SIZE,
            0 <= max_health <= i32::MAX - MAX_CARD_VALUE,
        ensures
            g@.deck == deck@,
            g@.player == (PlayerView {
                health: max_health as int,
                max_health: max_health as int,
                weapon_power: 0,
                weapon_durability: 0,
                potion_on_cooldown: false,
            }),
            g@.can_escape,
            g@.escape_cooldown == 0,
            g@.wf(),
    {
        let player = PlayerState::new(max_health);
        GameState { player, deck, can_escape: true, escape_cooldown: 0 }
    }

    pub fn player(&self) -> (r: &PlayerState)
        ensures
            r@ == self@.player,
    {
        &self.player
    }

    pub fn deck(&self) -> (r: &Deck)
        ensures
            r@ == self@.deck,
    {
        &self.deck
    }

    pub fn can_escape(&self) -> (r: bool)
        ensures
            r == self@.can_escape,
    {
        self.can_escape
    }

    fn update_escape_status(&mut self)
        requires
            old(self)@.wf(),
        ensures
            final(self)@ == old(self)@.escape_updated(),
    {
        if self.escape_cooldown <= 0 {
            self.can_escape = true;
        } else {
            self.escape_cooldown = self.escape_cooldown - 1;
            self.can_escape = false;
        }
    }

    /// Starts a room: updates whether escape is allowed, refills the room and lifts the
    /// potion cooldown. The turns of the room follow until `room_active` is false.
    pub fn enter_room(&mut self)
        requires
            old(self)@.wf(),
        ensures
            final(self)@ == old(self)@.entered(),
            final(self)@.wf(),
    {
        self.update_escape_status();
        self.deck.populate_room();
        self.player.remove_potion_cooldown();
        proof {
            crate::deck::lemma_card_conservation(old(self)@.deck, 0, old(self)@.deck.pile);
        }
    }

    /// True while the current room still wants a turn: it is not over and the player lives.
    pub fn room_active(&self) -> (r: bool)
        ensures
            r == self@.room_active(),
    {
        !self.deck.room_clear() && self.player.health() > 0
    }

    /// The actions offered in the current room, in room order, with escape last when allowed.
    pub fn get_available_actions(&self) -> (r: Vec<PlayerAction>)
        ensures
            r@ == self@.actions(),
    {
        let room = self.deck.get_room();
        let mut actions: Vec<PlayerAction> = Vec::new();
        let mut i: usize = 0;
        while i < room.len()
            invariant
                i <= room@.len(),
                room@ == self@.deck.room,
                actions@ == Seq::new(i as nat, |j: int| action_of(room@[j])),
            decreases room@.len() - i,
        {
            actions.push(action_for(&room[i]));
            i = i + 1;
            assert(actions@ =~= Seq::new(i as nat, |j: int| action_of(room@[j])));
        }
        if self.can_escape {
            actions.push(PlayerAction::EscapeRoom);
        }
        assert(actions@ =~= self@.actions());
        actions
    }

    fn escape_room(&mut self)
        requires
            old(self)@.wf(),
        ensures
            final(self)@ == (GameView {
                deck: old(self)@.deck.escaped(),
                escape_cooldown: 1,
                ..old(self)@
            }),
    {
        self.escape_cooldown = 1;
        self.deck.escape_room();
    }

    /// Takes the action at position `choice` of the offered actions and returns it. A monster
    /// is fought with the weapon when `use_weapon` is set and the weapon is usable against it,
    /// barehanded otherwise.
    pub fn process_player_turn(&mut self, choice: usize, use_weapon: bool) -> (a: PlayerAction)
        requires
            old(self)@.wf(),
            choice < old(self)@.actions().len(),
        ensures
            a == old(self)@.actions()[choice as int],
            final(self)@ == old(self)@.turn(choice as int, use_weapon),
            final(self)@.wf(),
    {
        let actions = self.get_available_actions();
        let action = actions[choice];
        let ghost g = self@;
        proof {
            crate::deck::lemma_card_conservation(g.deck, choice as int, g.deck.pile);
            self.player.lemma_fits();
        }
        match action {
            PlayerAction::FightMonster(val) => {
                self.can_escape = false;
                let weapon = use_weapon && self.player.can_use_weapon(val);
                self.player.attack_monster(val, weapon);
                let _ = self.deck.remove_card_from_room(choice);
            },
            PlayerAction::DrinkPotion(val) => {
                self.can_escape = false;
                let amount = self.player.get_potion_heal_amount(val);
                self.player.heal(amount);
                let _ = self.deck.remove_card_from_room(choice);
            },
            PlayerAction::EquipWeapon(val) => {
                self.can_escape = false;
                self.player.equip(val);
                let _ = self.deck.remove_card_from_room(choice);
            },
            PlayerAction::EscapeRoom => {
                self.escape_room();
            },
        }
        action
    }

    /// Checks for the end of the game at a room boundary. A dead player loses with health
    /// minus the power of every monster left; a cleared dungeon wins with health plus the
    /// value of a final potion, which is taken.
    pub fn game_over(&mut self) -> (r: GameOutcome)
        requires
            old(self)@.wf(),
        ensures
            r == old(self)@.outcome(),
            final(self)@ == old(self)@.after_outcome(),
            final(self)@.wf(),
    {
        proof {
            crate::deck::lemma_card_conservation(self@.deck, 0, self@.deck.pile);
            lemma_monster_total_bound(self@.deck.pile);
            lemma_monster_total_bound(self@.deck.room);
        }
        if self.player.health() <= 0 {
            let monsters = self.deck.get_remaining_monsters();
            GameOutcome::Defeat(self.player.health() - monsters)
        } else if self.deck.dungeon_cleared() {
            let bonus = self.deck.get_final_potion_bonus_score();
            GameOutcome::Victory(self.player.health() + bonus)
        } else {
            GameOutcome::Ongoing
        }
    }
}

/// Escape cannot be used in two rooms in a row: right after an escape, the next room offers
/// no escape and its cooldown is then spent; a turn in a room that offers no escape leaves the
/// cooldown as it is; and a room entered with the cooldown spent offers escape again, last.
pub proof fn lemma_escape_cooldown(g: GameView, w: bool, h: GameView, i: int, w2: bool)
    requires
        g.wf(),
        g.can_escape,
    ensures
        g.actions()[g.deck.room.len() as int] == PlayerAction::EscapeRoom,
        !g.turn(g.deck.room.len() as int, w).entered().actions().contains(PlayerAction::EscapeRoom),
        g.turn(g.deck.room.len() as int, w).entered().escape_cooldown == 0,
        !h.can_escape && 0 <= i < h.actions().len() ==> h.turn(i, w2).escape_cooldown
            == h.escape_cooldown,
        h.escape_cooldown == 0 ==> h.entered().actions().last() == PlayerAction::EscapeRoom,
{
    let next = g.turn(g.deck.room.len() as int, w).entered();
    assert(!next.can_escape);
    assert forall|j: int| 0 <= j < next.actions().len() implies next.actions()[j]
        != PlayerAction::EscapeRoom by {
        let c = next.deck.room[j];
        assert(next.actions()[j] == action_of(c));
    }
    if !h.can_escape && 0 <= i < h.actions().len() {
        assert(h.actions()[i] == action_of(h.deck.room[i]));
    }
}

/// Over a game, entering a room and escaping keep every card, while fighting, drinking and
/// equipping discard exactly the card played.
pub proof fn lemma_turn_conserves_cards(g: GameView, i: int, w: bool)
    requires
        g.wf(),
        0 <= i < g.actions().len(),
    ensures
        g.entered().deck.total() == g.deck.total(),
        g.turn(i, w).deck.total() == g.deck.total() - if g.actions()[i] is EscapeRoom {
            0int
        } else {
            1int
        },
{
    crate::deck::lemma_card_conservation(g.deck, i, g.deck.pile);
    if i < g.deck.room.len() {
        assert(g.actions()[i] == action_of(g.deck.room[i]));
    }
}

} // verus!
