use vstd::prelude::*;

use rand::seq::SliceRandom;

use crate::card::{Card, Rank, Suit};

verus! {

/// Number of cards in a full deck: 26 black cards from two to ace, 18 red cards from two to ten.
pub const DECK_SIZE: usize = 44;

/// Sum of the power of the monster cards in `s`.
pub open spec fn monster_total(s: Seq<Card>) -> int
    decreases s.len(),
{
    if s.len() == 0 {
        0
    } else {
        monster_total(s.drop_last()) + if s.last().is_monster() {
            s.last().rank.spec_value()
        } else {
            0
        }
    }
}

/// The card at position `j` of a black suit laid out from ace down to two.
pub open spec fn black_card(suit: Suit, j: int) -> Card {
    Card { suit, rank: Rank::spec_from_value(14 - j) }
}

/// The card at position `j` of a red suit laid out from two up to ten.
pub open spec fn red_card(suit: Suit, j: int) -> Card {
    Card { suit, rank: Rank::spec_from_value(2 + j) }
}

/// The unshuffled deck: clubs and spades from ace down to two, then diamonds and hearts from
/// two up to ten.
pub open spec fn standard_deck() -> Seq<Card> {
    Seq::new(13, |j: int| black_card(Suit::Clubs, j)) + Seq::new(
        13,
        |j: int| black_card(Suit::Spades, j),
    ) + Seq::new(9, |j: int| red_card(Suit::Diamonds, j)) + Seq::new(
        9,
        |j: int| red_card(Suit::Hearts, j),
    )
}

/// The deck as mathematical values. The top of the draw pile is its last element.
pub ghost struct DeckView {
    pub pile: Seq<Card>,
    pub room: Seq<Card>,
    pub room_clear: bool,
    pub room_size: nat,
}

impl DeckView {
    pub open spec fn total(self) -> int {
        self.pile.len() + self.room.len() as int
    }

    pub open spec fn wf(self) -> bool {
        &&& self.room.len() <= self.room_size
        &&& self.total() <= DECK_SIZE
    }

    /// How many cards a refill of the room takes from the draw pile.
    pub open spec fn draw_count(self) -> int {
        let want = if self.room.len() < self.room_size {
            self.room_size - self.room.len()
        } else {
            0
        };
        if want < self.pile.len() {
            want
        } else {
            self.pile.len() as int
        }
    }

    /// The top cards of the draw pile move, in their order, to the end of the room.
    pub open spec fn populated(self) -> DeckView {
        let start = self.pile.len() - self.draw_count();
        DeckView {
            pile: self.pile.subrange(0, start),
            room: self.room + self.pile.subrange(start, self.pile.len() as int),
            room_clear: false,
            room_size: self.room_size,
        }
    }

    /// The room card at `i` is discarded. The room is over when one card is left and the
    /// pile can refill it, or when nothing is left anywhere.
    pub open spec fn removed(self, i: int) -> DeckView {
        let room = self.room.remove(i);
        DeckView {
            room,
            room_clear: if room.len() == 1 && self.pile.len() > 0 {
                true
            } else if room.len() == 0 && self.pile.len() == 0 {
                true
            } else {
                self.room_clear
            },
            ..self
        }
    }

    /// The room's cards go back on top of the draw pile, so that they are drawn next.
    pub open spec fn escaped(self) -> DeckView {
        DeckView { pile: self.pile + self.room, room: Seq::empty(), room_clear: true, ..self }
    }

    pub open spec fn dungeon_cleared(self) -> bool {
        &&& self.pile.len() == 0
        &&& (self.room.len() == 0 || (self.room.len() == 1 && self.room[0].is_potion()))
    }

    pub open spec fn remaining_monsters(self) -> int {
        monster_total(self.pile) + monster_total(self.room)
    }

    /// A single potion left in the room is taken as a bonus.
    pub open spec fn has_final_potion(self) -> bool {
        self.room.len() == 1 && self.room[0].is_potion()
    }

    pub open spec fn final_potion_bonus(self) -> int {
        if self.has_final_potion() {
            self.room[0].rank.spec_value()
        } else {
            0
        }
    }

    pub open spec fn bonus_taken(self) -> DeckView {
        if self.has_final_potion() {
            DeckView { room: Seq::empty(), ..self }
        } else {
            self
        }
    }
}

/// The only failure of the deck: a room position that holds no card.
#[derive(Clone, Copy, Debug, PartialEq, Eq, Structural)]
pub enum DeckError {
    InvalidRoomIndex,
}

/// The draw pile and the room being played.
pub struct Deck {
    cards: Vec<Card>,
    room: Vec<Card>,
    room_clear: bool,
    room_size: usize,
}

impl View for Deck {
    type V = DeckView;

    closed spec fn view(&self) -> DeckView {
        DeckView {
            pile: self.cards@,
            room: self.room@,
            room_clear: self.room_clear,
            room_size: self.room_size as nat,
        }
    }
}

/// Relies on rand's `SliceRandom::shuffle` with the thread-local generator: it only swaps
/// elements, so the result holds the same cards.
#[verifier::external_body]
fn shuffle_cards(cards: &mut Vec<Card>)
    ensures
        final(cards)@.to_multiset() == old(cards)@.to_multiset(),
{
    let mut rng = rand::rng();
    cards.shuffle(&mut rng);
}

/// Pushes the thirteen cards of a black suit, from ace down to two.
fn push_black_suit(cards: &mut Vec<Card>, suit: Suit)
    ensures
        final(cards)@ == old(cards)@ + Seq::new(13, |j: int| black_card(suit, j)),
{
    let ghost start = cards@;
    let mut v: i32 = 14;
    while v >= 2
        invariant
            1 <= v <= 14,
            cards@ == start + Seq::new((14 - v) as nat, |j: int| black_card(suit, j)),
        decreases v,
    {
        cards.push(Card::new(suit, Rank::from_value(v)));
        v = v - 1;
        assert(cards@ =~= start + Seq::new((14 - v) as nat, |j: int| black_card(suit, j)));
    }
}

/// Pushes the nine cards of a red suit, from two up to ten.
fn push_red_suit(cards: &mut Vec<Card>, suit: Suit)
    ensures
        final(cards)@ == old(cards)@ + Seq::new(9, |j: int| red_card(suit, j)),
{
    let ghost start = cards@;
    let mut v: i32 = 2;
    while v <= 10
        invariant
            2 <= v <= 11,
            cards@ == start + Seq::new((v - 2) as nat, |j: int| red_card(suit, j)),
        decreases 11 - v,
    {
        cards.push(Card::new(suit, Rank::from_value(v)));
        v = v + 1;
        assert(cards@ =~= start + Seq::new((v - 2) as nat, |j: int| red_card(suit, j)));
    }
}

/// Sum of the power of the monster cards in `cards`.
fn monster_sum(cards: &Vec<Card>) -> (r: i32)
    requires
        cards@.len() <= DECK_SIZE,
    ensures
        r == monster_total(cards@),
        0 <= r <= 14 * cards@.len(),
{
    let mut result: i32 = 0;
    let mut i: usize = 0;
    while i < cards.len()
        invariant
            i <= cards@.len() <= DECK_SIZE,
            result == monster_total(cards@.subrange(0, i as int)),
            0 <= result <= 14 * i,
        decreases cards@.len() - i,
    {
        let card = &cards[i];
        assert(cards@.subrange(0, i + 1).drop_last() =~= cards@.subrange(0, i as int));
        if card.is_monster_card() {
            result = result + card.rank();
        }
        i = i + 1;
    }
    assert(cards@.subrange(0, i as int) =~= cards@);
    result
}

impl Deck {
    /// A full deck in its unshuffled order, with an empty room that holds up to `room_size`
    /// cards.
    pub fn new(room_size: usize) -> (d: Deck)
        ensures
            d@.pile == standard_deck(),
            d@.room == Seq::<Card>::empty(),
            !d@.room_clear,
            d@.room_size == room_size,
            d@.wf(),
    {
        let mut cards: Vec<Card> = Vec::with_capacity(DECK_SIZE);
        push_black_suit(&mut cards, Suit::Clubs);
        push_black_suit(&mut cards, Suit::Spades);
        push_red_suit(&mut cards, Suit::Diamonds);
        push_red_suit(&mut cards, Suit::Hearts);
        assert(cards@ =~= standard_deck());
        let room: Vec<Card> = Vec::with_capacity(room_size);
        Deck { cards, room, room_clear: false, room_size }
    }

    /// A deck whose draw pile is `cards`, top last, with an empty room.
    pub fn from_cards(cards: Vec<Card>, room_size: usize) -> (d: Deck)
        requires
            cards@.len() <= DECK_SIZE,
        ensures
            d@.pile == cards@,
            d@.room == Seq::<Card>::empty(),
            !d@.room_clear,
            d@.room_size == room_size,
            d@.wf(),
    {
        let room: Vec<Card> = Vec::with_capacity(room_size);
        Deck { cards, room, room_clear: false, room_size }
    }

    pub fn room_clear(&self) -> (r: bool)
        ensures
            r == self@.room_clear,
    {
        self.room_clear
    }

    /// Puts the draw pile in a random order; it holds the same cards afterwards.
    pub fn shuffle(&mut self)
        requires
            old(self)@.wf(),
        ensures
            final(self)@.pile.to_multiset() == old(self)@.pile.to_multiset(),
            final(self)@.pile.len() == old(self)@.pile.len(),
            final(self)@.room == old(self)@.room,
            final(self)@.room_clear == old(self)@.room_clear,
            final(self)@.room_size == old(self)@.room_size,
            final(self)@.wf(),
    {
        let ghost before = self.cards@;
        shuffle_cards(&mut self.cards);
        proof {
            vstd::seq_lib::to_multiset_len(before);
            vstd::seq_lib::to_multiset_len(self.cards@);
        }
    }

    /// Moves cards from the top of the draw pile into the room until it is full or the pile
    /// is empty, and starts the room.
    pub fn populate_room(&mut self)
        requires
            old(self)@.wf(),
        ensures
            final(self)@ == old(self)@.populated(),
            final(self)@.wf(),
    {
        let num_to_draw: usize = if self.room.len() < self.room_size {
            self.room_size - self.room.len()
        } else {
            0
        };
        let to_take: usize = if num_to_draw < self.cards.len() {
            num_to_draw
        } else {
            self.cards.len()
        };
        let start: usize = self.cards.len() - to_take;
        let mut drawn = self.cards.split_off(start);
        self.room.append(&mut drawn);
        self.room_clear = false;
    }

    /// True when the draw pile is empty and the room is empty or holds a single potion.
    pub fn dungeon_cleared(&self) -> (r: bool)
        ensures
            r == self@.dungeon_cleared(),
    {
        self.cards.len() == 0 && (self.room.len() == 0 || (self.room.len() == 1
            && self.room[0].is_potion_card()))
    }

    /// Discards the room card at `idx`.
    pub fn remove_card_from_room(&mut self, idx: usize) -> (r: Result<(), DeckError>)
        requires
            old(self)@.wf(),
        ensures
            r is Ok <==> idx < old(self)@.room.len(),
            r is Ok ==> final(self)@ == old(self)@.removed(idx as int),
            r is Err ==> r == Err::<(), DeckError>(DeckError::InvalidRoomIndex) && final(self)@
                == old(self)@,
            final(self)@.wf(),
    {
        if idx >= self.room.len() {
            return Err(DeckError::InvalidRoomIndex);
        }
        self.room.remove(idx);
        if self.room.len() == 1 && self.cards.len() > 0 {
            self.room_clear = true;
        } else if self.room.len() == 0 && self.cards.len() == 0 {
            self.room_clear = true;
        }
        Ok(())
    }

    /// Puts the room's cards back on top of the draw pile and ends the room.
    pub fn escape_room(&mut self)
        requires
            old(self)@.wf(),
        ensures
            final(self)@ == old(self)@.escaped(),
            final(self)@.wf(),
    {
        self.cards.append(&mut self.room);
        self.room_clear = true;
    }

    pub fn get_room(&self) -> (r: &[Card])
        ensures
            r@ == self@.room,
    {
        self.room.as_slice()
    }

    /// The draw pile, top last.
    pub fn draw_pile(&self) -> (r: &[Card])
        ensures
            r@ == self@.pile,
    {
        self.cards.as_slice()
    }

    /// Sum of the power of every monster in the draw pile and the room.
    pub fn get_remaining_monsters(&self) -> (r: i32)
        requires
            self@.wf(),
        ensures
            r == self@.remaining_monsters(),
    {
        let in_pile = monster_sum(&self.cards);
        let in_room = monster_sum(&self.room);
        in_pile + in_room
    }

    /// Takes a single potion left in the room and returns its value; otherwise returns 0 and
    /// changes nothing.
    pub fn get_final_potion_bonus_score(&mut self) -> (r: i32)
        requires
            old(self)@.wf(),
        ensures
            r == old(self)@.final_potion_bonus(),
            final(self)@ == old(self)@.bonus_taken(),
            final(self)@.wf(),
    {
        if self.room.len() == 1 && self.room[0].is_potion_card() {
            let card = self.room.pop().unwrap();
            assert(self.room@ =~= Seq::<Card>::empty());
            card.rank()
        } else {
            0
        }
    }
}

/// Cards are conserved: refilling, escaping and shuffling keep the number of cards in the
/// draw pile and the room together, discarding a room card lowers it by exactly one, and
/// taking the final potion by one when it is taken. Every operation keeps the deck
/// well-formed.
pub proof fn lemma_card_conservation(d: DeckView, i: int, shuffled: Seq<Card>)
    requires
        d.wf(),
    ensures
        d.populated().total() == d.total(),
        d.populated().wf(),
        d.escaped().total() == d.total(),
        d.escaped().wf(),
        0 <= i < d.room.len() ==> d.removed(i).total() == d.total() - 1 && d.removed(i).wf(),
        d.bonus_taken().total() == d.total() - if d.has_final_potion() {
            1int
        } else {
            0int
        },
        d.bonus_taken().wf(),
        shuffled.to_multiset() == d.pile.to_multiset() ==> shuffled.len() + d.room.len()
            == d.total(),
{
    vstd::seq_lib::to_multiset_len(d.pile);
    vstd::seq_lib::to_multiset_len(shuffled);
}

/// A refill never leaves more than `room_size` cards in the room, keeps the cards already
/// there, and draws exactly `min(room_size - room.len(), pile.len())` cards.
pub proof fn lemma_populate_room_draws(d: DeckView)
    requires
        d.wf(),
    ensures
        d.populated().room.len() <= d.room_size,
        d.populated().room.len() - d.room.len() == if d.room_size - d.room.len() < d.pile.len() {
            d.room_size - d.room.len()
        } else {
            d.pile.len() as int
        },
        d.populated().room.subrange(0, d.room.len() as int) == d.room,
        d.pile.len() - d.populated().pile.len() == d.populated().room.len() - d.room.len(),
{
    assert(d.populated().room.subrange(0, d.room.len() as int) =~= d.room);
}

/// Escaping and then refilling brings the escaped cards back into the room before any card
/// from beneath them: the refill takes them all, together with only as many cards from the
/// old pile as the room had free places. A full room comes back exactly as it was.
pub proof fn lemma_escape_then_populate(d: DeckView)
    requires
        d.wf(),
    ensures
        d.escaped().populated().room == d.pile.subrange(
            d.pile.len() - d.draw_count(),
            d.pile.len() as int,
        ) + d.room,
        d.escaped().populated().pile == d.pile.subrange(0, d.pile.len() - d.draw_count()),
        d.room.len() == d.room_size ==> d.escaped().populated().room == d.room
            && d.escaped().populated().pile == d.pile,
{
    let e = d.escaped();
    let k = d.draw_count();
    assert(e.draw_count() == k + d.room.len());
    assert(e.populated().room =~= d.pile.subrange(d.pile.len() - k, d.pile.len() as int) + d.room);
    assert(e.populated().pile =~= d.pile.subrange(0, d.pile.len() - k));
    if d.room.len() == d.room_size {
        assert(d.pile.subrange(d.pile.len() - k, d.pile.len() as int) =~= Seq::<Card>::empty());
        assert(d.pile.subrange(0, d.pile.len() as int) =~= d.pile);
    }
}

} // verus!
