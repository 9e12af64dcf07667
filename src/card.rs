use vstd::prelude::*;

verus! {

/// The four suits. Black suits are monsters, diamonds are weapons and hearts are potions.
#[derive(Clone, Copy, Debug, PartialEq, Eq, Structural)]
pub enum Suit {
    Spades,
    Hearts,
    Diamonds,
    Clubs,
}

/// Card ranks from two up to the ace, which counts fourteen.
#[derive(Clone, Copy, Debug, PartialEq, Eq, Structural)]
pub enum Rank {
    Two,
    Three,
    Four,
    Five,
    Six,
    Seven,
    Eight,
    Nine,
    Ten,
    Jack,
    Queen,
    King,
    Ace,
}

impl Suit {
    pub open spec fn is_monster(self) -> bool {
        self is Spades || self is Clubs
    }

    pub open spec fn is_weapon(self) -> bool {
        self is Diamonds
    }

    pub open spec fn is_potion(self) -> bool {
        self is Hearts
    }

    pub open spec fn spec_name(self) -> Seq<char> {
        match self {
            Suit::Hearts => "Hearts"@,
            Suit::Diamonds => "Diamonds"@,
            Suit::Clubs => "Clubs"@,
            Suit::Spades => "Spades"@,
        }
    }

    /// The suit's name as shown to the player.
    pub fn name(&self) -> (r: &'static str)
        ensures
            r@ == self.spec_name(),
    {
        match self {
            Suit::Hearts => "Hearts",
            Suit::Diamonds => "Diamonds",
            Suit::Clubs => "Clubs",
            Suit::Spades => "Spades",
        }
    }

    /// The suit's playing-card symbol.
    pub fn symbol(&self) -> (r: &'static str)
        ensures
            r@ == self.spec_symbol(),
    {
        match self {
            Suit::Hearts => "\u{2665}",
            Suit::Diamonds => "\u{2666}",
            Suit::Clubs => "\u{2663}",
            Suit::Spades => "\u{2660}",
        }
    }

    pub open spec fn spec_symbol(self) -> Seq<char> {
        match self {
            Suit::Hearts => "\u{2665}"@,
            Suit::Diamonds => "\u{2666}"@,
            Suit::Clubs => "\u{2663}"@,
            Suit::Spades => "\u{2660}"@,
        }
    }
}

impl Rank {
    pub open spec fn spec_value(self) -> int {
        match self {
            Rank::Two => 2,
            Rank::Three => 3,
            Rank::Four => 4,
            Rank::Five => 5,
            Rank::Six => 6,
            Rank::Seven => 7,
            Rank::Eight => 8,
            Rank::Nine => 9,
            Rank::Ten => 10,
            Rank::Jack => 11,
            Rank::Queen => 12,
            Rank::King => 13,
            Rank::Ace => 14,
        }
    }

    /// The rank whose value is `v`, for `2 <= v <= 14`.
    pub open spec fn spec_from_value(v: int) -> Rank {
        if v <= 2 {
            Rank::Two
        } else if v == 3 {
            Rank::Three
        } else if v == 4 {
            Rank::Four
        } else if v == 5 {
            Rank::Five
        } else if v == 6 {
            Rank::Six
        } else if v == 7 {
            Rank::Seven
        } else if v == 8 {
            Rank::Eight
        } else if v == 9 {
            Rank::Nine
        } else if v == 10 {
            Rank::Ten
        } else if v == 11 {
            Rank::Jack
        } else if v == 12 {
            Rank::Queen
        } else if v == 13 {
            Rank::King
        } else {
            Rank::Ace
        }
    }

    /// The numeric value of the rank: its number, or 11 to 14 for jack, queen, king and ace.
    pub fn value(&self) -> (r: i32)
        ensures
            r == self.spec_value(),
            2 <= r <= 14,
    {
        match self {
            Rank::Two => 2,
            Rank::Three => 3,
            Rank::Four => 4,
            Rank::Five => 5,
            Rank::Six => 6,
            Rank::Seven => 7,
            Rank::Eight => 8,
            Rank::Nine => 9,
            Rank::Ten => 10,
            Rank::Jack => 11,
            Rank::Queen => 12,
            Rank::King => 13,
            Rank::Ace => 14,
        }
    }

    /// The rank of value `v`.
    pub fn from_value(v: i32) -> (r: Rank)
        requires
            2 <= v <= 14,
        ensures
            r == Rank::spec_from_value(v as int),
            r.spec_value() == v,
    {
        if v <= 2 {
            Rank::Two
        } else if v == 3 {
            Rank::Three
        } else if v == 4 {
            Rank::Four
        } else if v == 5 {
            Rank::Five
        } else if v == 6 {
            Rank::Six
        } else if v == 7 {
            Rank::Seven
        } else if v == 8 {
            Rank::Eight
        } else if v == 9 {
            Rank::Nine
        } else if v == 10 {
            Rank::Ten
        } else if v == 11 {
            Rank::Jack
        } else if v == 12 {
            Rank::Queen
        } else if v == 13 {
            Rank::King
        } else {
            Rank::Ace
        }
    }

    pub open spec fn spec_symbol(self) -> Seq<char> {
        match self {
            Rank::Two => "2"@,
            Rank::Three => "3"@,
            Rank::Four => "4"@,
            Rank::Five => "5"@,
            Rank::Six => "6"@,
            Rank::Seven => "7"@,
            Rank::Eight => "8"@,
            Rank::Nine => "9"@,
            Rank::Ten => "10"@,
            Rank::Jack => "J"@,
            Rank::Queen => "Q"@,
            Rank::King => "K"@,
            Rank::Ace => "A"@,
        }
    }

    /// The rank as printed on a card: its number, or J, Q, K, A.
    pub fn symbol(&self) -> (r: &'static str)
        ensures
            r@ == self.spec_symbol(),
    {
        match self {
            Rank::Two => "2",
            Rank::Three => "3",
            Rank::Four => "4",
            Rank::Five => "5",
            Rank::Six => "6",
            Rank::Seven => "7",
            Rank::Eight => "8",
            Rank::Nine => "9",
            Rank::Ten => "10",
            Rank::Jack => "J",
            Rank::Queen => "Q",
            Rank::King => "K",
            Rank::Ace => "A",
        }
    }
}

/// A playing card. Its role in the game follows from its suit, its strength from its rank.
#[derive(Clone, Copy, Debug, PartialEq, Eq, Structural)]
pub struct Card {
    pub suit: Suit,
    pub rank: Rank,
}

impl Card {
    pub fn new(suit: Suit, rank: Rank) -> (c: Card)
        ensures
            c.suit == suit,
            c.rank == rank,
    {
        Card { suit, rank }
    }

    pub fn suit(&self) -> (s: Suit)
        ensures
            s == self.suit,
    {
        self.suit
    }

    /// The card's power as a monster or weapon, or its heal value as a potion.
    pub fn rank(&self) -> (r: i32)
        ensures
            r == self.rank.spec_value(),
            2 <= r <= 14,
    {
        self.rank.value()
    }

    pub open spec fn is_monster(self) -> bool {
        self.suit.is_monster()
    }

    pub open spec fn is_weapon(self) -> bool {
        self.suit.is_weapon()
    }

    pub open spec fn is_potion(self) -> bool {
        self.suit.is_potion()
    }

    pub fn is_monster_card(&self) -> (r: bool)
        ensures
            r == self.is_monster(),
    {
        match self.suit {
            Suit::Spades | Suit::Clubs => true,
            _ => false,
        }
    }

    pub fn is_potion_card(&self) -> (r: bool)
        ensures
            r == self.is_potion(),
    {
        match self.suit {
            Suit::Hearts => true,
            _ => false,
        }
    }
}

} // verus!
