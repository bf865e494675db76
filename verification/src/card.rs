//! Playing cards: suit, rank, and the three per-card modifier slots
//! (enhancement, edition, seal).

use vstd::prelude::*;

verus! {

/// Suit of a playing card.
#[derive(Debug, Clone, Copy, PartialEq, Eq, Hash, PartialOrd, Ord, Structural)]
pub enum Suit {
    Spades,
    Hearts,
    Clubs,
    Diamonds,
}

/// Rank of a playing card, Ace high.
#[derive(Debug, Clone, Copy, PartialEq, Eq, Hash, PartialOrd, Ord, Structural)]
pub enum Rank {
    Two,
    Three,
    Four,
    Five,
    Six,
    Seven,
    Eight,
    Nine,
    Ten,
    Jack,
    Queen,
    King,
    Ace,
}

/// Card enhancements that modify scoring. A card has at most one.
#[derive(Debug, Clone, Copy, PartialEq, Eq, Structural)]
pub enum Enhancement {
    Bonus,
    Mult,
    Wild,
    Glass,
    Steel,
    Stone,
    Gold,
    Lucky,
}

/// Card editions that provide special effects. Every card has exactly one.
#[derive(Debug, Clone, Copy, PartialEq, Eq, Structural)]
pub enum Edition {
    Base,
    Foil,
    Holographic,
    Polychrome,
    Negative,
}

/// Card seals that provide passive effects. A card has at most one.
#[derive(Debug, Clone, Copy, PartialEq, Eq, Structural)]
pub enum Seal {
    Red,
    Blue,
    Purple,
    Gold,
}

impl Suit {
    /// Position of this suit in the fixed suit order (Spades first).
    pub open spec fn spec_order(self) -> int {
        match self {
            Suit::Spades => 0,
            Suit::Hearts => 1,
            Suit::Clubs => 2,
            Suit::Diamonds => 3,
        }
    }

    /// Executable counterpart of [`Suit::spec_order`].
    pub fn order(self) -> (r: u64)
        ensures
            r == self.spec_order(),
    {
        match self {
            Suit::Spades => 0,
            Suit::Hearts => 1,
            Suit::Clubs => 2,
            Suit::Diamonds => 3,
        }
    }
}

impl Rank {
    /// Numeric value of the rank: 2 through 10 for the number cards,
    /// 11 for Jack, 12 for Queen, 13 for King, 14 for Ace.
    pub open spec fn spec_value(self) -> int {
        match self {
            Rank::Two => 2,
            Rank::Three => 3,
            Rank::Four => 4,
            Rank::Five => 5,
            Rank::Six => 6,
            Rank::Seven => 7,
            Rank::Eight => 8,
            Rank::Nine => 9,
            Rank::Ten => 10,
            Rank::Jack => 11,
            Rank::Queen => 12,
            Rank::King => 13,
            Rank::Ace => 14,
        }
    }

    /// Executable counterpart of [`Rank::spec_value`].
    pub fn value(self) -> (r: u64)
        ensures
            r == self.spec_value(),
    {
        match self {
            Rank::Two => 2,
            Rank::Three => 3,
            Rank::Four => 4,
            Rank::Five => 5,
            Rank::Six => 6,
            Rank::Seven => 7,
            Rank::Eight => 8,
            Rank::Nine => 9,
            Rank::Ten => 10,
            Rank::Jack => 11,
            Rank::Queen => 12,
            Rank::King => 13,
            Rank::Ace => 14,
        }
    }
}

/// A playing card. The `id` is a stable identity assigned by the deck that
/// created the card; selection tracking across reordering goes by it.
#[derive(Debug, Clone, Copy, PartialEq, Eq)]
pub struct Card {
    pub id: u64,
    pub suit: Suit,
    pub rank: Rank,
    pub enhancement: Option<Enhancement>,
    pub edition: Edition,
    pub seal: Option<Seal>,
}

impl Card {
    /// Base chip value of a card: the rank value for 2 through 10,
    /// 10 for the face cards, 11 for an Ace.
    pub open spec fn spec_chip_value(self) -> int {
        match self.rank {
            Rank::Ace => 11,
            Rank::Jack => 10,
            Rank::Queen => 10,
            Rank::King => 10,
            _ => self.rank.spec_value(),
        }
    }

    /// True of Jack, Queen and King.
    pub open spec fn spec_is_face_card(self) -> bool {
        self.rank == Rank::Jack || self.rank == Rank::Queen || self.rank == Rank::King
    }

    /// Create a new basic card with identity 0. Decks assign distinct
    /// identities through [`Card::with_id`].
    pub fn new(suit: Suit, rank: Rank) -> (c: Card)
        ensures
            c == (Card {
                id: 0,
                suit,
                rank,
                enhancement: None::<Enhancement>,
                edition: Edition::Base,
                seal: None::<Seal>,
            }),
    {
        Card { id: 0, suit, rank, enhancement: None, edition: Edition::Base, seal: None }
    }

    /// Create a new basic card with the given stable identity.
    pub fn with_id(id: u64, suit: Suit, rank: Rank) -> (c: Card)
        ensures
            c == (Card {
                id,
                suit,
                rank,
                enhancement: None::<Enhancement>,
                edition: Edition::Base,
                seal: None::<Seal>,
            }),
    {
        Card { id, suit, rank, enhancement: None, edition: Edition::Base, seal: None }
    }

    /// Get the base chip value of this card.
    pub fn chip_value(&self) -> (r: u64)
        ensures
            r == self.spec_chip_value(),
    {
        match self.rank {
            Rank::Ace => 11,
            Rank::Jack => 10,
            Rank::Queen => 10,
            Rank::King => 10,
            _ => self.rank.value(),
        }
    }

    /// Base multiplier contribution of a card, in hundredths: always 1.00.
    pub fn mult_value(&self) -> (r: u64)
        ensures
            r == 100,
    {
        100
    }

    /// Check if this card is a face card (Jack, Queen, King).
    pub fn is_face_card(&self) -> (r: bool)
        ensures
            r == self.spec_is_face_card(),
    {
        match self.rank {
            Rank::Jack | Rank::Queen | Rank::King => true,
            _ => false,
        }
    }

    /// Check if this card is an ace.
    pub fn is_ace(&self) -> (r: bool)
        ensures
            r == (self.rank == Rank::Ace),
    {
        match self.rank {
            Rank::Ace => true,
            _ => false,
        }
    }
}

} // verus!
