//! The deck: an immutable full card set used to reconstruct and reshuffle,
//! a draw pile popped from the front, and a discard pile appended to.
//! Cards currently held in a hand are temporarily outside both piles.

use vstd::prelude::*;
use vstd::seq_lib::*;

use crate::card::{Card, Rank, Suit};
use crate::error::{GameError, GameResult};
use crate::rng::GameRngManager;

verus! {

/// Different deck types available in the game.
#[derive(Debug, Clone, Copy, PartialEq, Eq, Structural)]
pub enum DeckType {
    Red,
    Blue,
    Yellow,
    Green,
    Black,
    Magic,
    Nebula,
    Spectral,
    Abandoned,
    Checkered,
    Zodiac,
    Painted,
    Anaglyph,
    Plasma,
    Erratic,
}

/// The suit at a given position of the standard deck-building order.
pub open spec fn build_order_suit(k: int) -> Suit {
    if k == 0 {
        Suit::Hearts
    } else if k == 1 {
        Suit::Diamonds
    } else if k == 2 {
        Suit::Clubs
    } else {
        Suit::Spades
    }
}

/// The rank at a given position of the standard deck-building order
/// (Ace first, then Two through King).
pub open spec fn build_order_rank(k: int) -> Rank {
    if k == 0 {
        Rank::Ace
    } else if k == 1 {
        Rank::Two
    } else if k == 2 {
        Rank::Three
    } else if k == 3 {
        Rank::Four
    } else if k == 4 {
        Rank::Five
    } else if k == 5 {
        Rank::Six
    } else if k == 6 {
        Rank::Seven
    } else if k == 7 {
        Rank::Eight
    } else if k == 8 {
        Rank::Nine
    } else if k == 9 {
        Rank::Ten
    } else if k == 10 {
        Rank::Jack
    } else if k == 11 {
        Rank::Queen
    } else {
        Rank::King
    }
}

/// The card at position `i` of a freshly built standard 52-card deck:
/// suits in build order, thirteen ranks each, identity equal to the position.
pub open spec fn standard_card(i: int) -> Card {
    Card {
        id: i as u64,
        suit: build_order_suit(i / 13),
        rank: build_order_rank(i % 13),
        enhancement: None,
        edition: crate::card::Edition::Base,
        seal: None,
    }
}

/// A deck of cards.
#[derive(Debug, Clone)]
pub struct Deck {
    pub deck_type: DeckType,
    /// The immutable full card set; cards carry identities `0..52`.
    pub full_deck: Vec<Card>,
    /// The draw pile; cards are drawn from the front.
    pub cards: Vec<Card>,
    /// The discard pile; discarded cards are appended.
    pub discard_pile: Vec<Card>,
}

impl Deck {
    /// Executable counterpart of [`build_order_suit`].
    fn suit_at(k: usize) -> (r: Suit)
        ensures
            r == build_order_suit(k as int),
    {
        if k == 0 {
            Suit::Hearts
        } else if k == 1 {
            Suit::Diamonds
        } else if k == 2 {
            Suit::Clubs
        } else {
            Suit::Spades
        }
    }

    /// Executable counterpart of [`build_order_rank`].
    fn rank_at(k: usize) -> (r: Rank)
        ensures
            r == build_order_rank(k as int),
    {
        if k == 0 {
            Rank::Ace
        } else if k == 1 {
            Rank::Two
        } else if k == 2 {
            Rank::Three
        } else if k == 3 {
            Rank::Four
        } else if k == 4 {
            Rank::Five
        } else if k == 5 {
            Rank::Six
        } else if k == 6 {
            Rank::Seven
        } else if k == 7 {
            Rank::Eight
        } else if k == 8 {
            Rank::Nine
        } else if k == 9 {
            Rank::Ten
        } else if k == 10 {
            Rank::Jack
        } else if k == 11 {
            Rank::Queen
        } else {
            Rank::King
        }
    }

    /// Create a new standard 52-card deck. The draw pile starts in build
    /// order and the discard pile empty; identities are the positions in
    /// the full set, so they are pairwise distinct.
    pub fn new(deck_type: DeckType) -> (r: Deck)
        ensures
            r.deck_type == deck_type,
            r.full_deck@.len() == 52,
            forall|i: int| 0 <= i < 52 ==> r.full_deck@[i] == #[trigger] standard_card(i),
            r.cards@ == r.full_deck@,
            r.discard_pile@.len() == 0,
    {
        let mut full_deck: Vec<Card> = Vec::new();
        let mut cards: Vec<Card> = Vec::new();
        let mut s: usize = 0;
        while s < 4
            invariant
                s <= 4,
                full_deck@.len() == 13 * s,
                forall|i: int|
                    0 <= i < full_deck@.len() ==> full_deck@[i] == #[trigger] standard_card(i),
                cards@ == full_deck@,
            decreases 4 - s,
        {
            let mut k: usize = 0;
            while k < 13
                invariant
                    s < 4,
                    k <= 13,
                    full_deck@.len() == 13 * s + k,
                    forall|i: int|
                        0 <= i < full_deck@.len() ==> full_deck@[i] == #[trigger] standard_card(i),
                    cards@ == full_deck@,
                decreases 13 - k,
            {
                let id: usize = 13 * s + k;
                let c = Card::with_id(id as u64, Self::suit_at(s), Self::rank_at(k));
                proof {
                    assert(id as int / 13 == s && id as int % 13 == k) by (nonlinear_arith)
                        requires
                            s < 4,
                            k < 13,
                            id == 13 * s + k,
                    ;
                }
                full_deck.push(c);
                cards.push(c);
                k = k + 1;
            }
            s = s + 1;
        }
        Deck { deck_type, full_deck, cards, discard_pile: Vec::new() }
    }

    /// Draw a card from the front of the draw pile; `None` once the pile is
    /// empty (an empty pile is a valid terminal state, not an error).
    pub fn draw(&mut self) -> (r: GameResult<Option<Card>>)
        ensures
            final(self).deck_type == old(self).deck_type,
            final(self).full_deck == old(self).full_deck,
            final(self).discard_pile == old(self).discard_pile,
            old(self).cards@.len() == 0 ==> (r matches Ok(o) && o is None && final(self).cards
                == old(self).cards),
            old(self).cards@.len() > 0 ==> (r matches Ok(o) && o == Some(old(self).cards@[0])
                && final(self).cards@ == old(self).cards@.drop_first()),
    {
        if self.cards.len() == 0 {
            Ok(None)
        } else {
            let c = self.cards.remove(0);
            proof {
                assert(self.cards@ =~= old(self).cards@.drop_first());
            }
            Ok(Some(c))
        }
    }

    /// Draw up to `count` cards from the front of the draw pile, returning
    /// fewer if the pile runs out.
    pub fn draw_multiple(&mut self, count: usize) -> (r: GameResult<Vec<Card>>)
        ensures
            final(self).deck_type == old(self).deck_type,
            final(self).full_deck == old(self).full_deck,
            final(self).discard_pile == old(self).discard_pile,
            ({
                let k = vstd::math::min(count as int, old(self).cards@.len() as int);
                r matches Ok(drawn) && drawn@ == old(self).cards@.take(k) && final(self).cards@
                    == old(self).cards@.skip(k)
            }),
    {
        let ghost orig = self.cards@;
        let mut drawn: Vec<Card> = Vec::new();
        let mut i: usize = 0;
        while i < count && self.cards.len() > 0
            invariant
                i <= count,
                i <= orig.len(),
                drawn@ =~= orig.take(i as int),
                self.cards@ =~= orig.skip(i as int),
                self.deck_type == old(self).deck_type,
                self.full_deck == old(self).full_deck,
                self.discard_pile == old(self).discard_pile,
            decreases count - i,
        {
            let c = self.cards.remove(0);
            proof {
                assert(orig.skip(i as int).drop_first() =~= orig.skip(i + 1));
                assert(orig.take(i as int).push(orig.skip(i as int)[0]) =~= orig.take(i + 1));
            }
            drawn.push(c);
            i = i + 1;
        }
        proof {
            let k = vstd::math::min(count as int, orig.len() as int);
            assert(i == k);
        }
        Ok(drawn)
    }

    /// Append a card to the discard pile.
    pub fn discard(&mut self, card: Card)
        ensures
            final(self).deck_type == old(self).deck_type,
            final(self).full_deck == old(self).full_deck,
            final(self).cards == old(self).cards,
            final(self).discard_pile@ == old(self).discard_pile@.push(card),
    {
        self.discard_pile.push(card);
    }

    /// Shuffle: clear both piles and refill the draw pile with a permutation
    /// of the full deck, ordered by the deck-shuffle stream of the given
    /// manager. The draw pile afterwards holds exactly the cards of the full
    /// deck, as a multiset.
    pub fn shuffle(&mut self, rng: &mut GameRngManager)
        ensures
            final(self).deck_type == old(self).deck_type,
            final(self).full_deck == old(self).full_deck,
            final(self).discard_pile@.len() == 0,
            final(self).cards@.to_multiset() == old(self).full_deck@.to_multiset(),
            final(self).cards@.len() == old(self).full_deck@.len(),
            final(rng).spec_seed() == old(rng).spec_seed(),
    {
        broadcast use vstd::seq_lib::group_to_multiset_ensures;

        self.discard_pile.clear();
        let mut pile: Vec<Card> = Vec::new();
        let n = self.full_deck.len();
        let mut i: usize = 0;
        while i < n
            invariant
                i <= n,
                n == self.full_deck@.len(),
                pile@ =~= self.full_deck@.take(i as int),
            decreases n - i,
        {
            proof {
                self.full_deck@.lemma_take_succ_push(i as int);
            }
            pile.push(self.full_deck[i]);
            i = i + 1;
        }
        proof {
            assert(pile@ =~= self.full_deck@);
        }
        // Fisher-Yates: walk down from the back, swapping each position with
        // a position drawn from the deck-shuffle stream.
        let mut j: usize = n;
        while j > 1
            invariant
                j <= n,
                n == pile@.len(),
                pile@.to_multiset() == self.full_deck@.to_multiset(),
                rng.spec_seed() == old(rng).spec_seed(),
                self.full_deck == old(self).full_deck,
                self.deck_type == old(self).deck_type,
                self.discard_pile@.len() == 0,
            decreases j,
        {
            let pick = rng.sample_stream_below("DECK_SHUFFLE", j as u64) as usize;
            j = j - 1;
            let a = pile[j];
            let b = pile[pick];
            let ghost before = pile@;
            pile[j] = b;
            pile[pick] = a;
            proof {
                broadcast use vstd::seq_lib::to_multiset_update;
                broadcast use vstd::multiset::group_multiset_axioms;

                let m = before.to_multiset();
                let s1 = before.update(j as int, b);
                let s2 = s1.update(pick as int, a);
                assert(pile@ == s2);
                assert(s1.to_multiset() == m.insert(b).remove(a));
                assert(s1[pick as int] == b);
                assert(s2.to_multiset() == s1.to_multiset().insert(a).remove(b));
                before.to_multiset_ensures();
                assert(before.contains(a) && before.contains(b));
                assert(m.count(a) > 0 && m.count(b) > 0);
                assert(pile@.to_multiset() =~= m);
            }
        }
        self.cards = pile;
    }

    /// Get the number of cards remaining in the draw pile.
    pub fn n_remaining_cards(&self) -> (r: usize)
        ensures
            r == self.cards@.len(),
    {
        self.cards.len()
    }

    /// Get the number of cards in the full deck.
    pub fn n_cards_full_deck(&self) -> (r: usize)
        ensures
            r == self.full_deck@.len(),
    {
        self.full_deck.len()
    }

    /// Check if the draw pile is empty.
    pub fn is_empty(&self) -> (r: bool)
        ensures
            r == (self.cards@.len() == 0),
    {
        self.cards.len() == 0
    }
}

} // verus!
