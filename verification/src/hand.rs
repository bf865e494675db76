//! The hand: an ordered sequence of cards plus a set of selected positions.
//! Selected positions are always valid and pairwise distinct; sorting and
//! card removal remap or clear the selection rather than leaving it stale,
//! and sorting preserves the selection by card identity.

use vstd::prelude::*;
use vstd::seq_lib::*;

use crate::card::Card;
use crate::deck::Deck;
use crate::error::{GameError, GameResult};

verus! {

/// The selection after the card at `index` is removed: entries equal to
/// `index` disappear, entries above it shift down by one, the rest and
/// their order stay.
pub open spec fn remap_sel_after_remove(sel: Seq<usize>, index: usize) -> Seq<usize>
    decreases sel.len(),
{
    if sel.len() == 0 {
        Seq::empty()
    } else {
        let prefix = remap_sel_after_remove(sel.drop_last(), index);
        let j = sel.last();
        if j == index {
            prefix
        } else if j > index {
            prefix.push((j - 1) as usize)
        } else {
            prefix.push(j)
        }
    }
}

/// Where a selected position moves when the cards at `index - 1` and `index`
/// swap places.
pub open spec fn swap_pos(j: usize, index: usize) -> usize
    recommends
        index > 0,
{
    if j == index {
        (index - 1) as usize
    } else if j == index - 1 {
        index
    } else {
        j
    }
}

/// Cards are ordered by descending rank.
pub open spec fn rank_desc_le(a: Card, b: Card) -> bool {
    a.rank.spec_value() >= b.rank.spec_value()
}

/// Cards are ordered by suit first (in the fixed suit order), then by
/// descending rank within a suit.
pub open spec fn suit_then_rank_le(a: Card, b: Card) -> bool {
    a.suit.spec_order() < b.suit.spec_order() || (a.suit.spec_order() == b.suit.spec_order()
        && a.rank.spec_value() >= b.rank.spec_value())
}

/// The selection mapping applied when the cards at `index - 1` and `index`
/// swap places.
pub open spec fn swap_mapper(index: usize) -> spec_fn(usize) -> usize {
    |j: usize| swap_pos(j, index)
}

/// The predicate keeping every position other than the given one.
pub open spec fn ne_pos(index: usize) -> spec_fn(usize) -> bool {
    |j: usize| j != index
}

/// The selection with every occurrence of one position removed.
pub open spec fn sel_without(sel: Seq<usize>, index: usize) -> Seq<usize> {
    sel.filter(ne_pos(index))
}

/// The chosen order for a sort: suit-then-rank, or descending rank.
pub open spec fn card_le(a: Card, b: Card, by_suit: bool) -> bool {
    if by_suit {
        suit_then_rank_le(a, b)
    } else {
        rank_desc_le(a, b)
    }
}

/// The sequence is sorted by the chosen order.
pub open spec fn sorted_by(s: Seq<Card>, by_suit: bool) -> bool {
    forall|k1: int, k2: int| 0 <= k1 < k2 < s.len() ==> card_le(#[trigger] s[k1], #[trigger] s[k2], by_suit)
}

/// Executable counterpart of [`card_le`].
fn card_le_exec(a: &Card, b: &Card, by_suit: bool) -> (r: bool)
    ensures
        r == card_le(*a, *b, by_suit),
{
    if by_suit {
        let sa = a.suit.order();
        let sb = b.suit.order();
        sa < sb || (sa == sb && a.rank.value() >= b.rank.value())
    } else {
        a.rank.value() >= b.rank.value()
    }
}

/// Whether the vector contains the given identity.
fn contains_u64(v: &Vec<u64>, x: u64) -> (r: bool)
    ensures
        r == v@.contains(x),
{
    let n = v.len();
    let mut k: usize = 0;
    while k < n
        invariant
            k <= n,
            n == v@.len(),
            forall|t: int| 0 <= t < k ==> v@[t] != x,
        decreases n - k,
    {
        if v[k] == x {
            return true;
        }
        k = k + 1;
    }
    false
}

/// A playing hand with card selection and reordering.
#[derive(Debug, Clone)]
pub struct Hand {
    pub cards: Vec<Card>,
    pub selected_indices: Vec<usize>,
}

impl Hand {
    /// Well-formedness: every selected position is a valid card position,
    /// and no position is selected twice.
    pub open spec fn wf(self) -> bool {
        &&& forall|k: int|
            0 <= k < self.selected_indices@.len() ==> ((#[trigger] self.selected_indices@[k]) as int)
                < self.cards@.len()
        &&& self.selected_indices@.no_duplicates()
    }

    /// Whether the position `i` is selected.
    pub open spec fn spec_is_selected(self, i: usize) -> bool {
        self.selected_indices@.contains(i)
    }

    /// The selected cards, in selection order.
    pub open spec fn spec_selected_cards(self) -> Seq<Card> {
        Seq::new(self.selected_indices@.len(), |k: int| self.cards@[self.selected_indices@[k] as int])
    }

    /// The identities of the selected cards.
    pub open spec fn spec_selected_id_set(self) -> Set<u64> {
        Set::new(
            |id: u64|
                exists|k: int|
                    0 <= k < self.selected_indices@.len() && self.cards@[self.selected_indices@[k] as int].id
                        == id,
        )
    }

    /// The cards at the first `n` positions that are not selected, in
    /// position order.
    pub open spec fn unsel_prefix(self, n: int) -> Seq<Card>
        decreases n,
    {
        if n <= 0 {
            Seq::empty()
        } else if self.spec_is_selected((n - 1) as usize) {
            self.unsel_prefix(n - 1)
        } else {
            self.unsel_prefix(n - 1).push(self.cards@[n - 1])
        }
    }

    /// The unselected cards, left to right.
    pub open spec fn spec_unselected_cards(self) -> Seq<Card> {
        self.unsel_prefix(self.cards@.len() as int)
    }

    /// The cards at the first `n` positions that are selected, in position
    /// order.
    pub open spec fn sel_prefix(self, n: int) -> Seq<Card>
        decreases n,
    {
        if n <= 0 {
            Seq::empty()
        } else if self.spec_is_selected((n - 1) as usize) {
            self.sel_prefix(n - 1).push(self.cards@[n - 1])
        } else {
            self.sel_prefix(n - 1)
        }
    }

    /// The selected cards, left to right by position (not selection order).
    pub open spec fn spec_selected_by_position(self) -> Seq<Card> {
        self.sel_prefix(self.cards@.len() as int)
    }

    /// Create a new empty hand.
    pub fn new() -> (r: Hand)
        ensures
            r.cards@ == Seq::<Card>::empty(),
            r.selected_indices@ == Seq::<usize>::empty(),
            r.wf(),
    {
        Hand { cards: Vec::new(), selected_indices: Vec::new() }
    }

    /// Create a hand holding the given cards, with nothing selected.
    pub fn with_cards(cards: Vec<Card>) -> (r: Hand)
        ensures
            r.cards@ == cards@,
            r.selected_indices@ == Seq::<usize>::empty(),
            r.wf(),
    {
        Hand { cards, selected_indices: Vec::new() }
    }

    /// Get the number of cards in the hand.
    pub fn len(&self) -> (r: usize)
        ensures
            r == self.cards@.len(),
    {
        self.cards.len()
    }

    /// Check if the hand is empty.
    pub fn is_empty(&self) -> (r: bool)
        ensures
            r == (self.cards@.len() == 0),
    {
        self.cards.len() == 0
    }

    /// Get a card by position.
    pub fn get(&self, index: usize) -> (r: Option<&Card>)
        ensures
            index < self.cards@.len() ==> (r matches Some(c) && *c == self.cards@[index as int]),
            index >= self.cards@.len() ==> r is None,
    {
        if index < self.cards.len() {
            Some(&self.cards[index])
        } else {
            None
        }
    }

    /// Add a card at the right end of the hand.
    pub fn add_card(&mut self, card: Card)
        ensures
            final(self).cards@ == old(self).cards@.push(card),
            final(self).selected_indices == old(self).selected_indices,
            old(self).wf() ==> final(self).wf(),
    {
        self.cards.push(card);
    }

    /// All cards, left to right.
    pub fn cards(&self) -> (r: &Vec<Card>)
        ensures
            r == &self.cards,
    {
        &self.cards
    }

    /// All selected positions, in selection order.
    pub fn selected_indices(&self) -> (r: &Vec<usize>)
        ensures
            r == &self.selected_indices,
    {
        &self.selected_indices
    }

    /// Check if the card at the given position is selected.
    pub fn is_selected(&self, index: usize) -> (r: bool)
        ensures
            r == self.spec_is_selected(index),
    {
        let n = self.selected_indices.len();
        let mut k: usize = 0;
        while k < n
            invariant
                k <= n,
                n == self.selected_indices@.len(),
                forall|t: int| 0 <= t < k ==> self.selected_indices@[t] != index,
            decreases n - k,
        {
            if self.selected_indices[k] == index {
                return true;
            }
            k = k + 1;
        }
        false
    }

    /// Select the card at the given position. Selecting an already selected
    /// position is a no-op; an out-of-range position is an error and the
    /// hand is unchanged.
    pub fn select_card(&mut self, index: usize) -> (r: GameResult<()>)
        ensures
            index >= old(self).cards@.len() ==> (r matches Err(e) && e is InvalidGameState
                && *final(self) == *old(self)),
            index < old(self).cards@.len() ==> r is Ok && final(self).cards == old(self).cards
                && final(self).selected_indices@ == if old(self).spec_is_selected(index) {
                old(self).selected_indices@
            } else {
                old(self).selected_indices@.push(index)
            },
            old(self).wf() ==> final(self).wf(),
    {
        if index >= self.cards.len() {
            return Err(GameError::InvalidGameState("index out of bounds for hand".to_owned()));
        }
        if !self.is_selected(index) {
            self.selected_indices.push(index);
        }
        Ok(())
    }

    /// Deselect the card at the given position. Deselecting a position that
    /// is not selected is a no-op, never an error.
    pub fn deselect_card(&mut self, index: usize)
        ensures
            final(self).cards == old(self).cards,
            final(self).selected_indices@ == sel_without(old(self).selected_indices@, index),
            !old(self).spec_is_selected(index) ==> final(self).selected_indices@ == old(
                self,
            ).selected_indices@,
            old(self).wf() ==> final(self).wf(),
    {
        broadcast use vstd::seq_lib::group_filter_ensures;

        let ghost orig = self.selected_indices@;
        let n = self.selected_indices.len();
        let mut kept: Vec<usize> = Vec::new();
        let mut k: usize = 0;
        while k < n
            invariant
                k <= n,
                n == self.selected_indices@.len(),
                self.selected_indices@ == orig,
                kept@ == orig.take(k as int).filter(ne_pos(index)),
            decreases n - k,
        {
            let j = self.selected_indices[k];
            proof {
                orig.lemma_take_succ_push(k as int);
                orig.take(k as int).lemma_filter_push(orig[k as int], ne_pos(index));
            }
            if j != index {
                kept.push(j);
            }
            k = k + 1;
        }
        proof {
            assert(orig.take(n as int) =~= orig);
        }
        self.selected_indices = kept;
        proof {
            if !orig.contains(index) {
                assert forall|t: int| 0 <= t < orig.len() implies ne_pos(index)(
                    #[trigger] orig[t],
                ) by {
                    assert(orig[t] != index);
                }
                lemma_filter_keeps_all(orig, ne_pos(index));
            }
            if old(self).wf() {
                lemma_filter_sub_wf(orig, ne_pos(index));
            }
        }
    }

    /// Toggle the selection state of the card at the given position.
    pub fn toggle_selection(&mut self, index: usize) -> (r: GameResult<()>)
        ensures
            old(self).spec_is_selected(index) ==> (r is Ok && final(self).cards == old(self).cards
                && final(self).selected_indices@ == sel_without(
                old(self).selected_indices@,
                index,
            )),
            !old(self).spec_is_selected(index) && index < old(self).cards@.len() ==> (r is Ok
                && final(self).cards == old(self).cards && final(self).selected_indices@ == old(
                self,
            ).selected_indices@.push(index)),
            !old(self).spec_is_selected(index) && index >= old(self).cards@.len() ==> (r
                matches Err(e) && e is InvalidGameState && *final(self) == *old(self)),
            old(self).wf() ==> final(self).wf(),
    {
        if self.is_selected(index) {
            self.deselect_card(index);
            Ok(())
        } else {
            self.select_card(index)
        }
    }

    /// Clear all selections.
    pub fn clear_selections(&mut self)
        ensures
            final(self).cards == old(self).cards,
            final(self).selected_indices@ == Seq::<usize>::empty(),
            final(self).wf(),
    {
        self.selected_indices.clear();
    }

    /// Clear all cards and all selections.
    pub fn clear(&mut self)
        ensures
            final(self).cards@ == Seq::<Card>::empty(),
            final(self).selected_indices@ == Seq::<usize>::empty(),
            final(self).wf(),
    {
        self.cards.clear();
        self.selected_indices.clear();
    }

    /// The selected cards, in selection order.
    pub fn selected_cards(&self) -> (r: Vec<Card>)
        requires
            self.wf(),
        ensures
            r@ == self.spec_selected_cards(),
    {
        let n = self.selected_indices.len();
        let mut out: Vec<Card> = Vec::new();
        let mut k: usize = 0;
        while k < n
            invariant
                k <= n,
                self.wf(),
                n == self.selected_indices@.len(),
                out@.len() == k,
                forall|t: int|
                    0 <= t < k ==> out@[t] == self.cards@[self.selected_indices@[t] as int],
            decreases n - k,
        {
            let idx = self.selected_indices[k];
            out.push(self.cards[idx]);
            k = k + 1;
        }
        proof {
            assert(out@ =~= self.spec_selected_cards());
        }
        out
    }

    /// The selected cards, left to right by position (not selection order).
    pub fn selected_cards_by_position(&self) -> (r: Vec<Card>)
        ensures
            r@ == self.spec_selected_by_position(),
    {
        let n = self.cards.len();
        let mut out: Vec<Card> = Vec::new();
        let mut i: usize = 0;
        while i < n
            invariant
                i <= n,
                n == self.cards@.len(),
                out@ == self.sel_prefix(i as int),
            decreases n - i,
        {
            if self.is_selected(i) {
                out.push(self.cards[i]);
            }
            i = i + 1;
        }
        out
    }

    /// The unselected cards, left to right.
    pub fn get_unselected_cards(&self) -> (r: Vec<Card>)
        ensures
            r@ == self.spec_unselected_cards(),
    {
        let n = self.cards.len();
        let mut out: Vec<Card> = Vec::new();
        let mut i: usize = 0;
        while i < n
            invariant
                i <= n,
                n == self.cards@.len(),
                out@ == self.unsel_prefix(i as int),
            decreases n - i,
        {
            if !self.is_selected(i) {
                out.push(self.cards[i]);
            }
            i = i + 1;
        }
        out
    }

    /// Remove the card at the given position and return it. The selection
    /// is remapped so that no selected position goes stale: selections of
    /// the removed card disappear and selections above it shift down.
    pub fn remove_card(&mut self, index: usize) -> (r: GameResult<Card>)
        ensures
            index >= old(self).cards@.len() ==> (r matches Err(e) && e is InvalidGameState
                && *final(self) == *old(self)),
            index < old(self).cards@.len() ==> (r matches Ok(c) && c == old(self).cards@[index as int]
                && final(self).cards@ == old(self).cards@.remove(index as int)
                && final(self).selected_indices@ == remap_sel_after_remove(
                old(self).selected_indices@,
                index,
            )),
            old(self).wf() ==> final(self).wf(),
    {
        if index >= self.cards.len() {
            return Err(GameError::InvalidGameState("index out of bounds for hand".to_owned()));
        }
        let ghost orig = self.selected_indices@;
        let n = self.selected_indices.len();
        let mut kept: Vec<usize> = Vec::new();
        let mut k: usize = 0;
        while k < n
            invariant
                k <= n,
                n == self.selected_indices@.len(),
                self.selected_indices@ == orig,
                kept@ == remap_sel_after_remove(orig.take(k as int), index),
            decreases n - k,
        {
            let j = self.selected_indices[k];
            proof {
                assert(orig.take(k + 1).drop_last() =~= orig.take(k as int));
                assert(orig.take(k + 1).last() == orig[k as int]);
            }
            if j > index {
                kept.push(j - 1);
            } else if j < index {
                kept.push(j);
            }
            k = k + 1;
        }
        proof {
            assert(orig.take(n as int) =~= orig);
        }
        self.selected_indices = kept;
        let c = self.cards.remove(index);
        proof {
            if old(self).wf() {
                lemma_remap_sel_after_remove_wf(orig, index, old(self).cards@.len() as nat);
            }
        }
        Ok(c)
    }

    /// Remove all selected cards at once and return them in left-to-right
    /// position order; the remaining cards keep their order and the
    /// selection is cleared. With nothing selected this returns an empty
    /// vector and changes nothing.
    pub fn remove_selected_cards(&mut self) -> (r: GameResult<Vec<Card>>)
        requires
            old(self).wf(),
        ensures
            r matches Ok(removed) && removed@ == old(self).spec_selected_by_position(),
            final(self).cards@ == old(self).spec_unselected_cards(),
            final(self).selected_indices@ == Seq::<usize>::empty(),
            final(self).wf(),
    {
        let ghost orig = *self;
        let n = self.cards.len();
        let mut kept: Vec<Card> = Vec::new();
        let mut removed: Vec<Card> = Vec::new();
        let mut i: usize = 0;
        while i < n
            invariant
                i <= n,
                *self == orig,
                n == self.cards@.len(),
                kept@ == self.unsel_prefix(i as int),
                removed@ == self.sel_prefix(i as int),
            decreases n - i,
        {
            if self.is_selected(i) {
                removed.push(self.cards[i]);
            } else {
                kept.push(self.cards[i]);
            }
            i = i + 1;
        }
        self.cards = kept;
        self.selected_indices = Vec::new();
        Ok(removed)
    }

    /// Remove all selected cards and push each into the deck's discard
    /// pile, highest position first. Fails, changing nothing, if no card is
    /// selected. Afterwards no selected position remains.
    pub fn discard_selected_cards(&mut self, deck: &mut Deck) -> (r: GameResult<()>)
        requires
            old(self).wf(),
        ensures
            old(self).selected_indices@.len() == 0 ==> (r matches Err(e) && e is InvalidGameState
                && *final(self) == *old(self) && *final(deck) == *old(deck)),
            old(self).selected_indices@.len() > 0 ==> (r is Ok
                && final(self).cards@ == old(self).spec_unselected_cards()
                && final(deck).discard_pile@ == old(deck).discard_pile@
                    + old(self).spec_selected_by_position().reverse()
                && final(deck).cards == old(deck).cards
                && final(deck).full_deck == old(deck).full_deck
                && final(deck).deck_type == old(deck).deck_type),
            final(self).selected_indices@ == Seq::<usize>::empty(),
            final(self).wf(),
    {
        if self.selected_indices.len() == 0 {
            return Err(GameError::InvalidGameState("no cards selected to discard".to_owned()));
        }
        let removed = match self.remove_selected_cards() {
            Ok(v) => v,
            Err(e) => {
                return Err(e);
            },
        };
        let ghost rem = removed@;
        let mut k: usize = removed.len();
        while k > 0
            invariant
                k <= rem.len(),
                removed@ == rem,
                deck.discard_pile@ == old(deck).discard_pile@ + rem.skip(k as int).reverse(),
                deck.cards == old(deck).cards,
                deck.full_deck == old(deck).full_deck,
                deck.deck_type == old(deck).deck_type,
            decreases k,
        {
            k = k - 1;
            deck.discard(removed[k]);
            proof {
                assert(deck.discard_pile@ =~= old(deck).discard_pile@ + rem.skip(k as int).reverse());
            }
        }
        proof {
            assert(rem.skip(0) =~= rem);
        }
        Ok(())
    }

    /// Swap the card at `index` one position to the left; selections move
    /// with their cards. Fails, changing nothing, at the left boundary or
    /// out of range.
    pub fn move_left(&mut self, index: usize) -> (r: GameResult<()>)
        ensures
            (index == 0 || index >= old(self).cards@.len()) ==> (r matches Err(e)
                && e is InvalidGameState && *final(self) == *old(self)),
            (0 < index < old(self).cards@.len()) ==> (r is Ok && final(self).cards@ == old(
                self,
            ).cards@.update(index - 1, old(self).cards@[index as int]).update(
                index as int,
                old(self).cards@[index - 1],
            ) && final(self).selected_indices@ == old(self).selected_indices@.map_values(
                swap_mapper(index),
            )),
            old(self).wf() ==> final(self).wf(),
    {
        if index == 0 || index >= self.cards.len() {
            return Err(GameError::InvalidGameState("cannot move card left".to_owned()));
        }
        self.swap_with_prev(index);
        Ok(())
    }

    /// Swap the card at `index` one position to the right; selections move
    /// with their cards. Fails, changing nothing, at the right boundary.
    pub fn move_right(&mut self, index: usize) -> (r: GameResult<()>)
        ensures
            (old(self).cards@.len() == 0 || index + 1 >= old(self).cards@.len()) ==> (r
                matches Err(e) && e is InvalidGameState && *final(self) == *old(self)),
            index + 1 < old(self).cards@.len() ==> (r is Ok && final(self).cards@ == old(
                self,
            ).cards@.update(index as int, old(self).cards@[index + 1]).update(
                index + 1,
                old(self).cards@[index as int],
            ) && final(self).selected_indices@ == old(self).selected_indices@.map_values(
                swap_mapper((index + 1) as usize),
            )),
            old(self).wf() ==> final(self).wf(),
    {
        if self.cards.len() == 0 || index >= self.cards.len() - 1 {
            return Err(GameError::InvalidGameState("cannot move card right".to_owned()));
        }
        self.swap_with_prev(index + 1);
        Ok(())
    }

    /// Swap the cards at `index - 1` and `index` and remap the selection.
    fn swap_with_prev(&mut self, index: usize)
        requires
            0 < index < old(self).cards@.len(),
        ensures
            final(self).cards@ == old(self).cards@.update(index - 1, old(self).cards@[index as int])
                .update(index as int, old(self).cards@[index - 1]),
            final(self).selected_indices@ == old(self).selected_indices@.map_values(
                swap_mapper(index),
            ),
            old(self).wf() ==> final(self).wf(),
    {
        let ghost orig = self.selected_indices@;
        let n = self.selected_indices.len();
        let mut k: usize = 0;
        while k < n
            invariant
                k <= n,
                0 < index,
                n == self.selected_indices@.len(),
                self.cards == old(self).cards,
                forall|t: int|
                    0 <= t < k ==> self.selected_indices@[t] == swap_pos(orig[t], index),
                forall|t: int| k <= t < n ==> self.selected_indices@[t] == orig[t],
            decreases n - k,
        {
            let j = self.selected_indices[k];
            if j == index {
                self.selected_indices[k] = index - 1;
            } else if j == index - 1 {
                self.selected_indices[k] = index;
            }
            k = k + 1;
        }
        proof {
            assert(self.selected_indices@ =~= orig.map_values(swap_mapper(index)));
        }
        let a = self.cards[index - 1];
        let b = self.cards[index];
        self.cards[index - 1] = b;
        self.cards[index] = a;
        proof {
            if old(self).wf() {
                let f = swap_mapper(index);
                assert forall|k1: int, k2: int|
                    0 <= k1 < k2 < orig.len() implies orig.map_values(f)[k1] != orig.map_values(
                    f,
                )[k2] by {
                    assert(orig[k1] != orig[k2]);
                }
            }
        }
    }

    /// Sort cards by rank, highest first. The selection is rebuilt from card
    /// identities, so the same cards remain selected at their new positions.
    pub fn sort_by_rank_desc(&mut self)
        requires
            old(self).wf(),
        ensures
            final(self).cards@.to_multiset() == old(self).cards@.to_multiset(),
            sorted_by(final(self).cards@, false),
            final(self).spec_selected_id_set() == old(self).spec_selected_id_set(),
            old(self).selected_indices@.len() == 0 ==> final(self).selected_indices@.len() == 0,
            final(self).wf(),
    {
        self.sort_preserving_selection(false);
    }

    /// Sort cards by suit (in the fixed suit order), then by rank descending
    /// within each suit. The selection is rebuilt from card identities, so
    /// the same cards remain selected at their new positions.
    pub fn sort_by_suit_then_rank(&mut self)
        requires
            old(self).wf(),
        ensures
            final(self).cards@.to_multiset() == old(self).cards@.to_multiset(),
            sorted_by(final(self).cards@, true),
            final(self).spec_selected_id_set() == old(self).spec_selected_id_set(),
            old(self).selected_indices@.len() == 0 ==> final(self).selected_indices@.len() == 0,
            final(self).wf(),
    {
        self.sort_preserving_selection(true);
    }

    /// Sort the cards by the chosen order, then rebuild the selection by
    /// card identity.
    fn sort_preserving_selection(&mut self, by_suit: bool)
        requires
            old(self).wf(),
        ensures
            final(self).cards@.to_multiset() == old(self).cards@.to_multiset(),
            sorted_by(final(self).cards@, by_suit),
            final(self).spec_selected_id_set() == old(self).spec_selected_id_set(),
            old(self).selected_indices@.len() == 0 ==> final(self).selected_indices@.len() == 0,
            final(self).wf(),
    {
        broadcast use vstd::seq_lib::group_to_multiset_ensures;

        // Remember which cards are selected, by identity.
        let ghost orig = *self;
        let m = self.selected_indices.len();
        let mut ids: Vec<u64> = Vec::new();
        let mut k: usize = 0;
        while k < m
            invariant
                k <= m,
                *self == orig,
                self.wf(),
                m == self.selected_indices@.len(),
                ids@.len() == k,
                forall|t: int|
                    0 <= t < k ==> ids@[t] == self.cards@[self.selected_indices@[t] as int].id,
            decreases m - k,
        {
            let idx = self.selected_indices[k];
            ids.push(self.cards[idx].id);
            k = k + 1;
        }
        proof {
            assert(ids@.to_set() =~= orig.spec_selected_id_set()) by {
                assert forall|id: u64| ids@.to_set().contains(id) implies orig.spec_selected_id_set().contains(
                    id,
                ) by {
                    let t = choose|t: int| 0 <= t < ids@.len() && ids@[t] == id;
                    assert(orig.cards@[orig.selected_indices@[t] as int].id == id);
                }
                assert forall|id: u64| orig.spec_selected_id_set().contains(id) implies ids@.to_set().contains(
                    id,
                ) by {
                    let t = choose|t: int|
                        0 <= t < orig.selected_indices@.len()
                            && orig.cards@[orig.selected_indices@[t] as int].id == id;
                    assert(ids@[t] == id);
                    assert(ids@.contains(id));
                }
            }
        }
        // Sort the cards.
        self.sort_cards(by_suit);
        // Rebuild the selection: every position whose card is one of the
        // remembered identities becomes selected.
        let n = self.cards.len();
        let mut newsel: Vec<usize> = Vec::new();
        let mut p: usize = 0;
        while p < n
            invariant
                p <= n,
                n == self.cards@.len(),
                self.cards@.to_multiset() == orig.cards@.to_multiset(),
                sorted_by(self.cards@, by_suit),
                forall|t1: int, t2: int|
                    0 <= t1 < t2 < newsel@.len() ==> newsel@[t1] < newsel@[t2],
                forall|t: int|
                    0 <= t < newsel@.len() ==> ((#[trigger] newsel@[t]) as int) < p as int
                        && ids@.contains(self.cards@[newsel@[t] as int].id),
                forall|q: int|
                    0 <= q < p && ids@.contains(#[trigger] self.cards@[q].id) ==> newsel@.contains(
                        q as usize,
                    ),
            decreases n - p,
        {
            let ghost prev = newsel@;
            let hit = contains_u64(&ids, self.cards[p].id);
            if hit {
                newsel.push(p);
            }
            proof {
                assert forall|q: int|
                    0 <= q < p + 1 && ids@.contains(#[trigger] self.cards@[q].id) implies newsel@.contains(
                    q as usize,
                ) by {
                    if q < p as int {
                        assert(prev.contains(q as usize));
                        let w = choose|w: int| 0 <= w < prev.len() && prev[w] == q as usize;
                        assert(newsel@[w] == q as usize);
                    } else {
                        assert(newsel@[newsel@.len() - 1] == p);
                    }
                }
            }
            p = p + 1;
        }
        self.selected_indices = newsel;
        proof {
            // An empty selection stays empty: nothing matches an empty
            // identity list.
            if old(self).selected_indices@.len() == 0 {
                assert(ids@.len() == 0);
                if self.selected_indices@.len() > 0 {
                    assert(ids@.contains(self.cards@[self.selected_indices@[0] as int].id));
                    assert(false);
                }
            }
            // Well-formedness: positions are in range and strictly increasing.
            assert(self.selected_indices@.no_duplicates());
            // Selection-by-identity is preserved.
            orig.cards@.to_multiset_ensures();
            self.cards@.to_multiset_ensures();
            assert(self.spec_selected_id_set() =~= ids@.to_set()) by {
                assert forall|id: u64| self.spec_selected_id_set().contains(id) implies ids@.to_set().contains(
                    id,
                ) by {
                    let t = choose|t: int|
                        0 <= t < self.selected_indices@.len()
                            && self.cards@[self.selected_indices@[t] as int].id == id;
                    assert(ids@.contains(id));
                }
                assert forall|id: u64| ids@.to_set().contains(id) implies self.spec_selected_id_set().contains(
                    id,
                ) by {
                    let t = choose|t: int| 0 <= t < ids@.len() && ids@[t] == id;
                    let c = orig.cards@[orig.selected_indices@[t] as int];
                    assert(orig.cards@.contains(c));
                    assert(orig.cards@.to_multiset().count(c) > 0);
                    assert(self.cards@.to_multiset().count(c) > 0);
                    assert(self.cards@.contains(c));
                    let q = choose|q: int| 0 <= q < self.cards@.len() && self.cards@[q] == c;
                    assert(ids@.contains(self.cards@[q].id));
                    assert(newsel@.contains(q as usize));
                    let w = choose|w: int| 0 <= w < newsel@.len() && newsel@[w] == q as usize;
                    assert(self.cards@[self.selected_indices@[w] as int].id == id);
                }
            }
        }
    }

    /// Insertion sort of the cards by the chosen order; the selection list
    /// is left untouched.
    fn sort_cards(&mut self, by_suit: bool)
        ensures
            final(self).cards@.to_multiset() == old(self).cards@.to_multiset(),
            final(self).cards@.len() == old(self).cards@.len(),
            sorted_by(final(self).cards@, by_suit),
            final(self).selected_indices == old(self).selected_indices,
    {
        let n = self.cards.len();
        let mut i: usize = 0;
        while i < n
            invariant
                i <= n,
                n == self.cards@.len(),
                self.cards@.to_multiset() == old(self).cards@.to_multiset(),
                sorted_by(self.cards@.take(i as int), by_suit),
                self.selected_indices == old(self).selected_indices,
            decreases n - i,
        {
            proof {
                assert forall|k1: int, k2: int|
                    0 <= k1 < k2 <= i as int && k2 != i as int implies card_le(
                    self.cards@[k1],
                    self.cards@[k2],
                    by_suit,
                ) by {
                    assert(self.cards@.take(i as int)[k1] == self.cards@[k1]);
                    assert(self.cards@.take(i as int)[k2] == self.cards@[k2]);
                }
            }
            let mut j: usize = i;
            while j > 0 && !card_le_exec(&self.cards[j - 1], &self.cards[j], by_suit)
                invariant
                    j <= i < n,
                    n == self.cards@.len(),
                    self.cards@.to_multiset() == old(self).cards@.to_multiset(),
                    self.selected_indices == old(self).selected_indices,
                    forall|k1: int, k2: int|
                        0 <= k1 < k2 <= i as int && k2 != j as int ==> card_le(
                            self.cards@[k1],
                            self.cards@[k2],
                            by_suit,
                        ),
                decreases j,
            {
                let a = self.cards[j - 1];
                let b = self.cards[j];
                let ghost before = self.cards@;
                self.cards[j - 1] = b;
                self.cards[j] = a;
                proof {
                    broadcast use vstd::seq_lib::to_multiset_update;
                    broadcast use vstd::multiset::group_multiset_axioms;

                    let mset = before.to_multiset();
                    let s1 = before.update(j - 1, b);
                    assert(s1.to_multiset() == mset.insert(b).remove(a));
                    assert(s1[j as int] == b);
                    assert(self.cards@.to_multiset() == s1.to_multiset().insert(a).remove(b));
                    before.to_multiset_ensures();
                    assert(before.contains(a) && before.contains(b));
                    assert(mset.count(a) > 0 && mset.count(b) > 0);
                    assert(self.cards@.to_multiset() =~= mset);
                }
                j = j - 1;
            }
            proof {
                assert(sorted_by(self.cards@.take(i + 1), by_suit)) by {
                    assert forall|k1: int, k2: int|
                        0 <= k1 < k2 < i + 1 implies card_le(
                        #[trigger] self.cards@.take(i + 1)[k1],
                        #[trigger] self.cards@.take(i + 1)[k2],
                        by_suit,
                    ) by {
                        if k2 == j as int && j > 0 {
                            assert(card_le(self.cards@[j - 1], self.cards@[j as int], by_suit));
                            if k1 < j - 1 {
                                assert(card_le(self.cards@[k1], self.cards@[j - 1], by_suit));
                            }
                        }
                    }
                }
            }
            i = i + 1;
        }
        proof {
            assert(self.cards@.take(n as int) =~= self.cards@);
        }
    }

    /// Total base chip value of the cards in the hand (saturating).
    pub fn total_chip_value(&self) -> (r: u64)
        ensures
            r == spec_total_chips(self.cards@),
    {
        let n = self.cards.len();
        let mut sum: u64 = 0;
        let mut i: usize = 0;
        while i < n
            invariant
                i <= n,
                n == self.cards@.len(),
                sum == spec_total_chips(self.cards@.take(i as int)),
            decreases n - i,
        {
            proof {
                assert(self.cards@.take(i + 1).drop_last() =~= self.cards@.take(i as int));
            }
            sum = crate::arith::add_sat(sum, self.cards[i].chip_value());
            i = i + 1;
        }
        proof {
            assert(self.cards@.take(n as int) =~= self.cards@);
        }
        sum
    }

    /// Total base multiplier value of the cards, in hundredths: one unit
    /// (100) per card, saturating.
    pub fn total_mult_value(&self) -> (r: u64)
        ensures
            r == crate::arith::cap(100 * self.cards@.len() as int),
    {
        let n = self.cards.len();
        let mut sum: u64 = 0;
        let mut i: usize = 0;
        while i < n
            invariant
                i <= n,
                n == self.cards@.len(),
                sum == crate::arith::cap(100 * i as int),
            decreases n - i,
        {
            sum = crate::arith::add_sat(sum, 100);
            i = i + 1;
        }
        sum
    }
}

impl Default for Hand {
    /// An empty hand with nothing selected.
    fn default() -> (r: Hand)
        ensures
            r.cards@ == Seq::<Card>::empty(),
            r.selected_indices@ == Seq::<usize>::empty(),
            r.wf(),
    {
        Hand::new()
    }
}

/// Total base chip value of a card sequence, saturating at `u64::MAX`.
pub open spec fn spec_total_chips(s: Seq<Card>) -> int
    decreases s.len(),
{
    if s.len() == 0 {
        0
    } else {
        crate::arith::cap(spec_total_chips(s.drop_last()) + s.last().spec_chip_value())
    }
}

/// A filter that keeps every element returns the sequence unchanged.
proof fn lemma_filter_keeps_all<A>(s: Seq<A>, pred: spec_fn(A) -> bool)
    requires
        forall|k: int| 0 <= k < s.len() ==> pred(#[trigger] s[k]),
    ensures
        s.filter(pred) == s,
    decreases s.len(),
{
    reveal(Seq::filter);
    if s.len() > 0 {
        assert forall|k: int| 0 <= k < s.drop_last().len() implies pred(
            #[trigger] s.drop_last()[k],
        ) by {
            assert(s.drop_last()[k] == s[k]);
        }
        lemma_filter_keeps_all(s.drop_last(), pred);
        assert(s.drop_last().filter(pred).push(s.last()) =~= s);
    }
}

/// Filtering keeps positions in range and keeps distinct entries distinct.
proof fn lemma_filter_sub_wf(s: Seq<usize>, pred: spec_fn(usize) -> bool)
    requires
        s.no_duplicates(),
    ensures
        s.filter(pred).no_duplicates(),
        forall|k: int| 0 <= k < s.filter(pred).len() ==> s.contains(#[trigger] s.filter(pred)[k]),
    decreases s.len(),
{
    reveal(Seq::filter);
    broadcast use vstd::seq_lib::group_seq_properties;

    if s.len() > 0 {
        let rest = s.drop_last();
        assert(rest.no_duplicates());
        lemma_filter_sub_wf(rest, pred);
        let out = s.filter(pred);
        if pred(s.last()) {
            assert(out == rest.filter(pred).push(s.last()));
            if rest.filter(pred).contains(s.last()) {
                rest.lemma_filter_contains_rev(pred, s.last());
                let t = choose|t: int| 0 <= t < rest.len() && rest[t] == s.last();
                assert(s[t] == s[s.len() - 1]);
                assert(false);
            }
            assert forall|k: int| 0 <= k < out.len() implies s.contains(#[trigger] out[k]) by {
                if k < out.len() - 1 {
                    assert(rest.contains(out[k]));
                    let t = choose|t: int| 0 <= t < rest.len() && rest[t] == out[k];
                    assert(s[t] == out[k]);
                } else {
                    assert(s[s.len() - 1] == out[k]);
                }
            }
        } else {
            assert(out == rest.filter(pred));
            assert forall|k: int| 0 <= k < out.len() implies s.contains(#[trigger] out[k]) by {
                assert(rest.contains(out[k]));
                let t = choose|t: int| 0 <= t < rest.len() && rest[t] == out[k];
                assert(s[t] == out[k]);
            }
        }
    }
}

/// After remapping for a removal at `index`, all positions stay in range of
/// the shorter hand and stay pairwise distinct.
proof fn lemma_remap_sel_after_remove_wf(sel: Seq<usize>, index: usize, len: nat)
    requires
        forall|k: int| 0 <= k < sel.len() ==> (#[trigger] sel[k] as int) < len,
        forall|k1: int, k2: int| 0 <= k1 < k2 < sel.len() ==> sel[k1] != sel[k2],
        (index as int) < len,
    ensures
        forall|k: int|
            0 <= k < remap_sel_after_remove(sel, index).len() ==> (
            #[trigger] remap_sel_after_remove(sel, index)[k] as int) < len - 1,
        forall|k1: int, k2: int|
            0 <= k1 < k2 < remap_sel_after_remove(sel, index).len() ==> remap_sel_after_remove(
                sel,
                index,
            )[k1] != remap_sel_after_remove(sel, index)[k2],
        forall|k: int|
            0 <= k < remap_sel_after_remove(sel, index).len() ==> exists|t: int|
                0 <= t < sel.len() && sel[t] != index && #[trigger] remap_sel_after_remove(
                    sel,
                    index,
                )[k] == (if sel[t] > index {
                    (sel[t] - 1) as usize
                } else {
                    sel[t]
                }),
    decreases sel.len(),
{
    if sel.len() > 0 {
        lemma_remap_sel_after_remove_wf(sel.drop_last(), index, len);
        let prefix = remap_sel_after_remove(sel.drop_last(), index);
        let out = remap_sel_after_remove(sel, index);
        let j = sel.last();
        if j != index {
            let mapped: usize = if j > index {
                (j - 1) as usize
            } else {
                j
            };
            assert(out == prefix.push(mapped));
            // The new entry differs from every earlier entry: both come from
            // distinct earlier positions, and the shift keeps them apart.
            assert forall|k: int| 0 <= k < out.len() - 1 implies (#[trigger] out[k]) != out[out.len()
                - 1] by {
                let t = choose|t: int|
                    0 <= t < sel.drop_last().len() && sel.drop_last()[t] != index
                        && #[trigger] prefix[k] == (if sel.drop_last()[t] > index {
                        (sel.drop_last()[t] - 1) as usize
                    } else {
                        sel.drop_last()[t]
                    });
                assert(sel[t] == sel.drop_last()[t]);
                assert(sel[t] != j);
            }
            assert forall|k: int| 0 <= k < out.len() implies exists|t: int|
                0 <= t < sel.len() && sel[t] != index && #[trigger] out[k] == (if sel[t] > index {
                    (sel[t] - 1) as usize
                } else {
                    sel[t]
                }) by {
                if k < out.len() - 1 {
                    let t = choose|t: int|
                        0 <= t < sel.drop_last().len() && sel.drop_last()[t] != index
                            && #[trigger] prefix[k] == (if sel.drop_last()[t] > index {
                            (sel.drop_last()[t] - 1) as usize
                        } else {
                            sel.drop_last()[t]
                        });
                    assert(sel[t] == sel.drop_last()[t]);
                    assert(0 <= t < sel.len() && sel[t] != index && out[k] == (if sel[t] > index {
                        (sel[t] - 1) as usize
                    } else {
                        sel[t]
                    }));
                } else {
                    let t = sel.len() - 1;
                    assert(0 <= t < sel.len() && sel[t] != index && out[k] == (if sel[t] > index {
                        (sel[t] - 1) as usize
                    } else {
                        sel[t]
                    }));
                }
            }
        }
    }
}

} // verus!
