//! Poker-hand detection: classify a non-empty set of played cards as the
//! rarest matching hand type and return the exact subset of cards that
//! scores, sorted by ascending rank.
//!
//! Hand types are evaluated from rarest to commonest, and composite hands
//! are checked before their components, so a hand that is at once
//! five-of-a-kind and flush reports flush five. A straight uses five
//! consecutive distinct ranks, Ace high only and without wraparound; of
//! several qualifying runs the lowest-starting one is taken. The flush
//! scoring subset is, by policy, every card of the flush suit, not only
//! five of them.

use vstd::prelude::*;
use vstd::seq_lib::*;

use crate::card::{Card, Rank, Suit};
use crate::planet::{Planets, PokerHand};

verus! {

/// How many cards of the sequence have the given rank.
pub open spec fn count_rank(s: Seq<Card>, rank: Rank) -> nat
    decreases s.len(),
{
    if s.len() == 0 {
        0
    } else {
        count_rank(s.drop_last(), rank) + if s.last().rank == rank {
            1nat
        } else {
            0nat
        }
    }
}

/// How many cards of the sequence have the given suit.
pub open spec fn count_suit(s: Seq<Card>, suit: Suit) -> nat
    decreases s.len(),
{
    if s.len() == 0 {
        0
    } else {
        count_suit(s.drop_last(), suit) + if s.last().suit == suit {
            1nat
        } else {
            0nat
        }
    }
}

/// Whether some card has the given rank value.
pub open spec fn present_value(s: Seq<Card>, v: int) -> bool {
    exists|k: int| 0 <= k < s.len() && (#[trigger] s[k]).rank.spec_value() == v
}

/// Whether exactly `n` cards share some rank.
pub open spec fn has_rank_count(s: Seq<Card>, n: nat) -> bool {
    exists|rank: Rank| count_rank(s, rank) == n
}

/// Whether five or more cards share some rank.
pub open spec fn has_five_of_a_kind(s: Seq<Card>) -> bool {
    exists|rank: Rank| count_rank(s, rank) >= 5
}

/// Whether five or more cards share some suit.
pub open spec fn is_flush(s: Seq<Card>) -> bool {
    exists|suit: Suit| count_suit(s, suit) >= 5
}

/// A three-of-a-kind rank beside a separate pair rank.
pub open spec fn is_full_house(s: Seq<Card>) -> bool {
    has_rank_count(s, 3) && has_rank_count(s, 2)
}

/// At least two distinct ranks that each appear exactly twice.
pub open spec fn is_two_pair(s: Seq<Card>) -> bool {
    exists|r1: Rank, r2: Rank| r1 != r2 && count_rank(s, r1) == 2 && count_rank(s, r2) == 2
}

/// A run of five consecutive rank values beginning at `start`.
pub open spec fn is_straight_from(s: Seq<Card>, start: int) -> bool {
    forall|d: int| 0 <= d < 5 ==> #[trigger] present_value(s, start + d)
}

/// Five consecutive distinct ranks, Ace high only, no wraparound.
pub open spec fn is_straight(s: Seq<Card>) -> bool {
    exists|start: int| 2 <= start <= 10 && #[trigger] is_straight_from(s, start)
}

/// The lowest straight start at or above `from`, or `-1`.
pub open spec fn first_straight_from(s: Seq<Card>, from: int) -> int
    decreases 11 - from,
{
    if from > 10 {
        -1
    } else if is_straight_from(s, from) {
        from
    } else {
        first_straight_from(s, from + 1)
    }
}

/// The lowest straight start of the hand, or `-1` if it has no straight.
pub open spec fn straight_start(s: Seq<Card>) -> int {
    first_straight_from(s, 2)
}

/// The flush suit: the first suit, in the fixed suit order, that five or
/// more cards share.
pub open spec fn flush_suit(s: Seq<Card>) -> Suit {
    if count_suit(s, Suit::Spades) >= 5 {
        Suit::Spades
    } else if count_suit(s, Suit::Hearts) >= 5 {
        Suit::Hearts
    } else if count_suit(s, Suit::Clubs) >= 5 {
        Suit::Clubs
    } else {
        Suit::Diamonds
    }
}

/// The cards whose rank appears exactly `n` times in `s`.
pub open spec fn rank_count_is(s: Seq<Card>, n: nat) -> spec_fn(Card) -> bool {
    |c: Card| count_rank(s, c.rank) == n
}

/// The cards whose rank appears at least `n` times in `s`.
pub open spec fn rank_count_at_least(s: Seq<Card>, n: nat) -> spec_fn(Card) -> bool {
    |c: Card| count_rank(s, c.rank) >= n
}

/// The cards of the given suit.
pub open spec fn suit_is(suit: Suit) -> spec_fn(Card) -> bool {
    |c: Card| c.suit == suit
}

/// The cards whose rank value lies in the five-value window at `start`.
pub open spec fn in_window(start: int) -> spec_fn(Card) -> bool {
    |c: Card| start <= c.rank.spec_value() < start + 5
}

/// The classification ladder, rarest first. Composite hands are checked
/// before their components.
pub open spec fn spec_classify(s: Seq<Card>) -> PokerHand {
    if has_five_of_a_kind(s) && is_flush(s) {
        PokerHand::FlushFive
    } else if is_full_house(s) && is_flush(s) {
        PokerHand::FlushHouse
    } else if has_five_of_a_kind(s) {
        PokerHand::FiveOfAKind
    } else if is_straight(s) && is_flush(s) {
        PokerHand::StraightFlush
    } else if has_rank_count(s, 4) {
        PokerHand::FourOfAKind
    } else if is_full_house(s) {
        PokerHand::FullHouse
    } else if is_flush(s) {
        PokerHand::Flush
    } else if is_straight(s) {
        PokerHand::Straight
    } else if has_rank_count(s, 3) {
        PokerHand::ThreeOfAKind
    } else if is_two_pair(s) {
        PokerHand::TwoPair
    } else if has_rank_count(s, 2) {
        PokerHand::Pair
    } else {
        PokerHand::HighCard
    }
}

/// The sequence is sorted by ascending rank value.
pub open spec fn sorted_rank_asc(s: Seq<Card>) -> bool {
    forall|k1: int, k2: int|
        0 <= k1 < k2 < s.len() ==> (#[trigger] s[k1]).rank.spec_value() <= (
        #[trigger] s[k2]).rank.spec_value()
}

/// What the scoring subset holds for each classification of the played
/// cards `s`: the composite hands and the full house score every card; a
/// flush scores every card of the flush suit; a straight scores every card
/// inside the lowest qualifying five-rank window; the n-of-a-kind hands and
/// the pairs score exactly the cards of the ranks with the matching count;
/// a high card scores one card of the highest rank.
pub open spec fn valid_scoring_subset(s: Seq<Card>, ph: PokerHand, sub: Seq<Card>) -> bool {
    match ph {
        PokerHand::FlushFive | PokerHand::FlushHouse | PokerHand::StraightFlush
            | PokerHand::FullHouse => sub.to_multiset() == s.to_multiset(),
        PokerHand::FiveOfAKind => sub.to_multiset() == s.filter(
            rank_count_at_least(s, 5),
        ).to_multiset(),
        PokerHand::FourOfAKind => sub.to_multiset() == s.filter(rank_count_is(s, 4)).to_multiset(),
        PokerHand::Flush => sub.to_multiset() == s.filter(suit_is(flush_suit(s))).to_multiset(),
        PokerHand::Straight => sub.to_multiset() == s.filter(
            in_window(straight_start(s)),
        ).to_multiset(),
        PokerHand::ThreeOfAKind => sub.to_multiset() == s.filter(rank_count_is(s, 3)).to_multiset(),
        PokerHand::TwoPair | PokerHand::Pair => sub.to_multiset() == s.filter(
            rank_count_is(s, 2),
        ).to_multiset(),
        PokerHand::HighCard => sub.len() == 1 && s.contains(sub[0]) && (forall|k: int|
            0 <= k < s.len() ==> (#[trigger] s[k]).rank.spec_value() <= sub[0].rank.spec_value()),
    }
}

/// The rank at a position of the fixed rank order, Two first, Ace last.
pub open spec fn spec_rank_of_index(k: int) -> Rank {
    if k == 0 {
        Rank::Two
    } else if k == 1 {
        Rank::Three
    } else if k == 2 {
        Rank::Four
    } else if k == 3 {
        Rank::Five
    } else if k == 4 {
        Rank::Six
    } else if k == 5 {
        Rank::Seven
    } else if k == 6 {
        Rank::Eight
    } else if k == 7 {
        Rank::Nine
    } else if k == 8 {
        Rank::Ten
    } else if k == 9 {
        Rank::Jack
    } else if k == 10 {
        Rank::Queen
    } else if k == 11 {
        Rank::King
    } else {
        Rank::Ace
    }
}

/// Every rank is reached by some index below 13.
proof fn lemma_rank_index_surjective(rank: Rank)
    ensures
        exists|k: int| 0 <= k < 13 && spec_rank_of_index(k) == rank,
{
    let k: int = match rank {
        Rank::Two => 0,
        Rank::Three => 1,
        Rank::Four => 2,
        Rank::Five => 3,
        Rank::Six => 4,
        Rank::Seven => 5,
        Rank::Eight => 6,
        Rank::Nine => 7,
        Rank::Ten => 8,
        Rank::Jack => 9,
        Rank::Queen => 10,
        Rank::King => 11,
        Rank::Ace => 12,
    };
    assert(0 <= k < 13 && spec_rank_of_index(k) == rank);
}

/// Executable counterpart of [`spec_rank_of_index`].
fn rank_of_index(k: usize) -> (r: Rank)
    ensures
        r == spec_rank_of_index(k as int),
{
    if k == 0 {
        Rank::Two
    } else if k == 1 {
        Rank::Three
    } else if k == 2 {
        Rank::Four
    } else if k == 3 {
        Rank::Five
    } else if k == 4 {
        Rank::Six
    } else if k == 5 {
        Rank::Seven
    } else if k == 6 {
        Rank::Eight
    } else if k == 7 {
        Rank::Nine
    } else if k == 8 {
        Rank::Ten
    } else if k == 9 {
        Rank::Jack
    } else if k == 10 {
        Rank::Queen
    } else if k == 11 {
        Rank::King
    } else {
        Rank::Ace
    }
}

/// Count the cards of the given rank.
fn count_rank_exec(cards: &Vec<Card>, rank: Rank) -> (r: usize)
    ensures
        r == count_rank(cards@, rank),
{
    let n = cards.len();
    let mut count: usize = 0;
    let mut i: usize = 0;
    while i < n
        invariant
            i <= n,
            n == cards@.len(),
            count == count_rank(cards@.take(i as int), rank),
            count <= i,
        decreases n - i,
    {
        proof {
            assert(cards@.take(i + 1).drop_last() =~= cards@.take(i as int));
        }
        if cards[i].rank == rank {
            count = count + 1;
        }
        i = i + 1;
    }
    proof {
        assert(cards@.take(n as int) =~= cards@);
    }
    count
}

/// Count the cards of the given suit.
fn count_suit_exec(cards: &Vec<Card>, suit: Suit) -> (r: usize)
    ensures
        r == count_suit(cards@, suit),
{
    let n = cards.len();
    let mut count: usize = 0;
    let mut i: usize = 0;
    while i < n
        invariant
            i <= n,
            n == cards@.len(),
            count == count_suit(cards@.take(i as int), suit),
            count <= i,
        decreases n - i,
    {
        proof {
            assert(cards@.take(i + 1).drop_last() =~= cards@.take(i as int));
        }
        if cards[i].suit == suit {
            count = count + 1;
        }
        i = i + 1;
    }
    proof {
        assert(cards@.take(n as int) =~= cards@);
    }
    count
}

/// Whether some card has the given rank value.
fn has_value_exec(cards: &Vec<Card>, v: u64) -> (r: bool)
    ensures
        r == present_value(cards@, v as int),
{
    let n = cards.len();
    let mut i: usize = 0;
    while i < n
        invariant
            i <= n,
            n == cards@.len(),
            forall|t: int| 0 <= t < i ==> (#[trigger] cards@[t]).rank.spec_value() != v as int,
        decreases n - i,
    {
        if cards[i].rank.value() == v {
            return true;
        }
        i = i + 1;
    }
    false
}

/// Whether exactly `n` cards share some rank.
fn has_rank_count_exec(cards: &Vec<Card>, n: usize) -> (r: bool)
    ensures
        r == has_rank_count(cards@, n as nat),
{
    let mut k: usize = 0;
    while k < 13
        invariant
            k <= 13,
            forall|t: int| 0 <= t < k ==> count_rank(cards@, #[trigger] spec_rank_of_index(t)) != n as nat,
        decreases 13 - k,
    {
        if count_rank_exec(cards, rank_of_index(k)) == n {
            return true;
        }
        k = k + 1;
    }
    proof {
        assert forall|rank: Rank| count_rank(cards@, rank) != n as nat by {
            lemma_rank_index_surjective(rank);
            let t = choose|t: int| 0 <= t < 13 && spec_rank_of_index(t) == rank;
            assert(count_rank(cards@, spec_rank_of_index(t)) != n as nat);
        }
    }
    false
}

/// Whether five or more cards share some rank.
fn has_five_of_a_kind_exec(cards: &Vec<Card>) -> (r: bool)
    ensures
        r == has_five_of_a_kind(cards@),
{
    let mut k: usize = 0;
    while k < 13
        invariant
            k <= 13,
            forall|t: int| 0 <= t < k ==> count_rank(cards@, #[trigger] spec_rank_of_index(t)) < 5,
        decreases 13 - k,
    {
        if count_rank_exec(cards, rank_of_index(k)) >= 5 {
            return true;
        }
        k = k + 1;
    }
    proof {
        assert forall|rank: Rank| count_rank(cards@, rank) < 5 by {
            lemma_rank_index_surjective(rank);
            let t = choose|t: int| 0 <= t < 13 && spec_rank_of_index(t) == rank;
            assert(count_rank(cards@, spec_rank_of_index(t)) < 5);
        }
    }
    false
}

/// Whether five or more cards share some suit.
fn is_flush_exec(cards: &Vec<Card>) -> (r: bool)
    ensures
        r == is_flush(cards@),
{
    let spades = count_suit_exec(cards, Suit::Spades);
    let hearts = count_suit_exec(cards, Suit::Hearts);
    let clubs = count_suit_exec(cards, Suit::Clubs);
    let diamonds = count_suit_exec(cards, Suit::Diamonds);
    let r = spades >= 5 || hearts >= 5 || clubs >= 5 || diamonds >= 5;
    proof {
        if !r {
            assert forall|suit: Suit| count_suit(cards@, suit) < 5 by {
                match suit {
                    Suit::Spades => assert(count_suit(cards@, Suit::Spades) < 5),
                    Suit::Hearts => assert(count_suit(cards@, Suit::Hearts) < 5),
                    Suit::Clubs => assert(count_suit(cards@, Suit::Clubs) < 5),
                    Suit::Diamonds => assert(count_suit(cards@, Suit::Diamonds) < 5),
                }
            }
        }
    }
    r
}

/// The flush suit of a flush hand.
pub(crate) fn flush_suit_exec(cards: &Vec<Card>) -> (r: Suit)
    ensures
        r == flush_suit(cards@),
{
    if count_suit_exec(cards, Suit::Spades) >= 5 {
        Suit::Spades
    } else if count_suit_exec(cards, Suit::Hearts) >= 5 {
        Suit::Hearts
    } else if count_suit_exec(cards, Suit::Clubs) >= 5 {
        Suit::Clubs
    } else {
        Suit::Diamonds
    }
}

/// Whether at least two distinct ranks each appear exactly twice.
fn is_two_pair_exec(cards: &Vec<Card>) -> (r: bool)
    ensures
        r == is_two_pair(cards@),
{
    let mut pairs: usize = 0;
    let ghost mut first_idx: int = -1;
    let mut k: usize = 0;
    while k < 13
        invariant
            k <= 13,
            pairs <= 2,
            pairs == 0 ==> forall|t: int|
                0 <= t < k ==> count_rank(cards@, #[trigger] spec_rank_of_index(t)) != 2,
            pairs == 1 ==> 0 <= first_idx < k as int && count_rank(
                cards@,
                spec_rank_of_index(first_idx),
            ) == 2 && forall|t: int|
                0 <= t < k && t != first_idx ==> count_rank(cards@, #[trigger] spec_rank_of_index(t))
                    != 2,
            pairs == 2 ==> is_two_pair(cards@),
        decreases 13 - k,
    {
        if pairs < 2 && count_rank_exec(cards, rank_of_index(k)) == 2 {
            proof {
                if pairs == 1 {
                    let r1 = spec_rank_of_index(first_idx);
                    let r2 = spec_rank_of_index(k as int);
                    assert(r1.spec_value() != r2.spec_value());
                    assert(r1 != r2);
                } else {
                    first_idx = k as int;
                }
            }
            pairs = pairs + 1;
        }
        k = k + 1;
    }
    proof {
        if pairs < 2 {
            assert forall|r1: Rank, r2: Rank|
                !(r1 != r2 && count_rank(cards@, r1) == 2 && count_rank(cards@, r2) == 2) by {
                lemma_rank_index_surjective(r1);
                lemma_rank_index_surjective(r2);
                let t1 = choose|t: int| 0 <= t < 13 && spec_rank_of_index(t) == r1;
                let t2 = choose|t: int| 0 <= t < 13 && spec_rank_of_index(t) == r2;
                if r1 != r2 && count_rank(cards@, r1) == 2 && count_rank(cards@, r2) == 2 {
                    assert(count_rank(cards@, spec_rank_of_index(t1)) == 2);
                    assert(count_rank(cards@, spec_rank_of_index(t2)) == 2);
                    assert(pairs == 1);
                    assert(t1 == first_idx && t2 == first_idx);
                    assert(false);
                }
            }
        }
    }
    pairs >= 2
}

/// The lowest straight start, if the hand has a straight.
pub(crate) fn straight_start_exec(cards: &Vec<Card>) -> (r: Option<u64>)
    ensures
        r matches Some(start) ==> straight_start(cards@) == start as int && 2 <= start <= 10,
        r is None ==> straight_start(cards@) == -1,
        (r is Some) == is_straight(cards@),
{
    proof {
        lemma_first_straight_from(cards@, 2);
    }
    let mut start: u64 = 2;
    while start <= 10
        invariant
            2 <= start <= 11,
            forall|v: int| 2 <= v < start as int ==> !is_straight_from(cards@, v),
        decreases 11 - start,
    {
        let mut ok = true;
        let mut d: u64 = 0;
        while d < 5 && ok
            invariant
                d <= 5,
                2 <= start <= 10,
                ok ==> forall|e: int|
                    0 <= e < d as int ==> #[trigger] present_value(cards@, start as int + e),
                !ok ==> !is_straight_from(cards@, start as int),
            decreases (if ok {
                6 - d as int
            } else {
                0int
            }),
        {
            if !has_value_exec(cards, start + d) {
                proof {
                    assert(!present_value(cards@, start as int + d));
                }
                ok = false;
            } else {
                d = d + 1;
            }
        }
        if ok {
            proof {
                assert(is_straight_from(cards@, start as int));
                lemma_first_straight_lowest(cards@, start as int);
            }
            return Some(start);
        }
        start = start + 1;
    }
    proof {
        assert forall|v: int| 2 <= v <= 10 implies !is_straight_from(cards@, v) by {}
        lemma_no_straight(cards@);
    }
    None
}

/// If no start below 11 qualifies, the hand has no straight and the first
/// start is `-1`.
proof fn lemma_no_straight(s: Seq<Card>)
    requires
        forall|v: int| 2 <= v <= 10 ==> !is_straight_from(s, v),
    ensures
        straight_start(s) == -1,
        !is_straight(s),
{
    lemma_first_straight_none(s, 2);
}

proof fn lemma_first_straight_none(s: Seq<Card>, from: int)
    requires
        2 <= from,
        forall|v: int| from <= v <= 10 ==> !is_straight_from(s, v),
    ensures
        first_straight_from(s, from) == -1,
    decreases 11 - from,
{
    if from <= 10 {
        lemma_first_straight_none(s, from + 1);
    }
}

/// If `start` qualifies and nothing below it does, `start` is the first.
proof fn lemma_first_straight_lowest(s: Seq<Card>, start: int)
    requires
        2 <= start <= 10,
        is_straight_from(s, start),
        forall|v: int| 2 <= v < start ==> !is_straight_from(s, v),
    ensures
        straight_start(s) == start,
        is_straight(s),
{
    lemma_first_straight_step(s, 2, start);
}

proof fn lemma_first_straight_step(s: Seq<Card>, from: int, start: int)
    requires
        2 <= from <= start <= 10,
        is_straight_from(s, start),
        forall|v: int| from <= v < start ==> !is_straight_from(s, v),
    ensures
        first_straight_from(s, from) == start,
    decreases start - from,
{
    if from < start {
        lemma_first_straight_step(s, from + 1, start);
    }
}

/// Basic bounds of [`first_straight_from`].
proof fn lemma_first_straight_from(s: Seq<Card>, from: int)
    requires
        2 <= from,
    ensures
        first_straight_from(s, from) == -1 || from <= first_straight_from(s, from) <= 10,
    decreases 11 - from,
{
    if from <= 10 {
        lemma_first_straight_from(s, from + 1);
    }
}

/// Sort a card vector by ascending rank (insertion sort).
fn sort_rank_asc(cards: &mut Vec<Card>)
    ensures
        final(cards)@.to_multiset() == old(cards)@.to_multiset(),
        final(cards)@.len() == old(cards)@.len(),
        sorted_rank_asc(final(cards)@),
{
    let n = cards.len();
    let mut i: usize = 0;
    while i < n
        invariant
            i <= n,
            n == cards@.len(),
            cards@.to_multiset() == old(cards)@.to_multiset(),
            sorted_rank_asc(cards@.take(i as int)),
        decreases n - i,
    {
        proof {
            assert forall|k1: int, k2: int|
                0 <= k1 < k2 <= i as int && k2 != i as int implies cards@[k1].rank.spec_value()
                <= cards@[k2].rank.spec_value() by {
                assert(cards@.take(i as int)[k1] == cards@[k1]);
                assert(cards@.take(i as int)[k2] == cards@[k2]);
            }
        }
        let mut j: usize = i;
        while j > 0 && cards[j - 1].rank.value() > cards[j].rank.value()
            invariant
                j <= i < n,
                n == cards@.len(),
                cards@.to_multiset() == old(cards)@.to_multiset(),
                forall|k1: int, k2: int|
                    0 <= k1 < k2 <= i as int && k2 != j as int ==> cards@[k1].rank.spec_value()
                        <= cards@[k2].rank.spec_value(),
            decreases j,
        {
            let a = cards[j - 1];
            let b = cards[j];
            let ghost before = cards@;
            cards[j - 1] = b;
            cards[j] = a;
            proof {
                broadcast use vstd::seq_lib::to_multiset_update;
                broadcast use vstd::multiset::group_multiset_axioms;

                let mset = before.to_multiset();
                let s1 = before.update(j - 1, b);
                assert(s1.to_multiset() == mset.insert(b).remove(a));
                assert(s1[j as int] == b);
                assert(cards@.to_multiset() == s1.to_multiset().insert(a).remove(b));
                before.to_multiset_ensures();
                assert(before.contains(a) && before.contains(b));
                assert(mset.count(a) > 0 && mset.count(b) > 0);
                assert(cards@.to_multiset() =~= mset);
            }
            j = j - 1;
        }
        proof {
            assert(sorted_rank_asc(cards@.take(i + 1))) by {
                assert forall|k1: int, k2: int|
                    0 <= k1 < k2 < i + 1 implies (#[trigger] cards@.take(i + 1)[k1]).rank.spec_value()
                    <= (#[trigger] cards@.take(i + 1)[k2]).rank.spec_value() by {
                    if k2 == j as int && j > 0 {
                        assert(cards@[j - 1].rank.spec_value() <= cards@[j as int].rank.spec_value());
                        if k1 < j - 1 {
                            assert(cards@[k1].rank.spec_value() <= cards@[j - 1].rank.spec_value());
                        }
                    }
                }
            }
        }
        i = i + 1;
    }
    proof {
        assert(cards@.take(n as int) =~= cards@);
    }
}

/// Copy the whole card list.
pub(crate) fn copy_cards(cards: &Vec<Card>) -> (r: Vec<Card>)
    ensures
        r@ == cards@,
{
    let n = cards.len();
    let mut out: Vec<Card> = Vec::new();
    let mut i: usize = 0;
    while i < n
        invariant
            i <= n,
            n == cards@.len(),
            out@ =~= cards@.take(i as int),
        decreases n - i,
    {
        proof {
            cards@.lemma_take_succ_push(i as int);
        }
        out.push(cards[i]);
        i = i + 1;
    }
    proof {
        assert(out@ =~= cards@);
    }
    out
}

impl Planets {
    /// Detect the poker hand formed by the given cards: the rarest matching
    /// hand type, together with the exact scoring subset, sorted by
    /// ascending rank. An empty input detects nothing; any non-empty input
    /// classifies, with the high card as universal fallback.
    pub fn detect_poker_hand(&self, cards: &Vec<Card>) -> (r: Option<(PokerHand, Vec<Card>)>)
        ensures
            (r is Some) == (cards@.len() > 0),
            r matches Some(p) ==> p.0 == spec_classify(cards@) && valid_scoring_subset(
                cards@,
                p.0,
                p.1@,
            ) && sorted_rank_asc(p.1@),
    {
        broadcast use vstd::seq_lib::group_filter_ensures;

        if cards.len() == 0 {
            return None;
        }
        let five_oak = has_five_of_a_kind_exec(cards);
        let flush = is_flush_exec(cards);
        let four_oak = has_rank_count_exec(cards, 4);
        let three_oak = has_rank_count_exec(cards, 3);
        let pair = has_rank_count_exec(cards, 2);
        let full_house = three_oak && pair;
        let two_pair = is_two_pair_exec(cards);
        let straight_at = straight_start_exec(cards);

        if five_oak && flush {
            let mut sub = copy_cards(cards);
            sort_rank_asc(&mut sub);
            Some((PokerHand::FlushFive, sub))
        } else if full_house && flush {
            let mut sub = copy_cards(cards);
            sort_rank_asc(&mut sub);
            Some((PokerHand::FlushHouse, sub))
        } else if five_oak {
            let mut sub = filter_rank_count_at_least(cards, 5);
            sort_rank_asc(&mut sub);
            Some((PokerHand::FiveOfAKind, sub))
        } else if straight_at.is_some() && flush {
            let mut sub = copy_cards(cards);
            sort_rank_asc(&mut sub);
            Some((PokerHand::StraightFlush, sub))
        } else if four_oak {
            let mut sub = filter_rank_count(cards, 4);
            sort_rank_asc(&mut sub);
            Some((PokerHand::FourOfAKind, sub))
        } else if full_house {
            let mut sub = copy_cards(cards);
            sort_rank_asc(&mut sub);
            Some((PokerHand::FullHouse, sub))
        } else if flush {
            let mut sub = filter_suit(cards, flush_suit_exec(cards));
            sort_rank_asc(&mut sub);
            Some((PokerHand::Flush, sub))
        } else if straight_at.is_some() {
            let start = straight_at.unwrap();
            let mut sub = filter_window(cards, start);
            sort_rank_asc(&mut sub);
            Some((PokerHand::Straight, sub))
        } else if three_oak {
            let mut sub = filter_rank_count(cards, 3);
            sort_rank_asc(&mut sub);
            Some((PokerHand::ThreeOfAKind, sub))
        } else if two_pair {
            let mut sub = filter_rank_count(cards, 2);
            sort_rank_asc(&mut sub);
            Some((PokerHand::TwoPair, sub))
        } else if pair {
            let mut sub = filter_rank_count(cards, 2);
            sort_rank_asc(&mut sub);
            Some((PokerHand::Pair, sub))
        } else {
            let mut all = copy_cards(cards);
            sort_rank_asc(&mut all);
            let ghost sorted = all@;
            let top = all[all.len() - 1];
            let mut sub: Vec<Card> = Vec::new();
            sub.push(top);
            proof {
                broadcast use vstd::seq_lib::group_to_multiset_ensures;

                sorted.to_multiset_ensures();
                cards@.to_multiset_ensures();
                assert(sorted[sorted.len() - 1] == top);
                assert(sorted.contains(top));
                assert(sorted.to_multiset().count(top) > 0);
                assert(cards@.to_multiset().count(top) > 0);
                assert(cards@.contains(top));
                assert forall|k: int|
                    0 <= k < cards@.len() implies (#[trigger] cards@[k]).rank.spec_value()
                    <= top.rank.spec_value() by {
                    let c = cards@[k];
                    assert(cards@.contains(c));
                    assert(cards@.to_multiset().count(c) > 0);
                    assert(sorted.to_multiset().count(c) > 0);
                    assert(sorted.contains(c));
                    let t = choose|t: int| 0 <= t < sorted.len() && sorted[t] == c;
                    if t < sorted.len() - 1 {
                        assert(sorted[t].rank.spec_value() <= sorted[sorted.len()
                            - 1].rank.spec_value());
                    }
                }
            }
            Some((PokerHand::HighCard, sub))
        }
    }
}

/// Cards whose rank appears exactly `n` times in the whole hand.
pub(crate) fn filter_rank_count(cards: &Vec<Card>, n: usize) -> (r: Vec<Card>)
    ensures
        r@ == cards@.filter(rank_count_is(cards@, n as nat)),
{
    broadcast use vstd::seq_lib::group_seq_properties;

    let total = cards.len();
    let mut out: Vec<Card> = Vec::new();
    let mut i: usize = 0;
    while i < total
        invariant
            i <= total,
            total == cards@.len(),
            out@ == cards@.take(i as int).filter(rank_count_is(cards@, n as nat)),
        decreases total - i,
    {
        proof {
            cards@.lemma_take_succ_push(i as int);
            cards@.take(i as int).lemma_filter_push(
                cards@[i as int],
                rank_count_is(cards@, n as nat),
            );
        }
        if count_rank_exec(cards, cards[i].rank) == n {
            out.push(cards[i]);
        }
        i = i + 1;
    }
    proof {
        assert(cards@.take(total as int) =~= cards@);
    }
    out
}

/// Cards whose rank appears at least `n` times in the whole hand.
pub(crate) fn filter_rank_count_at_least(cards: &Vec<Card>, n: usize) -> (r: Vec<Card>)
    ensures
        r@ == cards@.filter(rank_count_at_least(cards@, n as nat)),
{
    broadcast use vstd::seq_lib::group_seq_properties;

    let total = cards.len();
    let mut out: Vec<Card> = Vec::new();
    let mut i: usize = 0;
    while i < total
        invariant
            i <= total,
            total == cards@.len(),
            out@ == cards@.take(i as int).filter(rank_count_at_least(cards@, n as nat)),
        decreases total - i,
    {
        proof {
            cards@.lemma_take_succ_push(i as int);
            cards@.take(i as int).lemma_filter_push(
                cards@[i as int],
                rank_count_at_least(cards@, n as nat),
            );
        }
        if count_rank_exec(cards, cards[i].rank) >= n {
            out.push(cards[i]);
        }
        i = i + 1;
    }
    proof {
        assert(cards@.take(total as int) =~= cards@);
    }
    out
}

/// Cards of the given suit.
pub(crate) fn filter_suit(cards: &Vec<Card>, suit: Suit) -> (r: Vec<Card>)
    ensures
        r@ == cards@.filter(suit_is(suit)),
{
    broadcast use vstd::seq_lib::group_seq_properties;

    let total = cards.len();
    let mut out: Vec<Card> = Vec::new();
    let mut i: usize = 0;
    while i < total
        invariant
            i <= total,
            total == cards@.len(),
            out@ == cards@.take(i as int).filter(suit_is(suit)),
        decreases total - i,
    {
        proof {
            cards@.lemma_take_succ_push(i as int);
            cards@.take(i as int).lemma_filter_push(cards@[i as int], suit_is(suit));
        }
        if cards[i].suit == suit {
            out.push(cards[i]);
        }
        i = i + 1;
    }
    proof {
        assert(cards@.take(total as int) =~= cards@);
    }
    out
}

/// Cards whose rank value lies in the five-value window at `start`.
pub(crate) fn filter_window(cards: &Vec<Card>, start: u64) -> (r: Vec<Card>)
    requires
        2 <= start <= 10,
    ensures
        r@ == cards@.filter(in_window(start as int)),
{
    broadcast use vstd::seq_lib::group_seq_properties;

    let total = cards.len();
    let mut out: Vec<Card> = Vec::new();
    let mut i: usize = 0;
    while i < total
        invariant
            i <= total,
            2 <= start <= 10,
            total == cards@.len(),
            out@ == cards@.take(i as int).filter(in_window(start as int)),
        decreases total - i,
    {
        proof {
            cards@.lemma_take_succ_push(i as int);
            cards@.take(i as int).lemma_filter_push(cards@[i as int], in_window(start as int));
        }
        let v = cards[i].rank.value();
        if start <= v && v < start + 5 {
            out.push(cards[i]);
        }
        i = i + 1;
    }
    proof {
        assert(cards@.take(total as int) =~= cards@);
    }
    out
}

/// How many cards of the sequence have the given rank, when all cards share
/// one rank: all of them.
proof fn lemma_count_rank_uniform(s: Seq<Card>, rank: Rank)
    requires
        forall|k: int| 0 <= k < s.len() ==> (#[trigger] s[k]).rank == rank,
    ensures
        count_rank(s, rank) == s.len(),
    decreases s.len(),
{
    if s.len() > 0 {
        assert forall|k: int| 0 <= k < s.drop_last().len() implies (
        #[trigger] s.drop_last()[k]).rank == rank by {
            assert(s.drop_last()[k] == s[k]);
        }
        lemma_count_rank_uniform(s.drop_last(), rank);
    }
}

/// How many cards of the sequence have the given suit, when all cards share
/// one suit: all of them.
proof fn lemma_count_suit_uniform(s: Seq<Card>, suit: Suit)
    requires
        forall|k: int| 0 <= k < s.len() ==> (#[trigger] s[k]).suit == suit,
    ensures
        count_suit(s, suit) == s.len(),
    decreases s.len(),
{
    if s.len() > 0 {
        assert forall|k: int| 0 <= k < s.drop_last().len() implies (
        #[trigger] s.drop_last()[k]).suit == suit by {
            assert(s.drop_last()[k] == s[k]);
        }
        lemma_count_suit_uniform(s.drop_last(), suit);
    }
}

/// Five or more cards that all share one rank and one suit classify as
/// flush five, and its scoring subset is the whole hand.
pub proof fn lemma_flush_five_detected(s: Seq<Card>, rank: Rank, suit: Suit)
    requires
        s.len() >= 5,
        forall|k: int| 0 <= k < s.len() ==> (#[trigger] s[k]).rank == rank && s[k].suit == suit,
    ensures
        spec_classify(s) == PokerHand::FlushFive,
        forall|sub: Seq<Card>|
            valid_scoring_subset(s, PokerHand::FlushFive, sub) <==> (#[trigger] sub.to_multiset())
                == s.to_multiset(),
{
    lemma_count_rank_uniform(s, rank);
    lemma_count_suit_uniform(s, suit);
    assert(count_rank(s, rank) >= 5);
    assert(count_suit(s, suit) >= 5);
    assert(has_five_of_a_kind(s));
    assert(is_flush(s));
}

} // verus!
