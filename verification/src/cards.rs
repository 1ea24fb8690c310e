//! Playing cards: a card is a value (2 through 14, ace high) and a suit.
//!
//! A card prints as two ASCII characters, value then suit, as the wire
//! protocol sends them to the bots: `"Ah"` is the ace of hearts.

use vstd::prelude::*;
use rand::seq::SliceRandom;

verus! {

/// One playing card.  `value` runs from 2 to 14 (11 jack, 12 queen,
/// 13 king, 14 ace); `suit` runs from 0 to 3 (clubs, diamonds, hearts,
/// spades).
#[derive(PartialEq, Eq, Structural, Debug, Clone, Copy)]
pub struct Card {
    pub value: u8,
    pub suit: u8,
}

impl Card {
    /// A card holds a value from 2 to 14 and one of the four suits.
    pub open spec fn wf(self) -> bool {
        2 <= self.value <= 14 && self.suit <= 3
    }
}

/// The character a card value prints as: `2`-`9`, then `T`, `J`, `Q`,
/// `K`, `A`.
pub open spec fn spec_value_char(v: u8) -> char {
    if v == 10 {
        'T'
    } else if v == 11 {
        'J'
    } else if v == 12 {
        'Q'
    } else if v == 13 {
        'K'
    } else if v == 14 {
        'A'
    } else {
        ((v + 48) as u8) as char
    }
}

/// The character a suit prints as: clubs, diamonds, hearts, spades.
pub open spec fn spec_suit_char(u: u8) -> char {
    if u == 0 {
        'c'
    } else if u == 1 {
        'd'
    } else if u == 2 {
        'h'
    } else {
        's'
    }
}

/// The two characters a card prints as: value then suit.
pub open spec fn spec_card_chars(c: Card) -> Seq<char> {
    seq![spec_value_char(c.value), spec_suit_char(c.suit)]
}

/// The two ASCII bytes a card prints as: value then suit.
pub fn card_bytes(c: Card) -> (r: [u8; 2])
    requires
        c.wf(),
    ensures
        r@ == spec_card_chars(c).map_values(|ch: char| ch as u8),
        forall|i: int| 0 <= i < 2 ==> #[trigger] r@[i] < 128,
{
    let v: u8 = if c.value == 10 {
        84
    } else if c.value == 11 {
        74
    } else if c.value == 12 {
        81
    } else if c.value == 13 {
        75
    } else if c.value == 14 {
        65
    } else {
        c.value + 48
    };
    let u: u8 = if c.suit == 0 {
        99
    } else if c.suit == 1 {
        100
    } else if c.suit == 2 {
        104
    } else {
        115
    };
    let r = [v, u];
    proof {
        assert(r@ =~= spec_card_chars(c).map_values(|ch: char| ch as u8));
    }
    r
}

/// The card at position `i` of the unshuffled deck: values ascend, and
/// within one value the four suits follow each other.
pub open spec fn spec_deck_card(i: int) -> Card {
    Card { value: (2 + i / 4) as u8, suit: (i % 4) as u8 }
}

/// The 52-card deck in a fixed order: every combination of a value and a
/// suit appears exactly once.
pub fn fresh_deck() -> (r: Vec<Card>)
    ensures
        r@.len() == 52,
        forall|i: int| 0 <= i < 52 ==> #[trigger] r@[i] == spec_deck_card(i),
        forall|i: int| 0 <= i < 52 ==> (#[trigger] r@[i]).wf(),
{
    let mut deck: Vec<Card> = Vec::new();
    let mut i: usize = 0;
    while i < 52
        invariant
            i <= 52,
            deck@.len() == i,
            forall|j: int| 0 <= j < i ==> #[trigger] deck@[j] == spec_deck_card(j),
        decreases 52 - i,
    {
        deck.push(Card { value: 2 + (i / 4) as u8, suit: (i % 4) as u8 });
        i = i + 1;
    }
    proof {
        assert forall|i: int| 0 <= i < 52 implies (#[trigger] deck@[i]).wf() by {
            assert(deck@[i] == spec_deck_card(i));
        }
    }
    deck
}

/// Relies on rand's `SliceRandom::shuffle` with the thread-local
/// generator: the slice is shuffled in place, so afterwards it holds a
/// permutation of the same cards, whichever permutation was drawn.
#[verifier::external_body]
fn shuffle_cards(deck: &mut Vec<Card>)
    ensures
        final(deck)@.to_multiset() == old(deck)@.to_multiset(),
        final(deck)@.len() == old(deck)@.len(),
{
    deck.as_mut_slice().shuffle(&mut rand::rng());
}

/// A freshly shuffled 52-card deck: the cards of [`fresh_deck`] in an
/// order the thread-local generator drew.
pub fn get_shuffled_deck() -> (r: Vec<Card>)
    ensures
        r@.len() == 52,
        forall|i: int| 0 <= i < 52 ==> (#[trigger] r@[i]).wf(),
        r@.to_multiset() == fresh_deck_multiset(),
{
    let mut deck = fresh_deck();
    let ghost fresh = deck@;
    shuffle_cards(&mut deck);
    proof {
        broadcast use vstd::seq_lib::group_to_multiset_ensures;

        assert(fresh =~= Seq::new(52, |i: int| spec_deck_card(i)));
        assert forall|i: int| 0 <= i < 52 implies (#[trigger] deck@[i]).wf() by {
            assert(deck@.contains(deck@[i]));
            assert(deck@.to_multiset().count(deck@[i]) > 0);
            assert(fresh.contains(deck@[i]));
            let j = choose|j: int| 0 <= j < fresh.len() && fresh[j] == deck@[i];
            assert(fresh[j] == spec_deck_card(j));
        }
    }
    deck
}

/// The multiset of the 52 cards of a full deck.
pub open spec fn fresh_deck_multiset() -> vstd::multiset::Multiset<Card> {
    Seq::new(52, |i: int| spec_deck_card(i)).to_multiset()
}

} // verus!
