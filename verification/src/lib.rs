//! A small preference resolver over a closed set of shirt colours.
//!
//! An [`Inventory`] holds an ordered stock of [`ShirtColor`] values. Given an
//! optional caller preference, [`Inventory::giveaway`] returns the preferred
//! colour when one is stated, and otherwise the most frequent colour in
//! stock, with ties (the empty stock included) going to a fixed default.

use vstd::prelude::*;

verus! {

/// One label out of the closed set of shirt colours.
#[derive(Debug, PartialEq, Eq, Copy, Clone, Structural)]
pub enum ShirtColor {
    Red,
    Blue,
}

/// A store's stock of shirts, in the order they arrived.
pub struct Inventory {
    pub shirts: Vec<ShirtColor>,
}

impl View for Inventory {
    type V = Seq<ShirtColor>;

    open spec fn view(&self) -> Seq<ShirtColor> {
        self.shirts@
    }
}

/// How many shirts of colour `c` stand in `s`.
pub open spec fn count_color(s: Seq<ShirtColor>, c: ShirtColor) -> int
    decreases s.len(),
{
    if s.len() == 0 {
        0
    } else {
        count_color(s.drop_last(), c) + if s.last() == c { 1int } else { 0int }
    }
}

/// The colour that wins a tie: when red and blue shirts are equally many
/// (an empty stock included), blue is given away.
pub open spec fn tie_break_default() -> ShirtColor {
    ShirtColor::Blue
}

/// The colour handed out when no preference is stated: the most frequent
/// colour in stock, ties going to [`tie_break_default`].
pub open spec fn most_stocked_color(s: Seq<ShirtColor>) -> ShirtColor {
    if count_color(s, ShirtColor::Red) > count_color(s, ShirtColor::Blue) {
        ShirtColor::Red
    } else {
        tie_break_default()
    }
}

/// The colour handed out: the caller's preference when one is stated
/// (whether or not it is in stock), else the most stocked colour.
pub open spec fn giveaway_color(s: Seq<ShirtColor>, preference: Option<ShirtColor>) -> ShirtColor {
    match preference {
        Some(c) => c,
        None => most_stocked_color(s),
    }
}

impl Inventory {
    /// Resolve a giveaway: an explicit preference always wins, and without
    /// one the most stocked colour is chosen. The stock is never changed.
    pub fn giveaway(&self, user_preference: Option<ShirtColor>) -> (c: ShirtColor)
        ensures
            c == giveaway_color(self@, user_preference),
    {
        match user_preference {
            Some(c) => c,
            None => self.most_stocked(),
        }
    }

    /// Tally the stock in one pass and return the most frequent colour,
    /// ties going to [`tie_break_default`].
    pub fn most_stocked(&self) -> (c: ShirtColor)
        ensures
            c == most_stocked_color(self@),
    {
        let mut num_red: usize = 0;
        let mut num_blue: usize = 0;
        let n = self.shirts.len();
        let mut i: usize = 0;
        while i < n
            invariant
                i <= n,
                n == self@.len(),
                num_red == count_color(self@.take(i as int), ShirtColor::Red),
                num_blue == count_color(self@.take(i as int), ShirtColor::Blue),
                num_red + num_blue == i,
            decreases n - i,
        {
            proof {
                assert(self@.take(i as int + 1).drop_last() =~= self@.take(i as int));
                assert(self@.take(i as int + 1).last() == self@[i as int]);
            }
            match self.shirts[i] {
                ShirtColor::Red => num_red = num_red + 1,
                ShirtColor::Blue => num_blue = num_blue + 1,
            }
            i = i + 1;
        }
        proof {
            assert(self@.take(n as int) =~= self@);
        }
        if num_red > num_blue {
            ShirtColor::Red
        } else {
            ShirtColor::Blue
        }
    }
}

/// An explicit preference always wins: whatever the stock holds, resolving
/// with `Some(c)` yields `c` itself.
pub proof fn lemma_preference_wins(s: Seq<ShirtColor>, c: ShirtColor)
    ensures
        giveaway_color(s, Some(c)) == c,
{
}

/// Without a preference, the chosen colour is at least as frequent in the
/// stock as every other colour; on an exact tie the fixed tie-break
/// default wins.
pub proof fn lemma_most_stocked_is_max(s: Seq<ShirtColor>)
    ensures
        forall|c: ShirtColor| count_color(s, most_stocked_color(s)) >= #[trigger] count_color(s, c),
        count_color(s, ShirtColor::Red) == count_color(s, ShirtColor::Blue)
            ==> most_stocked_color(s) == tie_break_default(),
{
    assert forall|c: ShirtColor| count_color(s, most_stocked_color(s)) >= #[trigger] count_color(
        s,
        c,
    ) by {
        match c {
            ShirtColor::Red => {},
            ShirtColor::Blue => {},
        }
    }
}

/// Resolving is a pure function of its two inputs: identical inputs always
/// yield the identical output.
pub proof fn lemma_giveaway_deterministic(
    s1: Seq<ShirtColor>,
    p1: Option<ShirtColor>,
    s2: Seq<ShirtColor>,
    p2: Option<ShirtColor>,
)
    requires
        s1 == s2,
        p1 == p2,
    ensures
        giveaway_color(s1, p1) == giveaway_color(s2, p2),
{
}

} // verus!
