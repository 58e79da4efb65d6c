//! The colours of the indicator and their names on the wire.

use vstd::prelude::*;
use crate::wire::ascii;
use crate::wire::quit_token;

verus! {

/// The colours that the indicator can show.
#[derive(Clone, Copy, Debug, PartialEq, Eq, Structural)]
pub enum Color {
    /// White dot
    White,
    /// Red dot
    Red,
    /// Orange dot
    Orange,
    /// Yellow dot
    Yellow,
    /// Green dot
    Green,
    /// Cyan dot
    Cyan,
    /// Blue dot
    Blue,
    /// Purple dot
    Purple,
    /// Black dot; has a white frame in dark mode
    Black,
    /// Question mark
    Question,
    /// White exclamation mark on red ground
    Exclamation,
}

impl Color {
    /// The name by which the indicator knows this colour.
    pub open spec fn name(self) -> Seq<char> {
        match self {
            Color::White => seq!['w', 'h', 'i', 't', 'e'],
            Color::Red => seq!['r', 'e', 'd'],
            Color::Orange => seq!['o', 'r', 'a', 'n', 'g', 'e'],
            Color::Yellow => seq!['y', 'e', 'l', 'l', 'o', 'w'],
            Color::Green => seq!['g', 'r', 'e', 'e', 'n'],
            Color::Cyan => seq!['c', 'y', 'a', 'n'],
            Color::Blue => seq!['b', 'l', 'u', 'e'],
            Color::Purple => seq!['p', 'u', 'r', 'p', 'l', 'e'],
            Color::Black => seq!['b', 'l', 'a', 'c', 'k'],
            Color::Question => seq!['q', 'u', 'e', 's', 't', 'i', 'o', 'n'],
            Color::Exclamation => seq!['e', 'x', 'c', 'l', 'a', 'm', 'a', 't', 'i', 'o', 'n'],
        }
    }

    /// The payload that asks the indicator for this colour: the ASCII bytes
    /// of its name and nothing else.
    pub open spec fn token(self) -> Seq<u8> {
        ascii(self.name())
    }
}

/// No two colours share a token, so the indicator can tell every colour
/// from every other.
pub proof fn tokens_are_distinct(a: Color, b: Color)
    requires
        a.token() == b.token(),
    ensures
        a == b,
{
    // The first and the third letter tell any two names apart.
    assert(a.name().len() == a.token().len() && b.name().len() == b.token().len());
    assert(a.name()[0] as u8 == a.token()[0] && b.name()[0] as u8 == b.token()[0]);
    assert(a.name()[2] as u8 == a.token()[2] && b.name()[2] as u8 == b.token()[2]);
}

/// Every token is made of lowercase ASCII letters alone, between 3 and 11 of
/// them: it holds no whitespace and no terminator.
pub proof fn token_is_lowercase(color: Color)
    ensures
        3 <= color.token().len() <= 11,
        forall|i: int|
            0 <= i < color.token().len() ==> 'a' as u8 <= #[trigger] color.token()[i] <= 'z' as u8,
{
}

/// No colour is taken for the quit signal.
pub proof fn quit_is_no_color(color: Color)
    ensures
        color.token() != quit_token(),
{
    // The names that are as long as the signal start with another letter.
    assert(color.token().len() == color.name().len());
    assert(quit_token().len() == 4);
    assert(color.name()[0] as u8 == color.token()[0]);
    assert(quit_token()[0] == 'q' as u8);
}

} // verus!
