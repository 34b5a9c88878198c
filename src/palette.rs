use vstd::prelude::*;

use crate::escape::IterationResult;

verus! {

/// An 8-bit RGB colour.
#[derive(Clone, Copy, Debug, PartialEq, Eq, Structural)]
pub struct Color {
    pub red: u8,
    pub green: u8,
    pub blue: u8,
}

/// The colour of a classified point: black for a bounded point, otherwise
/// `(m, 255 - m, 255)` with `m = floor(255 / n)` for escape step `n`.
pub open spec fn color_of(result: IterationResult) -> Color {
    match result {
        IterationResult::Bounded => Color { red: 0, green: 0, blue: 0 },
        IterationResult::EscapedAt(n) => {
            let mapped = (255int / (n as int)) as u8;
            Color { red: mapped, green: (255 - mapped) as u8, blue: 255 }
        },
    }
}

/// Whether the colour rule is defined on `result`: escape steps count from 1.
pub open spec fn colorable(result: IterationResult) -> bool {
    match result {
        IterationResult::Bounded => true,
        IterationResult::EscapedAt(n) => n >= 1,
    }
}

/// Maps a classification to its colour. The cap is accepted so that a
/// normalising palette can take its place; this rule does not read it.
pub fn escape_color(result: IterationResult, cap: u16) -> (c: Color)
    requires
        colorable(result),
    ensures
        c == color_of(result),
{
    match result {
        IterationResult::Bounded => Color { red: 0, green: 0, blue: 0 },
        IterationResult::EscapedAt(n) => {
            // 255 / n lies in [0, 255] for n >= 1, so the narrowing is exact.
            let mapped: u8 = (255u16 / n) as u8;
            Color { red: mapped, green: 255 - mapped, blue: 255 }
        },
    }
}

/// A bounded point is black, whatever the cap.
pub proof fn lemma_bounded_is_black()
    ensures
        color_of(IterationResult::Bounded) == (Color { red: 0, green: 0, blue: 0 }),
{
}

/// A point that escapes at the first step is magenta.
pub proof fn lemma_first_step_is_magenta()
    ensures
        color_of(IterationResult::EscapedAt(1)) == (Color { red: 255, green: 0, blue: 255 }),
{
}

/// For every escape step, red and green add up to 255 and blue is full.
pub proof fn lemma_escaped_channels(n: u16)
    requires
        n >= 1,
    ensures
        color_of(IterationResult::EscapedAt(n)).red as int + color_of(
            IterationResult::EscapedAt(n),
        ).green as int == 255,
        color_of(IterationResult::EscapedAt(n)).blue == 255,
        color_of(IterationResult::EscapedAt(n)).red as int == 255int / (n as int),
{
}

} // verus!
