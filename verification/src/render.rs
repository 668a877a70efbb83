//! The picture of a game as text.

use crate::game::{GameState, GameView};
use crate::geometry::DiscretePosition2D;
use vstd::prelude::*;
use vstd::string::*;

verus! {

/// The glyph of a wall and of a paddle.
pub const BLOCK: char = '\u{2588}';

/// The glyph of the ball.
pub const DOT: char = '\u{25CF}';

/// What is taken on trust of `String::push` of the standard library: the
/// call appends `ch` to the end of the string and leaves what was there.
pub assume_specification[ String::push ](text: &mut String, ch: char)
    ensures
        final(text)@ == old(text)@.push(ch),
;

/// The character of the decimal digit `d`.
pub open spec fn digit(d: nat) -> char
    recommends
        d < 10,
{
    ('0' as nat + d) as char
}

/// The decimal numeral of `n`, without leading zeros.
pub open spec fn decimal(n: nat) -> Seq<char>
    decreases n,
{
    if n < 10 {
        seq![digit(n)]
    } else {
        decimal(n / 10).push(digit(n % 10))
    }
}

/// Appends the decimal numeral of `n` to `text`.
pub fn push_decimal(text: &mut String, n: usize)
    ensures
        final(text)@ == old(text)@ + decimal(n as nat),
    decreases n,
{
    if n >= 10 {
        push_decimal(text, n / 10);
    }
    let d: u8 = (n % 10) as u8;
    text.push((48u8 + d) as char);
}

impl GameView {
    /// The line that tells the score, between the line breaks around it.
    pub open spec fn headline(self) -> Seq<char> {
        "\r\nGoals of player1: "@ + decimal(self.player1_score) + ",  Goals of player2: "@
            + decimal(self.player2_score) + "\r\n\r\n"@
    }

    /// A wall: one block for each column of the grid, and a line break.
    pub open spec fn wall(self) -> Seq<char> {
        Seq::new(self.width + 1, |x: int| BLOCK) + "\r\n"@
    }

    /// What is drawn in the cell of column `x` and row `y`: the ball where
    /// it lies, else a block where a paddle covers the cell, else a blank.
    pub open spec fn glyph(self, x: nat, y: nat) -> char {
        let cell = DiscretePosition2D { x: x as usize, y: y as usize };
        if self.ball.position.cell() == cell {
            DOT
        } else if self.player1.covers(cell.centre()) || self.player2.covers(cell.centre()) {
            BLOCK
        } else {
            ' '
        }
    }

    /// The row `y` of the grid from the left edge to the right, and a line break.
    pub open spec fn row(self, y: nat) -> Seq<char> {
        Seq::new(self.width + 1, |x: int| self.glyph(x as nat, y)) + "\r\n"@
    }

    /// The rows of the grid from the top one down to the row `y`.
    pub open spec fn rows_down_to(self, y: nat) -> Seq<char>
        decreases self.height - y,
    {
        if y >= self.height {
            self.row(self.height)
        } else {
            self.rows_down_to(y + 1) + self.row(y)
        }
    }

    /// The whole picture: the score, then the field between two walls, the
    /// top row first.
    pub open spec fn frame(self) -> Seq<char> {
        self.headline() + self.wall() + self.rows_down_to(0) + self.wall()
    }
}

impl GameState {
    /// Renders the current game state as the text that shows it on a terminal.
    ///
    /// # Returns
    /// The score line, the top wall, the rows of the field from the top one
    /// down, and the bottom wall, each line ended by `"\r\n"`.
    pub fn display(&self) -> (text: String)
        ensures
            text@ == self@.frame(),
    {
        let mut text = String::new();

        text.append("\r\nGoals of player1: ");
        push_decimal(&mut text, self.player1_score());
        text.append(",  Goals of player2: ");
        push_decimal(&mut text, self.player2_score());
        text.append("\r\n\r\n");

        self.push_wall(&mut text);

        let mut y = self.height();
        self.push_row(&mut text, y);
        while y > 0
            invariant
                y <= self@.height,
                text@ == self@.headline() + self@.wall() + self@.rows_down_to(y as nat),
            decreases y,
        {
            y -= 1;
            self.push_row(&mut text, y);
        }

        self.push_wall(&mut text);

        text
    }

    /// Appends a wall to `text`.
    fn push_wall(&self, text: &mut String)
        ensures
            final(text)@ == old(text)@ + self@.wall(),
    {
        let width = self.width();
        let mut x: usize = 0;
        loop
            invariant_except_break
                text@ == old(text)@ + Seq::new(x as nat, |x: int| BLOCK),
            invariant
                x <= width,
            ensures
                text@ == old(text)@ + Seq::new((width + 1) as nat, |x: int| BLOCK),
            decreases width - x,
        {
            text.push(BLOCK);
            if x == width {
                break ;
            }
            x += 1;
        }
        text.append("\r\n");
    }

    /// Appends the row `y` of the grid to `text`.
    fn push_row(&self, text: &mut String, y: usize)
        ensures
            final(text)@ == old(text)@ + self@.row(y as nat),
    {
        let width = self.width();
        let mut x: usize = 0;
        loop
            invariant_except_break
                text@ == old(text)@ + Seq::new(x as nat, |x: int| self@.glyph(x as nat, y as nat)),
            invariant
                x <= width,
                width == self@.width,
            ensures
                text@ == old(text)@ + Seq::new(
                    (width + 1) as nat,
                    |x: int| self@.glyph(x as nat, y as nat),
                ),
            decreases width - x,
        {
            let current_cell = DiscretePosition2D::new(x, y);

            let character = if self.ball().get_position().to_discrete() == current_cell {
                DOT
            } else if self.player1().collides_with(current_cell.to_continuous()) {
                BLOCK
            } else if self.player2().collides_with(current_cell.to_continuous()) {
                BLOCK
            } else {
                ' '
            };

            text.push(character);
            assert(text@ =~= old(text)@ + Seq::new(
                (x + 1) as nat,
                |x: int| self@.glyph(x as nat, y as nat),
            ));
            if x == width {
                break ;
            }
            x += 1;
        }
        text.append("\r\n");
    }
}

} // verus!
