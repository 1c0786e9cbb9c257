//! The position of an error in the input: 1-based row and column.

use vstd::prelude::*;

use crate::text::{dec_seq, push_char, u32_to_string};

verus! {

/// Position of the error.
///
/// Position indicates row/line and column. Starting positions is 1:1.
/// The stream reader that detects an error supplies both coordinates;
/// the type itself performs no validation.
#[derive(Clone, Copy, PartialEq, Eq, Structural, Debug)]
pub struct ErrorPos {
    pub row: u32,
    pub col: u32,
}

/// How a position renders: the row in decimal, a colon, the column in
/// decimal.
pub open spec fn pos_rendered(p: ErrorPos) -> Seq<char> {
    dec_seq(p.row as nat) + seq![':'] + dec_seq(p.col as nat)
}

impl ErrorPos {
    /// Constructs a new error position.
    pub fn new(row: u32, col: u32) -> (p: ErrorPos)
        ensures
            p.row == row,
            p.col == col,
    {
        ErrorPos { row, col }
    }

    /// Renders the position as `"{row}:{col}"`.
    pub fn display(&self) -> (r: String)
        ensures
            r@ == pos_rendered(*self),
    {
        let mut s = u32_to_string(self.row);
        push_char(&mut s, ':');
        let col = u32_to_string(self.col);
        s.append(col.as_str());
        proof {
            assert(s@ =~= pos_rendered(*self));
        }
        s
    }
}

} // verus!
