use vstd::prelude::*;

verus! {

/// The selected byte, and which of its two hexadecimal digits is selected.
#[derive(Clone, Copy, Debug, PartialEq, Eq, Structural)]
pub struct Position {
    pub index: usize,
    pub first_half: bool,
}

/// A cursor movement; `Stay` keeps the position and only redraws it.
#[derive(Clone, Copy, Debug, PartialEq, Eq, Structural)]
pub enum Direction {
    Up,
    Down,
    Left,
    Right,
    Stay,
}

/// The position after moving `p` in direction `d`, in a file of `length`
/// bytes shown `columns` bytes to a row.
pub open spec fn next_position(p: Position, d: Direction, columns: int, length: int) -> Position {
    match d {
        Direction::Left => {
            if !p.first_half {
                Position { first_half: true, ..p }
            } else if p.index as int % columns != 0 {
                Position { index: (p.index - 1) as usize, first_half: false }
            } else {
                p
            }
        },
        Direction::Right => {
            if p.first_half {
                Position { first_half: false, ..p }
            } else if p.index as int % columns != columns - 1 && p.index + 1 < length {
                Position { index: (p.index + 1) as usize, first_half: true }
            } else {
                p
            }
        },
        Direction::Up => {
            if p.index >= columns {
                Position { index: (p.index - columns) as usize, ..p }
            } else {
                p
            }
        },
        Direction::Down => {
            if p.index + columns < length {
                Position { index: (p.index + columns) as usize, ..p }
            } else {
                p
            }
        },
        Direction::Stay => p,
    }
}

/// Moves the cursor one step.
pub fn step(p: Position, d: Direction, columns: u16, length: usize) -> (r: Position)
    requires
        columns > 0,
    ensures
        r == next_position(p, d, columns as int, length as int),
{
    let c = columns as usize;
    assert(0usize % c == 0) by (nonlinear_arith)
        requires
            c > 0,
    ;
    match d {
        Direction::Left => {
            if !p.first_half {
                Position { index: p.index, first_half: true }
            } else if p.index % c != 0 {
                Position { index: p.index - 1, first_half: false }
            } else {
                p
            }
        },
        Direction::Right => {
            if p.first_half {
                Position { index: p.index, first_half: false }
            } else if p.index % c != c - 1 && length > 0 && p.index < length - 1 {
                Position { index: p.index + 1, first_half: true }
            } else {
                p
            }
        },
        Direction::Up => {
            if p.index >= c {
                Position { index: p.index - c, first_half: p.first_half }
            } else {
                p
            }
        },
        Direction::Down => {
            if p.index < length && length - p.index > c {
                Position { index: p.index + c, first_half: p.first_half }
            } else {
                p
            }
        },
        Direction::Stay => p,
    }
}

/// From the first digit of the first byte, `Right` selects its second digit,
/// and `Right` again the first digit of the next byte.
pub proof fn lemma_right_twice(columns: int, length: int)
    requires
        columns > 1,
        length > 1,
    ensures
        next_position(Position { index: 0, first_half: true }, Direction::Right, columns, length)
            == (Position { index: 0, first_half: false }),
        next_position(
            next_position(Position { index: 0, first_half: true }, Direction::Right, columns, length),
            Direction::Right,
            columns,
            length,
        ) == (Position { index: 1, first_half: true }),
{
    assert(0int % columns == 0) by (nonlinear_arith)
        requires
            columns > 1,
    ;
}

/// Moves that would leave the file or the row do nothing: `Up` on the first
/// row, `Down` on the last, `Left` from the first digit at a row start, and
/// `Right` from the second digit at a row end or on the last byte.
pub proof fn lemma_boundaries(p: Position, columns: int, length: int)
    requires
        columns > 0,
    ensures
        p.index < columns ==> next_position(p, Direction::Up, columns, length) == p,
        p.index + columns >= length ==> next_position(p, Direction::Down, columns, length) == p,
        p.first_half && p.index as int % columns == 0 ==> next_position(p, Direction::Left, columns, length)
            == p,
        !p.first_half && (p.index as int % columns == columns - 1 || p.index == length - 1)
            ==> next_position(p, Direction::Right, columns, length) == p,
        next_position(p, Direction::Stay, columns, length) == p,
{
}

/// Every move keeps the cursor on a byte of the file, or at 0 in an empty file.
pub proof fn lemma_step_in_file(p: Position, d: Direction, columns: int, length: int)
    requires
        columns > 0,
        p.index < length || p.index == 0,
    ensures
        next_position(p, d, columns, length).index < length || next_position(
            p,
            d,
            columns,
            length,
        ).index == 0,
{
    assert(0int % columns == 0) by (nonlinear_arith)
        requires
            columns > 0,
    ;
}

} // verus!
