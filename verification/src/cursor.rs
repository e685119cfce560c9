//! Cursor addressing: a closed set of movement commands, each of which stands
//! for exactly one primitive of the terminal driver.

use vstd::prelude::*;
use vstd::string::StringExecFns;
use crate::driver::DriverOp;
use crate::errors::{ErrorModel, NyanError};
use crate::text::{decimal, decimal_digits};

verus! {

/// A cursor movement.
#[derive(Clone, Copy, Debug, PartialEq, Eq, PartialOrd, Ord, Hash, Structural)]
pub enum Cursor {
    /// Moves the cursor to the coordinates `(x, y)`.
    Move(u16, u16),
    /// Moves the cursor left by the given number of cells.
    MoveLeft(u16),
    /// Moves the cursor right by the given number of cells.
    MoveRight(u16),
    /// Moves the cursor up by the given number of cells.
    MoveUp(u16),
    /// Moves the cursor down by the given number of cells.
    MoveDown(u16),
    /// Moves the cursor down by the given number of lines, to the first column.
    MoveToNextLine(u16),
}

impl Cursor {
    /// The driver primitive that carries out this movement.
    pub open spec fn primitive(self) -> DriverOp {
        match self {
            Cursor::Move(x, y) => DriverOp::MoveTo(x, y),
            Cursor::MoveLeft(n) => DriverOp::MoveLeft(n),
            Cursor::MoveRight(n) => DriverOp::MoveRight(n),
            Cursor::MoveUp(n) => DriverOp::MoveUp(n),
            Cursor::MoveDown(n) => DriverOp::MoveDown(n),
            Cursor::MoveToNextLine(n) => DriverOp::MoveToNextLine(n),
        }
    }

    /// The text that describes this movement: its name and its numbers in
    /// decimal notation.
    pub open spec fn described(self) -> Seq<char> {
        match self {
            Cursor::Move(x, y) => "Cursor::Move(x: "@ + decimal_digits(x as nat) + ", y: "@
                + decimal_digits(y as nat) + ")"@,
            Cursor::MoveLeft(n) => "Cursor::MoveLeft("@ + decimal_digits(n as nat) + ")"@,
            Cursor::MoveRight(n) => "Cursor::MoveRight("@ + decimal_digits(n as nat) + ")"@,
            Cursor::MoveUp(n) => "Cursor::MoveUp("@ + decimal_digits(n as nat) + ")"@,
            Cursor::MoveDown(n) => "Cursor::MoveDown("@ + decimal_digits(n as nat) + ")"@,
            Cursor::MoveToNextLine(n) => "Cursor::MoveToNextLine("@ + decimal_digits(n as nat)
                + ")"@,
        }
    }

    /// Describes this movement, as in `Cursor::Move(x: 10, y: 5)`.
    pub fn describe(&self) -> (text: String)
        ensures
            text@ == self.described(),
    {
        match *self {
            Cursor::Move(x, y) => String::from_str("Cursor::Move(x: ").concat(
                decimal(x as u64).as_str(),
            ).concat(", y: ").concat(decimal(y as u64).as_str()).concat(")"),
            Cursor::MoveLeft(n) => String::from_str("Cursor::MoveLeft(").concat(
                decimal(n as u64).as_str(),
            ).concat(")"),
            Cursor::MoveRight(n) => String::from_str("Cursor::MoveRight(").concat(
                decimal(n as u64).as_str(),
            ).concat(")"),
            Cursor::MoveUp(n) => String::from_str("Cursor::MoveUp(").concat(
                decimal(n as u64).as_str(),
            ).concat(")"),
            Cursor::MoveDown(n) => String::from_str("Cursor::MoveDown(").concat(
                decimal(n as u64).as_str(),
            ).concat(")"),
            Cursor::MoveToNextLine(n) => String::from_str("Cursor::MoveToNextLine(").concat(
                decimal(n as u64).as_str(),
            ).concat(")"),
        }
    }

    /// An absolute move to `(x, y)`.
    pub fn new(x: u16, y: u16) -> (c: Cursor)
        ensures
            c == Cursor::Move(x, y),
    {
        Cursor::Move(x, y)
    }

    /// Gives the one driver primitive that performs a movement.
    pub fn move_cursor(moveto: Cursor) -> (op: DriverOp)
        ensures
            op == moveto.primitive(),
    {
        match moveto {
            Cursor::Move(x, y) => DriverOp::MoveTo(x, y),
            Cursor::MoveLeft(n) => DriverOp::MoveLeft(n),
            Cursor::MoveRight(n) => DriverOp::MoveRight(n),
            Cursor::MoveUp(n) => DriverOp::MoveUp(n),
            Cursor::MoveDown(n) => DriverOp::MoveDown(n),
            Cursor::MoveToNextLine(n) => DriverOp::MoveToNextLine(n),
        }
    }

    /// The error that reports a movement the driver refused, with the driver's reason.
    pub fn move_failed(reason: &str) -> (e: NyanError)
        ensures
            e@ == ErrorModel::Cursor(reason@),
    {
        NyanError::Cursor(String::from_str(reason))
    }
}

} // verus!
