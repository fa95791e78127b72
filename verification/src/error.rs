//! The ways in which building or accessing an array can fail.

use vstd::prelude::*;
use vstd::string::StringExecFns;

verus! {

/// An error that can arise during the use of an [`Array2D`](crate::Array2D).
#[derive(Debug, PartialEq, Eq, Structural)]
pub enum Error {
    /// The given indices were out of bounds.
    IndicesOutOfBounds(usize, usize),
    /// The given index in row or column major order was out of bounds.
    IndexOutOfBounds(usize),
    /// The dimensions given did not match the elements provided.
    DimensionMismatch,
    /// There were not enough elements to fill the array.
    NotEnoughElements,
}

/// The character that stands for a value below ten.
pub open spec fn digit(value: nat) -> char {
    if value == 0 {
        '0'
    } else if value == 1 {
        '1'
    } else if value == 2 {
        '2'
    } else if value == 3 {
        '3'
    } else if value == 4 {
        '4'
    } else if value == 5 {
        '5'
    } else if value == 6 {
        '6'
    } else if value == 7 {
        '7'
    } else if value == 8 {
        '8'
    } else {
        '9'
    }
}

/// The decimal digits of `value`, the most significant first, without
/// leading zeros.
pub open spec fn decimal(value: nat) -> Seq<char>
    decreases value,
{
    if value < 10 {
        seq![digit(value)]
    } else {
        decimal(value / 10).push(digit(value % 10))
    }
}

impl Error {
    /// What [`message`](Self::message) says of this error.
    pub open spec fn text(self) -> Seq<char> {
        match self {
            Error::IndicesOutOfBounds(row, column) => "indices ("@ + decimal(row as nat) + ", "@
                + decimal(column as nat) + ") out of bounds"@,
            Error::IndexOutOfBounds(index) => "index "@ + decimal(index as nat)
                + " out of bounds"@,
            Error::DimensionMismatch => "dimension mismatch"@,
            Error::NotEnoughElements => "not enough elements"@,
        }
    }

    /// A sentence that describes the error, with the offending indices in
    /// decimal.
    pub fn message(&self) -> (text: String)
        ensures
            text@ == self.text(),
    {
        match self {
            Error::IndicesOutOfBounds(row, column) => {
                let mut text = String::from_str("indices (");
                text.append(decimal_string(*row).as_str());
                text.append(", ");
                text.append(decimal_string(*column).as_str());
                text.append(") out of bounds");
                text
            },
            Error::IndexOutOfBounds(index) => {
                let mut text = String::from_str("index ");
                text.append(decimal_string(*index).as_str());
                text.append(" out of bounds");
                text
            },
            Error::DimensionMismatch => String::from_str("dimension mismatch"),
            Error::NotEnoughElements => String::from_str("not enough elements"),
        }
    }
}

/// The one-character string for a value below ten.
fn digit_str(value: usize) -> (text: &'static str)
    requires
        value < 10,
    ensures
        text@ == seq![digit(value as nat)],
{
    proof {
        reveal_strlit("0");
        reveal_strlit("1");
        reveal_strlit("2");
        reveal_strlit("3");
        reveal_strlit("4");
        reveal_strlit("5");
        reveal_strlit("6");
        reveal_strlit("7");
        reveal_strlit("8");
        reveal_strlit("9");
    }
    let text = if value == 0 {
        "0"
    } else if value == 1 {
        "1"
    } else if value == 2 {
        "2"
    } else if value == 3 {
        "3"
    } else if value == 4 {
        "4"
    } else if value == 5 {
        "5"
    } else if value == 6 {
        "6"
    } else if value == 7 {
        "7"
    } else if value == 8 {
        "8"
    } else {
        "9"
    };
    assert(text@ =~= seq![digit(value as nat)]);
    text
}

/// `value` written in decimal.
fn decimal_string(value: usize) -> (text: String)
    ensures
        text@ == decimal(value as nat),
    decreases value,
{
    if value < 10 {
        String::from_str(digit_str(value))
    } else {
        let mut text = decimal_string(value / 10);
        text.append(digit_str(value % 10));
        assert(text@ =~= decimal(value as nat));
        text
    }
}

} // verus!
