use vstd::prelude::*;

verus! {

/// The colour of a square of the board.
#[derive(Debug, Clone, Copy, PartialEq, Eq, Structural)]
pub enum SquareColor {
    Light,
    Dark,
}

/// A rank lies between 1 and 8.
pub open spec fn valid_rank(rank: int) -> bool {
    1 <= rank <= 8
}

/// A file lies between 'a' and 'h'.
pub open spec fn valid_file(file: char) -> bool {
    'a' <= file <= 'h'
}

/// The number of a file, counted from 1 for 'a' to 8 for 'h'.
pub open spec fn file_number(file: char) -> int {
    file as int - 'a' as int + 1
}

/// A square is light when its file number plus its rank is odd.
pub open spec fn color_of(rank: int, file: char) -> SquareColor {
    if (file_number(file) + rank) % 2 == 1 {
        SquareColor::Light
    } else {
        SquareColor::Dark
    }
}

/// The decimal digit that writes a rank between 1 and 8.
pub open spec fn rank_digit(rank: int) -> char {
    ('0' as int + rank) as char
}

/// The name of a square: its file letter followed by its rank digit.
pub open spec fn square_name(rank: int, file: char) -> Seq<char> {
    seq![file, rank_digit(rank)]
}

/// One square of the board. Its name and colour follow from its rank and file.
#[derive(Debug)]
pub struct Square {
    name: String,
    color: SquareColor,
    rank: u8,
    file: char,
}

/// Relies on std's `format!`: `{}` writes a `char` as itself and a `u8` in
/// decimal, so a file and a one-digit rank give a two-character name.
#[verifier::external_body]
fn format_name(file: char, rank: u8) -> (r: String)
    requires
        valid_rank(rank as int),
    ensures
        r@ == square_name(rank as int, file),
{
    format!("{}{}", file, rank)
}

impl Square {
    /// Its rank, its file, its name and its colour agree.
    pub open spec fn well_formed(&self) -> bool {
        &&& valid_rank(self.spec_rank())
        &&& valid_file(self.spec_file())
        &&& self.spec_name() == square_name(self.spec_rank(), self.spec_file())
        &&& self.spec_color() == color_of(self.spec_rank(), self.spec_file())
    }

    pub closed spec fn spec_rank(&self) -> int {
        self.rank as int
    }

    pub closed spec fn spec_file(&self) -> char {
        self.file
    }

    pub closed spec fn spec_name(&self) -> Seq<char> {
        self.name@
    }

    pub closed spec fn spec_color(&self) -> SquareColor {
        self.color
    }

    /// The square at `rank` and `file`, named and coloured.
    pub fn new(rank: u8, file: char) -> (r: Square)
        requires
            valid_rank(rank as int),
            valid_file(file),
        ensures
            r.well_formed(),
            r.spec_rank() == rank as int,
            r.spec_file() == file,
    {
        let ordinal: u32 = file as u32;
        let color = if (ordinal + rank as u32) % 2 == 1 {
            SquareColor::Light
        } else {
            SquareColor::Dark
        };
        Square { name: format_name(file, rank), color, rank, file }
    }

    pub fn name(&self) -> (r: &str)
        ensures
            r@ == self.spec_name(),
    {
        self.name.as_str()
    }

    pub fn color(&self) -> (r: SquareColor)
        ensures
            r == self.spec_color(),
    {
        self.color
    }

    pub fn rank(&self) -> (r: u8)
        ensures
            r as int == self.spec_rank(),
    {
        self.rank
    }

    pub fn file(&self) -> (r: char)
        ensures
            r == self.spec_file(),
    {
        self.file
    }
}

impl Clone for Square {
    fn clone(&self) -> (r: Square)
        ensures
            r == *self,
    {
        Square { name: self.name.clone(), color: self.color, rank: self.rank, file: self.file }
    }
}

} // verus!
