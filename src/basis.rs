use vstd::prelude::*;

verus! {

/// One of the three principal axes of a frame.
#[derive(Debug, Clone, Copy, PartialEq, Eq, Structural)]
pub enum Basis {
    X,
    Y,
    Z,
}

/// What one entry of an elementary rotation matrix holds, as a function of
/// the rotation angle `a`.
#[derive(Debug, Clone, Copy, PartialEq, Eq, Structural)]
pub enum ElementaryEntry {
    Zero,
    One,
    /// `cos(a)`
    Cos,
    /// `sin(a)`
    Sin,
    /// `-sin(a)`
    NegSin,
}

impl Basis {
    /// Position of the axis among x, y, z.
    pub open spec fn index(self) -> int {
        match self {
            Basis::X => 0,
            Basis::Y => 1,
            Basis::Z => 2,
        }
    }
}

/// `b` follows `a` in the cyclic order x, y, z, x.
pub open spec fn cyclic_successor(a: int, b: int) -> bool {
    b == (a + 1) % 3
}

/// Entry (`row`, `col`) of the elementary rotation by an angle about the axis
/// with index `axis`, in the coordinate-transform (passive) convention: the
/// axis row and column are those of the identity, the diagonal of the
/// remaining plane holds the cosine, and the sine stands with a plus sign
/// where the column follows the row cyclically and with a minus sign where
/// it precedes it.
pub open spec fn elementary_entry_spec(axis: int, row: int, col: int) -> ElementaryEntry {
    if row == axis && col == axis {
        ElementaryEntry::One
    } else if row == axis || col == axis {
        ElementaryEntry::Zero
    } else if row == col {
        ElementaryEntry::Cos
    } else if cyclic_successor(row, col) {
        ElementaryEntry::Sin
    } else {
        ElementaryEntry::NegSin
    }
}

/// Value of an entry of an elementary rotation whose angle has cosine `c`
/// and sine `s`.
pub open spec fn entry_value(e: ElementaryEntry, c: int, s: int) -> int {
    match e {
        ElementaryEntry::Zero => 0,
        ElementaryEntry::One => 1,
        ElementaryEntry::Cos => c,
        ElementaryEntry::Sin => s,
        ElementaryEntry::NegSin => -s,
    }
}

/// The elementary rotation about `axis` whose angle has cosine `c` and sine
/// `s`, row-major.
pub open spec fn elementary_matrix(axis: Basis, c: int, s: int) -> Seq<int> {
    Seq::new(9, |k: int| entry_value(elementary_entry_spec(axis.index(), k / 3, k % 3), c, s))
}

impl Basis {
    /// Entry `k` (row-major, `k < 9`) of the elementary rotation about this
    /// axis.
    pub fn elementary_entry(&self, k: usize) -> (e: ElementaryEntry)
        requires
            k < 9,
        ensures
            e == elementary_entry_spec(self.index(), k as int / 3, k as int % 3),
    {
        let table: [ElementaryEntry; 9] = match self {
            Basis::X => [
                ElementaryEntry::One, ElementaryEntry::Zero, ElementaryEntry::Zero,
                ElementaryEntry::Zero, ElementaryEntry::Cos, ElementaryEntry::Sin,
                ElementaryEntry::Zero, ElementaryEntry::NegSin, ElementaryEntry::Cos,
            ],
            Basis::Y => [
                ElementaryEntry::Cos, ElementaryEntry::Zero, ElementaryEntry::NegSin,
                ElementaryEntry::Zero, ElementaryEntry::One, ElementaryEntry::Zero,
                ElementaryEntry::Sin, ElementaryEntry::Zero, ElementaryEntry::Cos,
            ],
            Basis::Z => [
                ElementaryEntry::Cos, ElementaryEntry::Sin, ElementaryEntry::Zero,
                ElementaryEntry::NegSin, ElementaryEntry::Cos, ElementaryEntry::Zero,
                ElementaryEntry::Zero, ElementaryEntry::Zero, ElementaryEntry::One,
            ],
        };
        table[k]
    }
}

} // verus!
