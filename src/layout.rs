use vstd::prelude::*;

use crate::basis::cyclic_successor;

verus! {

/// Row of slot `k` of a row-major 6×6 matrix.
pub open spec fn row6(k: int) -> int {
    k / 6
}

/// Column of slot `k` of a row-major 6×6 matrix.
pub open spec fn col6(k: int) -> int {
    k % 6
}

/// Where a slot of a 6×6 spatial transform takes its value from when a
/// rotation matrix is embedded: `Some(i)` for entry `i` of the rotation,
/// `None` for a zero.
///
/// The rotation stands in both diagonal 3×3 blocks, at the same row and
/// column within the block; the two off-diagonal blocks are zero.
pub open spec fn rotation_embedding_spec(k: int) -> Option<usize> {
    let (row, col) = (row6(k), col6(k));
    if (row < 3) == (col < 3) {
        Some(((row % 3) * 3 + col % 3) as usize)
    } else {
        None
    }
}

/// What a slot of a 6×6 spatial transform holds when a translation `p` is
/// embedded.
#[derive(Debug, Clone, Copy, PartialEq, Eq, Structural)]
pub enum TranslationEntry {
    Zero,
    One,
    /// `p[i]`
    Plus(usize),
    /// `-p[i]`
    Minus(usize),
}

/// Entry (`row`, `col`), both below 3, of the bottom-left block of a
/// pure-translation transform: `p[i]` or `-p[i]` off the diagonal, where `i`
/// is the third index, with a plus sign where the column follows the row
/// cyclically. This is the matrix of `v ↦ v × p`, that is `-skew(p)`.
pub open spec fn coupling_entry_spec(row: int, col: int) -> TranslationEntry {
    if row == col {
        TranslationEntry::Zero
    } else if cyclic_successor(row, col) {
        TranslationEntry::Plus((3 - row - col) as usize)
    } else {
        TranslationEntry::Minus((3 - row - col) as usize)
    }
}

/// Slot `k` of the spatial transform of a pure translation: the identity,
/// with the coupling block of the translation below the diagonal.
pub open spec fn translation_embedding_spec(k: int) -> TranslationEntry {
    let (row, col) = (row6(k), col6(k));
    if row == col {
        TranslationEntry::One
    } else if row >= 3 && col < 3 {
        coupling_entry_spec(row - 3, col)
    } else {
        TranslationEntry::Zero
    }
}

/// The slot of the coupling block that holds `p[i]` with a plus sign in the
/// transform of a translation `p`.
pub open spec fn translation_slot_spec(i: int) -> int {
    (3 + (i + 1) % 3) * 6 + (i + 2) % 3
}

/// The spatial transform of the rotation `r` (row-major 3×3).
pub open spec fn rotation_transform_spec(r: Seq<int>) -> Seq<int> {
    Seq::new(
        36,
        |k: int|
            match rotation_embedding_spec(k) {
                Some(i) => r[i as int],
                None => 0,
            },
    )
}

/// Value of a translation entry for the translation `p`.
pub open spec fn translation_entry_value(e: TranslationEntry, p: Seq<int>) -> int {
    match e {
        TranslationEntry::Zero => 0,
        TranslationEntry::One => 1,
        TranslationEntry::Plus(i) => p[i as int],
        TranslationEntry::Minus(i) => -p[i as int],
    }
}

/// The spatial transform of the translation `p`.
pub open spec fn translation_transform_spec(p: Seq<int>) -> Seq<int> {
    Seq::new(36, |k: int| translation_entry_value(translation_embedding_spec(k), p))
}

/// The coupling matrix of the translation `p` (row-major 3×3): the matrix
/// of `v ↦ v × p`, which the transform of `p` holds below its diagonal.
pub open spec fn coupling_matrix(p: Seq<int>) -> Seq<int> {
    Seq::new(9, |k: int| translation_entry_value(coupling_entry_spec(k / 3, k % 3), p))
}

/// The slot of a spatial transform that holds entry `i` (row-major) of its
/// bottom-left 3×3 block.
pub open spec fn coupling_slot_spec(i: int) -> int {
    (3 + i / 3) * 6 + i % 3
}

/// The entry (row-major) of a coupling matrix that holds `p[i]` with a plus
/// sign.
pub open spec fn coupling_index_spec(i: int) -> int {
    ((i + 1) % 3) * 3 + (i + 2) % 3
}

/// The rotation read back from a spatial transform: its top-left block.
pub open spec fn extracted_rotation(t: Seq<int>) -> Seq<int> {
    Seq::new(9, |i: int| t[(i / 3) * 6 + i % 3])
}

/// The bottom-left 3×3 block of a spatial transform.
pub open spec fn coupling_block(t: Seq<int>) -> Seq<int> {
    Seq::new(9, |i: int| t[coupling_slot_spec(i)])
}

/// The three coupling-block slots of a spatial transform read as a
/// translation. This gives back `p` from the transform of a pure
/// translation `p` only: where a rotation `E` is composed in, the block is
/// `E` times the coupling matrix, and the translation has to be recovered
/// from `Eᵗ` times the block instead.
pub open spec fn extracted_translation(t: Seq<int>) -> Seq<int> {
    Seq::new(3, |i: int| t[translation_slot_spec(i)])
}

/// Where slot `k` (`k < 36`) of the spatial transform of a rotation takes
/// its value from.
pub fn rotation_embedding(k: usize) -> (r: Option<usize>)
    requires
        k < 36,
    ensures
        r == rotation_embedding_spec(k as int),
        r matches Some(i) ==> i < 9,
{
    let row: usize = k / 6;
    let col: usize = k % 6;
    if (row < 3) == (col < 3) {
        Some((row % 3) * 3 + col % 3)
    } else {
        None
    }
}

/// What slot `k` (`k < 36`) of the spatial transform of a translation holds.
pub fn translation_embedding(k: usize) -> (r: TranslationEntry)
    requires
        k < 36,
    ensures
        r == translation_embedding_spec(k as int),
        r matches TranslationEntry::Plus(i) ==> i < 3,
        r matches TranslationEntry::Minus(i) ==> i < 3,
{
    let table: [TranslationEntry; 36] = [
        TranslationEntry::One, TranslationEntry::Zero, TranslationEntry::Zero,
        TranslationEntry::Zero, TranslationEntry::Zero, TranslationEntry::Zero,
        TranslationEntry::Zero, TranslationEntry::One, TranslationEntry::Zero,
        TranslationEntry::Zero, TranslationEntry::Zero, TranslationEntry::Zero,
        TranslationEntry::Zero, TranslationEntry::Zero, TranslationEntry::One,
        TranslationEntry::Zero, TranslationEntry::Zero, TranslationEntry::Zero,
        TranslationEntry::Zero, TranslationEntry::Plus(2), TranslationEntry::Minus(1),
        TranslationEntry::One, TranslationEntry::Zero, TranslationEntry::Zero,
        TranslationEntry::Minus(2), TranslationEntry::Zero, TranslationEntry::Plus(0),
        TranslationEntry::Zero, TranslationEntry::One, TranslationEntry::Zero,
        TranslationEntry::Plus(1), TranslationEntry::Minus(0), TranslationEntry::Zero,
        TranslationEntry::Zero, TranslationEntry::Zero, TranslationEntry::One,
    ];
    table[k]
}

/// The slot of a spatial transform from which entry `i` (`i < 9`) of its
/// rotation is read: the same row and column in the top-left block.
pub fn rotation_slot(i: usize) -> (k: usize)
    requires
        i < 9,
    ensures
        k == (i as int / 3) * 6 + i as int % 3,
        row6(k as int) == i as int / 3,
        col6(k as int) == i as int % 3,
        rotation_embedding_spec(k as int) == Some(i),
{
    (i / 3) * 6 + i % 3
}

/// The slot of a spatial transform from which component `i` (`i < 3`) of its
/// translation is read: the one in the coupling block where the embedding of
/// a translation places `p[i]` with a plus sign. Reading it gives `p[i]` back
/// from a pure translation only; see `coupling_index` for a transform that
/// also rotates.
pub fn translation_slot(i: usize) -> (k: usize)
    requires
        i < 3,
    ensures
        k == translation_slot_spec(i as int),
        translation_embedding_spec(k as int) == TranslationEntry::Plus(i),
{
    let table: [usize; 3] = [26, 30, 19];
    table[i]
}

/// The slot of a spatial transform that holds entry `i` (`i < 9`, row-major)
/// of its bottom-left block.
pub fn coupling_slot(i: usize) -> (k: usize)
    requires
        i < 9,
    ensures
        k == coupling_slot_spec(i as int),
        k < 36,
        row6(k as int) == 3 + i as int / 3,
        col6(k as int) == i as int % 3,
{
    (3 + i / 3) * 6 + i % 3
}

/// The entry (`j < 9`, row-major) of a coupling matrix that holds `p[i]`
/// (`i < 3`) with a plus sign. Read from `Eᵗ` times the bottom-left block of
/// the transform `rot(E) · xlt(p)`, it gives back `p[i]`.
pub fn coupling_index(i: usize) -> (j: usize)
    requires
        i < 3,
    ensures
        j == coupling_index_spec(i as int),
        j < 9,
        coupling_entry_spec(j as int / 3, j as int % 3) == TranslationEntry::Plus(i),
{
    ((i + 1) % 3) * 3 + (i + 2) % 3
}

/// The entry of a 3×3 matrix that lands at entry `i` (`i < 9`) of its
/// transpose.
pub fn transposed_index(i: usize) -> (j: usize)
    requires
        i < 9,
    ensures
        j < 9,
        j as int / 3 == i as int % 3,
        j as int % 3 == i as int / 3,
{
    (i % 3) * 3 + i / 3
}

} // verus!
