//! Rows of a recorded run: each must hold exactly three numeric fields,
//! every one finite. The caller splits the text into rows and fields and
//! reads each field as a number; this module decides whether a row stands.

use vstd::prelude::*;
use crate::sample::{find_non_finite, first_non_finite, Sample};

verus! {

/// The number of fields in a row.
pub const FIELDS_PER_ROW: usize = 3;

/// Why a row was refused. Each variant names the row, counted from zero.
#[derive(Clone, Copy, Debug, PartialEq, Eq)]
pub enum ParseError {
    /// The field with this index is not a number.
    NotNumeric { row: usize, field: usize },
    /// The row holds this many fields instead of three.
    FieldCount { row: usize, found: usize },
    /// The field with this index is infinite or not a number.
    NonFinite { row: usize, field: usize },
}

/// The index of the first field that could not be read as a number.
pub open spec fn first_unread(fields: Seq<Option<u32>>) -> Option<nat>
    decreases fields.len(),
{
    if fields.len() == 0 {
        None
    } else {
        match first_unread(fields.drop_last()) {
            Some(i) => Some(i),
            None => if fields.last() is None {
                Some((fields.len() - 1) as nat)
            } else {
                None
            },
        }
    }
}

/// The first reason to refuse a row: a field that is no number, then a
/// count of fields other than three, then a field that is not finite.
pub open spec fn row_fault(row: usize, fields: Seq<Option<u32>>) -> Option<ParseError> {
    if let Some(field) = first_unread(fields) {
        Some(ParseError::NotNumeric { row, field: field as usize })
    } else if fields.len() != FIELDS_PER_ROW {
        Some(ParseError::FieldCount { row, found: fields.len() as usize })
    } else if let Some(field) = first_non_finite(fields[0]->0, fields[1]->0, fields[2]->0) {
        Some(ParseError::NonFinite { row, field })
    } else {
        None
    }
}

/// `first_unread` is the least index of a field that is no number.
pub proof fn lemma_first_unread(fields: Seq<Option<u32>>)
    ensures
        match first_unread(fields) {
            Some(i) => i < fields.len() && fields[i as int] is None && forall|j: int|
                0 <= j < i ==> fields[j] is Some,
            None => forall|j: int| 0 <= j < fields.len() ==> fields[j] is Some,
        },
    decreases fields.len(),
{
    if fields.len() > 0 {
        lemma_first_unread(fields.drop_last());
        let front = fields.drop_last();
        assert(forall|j: int| 0 <= j < front.len() ==> front[j] == fields[j]);
    }
}

/// Finds `first_unread`.
fn find_unread(fields: &Vec<Option<u32>>) -> (r: Option<usize>)
    ensures
        match first_unread(fields@) {
            Some(i) => r == Some(i as usize),
            None => r is None,
        },
{
    let n: usize = fields.len();
    let mut i: usize = 0;
    assert(fields@.take(0) =~= Seq::<Option<u32>>::empty());
    while i < n
        invariant
            n == fields@.len(),
            i <= n,
            first_unread(fields@.take(i as int)) is None,
        decreases n - i,
    {
        assert(fields@.take(i + 1).drop_last() =~= fields@.take(i as int));
        if fields[i].is_none() {
            proof {
                lemma_unread_prefix(fields@, i + 1);
            }
            return Some(i);
        }
        i = i + 1;
    }
    assert(fields@.take(n as int) =~= fields@);
    None
}

/// A field found unread in a prefix of a row is the first unread of the whole row.
proof fn lemma_unread_prefix(fields: Seq<Option<u32>>, k: int)
    requires
        0 <= k <= fields.len(),
        first_unread(fields.take(k)) is Some,
    ensures
        first_unread(fields) == first_unread(fields.take(k)),
    decreases fields.len() - k,
{
    if k == fields.len() {
        assert(fields.take(k) =~= fields);
    } else {
        assert(fields.take(k + 1).drop_last() =~= fields.take(k));
        lemma_unread_prefix(fields, k + 1);
    }
}

/// Makes a sample of one row. `fields` holds, for each field of the row in
/// order, the number that was read from it, or nothing where the text is no
/// number. The row is refused for the first reason that `row_fault` finds.
pub fn assemble_row(row: usize, fields: &Vec<Option<u32>>) -> (r: Result<Sample, ParseError>)
    ensures
        match row_fault(row, fields@) {
            Some(e) => r == Err::<Sample, ParseError>(e),
            None => r matches Ok(sample) && sample@ == seq![
                fields@[0]->0,
                fields@[1]->0,
                fields@[2]->0,
            ],
        },
{
    proof {
        lemma_first_unread(fields@);
    }
    if let Some(field) = find_unread(fields) {
        return Err(ParseError::NotNumeric { row, field });
    }
    if fields.len() != FIELDS_PER_ROW {
        return Err(ParseError::FieldCount { row, found: fields.len() });
    }
    let x: u32 = fields[0].unwrap();
    let y: u32 = fields[1].unwrap();
    let z: u32 = fields[2].unwrap();
    match find_non_finite(x, y, z) {
        Some(field) => Err(ParseError::NonFinite { row, field }),
        None => Ok(Sample::from_finite(x, y, z)),
    }
}

} // verus!
