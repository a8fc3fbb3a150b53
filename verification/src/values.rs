//! Copying, transferring and duplicating values.
//!
//! A scalar is copied whenever it is assigned: both bindings stay usable and
//! are independent. A growable sequence is transferred by assignment: the
//! old binding is gone, so nothing can observe it afterwards. Only an
//! explicit duplication gives a second, independent sequence.

use vstd::prelude::*;

verus! {

/// The bindings that a run of the data operations leaves behind.
pub struct DataReport {
    /// The scalar the run started from.
    pub x: i32,
    /// The scalar derived from `x` by arithmetic. Deriving it copied `x`.
    pub y: i32,
    /// `x` after it was assigned `y`, again by copy.
    pub x_assigned: i32,
    /// The sequence, under the binding it was transferred to.
    pub w: Vec<i32>,
    /// The explicit duplicate of `w`.
    pub copy: Vec<i32>,
}

/// The amount by which the derived scalar lies below its source.
pub const STEP: i32 = 2;

/// Runs the data operations on a scalar and a growable sequence.
///
/// The scalar is copied into a derived value and then assigned from it.
/// The sequence is taken by value, so the caller's binding ends here; it is
/// then transferred to a new binding and that binding is duplicated. Both
/// sequences of the report hold the elements that came in.
pub fn data_operations(x: i32, v: Vec<i32>) -> (report: DataReport)
    requires
        x - STEP >= i32::MIN,
    ensures
        report.x == x,
        report.y == x - STEP,
        report.x_assigned == report.y,
        report.w@ == v@,
        report.copy@ == v@,
{
    let mut current: i32 = x;
    let y: i32 = current - STEP;
    current = y;
    let w = v;
    let copy = w.clone();
    DataReport { x, y, x_assigned: current, w, copy }
}

/// The fixed text that the greeting ends with.
pub fn helper() -> (s: String)
    ensures
        s@ == "helper string"@,
{
    let s = "helper string".to_owned();
    s
}

} // verus!
