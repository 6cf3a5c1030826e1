//! Update expressions for the key-value store: a `SET` clause over the
//! assignments of one update, and the numbered placeholders that stand for
//! field names and values in it.

use vstd::prelude::*;
use vstd::string::*;
use crate::text::{decimal_string, decimal_text, join2, join3};

verus! {

/// The parts joined in order, with `separator` between neighbours.
pub open spec fn joined(parts: Seq<Seq<char>>, separator: Seq<char>) -> Seq<char>
    decreases parts.len(),
{
    if parts.len() == 0 {
        Seq::empty()
    } else if parts.len() == 1 {
        parts[0]
    } else {
        joined(parts.drop_last(), separator) + separator + parts.last()
    }
}

/// The placeholder of the `index`-th field name.
pub open spec fn name_placeholder_text(index: nat) -> Seq<char> {
    "#f"@ + decimal_text(index)
}

/// The placeholder of the `index`-th value.
pub open spec fn value_placeholder_text(index: nat) -> Seq<char> {
    ":v"@ + decimal_text(index)
}

/// The assignment of the `index`-th value to the `index`-th field.
pub open spec fn assignment_text(index: nat) -> Seq<char> {
    name_placeholder_text(index) + " = "@ + value_placeholder_text(index)
}

/// The `SET` clause over the given assignments; `None` where there is
/// nothing to assign.
pub open spec fn set_clause(assignments: Seq<Seq<char>>) -> Option<Seq<char>> {
    if assignments.len() == 0 {
        None
    } else {
        Some("SET "@ + joined(assignments, ", "@))
    }
}

/// The placeholder of the `index`-th field name.
pub fn name_placeholder(index: usize) -> (r: String)
    ensures
        r@ == name_placeholder_text(index as nat),
{
    let digits = decimal_string(index as u64);
    join2("#f", digits.as_str())
}

/// The placeholder of the `index`-th value.
pub fn value_placeholder(index: usize) -> (r: String)
    ensures
        r@ == value_placeholder_text(index as nat),
{
    let digits = decimal_string(index as u64);
    join2(":v", digits.as_str())
}

/// The assignment of the `index`-th value to the `index`-th field.
pub fn indexed_assignment(index: usize) -> (r: String)
    ensures
        r@ == assignment_text(index as nat),
{
    let name = name_placeholder(index);
    let value = value_placeholder(index);
    join3(name.as_str(), " = ", value.as_str())
}

/// Joins the parts in order, with `separator` between neighbours.
pub fn join_with(parts: &Vec<String>, separator: &str) -> (r: String)
    ensures
        r@ == joined(parts.deep_view(), separator@),
{
    let mut out = String::new();
    let n = parts.len();
    let mut i: usize = 0;
    while i < n
        invariant
            n == parts@.len(),
            i <= n,
            parts.deep_view().len() == n,
            out@ == joined(parts.deep_view().subrange(0, i as int), separator@),
        decreases n - i,
    {
        let ghost before = parts.deep_view().subrange(0, i as int);
        let ghost after = parts.deep_view().subrange(0, i + 1);
        assert(after.drop_last() =~= before);
        assert(after.last() == parts@[i as int]@);
        if i > 0 {
            out.append(separator);
        }
        out.append(parts[i].as_str());
        i += 1;
        assert(out@ =~= joined(after, separator@));
    }
    assert(parts.deep_view().subrange(0, n as int) =~= parts.deep_view());
    out
}

/// The `SET` clause over the given assignments; `None` where there is
/// nothing to assign.
pub fn set_expression(assignments: &Vec<String>) -> (r: Option<String>)
    ensures
        r.deep_view() == set_clause(assignments.deep_view()),
{
    if assignments.len() == 0 {
        None
    } else {
        let list = join_with(assignments, ", ");
        Some(join2("SET ", list.as_str()))
    }
}

} // verus!
