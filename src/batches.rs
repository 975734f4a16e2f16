use vstd::prelude::*;
use itertools::Itertools;
use crate::names::{sort_names, sorted_names};
use crate::option_list::names_of;

verus! {

/// How many services one describe call accepts.
pub const DESCRIBE_BATCH: usize = 10;

/// `items` cut, in order, into consecutive groups of `size`; the last group holds what
/// is left and is shorter when the items run out.
pub open spec fn chunked(items: Seq<Seq<char>>, size: nat) -> Seq<Seq<Seq<char>>>
    decreases items.len(),
{
    if items.len() == 0 || size == 0 {
        Seq::empty()
    } else if items.len() <= size {
        seq![items]
    } else {
        seq![items.take(size as int)] + chunked(items.skip(size as int), size)
    }
}

/// The text of each group of strings.
pub open spec fn groups_of(v: Seq<Vec<String>>) -> Seq<Seq<Seq<char>>> {
    v.map_values(|g: Vec<String>| names_of(g@))
}

/// Relies on itertools' `Itertools::chunks`: consecutive groups of `size` items, in
/// order, the last one shorter when the items run out; it panics on a size of zero.
#[verifier::external_body]
fn chunks_of(items: Vec<String>, size: usize) -> (r: Vec<Vec<String>>)
    requires
        size > 0,
    ensures
        groups_of(r@) == chunked(names_of(items@), size as nat),
{
    let groups = items.into_iter().chunks(size);
    let mut r: Vec<Vec<String>> = Vec::new();
    for group in &groups {
        r.push(group.collect());
    }
    r
}

/// Service identifiers in ascending order, cut into the groups that one describe call
/// each takes.
pub fn service_batches(arns: Vec<String>) -> (r: Vec<Vec<String>>)
    ensures
        groups_of(r@) == chunked(sorted_names(names_of(arns@)), DESCRIBE_BATCH as nat),
{
    chunks_of(sort_names(arns), DESCRIBE_BATCH)
}

} // verus!
