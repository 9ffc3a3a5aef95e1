//! What holds of the handler tables across registrations and lookups.

use vstd::prelude::*;

verus! {

/// A table of handlers after registrations: registering a name makes a
/// lookup of that name give the handler registered last, and leaves every
/// other name as it was.
pub proof fn law_last_registration_wins<V>(
    table: Map<Seq<char>, V>,
    name: Seq<char>,
    first: V,
    second: V,
    other: Seq<char>,
)
    requires
        other != name,
    ensures
        table.insert(name, first).insert(name, second).contains_key(name),
        table.insert(name, first).insert(name, second)[name] == second,
        table.insert(name, second).contains_key(other) == table.contains_key(other),
        table.contains_key(other) ==> table.insert(name, second)[other] == table[other],
{
}

} // verus!
