use fnv::{FnvHashMap, FnvHasher};
use std::hash::BuildHasherDefault;
use vstd::prelude::*;

verus! {

/// The devices that answer reads and writes of CPU addresses in place of RAM.
#[derive(Clone, Copy, Debug, PartialEq, Eq, Structural)]
pub enum Listener {
    Ppu,
    Apu,
    Controller,
}

#[verifier::external_type_specification]
#[verifier::external_body]
pub struct ExFnvHasher(FnvHasher);

#[verifier::external_type_specification]
#[verifier::external_body]
#[verifier::reject_recursive_types(H)]
pub struct ExBuildHasherDefault<H>(BuildHasherDefault<H>);

/// The entries of a listener table: which device answers each address.
pub uninterp spec fn listener_table(m: FnvHashMap<u16, Listener>) -> Map<u16, Listener>;

/// An empty table, made with `HashMap::with_capacity_and_hasher` (capacity 10, the FNV
/// hasher); the contract claims that it has no entries.
#[verifier::external_body]
pub(crate) fn new_listener_table() -> (r: FnvHashMap<u16, Listener>)
    ensures
        forall|a: u16| !(#[trigger] listener_table(r).dom().contains(a)),
{
    FnvHashMap::with_capacity_and_hasher(10, Default::default())
}

/// Looks an address up with `HashMap::get`; the contract claims that the result is the
/// table's entry for the address, if there is one.
#[verifier::external_body]
pub(crate) fn listener_at(m: &FnvHashMap<u16, Listener>, address: u16) -> (r: Option<Listener>)
    ensures
        r == (if listener_table(*m).dom().contains(address) {
            Some(listener_table(*m)[address])
        } else {
            None
        }),
{
    m.get(&address).copied()
}

/// Adds or replaces an entry with `HashMap::insert`; the contract claims that exactly that
/// entry changes.
#[verifier::external_body]
pub(crate) fn insert_listener(m: &mut FnvHashMap<u16, Listener>, address: u16, listener: Listener)
    ensures
        listener_table(*final(m)) == listener_table(*old(m)).insert(address, listener),
{
    m.insert(address, listener);
}

} // verus!
