//! The explicit-lifetime resource lane: values handed to the host by address
//! and kept alive here until the host asks for their release.
use vstd::prelude::*;
use std::collections::BTreeMap;

verus! {

broadcast use {vstd::std_specs::btree::group_btree_axioms, vstd::laws_cmp::group_laws_cmp};

/// The address of a value handed to the host, used as its identity.
#[derive(Debug, PartialEq, Eq, Structural)]
pub struct SendConstPointer(usize);

impl SendConstPointer {
    pub closed spec fn addr(&self) -> usize {
        self.0
    }

    pub fn new(ptr: usize) -> (r: SendConstPointer)
        ensures
            r.addr() == ptr,
    {
        SendConstPointer(ptr)
    }

    pub fn unwrap(self) -> (r: usize)
        ensures
            r == self.addr(),
    {
        self.0
    }
}

/// A release of an address that holds nothing here; the host may ask this of
/// resources another plugin owns, so it is not an error of this process.
#[derive(Clone, Copy, Debug, PartialEq, Eq, Structural)]
pub struct NotRegistered;

/// Values kept alive for the host, keyed by their address; at most one per
/// address.
pub struct ResourceTable<V> {
    map: BTreeMap<usize, V>,
}

impl<V> ResourceTable<V> {
    /// The values held, by address.
    pub closed spec fn view(&self) -> Map<usize, V> {
        self.map@
    }

    pub fn new() -> (r: Self)
        ensures
            r@ == Map::<usize, V>::empty(),
    {
        ResourceTable { map: BTreeMap::new() }
    }

    /// Whether a value is registered under `pointer`.
    pub fn is_registered(&self, pointer: &SendConstPointer) -> (r: bool)
        ensures
            r == self@.contains_key(pointer.addr()),
    {
        self.map.contains_key(&pointer.0)
    }

    /// Keeps `resource` alive under `pointer`, its address, and hands the
    /// address back. Two live values cannot share an address, so registering
    /// an address that already holds a value is an aliasing bug and fatal:
    /// callers check `is_registered` first and abort.
    pub fn register_resource(&mut self, resource: V, pointer: SendConstPointer) -> (r: SendConstPointer)
        requires
            !old(self)@.contains_key(pointer.addr()),
        ensures
            r.addr() == pointer.addr(),
            final(self)@ == old(self)@.insert(pointer.addr(), resource),
    {
        let addr = pointer.unwrap();
        self.map.insert(addr, resource);
        SendConstPointer::new(addr)
    }

    /// Takes the value registered under `pointer` out of the table.
    pub fn release_resource(&mut self, pointer: SendConstPointer) -> (r: Result<V, NotRegistered>)
        ensures
            old(self)@.contains_key(pointer.addr()) ==> {
                &&& r == Ok::<V, NotRegistered>(old(self)@[pointer.addr()])
                &&& final(self)@ == old(self)@.remove(pointer.addr())
            },
            !old(self)@.contains_key(pointer.addr()) ==> {
                &&& r == Err::<V, NotRegistered>(NotRegistered)
                &&& final(self)@ == old(self)@
            },
    {
        let addr = pointer.unwrap();
        match self.map.remove(&addr) {
            Some(v) => Ok(v),
            None => Err(NotRegistered),
        }
    }
}

/// A value registered and then released comes back, and the table is as it
/// was; a second release of the same address finds nothing and changes
/// nothing; a release of an address never registered is the same soft miss.
pub proof fn lemma_release_once<V>(before: Map<usize, V>, addr: usize, value: V)
    requires
        !before.contains_key(addr),
    ensures
        ({
            let registered = before.insert(addr, value);
            let released = registered.remove(addr);
            &&& registered.contains_key(addr)
            &&& registered[addr] == value
            &&& released == before
            &&& !released.contains_key(addr)
        }),
{
    assert(before.insert(addr, value).remove(addr) =~= before);
}

} // verus!
