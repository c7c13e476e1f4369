use crate::slots::Slots;
use crate::task::Task;
use slab::Slab;
use vstd::prelude::*;

verus! {

/// `slab::Slab`: an arena that hands out the keys of its values and takes
/// them back. Verus sees nothing inside one; what it holds is spoken of
/// through `slab_entries` and `slab_vacant_key`.
#[verifier::external_type_specification]
#[verifier::external_body]
#[verifier::reject_recursive_types(T)]
pub struct ExSlab<T>(Slab<T>);

/// Whether the map has exactly `count` keys.
pub open spec fn counts(entries: Map<int, Option<Task>>, count: nat) -> bool {
    entries.dom().finite() && entries.dom().len() == count
}

/// What a slab of optional tasks holds: the value stored under each occupied key.
pub uninterp spec fn slab_entries(slab: Slab<Option<Task>>) -> Map<int, Option<Task>>;

/// The key that the slab will give to the next value inserted.
pub uninterp spec fn slab_vacant_key(slab: Slab<Option<Task>>) -> int;

/// `Slab::new`: a slab with no occupied key, whose first key will be 0.
#[verifier::external_body]
pub(crate) fn slab_new() -> (fresh: Slab<Option<Task>>)
    ensures
        slab_entries(fresh) == Slots::empty(),
        slab_vacant_key(fresh) == 0,
{
    Slab::new()
}

/// `Slab::len`: the number of occupied keys, of which there are finitely many.
#[verifier::external_body]
pub(crate) fn slab_len(slab: &Slab<Option<Task>>) -> (len: usize)
    ensures
        counts(slab_entries(*slab), len as nat),
{
    slab.len()
}

/// `Slab::vacant_key`: the key of the next insertion, which is not occupied.
#[verifier::external_body]
pub(crate) fn slab_next_key(slab: &Slab<Option<Task>>) -> (key: usize)
    ensures
        key == slab_vacant_key(*slab),
        !slab_entries(*slab).dom().contains(key as int),
{
    slab.vacant_key()
}

/// `Slab::insert`: stores the value under the vacant key and returns that key.
/// Every other key keeps its value.
///
/// `insert` panics where the slab would have to grow beyond `isize::MAX`
/// bytes. The callers keep to keys that fit 32 bits, which on a 64-bit
/// machine stays far below that; running out of memory is, as for
/// `Vec::push`, outside what the contract describes.
#[verifier::external_body]
pub(crate) fn slab_insert(slab: &mut Slab<Option<Task>>, entry: Option<Task>) -> (key: usize)
    requires
        slab_vacant_key(*old(slab)) <= u32::MAX,
    ensures
        key == slab_vacant_key(*old(slab)),
        slab_entries(*final(slab)) == slab_entries(*old(slab)).insert(key as int, entry),
{
    slab.insert(entry)
}

/// `Slab::get`: the value under an occupied key, `None` for any other key.
#[verifier::external_body]
pub(crate) fn slab_get(slab: &Slab<Option<Task>>, key: usize) -> (entry: Option<&Option<Task>>)
    ensures
        entry is Some <==> slab_entries(*slab).dom().contains(key as int),
        entry matches Some(e) ==> *e == slab_entries(*slab)[key as int],
{
    slab.get(key)
}

/// `Slab::get_mut`: a reference to the value under an occupied key, `None` for
/// any other key. What is written through the reference becomes the value
/// under that key; nothing else changes, and the vacant key stays.
#[verifier::external_body]
pub(crate) fn slab_get_mut(slab: &mut Slab<Option<Task>>, key: usize) -> (entry: Option<&mut Option<Task>>)
    ensures
        entry is Some <==> slab_entries(*old(slab)).dom().contains(key as int),
        entry matches Some(e) ==> *e == slab_entries(*old(slab))[key as int] && slab_entries(
            *final(slab),
        ) == slab_entries(*old(slab)).insert(key as int, *final(e)),
        entry is None ==> slab_entries(*final(slab)) == slab_entries(*old(slab)),
        slab_vacant_key(*final(slab)) == slab_vacant_key(*old(slab)),
{
    slab.get_mut(key)
}

/// `Slab::try_remove`: frees an occupied key and returns its value; the freed
/// key is the next to be given out. `None` for any other key, which leaves
/// the slab as it was.
#[verifier::external_body]
pub(crate) fn slab_try_remove(slab: &mut Slab<Option<Task>>, key: usize) -> (entry: Option<Option<Task>>)
    ensures
        entry is Some <==> slab_entries(*old(slab)).dom().contains(key as int),
        entry matches Some(e) ==> e == slab_entries(*old(slab))[key as int],
        slab_entries(*final(slab)) == slab_entries(*old(slab)).remove(key as int),
        slab_vacant_key(*final(slab)) == (if slab_entries(*old(slab)).dom().contains(key as int) {
            key as int
        } else {
            slab_vacant_key(*old(slab))
        }),
{
    slab.try_remove(key)
}

} // verus!
