//! Sets of attribute ids and the attributes of a file.
//!
//! Attribute ids are numbers here, as the protocol has them.
use crate::protocol::{AttrSet, FileAttributes};
use vstd::prelude::*;

verus! {

/// Id of the attribute that tells which attributes a server supports.
pub const SUPPORTED_ATTRS: u32 = 0;

/// Id of the attribute that tells how much one `Read` returns at most.
pub const MAX_READ: u32 = 30;

/// Id of the attribute that tells how much one `Write` takes at most.
pub const MAX_WRITE: u32 = 31;

/// Id of the attribute that sets the time of last access.
pub const TIME_ACCESS_SET: u32 = 48;

/// Id of the attribute that sets the time of last modification.
pub const TIME_MODIFY_SET: u32 = 54;

/// Whether the protocol has an attribute with this id.
pub open spec fn is_attr_id(id: u32) -> bool {
    id <= 76 && id != 25
}

/// Ids in a set of attribute ids.
pub uninterp spec fn attr_ids(set: AttrSet) -> Set<u32>;

/// The attributes of a file whose value is a 64-bit number, by id.
pub uninterp spec fn attr_sizes(attrs: FileAttributes) -> Map<u32, u64>;

/// The attributes of a file whose value is a set of attribute ids, by id.
pub uninterp spec fn attr_id_sets(attrs: FileAttributes) -> Map<u32, Set<u32>>;

/// Calls `nfs4::EnumSet::remove`: the id is in the set no longer, and the result tells whether
/// it was.
#[verifier::external_body]
fn attr_set_remove(set: &mut AttrSet, id: u32) -> (removed: bool)
    requires
        is_attr_id(id),
    ensures
        removed == attr_ids(*old(set)).contains(id),
        attr_ids(*final(set)) == attr_ids(*old(set)).remove(id),
{
    set.remove(nfs4::FileAttributeId::try_from(id).unwrap())
}

/// Calls `nfs4::EnumSet`'s `clone`: the copy holds the same ids.
#[verifier::external_body]
pub(crate) fn clone_attr_set(set: &AttrSet) -> (copy: AttrSet)
    ensures
        attr_ids(copy) == attr_ids(*set),
{
    set.clone()
}

/// Calls `nfs4::EnumSet`'s `into_iter`: it hands out each id in the set once, in ascending
/// order, and nothing else. Members of the set are members of an enumeration, so each one is an
/// id that the protocol has.
#[verifier::external_body]
fn attr_set_into_ids(set: AttrSet) -> (ids: Vec<u32>)
    ensures
        ids@.to_set() == attr_ids(set),
        forall|i: int, j: int| 0 <= i < j < ids@.len() ==> ids@[i] < ids@[j],
        forall|i: int| 0 <= i < ids@.len() ==> is_attr_id(#[trigger] ids@[i]),
{
    set.into_iter().map(u32::from).collect()
}

/// Calls `nfs4::EnumSet`'s `from_iter`: the set holds the ids given and nothing else.
#[verifier::external_body]
pub(crate) fn attr_set_from_ids(ids: Vec<u32>) -> (set: AttrSet)
    requires
        forall|i: int| 0 <= i < ids@.len() ==> is_attr_id(#[trigger] ids@[i]),
    ensures
        attr_ids(set) == ids@.to_set(),
{
    ids.into_iter().map(|id| nfs4::FileAttributeId::try_from(id).unwrap()).collect()
}

/// Calls `nfs4::EnumMap`'s `clone`: the copy holds the same attributes with the same values.
#[verifier::external_body]
fn clone_attrs(attrs: &FileAttributes) -> (copy: FileAttributes)
    ensures
        attr_sizes(copy) == attr_sizes(*attrs),
        attr_id_sets(copy) == attr_id_sets(*attrs),
{
    attrs.clone()
}

/// Calls `nfs4::EnumMap::get_as` for a `u64`: gives the attribute's value if the map has the
/// attribute and its value is a 64-bit number.
#[verifier::external_body]
fn attrs_get_size(attrs: &FileAttributes, id: u32) -> (size: Option<u64>)
    requires
        is_attr_id(id),
    ensures
        size == attr_sizes(*attrs).get(id),
{
    attrs.get_as::<u64>(nfs4::FileAttributeId::try_from(id).unwrap()).copied()
}

/// Calls `nfs4::EnumMap::remove_as` for a set of ids: takes the attribute out of the map, and
/// gives its value if the map had the attribute and its value is a set of ids.
#[verifier::external_body]
fn attrs_remove_id_set(attrs: &mut FileAttributes, id: u32) -> (taken: Option<AttrSet>)
    requires
        is_attr_id(id),
    ensures
        taken is Some <==> attr_id_sets(*old(attrs)).contains_key(id),
        taken matches Some(set) ==> attr_ids(set) == attr_id_sets(*old(attrs))[id],
        attr_sizes(*final(attrs)) == attr_sizes(*old(attrs)).remove(id),
        attr_id_sets(*final(attrs)) == attr_id_sets(*old(attrs)).remove(id),
{
    attrs.remove_as::<AttrSet>(nfs4::FileAttributeId::try_from(id).unwrap())
}

/// Whether `id` is in `set`.
pub fn attr_set_contains(set: &AttrSet, id: u32) -> (found: bool)
    requires
        is_attr_id(id),
    ensures
        found == attr_ids(*set).contains(id),
{
    let mut copy = clone_attr_set(set);
    attr_set_remove(&mut copy, id)
}

/// The ids in `requested` that are also in `supported`.
pub fn keep_supported(requested: AttrSet, supported: &AttrSet) -> (kept: AttrSet)
    ensures
        attr_ids(kept) == attr_ids(requested).intersect(attr_ids(*supported)),
{
    let ids = attr_set_into_ids(requested);
    let ghost all = ids@;
    let ghost wanted = attr_ids(*supported);
    let mut kept_ids: Vec<u32> = Vec::new();
    assert(kept_ids@.to_set() =~= all.take(0).to_set().intersect(wanted));
    for id in it: ids
        invariant
            it.seq() == all,
            wanted == attr_ids(*supported),
            forall|i: int| 0 <= i < all.len() ==> is_attr_id(#[trigger] all[i]),
            forall|i: int| 0 <= i < kept_ids@.len() ==> is_attr_id(#[trigger] kept_ids@[i]),
            kept_ids@.to_set() == all.take(it.index()).to_set().intersect(wanted),
    {
        proof {
            let n = it.index();
            assert(all.take(n + 1) =~= all.take(n).push(id));
            all.take(n).lemma_push_to_set_commute(id);
            kept_ids@.lemma_push_to_set_commute(id);
        }
        if attr_set_contains(supported, id) {
            kept_ids.push(id);
        }
        assert(kept_ids@.to_set() =~= all.take(it.index() + 1).to_set().intersect(wanted));
    }
    assert(all.take(all.len() as int) =~= all);
    attr_set_from_ids(kept_ids)
}

/// The ids in `supported` without the two that can be set but not read.
pub fn without_set_only(supported: &AttrSet) -> (readable: AttrSet)
    ensures
        attr_ids(readable) == attr_ids(*supported).remove(TIME_ACCESS_SET).remove(TIME_MODIFY_SET),
{
    let mut readable = clone_attr_set(supported);
    attr_set_remove(&mut readable, TIME_ACCESS_SET);
    attr_set_remove(&mut readable, TIME_MODIFY_SET);
    readable
}

/// What a client learns from the attributes of the server's root.
pub struct RootAttrs {
    pub supported_attrs: AttrSet,
    pub max_read: u64,
    pub max_write: u64,
}

/// Whether `attrs` has the attributes that a client has to learn from the server's root.
pub open spec fn has_root_attrs(attrs: FileAttributes) -> bool {
    &&& attr_id_sets(attrs).contains_key(SUPPORTED_ATTRS)
    &&& attr_sizes(attrs).contains_key(MAX_READ)
    &&& attr_sizes(attrs).contains_key(MAX_WRITE)
}

/// Tells whether `attrs` has the attributes that a client has to learn from the server's root.
pub fn tells_root_attrs(attrs: &FileAttributes) -> (told: bool)
    ensures
        told == has_root_attrs(*attrs),
{
    let mut copy = clone_attrs(attrs);
    let supported = attrs_remove_id_set(&mut copy, SUPPORTED_ATTRS);
    let max_read = attrs_get_size(attrs, MAX_READ);
    let max_write = attrs_get_size(attrs, MAX_WRITE);
    supported.is_some() && max_read.is_some() && max_write.is_some()
}

/// Reads what a client has to learn from the attributes of the server's root.
pub fn read_root_attrs(mut attrs: FileAttributes) -> (root: RootAttrs)
    requires
        has_root_attrs(attrs),
    ensures
        attr_ids(root.supported_attrs) == attr_id_sets(attrs)[SUPPORTED_ATTRS],
        root.max_read == attr_sizes(attrs)[MAX_READ],
        root.max_write == attr_sizes(attrs)[MAX_WRITE],
{
    let supported_attrs = attrs_remove_id_set(&mut attrs, SUPPORTED_ATTRS).unwrap();
    let max_read = attrs_get_size(&attrs, MAX_READ).unwrap();
    let max_write = attrs_get_size(&attrs, MAX_WRITE).unwrap();
    RootAttrs { supported_attrs, max_read, max_write }
}

} // verus!
