//! What the compiler knows about a crate after it has been resolved and
//! type-checked, as far as the collector reads it: which definition each
//! path names, which node each definition is, and which items are public.

use vstd::prelude::*;
use std::rc::Rc;
use crate::ast::{Crate, DefId, Item, NodeId};

verus! {

/// A node of the syntax tree found by its identifier: an item, or another
/// kind of node.
#[derive(Debug)]
pub enum MapNode {
    NodeItem(Rc<Item>),
    NodeOther,
}

/// The tables of a type-checked crate: the definition that each path node
/// names, and the node that each identifier stands for. Each table holds a
/// key at most once; a lookup finds the first entry with the key.
#[derive(Debug)]
pub struct TyCtxt {
    pub def_map: Vec<(NodeId, DefId)>,
    pub map: Vec<(NodeId, MapNode)>,
}

/// Whether the crate was type-checked.
#[derive(Debug)]
pub enum MaybeTyped {
    Typed(TyCtxt),
    NotTyped,
}

/// The crate being documented and what the compiler knows of it.
#[derive(Debug)]
pub struct DocContext {
    pub krate: Crate,
    pub maybe_typed: MaybeTyped,
}

/// The items that the crate exports and those that are public.
#[derive(Debug)]
pub struct CrateAnalysis {
    pub exported_items: Vec<NodeId>,
    pub public_items: Vec<NodeId>,
}

/// The identity of a crate as its `crate_id` attribute declares it.
#[derive(Debug)]
pub struct CrateId {
    pub path: String,
    pub name: String,
    pub version: Option<String>,
}

/// The value of the first entry with key `id`.
pub open spec fn find_entry<V>(entries: Seq<(NodeId, V)>, id: NodeId) -> Option<V>
    decreases entries.len(),
{
    if entries.len() == 0 {
        None
    } else if entries[0].0 == id {
        Some(entries[0].1)
    } else {
        find_entry(entries.drop_first(), id)
    }
}

/// The definition that node `id` names.
pub fn find_def(entries: &Vec<(NodeId, DefId)>, id: NodeId) -> (r: Option<DefId>)
    ensures
        r == find_entry(entries@, id),
{
    let n = entries.len();
    let mut i: usize = 0;
    assert(entries@.skip(0) =~= entries@);
    while i < n
        invariant
            n == entries.len(),
            i <= n,
            find_entry(entries@, id) == find_entry(entries@.skip(i as int), id),
        decreases n - i,
    {
        assert(entries@.skip(i as int)[0] == entries@[i as int]);
        if entries[i].0 == id {
            return Some(entries[i].1);
        }
        assert(entries@.skip(i as int).drop_first() =~= entries@.skip(i + 1));
        i = i + 1;
    }
    None
}

/// The node that identifier `id` stands for.
pub fn find_node(entries: &Vec<(NodeId, MapNode)>, id: NodeId) -> (r: Option<&MapNode>)
    ensures
        match r {
            Some(x) => find_entry(entries@, id) == Some(*x),
            None => find_entry(entries@, id) is None,
        },
{
    let n = entries.len();
    let mut i: usize = 0;
    assert(entries@.skip(0) =~= entries@);
    while i < n
        invariant
            n == entries.len(),
            i <= n,
            find_entry(entries@, id) == find_entry(entries@.skip(i as int), id),
        decreases n - i,
    {
        assert(entries@.skip(i as int)[0] == entries@[i as int]);
        if entries[i].0 == id {
            return Some(&entries[i].1);
        }
        assert(entries@.skip(i as int).drop_first() =~= entries@.skip(i + 1));
        i = i + 1;
    }
    None
}

/// Whether `id` is among `ids`.
pub fn contains_node(ids: &Vec<NodeId>, id: NodeId) -> (r: bool)
    ensures
        r == ids@.contains(id),
{
    let n = ids.len();
    let mut i: usize = 0;
    while i < n
        invariant
            n == ids.len(),
            i <= n,
            forall|j: int| 0 <= j < i ==> ids@[j] != id,
        decreases n - i,
    {
        if ids[i] == id {
            assert(ids@[i as int] == id);
            return true;
        }
        i = i + 1;
    }
    false
}

} // verus!
