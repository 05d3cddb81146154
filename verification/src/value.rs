//! Wire values carried by incoming options, and the resolved-entity table.

use vstd::prelude::*;

verus! {

/// One primitive wire value attached to an incoming option.
///
/// Values are immutable once received. A `Number` carries the IEEE-754 bit
/// pattern of the wire value; the crate never interprets it numerically, it
/// only stores and hands it back.
#[derive(Debug, PartialEq, Eq)]
pub enum OptionValue {
    /// A text value.
    Str(String),
    /// A signed integer value.
    Integer(i64),
    /// A floating-point value, carried as its bit pattern.
    Number(u64),
    /// A boolean value.
    Boolean(bool),
    /// A reference to an entity, by id.
    Id(u64),
    /// A nested option list, as carried by a sub-command envelope. No field
    /// kind decodes it; decoding nested envelopes is the caller's business.
    SubOptions(Vec<IncomingOption>),
}

/// One `(name, value)` entry of the incoming option list.
#[derive(Debug, PartialEq, Eq)]
pub struct IncomingOption {
    /// Name of the option, matched byte-exactly against declared field names.
    pub name: String,
    /// The value carried by the option.
    pub value: OptionValue,
}

/// A fully materialized object supplied for a reference-typed value.
#[derive(Debug, PartialEq, Eq)]
pub struct ResolvedEntity {
    /// The entity id that reference values point at.
    pub id: u64,
    /// The materialized payload of the entity.
    pub name: String,
}

impl Clone for ResolvedEntity {
    fn clone(&self) -> (res: Self)
        ensures
            res == *self,
    {
        ResolvedEntity { id: self.id, name: self.name.clone() }
    }
}

/// The side-table of resolved entities, keyed by entity id.
///
/// Borrowed read-only during a decode; the decoder never mutates it. When
/// the table holds several entries with one id, the first entry wins.
#[derive(Debug, PartialEq, Eq)]
pub struct ResolvedEntities {
    /// The entries of the table.
    pub entries: Vec<ResolvedEntity>,
}

/// First entry of `entries` at position `i` or later whose id is `id`.
pub open spec fn lookup_from(entries: Seq<ResolvedEntity>, id: u64, i: int) -> Option<
    ResolvedEntity,
>
    decreases entries.len() - i,
{
    if i < 0 || i >= entries.len() {
        None
    } else if entries[i].id == id {
        Some(entries[i])
    } else {
        lookup_from(entries, id, i + 1)
    }
}

/// First entry of `entries` whose id is `id`.
pub open spec fn resolved_lookup(entries: Seq<ResolvedEntity>, id: u64) -> Option<ResolvedEntity> {
    lookup_from(entries, id, 0)
}

impl ResolvedEntities {
    /// Find the entity a reference id points at, if the table holds one.
    pub fn lookup(&self, id: u64) -> (r: Option<&ResolvedEntity>)
        ensures
            match r {
                Some(e) => resolved_lookup(self.entries@, id) == Some(*e),
                None => resolved_lookup(self.entries@, id) is None,
            },
    {
        let n: usize = self.entries.len();
        for i in 0..n
            invariant
                n == self.entries.len(),
                resolved_lookup(self.entries@, id) == lookup_from(self.entries@, id, i as int),
        {
            if self.entries[i].id == id {
                return Some(&self.entries[i]);
            }
        }
        None
    }
}

} // verus!
