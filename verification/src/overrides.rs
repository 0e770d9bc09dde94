//! The two override tables: ordered associative collections with unique keys,
//! kept as entry vectors in strictly ascending key order. Insertion replaces
//! any entry already at the key, and translation walks the entries in order,
//! so iteration is deterministic and reproducible for the same contents.

use vstd::prelude::*;

use crate::msl::RawResourceBinding;
use crate::msl::RawVertexAttribute;
use crate::msl::ResourceBinding;
use crate::msl::ResourceBindingLocation;
use crate::msl::VertexAttribute;
use crate::msl::VertexAttributeLocation;
use crate::msl::spec_resource_binding_raw;
use crate::msl::spec_vertex_attribute_raw;
use crate::spirv::VertexAttributeStep;
use crate::spirv::built_in_as_raw;
use crate::spirv::execution_model_raw;
use crate::spirv::lemma_execution_model_raw_injective;

verus! {

/// Lexicographic order of binding locations: stage first, then descriptor
/// set, then binding.
pub open spec fn spec_location_lt(a: ResourceBindingLocation, b: ResourceBindingLocation) -> bool {
    execution_model_raw(a.stage) < execution_model_raw(b.stage) || (execution_model_raw(a.stage)
        == execution_model_raw(b.stage) && (a.desc_set < b.desc_set || (a.desc_set == b.desc_set
        && a.binding < b.binding)))
}

/// Lexicographic order of two flat resource-binding records by their inlined
/// key fields: stage first, then descriptor set, then binding.
pub open spec fn spec_raw_binding_lt(a: RawResourceBinding, b: RawResourceBinding) -> bool {
    a.stage < b.stage || (a.stage == b.stage && (a.desc_set < b.desc_set || (a.desc_set
        == b.desc_set && a.binding < b.binding)))
}

/// The lexicographic order is total: two locations that neither precedes the
/// other are the same location.
pub proof fn lemma_location_lt_total(a: ResourceBindingLocation, b: ResourceBindingLocation)
    ensures
        spec_location_lt(a, b) || spec_location_lt(b, a) || a == b,
{
    if !spec_location_lt(a, b) && !spec_location_lt(b, a) {
        lemma_execution_model_raw_injective(a.stage, b.stage);
    }
}

/// Decide the lexicographic order of two binding locations.
fn location_lt(a: &ResourceBindingLocation, b: &ResourceBindingLocation) -> (r: bool)
    ensures
        r == spec_location_lt(*a, *b),
{
    let a_stage = a.stage.as_raw();
    let b_stage = b.stage.as_raw();
    if a_stage < b_stage {
        true
    } else if a_stage == b_stage {
        if a.desc_set < b.desc_set {
            true
        } else if a.desc_set == b.desc_set {
            a.binding < b.binding
        } else {
            false
        }
    } else {
        false
    }
}

/// Vertex-attribute overrides, keyed by attribute location.
#[derive(Debug, Clone, Hash, Eq, PartialEq)]
pub struct VertexAttributeOverrides {
    entries: Vec<(VertexAttributeLocation, VertexAttribute)>,
}

impl VertexAttributeOverrides {
    /// The entries of the table, in ascending key order.
    pub closed spec fn entries(self) -> Seq<(VertexAttributeLocation, VertexAttribute)> {
        self.entries@
    }

    /// Keys strictly ascending: no duplicates, deterministic iteration order.
    pub open spec fn wf(self) -> bool {
        forall|i: int, j: int|
            #![trigger self.entries()[i], self.entries()[j]]
            0 <= i < j < self.entries().len() ==> self.entries()[i].0.0 < self.entries()[j].0.0
    }

    /// Number of entries.
    pub open spec fn spec_len(self) -> nat {
        self.entries().len()
    }

    /// Whether some entry is keyed by `loc`.
    pub open spec fn contains_loc(self, loc: u32) -> bool {
        exists|i: int|
            0 <= i < self.entries().len() && (#[trigger] self.entries()[i]).0.0 == loc
    }

    /// The position of the entry keyed by `loc`; meaningful only when
    /// `contains_loc(loc)` holds.
    pub open spec fn index_of_loc(self, loc: u32) -> int {
        choose|i: int|
            0 <= i < self.entries().len() && (#[trigger] self.entries()[i]).0.0 == loc
    }

    /// The attribute stored at `loc`; meaningful only when `contains_loc(loc)`
    /// holds.
    pub open spec fn at_loc(self, loc: u32) -> VertexAttribute {
        self.entries()[self.index_of_loc(loc)].1
    }

    /// `index_of_loc` indeed points at an entry keyed by `loc`.
    pub proof fn lemma_index_of(self, loc: u32)
        requires
            self.contains_loc(loc),
        ensures
            0 <= self.index_of_loc(loc) < self.entries().len(),
            self.entries()[self.index_of_loc(loc)].0.0 == loc,
    {
    }

    /// In a well-formed table, the entry at any position is the one its key
    /// looks up: keys are unique.
    pub proof fn lemma_at_index(self, x: int)
        requires
            self.wf(),
            0 <= x < self.entries().len(),
        ensures
            self.contains_loc(self.entries()[x].0.0),
            self.index_of_loc(self.entries()[x].0.0) == x,
            self.at_loc(self.entries()[x].0.0) == self.entries()[x].1,
    {
        let loc = self.entries()[x].0.0;
        assert(self.contains_loc(loc));
        self.lemma_index_of(loc);
        let w = self.index_of_loc(loc);
        if w < x {
            assert(self.entries()[w].0.0 < self.entries()[x].0.0);
            assert(false);
        } else if x < w {
            assert(self.entries()[x].0.0 < self.entries()[w].0.0);
            assert(false);
        }
    }

    /// An empty table.
    pub fn new() -> (r: Self)
        ensures
            r.wf(),
            r.spec_len() == 0,
    {
        VertexAttributeOverrides { entries: Vec::new() }
    }

    /// Number of entries.
    pub fn len(&self) -> (r: usize)
        ensures
            r == self.spec_len(),
    {
        self.entries.len()
    }

    /// Insert an override at `location`, replacing any entry already there.
    /// Every other entry is untouched, and the table stays in ascending key
    /// order; the size grows only when the key was absent.
    pub fn insert(&mut self, location: VertexAttributeLocation, attribute: VertexAttribute)
        requires
            old(self).wf(),
        ensures
            final(self).wf(),
            final(self).contains_loc(location.0),
            final(self).at_loc(location.0) == attribute,
            forall|k: u32|
                k != location.0 ==> (#[trigger] final(self).contains_loc(k) <==> old(
                    self,
                ).contains_loc(k)),
            forall|k: u32|
                k != location.0 && old(self).contains_loc(k) ==> #[trigger] final(self).at_loc(k)
                    == old(self).at_loc(k),
            final(self).spec_len() == old(self).spec_len() + (if old(self).contains_loc(
                location.0,
            ) {
                0int
            } else {
                1int
            }),
    {
        let ghost prev = *self;
        let mut i: usize = 0;
        while i < self.entries.len() && self.entries[i].0.0 < location.0
            invariant
                *self == prev,
                i <= self.entries@.len(),
                forall|j: int| 0 <= j < i ==> (#[trigger] self.entries()[j]).0.0 < location.0,
            decreases self.entries@.len() - i,
        {
            i += 1;
        }
        let ghost ip = i as int;
        if i < self.entries.len() && self.entries[i].0.0 == location.0 {
            self.entries[i] = (location, attribute);
            proof {
                assert(self.entries() == prev.entries().update(ip, (location, attribute)));
                assert forall|a: int, b: int|
                    0 <= a < b < self.entries().len() implies (#[trigger] self.entries()[a]).0.0
                    < (#[trigger] self.entries()[b]).0.0 by {
                    assert(prev.entries()[a].0.0 < prev.entries()[b].0.0);
                    assert(self.entries()[a].0.0 == prev.entries()[a].0.0);
                    assert(self.entries()[b].0.0 == prev.entries()[b].0.0);
                }
                assert(self.wf());
                assert(self.entries()[ip].0.0 == location.0);
                self.lemma_at_index(ip);
                prev.lemma_at_index(ip);
                assert forall|k: u32|
                    k != location.0 && prev.contains_loc(k) implies #[trigger] self.contains_loc(k)
                    && self.at_loc(k) == prev.at_loc(k) by {
                    prev.lemma_index_of(k);
                    let x = prev.index_of_loc(k);
                    assert(self.entries()[x] == prev.entries()[x]);
                    self.lemma_at_index(x);
                    prev.lemma_at_index(x);
                }
                assert forall|k: u32|
                    k != location.0 && prev.contains_loc(k) implies #[trigger] self.at_loc(k)
                    == prev.at_loc(k) by {
                    prev.lemma_index_of(k);
                    let x = prev.index_of_loc(k);
                    assert(self.entries()[x] == prev.entries()[x]);
                    self.lemma_at_index(x);
                    prev.lemma_at_index(x);
                }
                assert forall|k: u32|
                    k != location.0 && self.contains_loc(k) implies prev.contains_loc(k) by {
                    self.lemma_index_of(k);
                    let x = self.index_of_loc(k);
                    assert(prev.entries()[x] == self.entries()[x]);
                }
            }
        } else {
            self.entries.insert(i, (location, attribute));
            proof {
                prev.entries().insert_ensures(ip, (location, attribute));
                assert(self.entries() == prev.entries().insert(ip, (location, attribute)));
                // every key of the old table differs from the new one
                assert forall|x: int|
                    0 <= x < prev.entries().len() implies (#[trigger] prev.entries()[x]).0.0
                    != location.0 by {
                    if x >= ip {
                        if ip < x {
                            assert(prev.entries()[ip].0.0 < prev.entries()[x].0.0);
                        }
                    }
                }
                assert(!prev.contains_loc(location.0));
                assert(self.entries()[ip] == (location, attribute));
                // strict order is preserved around the insertion point
                assert forall|a: int, b: int|
                    0 <= a < b < self.entries().len() implies (#[trigger] self.entries()[a]).0.0
                    < (#[trigger] self.entries()[b]).0.0 by {
                    if a < ip {
                        assert(self.entries()[a] == prev.entries()[a]);
                    } else if a > ip {
                        assert(self.entries()[a] == prev.entries()[a - 1]);
                    }
                    if b < ip {
                        assert(self.entries()[b] == prev.entries()[b]);
                    } else if b > ip {
                        assert(self.entries()[b] == prev.entries()[b - 1]);
                    }
                    if a < ip && b < ip {
                        assert(prev.entries()[a].0.0 < prev.entries()[b].0.0);
                    } else if a < ip && b == ip {
                        // loop bound: keys before the insertion point are below the new key
                    } else if a == ip && b > ip {
                        if b - 1 > ip {
                            assert(prev.entries()[ip].0.0 < prev.entries()[b - 1].0.0);
                        }
                    } else if a < ip && b > ip {
                        if b - 1 > ip {
                            assert(prev.entries()[ip].0.0 < prev.entries()[b - 1].0.0);
                        }
                    } else if a > ip && b > ip {
                        assert(prev.entries()[a - 1].0.0 < prev.entries()[b - 1].0.0);
                    }
                }
                assert(self.wf());
                self.lemma_at_index(ip);
                assert forall|k: u32|
                    k != location.0 && prev.contains_loc(k) implies #[trigger] self.contains_loc(k)
                    && self.at_loc(k) == prev.at_loc(k) by {
                    prev.lemma_index_of(k);
                    let x = prev.index_of_loc(k);
                    let y: int = if x < ip {
                        x
                    } else {
                        x + 1
                    };
                    assert(self.entries()[y] == prev.entries()[x]);
                    self.lemma_at_index(y);
                    prev.lemma_at_index(x);
                }
                assert forall|k: u32|
                    k != location.0 && prev.contains_loc(k) implies #[trigger] self.at_loc(k)
                    == prev.at_loc(k) by {
                    prev.lemma_index_of(k);
                    let x = prev.index_of_loc(k);
                    let y: int = if x < ip {
                        x
                    } else {
                        x + 1
                    };
                    assert(self.entries()[y] == prev.entries()[x]);
                    self.lemma_at_index(y);
                    prev.lemma_at_index(x);
                }
                assert forall|k: u32|
                    k != location.0 && self.contains_loc(k) implies prev.contains_loc(k) by {
                    self.lemma_index_of(k);
                    let y = self.index_of_loc(k);
                    if y < ip {
                        assert(prev.entries()[y] == self.entries()[y]);
                    } else {
                        assert(y != ip);
                        assert(prev.entries()[y - 1] == self.entries()[y]);
                    }
                }
            }
        }
    }

    /// The flat records the table translates to, one per entry, in entry
    /// order.
    pub open spec fn records(self) -> Seq<RawVertexAttribute> {
        Seq::new(
            self.spec_len(),
            |i: int| spec_vertex_attribute_raw(self.entries()[i].0, self.entries()[i].1),
        )
    }

    /// Translate the table into its contiguous array of flat records: one per
    /// entry, in ascending key order, each a one-to-one projection of the
    /// entry's fields.
    pub fn translate(&self) -> (r: Vec<RawVertexAttribute>)
        requires
            self.wf(),
        ensures
            r@ == self.records(),
            r@.len() == self.spec_len(),
            forall|i: int, j: int|
                #![trigger r@[i], r@[j]]
                0 <= i < j < r@.len() ==> r@[i].location < r@[j].location,
            forall|i: int|
                0 <= i < r@.len() ==> self.contains_loc((#[trigger] r@[i]).location) && r@[i]
                    == spec_vertex_attribute_raw(
                    VertexAttributeLocation(r@[i].location),
                    self.at_loc(r@[i].location),
                ),
            forall|k: u32|
                #[trigger] self.contains_loc(k) ==> exists|i: int|
                    0 <= i < r@.len() && (#[trigger] r@[i]).location == k,
    {
        let mut r: Vec<RawVertexAttribute> = Vec::new();
        let mut i: usize = 0;
        while i < self.entries.len()
            invariant
                self.wf(),
                i <= self.entries().len(),
                r@.len() == i,
                forall|j: int|
                    0 <= j < i ==> #[trigger] r@[j] == spec_vertex_attribute_raw(
                        self.entries()[j].0,
                        self.entries()[j].1,
                    ),
            decreases self.entries@.len() - i,
        {
            let e = self.entries[i];
            let per_instance = match e.1.step {
                VertexAttributeStep::Vertex => false,
                VertexAttributeStep::Instance => true,
            };
            r.push(
                RawVertexAttribute {
                    location: e.0.0,
                    msl_buffer: e.1.buffer_id,
                    msl_offset: e.1.offset,
                    msl_stride: e.1.stride,
                    per_instance,
                    format: e.1.format.as_raw(),
                    builtin: built_in_as_raw(e.1.built_in),
                },
            );
            i += 1;
        }
        proof {
            assert(r@ =~= self.records());
            assert forall|a: int, b: int|
                #![trigger r@[a], r@[b]]
                0 <= a < b < r@.len() implies r@[a].location < r@[b].location by {
                assert(self.entries()[a].0.0 < self.entries()[b].0.0);
            }
            assert forall|a: int|
                0 <= a < r@.len() implies self.contains_loc((#[trigger] r@[a]).location) && r@[a]
                == spec_vertex_attribute_raw(
                VertexAttributeLocation(r@[a].location),
                self.at_loc(r@[a].location),
            ) by {
                self.lemma_at_index(a);
                assert(self.entries()[a].0 == VertexAttributeLocation(r@[a].location));
            }
            assert forall|k: u32| self.contains_loc(k) implies exists|i: int|
                0 <= i < r@.len() && (#[trigger] r@[i]).location == k by {
                self.lemma_index_of(k);
                let x = self.index_of_loc(k);
                assert(r@[x].location == k);
            }
        }
        r
    }
}

/// Resource-binding overrides, keyed by (stage, descriptor set, binding).
#[derive(Debug, Clone, Hash, Eq, PartialEq)]
pub struct ResourceBindingOverrides {
    entries: Vec<(ResourceBindingLocation, ResourceBinding)>,
}

impl ResourceBindingOverrides {
    /// The entries of the table, in ascending key order.
    pub closed spec fn entries(self) -> Seq<(ResourceBindingLocation, ResourceBinding)> {
        self.entries@
    }

    /// Keys strictly ascending: no duplicates, deterministic iteration order.
    pub open spec fn wf(self) -> bool {
        forall|i: int, j: int|
            #![trigger self.entries()[i], self.entries()[j]]
            0 <= i < j < self.entries().len() ==> spec_location_lt(
                self.entries()[i].0,
                self.entries()[j].0,
            )
    }

    /// Number of entries.
    pub open spec fn spec_len(self) -> nat {
        self.entries().len()
    }

    /// Whether some entry is keyed by `loc`.
    pub open spec fn contains_loc(self, loc: ResourceBindingLocation) -> bool {
        exists|i: int| 0 <= i < self.entries().len() && (#[trigger] self.entries()[i]).0 == loc
    }

    /// The position of the entry keyed by `loc`; meaningful only when
    /// `contains_loc(loc)` holds.
    pub open spec fn index_of_loc(self, loc: ResourceBindingLocation) -> int {
        choose|i: int| 0 <= i < self.entries().len() && (#[trigger] self.entries()[i]).0 == loc
    }

    /// The binding stored at `loc`; meaningful only when `contains_loc(loc)`
    /// holds.
    pub open spec fn at_loc(self, loc: ResourceBindingLocation) -> ResourceBinding {
        self.entries()[self.index_of_loc(loc)].1
    }

    /// `index_of_loc` indeed points at an entry keyed by `loc`.
    pub proof fn lemma_index_of(self, loc: ResourceBindingLocation)
        requires
            self.contains_loc(loc),
        ensures
            0 <= self.index_of_loc(loc) < self.entries().len(),
            self.entries()[self.index_of_loc(loc)].0 == loc,
    {
    }

    /// In a well-formed table, the entry at any position is the one its key
    /// looks up: keys are unique.
    pub proof fn lemma_at_index(self, x: int)
        requires
            self.wf(),
            0 <= x < self.entries().len(),
        ensures
            self.contains_loc(self.entries()[x].0),
            self.index_of_loc(self.entries()[x].0) == x,
            self.at_loc(self.entries()[x].0) == self.entries()[x].1,
    {
        let loc = self.entries()[x].0;
        assert(self.contains_loc(loc));
        self.lemma_index_of(loc);
        let w = self.index_of_loc(loc);
        if w < x {
            assert(spec_location_lt(self.entries()[w].0, self.entries()[x].0));
        } else if x < w {
            assert(spec_location_lt(self.entries()[x].0, self.entries()[w].0));
        }
    }

    /// An empty table.
    pub fn new() -> (r: Self)
        ensures
            r.wf(),
            r.spec_len() == 0,
    {
        ResourceBindingOverrides { entries: Vec::new() }
    }

    /// Number of entries.
    pub fn len(&self) -> (r: usize)
        ensures
            r == self.spec_len(),
    {
        self.entries.len()
    }

    /// Insert an override at `location`, replacing any entry already there.
    /// Every other entry is untouched, and the table stays in ascending key
    /// order; the size grows only when the key was absent.
    pub fn insert(&mut self, location: ResourceBindingLocation, binding: ResourceBinding)
        requires
            old(self).wf(),
        ensures
            final(self).wf(),
            final(self).contains_loc(location),
            final(self).at_loc(location) == binding,
            forall|k: ResourceBindingLocation|
                k != location ==> (#[trigger] final(self).contains_loc(k) <==> old(
                    self,
                ).contains_loc(k)),
            forall|k: ResourceBindingLocation|
                k != location && old(self).contains_loc(k) ==> #[trigger] final(self).at_loc(k)
                    == old(self).at_loc(k),
            final(self).spec_len() == old(self).spec_len() + (if old(self).contains_loc(location) {
                0int
            } else {
                1int
            }),
    {
        let ghost prev = *self;
        let mut i: usize = 0;
        while i < self.entries.len() && location_lt(&self.entries[i].0, &location)
            invariant
                *self == prev,
                i <= self.entries@.len(),
                forall|j: int|
                    0 <= j < i ==> spec_location_lt(
                        (#[trigger] self.entries()[j]).0,
                        location,
                    ),
            decreases self.entries@.len() - i,
        {
            i += 1;
        }
        let ghost ip = i as int;
        if i < self.entries.len() && self.entries[i].0 == location {
            self.entries[i] = (location, binding);
            proof {
                assert(self.entries() == prev.entries().update(ip, (location, binding)));
                assert forall|a: int, b: int|
                    0 <= a < b < self.entries().len() implies spec_location_lt(
                    (#[trigger] self.entries()[a]).0,
                    (#[trigger] self.entries()[b]).0,
                ) by {
                    assert(spec_location_lt(prev.entries()[a].0, prev.entries()[b].0));
                    assert(self.entries()[a].0 == prev.entries()[a].0);
                    assert(self.entries()[b].0 == prev.entries()[b].0);
                }
                assert(self.wf());
                assert(self.entries()[ip].0 == location);
                self.lemma_at_index(ip);
                prev.lemma_at_index(ip);
                assert forall|k: ResourceBindingLocation|
                    k != location && prev.contains_loc(k) implies #[trigger] self.contains_loc(k)
                    && self.at_loc(k) == prev.at_loc(k) by {
                    prev.lemma_index_of(k);
                    let x = prev.index_of_loc(k);
                    assert(self.entries()[x] == prev.entries()[x]);
                    self.lemma_at_index(x);
                    prev.lemma_at_index(x);
                }
                assert forall|k: ResourceBindingLocation|
                    k != location && prev.contains_loc(k) implies #[trigger] self.at_loc(k)
                    == prev.at_loc(k) by {
                    prev.lemma_index_of(k);
                    let x = prev.index_of_loc(k);
                    assert(self.entries()[x] == prev.entries()[x]);
                    self.lemma_at_index(x);
                    prev.lemma_at_index(x);
                }
                assert forall|k: ResourceBindingLocation|
                    k != location && self.contains_loc(k) implies prev.contains_loc(k) by {
                    self.lemma_index_of(k);
                    let x = self.index_of_loc(k);
                    assert(prev.entries()[x] == self.entries()[x]);
                }
            }
        } else {
            self.entries.insert(i, (location, binding));
            proof {
                prev.entries().insert_ensures(ip, (location, binding));
                assert(self.entries() == prev.entries().insert(ip, (location, binding)));
                if ip < prev.entries().len() {
                    lemma_location_lt_total(prev.entries()[ip].0, location);
                    assert(spec_location_lt(location, prev.entries()[ip].0));
                }
                // every key of the old table differs from the new one
                assert forall|x: int|
                    0 <= x < prev.entries().len() implies (#[trigger] prev.entries()[x]).0
                    != location by {
                    if x >= ip {
                        if ip < x {
                            assert(spec_location_lt(prev.entries()[ip].0, prev.entries()[x].0));
                        }
                    }
                }
                assert(!prev.contains_loc(location));
                assert(self.entries()[ip] == (location, binding));
                // strict order is preserved around the insertion point
                assert forall|a: int, b: int|
                    0 <= a < b < self.entries().len() implies spec_location_lt(
                    (#[trigger] self.entries()[a]).0,
                    (#[trigger] self.entries()[b]).0,
                ) by {
                    if a < ip {
                        assert(self.entries()[a] == prev.entries()[a]);
                    } else if a > ip {
                        assert(self.entries()[a] == prev.entries()[a - 1]);
                    }
                    if b < ip {
                        assert(self.entries()[b] == prev.entries()[b]);
                    } else if b > ip {
                        assert(self.entries()[b] == prev.entries()[b - 1]);
                    }
                }
                assert(self.wf());
                self.lemma_at_index(ip);
                assert forall|k: ResourceBindingLocation|
                    k != location && prev.contains_loc(k) implies #[trigger] self.contains_loc(k)
                    && self.at_loc(k) == prev.at_loc(k) by {
                    prev.lemma_index_of(k);
                    let x = prev.index_of_loc(k);
                    let y: int = if x < ip {
                        x
                    } else {
                        x + 1
                    };
                    assert(self.entries()[y] == prev.entries()[x]);
                    self.lemma_at_index(y);
                    prev.lemma_at_index(x);
                }
                assert forall|k: ResourceBindingLocation|
                    k != location && prev.contains_loc(k) implies #[trigger] self.at_loc(k)
                    == prev.at_loc(k) by {
                    prev.lemma_index_of(k);
                    let x = prev.index_of_loc(k);
                    let y: int = if x < ip {
                        x
                    } else {
                        x + 1
                    };
                    assert(self.entries()[y] == prev.entries()[x]);
                    self.lemma_at_index(y);
                    prev.lemma_at_index(x);
                }
                assert forall|k: ResourceBindingLocation|
                    k != location && self.contains_loc(k) implies prev.contains_loc(k) by {
                    self.lemma_index_of(k);
                    let y = self.index_of_loc(k);
                    if y < ip {
                        assert(prev.entries()[y] == self.entries()[y]);
                    } else {
                        assert(y != ip);
                        assert(prev.entries()[y - 1] == self.entries()[y]);
                    }
                }
            }
        }
    }

    /// The flat records the table translates to, one per entry, in entry
    /// order.
    pub open spec fn records(self) -> Seq<RawResourceBinding> {
        Seq::new(
            self.spec_len(),
            |i: int| spec_resource_binding_raw(self.entries()[i].0, self.entries()[i].1),
        )
    }

    /// Translate the table into its contiguous array of flat records: one per
    /// entry, in ascending key order, each a one-to-one projection of the
    /// entry's fields.
    pub fn translate(&self) -> (r: Vec<RawResourceBinding>)
        requires
            self.wf(),
        ensures
            r@ == self.records(),
            r@.len() == self.spec_len(),
            forall|i: int, j: int|
                #![trigger r@[i], r@[j]]
                0 <= i < j < r@.len() ==> spec_raw_binding_lt(r@[i], r@[j]),
            forall|i: int|
                #![trigger r@[i]]
                0 <= i < r@.len() ==> self.contains_loc(self.entries()[i].0) && self.at_loc(
                    self.entries()[i].0,
                ) == self.entries()[i].1 && r@[i] == spec_resource_binding_raw(
                    self.entries()[i].0,
                    self.entries()[i].1,
                ),
            forall|k: ResourceBindingLocation|
                #[trigger] self.contains_loc(k) ==> exists|i: int|
                    0 <= i < r@.len() && (#[trigger] r@[i]) == spec_resource_binding_raw(
                        k,
                        self.at_loc(k),
                    ),
    {
        let mut r: Vec<RawResourceBinding> = Vec::new();
        let mut i: usize = 0;
        while i < self.entries.len()
            invariant
                self.wf(),
                i <= self.entries().len(),
                r@.len() == i,
                forall|j: int|
                    0 <= j < i ==> #[trigger] r@[j] == spec_resource_binding_raw(
                        self.entries()[j].0,
                        self.entries()[j].1,
                    ),
            decreases self.entries@.len() - i,
        {
            let e = self.entries[i];
            r.push(
                RawResourceBinding {
                    stage: e.0.stage.as_raw(),
                    desc_set: e.0.desc_set,
                    binding: e.0.binding,
                    msl_buffer: e.1.buffer_id,
                    msl_texture: e.1.texture_id,
                    msl_sampler: e.1.sampler_id,
                },
            );
            i += 1;
        }
        proof {
            assert(r@ =~= self.records());
            assert forall|a: int, b: int|
                #![trigger r@[a], r@[b]]
                0 <= a < b < r@.len() implies spec_raw_binding_lt(r@[a], r@[b]) by {
                assert(spec_location_lt(self.entries()[a].0, self.entries()[b].0));
                assert(r@[a] == spec_resource_binding_raw(self.entries()[a].0, self.entries()[a].1));
                assert(r@[b] == spec_resource_binding_raw(self.entries()[b].0, self.entries()[b].1));
            }
            assert forall|a: int|
                #![trigger r@[a]]
                0 <= a < r@.len() implies self.contains_loc(self.entries()[a].0) && self.at_loc(
                self.entries()[a].0,
            ) == self.entries()[a].1 && r@[a] == spec_resource_binding_raw(
                self.entries()[a].0,
                self.entries()[a].1,
            ) by {
                self.lemma_at_index(a);
            }
            assert forall|k: ResourceBindingLocation| self.contains_loc(k) implies exists|i: int|
                0 <= i < r@.len() && (#[trigger] r@[i]) == spec_resource_binding_raw(
                    k,
                    self.at_loc(k),
                ) by {
                self.lemma_index_of(k);
                let x = self.index_of_loc(k);
                self.lemma_at_index(x);
                assert(0 <= x < r@.len() && r@[x] == spec_resource_binding_raw(
                    k,
                    self.at_loc(k),
                ));
            }
        }
        r
    }
}

} // verus!
