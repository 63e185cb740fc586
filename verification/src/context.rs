//! The configuration the rules consult: the active connector's capability
//! set, the enabled preview features, and the names already registered in
//! each namespace scope. All three are immutable for the duration of a
//! validation pass.

use vstd::prelude::*;

verus! {

/// A named boolean capability of the active connector.
#[derive(Clone, Copy, PartialEq, Eq, Structural, Debug)]
pub enum ConnectorCapability {
    IndexColumnLengthPrefixing,
    UsingHashIndex,
    FullTextIndex,
    SortOrderInFullTextIndex,
}

/// An opt-in preview feature flag.
#[derive(Clone, Copy, PartialEq, Eq, Structural, Debug)]
pub enum PreviewFeature {
    ExtendedIndexes,
    FullTextIndex,
}

/// The capability profile of the active connector, queried as an opaque set.
pub struct ConnectorCapabilities {
    pub capabilities: Vec<ConnectorCapability>,
}

impl ConnectorCapabilities {
    pub open spec fn spec_has_capability(self, capability: ConnectorCapability) -> bool {
        self.capabilities@.contains(capability)
    }

    pub fn has_capability(&self, capability: ConnectorCapability) -> (r: bool)
        ensures
            r == self.spec_has_capability(capability),
    {
        let mut i: usize = 0;
        while i < self.capabilities.len()
            invariant
                i <= self.capabilities.len(),
                forall|k: int| 0 <= k < i ==> #[trigger] self.capabilities@[k] != capability,
            decreases self.capabilities.len() - i,
        {
            if self.capabilities[i] == capability {
                return true;
            }
            i += 1;
        }
        false
    }
}

/// The set of preview features the schema has opted into.
pub struct PreviewFeatures {
    pub features: Vec<PreviewFeature>,
}

impl PreviewFeatures {
    pub open spec fn spec_contains(self, feature: PreviewFeature) -> bool {
        self.features@.contains(feature)
    }

    pub fn contains(&self, feature: PreviewFeature) -> (r: bool)
        ensures
            r == self.spec_contains(feature),
    {
        let mut i: usize = 0;
        while i < self.features.len()
            invariant
                i <= self.features.len(),
                forall|k: int| 0 <= k < i ==> #[trigger] self.features@[k] != feature,
            decreases self.features.len() - i,
        {
            if self.features[i] == feature {
                return true;
            }
            i += 1;
        }
        false
    }
}

/// One constraint name already registered somewhere in the schema: the scope
/// it lives in, its final name, and a rendered description of the entity that
/// owns it, used verbatim in the collision message.
pub struct ScopeEntry {
    pub scope_id: u32,
    pub name: String,
    pub description: String,
}

impl Clone for ScopeEntry {
    fn clone(&self) -> (r: Self)
        ensures
            r == *self,
    {
        ScopeEntry {
            scope_id: self.scope_id,
            name: self.name.clone(),
            description: self.description.clone(),
        }
    }
}

/// Does `entry` collide with a declaration named `name` in scope `scope_id`?
pub open spec fn collides(entry: ScopeEntry, scope_id: u32, name: Seq<char>) -> bool {
    entry.scope_id == scope_id && entry.name@ == name
}

/// The entries of `entries` that collide with `name` in `scope_id`, in order.
pub open spec fn collisions_of(entries: Seq<ScopeEntry>, scope_id: u32, name: Seq<char>) -> Seq<
    ScopeEntry,
>
    decreases entries.len(),
{
    if entries.len() == 0 {
        Seq::empty()
    } else {
        collisions_of(entries.drop_last(), scope_id, name) + (if collides(
            entries.last(),
            scope_id,
            name,
        ) {
            seq![entries.last()]
        } else {
            Seq::empty()
        })
    }
}

/// The namespace resolver: all constraint names the rest of the schema has
/// already claimed, each in its scope.
pub struct NamespaceScopes {
    pub entries: Vec<ScopeEntry>,
}

impl NamespaceScopes {
    pub open spec fn spec_violations(self, scope_id: u32, name: Seq<char>) -> Seq<ScopeEntry> {
        collisions_of(self.entries@, scope_id, name)
    }

    /// Every registered entry that claims `name` inside scope `scope_id`, in
    /// registration order.
    pub fn scope_violations(&self, scope_id: u32, name: &String) -> (r: Vec<ScopeEntry>)
        ensures
            r@ == self.spec_violations(scope_id, name@),
    {
        let mut r: Vec<ScopeEntry> = Vec::new();
        let mut i: usize = 0;
        proof {
            assert(r@ =~= collisions_of(self.entries@.take(0), scope_id, name@));
        }
        while i < self.entries.len()
            invariant
                i <= self.entries.len(),
                r@ == collisions_of(self.entries@.take(i as int), scope_id, name@),
            decreases self.entries.len() - i,
        {
            let ghost prefix = self.entries@.take(i as int);
            let ghost extended = self.entries@.take(i + 1);
            proof {
                assert(extended.drop_last() =~= prefix);
                assert(extended.last() == self.entries@[i as int]);
            }
            let entry = &self.entries[i];
            if entry.scope_id == scope_id && entry.name == *name {
                r.push(entry.clone());
                proof {
                    assert(r@ =~= collisions_of(prefix, scope_id, name@) + seq![
                        self.entries@[i as int],
                    ]);
                }
            } else {
                proof {
                    assert(collisions_of(extended, scope_id, name@) =~= collisions_of(
                        prefix,
                        scope_id,
                        name@,
                    ));
                }
            }
            i += 1;
        }
        proof {
            assert(self.entries@.take(self.entries@.len() as int) =~= self.entries@);
        }
        r
    }
}

/// The collision list is non-empty exactly when some entry collides.
pub proof fn lemma_collisions_nonempty(entries: Seq<ScopeEntry>, scope_id: u32, name: Seq<char>)
    ensures
        collisions_of(entries, scope_id, name).len() > 0 <==> exists|i: int|
            0 <= i < entries.len() && collides(#[trigger] entries[i], scope_id, name),
    decreases entries.len(),
{
    if entries.len() > 0 {
        lemma_collisions_nonempty(entries.drop_last(), scope_id, name);
        if collides(entries.last(), scope_id, name) {
            assert(collides(entries[entries.len() - 1], scope_id, name));
        } else {
            if exists|i: int|
                0 <= i < entries.len() && collides(#[trigger] entries[i], scope_id, name) {
                let i = choose|i: int|
                    0 <= i < entries.len() && collides(#[trigger] entries[i], scope_id, name);
                assert(collides(entries.drop_last()[i], scope_id, name));
            }
        }
    }
}

} // verus!
