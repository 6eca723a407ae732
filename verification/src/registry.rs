//! The component registry: maps a registered schema to its type
//! identifier.
//!
//! A type identifier is the FNV-1a hash of the component's name, so the
//! registry hands out the same identifier for the same name in every
//! process — the property that lets independently compiled modules agree.
//! Registration appends unconditionally: this layer makes no idempotency
//! promise, and re-registering a name is the registry's caller's concern.
//! Lookup by name answers from the earliest matching registration.

use vstd::prelude::*;

use crate::errors::RuntimeError;
use crate::schema::RecordSchema;
use crate::utils::{fnv1a_hash, fnv1a_spec};

verus! {

/// The identifier assigned to a component name: the FNV-1a hash of the
/// name's UTF-8 bytes.
pub open spec fn spec_type_id(name: Seq<char>) -> u64 {
    fnv1a_spec(vstd::utf8::encode_utf8(name))
}

/// One registration: the schema metadata sent to the registry, and the
/// identifier handed back.
pub struct RegistryEntry {
    /// The registered component name.
    pub name: String,
    /// The declared field names, in declaration order.
    pub field_names: Vec<String>,
    /// The one-byte type tag codes, in declaration order.
    pub type_tags: Vec<u8>,
    /// The identifier assigned at registration.
    pub type_id: u64,
}

/// The mathematical content of one registration.
#[verifier::ext_equal]
pub struct RegistryEntryView {
    /// The registered component name.
    pub name: Seq<char>,
    /// The declared field names, in declaration order.
    pub field_names: Seq<Seq<char>>,
    /// The one-byte type tag codes, in declaration order.
    pub type_tags: Seq<u8>,
    /// The identifier assigned at registration.
    pub type_id: u64,
}

impl View for RegistryEntry {
    type V = RegistryEntryView;

    open spec fn view(&self) -> RegistryEntryView {
        RegistryEntryView {
            name: self.name@,
            field_names: Seq::new(self.field_names@.len(), |i: int| self.field_names@[i]@),
            type_tags: self.type_tags@,
            type_id: self.type_id,
        }
    }
}

/// The component registry: registrations in arrival order.
pub struct ComponentRegistry {
    entries: Vec<RegistryEntry>,
}

impl View for ComponentRegistry {
    type V = Seq<RegistryEntryView>;

    closed spec fn view(&self) -> Seq<RegistryEntryView> {
        Seq::new(self.entries@.len(), |i: int| self.entries@[i]@)
    }
}

/// Every registration carries the identifier its name hashes to.
pub open spec fn spec_registry_wf(entries: Seq<RegistryEntryView>) -> bool {
    forall|i: int|
        0 <= i < entries.len() ==> (#[trigger] entries[i]).type_id == spec_type_id(entries[i].name)
}

/// The identifier the registry answers for a name: that of the earliest
/// registration under the name, if any.
pub open spec fn spec_lookup(entries: Seq<RegistryEntryView>, name: Seq<char>) -> Option<u64>
    decreases entries.len(),
{
    if entries.len() == 0 {
        None
    } else if entries.first().name == name {
        Some(entries.first().type_id)
    } else {
        spec_lookup(entries.drop_first(), name)
    }
}

/// A name under which nothing was registered is not found.
pub proof fn lemma_lookup_absent(entries: Seq<RegistryEntryView>, name: Seq<char>)
    requires
        forall|i: int| 0 <= i < entries.len() ==> (#[trigger] entries[i]).name != name,
    ensures
        spec_lookup(entries, name) is None,
    decreases entries.len(),
{
    if entries.len() > 0 {
        lemma_lookup_absent(entries.drop_first(), name);
    }
}

/// The earliest registration under a name is the one the registry
/// answers with.
pub proof fn lemma_lookup_present(entries: Seq<RegistryEntryView>, name: Seq<char>, i: int)
    requires
        0 <= i < entries.len(),
        entries[i].name == name,
        forall|j: int| 0 <= j < i ==> (#[trigger] entries[j]).name != name,
    ensures
        spec_lookup(entries, name) == Some(entries[i].type_id),
    decreases entries.len(),
{
    if i > 0 {
        lemma_lookup_present(entries.drop_first(), name, i - 1);
    }
}

/// A found identifier belongs to some registration under the name.
pub proof fn lemma_lookup_is_registered(entries: Seq<RegistryEntryView>, name: Seq<char>)
    requires
        spec_lookup(entries, name) is Some,
    ensures
        exists|i: int|
            0 <= i < entries.len() && (#[trigger] entries[i]).name == name && entries[i].type_id
                == spec_lookup(entries, name)->Some_0,
    decreases entries.len(),
{
    if entries.len() > 0 {
        if entries.first().name == name {
            assert(entries[0].name == name);
        } else {
            lemma_lookup_is_registered(entries.drop_first(), name);
            let i = choose|i: int|
                0 <= i < entries.drop_first().len() && (#[trigger] entries.drop_first()[i]).name
                    == name && entries.drop_first()[i].type_id == spec_lookup(
                    entries.drop_first(),
                    name,
                )->Some_0;
            assert(entries[i + 1].name == name && entries[i + 1].type_id == spec_lookup(
                entries,
                name,
            )->Some_0);
        }
    }
}

/// In a well-formed registry, looking a registered name up answers the
/// name's hash — the same identifier `register_component` returned for
/// it.
pub proof fn lemma_register_then_lookup(entries: Seq<RegistryEntryView>, name: Seq<char>, i: int)
    requires
        spec_registry_wf(entries),
        0 <= i < entries.len(),
        entries[i].name == name,
    ensures
        spec_lookup(entries, name) == Some(spec_type_id(name)),
{
    lemma_lookup_some_when_present(entries, name, i);
    lemma_lookup_is_registered(entries, name);
}

/// A registered name is always answered with something.
proof fn lemma_lookup_some_when_present(entries: Seq<RegistryEntryView>, name: Seq<char>, i: int)
    requires
        0 <= i < entries.len(),
        entries[i].name == name,
    ensures
        spec_lookup(entries, name) is Some,
    decreases entries.len(),
{
    if entries.first().name != name {
        lemma_lookup_some_when_present(entries.drop_first(), name, i - 1);
    }
}

impl ComponentRegistry {
    /// An empty registry.
    pub fn new() -> (r: ComponentRegistry)
        ensures
            r@ =~= Seq::<RegistryEntryView>::empty(),
            spec_registry_wf(r@),
    {
        ComponentRegistry { entries: Vec::new() }
    }

    /// How many registrations the registry holds.
    pub fn len(&self) -> (n: usize)
        ensures
            n == self@.len(),
    {
        self.entries.len()
    }

    /// Register a component kind: append (name, ordered field names,
    /// ordered type tags) and hand back the identifier the name hashes
    /// to. No idempotency guard: a repeated name is appended again, with
    /// the same identifier.
    pub fn register_component(
        &mut self,
        name: String,
        field_names: Vec<String>,
        type_tags: Vec<u8>,
    ) -> (type_id: u64)
        requires
            spec_registry_wf(old(self)@),
        ensures
            spec_registry_wf(final(self)@),
            type_id == spec_type_id(name@),
            final(self)@ =~= old(self)@.push(
                RegistryEntryView {
                    name: name@,
                    field_names: Seq::new(field_names@.len(), |i: int| field_names@[i]@),
                    type_tags: type_tags@,
                    type_id: spec_type_id(name@),
                },
            ),
            spec_lookup(final(self)@, name@) == Some(type_id),
    {
        let ghost namev = name@;
        let ghost fnamesv = Seq::new(field_names@.len(), |i: int| field_names@[i]@);
        let ghost tagsv = type_tags@;
        let type_id = fnv1a_hash(name.as_str().as_bytes());
        let entry = RegistryEntry { name, field_names, type_tags, type_id };
        proof {
            assert(entry@ == (RegistryEntryView {
                name: namev,
                field_names: fnamesv,
                type_tags: tagsv,
                type_id,
            }));
        }
        self.entries.push(entry);
        proof {
            assert(self@ =~= old(self)@.push(entry@));
            lemma_register_then_lookup(self@, namev, self@.len() - 1);
        }
        type_id
    }

    /// Look a component name up: the identifier of its earliest
    /// registration, or `NotFound` if the name was never registered.
    pub fn get_component_id(&self, name: &str) -> (r: Result<u64, RuntimeError>)
        ensures
            match r {
                Ok(id) => spec_lookup(self@, name@) == Some(id),
                Err(e) => spec_lookup(self@, name@) is None && e == RuntimeError::NotFound,
            },
    {
        let mut i: usize = 0;
        while i < self.entries.len()
            invariant
                i <= self@.len(),
                self@.len() == self.entries@.len(),
                forall|j: int| 0 <= j < i ==> (#[trigger] self@[j]).name != name@,
            decreases self@.len() - i,
        {
            if crate::field_type::str_eq(self.entries[i].name.as_str(), name) {
                proof {
                    lemma_lookup_present(self@, name@, i as int);
                }
                return Ok(self.entries[i].type_id);
            }
            i = i + 1;
        }
        proof {
            lemma_lookup_absent(self@, name@);
        }
        Err(RuntimeError::NotFound)
    }
}

impl RecordSchema {
    /// Register this schema: send its name, ordered field names and
    /// ordered type tag codes to the registry and obtain the kind's
    /// identifier.
    pub fn register(&self, registry: &mut ComponentRegistry) -> (type_id: u64)
        requires
            spec_registry_wf(old(registry)@),
        ensures
            spec_registry_wf(final(registry)@),
            type_id == spec_type_id(self.name@),
            final(registry)@ =~= old(registry)@.push(
                RegistryEntryView {
                    name: self.name@,
                    field_names: Seq::new(self.fields@.len(), |i: int| self.fields@[i].name@),
                    type_tags: Seq::new(
                        self.fields@.len(),
                        |i: int|
                            crate::field_type::spec_tag_code(
                                crate::field_type::spec_type_tag(self.fields@[i].declared_type),
                            ),
                    ),
                    type_id: spec_type_id(self.name@),
                },
            ),
            spec_lookup(final(registry)@, self.name@) == Some(type_id),
    {
        let names = self.field_names();
        let codes = self.type_tag_codes();
        proof {
            assert(Seq::new(names@.len(), |i: int| names@[i]@) =~= Seq::new(
                self.fields@.len(),
                |i: int| self.fields@[i].name@,
            ));
            assert(codes@ =~= Seq::new(
                self.fields@.len(),
                |i: int|
                    crate::field_type::spec_tag_code(
                        crate::field_type::spec_type_tag(self.fields@[i].declared_type),
                    ),
            ));
        }
        registry.register_component(self.name.clone(), names, codes)
    }

    /// The identifier the registry answers for this schema's name.
    pub fn get_id(&self, registry: &ComponentRegistry) -> (r: Result<u64, RuntimeError>)
        ensures
            match r {
                Ok(id) => spec_lookup(registry@, self.name@) == Some(id),
                Err(e) => spec_lookup(registry@, self.name@) is None && e
                    == RuntimeError::NotFound,
            },
    {
        registry.get_component_id(self.name.as_str())
    }
}

} // verus!
