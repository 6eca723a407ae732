//! The composite record: identity header plus the raw handle that
//! addresses the declared fields' authoritative storage.
//!
//! A record is default-constructed with a null handle and zeroed header;
//! the external store populates the handle exactly once, at attach time.
//! Accessing fields requires a live handle. Releasing nulls the handle, so
//! a second release finds nothing to free: double release is prevented
//! structurally. Per instance the states are linear:
//! default-constructed, handle-attached, accessed, released.

use vstd::prelude::*;

use crate::access::{
    spec_access_bytes, spec_has_accessor, spec_read_field, spec_value_fits, spec_write_field,
    FieldValue,
};
use crate::errors::RuntimeError;
use crate::field_type::DeclaredType;
use crate::member::{ComponentData, DataView};
use crate::schema::RecordSchema;

verus! {

/// The mathematical content of a record: its identity header and the
/// contents of its handle, if one is attached.
#[verifier::ext_equal]
pub struct RecordView {
    /// Identifier of the entity the component was added to.
    pub entity_added: u64,
    /// The registry identifier of the record's kind.
    pub component_type: u64,
    /// The backing descriptor, while attached.
    pub handle: Option<DataView>,
    /// Whether the record is a singleton of its kind.
    pub singleton: bool,
    /// The instance identifier.
    pub id: u64,
}

/// One live component record: identity header and owning raw handle.
pub struct RecordInstance {
    entity_added: u64,
    component_type: u64,
    handle: Option<ComponentData>,
    singleton: bool,
    id: u64,
}

impl View for RecordInstance {
    type V = RecordView;

    closed spec fn view(&self) -> RecordView {
        RecordView {
            entity_added: self.entity_added,
            component_type: self.component_type,
            handle: match self.handle {
                Some(d) => Some(d@),
                None => None,
            },
            singleton: self.singleton,
            id: self.id,
        }
    }
}

impl Default for RecordInstance {
    /// Default construction: zeroed header, no handle. The layout planner
    /// is never consulted here — planning happened once, at schema
    /// declaration.
    fn default() -> (r: Self)
        ensures
            r.wf(),
            r@ == (RecordView {
                entity_added: 0,
                component_type: 0,
                handle: None,
                singleton: false,
                id: 0,
            }),
    {
        RecordInstance {
            entity_added: 0,
            component_type: 0,
            handle: None,
            singleton: false,
            id: 0,
        }
    }
}

impl RecordInstance {
    /// Internal discipline: an attached descriptor keeps its payload
    /// stores well formed.
    pub closed spec fn wf(self) -> bool {
        match self.handle {
            Some(d) => d.inv(),
            None => true,
        }
    }

    /// Whether a handle is attached.
    pub open spec fn spec_attached(self) -> bool {
        self@.handle is Some
    }

    /// Whether a handle is attached.
    pub fn is_attached(&self) -> (b: bool)
        ensures
            b == self.spec_attached(),
    {
        match &self.handle {
            Some(_) => true,
            None => false,
        }
    }

    /// Attach the backing descriptor. The external store calls this
    /// exactly once per instance, when the component is added; the record
    /// never constructs its own handle.
    pub fn set_component(&mut self, component: ComponentData)
        requires
            old(self).wf(),
            !old(self).spec_attached(),
            component.inv(),
        ensures
            final(self).wf(),
            final(self)@ == (RecordView { handle: Some(component@), ..old(self)@ }),
    {
        self.handle = Some(component);
    }

    /// Record which entity the component was added to.
    pub fn set_entity_added(&mut self, entity_id: u64)
        requires
            old(self).wf(),
        ensures
            final(self).wf(),
            final(self)@ == (RecordView { entity_added: entity_id, ..old(self)@ }),
    {
        self.entity_added = entity_id;
    }

    /// Record the registry identifier of the record's kind.
    pub fn set_component_type(&mut self, component_type_id: u64)
        requires
            old(self).wf(),
        ensures
            final(self).wf(),
            final(self)@ == (RecordView { component_type: component_type_id, ..old(self)@ }),
    {
        self.component_type = component_type_id;
    }

    /// Mark the record as the singleton of its kind.
    pub fn set_singleton(&mut self, singleton: bool)
        requires
            old(self).wf(),
        ensures
            final(self).wf(),
            final(self)@ == (RecordView { singleton, ..old(self)@ }),
    {
        self.singleton = singleton;
    }

    /// Record the instance identifier.
    pub fn set_id(&mut self, id: u64)
        requires
            old(self).wf(),
        ensures
            final(self).wf(),
            final(self)@ == (RecordView { id, ..old(self)@ }),
    {
        self.id = id;
    }

    /// The identifier of the entity the component was added to.
    pub fn entity_added(&self) -> (v: u64)
        ensures
            v == self@.entity_added,
    {
        self.entity_added
    }

    /// The registry identifier of the record's kind.
    pub fn component_type_id(&self) -> (v: u64)
        ensures
            v == self@.component_type,
    {
        self.component_type
    }

    /// Whether the record is the singleton of its kind.
    pub fn is_singleton(&self) -> (v: bool)
        ensures
            v == self@.singleton,
    {
        self.singleton
    }

    /// The instance identifier.
    pub fn instance_id(&self) -> (v: u64)
        ensures
            v == self@.id,
    {
        self.id
    }

    /// Release the handle's backing allocation and null the handle.
    ///
    /// Releasing an already-released or never-attached record is a no-op:
    /// the handle is nulled immediately on the first release, so the
    /// allocation can never be freed twice.
    pub fn release(&mut self)
        requires
            old(self).wf(),
        ensures
            final(self).wf(),
            !final(self).spec_attached(),
            final(self)@ == (RecordView { handle: None, ..old(self)@ }),
            !old(self).spec_attached() ==> final(self)@ == old(self)@,
    {
        self.handle = None;
        proof {
            if !old(self).spec_attached() {
                assert(self@ =~= old(self)@);
            }
        }
    }

    /// Read the field of the given declared type at the given planned
    /// offset, through the attached handle. The hot path performs no
    /// defensive null check: an attached handle is the caller's
    /// precondition.
    pub fn read(&self, ty: &DeclaredType, offset: u32) -> (v: FieldValue)
        requires
            self.wf(),
            self.spec_attached(),
            spec_has_accessor(*ty),
            offset + spec_access_bytes(*ty) <= self@.handle->Some_0.bytes.len(),
        ensures
            v@ == spec_read_field(self@.handle->Some_0, *ty, offset),
            spec_value_fits(v@, *ty),
    {
        match &self.handle {
            Some(d) => d.read_field(ty, offset),
            None => FieldValue::U8(0),
        }
    }

    /// Write a field of the given declared type at the given planned
    /// offset, through the attached handle; afterwards the field holds
    /// the written value.
    pub fn write(&mut self, ty: &DeclaredType, offset: u32, value: FieldValue)
        requires
            old(self).wf(),
            old(self).spec_attached(),
            spec_has_accessor(*ty),
            spec_value_fits(value@, *ty),
            offset + spec_access_bytes(*ty) <= old(self)@.handle->Some_0.bytes.len(),
        ensures
            final(self).wf(),
            final(self)@ == (RecordView {
                handle: Some(
                    spec_write_field(old(self)@.handle->Some_0, *ty, offset, value@),
                ),
                ..old(self)@
            }),
            spec_read_field(final(self)@.handle->Some_0, *ty, offset) == value@,
    {
        match &mut self.handle {
            Some(d) => d.write_field(ty, offset, value),
            None => {},
        }
    }

    /// Whether this record's handle addresses a block of the schema's
    /// planned size: the shape the external store attaches for records of
    /// that kind.
    pub open spec fn spec_sized_for(self, schema: RecordSchema) -> bool {
        self.spec_attached() && self@.handle->Some_0.bytes.len() == schema.size_bytes
    }

    /// Read field number `index` of the schema, at its planned offset.
    /// This is the read accessor a record kind offers per declared field:
    /// the planned layout puts every field's window inside the block, so
    /// no bound beyond the schema itself is asked of the caller.
    pub fn read_planned(&self, schema: &RecordSchema, index: usize) -> (v: FieldValue)
        requires
            self.wf(),
            schema.wf(),
            self.spec_sized_for(*schema),
            index < schema.fields@.len(),
            spec_has_accessor(schema.fields@[index as int].declared_type),
        ensures
            v@ == spec_read_field(
                self@.handle->Some_0,
                schema.fields@[index as int].declared_type,
                schema.fields@[index as int].offset_bytes,
            ),
            spec_value_fits(v@, schema.fields@[index as int].declared_type),
    {
        proof {
            lemma_planned_window(self@.handle->Some_0, *schema, index as int);
        }
        self.read(&schema.fields[index].declared_type, schema.fields[index].offset_bytes)
    }

    /// Write field number `index` of the schema, at its planned offset;
    /// afterwards the field holds the written value.
    pub fn write_planned(&mut self, schema: &RecordSchema, index: usize, value: FieldValue)
        requires
            old(self).wf(),
            schema.wf(),
            old(self).spec_sized_for(*schema),
            index < schema.fields@.len(),
            spec_has_accessor(schema.fields@[index as int].declared_type),
            spec_value_fits(value@, schema.fields@[index as int].declared_type),
        ensures
            final(self).wf(),
            final(self)@ == (RecordView {
                handle: Some(
                    spec_write_field(
                        old(self)@.handle->Some_0,
                        schema.fields@[index as int].declared_type,
                        schema.fields@[index as int].offset_bytes,
                        value@,
                    ),
                ),
                ..old(self)@
            }),
            spec_read_field(
                final(self)@.handle->Some_0,
                schema.fields@[index as int].declared_type,
                schema.fields@[index as int].offset_bytes,
            ) == value@,
            final(self).spec_sized_for(*schema),
    {
        proof {
            lemma_planned_window(self@.handle->Some_0, *schema, index as int);
            crate::access::lemma_splice_write_keeps_len(
                self@.handle->Some_0,
                schema.fields@[index as int].declared_type,
                schema.fields@[index as int].offset_bytes,
                value@,
            );
        }
        self.write(
            &schema.fields[index].declared_type,
            schema.fields[index].offset_bytes,
            value,
        );
    }

    /// Read a field after testing the handle: returns `NullHandle`
    /// instead of requiring attachment, exactly when no handle is
    /// attached.
    pub fn try_read(&self, ty: &DeclaredType, offset: u32) -> (r: Result<FieldValue, RuntimeError>)
        requires
            self.wf(),
            spec_has_accessor(*ty),
            self.spec_attached() ==> offset + spec_access_bytes(*ty)
                <= self@.handle->Some_0.bytes.len(),
        ensures
            match r {
                Ok(v) => self.spec_attached() && v@ == spec_read_field(
                    self@.handle->Some_0,
                    *ty,
                    offset,
                ),
                Err(e) => !self.spec_attached() && e == RuntimeError::NullHandle,
            },
    {
        if self.is_attached() {
            Ok(self.read(ty, offset))
        } else {
            Err(RuntimeError::NullHandle)
        }
    }

    /// Write a field after testing the handle: returns `NullHandle`
    /// instead of requiring attachment, exactly when no handle is
    /// attached; the record is unchanged in that case.
    pub fn try_write(&mut self, ty: &DeclaredType, offset: u32, value: FieldValue) -> (r: Result<
        (),
        RuntimeError,
    >)
        requires
            old(self).wf(),
            spec_has_accessor(*ty),
            spec_value_fits(value@, *ty),
            old(self).spec_attached() ==> offset + spec_access_bytes(*ty)
                <= old(self)@.handle->Some_0.bytes.len(),
        ensures
            final(self).wf(),
            match r {
                Ok(_) => old(self).spec_attached() && final(self)@ == (RecordView {
                    handle: Some(
                        spec_write_field(old(self)@.handle->Some_0, *ty, offset, value@),
                    ),
                    ..old(self)@
                }),
                Err(e) => {
                    &&& !old(self).spec_attached()
                    &&& e == RuntimeError::NullHandle
                    &&& final(self)@ == old(self)@
                },
            },
    {
        if self.is_attached() {
            self.write(ty, offset, value);
            Ok(())
        } else {
            Err(RuntimeError::NullHandle)
        }
    }
}

/// A planned field's access window lies inside a block of the schema's
/// total size.
proof fn lemma_planned_window(d: DataView, schema: RecordSchema, index: int)
    requires
        schema.wf(),
        d.bytes.len() == schema.size_bytes,
        0 <= index < schema.fields@.len(),
    ensures
        schema.fields@[index].offset_bytes + spec_access_bytes(
            schema.fields@[index].declared_type,
        ) <= d.bytes.len(),
{
    let types = schema.spec_types();
    crate::access::lemma_field_window_in_block(d, types, schema.pointer_width, index);
    crate::access::lemma_access_within_size(types[index], schema.pointer_width);
}

/// Double-release safety, as a law over record contents: releasing is
/// idempotent — a released record is a fixed point of release.
pub proof fn lemma_release_idempotent(r: RecordView)
    ensures
        (RecordView { handle: None, ..(RecordView { handle: None, ..r }) }) == (RecordView {
            handle: None,
            ..r
        }),
{
}

} // verus!
