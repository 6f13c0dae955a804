//! Object schemas: the composite descriptor that a record type derives to.
//!
//! A record is presented as an ordered list of fields, each carrying its
//! name, the schema tag of its declared type, and an optional documentation
//! string.  Derivation turns that list into a keyed schema object mapping
//! field name to `{type, description?}`; a name declared twice keeps only
//! its last declaration, as a keyed JSON object would.

use crate::keyed;
use vstd::prelude::*;

verus! {

/// One field of a record, as handed to the derivation.
pub struct FieldSpec {
    /// The field's name, the key of its schema entry.
    pub name: String,
    /// The schema tag of the field's declared type, as the type's
    /// [`crate::Jsonify`] implementation answers it.
    pub type_tag: String,
    /// The field's documentation string, if it carries one.
    pub description: Option<String>,
}

/// The schema fragment one object field derives to.
pub struct FieldDescriptor {
    /// The schema tag of the field's type.
    pub type_tag: String,
    /// Present exactly when the field supplied a documentation string.
    pub description: Option<String>,
}

/// A composite schema object: field name to descriptor, keys unique.
pub struct ObjectSchema {
    /// The derived entries, one per distinct field name.
    pub entries: Vec<(String, FieldDescriptor)>,
}

/// The descriptor a single field derives to.
pub open spec fn descriptor_of(f: FieldSpec) -> FieldDescriptor {
    FieldDescriptor { type_tag: f.type_tag, description: f.description }
}

/// The entries an ordered field list derives to: each field stored in turn
/// under its name, a later declaration overwriting an earlier one.
pub open spec fn spec_derive(fields: Seq<FieldSpec>) -> Seq<(String, FieldDescriptor)>
    decreases fields.len(),
{
    if fields.len() == 0 {
        Seq::empty()
    } else {
        keyed::spec_store(
            spec_derive(fields.drop_last()),
            fields.last().name,
            descriptor_of(fields.last()),
        )
    }
}

/// Derivation never produces two entries under one field name.
pub proof fn lemma_derive_keys_unique(fields: Seq<FieldSpec>)
    ensures
        keyed::keys_unique(spec_derive(fields)),
    decreases fields.len(),
{
    if fields.len() == 0 {
    } else {
        lemma_derive_keys_unique(fields.drop_last());
        keyed::lemma_store(
            spec_derive(fields.drop_last()),
            fields.last().name,
            descriptor_of(fields.last()),
        );
    }
}

/// Derive the composite schema object of a record from its ordered field
/// list: one `{type, description?}` entry per distinct field name, carrying
/// the tag and documentation of the field's last declaration.
#[verifier::loop_isolation(false)]
pub fn describe_object(fields: Vec<FieldSpec>) -> (r: ObjectSchema)
    ensures
        r.entries@ == spec_derive(fields@),
        keyed::keys_unique(r.entries@),
{
    let ghost orig = fields@;
    let mut fields = fields;
    let mut entries: Vec<(String, FieldDescriptor)> = Vec::new();
    let ghost done: int = 0;
    proof {
        assert(orig.take(0) =~= Seq::<FieldSpec>::empty());
    }
    while fields.len() > 0
        invariant
            0 <= done <= orig.len(),
            fields@ == orig.skip(done),
            entries@ == spec_derive(orig.take(done)),
            keyed::keys_unique(entries@),
        decreases fields.len(),
    {
        let f = fields.remove(0);
        proof {
            assert(f == orig[done]);
            assert(fields@ =~= orig.skip(done + 1));
            assert(orig.take(done + 1).drop_last() =~= orig.take(done));
            assert(orig.take(done + 1).last() == orig[done]);
        }
        let FieldSpec { name, type_tag, description } = f;
        keyed::store(&mut entries, name, FieldDescriptor { type_tag, description });
        proof {
            done = done + 1;
        }
    }
    proof {
        assert(orig.take(done) =~= orig);
    }
    ObjectSchema { entries }
}

} // verus!
