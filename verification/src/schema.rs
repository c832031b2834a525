//! The structural schema a payload type declares for documentation, and the
//! schema-alias bridge that lets one type delegate its schema to another,
//! guarded by a representational-equivalence check.

use vstd::layout::size_of;
use vstd::prelude::*;

verus! {

/// One declared field of a schema: its name and the name of its type.
#[derive(Clone, Debug, PartialEq, Eq)]
pub struct SchemaField {
    pub name: String,
    pub ty: String,
}

/// The mathematical model of a schema: its stable name and its structural
/// fields, in declaration order.
#[verifier::ext_equal]
pub ghost struct SchemaView {
    pub name: Seq<char>,
    pub fields: Seq<(Seq<char>, Seq<char>)>,
}

/// A payload type's structural schema: a stable name plus named, typed fields.
#[derive(Clone, Debug, PartialEq, Eq)]
pub struct Schema {
    pub name: String,
    pub fields: Vec<SchemaField>,
}

impl View for Schema {
    type V = SchemaView;

    open spec fn view(&self) -> SchemaView {
        SchemaView {
            name: self.name@,
            fields: self.fields@.map_values(|f: SchemaField| (f.name@, f.ty@)),
        }
    }
}

impl Schema {
    /// A schema with the given stable name and no fields yet.
    pub fn new(name: String) -> (r: Self)
        ensures
            r@.name == name@,
            r@.fields == Seq::<(Seq<char>, Seq<char>)>::empty(),
    {
        let r = Schema { name, fields: Vec::new() };
        proof {
            assert(r@.fields =~= Seq::<(Seq<char>, Seq<char>)>::empty());
        }
        r
    }

    /// Appends one declared field; declaration order is preserved.
    #[must_use]
    pub fn field(self, name: String, ty: String) -> (r: Self)
        ensures
            r@.name == self@.name,
            r@.fields == self@.fields.push((name@, ty@)),
    {
        let ghost s = self@;
        let ghost f = (name@, ty@);
        let Schema { name: schema_name, mut fields } = self;
        fields.push(SchemaField { name, ty });
        let r = Schema { name: schema_name, fields };
        proof {
            assert(r@.fields =~= s.fields.push(f));
        }
        r
    }
}

/// The schema-alias bridge refuses two types whose memory layouts differ in
/// size: delegation is only for representationally identical types.
#[derive(Clone, Copy, PartialEq, Eq, Debug, Structural)]
pub enum AliasError {
    SizeMismatch,
}

/// The schema-alias bridge: lets type `A` declare that its documentation
/// schema is exactly type `B`'s — same stable name, same structural fields —
/// provided the two types are representationally identical. Types that differ
/// in size are refused, never silently documented.
pub fn alias_schema<A, B>(target: Schema) -> (r: Result<Schema, AliasError>)
    ensures
        size_of::<A>() == size_of::<B>() <==> r is Ok,
        r matches Ok(s) ==> s@ == target@,
        r matches Err(e) ==> e == AliasError::SizeMismatch,
{
    if core::mem::size_of::<A>() == core::mem::size_of::<B>() {
        Ok(target)
    } else {
        Err(AliasError::SizeMismatch)
    }
}

} // verus!
