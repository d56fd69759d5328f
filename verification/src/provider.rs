//! Table providers: an external table's queryable surface.
//!
//! A provider binds the schema discovered from the files at a storage path to
//! the batches those files yield.  At creation it is validated positionally
//! against the declaring relation's attributes: a declared attribute whose
//! type is not convertible from the resolved column type is a hard error,
//! never a silent coercion.

use vstd::prelude::*;

use crate::batch::{Batch, Cell, ColType, Field, PgType};
use crate::registry::ContextError;

verus! {

/// A declared attribute of the external relation: name and declared type.
pub struct PgAttribute {
    pub name: String,
    pub type_oid: PgType,
}

impl PgAttribute {
    pub fn new(name: String, type_oid: PgType) -> (r: Self)
        ensures
            r.name == name,
            r.type_oid == type_oid,
    {
        PgAttribute { name, type_oid }
    }
}

/// Whether a resolved column type is convertible to a declared attribute
/// type: the value representations must agree exactly; a decimal column is
/// convertible to a numeric attribute when the attribute is unconstrained or
/// declares the column's scale.
pub open spec fn spec_convertible(c: ColType, t: PgType) -> bool {
    match c {
        ColType::Bool => t == PgType::Bool,
        ColType::Int16 => t == PgType::Int2,
        ColType::Int32 => t == PgType::Int4,
        ColType::Int64 => t == PgType::Int8,
        ColType::Utf8 => t == PgType::Text,
        ColType::Date32 => t == PgType::Date,
        ColType::TimestampMicros => t == PgType::Timestamp,
        ColType::Decimal(s) => match t {
            PgType::Numeric(m) => m < 0 || (s <= 0x7fffffff && m == s as i32),
            _ => false,
        },
    }
}

/// Decide convertibility of one column against one attribute; a mismatch is
/// an error naming the column.
pub fn can_convert_to_attribute(field: &Field, attribute: &PgAttribute) -> (r: Result<
    (),
    ContextError,
>)
    ensures
        r is Ok <==> spec_convertible(field.col_type, attribute.type_oid),
        r matches Err(e) ==> e matches ContextError::SchemaMismatch(_, c) && c@ == field.name@,
{
    let ok = match (field.col_type, attribute.type_oid) {
        (ColType::Bool, PgType::Bool) => true,
        (ColType::Int16, PgType::Int2) => true,
        (ColType::Int32, PgType::Int4) => true,
        (ColType::Int64, PgType::Int8) => true,
        (ColType::Utf8, PgType::Text) => true,
        (ColType::Date32, PgType::Date) => true,
        (ColType::TimestampMicros, PgType::Timestamp) => true,
        (ColType::Decimal(s), PgType::Numeric(m)) => m < 0 || (s <= 0x7fffffff && m
            == s as i32),
        _ => false,
    };
    if ok {
        Ok(())
    } else {
        Err(ContextError::SchemaMismatch(0, field.name.clone()))
    }
}

/// One external table's queryable surface: an output schema and the batches
/// its files yield, immutable once created.
pub struct TableProvider {
    pub schema: Vec<Field>,
    pub batches: Vec<Batch>,
}

impl TableProvider {
    /// Every batch is well formed and matches the provider schema column by
    /// column.
    pub open spec fn wf(self) -> bool {
        forall|b: int|
            0 <= b < self.batches@.len() ==> (#[trigger] self.batches@[b]).wf()
                && self.batches@[b].columns@.len() == self.schema@.len() && forall|j: int|
                0 <= j < self.schema@.len() ==> (#[trigger] self.batches@[b].columns@[j]).col_type
                    == self.schema@[j].col_type
    }
}

/// What listing the files at a storage path discovered: the path and
/// extension the listing was scoped to, the inferred schema, and the batches
/// the files yield.
pub struct FileListing {
    pub path: String,
    pub extension: String,
    pub schema: Vec<Field>,
    pub batches: Vec<Batch>,
}

impl FileListing {
    pub open spec fn wf(self) -> bool {
        forall|b: int|
            0 <= b < self.batches@.len() ==> (#[trigger] self.batches@[b]).wf()
                && self.batches@[b].columns@.len() == self.schema@.len() && forall|j: int|
                0 <= j < self.schema@.len() ==> (#[trigger] self.batches@[b].columns@[j]).col_type
                    == self.schema@[j].col_type
    }
}

/// Build a listing provider scoped to a path and extension.  When no object
/// exists at the path, resolution fails with an error naming the missing
/// path.  Plain listing and the transactional table format construct the
/// same provider; the formats differ only in metadata discovery.
pub fn create_listing_provider(path: &String, listing: Option<FileListing>) -> (r: Result<
    TableProvider,
    ContextError,
>)
    requires
        match listing {
            Some(l) => l.wf() && l.path@ == path@,
            None => true,
        },
    ensures
        match r {
            Ok(p) => listing matches Some(l) && p.wf() && p.schema@ == l.schema@ && p.batches@
                == l.batches@,
            Err(e) => listing is None && (e matches ContextError::ObjectNotFound(q) && q@
                == path@),
        },
{
    match listing {
        Some(l) => {
            let p = TableProvider { schema: l.schema, batches: l.batches };
            Ok(p)
        },
        None => Err(ContextError::ObjectNotFound(path.clone())),
    }
}

/// Whether the provider schema is positionally compatible with the declared
/// attributes over their common prefix.
pub open spec fn spec_schema_compatible(schema: Seq<Field>, attrs: Seq<PgAttribute>) -> bool {
    forall|j: int|
        0 <= j < schema.len() && j < attrs.len() ==> spec_convertible(
            (#[trigger] schema[j]).col_type,
            attrs[j].type_oid,
        )
}

/// Validate the provider's inferred schema against the relation's declared
/// attributes, position by position: success exactly when every overlapping
/// position is convertible; the first mismatch is a hard error naming the
/// position and column.
pub fn validate_schema(schema: &Vec<Field>, attrs: &Vec<PgAttribute>) -> (r: Result<
    (),
    ContextError,
>)
    ensures
        r is Ok <==> spec_schema_compatible(schema@, attrs@),
        r matches Err(e) ==> exists|j: int|
            0 <= j < schema@.len() && j < attrs@.len() && !spec_convertible(
                (#[trigger] schema@[j]).col_type,
                attrs@[j].type_oid,
            ) && (e matches ContextError::SchemaMismatch(p, c) && p == j && c@ == schema@[j].name@),
{
    let n = schema.len();
    let m = attrs.len();
    let mut j: usize = 0;
    while j < n
        invariant
            n == schema@.len(),
            m == attrs@.len(),
            0 <= j <= n,
            forall|q: int|
                0 <= q < j && q < m ==> spec_convertible(
                    (#[trigger] schema@[q]).col_type,
                    attrs@[q].type_oid,
                ),
        decreases n - j,
    {
        if j < m {
            match can_convert_to_attribute(&schema[j], &attrs[j]) {
                Ok(()) => {},
                Err(_) => {
                    return Err(ContextError::SchemaMismatch(j, schema[j].name.clone()));
                },
            }
        }
        j = j + 1;
    }
    Ok(())
}

/// A deliberately mismatched declared type at any overlapping position fails
/// validation: schema compatibility leaves no room for silent narrowing or
/// widening.
pub proof fn lemma_mismatch_rejected(schema: Seq<Field>, attrs: Seq<PgAttribute>, j: int)
    requires
        0 <= j < schema.len(),
        j < attrs.len(),
        !spec_convertible(schema[j].col_type, attrs[j].type_oid),
    ensures
        !spec_schema_compatible(schema, attrs),
{
}

/// Convert one columnar cell to a declared attribute type: null maps to
/// null, and a value converts exactly when its column type is convertible to
/// the attribute type, unchanged.
pub fn convert_cell(c: &Cell, target: PgType) -> (r: Option<Cell>)
    ensures
        r == spec_convert_cell(*c, target),
{
    let ok = match (c, target) {
        (Cell::Null, _) => true,
        (Cell::Bool(_), PgType::Bool) => true,
        (Cell::I16(_), PgType::Int2) => true,
        (Cell::I32(_), PgType::Int4) => true,
        (Cell::I64(_), PgType::Int8) => true,
        (Cell::Text(_), PgType::Text) => true,
        (Cell::Date(_), PgType::Date) => true,
        (Cell::Timestamp(_), PgType::Timestamp) => true,
        (Cell::Decimal(_, s), PgType::Numeric(m)) => m < 0 || (*s <= 0x7fffffff && m
            == *s as i32),
        _ => false,
    };
    if ok {
        Some(crate::batch::cell_copy(c))
    } else {
        None
    }
}

/// The mathematical form of cell conversion.
pub open spec fn spec_convert_cell(c: Cell, target: PgType) -> Option<Cell> {
    match c {
        Cell::Null => Some(Cell::Null),
        Cell::Bool(_) => if target == PgType::Bool {
            Some(c)
        } else {
            None
        },
        Cell::I16(_) => if target == PgType::Int2 {
            Some(c)
        } else {
            None
        },
        Cell::I32(_) => if target == PgType::Int4 {
            Some(c)
        } else {
            None
        },
        Cell::I64(_) => if target == PgType::Int8 {
            Some(c)
        } else {
            None
        },
        Cell::Text(_) => if target == PgType::Text {
            Some(c)
        } else {
            None
        },
        Cell::Date(_) => if target == PgType::Date {
            Some(c)
        } else {
            None
        },
        Cell::Timestamp(_) => if target == PgType::Timestamp {
            Some(c)
        } else {
            None
        },
        Cell::Decimal(_, s) => match target {
            PgType::Numeric(m) => if m < 0 || (s <= 0x7fffffff && m == s as i32) {
                Some(c)
            } else {
                None
            },
            _ => None,
        },
    }
}

/// A converted cell carries the value unchanged: conversion only checks the
/// type, it never rewrites the value.
pub proof fn lemma_convert_cell_identity(c: Cell, target: PgType)
    ensures
        match spec_convert_cell(c, target) {
            Some(v) => v == c,
            None => true,
        },
{
}

} // verus!
