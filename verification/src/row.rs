//! The row cursor: a sequential decoder over one fetched result row that
//! tracks a forward-only read offset.

use vstd::prelude::*;

use crate::error::DecodeError;
use crate::value::Value;

verus! {

/// What one result cell may decode to: `None` stands for SQL null.
pub type Cell = Option<Value>;

/// The mathematical result of reading the cell at `at` as a raw value.
pub open spec fn spec_try_get(row: Seq<Cell>, at: int) -> Result<Value, DecodeError> {
    if !(0 <= at < row.len()) {
        Err(DecodeError::OutOfBounds)
    } else {
        match row[at] {
            None => Err(DecodeError::UnexpectedNull),
            Some(v) => Ok(v),
        }
    }
}

/// Whether the cell at `at` is null; a position out of range is not null.
pub open spec fn spec_is_null(row: Seq<Cell>, at: int) -> bool {
    0 <= at < row.len() && row[at] is None
}

/// The failure, if any, of reading the cell at `at` as an integer.
pub open spec fn spec_get_int_error(row: Seq<Cell>, at: int) -> Option<DecodeError> {
    match spec_try_get(row, at) {
        Err(e) => Some(e),
        Ok(v) => match v {
            Value::Int(_) => None,
            _ => Some(DecodeError::TypeMismatch),
        },
    }
}

/// The failure, if any, of reading the cell at `at` as text.
pub open spec fn spec_get_text_error(row: Seq<Cell>, at: int) -> Option<DecodeError> {
    match spec_try_get(row, at) {
        Err(e) => Some(e),
        Ok(v) => match v {
            Value::Text(_) => None,
            _ => Some(DecodeError::TypeMismatch),
        },
    }
}

/// The failure, if any, of reading the cell at `at` as a boolean.
pub open spec fn spec_get_bool_error(row: Seq<Cell>, at: int) -> Option<DecodeError> {
    match spec_try_get(row, at) {
        Err(e) => Some(e),
        Ok(v) => match v {
            Value::Bool(_) => None,
            _ => Some(DecodeError::TypeMismatch),
        },
    }
}

/// Wrapper around one fetched row which tracks the offset into the row as
/// columns are decoded.
///
/// Every read consumes exactly one column and advances the offset by exactly
/// one, even when it fails, so nested decoders stay aligned with the
/// projected column list.
pub struct OffsetRow {
    /// The columns of the row, in projection order; `None` is SQL null.
    pub row: Vec<Cell>,
    /// The index of the next column to be read.
    pub offset: usize,
}

impl OffsetRow {
    /// Construct a new OffsetRow over a fetched row, positioned at its first
    /// column.
    pub fn new(row: Vec<Cell>) -> (r: OffsetRow)
        ensures
            r.row@ == row@,
            r.offset == 0,
    {
        OffsetRow { row, offset: 0 }
    }

    /// Skip `count` columns without reading them; used when a segment is
    /// known absent, to keep positions aligned with later segments.
    pub fn skip(&mut self, count: usize)
        requires
            old(self).offset + count <= usize::MAX,
        ensures
            final(self).row@ == old(self).row@,
            final(self).offset == old(self).offset + count,
    {
        self.offset = self.offset + count;
    }

    /// Whether the column at the current offset is null; a position past the
    /// end of the row does not count as null. Does not advance the offset.
    pub fn is_null(&self) -> (r: bool)
        ensures
            r == spec_is_null(self.row@, self.offset as int),
    {
        self.offset < self.row.len() && self.row[self.offset].is_none()
    }

    /// Read the current column as a raw value and advance the offset by one,
    /// whether or not the read succeeds.
    pub fn try_get(&mut self) -> (r: Result<Value, DecodeError>)
        requires
            old(self).offset < usize::MAX,
        ensures
            final(self).row@ == old(self).row@,
            final(self).offset == old(self).offset + 1,
            r == spec_try_get(old(self).row@, old(self).offset as int),
    {
        let at = self.offset;
        self.offset = self.offset + 1;
        if at >= self.row.len() {
            Err(DecodeError::OutOfBounds)
        } else {
            match &self.row[at] {
                None => Err(DecodeError::UnexpectedNull),
                Some(v) => Ok(v.duplicate()),
            }
        }
    }

    /// Read the current column as an integer and advance the offset by one.
    pub fn try_get_int(&mut self) -> (r: Result<i64, DecodeError>)
        requires
            old(self).offset < usize::MAX,
        ensures
            final(self).row@ == old(self).row@,
            final(self).offset == old(self).offset + 1,
            (r is Ok) == (spec_get_int_error(old(self).row@, old(self).offset as int) is None),
            (match r {
                Ok(i) => spec_try_get(old(self).row@, old(self).offset as int) == Ok::<
                    Value,
                    DecodeError,
                >(Value::Int(i)),
                Err(e) => spec_get_int_error(old(self).row@, old(self).offset as int) == Some(e),
            }),
    {
        match self.try_get() {
            Err(e) => Err(e),
            Ok(v) => match v {
                Value::Int(i) => Ok(i),
                _ => Err(DecodeError::TypeMismatch),
            },
        }
    }

    /// Read the current column as text and advance the offset by one.
    pub fn try_get_text(&mut self) -> (r: Result<String, DecodeError>)
        requires
            old(self).offset < usize::MAX,
        ensures
            final(self).row@ == old(self).row@,
            final(self).offset == old(self).offset + 1,
            (r is Ok) == (spec_get_text_error(old(self).row@, old(self).offset as int) is None),
            (match r {
                Ok(s) => spec_try_get(old(self).row@, old(self).offset as int) == Ok::<
                    Value,
                    DecodeError,
                >(Value::Text(s)),
                Err(e) => spec_get_text_error(old(self).row@, old(self).offset as int) == Some(e),
            }),
    {
        match self.try_get() {
            Err(e) => Err(e),
            Ok(v) => match v {
                Value::Text(s) => Ok(s),
                _ => Err(DecodeError::TypeMismatch),
            },
        }
    }

    /// Read the current column as a boolean and advance the offset by one.
    pub fn try_get_bool(&mut self) -> (r: Result<bool, DecodeError>)
        requires
            old(self).offset < usize::MAX,
        ensures
            final(self).row@ == old(self).row@,
            final(self).offset == old(self).offset + 1,
            (r is Ok) == (spec_get_bool_error(old(self).row@, old(self).offset as int) is None),
            (match r {
                Ok(b) => spec_try_get(old(self).row@, old(self).offset as int) == Ok::<
                    Value,
                    DecodeError,
                >(Value::Bool(b)),
                Err(e) => spec_get_bool_error(old(self).row@, old(self).offset as int) == Some(e),
            }),
    {
        match self.try_get() {
            Err(e) => Err(e),
            Ok(v) => match v {
                Value::Bool(b) => Ok(b),
                _ => Err(DecodeError::TypeMismatch),
            },
        }
    }
}

/// Returned row of an entity identifier and its associated components.
#[derive(Debug)]
pub struct Entity<EntityId, T> {
    id: EntityId,
    inner: T,
}

impl<EntityId, T> Entity<EntityId, T> {
    /// The identifier half of the pair, for contracts.
    pub closed spec fn spec_id(self) -> EntityId {
        self.id
    }

    /// The component half of the pair, for contracts.
    pub closed spec fn spec_components(self) -> T {
        self.inner
    }

    /// Pair an entity identifier with its decoded components.
    pub fn new(id: EntityId, inner: T) -> (r: Entity<EntityId, T>)
        ensures
            r.spec_id() == id,
            r.spec_components() == inner,
    {
        Entity { id, inner }
    }

    /// Borrow the identifier of the returned entity.
    pub fn id(&self) -> (r: &EntityId)
        ensures
            r == self.spec_id(),
    {
        &self.id
    }

    /// Consumes the entity, returning its identifier.
    pub fn into_id(self) -> (r: EntityId)
        ensures
            r == self.spec_id(),
    {
        self.id
    }

    /// Borrow the entity's components.
    pub fn components(&self) -> (r: &T)
        ensures
            r == self.spec_components(),
    {
        &self.inner
    }

    /// Consumes the entity, returning its components.
    pub fn into_components(self) -> (r: T)
        ensures
            r == self.spec_components(),
    {
        self.inner
    }
}

} // verus!
