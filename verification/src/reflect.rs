//! Reflection over a component's columns: typed handles that build
//! conditions on a column without spelling its name at every use.

use vstd::prelude::*;

use crate::condition::{
    Equality, GreaterThan, GreaterThanOrEqual, Inequality, LessThan, LessThanOrEqual,
};
use crate::value::Value;

verus! {

/// A component whose columns can be named as condition-building handles.
pub trait Reflect {
    /// The struct of column handles the component exposes.
    type Reflection;

    /// The component's column handles.
    fn fields() -> Self::Reflection;
}

/// A handle on one named column, from which comparisons are built.
#[derive(Debug)]
pub struct ReflectedColumn {
    /// The column's name.
    pub column_name: String,
}

impl ReflectedColumn {
    /// A handle on the column of the given name.
    pub fn new(column_name: &str) -> (r: ReflectedColumn)
        ensures
            r.column_name@ == column_name@,
    {
        ReflectedColumn { column_name: String::from_str(column_name) }
    }

    /// The column equals the value.
    pub fn eq(&self, value: Value) -> (r: Equality)
        ensures
            r.column@ == self.column_name@,
            r.parameter == value,
    {
        Equality::new(self.column_name.as_str(), value)
    }

    /// The column differs from the value.
    pub fn ne(&self, value: Value) -> (r: Inequality)
        ensures
            r.column@ == self.column_name@,
            r.parameter == value,
    {
        Inequality::new(self.column_name.as_str(), value)
    }

    /// The column is strictly greater than the value.
    pub fn gt(&self, value: Value) -> (r: GreaterThan)
        ensures
            r.column@ == self.column_name@,
            r.parameter == value,
    {
        GreaterThan::new(self.column_name.as_str(), value)
    }

    /// The column is strictly less than the value.
    pub fn lt(&self, value: Value) -> (r: LessThan)
        ensures
            r.column@ == self.column_name@,
            r.parameter == value,
    {
        LessThan::new(self.column_name.as_str(), value)
    }

    /// The column is greater than or equal to the value.
    pub fn ge(&self, value: Value) -> (r: GreaterThanOrEqual)
        ensures
            r.column@ == self.column_name@,
            r.parameter == value,
    {
        GreaterThanOrEqual::new(self.column_name.as_str(), value)
    }

    /// The column is less than or equal to the value.
    pub fn le(&self, value: Value) -> (r: LessThanOrEqual)
        ensures
            r.column@ == self.column_name@,
            r.parameter == value,
    {
        LessThanOrEqual::new(self.column_name.as_str(), value)
    }

    /// The column equals the value.
    pub fn equals(&self, value: Value) -> (r: Equality)
        ensures
            r.column@ == self.column_name@,
            r.parameter == value,
    {
        self.eq(value)
    }

    /// The column differs from the value.
    pub fn not_equals(&self, value: Value) -> (r: Inequality)
        ensures
            r.column@ == self.column_name@,
            r.parameter == value,
    {
        self.ne(value)
    }

    /// The column is strictly greater than the value.
    pub fn greater_than(&self, value: Value) -> (r: GreaterThan)
        ensures
            r.column@ == self.column_name@,
            r.parameter == value,
    {
        self.gt(value)
    }

    /// The column is strictly less than the value.
    pub fn less_than(&self, value: Value) -> (r: LessThan)
        ensures
            r.column@ == self.column_name@,
            r.parameter == value,
    {
        self.lt(value)
    }

    /// The column is greater than or equal to the value.
    pub fn greater_than_or_equals(&self, value: Value) -> (r: GreaterThanOrEqual)
        ensures
            r.column@ == self.column_name@,
            r.parameter == value,
    {
        self.ge(value)
    }

    /// The column is less than or equal to the value.
    pub fn less_than_or_equals(&self, value: Value) -> (r: LessThanOrEqual)
        ensures
            r.column@ == self.column_name@,
            r.parameter == value,
    {
        self.le(value)
    }
}

/// The column handles of an `Age` component.
#[derive(Debug)]
pub struct AgeFields {
    /// The stored age column.
    pub age: ReflectedColumn,
}

impl Reflect for crate::components::Age {
    type Reflection = AgeFields;

    fn fields() -> AgeFields {
        AgeFields { age: ReflectedColumn::new("age") }
    }
}

} // verus!
