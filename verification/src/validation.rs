//! The result of a validation: the errors found, and the data produced when none was.

use vstd::prelude::*;
use crate::errors::ConsensusError;

verus! {

/// Errors found by a validation, and the data it produced.
#[derive(Clone, Debug, PartialEq, Eq)]
pub struct ValidationResult<T, E> {
    pub errors: Vec<E>,
    pub data: Option<T>,
}

/// A validation result whose errors are consensus errors.
pub type ConsensusValidationResult<T> = ValidationResult<T, ConsensusError>;

/// A consensus validation result that carries no data.
pub type SimpleConsensusValidationResult = ValidationResult<(), ConsensusError>;

impl<T, E> ValidationResult<T, E> {
    /// A result with neither errors nor data.
    pub fn new() -> (r: Self)
        ensures
            r.errors@ == Seq::<E>::empty(),
            r.data is None,
    {
        ValidationResult { errors: Vec::new(), data: None }
    }

    /// A result with one error and no data.
    pub fn new_with_error(error: E) -> (r: Self)
        ensures
            r.errors@ == seq![error],
            r.data is None,
    {
        let mut errors: Vec<E> = Vec::new();
        errors.push(error);
        ValidationResult { errors, data: None }
    }

    /// A result with these errors and no data.
    pub fn new_with_errors(errors: Vec<E>) -> (r: Self)
        ensures
            r.errors@ == errors@,
            r.data is None,
    {
        ValidationResult { errors, data: None }
    }

    /// A result with this data and no error.
    pub fn new_with_data(data: T) -> (r: Self)
        ensures
            r.errors@ == Seq::<E>::empty(),
            r.data == Some(data),
    {
        ValidationResult { errors: Vec::new(), data: Some(data) }
    }

    /// Whether no error was found.
    pub fn is_valid(&self) -> (r: bool)
        ensures
            r == (self.errors@.len() == 0),
    {
        self.errors.len() == 0
    }

    /// Appends one error.
    pub fn add_error(&mut self, error: E)
        ensures
            final(self).errors@ == old(self).errors@.push(error),
            final(self).data == old(self).data,
    {
        self.errors.push(error);
    }

    /// Appends these errors, in order.
    pub fn add_errors(&mut self, errors: Vec<E>)
        ensures
            final(self).errors@ == old(self).errors@ + errors@,
            final(self).data == old(self).data,
    {
        let mut errors = errors;
        self.errors.append(&mut errors);
    }

    /// Appends the errors of another result; its data is dropped.
    pub fn merge<U>(&mut self, other: ValidationResult<U, E>)
        ensures
            final(self).errors@ == old(self).errors@ + other.errors@,
            final(self).data == old(self).data,
    {
        let mut errors = other.errors;
        self.errors.append(&mut errors);
    }

    /// Sets the data, keeping the errors.
    pub fn set_data(&mut self, data: T)
        ensures
            final(self).errors@ == old(self).errors@,
            final(self).data == Some(data),
    {
        self.data = Some(data);
    }
}

impl<T, E> Default for ValidationResult<T, E> {
    /// A result with neither errors nor data.
    fn default() -> (r: Self)
        ensures
            r.errors@ == Seq::<E>::empty(),
            r.data is None,
    {
        ValidationResult { errors: Vec::new(), data: None }
    }
}

} // verus!
