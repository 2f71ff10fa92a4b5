//! What can go wrong when a recognized entity is asked for its date and time.

use vstd::prelude::*;

verus! {

/// The failures of the date and time queries.
#[derive(Debug)]
pub enum Error {
    /// The entity is of another type than date and time; holds that type.
    NoDateTime(String),
    /// Setting a field gave an instant that does not exist; holds the name of
    /// the field.
    BadDateCalc(String),
    /// The value of the entity does not have the shape of a date and time.
    ParseDateTime,
}

/// The mathematical value of an [`Error`].
pub ghost enum ErrorView {
    NoDateTime(Seq<char>),
    BadDateCalc(Seq<char>),
    ParseDateTime,
}

impl View for Error {
    type V = ErrorView;

    open spec fn view(&self) -> ErrorView {
        match self {
            Error::NoDateTime(entity_type) => ErrorView::NoDateTime(entity_type@),
            Error::BadDateCalc(field) => ErrorView::BadDateCalc(field@),
            Error::ParseDateTime => ErrorView::ParseDateTime,
        }
    }
}

} // verus!
