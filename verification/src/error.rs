//! The ways in which an operation on the store fails.

use vstd::prelude::*;

verus! {

/// Why an operation on the store did not succeed.
#[derive(Clone, Copy, Debug, PartialEq, Eq, Structural)]
pub enum StoreError {
    /// No note has the identifier.
    NotFound,
    /// The identifier names a path outside the store's root.
    PathEscape,
    /// The file has a header that cannot be read as one.
    MalformedNote,
    /// Neither the project nor the title nor the body gives an identifier.
    EmptyIdentifier,
    /// Reading, writing or removing a file failed.
    IoFailure,
}

impl StoreError {
    /// A sentence for the person who asked for the operation.
    pub fn message(&self) -> (text: String)
        ensures
            text@.len() > 0,
            text@ == self.message_text(),
    {
        match self {
            StoreError::NotFound => {
                proof { reveal_strlit("Cannot find a note with this id"); }
                String::from_str("Cannot find a note with this id")
            },
            StoreError::PathEscape => {
                proof { reveal_strlit("Can't touch a file outside of the store's directory"); }
                String::from_str("Can't touch a file outside of the store's directory")
            },
            StoreError::MalformedNote => {
                proof { reveal_strlit("The note's header cannot be read"); }
                String::from_str("The note's header cannot be read")
            },
            StoreError::EmptyIdentifier => {
                proof { reveal_strlit("Can't have both title & body empty: ID is empty"); }
                String::from_str("Can't have both title & body empty: ID is empty")
            },
            StoreError::IoFailure => {
                proof { reveal_strlit("Reading or writing the note's file failed"); }
                String::from_str("Reading or writing the note's file failed")
            },
        }
    }

    /// The text of `message`.
    pub open spec fn message_text(self) -> Seq<char> {
        match self {
            StoreError::NotFound => "Cannot find a note with this id"@,
            StoreError::PathEscape => "Can't touch a file outside of the store's directory"@,
            StoreError::MalformedNote => "The note's header cannot be read"@,
            StoreError::EmptyIdentifier => "Can't have both title & body empty: ID is empty"@,
            StoreError::IoFailure => "Reading or writing the note's file failed"@,
        }
    }
}

} // verus!
