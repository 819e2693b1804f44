use vstd::prelude::*;

verus! {

/// Why an operation on the journal was turned down.
///
/// Every rejection is final for the call that met it, and leaves all records as they were.
#[derive(Clone, Copy, Debug, PartialEq, Eq, Structural)]
pub enum DiaryError {
    /// The caller is not the owner recorded in the profile.
    Unauthorized,
    /// The caller is not the owner recorded in the entry.
    NotAllowed,
    /// The entry counter would leave the range of its type.
    MathOverflow,
    /// The date is the one of the most recently created entry.
    TodayDiaryIsALreadyExist,
    /// The title has more than 100 characters.
    TitleTooLong,
    /// The content has more than 10000 characters.
    ContentTooLong,
}

impl DiaryError {
    /// The text shown to a caller for each kind of rejection.
    pub open spec fn spec_message(self) -> Seq<char> {
        match self {
            DiaryError::Unauthorized => "You are not authorized to perform this action"@,
            DiaryError::NotAllowed => "Not allowed"@,
            DiaryError::MathOverflow => "Math operation overflow"@,
            DiaryError::TodayDiaryIsALreadyExist => "You have already wrote a diary for today"@,
            DiaryError::TitleTooLong
                => "The provided title should be 100 characters long maximum."@,
            DiaryError::ContentTooLong
                => "The provided content should be 10000 characters long maximum."@,
        }
    }

    /// The text shown to a caller for this rejection.
    pub fn message(&self) -> (text: &'static str)
        ensures
            text@ == self.spec_message(),
    {
        match self {
            DiaryError::Unauthorized => "You are not authorized to perform this action",
            DiaryError::NotAllowed => "Not allowed",
            DiaryError::MathOverflow => "Math operation overflow",
            DiaryError::TodayDiaryIsALreadyExist => "You have already wrote a diary for today",
            DiaryError::TitleTooLong => "The provided title should be 100 characters long maximum.",
            DiaryError::ContentTooLong
                => "The provided content should be 10000 characters long maximum.",
        }
    }
}

/// Why the record store turned an operation down.
#[derive(Clone, Copy, Debug, PartialEq, Eq, Structural)]
pub enum JournalError {
    /// A record that the operation has to create is there already.
    AlreadyExists,
    /// A record that the operation works on is not there.
    NotFound,
    /// The records are in place, and the operation itself said no.
    Rejected(DiaryError),
}

} // verus!
