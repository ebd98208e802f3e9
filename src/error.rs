use vstd::prelude::*;

verus! {

/// Terminal failures of the commands; none of them is retried.
#[derive(Debug, Clone, Copy, PartialEq, Eq, Structural)]
pub enum HcsError {
    /// The store's reply lacked the deleted or inserted count.
    InsertDataError {},
    /// Today's window could not be computed, or the store sent no data for it.
    TodayError {},
    /// Tomorrow's window could not be computed, or the store sent no data for it.
    TomorrowError {},
    /// The next-24-hours window could not be computed, or the store sent no data for it.
    NextError {},
    /// The feed held no parseable calendar.
    CalError {},
    /// No import source has the requested name.
    ImportMissingKey {},
    /// A selected event lacks its start or summary, or its start cannot be shown.
    MissingStart {},
}

impl HcsError {
    /// Short description of the error.
    pub fn describe(&self) -> (r: &'static str)
        ensures
            r@ == match *self {
                HcsError::InsertDataError {  } => "InsertError"@,
                HcsError::TodayError {  } => "TodayError"@,
                HcsError::TomorrowError {  } => "TomorrowError"@,
                HcsError::NextError {  } => "NextError"@,
                HcsError::CalError {  } => "CalError"@,
                HcsError::ImportMissingKey {  } => "ImportMissingKey"@,
                HcsError::MissingStart {  } => "MissingStart"@,
            },
    {
        let r = match self {
            HcsError::InsertDataError {} => "InsertError",
            HcsError::TodayError {} => "TodayError",
            HcsError::TomorrowError {} => "TomorrowError",
            HcsError::NextError {} => "NextError",
            HcsError::CalError {} => "CalError",
            HcsError::ImportMissingKey {} => "ImportMissingKey",
            HcsError::MissingStart {} => "MissingStart",
        };
        r
    }
}

} // verus!
