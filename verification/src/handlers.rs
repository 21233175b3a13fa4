//! The envelope of a successful answer.

use vstd::prelude::*;

verus! {

/// A successful answer. It is sent as an object with the status `success`
/// and the payload under the key `data`.
#[derive(Debug)]
pub struct SuccessResponse<T> {
    pub data: T,
}

impl<T> SuccessResponse<T> {
    /// The status that every successful answer carries.
    pub fn status(&self) -> (text: &'static str)
        ensures
            text@ == "success"@,
    {
        "success"
    }

    /// The payload.
    pub fn into_data(self) -> (data: T)
        ensures
            data == self.data,
    {
        self.data
    }
}

} // verus!
