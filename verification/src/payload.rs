//! The id/name payload exchanged with the echo service, and its validation.

use vstd::prelude::*;

verus! {

/// Longest accepted `id`, in characters.
pub const ID_LEN_MAX: usize = 1000000;

/// Longest accepted `name`, in characters.
pub const NAME_LEN_MAX: usize = 100;

/// The record posted to the echo service and returned by it.
#[derive(Debug, Clone, PartialEq)]
pub struct SomeData {
    pub id: String,
    pub name: String,
}

/// Mathematical model of a payload: both fields as character sequences.
#[verifier::ext_equal]
pub ghost struct SomeDataView {
    pub id: Seq<char>,
    pub name: Seq<char>,
}

impl View for SomeData {
    type V = SomeDataView;

    open spec fn view(&self) -> SomeDataView {
        SomeDataView { id: self.id@, name: self.name@ }
    }
}

/// The `id` field must hold between 1 and 1,000,000 characters.
pub open spec fn id_len_ok(id: Seq<char>) -> bool {
    1 <= id.len() && id.len() <= ID_LEN_MAX
}

/// The `name` field must hold between 1 and 100 characters.
pub open spec fn name_len_ok(name: Seq<char>) -> bool {
    1 <= name.len() && name.len() <= NAME_LEN_MAX
}

/// A payload is valid when both fields are within their length bounds.
pub open spec fn payload_valid(p: SomeDataView) -> bool {
    id_len_ok(p.id) && name_len_ok(p.name)
}

/// Which length constraint a payload breaks; `id` is reported first.
#[derive(Debug, Clone, Copy, PartialEq, Eq, Structural)]
pub enum ValidationError {
    IdLength,
    NameLength,
}

/// The error that validation reports for an invalid payload.
pub open spec fn first_validation_error(p: SomeDataView) -> ValidationError
    recommends
        !payload_valid(p),
{
    if !id_len_ok(p.id) {
        ValidationError::IdLength
    } else {
        ValidationError::NameLength
    }
}

impl ValidationError {
    /// A fixed, descriptive message for the broken constraint.
    pub fn message(&self) -> (r: &'static str)
        ensures
            *self == ValidationError::IdLength ==> r@ == "id length must be between 1 and 1000000"@,
            *self == ValidationError::NameLength ==> r@ == "name length must be between 1 and 100"@,
    {
        match self {
            ValidationError::IdLength => "id length must be between 1 and 1000000",
            ValidationError::NameLength => "name length must be between 1 and 100",
        }
    }
}

impl SomeData {
    /// Checks the length bounds on both fields; succeeds exactly on valid
    /// payloads, and reports the first broken constraint otherwise.
    pub fn validate(&self) -> (r: Result<(), ValidationError>)
        ensures
            r is Ok <==> payload_valid(self@),
            !payload_valid(self@) ==> r == Result::<(), ValidationError>::Err(
                first_validation_error(self@),
            ),
    {
        let id_len = self.id.as_str().unicode_len();
        if id_len < 1 || id_len > ID_LEN_MAX {
            return Err(ValidationError::IdLength);
        }
        let name_len = self.name.as_str().unicode_len();
        if name_len < 1 || name_len > NAME_LEN_MAX {
            return Err(ValidationError::NameLength);
        }
        Ok(())
    }
}

} // verus!
