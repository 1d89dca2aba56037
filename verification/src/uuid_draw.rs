use vstd::prelude::*;

use crate::files::is_lower_hex_digit;

verus! {

/// A UUID drawn from the uuid crate's random source, in its simple rendering.
/// Only `random_uuid_simple` makes one, so a value of this type is always a
/// fresh draw and never a text chosen by its user.
pub struct DrawnUuid {
    text: String,
}

impl DrawnUuid {
    /// The 32 characters of the drawn UUID.
    pub closed spec fn text(self) -> Seq<char> {
        self.text@
    }

    /// The drawn UUID as text.
    pub fn as_str(&self) -> (s: &str)
        ensures
            s@ == self.text(),
    {
        self.text.as_str()
    }
}

/// `uuid::Uuid::new_v4()` rendered with `.simple().to_string()`.
/// Trusted: the value is random; stated is only what the uuid crate's `Simple`
/// formatter always produces, 32 lower-case hexadecimal digits.
#[verifier::external_body]
pub(crate) fn random_uuid_simple() -> (u: DrawnUuid)
    ensures
        u.text().len() == 32,
        forall|i: int| 0 <= i < 32 ==> is_lower_hex_digit(#[trigger] u.text()[i]),
{
    DrawnUuid { text: uuid::Uuid::new_v4().simple().to_string() }
}

} // verus!
