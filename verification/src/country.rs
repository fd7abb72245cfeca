//! The countries whose calendars the service keeps.

use vstd::prelude::*;
use vstd::string::*;

verus! {

/// A country that the service knows.
#[derive(Debug, Clone, Copy, PartialEq, Eq, Structural)]
pub enum Country {
    Ru,
    Kz,
}

impl Country {
    /// The name by which the service knows the country: that of the variant.
    pub open spec fn name_view(&self) -> Seq<char> {
        match self {
            Country::Ru => seq!['R', 'u'],
            Country::Kz => seq!['K', 'z'],
        }
    }

    /// The name by which the service knows the country, as it stands in the
    /// address of a request.
    pub fn name(&self) -> (name: String)
        ensures
            name@ == self.name_view(),
    {
        proof {
            reveal_strlit("Ru");
            reveal_strlit("Kz");
        }
        let name = match self {
            Country::Ru => String::from_str("Ru"),
            Country::Kz => String::from_str("Kz"),
        };
        assert(name@ =~= self.name_view());
        name
    }
}

} // verus!
