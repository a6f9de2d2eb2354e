//! The plain data the level-server client works with: the difficulty filter
//! codes of the search endpoint, and a found course. The network client
//! itself lives with the callers, outside this library.

use vstd::prelude::*;

verus! {

pub enum Difficulty {
    Easy,
    Normal,
    Expert,
    SuperExpert,
}

impl Difficulty {
    /// The code the search endpoint expects for this difficulty.
    pub open spec fn api_code(&self) -> Seq<char> {
        match self {
            Difficulty::Easy => "e"@,
            Difficulty::Normal => "n"@,
            Difficulty::Expert => "ex"@,
            Difficulty::SuperExpert => "sex"@,
        }
    }

    pub fn api_str(&self) -> (r: &'static str)
        ensures
            r@ == self.api_code(),
    {
        match self {
            Difficulty::Easy => "e",
            Difficulty::Normal => "n",
            Difficulty::Expert => "ex",
            Difficulty::SuperExpert => "sex",
        }
    }
}

/// A course as the search endpoint describes it.
pub struct Course {
    pub name: String,
    pub description: String,
    pub course_id: String,
}

} // verus!
