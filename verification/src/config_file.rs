//! The application's persisted preferences, as plain values. Reading and
//! writing the preferences file is the surrounding application's concern;
//! the rules the preferences express are decided here.

use vstd::prelude::*;

verus! {

/// Developer-facing preferences: the names of settings nodes that displays
/// leave out.
#[derive(Debug, Clone)]
pub struct DevSettings {
    pub exclude_settings: Vec<String>,
}

/// The application's persisted preferences.
#[derive(Debug, Clone)]
pub struct Settings {
    pub dev_settings: DevSettings,
}

/// Whether `name` stands in the exclusion list.
pub open spec fn is_excluded_spec(excluded: Seq<String>, name: Seq<char>) -> bool {
    exists|i: int| 0 <= i < excluded.len() && excluded[i]@ == name
}

impl Default for DevSettings {
    /// Nothing is excluded until the user says so.
    fn default() -> (r: Self)
        ensures
            r.exclude_settings@.len() == 0,
    {
        DevSettings { exclude_settings: Vec::new() }
    }
}

impl Default for Settings {
    /// The default preferences: an empty exclusion list.
    fn default() -> (r: Self)
        ensures
            r.dev_settings.exclude_settings@.len() == 0,
    {
        Settings { dev_settings: DevSettings { exclude_settings: Vec::new() } }
    }
}

impl Settings {
    /// Whether displays leave out the settings node called `name`.
    pub fn is_excluded(&self, name: &String) -> (r: bool)
        ensures
            r == is_excluded_spec(self.dev_settings.exclude_settings@, name@),
    {
        let excluded = &self.dev_settings.exclude_settings;
        let mut i: usize = 0;
        while i < excluded.len()
            invariant
                0 <= i <= excluded@.len(),
                excluded@ == self.dev_settings.exclude_settings@,
                forall|j: int| 0 <= j < i ==> excluded@[j]@ != name@,
            decreases excluded@.len() - i,
        {
            if excluded[i] == *name {
                proof {
                    assert(excluded@[i as int]@ == name@);
                }
                return true;
            }
            i += 1;
        }
        false
    }
}

} // verus!
