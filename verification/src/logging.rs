use vstd::prelude::*;
use vstd::string::StringExecFns;

verus! {

/// The name of the environment variable that holds the log filter.
pub open spec fn filter_variable() -> Seq<char> {
    "RUST_LOG"@
}

/// The filter to log with where the environment names none.
pub open spec fn default_filter() -> Seq<char> {
    "info"@
}

/// One of the names is the name of the filter variable.
pub open spec fn names_filter(names: Seq<String>) -> bool {
    exists|i: int| 0 <= i < names.len() && (#[trigger] names[i])@ == filter_variable()
}

/// Decides which variable to set before logging starts, given the names of
/// the variables that the environment holds: the filter variable, to the
/// default filter, where it is not among them, and nothing where it is.
pub fn filter_to_set(names: &Vec<String>) -> (setting: Option<(String, String)>)
    ensures
        names_filter(names@) <==> setting is None,
        setting matches Some(pair) ==> pair.0@ == filter_variable() && pair.1@
            == default_filter(),
{
    let variable = String::from_str("RUST_LOG");
    let mut i: usize = 0;
    while i < names.len()
        invariant
            i <= names.len(),
            variable@ == filter_variable(),
            forall|j: int| 0 <= j < i ==> (#[trigger] names@[j])@ != filter_variable(),
        decreases names.len() - i,
    {
        if names[i] == variable {
            return None;
        }
        i += 1;
    }
    Some((variable, String::from_str("info")))
}

} // verus!
