use vstd::prelude::*;

verus! {

/// The two values that a search needs from its caller.
#[derive(Debug, Clone)]
pub struct Args {
    /// Name, or part of a name, of the projects to look for.
    pub project_name: String,
    /// Private access token; it is put into one request header and nowhere
    /// else.
    pub private_token: String,
}

} // verus!
