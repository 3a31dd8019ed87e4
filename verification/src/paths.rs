//! Where the registry and the completion script of a user live.

use vstd::prelude::*;

verus! {

/// The hidden directory of `user` that holds the registry.
pub open spec fn directory_of(user: Seq<char>) -> Seq<char> {
    "/home/"@ + user + "/.cli"@
}

/// The hidden directory of `user` that holds the registry and the
/// completion script.
pub fn get_directory(user: &str) -> (path: String)
    ensures
        path@ == directory_of(user@),
{
    "/home/".to_owned().concat(user).concat("/.cli")
}

/// The registry file of `user`.
pub fn get_path(user: &str) -> (path: String)
    ensures
        path@ == directory_of(user@) + "/services.json"@,
{
    get_directory(user).concat("/services.json")
}

/// The shell completion script of `user`.
pub fn get_completion_path(user: &str) -> (path: String)
    ensures
        path@ == directory_of(user@) + "/bash_completion.sh"@,
{
    get_directory(user).concat("/bash_completion.sh")
}

} // verus!
