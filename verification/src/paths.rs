use vstd::prelude::*;
use vstd::string::StringExecFns;

verus! {

/// An owned copy of a string slice.
pub fn owned(s: &str) -> (res: String)
    ensures
        res@ == s@,
{
    String::from_str(s)
}

/// The directory that holds the game's resources, below the application's
/// root directory.
pub open spec fn spec_resources_dir(root: Seq<char>) -> Seq<char> {
    root + "/"@ + "resources"@
}

/// The path of a resource file, below the resources directory.
pub open spec fn spec_resource(root: Seq<char>, path: Seq<char>) -> Seq<char> {
    spec_resources_dir(root) + "/"@ + path
}

/// The resources directory below the application root `root`.
pub fn resources_dir(root: &str) -> (res: String)
    ensures
        res@ == spec_resources_dir(root@),
{
    let mut s = String::from_str(root);
    s.append("/");
    s.append("resources");
    s
}

/// The path of the resource `path`, for the application root `root`.
pub fn resource(root: &str, path: &str) -> (res: String)
    ensures
        res@ == spec_resource(root@, path@),
{
    let mut s = resources_dir(root);
    s.append("/");
    s.append(path);
    s
}

} // verus!
