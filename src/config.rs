//! The defaults of the settings a configuration file may give.
use vstd::prelude::*;

verus! {

/// The base revision a diff is taken against.
pub fn default_base() -> (r: String)
    ensures
        r@ == "origin/main"@,
{
    "origin/main".to_string()
}

/// The report format.
pub fn default_format() -> (r: String)
    ensures
        r@ == "human"@,
{
    "human".to_string()
}

/// The glob patterns of the files a snapshot scans.
pub fn default_include() -> (r: Vec<String>)
    ensures
        r@.len() == 1,
        r@[0]@ == "**/*"@,
{
    let mut v: Vec<String> = Vec::new();
    v.push("**/*".to_string());
    v
}

/// The glob patterns of the files a snapshot leaves out.
pub fn default_exclude() -> (r: Vec<String>)
    ensures
        r@.len() == 5,
        r@[0]@ == "**/*.lock"@,
        r@[1]@ == "dist/**"@,
        r@[2]@ == "target/**"@,
        r@[3]@ == "node_modules/**"@,
        r@[4]@ == ".git/**"@,
{
    let mut v: Vec<String> = Vec::new();
    v.push("**/*.lock".to_string());
    v.push("dist/**".to_string());
    v.push("target/**".to_string());
    v.push("node_modules/**".to_string());
    v.push(".git/**".to_string());
    v
}

} // verus!
