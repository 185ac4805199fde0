use vstd::prelude::*;

verus! {

broadcast use vstd::string::to_string_from_display_ensures_for_str;

/// Returns the successor of `x`.
pub fn public_function(x: i32) -> (r: i32)
    requires
        x < i32::MAX,
    ensures
        r == x + 1,
{
    x + 1
}

/// Returns the fixed marker string.
#[allow(dead_code)]
fn private_function() -> (r: &'static str)
    ensures
        r@ == "private"@,
{
    "private"
}

/// A named configuration.
pub struct Config {
    pub name: String,
}

impl Config {
    /// Builds a configuration holding a copy of `name`.
    pub fn new(name: &str) -> (c: Self)
        ensures
            c.name@ == name@,
    {
        Config { name: name.to_string() }
    }
}

} // verus!
