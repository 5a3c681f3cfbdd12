use vstd::prelude::*;

pub mod config;
pub mod errors;
pub mod globs;
pub mod package_manager;

verus! {

/// The character sequences a vector of strings holds, in order.
pub open spec fn strings_view(v: Seq<String>) -> Seq<Seq<char>> {
    v.map_values(|s: String| s@)
}

} // verus!
