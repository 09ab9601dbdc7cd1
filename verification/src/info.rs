//! Two small facts a host can ask of the library.

use vstd::prelude::*;

verus! {

/// The library's greeting.
pub fn hello_from_rust() -> (greeting: String)
    ensures
        greeting@ == "Hello from Rust! ðŸ¦€"@,
{
    String::from_str("Hello from Rust! ðŸ¦€")
}

/// The sentence that names the architecture the program runs on, which the
/// caller supplies as `arch`.
pub fn get_system_info(arch: &str) -> (info: String)
    ensures
        info@ == "Running on "@ + arch@ + " architecture"@,
{
    let mut info = String::from_str("Running on ");
    info.append(arch);
    info.append(" architecture");
    info
}

} // verus!
