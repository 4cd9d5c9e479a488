//! Choices that the interpreter makes for its host.
use vstd::prelude::*;

verus! {

/// The name of the render driver that the host's window is drawn with.
pub open spec fn gl_driver_name() -> Seq<char> {
    "opengl"@
}

/// The number of the first render driver named `opengl` among `drivers`,
/// the names of the host's render drivers in the host's order.
pub fn find_sdl_gl_driver(drivers: &Vec<String>) -> (found: Option<u32>)
    requires
        drivers@.len() <= u32::MAX,
    ensures
        match found {
            Some(i) => i < drivers@.len() && drivers@[i as int]@ == gl_driver_name()
                && forall|j: int| 0 <= j < i ==> drivers@[j]@ != gl_driver_name(),
            None => forall|j: int| 0 <= j < drivers@.len() ==> drivers@[j]@ != gl_driver_name(),
        },
{
    let wanted: String = "opengl".to_owned();
    let mut i: usize = 0;
    while i < drivers.len()
        invariant
            i <= drivers@.len() <= u32::MAX,
            wanted@ == gl_driver_name(),
            forall|j: int| 0 <= j < i ==> drivers@[j]@ != gl_driver_name(),
        decreases drivers.len() - i,
    {
        if drivers[i] == wanted {
            return Some(i as u32);
        }
        i += 1;
    }
    None
}

} // verus!
