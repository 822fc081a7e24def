//! The desktop system the program runs on, for what differs between them.
use vstd::prelude::*;

verus! {

/// The systems the program is built for.
#[derive(PartialEq, Eq, Structural, Clone, Copy, Debug)]
pub enum Platform {
    Linux,
    Windows,
    MacOs,
}

} // verus!
