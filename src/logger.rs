use vstd::prelude::*;

verus! {

/// The console sink for the library's operation events. The binding to a
/// logging facade lives with the program that installs it.
#[derive(Debug, Clone, Copy, PartialEq, Eq, Structural)]
pub struct ConsoleLogger;

} // verus!
