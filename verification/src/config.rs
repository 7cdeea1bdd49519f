use vstd::prelude::*;

verus! {

/// Runtime configuration carried by the application context.
///
/// The only knob today is the debug/release toggle; it is chosen once at
/// boot and never changes afterwards.
#[derive(Clone, Copy, PartialEq, Eq, Structural, Debug)]
pub struct Config {
    pub debug_mode: bool,
}

impl Config {
    /// Constructs a `Config` from the debug toggle chosen at boot.
    pub fn new(debug_mode: bool) -> (c: Config)
        ensures
            c.debug_mode == debug_mode,
    {
        Config { debug_mode }
    }
}

impl Default for Config {
    /// The default configuration runs in release mode.
    fn default() -> (c: Config)
        ensures
            !c.debug_mode,
    {
        Config::new(false)
    }
}

} // verus!
