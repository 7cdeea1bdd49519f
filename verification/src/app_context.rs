use vstd::prelude::*;

use crate::config::Config;

verus! {

/// Shared, read-mostly bundle of resources handed to every request handler.
///
/// The persistence and cache handles are opaque to this crate's logic: they
/// are owned collaborators whose concrete types the embedding program picks.
/// The context itself is immutable after construction; only the handles'
/// own APIs perform mutation.
pub struct AppContext<D, C> {
    pub db: D,
    pub cache: C,
    pub config: Config,
}

impl<D, C> AppContext<D, C> {
    /// Bundles the persistence and cache handles with a freshly constructed
    /// configuration.
    pub fn new(db: D, cache: C, debug_mode: bool) -> (ctx: Self)
        ensures
            ctx.db == db,
            ctx.cache == cache,
            ctx.config.debug_mode == debug_mode,
    {
        AppContext { db, cache, config: Config::new(debug_mode) }
    }
}

} // verus!
