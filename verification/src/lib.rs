use vstd::prelude::*;

pub mod app_context;
pub mod config;
pub mod routes_config;
pub mod tasks_controller;
pub mod errors;
pub mod format;

verus! {

/// Application result alias: handlers return either a formatted response or
/// an [`errors::Error`] that the response mapper later downgrades.
pub type Result<T, E = crate::errors::Error> = core::result::Result<T, E>;

/// The application's whole route tree: every route group of the service,
/// composed once at boot for compilation against the shared context.
pub fn routes<D, C>(_ctx: &crate::app_context::AppContext<D, C>) -> (r:
    crate::routes_config::AppRoutes<crate::tasks_controller::TaskAction>)
    ensures
        r.prefix is None,
        r.routes@.len() == 1,
        crate::tasks_controller::is_task_group(r.routes@[0]),
{
    crate::routes_config::AppRoutes::with_default_routes().add_route(
        crate::tasks_controller::routes(),
    )
}

} // verus!
