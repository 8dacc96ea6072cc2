mod applicability;
mod controller;
mod policy;
mod processor;
pub mod properties;
mod reduce;
mod registry;
mod restore;
mod scheduler;

pub use reduce::{
    activity_event_applies, activity_edges, add_applies, added_core, added_view, append_activity_state,
    completed_with, core_has, core_index, cores_of, dep_edges, dependency_edges, dependency_met,
    deps_met, edges_upto, errored_with, event_applies, failed_with, failure_of, get_execution_status,
    graph_fits, graph_matches, pending_sync, rebuilds_graph, reduce, reduce_activity_view,
    reduce_view, ReduceState, refresh_all, refresh_to, refreshed, rewrites, closed_by, started_by, keeps_runs,
    running_target, self_dependent, started, update,
    update_graph,
};
pub use restore::{lemma_log_applies_prefix, log_applies, restore, restore_view};
pub use scheduler::{first_runnable, none_runnable, scheduler};
pub use policy::{apply_policy, retry_allowed};
pub use controller::{
    lemma_open_count_close, lemma_open_count_same, lemma_refresh_keeps_open, open_count,
    prior_output, resolve_prior_output, scheduling_done, Controller,
};
pub use registry::{is_registered, lemma_registered_at_unique, lookup, registered_at, Registry};
pub use processor::{error_event, outcome_event, process, process_result, processed, value_or_null};
pub use applicability::{applies, core_views, log_is_valid};
