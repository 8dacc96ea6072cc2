mod activity_core;
mod events;
mod model;

pub use activity_core::{clone_opt_value, ActivityCore, ActivityId, ActivityKind, CoreView};
pub use events::{ActivityEvent, AddActivityPayload, CompletePayload, FailurePayload};
pub use model::{
    activity_view, deref_opt, start_time, views, Activity, ActivityState, ActivityView, AsyncActivity, AsyncCompleted,
    AsyncError, AsyncFailed, AsyncReady, AsyncRunning, CompletedActivity, FailedActivity, Failure,
    Phase, RanActivity, SyncActivity, SyncCompleted, SyncError, SyncFailed, SyncNew, SyncReady,
    SyncRunning,
};
