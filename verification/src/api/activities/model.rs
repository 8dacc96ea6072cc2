use crate::api::activities::{ActivityCore, CoreView};
use crate::clock::{utc_now, Timestamp};
use crate::text::opt_strings_view;
use serde_json::Value;
use vstd::prelude::*;
use vstd::std_specs::convert::FromSpecImpl;

verus! {

// --- Shared composites ---

#[derive(Clone, Debug)]
pub struct RanActivity {
    pub started_at: Timestamp,
    pub input: Option<Value>,
}

#[derive(Clone, Debug)]
pub struct CompletedActivity {
    pub ran: RanActivity,
    pub output: Option<Value>,
}

pub type Failure = Option<Vec<String>>;

#[derive(Clone, Debug)]
pub struct FailedActivity {
    pub ran: RanActivity,
    pub failure: Failure,
}

// ============================================================
// SyncActivity typestate structs
// ============================================================

#[derive(Clone, Debug)]
pub struct SyncNew {
    pub core: ActivityCore,
}

#[derive(Clone, Debug)]
pub struct SyncReady {
    pub core: ActivityCore,
    pub input: Option<Value>,
}

#[derive(Clone, Debug)]
pub struct SyncRunning {
    pub core: ActivityCore,
    pub ran: RanActivity,
}

#[derive(Clone, Debug)]
pub struct SyncCompleted {
    pub core: ActivityCore,
    pub completed: CompletedActivity,
}

#[derive(Clone, Debug)]
pub struct SyncFailed {
    pub core: ActivityCore,
    pub failed: FailedActivity,
}

#[derive(Clone, Debug)]
pub struct SyncError {
    pub core: ActivityCore,
    pub failed: FailedActivity,
}

// --- Creators ---

impl SyncNew {
    pub fn new(core: ActivityCore) -> (r: Self)
        ensures
            r.core == core,
    {
        SyncNew { core }
    }
}

// --- Transitions ---

impl SyncNew {
    pub fn make_ready(self, input: Option<Value>) -> (r: SyncReady)
        ensures
            r.core == self.core,
            r.input == input,
    {
        SyncReady { core: self.core, input }
    }
}

impl SyncReady {
    /// Starts the activity now; the start time is read from the clock.
    pub fn start(self) -> (r: SyncRunning)
        ensures
            r.core == self.core,
            r.ran.input == self.input,
    {
        SyncRunning { core: self.core, ran: RanActivity { started_at: utc_now(), input: self.input } }
    }
}

impl SyncRunning {
    pub fn complete(self, output: Option<Value>) -> (r: SyncCompleted)
        ensures
            r.core == self.core,
            r.completed.ran == self.ran,
            r.completed.output == output,
    {
        SyncCompleted { core: self.core, completed: CompletedActivity { ran: self.ran, output } }
    }

    pub fn fail(self, failure: Failure) -> (r: SyncFailed)
        ensures
            r.core == self.core,
            r.failed.ran == self.ran,
            r.failed.failure == failure,
    {
        SyncFailed { core: self.core, failed: FailedActivity { ran: self.ran, failure } }
    }

    pub fn error(self, failure: Failure) -> (r: SyncError)
        ensures
            r.core == self.core,
            r.failed.ran == self.ran,
            r.failed.failure == failure,
    {
        SyncError { core: self.core, failed: FailedActivity { ran: self.ran, failure } }
    }
}

// ============================================================
// AsyncActivity typestate structs
// ============================================================

#[derive(Clone, Debug)]
pub struct AsyncReady {
    pub core: ActivityCore,
}

#[derive(Clone, Debug)]
pub struct AsyncRunning {
    pub core: ActivityCore,
    pub ran: RanActivity,
}

#[derive(Clone, Debug)]
pub struct AsyncCompleted {
    pub core: ActivityCore,
    pub completed: CompletedActivity,
}

#[derive(Clone, Debug)]
pub struct AsyncFailed {
    pub core: ActivityCore,
    pub failed: FailedActivity,
}

#[derive(Clone, Debug)]
pub struct AsyncError {
    pub core: ActivityCore,
    pub failed: FailedActivity,
}

// --- Creators ---

impl AsyncReady {
    pub fn new(core: ActivityCore) -> (r: Self)
        ensures
            r.core == core,
    {
        AsyncReady { core }
    }
}

// --- Transitions ---

impl AsyncReady {
    /// Starts the activity now with the given input; the start time is read from the clock.
    pub fn start(self, input: Option<Value>) -> (r: AsyncRunning)
        ensures
            r.core == self.core,
            r.ran.input == input,
    {
        AsyncRunning { core: self.core, ran: RanActivity { started_at: utc_now(), input } }
    }
}

impl AsyncRunning {
    pub fn complete(self, output: Option<Value>) -> (r: AsyncCompleted)
        ensures
            r.core == self.core,
            r.completed.ran == self.ran,
            r.completed.output == output,
    {
        AsyncCompleted { core: self.core, completed: CompletedActivity { ran: self.ran, output } }
    }

    pub fn fail(self, failure: Failure) -> (r: AsyncFailed)
        ensures
            r.core == self.core,
            r.failed.ran == self.ran,
            r.failed.failure == failure,
    {
        AsyncFailed { core: self.core, failed: FailedActivity { ran: self.ran, failure } }
    }

    pub fn error(self, failure: Failure) -> (r: AsyncError)
        ensures
            r.core == self.core,
            r.failed.ran == self.ran,
            r.failed.failure == failure,
    {
        AsyncError { core: self.core, failed: FailedActivity { ran: self.ran, failure } }
    }
}

// ============================================================
// Activity enums — for when you need to hold any activity dynamically
// ============================================================

#[derive(Clone, Debug)]
pub enum SyncActivity {
    New(SyncNew),
    UnfulfilledDependencies(SyncNew),
    Ready(SyncReady),
    Running(SyncRunning),
    Completed(SyncCompleted),
    Failed(SyncFailed),
    Error(SyncError),
}

#[derive(Clone, Debug)]
pub enum AsyncActivity {
    Ready(AsyncReady),
    Running(AsyncRunning),
    Completed(AsyncCompleted),
    Failed(AsyncFailed),
    Error(AsyncError),
}

#[derive(Clone, Debug)]
pub enum Activity {
    Sync(SyncActivity),
    Async(AsyncActivity),
}

// ============================================================
// The abstract view of an activity
// ============================================================

/// Where an activity stands in its life.
pub enum Phase {
    New,
    UnfulfilledDependencies,
    Ready,
    Running,
    Completed,
    Failed,
    Error,
}

/// An activity as mathematical values: its kind of execution, phase, core, the
/// input it was given, its output once completed and its failure once failed or
/// errored. The start time, read from the clock, is left out of the view and
/// read with `start_time`.
pub struct ActivityView {
    pub is_async: bool,
    pub phase: Phase,
    pub core: CoreView,
    pub input: Option<Value>,
    pub output: Option<Value>,
    pub failure: Option<Seq<Seq<char>>>,
}

/// The view of an activity with the given fields.
pub open spec fn activity_view(
    is_async: bool,
    phase: Phase,
    core: ActivityCore,
    input: Option<Value>,
    output: Option<Value>,
    failure: Failure,
) -> ActivityView {
    ActivityView { is_async, phase, core: core@, input, output, failure: opt_strings_view(failure) }
}

impl View for Activity {
    type V = ActivityView;

    open spec fn view(&self) -> ActivityView {
        match self {
            Activity::Sync(s) => match s {
                SyncActivity::New(n) => activity_view(false, Phase::New, n.core, None, None, None),
                SyncActivity::UnfulfilledDependencies(n) => activity_view(
                    false,
                    Phase::UnfulfilledDependencies,
                    n.core,
                    None,
                    None,
                    None,
                ),
                SyncActivity::Ready(r) => activity_view(false, Phase::Ready, r.core, r.input, None, None),
                SyncActivity::Running(r) => activity_view(
                    false,
                    Phase::Running,
                    r.core,
                    r.ran.input,
                    None,
                    None,
                ),
                SyncActivity::Completed(c) => activity_view(
                    false,
                    Phase::Completed,
                    c.core,
                    c.completed.ran.input,
                    c.completed.output,
                    None,
                ),
                SyncActivity::Failed(f) => activity_view(
                    false,
                    Phase::Failed,
                    f.core,
                    f.failed.ran.input,
                    None,
                    f.failed.failure,
                ),
                SyncActivity::Error(f) => activity_view(
                    false,
                    Phase::Error,
                    f.core,
                    f.failed.ran.input,
                    None,
                    f.failed.failure,
                ),
            },
            Activity::Async(a) => match a {
                AsyncActivity::Ready(r) => activity_view(true, Phase::Ready, r.core, None, None, None),
                AsyncActivity::Running(r) => activity_view(
                    true,
                    Phase::Running,
                    r.core,
                    r.ran.input,
                    None,
                    None,
                ),
                AsyncActivity::Completed(c) => activity_view(
                    true,
                    Phase::Completed,
                    c.core,
                    c.completed.ran.input,
                    c.completed.output,
                    None,
                ),
                AsyncActivity::Failed(f) => activity_view(
                    true,
                    Phase::Failed,
                    f.core,
                    f.failed.ran.input,
                    None,
                    f.failed.failure,
                ),
                AsyncActivity::Error(f) => activity_view(
                    true,
                    Phase::Error,
                    f.core,
                    f.failed.ran.input,
                    None,
                    f.failed.failure,
                ),
            },
        }
    }
}

impl ActivityView {
    /// Completed, failed or errored: nothing more happens to it.
    pub open spec fn closed(self) -> bool {
        self.phase is Completed || self.phase is Failed || self.phase is Error
    }

    /// May be started: a ready synchronous activity, or an asynchronous one that is
    /// ready or running.
    pub open spec fn runnable(self) -> bool {
        if self.is_async {
            self.phase is Ready || self.phase is Running
        } else {
            self.phase is Ready
        }
    }

    pub open spec fn completed(self) -> bool {
        self.phase is Completed
    }

    pub open spec fn failed(self) -> bool {
        self.phase is Failed
    }

    pub open spec fn errored(self) -> bool {
        self.phase is Error
    }
}

/// When the activity was started: the start time kept with its run, from the
/// moment it starts running; none before.
pub open spec fn start_time(a: Activity) -> Option<Timestamp> {
    match a {
        Activity::Sync(s) => match s {
            SyncActivity::Running(r) => Some(r.ran.started_at),
            SyncActivity::Completed(c) => Some(c.completed.ran.started_at),
            SyncActivity::Failed(f) => Some(f.failed.ran.started_at),
            SyncActivity::Error(f) => Some(f.failed.ran.started_at),
            _ => None,
        },
        Activity::Async(s) => match s {
            AsyncActivity::Running(r) => Some(r.ran.started_at),
            AsyncActivity::Completed(c) => Some(c.completed.ran.started_at),
            AsyncActivity::Failed(f) => Some(f.failed.ran.started_at),
            AsyncActivity::Error(f) => Some(f.failed.ran.started_at),
            _ => None,
        },
    }
}

/// The views of a sequence of activities.
pub open spec fn views(v: Seq<Activity>) -> Seq<ActivityView> {
    v.map_values(|a: Activity| a@)
}

/// The value behind an optional reference.
pub open spec fn deref_opt<T>(o: Option<&T>) -> Option<T> {
    match o {
        Some(v) => Some(*v),
        None => None,
    }
}

// ============================================================
// Shared accessor trait
// ============================================================

pub trait ActivityState {
    fn get_core(&self) -> &ActivityCore;

    fn input(&self) -> Option<&Value>;
}

impl ActivityState for SyncNew {
    fn get_core(&self) -> (r: &ActivityCore)
        ensures
            *r == self.core,
    {
        &self.core
    }

    fn input(&self) -> (r: Option<&Value>)
        ensures
            r is None,
    {
        None
    }
}

impl ActivityState for SyncReady {
    fn get_core(&self) -> (r: &ActivityCore)
        ensures
            *r == self.core,
    {
        &self.core
    }

    fn input(&self) -> (r: Option<&Value>)
        ensures
            deref_opt(r) == self.input,
    {
        self.input.as_ref()
    }
}

impl ActivityState for SyncRunning {
    fn get_core(&self) -> (r: &ActivityCore)
        ensures
            *r == self.core,
    {
        &self.core
    }

    fn input(&self) -> (r: Option<&Value>)
        ensures
            deref_opt(r) == self.ran.input,
    {
        self.ran.input.as_ref()
    }
}

impl ActivityState for SyncCompleted {
    fn get_core(&self) -> (r: &ActivityCore)
        ensures
            *r == self.core,
    {
        &self.core
    }

    fn input(&self) -> (r: Option<&Value>)
        ensures
            deref_opt(r) == self.completed.ran.input,
    {
        self.completed.ran.input.as_ref()
    }
}

impl ActivityState for SyncFailed {
    fn get_core(&self) -> (r: &ActivityCore)
        ensures
            *r == self.core,
    {
        &self.core
    }

    fn input(&self) -> (r: Option<&Value>)
        ensures
            deref_opt(r) == self.failed.ran.input,
    {
        self.failed.ran.input.as_ref()
    }
}

impl ActivityState for SyncError {
    fn get_core(&self) -> (r: &ActivityCore)
        ensures
            *r == self.core,
    {
        &self.core
    }

    fn input(&self) -> (r: Option<&Value>)
        ensures
            deref_opt(r) == self.failed.ran.input,
    {
        self.failed.ran.input.as_ref()
    }
}

impl ActivityState for AsyncReady {
    fn get_core(&self) -> (r: &ActivityCore)
        ensures
            *r == self.core,
    {
        &self.core
    }

    fn input(&self) -> (r: Option<&Value>)
        ensures
            r is None,
    {
        None
    }
}

impl ActivityState for AsyncRunning {
    fn get_core(&self) -> (r: &ActivityCore)
        ensures
            *r == self.core,
    {
        &self.core
    }

    fn input(&self) -> (r: Option<&Value>)
        ensures
            deref_opt(r) == self.ran.input,
    {
        self.ran.input.as_ref()
    }
}

impl ActivityState for AsyncCompleted {
    fn get_core(&self) -> (r: &ActivityCore)
        ensures
            *r == self.core,
    {
        &self.core
    }

    fn input(&self) -> (r: Option<&Value>)
        ensures
            deref_opt(r) == self.completed.ran.input,
    {
        self.completed.ran.input.as_ref()
    }
}

impl ActivityState for AsyncFailed {
    fn get_core(&self) -> (r: &ActivityCore)
        ensures
            *r == self.core,
    {
        &self.core
    }

    fn input(&self) -> (r: Option<&Value>)
        ensures
            deref_opt(r) == self.failed.ran.input,
    {
        self.failed.ran.input.as_ref()
    }
}

impl ActivityState for AsyncError {
    fn get_core(&self) -> (r: &ActivityCore)
        ensures
            *r == self.core,
    {
        &self.core
    }

    fn input(&self) -> (r: Option<&Value>)
        ensures
            deref_opt(r) == self.failed.ran.input,
    {
        self.failed.ran.input.as_ref()
    }
}

impl ActivityState for SyncActivity {
    fn get_core(&self) -> (r: &ActivityCore)
        ensures
            r@ == Activity::Sync(*self)@.core,
    {
        match self {
            SyncActivity::New(s) => s.get_core(),
            SyncActivity::UnfulfilledDependencies(s) => s.get_core(),
            SyncActivity::Ready(s) => s.get_core(),
            SyncActivity::Running(s) => s.get_core(),
            SyncActivity::Completed(s) => s.get_core(),
            SyncActivity::Failed(s) => s.get_core(),
            SyncActivity::Error(s) => s.get_core(),
        }
    }

    fn input(&self) -> (r: Option<&Value>)
        ensures
            deref_opt(r) == Activity::Sync(*self)@.input,
    {
        match self {
            SyncActivity::New(s) => s.input(),
            SyncActivity::UnfulfilledDependencies(s) => s.input(),
            SyncActivity::Ready(s) => s.input(),
            SyncActivity::Running(s) => s.input(),
            SyncActivity::Completed(s) => s.input(),
            SyncActivity::Failed(s) => s.input(),
            SyncActivity::Error(s) => s.input(),
        }
    }
}

impl ActivityState for AsyncActivity {
    fn get_core(&self) -> (r: &ActivityCore)
        ensures
            r@ == Activity::Async(*self)@.core,
    {
        match self {
            AsyncActivity::Ready(s) => s.get_core(),
            AsyncActivity::Running(s) => s.get_core(),
            AsyncActivity::Completed(s) => s.get_core(),
            AsyncActivity::Failed(s) => s.get_core(),
            AsyncActivity::Error(s) => s.get_core(),
        }
    }

    fn input(&self) -> (r: Option<&Value>)
        ensures
            deref_opt(r) == Activity::Async(*self)@.input,
    {
        match self {
            AsyncActivity::Ready(s) => s.input(),
            AsyncActivity::Running(s) => s.input(),
            AsyncActivity::Completed(s) => s.input(),
            AsyncActivity::Failed(s) => s.input(),
            AsyncActivity::Error(s) => s.input(),
        }
    }
}

// --- Activity enum convenience methods ---

impl Activity {
    pub fn get_core(&self) -> (r: &ActivityCore)
        ensures
            r@ == self@.core,
    {
        match self {
            Activity::Sync(s) => s.get_core(),
            Activity::Async(a) => a.get_core(),
        }
    }

    pub fn id(&self) -> (r: &str)
        ensures
            r@ == self@.core.id,
    {
        self.get_core().id.as_str()
    }

    pub fn kind(&self) -> (r: &str)
        ensures
            r@ == self@.core.kind,
    {
        self.get_core().kind.as_str()
    }

    pub fn config(&self) -> (r: Option<&Value>)
        ensures
            deref_opt(r) == self@.core.config,
    {
        self.get_core().config.as_ref()
    }

    pub fn input(&self) -> (r: Option<&Value>)
        ensures
            deref_opt(r) == self@.input,
    {
        match self {
            Activity::Sync(s) => s.input(),
            Activity::Async(a) => a.input(),
        }
    }

    pub fn is_closed(&self) -> (r: bool)
        ensures
            r == self@.closed(),
    {
        match self {
            Activity::Sync(SyncActivity::Completed(_)) => true,
            Activity::Sync(SyncActivity::Failed(_)) => true,
            Activity::Sync(SyncActivity::Error(_)) => true,
            Activity::Async(AsyncActivity::Completed(_)) => true,
            Activity::Async(AsyncActivity::Failed(_)) => true,
            Activity::Async(AsyncActivity::Error(_)) => true,
            _ => false,
        }
    }

    pub fn is_runnable(&self) -> (r: bool)
        ensures
            r == self@.runnable(),
    {
        match self {
            Activity::Sync(SyncActivity::Ready(_)) => true,
            Activity::Async(AsyncActivity::Ready(_)) => true,
            Activity::Async(AsyncActivity::Running(_)) => true,
            _ => false,
        }
    }

    pub fn is_completed(&self) -> (r: bool)
        ensures
            r == self@.completed(),
    {
        match self {
            Activity::Sync(SyncActivity::Completed(_)) => true,
            Activity::Async(AsyncActivity::Completed(_)) => true,
            _ => false,
        }
    }

    pub fn is_failed(&self) -> (r: bool)
        ensures
            r == self@.failed(),
    {
        match self {
            Activity::Sync(SyncActivity::Failed(_)) => true,
            Activity::Async(AsyncActivity::Failed(_)) => true,
            _ => false,
        }
    }

    pub fn is_error(&self) -> (r: bool)
        ensures
            r == self@.errored(),
    {
        match self {
            Activity::Sync(SyncActivity::Error(_)) => true,
            Activity::Async(AsyncActivity::Error(_)) => true,
            _ => false,
        }
    }
}

// --- From impls for ergonomic wrapping ---

impl From<SyncNew> for SyncActivity {
    fn from(s: SyncNew) -> (r: Self) {
        SyncActivity::New(s)
    }
}

impl FromSpecImpl<SyncNew> for SyncActivity {
    open spec fn obeys_from_spec() -> bool {
        true
    }

    open spec fn from_spec(s: SyncNew) -> Self {
        SyncActivity::New(s)
    }
}

impl From<SyncReady> for SyncActivity {
    fn from(s: SyncReady) -> (r: Self) {
        SyncActivity::Ready(s)
    }
}

impl FromSpecImpl<SyncReady> for SyncActivity {
    open spec fn obeys_from_spec() -> bool {
        true
    }

    open spec fn from_spec(s: SyncReady) -> Self {
        SyncActivity::Ready(s)
    }
}

impl From<SyncRunning> for SyncActivity {
    fn from(s: SyncRunning) -> (r: Self) {
        SyncActivity::Running(s)
    }
}

impl FromSpecImpl<SyncRunning> for SyncActivity {
    open spec fn obeys_from_spec() -> bool {
        true
    }

    open spec fn from_spec(s: SyncRunning) -> Self {
        SyncActivity::Running(s)
    }
}

impl From<SyncCompleted> for SyncActivity {
    fn from(s: SyncCompleted) -> (r: Self) {
        SyncActivity::Completed(s)
    }
}

impl FromSpecImpl<SyncCompleted> for SyncActivity {
    open spec fn obeys_from_spec() -> bool {
        true
    }

    open spec fn from_spec(s: SyncCompleted) -> Self {
        SyncActivity::Completed(s)
    }
}

impl From<SyncFailed> for SyncActivity {
    fn from(s: SyncFailed) -> (r: Self) {
        SyncActivity::Failed(s)
    }
}

impl FromSpecImpl<SyncFailed> for SyncActivity {
    open spec fn obeys_from_spec() -> bool {
        true
    }

    open spec fn from_spec(s: SyncFailed) -> Self {
        SyncActivity::Failed(s)
    }
}

impl From<SyncError> for SyncActivity {
    fn from(s: SyncError) -> (r: Self) {
        SyncActivity::Error(s)
    }
}

impl FromSpecImpl<SyncError> for SyncActivity {
    open spec fn obeys_from_spec() -> bool {
        true
    }

    open spec fn from_spec(s: SyncError) -> Self {
        SyncActivity::Error(s)
    }
}

impl From<AsyncReady> for AsyncActivity {
    fn from(s: AsyncReady) -> (r: Self) {
        AsyncActivity::Ready(s)
    }
}

impl FromSpecImpl<AsyncReady> for AsyncActivity {
    open spec fn obeys_from_spec() -> bool {
        true
    }

    open spec fn from_spec(s: AsyncReady) -> Self {
        AsyncActivity::Ready(s)
    }
}

impl From<AsyncRunning> for AsyncActivity {
    fn from(s: AsyncRunning) -> (r: Self) {
        AsyncActivity::Running(s)
    }
}

impl FromSpecImpl<AsyncRunning> for AsyncActivity {
    open spec fn obeys_from_spec() -> bool {
        true
    }

    open spec fn from_spec(s: AsyncRunning) -> Self {
        AsyncActivity::Running(s)
    }
}

impl From<AsyncCompleted> for AsyncActivity {
    fn from(s: AsyncCompleted) -> (r: Self) {
        AsyncActivity::Completed(s)
    }
}

impl FromSpecImpl<AsyncCompleted> for AsyncActivity {
    open spec fn obeys_from_spec() -> bool {
        true
    }

    open spec fn from_spec(s: AsyncCompleted) -> Self {
        AsyncActivity::Completed(s)
    }
}

impl From<AsyncFailed> for AsyncActivity {
    fn from(s: AsyncFailed) -> (r: Self) {
        AsyncActivity::Failed(s)
    }
}

impl FromSpecImpl<AsyncFailed> for AsyncActivity {
    open spec fn obeys_from_spec() -> bool {
        true
    }

    open spec fn from_spec(s: AsyncFailed) -> Self {
        AsyncActivity::Failed(s)
    }
}

impl From<AsyncError> for AsyncActivity {
    fn from(s: AsyncError) -> (r: Self) {
        AsyncActivity::Error(s)
    }
}

impl FromSpecImpl<AsyncError> for AsyncActivity {
    open spec fn obeys_from_spec() -> bool {
        true
    }

    open spec fn from_spec(s: AsyncError) -> Self {
        AsyncActivity::Error(s)
    }
}

impl From<SyncActivity> for Activity {
    fn from(s: SyncActivity) -> (r: Self) {
        Activity::Sync(s)
    }
}

impl FromSpecImpl<SyncActivity> for Activity {
    open spec fn obeys_from_spec() -> bool {
        true
    }

    open spec fn from_spec(s: SyncActivity) -> Self {
        Activity::Sync(s)
    }
}

impl From<AsyncActivity> for Activity {
    fn from(s: AsyncActivity) -> (r: Self) {
        Activity::Async(s)
    }
}

impl FromSpecImpl<AsyncActivity> for Activity {
    open spec fn obeys_from_spec() -> bool {
        true
    }

    open spec fn from_spec(s: AsyncActivity) -> Self {
        Activity::Async(s)
    }
}

} // verus!
