use crate::api::activities::{views, Activity, ActivityId, ActivityView};
use crate::graph::{graph_edges, graph_nodes, new_graph};
use petgraph::Graph;
use vstd::prelude::*;

verus! {

// ============================================================
// The mathematical model of an execution state
// ============================================================

/// `s[i]` is the activity with id `id`.
pub open spec fn id_at(s: Seq<ActivityView>, i: int, id: Seq<char>) -> bool {
    0 <= i < s.len() && s[i].core.id == id
}

/// Some activity of `s` has the id `id`.
pub open spec fn has_id(s: Seq<ActivityView>, id: Seq<char>) -> bool {
    exists|i: int| id_at(s, i, id)
}

/// The index of the activity with id `id` (meaningful when there is one).
pub open spec fn index_of(s: Seq<ActivityView>, id: Seq<char>) -> int {
    choose|i: int| id_at(s, i, id)
}

/// No two activities share an id.
pub open spec fn unique_ids(s: Seq<ActivityView>) -> bool {
    forall|i: int, j: int| 0 <= i < s.len() && 0 <= j < s.len() && i != j ==> s[i].core.id != s[j].core.id
}

/// The ids of the activities, in order.
pub open spec fn ids_of(s: Seq<ActivityView>) -> Seq<Seq<char>> {
    s.map_values(|a: ActivityView| a.core.id)
}

/// The status of an execution: new without activities, finished when all are
/// completed, else failed when one failed, else in error when one errored, else running.
pub open spec fn status_of(s: Seq<ActivityView>) -> ExecutionStatus {
    if s.len() == 0 {
        ExecutionStatus::New
    } else if forall|i: int| 0 <= i < s.len() ==> #[trigger] s[i].completed() {
        ExecutionStatus::Finished
    } else if exists|i: int| 0 <= i < s.len() && #[trigger] s[i].failed() {
        ExecutionStatus::Failed
    } else if exists|i: int| 0 <= i < s.len() && #[trigger] s[i].errored() {
        ExecutionStatus::Error
    } else {
        ExecutionStatus::Running
    }
}

/// An execution that is in error, failed or finished.
pub open spec fn stopped(s: Seq<ActivityView>) -> bool {
    let st = status_of(s);
    st is Error || st is Failed || st is Finished
}

/// Inserting an activity into the keyed collection: it takes the place of the
/// activity with the same id, or goes at the end.
pub open spec fn insert_activity(s: Seq<ActivityView>, a: ActivityView) -> Seq<ActivityView> {
    if has_id(s, a.core.id) {
        s.update(index_of(s, a.core.id), a)
    } else {
        s.push(a)
    }
}

/// The keyed collection built by inserting the activities one after the other.
pub open spec fn activities_from(v: Seq<ActivityView>) -> Seq<ActivityView>
    decreases v.len(),
{
    if v.len() == 0 {
        Seq::empty()
    } else {
        insert_activity(activities_from(v.drop_last()), v.last())
    }
}

/// Inserting an activity into the keyed collection of activities: it takes the
/// place of the activity with the same id, or goes at the end.
pub open spec fn insert_act(s: Seq<Activity>, a: Activity) -> Seq<Activity> {
    if has_id(views(s), a@.core.id) {
        s.update(index_of(views(s), a@.core.id), a)
    } else {
        s.push(a)
    }
}

/// The keyed collection of activities built by inserting them one after the other.
pub open spec fn acts_from(v: Seq<Activity>) -> Seq<Activity>
    decreases v.len(),
{
    if v.len() == 0 {
        Seq::empty()
    } else {
        insert_act(acts_from(v.drop_last()), v.last())
    }
}

// ============================================================
// The execution state
// ============================================================

pub trait ExecutionState: Sized {
    /// The state holds no activity and the default policies.
    spec fn is_initial(&self) -> bool;

    /// CONSTRUCTORS
    fn new() -> (r: Self)
        ensures
            r.is_initial(),
    ;

    /// *INSTANCE*
    fn status(&self) -> ExecutionStatus;

    fn is_stopped(&self) -> bool;

    fn get_activity_state(&self, id: &str) -> Option<&Activity>;

    fn activities(&self) -> &[Activity];

    fn activity_count(&self) -> usize;

    fn activity_dependents(&self, id: ActivityId) -> Vec<&Activity>;

    // POLICIES
    fn max_retries(&self) -> u32;
}

/// The relation that an edge of the execution graph stands for.
pub enum ExecutionGraphRelation {
    Precedes,
}

/// The activities of an execution, one per id, in the order in which they were
/// first inserted, with the graph of their dependencies.
pub struct DefaultExecutionState {
    pub activity_states: Vec<Activity>,
    pub activity_graph: Graph<ActivityId, ExecutionGraphRelation>,
    pub max_retries: u32,
}

impl View for DefaultExecutionState {
    type V = Seq<ActivityView>;

    open spec fn view(&self) -> Seq<ActivityView> {
        views(self.activity_states@)
    }
}

impl DefaultExecutionState {
    /// The state holds at most one activity per id.
    pub open spec fn wf(&self) -> bool {
        unique_ids(self@)
    }

    /// A state holding the given activities, keyed by id: a later activity with
    /// the id of an earlier one takes its place.
    pub fn new(activity_states: Option<Vec<Activity>>) -> (r: Self)
        ensures
            r.wf(),
            r@ == activities_from(
                match activity_states {
                    Some(v) => views(v@),
                    None => Seq::empty(),
                },
            ),
            r.activity_states@ == acts_from(
                match activity_states {
                    Some(v) => v@,
                    None => Seq::empty(),
                },
            ),
            r.max_retries == 3,
            graph_nodes(r.activity_graph).len() == 0,
            graph_edges(r.activity_graph).len() == 0,
    {
        let activities = match activity_states {
            Some(v) => v,
            None => Vec::new(),
        };
        let ghost given = views(activities@);
        let ghost given_acts = activities@;
        let mut input = activities;
        let mut map: Vec<Activity> = Vec::new();
        let mut k: usize = 0;
        let n = input.len();
        while input.len() > 0
            invariant
                k + input@.len() == n,
                n == given.len(),
                views(input@) == given.subrange(k as int, n as int),
                views(map@) == activities_from(given.take(k as int)),
                given == views(given_acts),
                input@ == given_acts.subrange(k as int, n as int),
                map@ == acts_from(given_acts.take(k as int)),
                unique_ids(views(map@)),
            decreases input.len(),
        {
            let ghost old_input = input@;
            let a = input.remove(0);
            let ghost before = views(map@);
            let ghost before_acts = map@;
            assert(views(old_input)[0] == given.subrange(k as int, n as int)[0]);
            assert(a@ == given[k as int]);
            assert(a == given_acts[k as int]);
            let pos = position(&map, a.get_core().id.as_str());
            match pos {
                Some(j) => {
                    map.set(j, a);
                },
                None => {
                    map.push(a);
                },
            }
            proof {
                assert(given.take(k + 1).drop_last() =~= given.take(k as int));
                assert(given.take(k + 1).last() == given[k as int]);
                assert(given_acts.take(k + 1).drop_last() =~= given_acts.take(k as int));
                assert(given_acts.take(k + 1).last() == given_acts[k as int]);
                let after = views(map@);
                match pos {
                    Some(j) => {
                        lemma_index_of_unique(before, j as int, a@.core.id);
                        assert(after =~= before.update(j as int, a@));
                        assert(map@ =~= before_acts.update(j as int, a));
                    },
                    None => {
                        assert(after =~= before.push(a@));
                        assert(map@ =~= before_acts.push(a));
                    },
                }
                assert(map@ == acts_from(given_acts.take(k + 1)));
                assert(after == activities_from(given.take(k + 1)));
                assert forall|x: int, y: int|
                    0 <= x < after.len() && 0 <= y < after.len() && x != y implies after[x].core.id
                    != after[y].core.id by {
                    match pos {
                        Some(j) => {
                            assert(after[x].core.id == before[x].core.id);
                            assert(after[y].core.id == before[y].core.id);
                        },
                        None => {
                            if x == before.len() {
                                assert(!id_at(before, y, a@.core.id));
                            } else if y == before.len() {
                                assert(!id_at(before, x, a@.core.id));
                            }
                        },
                    }
                }
                assert(input@ =~= old_input.subrange(1, old_input.len() as int));
                assert forall|x: int| 0 <= x < input@.len() implies #[trigger] views(input@)[x]
                    == given.subrange(k + 1, n as int)[x] by {
                    assert(views(old_input)[x + 1] == given.subrange(
                        k as int,
                        n as int,
                    )[x + 1]);
                }
                assert(views(input@) =~= given.subrange(k + 1, n as int));
                assert(input@ =~= given_acts.subrange(k + 1, n as int));
            }
            k = k + 1;
        }
        assert(given.take(n as int) =~= given);
        assert(given_acts.take(n as int) =~= given_acts);
        DefaultExecutionState { activity_states: map, activity_graph: new_graph(), max_retries: 3 }
    }

    /// The graph of the dependencies between the activities, as last rebuilt.
    pub fn execution_graph(&self) -> (r: &Graph<ActivityId, ExecutionGraphRelation>)
        ensures
            *r == self.activity_graph,
    {
        &self.activity_graph
    }
}

/// With unique ids, the index of an id is the one place where it occurs.
pub proof fn lemma_index_of_unique(s: Seq<ActivityView>, i: int, id: Seq<char>)
    requires
        unique_ids(s),
        id_at(s, i, id),
    ensures
        index_of(s, id) == i,
{
    let k = index_of(s, id);
    assert(id_at(s, k, id));
}

/// The position of the first activity with the given id.
pub fn position(acts: &Vec<Activity>, id: &str) -> (r: Option<usize>)
    ensures
        r is Some <==> has_id(views(acts@), id@),
        r matches Some(i) ==> id_at(views(acts@), i as int, id@) && forall|
            j: int,
        | 0 <= j < i ==> acts@[j]@.core.id != id@,
{
    let ghost s = views(acts@);
    let mut i: usize = 0;
    while i < acts.len()
        invariant
            i <= acts.len(),
            s == views(acts@),
            forall|j: int| 0 <= j < i ==> acts@[j]@.core.id != id@,
        decreases acts.len() - i,
    {
        if str_equal(acts[i].id(), id) {
            assert(id_at(s, i as int, id@));
            return Some(i);
        }
        i = i + 1;
    }
    assert forall|j: int| !id_at(s, j, id@) by {
        if 0 <= j < s.len() {
            assert(acts@[j]@.core.id != id@);
        }
    }
    None
}

/// Whether two strings are the same.
pub fn str_equal(a: &str, b: &str) -> (r: bool)
    ensures
        r == (a@ == b@),
{
    let x = crate::text::owned(a);
    let y = crate::text::owned(b);
    x == y
}

impl ExecutionState for DefaultExecutionState {
    open spec fn is_initial(&self) -> bool {
        &&& self.wf()
        &&& self@ == Seq::<ActivityView>::empty()
        &&& self.max_retries == 3
        &&& graph_nodes(self.activity_graph).len() == 0
        &&& graph_edges(self.activity_graph).len() == 0
    }

    fn new() -> (r: DefaultExecutionState) {
        let r = DefaultExecutionState {
            activity_states: Vec::new(),
            activity_graph: new_graph(),
            max_retries: 3,
        };
        assert(r@ =~= Seq::<ActivityView>::empty());
        r
    }

    fn status(&self) -> (r: ExecutionStatus)
        ensures
            r == status_of(self@),
    {
        crate::runner::get_execution_status(self)
    }

    fn is_stopped(&self) -> (r: bool)
        ensures
            r == stopped(self@),
    {
        match self.status() {
            ExecutionStatus::Error => true,
            ExecutionStatus::Failed => true,
            ExecutionStatus::Finished => true,
            _ => false,
        }
    }

    fn get_activity_state(&self, id: &str) -> (r: Option<&Activity>)
        ensures
            r is Some <==> has_id(self@, id@),
            r matches Some(a) ==> exists|i: int|
                id_at(self@, i, id@) && (forall|j: int| 0 <= j < i ==> self@[j].core.id != id@)
                    && *a == self.activity_states@[i],
    {
        match position(&self.activity_states, id) {
            Some(i) => Some(&self.activity_states[i]),
            None => None,
        }
    }

    fn activities(&self) -> (r: &[Activity])
        ensures
            r@ == self.activity_states@,
    {
        self.activity_states.as_slice()
    }

    fn activity_count(&self) -> (r: usize)
        ensures
            r == self@.len(),
    {
        self.activity_states.len()
    }

    fn activity_dependents(&self, _id: ActivityId) -> (r: Vec<&Activity>)
        ensures
            r@.len() == 0,
    {
        Vec::new()
    }

    fn max_retries(&self) -> (r: u32)
        ensures
            r == self.max_retries,
    {
        self.max_retries
    }
}

#[derive(Debug)]
pub enum ExecutionStateError {
    TransitionOnClosedExecutionState,
    DuplicateActivityIdError,
    InvalidActivityTransition,
    InvalidActivityTransitionOnClosedActivity,
    SelfReferentialDependency,
}

impl ExecutionStateError {
    /// The human-readable description of each error.
    pub open spec fn message_of(self) -> Seq<char> {
        match self {
            ExecutionStateError::TransitionOnClosedExecutionState => "Attempt to transition on closed execution state"@,
            ExecutionStateError::DuplicateActivityIdError => "An activity with a duplicate id was appended"@,
            ExecutionStateError::InvalidActivityTransition => "Invalid activity transition"@,
            ExecutionStateError::InvalidActivityTransitionOnClosedActivity => "Invalid activity transition on closed activity"@,
            ExecutionStateError::SelfReferentialDependency => "Activity depends on itself"@,
        }
    }

    /// The human-readable description of the error.
    pub fn message(&self) -> (r: &'static str)
        ensures
            r@ == self.message_of(),
    {
        match self {
            ExecutionStateError::TransitionOnClosedExecutionState => "Attempt to transition on closed execution state",
            ExecutionStateError::DuplicateActivityIdError => "An activity with a duplicate id was appended",
            ExecutionStateError::InvalidActivityTransition => "Invalid activity transition",
            ExecutionStateError::InvalidActivityTransitionOnClosedActivity => "Invalid activity transition on closed activity",
            ExecutionStateError::SelfReferentialDependency => "Activity depends on itself",
        }
    }
}

#[derive(Debug, Clone, Copy, PartialEq, Eq, Structural)]
pub enum ExecutionStatus {
    New,  // No activities established or any other state
    Error,
    Failed,
    Running,
    Finished,
}

} // verus!
