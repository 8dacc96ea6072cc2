mod model;

pub use model::{
    has_id, id_at, ids_of, index_of, lemma_index_of_unique, position, str_equal, insert_activity, status_of, stopped, unique_ids,
    activities_from, DefaultExecutionState, ExecutionGraphRelation, ExecutionState,
    ExecutionStateError, ExecutionStatus,
};
