//! The task service surface: construction, and validation of task-creation
//! payloads.
//!
//! Task storage itself is plain keyed CRUD on the storage backend, outside
//! this library's scope; what is verified here is the payload rule: which
//! key sets are acceptable for each task type.

use vstd::prelude::*;

use crate::DBConfig;

verus! {

/// A failed payload check, carrying its machine-readable code.
pub struct ValidationError {
    pub code: String,
}

/// Context for task-payload validation: the task type the payload claims.
pub struct ValidateCreateTaskDataContext(pub String);

/// Task-creation payload: a type tag and a set of keyed fields.
pub struct CreateTaskData {
    pub task_type: String,
    pub data: Vec<(String, String)>,
}

pub struct TasksService {
    db: DBConfig,
}

impl TasksService {
    /// The storage configuration the service was built with.
    pub closed spec fn db_config(self) -> DBConfig {
        self.db
    }

    /// Construct the service, storing the given configuration unchanged.
    pub fn init(db: DBConfig) -> (r: Self)
        ensures
            r.db_config() == db,
    {
        TasksService { db }
    }
}

/// Some entry carries this key.
pub open spec fn has_key(data: Seq<(String, String)>, key: Seq<char>) -> bool {
    exists|i: int| 0 <= i < data.len() && (#[trigger] data[i]).0@ == key
}

/// The keys a day-watch task must carry, and nothing else (three entries).
pub open spec fn day_task_data_ok(data: Seq<(String, String)>) -> bool {
    &&& data.len() == 3
    &&& has_key(data, "from_point_code"@)
    &&& has_key(data, "to_point_code"@)
    &&& has_key(data, "date"@)
}

/// The keys a train-watch task must carry, and nothing else (five entries).
pub open spec fn train_task_data_ok(data: Seq<(String, String)>) -> bool {
    &&& data.len() == 5
    &&& has_key(data, "from_point_code"@)
    &&& has_key(data, "to_point_code"@)
    &&& has_key(data, "date"@)
    &&& has_key(data, "time"@)
    &&& has_key(data, "tnum"@)
}

fn has_key_exec(data: &Vec<(String, String)>, key: &String) -> (r: bool)
    ensures
        r == has_key(data@, key@),
{
    let n = data.len();
    let mut i: usize = 0;
    while i < n
        invariant
            i <= n,
            n == data@.len(),
            forall|j: int| 0 <= j < i ==> (#[trigger] data@[j]).0@ != key@,
        decreases n - i,
    {
        if data[i].0 == *key {
            proof {
                assert(data@[i as int].0@ == key@);
            }
            return true;
        }
        i = i + 1;
    }
    false
}

/// Check a task payload against its claimed type: a day task needs exactly
/// its three keys, a train task exactly its five; any other type is
/// refused as unknown.
pub fn validate_create_task_data(
    data: &Vec<(String, String)>,
    context: &ValidateCreateTaskDataContext,
) -> (r: Result<(), ValidationError>)
    ensures
        match r {
            Ok(()) => (context.0@ == "day"@ && day_task_data_ok(data@)) || (context.0@ == "train"@
                && train_task_data_ok(data@)),
            Err(e) => {
                &&& context.0@ == "day"@ ==> e.code@ == "bad_task_data"@ && !day_task_data_ok(
                    data@,
                )
                &&& context.0@ == "train"@ ==> e.code@ == "bad_task_data"@ && !train_task_data_ok(
                    data@,
                )
                &&& context.0@ != "day"@ && context.0@ != "train"@ ==> e.code@
                    == "unknown_task_type"@
            },
        },
{
    proof {
        reveal_strlit("day");
        reveal_strlit("train");
        reveal_strlit("from_point_code");
        reveal_strlit("to_point_code");
        reveal_strlit("date");
        reveal_strlit("time");
        reveal_strlit("tnum");
        reveal_strlit("bad_task_data");
        reveal_strlit("unknown_task_type");
        assert("day"@.len() == 3);
        assert("train"@.len() == 5);
        assert("day"@ != "train"@);
    }
    if context.0 == "day".to_owned() {
        if data.len() != 3 || !has_key_exec(data, &"from_point_code".to_owned()) || !has_key_exec(
            data,
            &"to_point_code".to_owned(),
        ) || !has_key_exec(data, &"date".to_owned()) {
            return Err(ValidationError { code: "bad_task_data".to_owned() });
        }
        Ok(())
    } else if context.0 == "train".to_owned() {
        if data.len() != 5 || !has_key_exec(data, &"from_point_code".to_owned()) || !has_key_exec(
            data,
            &"to_point_code".to_owned(),
        ) || !has_key_exec(data, &"date".to_owned()) || !has_key_exec(data, &"time".to_owned())
            || !has_key_exec(data, &"tnum".to_owned()) {
            return Err(ValidationError { code: "bad_task_data".to_owned() });
        }
        Ok(())
    } else {
        Err(ValidationError { code: "unknown_task_type".to_owned() })
    }
}

} // verus!
