//! Test doubles of Task orchestration: a runtime that loses its replies, the work that is due and
//! the binding of a Task to the way in which it is executed.
use crate::connections::PortError;
use crate::digest::{digest_of_bytes, named_digest};
use crate::probe::outcome_view;
use crate::task_store::{same_id, stand_in, stand_in_digest, Uuid};
use crate::text::{concat2, repeat, repeated, texts, views};
use vstd::prelude::*;

verus! {

/// What is known of a Task in its sandbox.
pub enum TaskObservation {
    Absent,
    Failed { adapter_observation_id: String, reason: String },
    OutcomeUnknown { reason: String },
}

/// A runtime that starts Tasks without saying so: the reply to every start is lost.
pub struct AmbiguousTaskRuntime {
    pub starts: usize,
    pub terminal_observed: bool,
    pub fail_next_observation: bool,
}

/// The port failed, and this is why.
pub open spec fn failed_with(error: PortError, words: Seq<char>) -> bool {
    error matches PortError::Failed { reason } && reason@ == words
}

impl AmbiguousTaskRuntime {
    /// A runtime that has started nothing.
    pub fn new() -> (runtime: AmbiguousTaskRuntime)
        ensures
            runtime.starts == 0,
            !runtime.terminal_observed,
            !runtime.fail_next_observation,
    {
        AmbiguousTaskRuntime {
            starts: 0,
            terminal_observed: false,
            fail_next_observation: false,
        }
    }

    /// Starts a Task. The start counts, but its reply is lost.
    pub fn start_task(&mut self) -> (outcome: Result<TaskObservation, PortError>)
        ensures
            outcome matches Err(error) && failed_with(error, "execution start response was lost"@),
            final(self).starts == crate::kube_api::one_more(old(self).starts),
            final(self).terminal_observed == old(self).terminal_observed,
            final(self).fail_next_observation == old(self).fail_next_observation,
    {
        self.starts = if self.starts == usize::MAX {
            0
        } else {
            self.starts + 1
        };
        Err(PortError::Failed { reason: "execution start response was lost".to_owned() })
    }

    /// Looks at a Task. One look fails where that is armed; otherwise the Task has failed or is
    /// not there.
    pub fn observe_task(&mut self, attempt_id: &str) -> (outcome: Result<
        TaskObservation,
        PortError,
    >)
        ensures
            !final(self).fail_next_observation,
            final(self).starts == old(self).starts,
            final(self).terminal_observed == old(self).terminal_observed,
            match outcome {
                Err(error) => old(self).fail_next_observation && failed_with(
                    error,
                    "temporary observation transport failure"@,
                ),
                Ok(TaskObservation::Failed { adapter_observation_id, reason }) => !old(
                    self,
                ).fail_next_observation && old(self).terminal_observed
                    && adapter_observation_id@ == attempt_id@ && reason@
                    == "late durable process exit"@,
                Ok(TaskObservation::Absent) => !old(self).fail_next_observation && !old(
                    self,
                ).terminal_observed,
                Ok(TaskObservation::OutcomeUnknown { .. }) => false,
            },
    {
        if self.fail_next_observation {
            self.fail_next_observation = false;
            return Err(
                PortError::Failed {
                    reason: "temporary observation transport failure".to_owned(),
                },
            );
        }
        if self.terminal_observed {
            Ok(
                TaskObservation::Failed {
                    adapter_observation_id: attempt_id.to_owned(),
                    reason: "late durable process exit".to_owned(),
                },
            )
        } else {
            Ok(TaskObservation::Absent)
        }
    }

    /// Cancels a Task, without being able to tell what became of it.
    pub fn cancel_task(&self) -> (observation: TaskObservation)
        ensures
            observation matches TaskObservation::OutcomeUnknown { reason } && reason@
                == "attempt-scoped cancellation is unprovable"@,
    {
        TaskObservation::OutcomeUnknown {
            reason: "attempt-scoped cancellation is unprovable".to_owned(),
        }
    }
}

/// Where the first work of a Task stands, looking from the position `from` on.
pub open spec fn place_of_task(due: Seq<Uuid>, task_uid: Seq<u8>, from: int) -> Option<int>
    decreases due.len() - from,
{
    if from < 0 || from >= due.len() {
        None
    } else if due[from]@ == task_uid {
        Some(from)
    } else {
        place_of_task(due, task_uid, from + 1)
    }
}

/// The position of the first work of a Task among the work that is due, given by its Tasks.
pub fn current_work(due: &Vec<Uuid>, task_uid: &Uuid) -> (place: Result<usize, String>)
    ensures
        match place_of_task(due@, task_uid@, 0) {
            Some(at) => place matches Ok(found) && found == at && found < due@.len(),
            None => place matches Err(words) && words@
                == "Task orchestration work item is not due"@,
        },
{
    let mut i: usize = 0;
    while i < due.len()
        invariant
            i <= due.len(),
            place_of_task(due@, task_uid@, 0) == place_of_task(due@, task_uid@, i as int),
        decreases due.len() - i,
    {
        if same_id(&due[i], task_uid) {
            return Ok(i);
        }
        i = i + 1;
    }
    Err("Task orchestration work item is not due".to_owned())
}

/// Makes sure that the copy of a Task was made from one that is there.
pub fn insert_task_projection_fixture(inserted: u64) -> (outcome: Result<(), String>)
    ensures
        outcome_view(outcome) == (if inserted == 1 {
            Ok(())
        } else {
            Err::<(), Seq<char>>("projection fixture source Task is absent"@)
        }),
{
    if inserted == 1 {
        Ok(())
    } else {
        Err("projection fixture source Task is absent".to_owned())
    }
}

/// The binding of a Task to a disposable image and the executable in it.
pub struct DisposableExecutionBinding {
    pub schema_version: String,
    pub binding_id: String,
    pub binding_digest: String,
    pub agent_ref: String,
    pub display_name: Option<String>,
    pub adapter: String,
    pub image: String,
    pub executable: String,
    pub probe_arguments: Vec<String>,
    pub expected_stdout: String,
}

impl DisposableExecutionBinding {
    /// All of the binding but what identifies it.
    pub open spec fn has_sample_content(&self) -> bool {
        &&& self.agent_ref@ == "example-agent@1"@
        &&& self.display_name is None
        &&& self.adapter@ == "example-v1"@
        &&& self.image@ == "registry.example.test/agents/example@sha256:"@ + repeated('a', 64)
        &&& self.executable@ == "/opt/example/bin/example-agent"@
        &&& views(self.probe_arguments@) == seq!["--version"@]
        &&& self.expected_stdout@ == "example-agent 1"@
    }
}

/// The binding before it is identified: its identity and its digest are those of nothing.
pub fn unidentified_binding(schema_version: &str) -> (binding: DisposableExecutionBinding)
    ensures
        binding.has_sample_content(),
        binding.schema_version@ == schema_version@,
        binding.binding_id@ == stand_in_digest('0'),
        binding.binding_digest@ == stand_in_digest('0'),
{
    proof {
        reveal_strlit("0");
        reveal_strlit("a");
    }
    let image_digest = repeat("a", 64);
    let probe_arguments = texts(&["--version"]);
    assert(views(probe_arguments@) =~= seq!["--version"@]);
    DisposableExecutionBinding {
        schema_version: schema_version.to_owned(),
        binding_id: stand_in("0"),
        binding_digest: stand_in("0"),
        agent_ref: "example-agent@1".to_owned(),
        display_name: None,
        adapter: "example-v1".to_owned(),
        image: concat2("registry.example.test/agents/example@sha256:", image_digest.as_str()),
        executable: "/opt/example/bin/example-agent".to_owned(),
        probe_arguments,
        expected_stdout: "example-agent 1".to_owned(),
    }
}

/// The binding, identified by the digest of its content as it is written.
pub fn disposable_execution_binding(schema_version: &str, canonical_content: &[u8]) -> (binding:
    DisposableExecutionBinding)
    ensures
        binding.has_sample_content(),
        binding.schema_version@ == schema_version@,
        binding.binding_id@ == named_digest(canonical_content@),
        binding.binding_digest@ == named_digest(canonical_content@),
{
    let mut binding = unidentified_binding(schema_version);
    let digest = digest_of_bytes(canonical_content);
    binding.binding_id = digest.clone();
    binding.binding_digest = digest;
    binding
}

} // verus!
