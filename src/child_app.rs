//! The lifecycle of the one child process a run starts: its status and the
//! output it has produced. The process itself is run by the caller, which
//! reports what happens to it through these methods.
use crate::error::ExecutionError;
use vstd::prelude::*;

verus! {

/// Where the child's standard input comes from.
#[derive(Debug, Clone, PartialEq, Eq)]
pub enum StdinType {
    /// The text is written to the child and its input then closed.
    Text(String),
    /// The input is read from the file at this path.
    File(String),
}

/// Where the child process stands.
#[derive(Debug, Clone, PartialEq, Eq)]
pub enum ChildStatus {
    NotStarted,
    Running,
    Exited(i32),
    Killed,
    SpawnFailed(String),
}

/// What a run asks the system to start.
#[derive(Debug)]
pub struct ExecutionRequest {
    /// The program, then its arguments.
    pub argv: Vec<String>,
    /// Environment variables set on top of the inherited ones, in order.
    pub env: Option<Vec<(String, String)>>,
    pub stdin: Option<StdinType>,
    pub working_dir: Option<String>,
}

/// The state of the child process of a run.
#[derive(Debug)]
pub struct ChildApp {
    pub status: ChildStatus,
    /// Everything the child has written, both streams, as it arrived.
    pub output: String,
}

/// The variable has a non-empty name.
pub open spec fn key_named(p: (String, String)) -> bool {
    p.0@.len() > 0
}

/// Every variable of `s` has a non-empty name.
pub open spec fn keys_named(s: Seq<(String, String)>) -> bool {
    forall|i: int| 0 <= i < s.len() ==> #[trigger] key_named(s[i])
}

/// Every environment variable in `env` has a non-empty name.
pub open spec fn env_keys_ok(env: Option<Vec<(String, String)>>) -> bool {
    match env {
        Some(v) => keys_named(v@),
        None => true,
    }
}

/// The status after a kill request: a running child is killed, any other
/// status stays.
pub open spec fn after_kill(s: ChildStatus) -> ChildStatus {
    if s is Running {
        ChildStatus::Killed
    } else {
        s
    }
}

/// Whether every environment variable in `env` has a non-empty name.
pub fn check_env_keys(env: &Option<Vec<(String, String)>>) -> (r: bool)
    ensures
        r == env_keys_ok(*env),
{
    match env {
        Some(v) => {
            let mut i: usize = 0;
            while i < v.len()
                invariant
                    *env == Some(*v),
                    i <= v@.len(),
                    forall|k: int| 0 <= k < i ==> #[trigger] key_named(v@[k]),
                decreases v@.len() - i,
            {
                if v[i].0.as_str().is_empty() {
                    assert(!key_named(v@[i as int]));
                    assert(!keys_named(v@));
                    return false;
                }
                i = i + 1;
            }
            true
        },
        None => true,
    }
}

impl ChildApp {
    /// A child that has not been started, with no output.
    pub fn new() -> (r: Self)
        ensures
            r.status == ChildStatus::NotStarted,
            r.output@.len() == 0,
    {
        ChildApp { status: ChildStatus::NotStarted, output: String::new() }
    }

    /// Checks a request before anything is spawned: it needs a program, and
    /// every environment variable a name. Nothing changes either way.
    pub fn check_request(&self, req: &ExecutionRequest) -> (r: Result<(), ExecutionError>)
        ensures
            req.argv@.len() == 0 ==> r == Err::<(), ExecutionError>(ExecutionError::NoProgram),
            req.argv@.len() > 0 && !env_keys_ok(req.env) ==> r == Err::<(), ExecutionError>(
                ExecutionError::EmptyEnvKey,
            ),
            req.argv@.len() > 0 && env_keys_ok(req.env) ==> r is Ok,
    {
        if req.argv.len() == 0 {
            Err(ExecutionError::NoProgram)
        } else if !check_env_keys(&req.env) {
            Err(ExecutionError::EmptyEnvKey)
        } else {
            Ok(())
        }
    }

    /// Records that the process was spawned.
    pub fn spawned(&mut self)
        ensures
            old(self).status is NotStarted ==> final(self).status == ChildStatus::Running,
            !(old(self).status is NotStarted) ==> final(self).status == old(self).status,
            final(self).output == old(self).output,
    {
        if matches!(self.status, ChildStatus::NotStarted) {
            self.status = ChildStatus::Running;
        }
    }

    /// Records that the process could not be spawned; it never runs.
    pub fn spawn_failed(&mut self, error: String)
        ensures
            old(self).status is NotStarted ==> final(self).status == ChildStatus::SpawnFailed(
                error,
            ),
            !(old(self).status is NotStarted) ==> final(self).status == old(self).status,
            final(self).output == old(self).output,
    {
        if matches!(self.status, ChildStatus::NotStarted) {
            self.status = ChildStatus::SpawnFailed(error);
        }
    }

    /// Appends text that the process wrote; the output only grows.
    pub fn append_output(&mut self, text: &str)
        ensures
            final(self).output@ == old(self).output@ + text@,
            final(self).status == old(self).status,
    {
        self.output.append(text);
    }

    /// Records that the process ended by itself with `code`. A child that
    /// is not running (killed before, say) keeps its status.
    pub fn exited(&mut self, code: i32)
        ensures
            old(self).status is Running ==> final(self).status == ChildStatus::Exited(code),
            !(old(self).status is Running) ==> final(self).status == old(self).status,
            final(self).output == old(self).output,
    {
        if matches!(self.status, ChildStatus::Running) {
            self.status = ChildStatus::Exited(code);
        }
    }

    /// Asks for the child to be killed. Returns whether the caller must
    /// stop the process: only a running child is killed, and a second
    /// request changes nothing.
    pub fn kill(&mut self) -> (r: bool)
        ensures
            r == old(self).status is Running,
            final(self).status == after_kill(old(self).status),
            final(self).output == old(self).output,
    {
        if matches!(self.status, ChildStatus::Running) {
            self.status = ChildStatus::Killed;
            true
        } else {
            false
        }
    }

    /// Whether the child is running.
    pub fn is_running(&self) -> (r: bool)
        ensures
            r == self.status is Running,
    {
        matches!(self.status, ChildStatus::Running)
    }
}

/// Killing is idempotent: a second kill request leaves the status that the
/// first one left, and a running child ends up killed.
pub proof fn lemma_kill_idempotent(s: ChildStatus)
    ensures
        after_kill(after_kill(s)) == after_kill(s),
        s is Running ==> after_kill(s) == ChildStatus::Killed,
{
}

} // verus!
