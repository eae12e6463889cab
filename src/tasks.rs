use vstd::prelude::*;
use crate::context::{Core, FileSource, KeyChain, Launch, Launcher, Resolver};
use crate::errors::{system, Error, ErrorKind};
use crate::target::{Repo, Scratchpad};

verus! {

/// A unit of setup work, with one operation for each kind of target.
///
/// A task that means nothing for one kind of target succeeds there without
/// doing anything. Each task states, through `repo_post` and
/// `scratchpad_post`, what holds of the result a call returned.
pub trait Task {
    /// What holds of `r` when `apply_repo` on `repo` returned it. A task
    /// that states nothing promises nothing.
    open spec fn repo_post(&self, repo: Repo, r: Result<(), Error>) -> bool {
        true
    }

    /// What holds of `r` when `apply_scratchpad` on `scratch` returned it. A
    /// task that states nothing promises nothing.
    open spec fn scratchpad_post(&self, scratch: Scratchpad, r: Result<(), Error>) -> bool {
        true
    }

    fn apply_repo<F: FileSource, L: Launcher, R: Resolver, K: KeyChain>(
        &self,
        core: &mut Core<F, L, R, K>,
        repo: &Repo,
    ) -> (r: Result<(), Error>)
        ensures
            self.repo_post(*repo, r),
    ;

    fn apply_scratchpad<F: FileSource, L: Launcher, R: Resolver, K: KeyChain>(
        &self,
        core: &mut Core<F, L, R, K>,
        scratch: &Scratchpad,
    ) -> (r: Result<(), Error>)
        ensures
            self.scratchpad_post(*scratch, r),
    ;
}

/// Creates a branch, or resets it if it exists, in a repository.
pub struct GitCheckout {
    pub branch: String,
}

/// The message of the error reported when git exits with a non-zero code.
pub open spec fn checkout_failed_message() -> Seq<char> {
    "The git checkout command failed with a non-zero exit code."@
}

/// The advice given with that error.
pub open spec fn checkout_failed_advice() -> Seq<char> {
    "Please check the output printed by Git to determine why the command failed and take appropriate action."@
}

/// The outcome that an exit code stands for: zero succeeds, any other code
/// fails, and a missing code (the process was killed) counts as success.
pub open spec fn exit_succeeded(code: Option<i32>) -> bool {
    match code {
        Some(c) => c == 0,
        None => true,
    }
}

impl GitCheckout {
    /// The git invocation that checks out the branch in the repository.
    pub fn checkout_request(&self, repo: &Repo) -> (r: Launch)
        ensures
            r.program@ == "git"@,
            r.args@.len() == 3,
            r.args@[0]@ == "checkout"@,
            r.args@[1]@ == "-B"@,
            r.args@[2]@ == self.branch@,
            r.dir@ == repo.path_view(),
    {
        let mut args: Vec<String> = Vec::new();
        args.push("checkout".to_owned());
        args.push("-B".to_owned());
        args.push(self.branch.clone());
        Launch { program: "git".to_owned(), args, dir: repo.get_path().to_owned() }
    }

    /// Decides the task's result from git's exit code.
    pub fn checkout_outcome(code: Option<i32>) -> (r: Result<(), Error>)
        ensures
            exit_succeeded(code) <==> r is Ok,
            r matches Err(e) ==> e.kind == ErrorKind::System && e.message@
                == checkout_failed_message() && e.advice@ == checkout_failed_advice(),
    {
        match code {
            Some(0) => Ok(()),
            Some(_) => Err(
                system(
                    "The git checkout command failed with a non-zero exit code.",
                    "Please check the output printed by Git to determine why the command failed and take appropriate action.",
                ),
            ),
            None => Ok(()),
        }
    }
}

impl Task for GitCheckout {
    /// Whether the checkout succeeds is up to git and the launcher:
    /// `checkout_outcome` says how an exit code is judged.
    open spec fn repo_post(&self, repo: Repo, r: Result<(), Error>) -> bool {
        true
    }

    /// On a scratchpad the checkout always succeeds.
    open spec fn scratchpad_post(&self, scratch: Scratchpad, r: Result<(), Error>) -> bool {
        r is Ok
    }

    /// Runs the checkout through the context's launcher; a launch error is
    /// returned as it is, an exit code is judged by `checkout_outcome`.
    fn apply_repo<F: FileSource, L: Launcher, R: Resolver, K: KeyChain>(
        &self,
        core: &mut Core<F, L, R, K>,
        repo: &Repo,
    ) -> (r: Result<(), Error>)
        ensures
            final(core).config == old(core).config,
            final(core).files == old(core).files,
    {
        let request = self.checkout_request(repo);
        match core.launcher.launch(&request) {
            Ok(code) => GitCheckout::checkout_outcome(code),
            Err(e) => Err(e),
        }
    }

    /// Scratchpads are not checked out: this succeeds and touches nothing.
    fn apply_scratchpad<F: FileSource, L: Launcher, R: Resolver, K: KeyChain>(
        &self,
        core: &mut Core<F, L, R, K>,
        scratch: &Scratchpad,
    ) -> (r: Result<(), Error>)
        ensures
            r is Ok,
            *final(core) == *old(core),
    {
        Ok(())
    }
}

/// The result of a run whose task invocations returned `trace`, in order:
/// the first error, or success when there is none.
pub open spec fn first_failure(trace: Seq<Result<(), Error>>) -> Result<(), Error>
    decreases trace.len(),
{
    if trace.len() == 0 {
        Ok(())
    } else if trace[0] is Err {
        trace[0]
    } else {
        first_failure(trace.drop_first())
    }
}

/// `trace` records the results of a fail-fast run over `n` tasks: tasks were
/// invoked in order, every invocation but the last succeeded, and the run
/// stopped early only on an error.
pub open spec fn fail_fast(trace: Seq<Result<(), Error>>, n: nat) -> bool {
    &&& trace.len() <= n
    &&& forall|j: int| 0 <= j < trace.len() - 1 ==> (#[trigger] trace[j]) is Ok
    &&& trace.len() < n ==> trace.len() > 0 && trace.last() is Err
}

proof fn first_failure_of_fail_fast(trace: Seq<Result<(), Error>>)
    requires
        forall|j: int| 0 <= j < trace.len() - 1 ==> (#[trigger] trace[j]) is Ok,
    ensures
        first_failure(trace) == if trace.len() > 0 && trace.last() is Err {
            trace.last()
        } else {
            Ok(())
        },
    decreases trace.len(),
{
    if trace.len() > 1 {
        let rest = trace.drop_first();
        assert(trace[0] is Ok);
        assert forall|j: int| 0 <= j < rest.len() - 1 implies (#[trigger] rest[j]) is Ok by {
            assert(rest[j] == trace[j + 1]);
        }
        first_failure_of_fail_fast(rest);
        assert(rest.last() == trace.last());
        assert(first_failure(trace) == first_failure(rest));
    } else if trace.len() == 1 {
        assert(trace.last() == trace[0]);
        if trace[0] is Ok {
            assert(trace.drop_first().len() == 0);
            assert(first_failure(trace.drop_first()) is Ok);
        }
    }
}

/// A fail-fast run stops at the first task that fails: when task `i` is the
/// first to fail, no task after it was invoked and the run's result is
/// exactly that task's error. A sequence's `repo_post` and `scratchpad_post`
/// give such a trace, each entry meeting its own task's post, for every call. A run in which no task fails invoked all `n`
/// tasks and succeeds; in particular a run over no task succeeds.
pub proof fn fail_fast_stops_at_first_error(trace: Seq<Result<(), Error>>, n: nat, i: int)
    requires
        fail_fast(trace, n),
    ensures
        0 <= i < trace.len() && trace[i] is Err && (forall|j: int|
            0 <= j < i ==> (#[trigger] trace[j]) is Ok) ==> trace.len() == i + 1 && first_failure(
            trace,
        ) == trace[i],
        (forall|j: int| 0 <= j < trace.len() ==> (#[trigger] trace[j]) is Ok) ==> trace.len() == n
            && first_failure(trace) is Ok,
        n == 0 ==> first_failure(trace) is Ok,
{
    first_failure_of_fail_fast(trace);
    if 0 <= i < trace.len() && trace[i] is Err {
        if i < trace.len() - 1 {
            assert(trace[i] is Ok);
        }
    }
    if forall|j: int| 0 <= j < trace.len() ==> (#[trigger] trace[j]) is Ok {
        if trace.len() > 0 {
            assert(trace[trace.len() - 1] is Ok);
        }
    }
}

/// `trace` holds results that calls of `apply_repo` on the first
/// `trace.len()` of `tasks`, in order, may have returned: each meets its
/// task's `repo_post`.
pub open spec fn repo_chain<T: Task>(tasks: Seq<T>, repo: Repo, trace: Seq<Result<(), Error>>) -> bool {
    &&& trace.len() <= tasks.len()
    &&& forall|j: int| 0 <= j < trace.len() ==> (#[trigger] tasks[j]).repo_post(repo, trace[j])
}

/// The same as `repo_chain`, for calls of `apply_scratchpad`.
pub open spec fn scratchpad_chain<T: Task>(
    tasks: Seq<T>,
    scratch: Scratchpad,
    trace: Seq<Result<(), Error>>,
) -> bool {
    &&& trace.len() <= tasks.len()
    &&& forall|j: int|
        0 <= j < trace.len() ==> (#[trigger] tasks[j]).scratchpad_post(scratch, trace[j])
}

/// An ordered list of tasks that runs as one task: each task runs after the
/// previous one succeeded, and the first error ends the run.
pub struct Sequence<T: Task> {
    tasks: Vec<T>,
}

impl<T: Task> Sequence<T> {
    /// The tasks, in the order in which they run.
    pub closed spec fn tasks(&self) -> Seq<T> {
        self.tasks@
    }

    pub fn new(tasks: Vec<T>) -> (r: Sequence<T>)
        ensures
            r.tasks() == tasks@,
    {
        Sequence { tasks }
    }

    /// Applies the tasks in order to a repository, stopping after the first
    /// that fails, and returns the result of each invocation.
    pub fn run_repo<F: FileSource, L: Launcher, R: Resolver, K: KeyChain>(
        &self,
        core: &mut Core<F, L, R, K>,
        repo: &Repo,
    ) -> (trace: Vec<Result<(), Error>>)
        ensures
            fail_fast(trace@, self.tasks().len()),
            repo_chain(self.tasks(), *repo, trace@),
            self.tasks().len() == 0 ==> *final(core) == *old(core),
    {
        let mut trace: Vec<Result<(), Error>> = Vec::new();
        let mut i: usize = 0;
        while i < self.tasks.len()
            invariant
                i <= self.tasks@.len(),
                trace@.len() == i,
                forall|j: int| 0 <= j < i ==> (#[trigger] trace@[j]) is Ok,
                i == 0 ==> *core == *old(core),
                repo_chain(self.tasks(), *repo, trace@),
            decreases self.tasks@.len() - i,
        {
            let r = self.tasks[i].apply_repo(core, repo);
            let failed = r.is_err();
            trace.push(r);
            proof {
                assert(self.tasks()[i as int] == self.tasks@[i as int]);
            }
            if failed {
                return trace;
            }
            i = i + 1;
        }
        trace
    }

    /// Applies the tasks in order to a scratchpad, stopping after the first
    /// that fails, and returns the result of each invocation.
    pub fn run_scratchpad<F: FileSource, L: Launcher, R: Resolver, K: KeyChain>(
        &self,
        core: &mut Core<F, L, R, K>,
        scratch: &Scratchpad,
    ) -> (trace: Vec<Result<(), Error>>)
        ensures
            fail_fast(trace@, self.tasks().len()),
            scratchpad_chain(self.tasks(), *scratch, trace@),
            self.tasks().len() == 0 ==> *final(core) == *old(core),
    {
        let mut trace: Vec<Result<(), Error>> = Vec::new();
        let mut i: usize = 0;
        while i < self.tasks.len()
            invariant
                i <= self.tasks@.len(),
                trace@.len() == i,
                forall|j: int| 0 <= j < i ==> (#[trigger] trace@[j]) is Ok,
                i == 0 ==> *core == *old(core),
                scratchpad_chain(self.tasks(), *scratch, trace@),
            decreases self.tasks@.len() - i,
        {
            let r = self.tasks[i].apply_scratchpad(core, scratch);
            let failed = r.is_err();
            trace.push(r);
            proof {
                assert(self.tasks()[i as int] == self.tasks@[i as int]);
            }
            if failed {
                return trace;
            }
            i = i + 1;
        }
        trace
    }
}

/// The result of a fail-fast run, taken from its trace: the last result when
/// it is an error, success otherwise.
fn run_result(trace: Vec<Result<(), Error>>, n: Ghost<nat>) -> (r: Result<(), Error>)
    requires
        fail_fast(trace@, n@),
    ensures
        r == first_failure(trace@),
{
    proof {
        first_failure_of_fail_fast(trace@);
    }
    let mut trace = trace;
    match trace.pop() {
        Some(Err(e)) => Err(e),
        _ => Ok(()),
    }
}

impl<T: Task> Task for Sequence<T> {
    /// Some fail-fast run of the tasks, each result meeting its task's own
    /// `repo_post`, has `r` as its first error, or success when it has none.
    open spec fn repo_post(&self, repo: Repo, r: Result<(), Error>) -> bool {
        exists|trace: Seq<Result<(), Error>>|
            #![trigger fail_fast(trace, self.tasks().len()), repo_chain(self.tasks(), repo, trace)]
            fail_fast(trace, self.tasks().len()) && repo_chain(self.tasks(), repo, trace) && r
                == first_failure(trace)
    }

    /// The same as `repo_post`, for scratchpads.
    open spec fn scratchpad_post(&self, scratch: Scratchpad, r: Result<(), Error>) -> bool {
        exists|trace: Seq<Result<(), Error>>|
            #![trigger fail_fast(trace, self.tasks().len()), scratchpad_chain(self.tasks(), scratch, trace)]
            fail_fast(trace, self.tasks().len()) && scratchpad_chain(self.tasks(), scratch, trace)
                && r == first_failure(trace)
    }

    /// Runs the tasks in order and returns the first error unchanged.
    fn apply_repo<F: FileSource, L: Launcher, R: Resolver, K: KeyChain>(
        &self,
        core: &mut Core<F, L, R, K>,
        repo: &Repo,
    ) -> (r: Result<(), Error>)
        ensures
            self.tasks().len() == 0 ==> r is Ok && *final(core) == *old(core),
    {
        let trace = self.run_repo(core, repo);
        let ghost t = trace@;
        let r = run_result(trace, Ghost(self.tasks().len()));
        assert(fail_fast(t, self.tasks().len()) && repo_chain(self.tasks(), *repo, t) && r
            == first_failure(t));
        r
    }

    /// Runs the tasks in order and returns the first error unchanged.
    fn apply_scratchpad<F: FileSource, L: Launcher, R: Resolver, K: KeyChain>(
        &self,
        core: &mut Core<F, L, R, K>,
        scratch: &Scratchpad,
    ) -> (r: Result<(), Error>)
        ensures
            self.tasks().len() == 0 ==> r is Ok && *final(core) == *old(core),
    {
        let trace = self.run_scratchpad(core, scratch);
        let ghost t = trace@;
        let r = run_result(trace, Ghost(self.tasks().len()));
        assert(fail_fast(t, self.tasks().len()) && scratchpad_chain(self.tasks(), *scratch, t) && r
            == first_failure(t));
        r
    }
}
} // verus!
