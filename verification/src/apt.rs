//! Package-manager actions: install one package, install a set of packages,
//! add a repository, refresh the package cache. Each one plans the subprocess
//! to launch and judges its outcome here; an adapter performs the launch.

use vstd::prelude::*;

use crate::action::{ActionOutput, Operation, Probe};
use crate::command::{
    command_verdict, command_verdict_post, spawn_detail_view, spawn_failure, CommandOutcome,
    CommandSpec,
};
use crate::errors::ActionError;
use crate::resolve::{
    lemma_resolved_texts_error_persists, resolve_text, resolve_text_spec, resolved_texts_spec,
    ActionInput,
};
use crate::store::OutputStore;

verus! {

/// The idempotency verdict of a state query: a run is needed exactly when the
/// queried state is absent, and these actions support rollback.
pub open spec fn installed_probe(installed: bool) -> Probe {
    Probe { needs_run: !installed, can_rollback: true }
}

/// The verdict owed on an executed state query: a completed query decides the
/// probe from its exit status alone; a query that could not launch is the
/// action's failure.
pub open spec fn query_probe_post(
    summary: Seq<char>,
    program: Seq<char>,
    outcome: CommandOutcome,
    r: Result<Probe, ActionError>,
) -> bool {
    match outcome {
        CommandOutcome::SpawnError => r matches Err(ActionError::ActionFailed(s, d)) && s@
            == summary && d@ == spawn_detail_view(program),
        CommandOutcome::Completed { success, .. } => r == Ok::<Probe, ActionError>(
            installed_probe(success),
        ),
    }
}

/// Judge one executed state query.
fn query_probe_verdict(summary: &str, program: &str, outcome: &CommandOutcome) -> (r: Result<
    Probe,
    ActionError,
>)
    ensures
        query_probe_post(summary@, program@, *outcome, r),
{
    match outcome {
        CommandOutcome::SpawnError => Err(spawn_failure(summary, program)),
        CommandOutcome::Completed { success, .. } => Ok(
            Probe { needs_run: !*success, can_rollback: true },
        ),
    }
}

/// Probing is repeatable: the verdict is a function of the observed system
/// state alone, and a probe only borrows the store and the registry, so any
/// two probes of one action with no run between them — one observed system
/// state — return the same `Probe` value.
pub proof fn lemma_query_probe_repeatable(
    summary: Seq<char>,
    program: Seq<char>,
    outcome: CommandOutcome,
    r1: Result<Probe, ActionError>,
    r2: Result<Probe, ActionError>,
)
    requires
        query_probe_post(summary, program, outcome, r1),
        query_probe_post(summary, program, outcome, r2),
        outcome matches CommandOutcome::Completed { .. },
    ensures
        r1 == r2,
{
}

/// Whether a query outcome reports the probed state as already present: the
/// query completed and exited successfully.
pub open spec fn query_found(o: CommandOutcome) -> bool {
    o matches CommandOutcome::Completed { success: true, .. }
}

/// The package-presence query planned for one package name.
pub open spec fn dpkg_query_spec(c: CommandSpec, name: Seq<char>) -> bool {
    &&& c.program@ == "dpkg-query"@
    &&& c.args@.len() == 3
    &&& c.args@[0]@ == "-W"@
    &&& c.args@[1]@ == "-f='${Status}'"@
    &&& c.args@[2]@ == name
}

fn dpkg_query_command(name: String) -> (r: CommandSpec)
    ensures
        dpkg_query_spec(r, name@),
{
    let mut args: Vec<String> = Vec::new();
    args.push(String::from_str("-W"));
    args.push(String::from_str("-f='${Status}'"));
    args.push(name);
    CommandSpec { program: String::from_str("dpkg-query"), args }
}

/// Installs one package, and removes it again on rollback.
pub struct AptPackage {
    pub name: ActionInput<String>,
}

impl AptPackage {
    pub fn new(name: ActionInput<String>) -> (r: Self)
        ensures
            r.name == name,
    {
        AptPackage { name }
    }

    /// Plan the query that decides whether the package is already installed.
    pub fn probe_command(&self, store: &OutputStore) -> (r: Result<CommandSpec, ActionError>)
        ensures
            match resolve_text_spec(self.name, store@) {
                Ok(n) => r matches Ok(c) && dpkg_query_spec(c, n),
                Err(e) => r == Err::<CommandSpec, ActionError>(e),
            },
    {
        match resolve_text(&self.name, store) {
            Ok(name) => Ok(dpkg_query_command(name)),
            Err(e) => Err(e),
        }
    }

    /// Judge the executed query: the package needs a run exactly when the
    /// query did not find it, and a package install can be rolled back.
    pub fn probe_verdict(&self, outcome: &CommandOutcome) -> (r: Result<Probe, ActionError>)
        ensures
            query_probe_post(
                "Failed to check if package is installed"@,
                "dpkg-query"@,
                *outcome,
                r,
            ),
    {
        query_probe_verdict("Failed to check if package is installed", "dpkg-query", outcome)
    }

    /// Plan the command for the requested direction: install the package
    /// forward, remove it backward.
    pub fn run_command(&self, store: &OutputStore, op: Operation) -> (r: Result<
        CommandSpec,
        ActionError,
    >)
        ensures
            match resolve_text_spec(self.name, store@) {
                Ok(n) => r matches Ok(c) && c.program@ == "apt-get"@ && c.args@.len() == 3
                    && c.args@[0]@ == (if op == Operation::Perform {
                    "install"@
                } else {
                    "remove"@
                }) && c.args@[1]@ == "-y"@ && c.args@[2]@ == n,
                Err(e) => r == Err::<CommandSpec, ActionError>(e),
            },
    {
        let name = match resolve_text(&self.name, store) {
            Ok(n) => n,
            Err(e) => {
                return Err(e);
            },
        };
        let mut args: Vec<String> = Vec::new();
        if matches!(op, Operation::Perform) {
            args.push(String::from_str("install"));
        } else {
            args.push(String::from_str("remove"));
        }
        args.push(String::from_str("-y"));
        args.push(name);
        Ok(CommandSpec { program: String::from_str("apt-get"), args })
    }

    /// The user-facing summary of a failed run in the given direction.
    pub open spec fn run_summary(op: Operation) -> Seq<char> {
        if op == Operation::Perform {
            "Failed to install package"@
        } else {
            "Failed to remove package"@
        }
    }

    /// Judge the executed command: success yields no output, failure preserves
    /// the captured streams for the operator.
    pub fn run_verdict(&self, op: Operation, outcome: &CommandOutcome) -> (r: Result<
        Option<ActionOutput>,
        ActionError,
    >)
        ensures
            command_verdict_post(Self::run_summary(op), "apt-get"@, *outcome, r),
    {
        if matches!(op, Operation::Perform) {
            command_verdict("Failed to install package", "apt-get", outcome)
        } else {
            command_verdict("Failed to remove package", "apt-get", outcome)
        }
    }

    /// The human-readable label: names the package where it is a literal.
    pub fn display_name(&self) -> (r: String)
        ensures
            r@ == "Install APT package "@ + (match self.name {
                ActionInput::Static(n) => n@,
                ActionInput::Dynamic(_) => "<dynamic>"@,
            }),
    {
        let mut s = String::from_str("Install APT package ");
        match &self.name {
            ActionInput::Static(n) => s.append(n.as_str()),
            ActionInput::Dynamic(_) => s.append("<dynamic>"),
        }
        s
    }
}

/// Installs a set of packages in one command, and removes them on rollback.
pub struct AptPackages {
    pub names: Vec<ActionInput<String>>,
}

impl AptPackages {
    pub fn new(names: Vec<ActionInput<String>>) -> (r: Self)
        ensures
            r.names@ == names@,
    {
        AptPackages { names }
    }

    /// Plan one presence query per package, in order.
    pub fn probe_commands(&self, store: &OutputStore) -> (r: Result<Vec<CommandSpec>, ActionError>)
        ensures
            match resolved_texts_spec(self.names@, store@) {
                Ok(ns) => r matches Ok(cs) && cs@.len() == ns.len() && (forall|j: int|
                    0 <= j < ns.len() ==> dpkg_query_spec(cs@[j], ns[j])),
                Err(e) => r == Err::<Vec<CommandSpec>, ActionError>(e),
            },
    {
        let n = self.names.len();
        let mut cmds: Vec<CommandSpec> = Vec::new();
        let mut i: usize = 0;
        while i < n
            invariant
                0 <= i <= n,
                n == self.names@.len(),
                match resolved_texts_spec(self.names@.take(i as int), store@) {
                    Ok(ns) => cmds@.len() == ns.len() && ns.len() == i && (forall|j: int|
                        0 <= j < i ==> dpkg_query_spec(cmds@[j], ns[j])),
                    Err(_) => false,
                },
            decreases n - i,
        {
            proof {
                assert(self.names@.take(i as int + 1).drop_last() =~= self.names@.take(i as int));
                assert(self.names@.take(i as int + 1).last() == self.names@[i as int]);
            }
            match resolve_text(&self.names[i], store) {
                Ok(name) => {
                    cmds.push(dpkg_query_command(name));
                },
                Err(e) => {
                    proof {
                        lemma_resolved_texts_error_persists(
                            self.names@,
                            store@,
                            e,
                            i as int + 1,
                            n as int,
                        );
                        assert(self.names@.take(n as int) =~= self.names@);
                    }
                    return Err(e);
                },
            }
            i += 1;
        }
        proof {
            assert(self.names@.take(n as int) =~= self.names@);
        }
        Ok(cmds)
    }

    /// The verdict owed on the executed queries: if any query could not
    /// launch, the probe fails; otherwise a run is needed exactly when some
    /// package was not found, and the set supports rollback.
    pub open spec fn probe_post(
        outcomes: Seq<CommandOutcome>,
        r: Result<Probe, ActionError>,
    ) -> bool {
        if exists|i: int| 0 <= i < outcomes.len() && (#[trigger] outcomes[i]) is SpawnError {
            r matches Err(ActionError::ActionFailed(s, d)) && s@
                == "Failed to check if package is installed"@ && d@ == spawn_detail_view(
                "dpkg-query"@,
            )
        } else {
            r == Ok::<Probe, ActionError>(
                installed_probe(
                    forall|i: int| 0 <= i < outcomes.len() ==> query_found(#[trigger] outcomes[i]),
                ),
            )
        }
    }

    /// Judge the executed queries, one outcome per planned query.
    pub fn probe_verdict(&self, outcomes: &Vec<CommandOutcome>) -> (r: Result<Probe, ActionError>)
        ensures
            Self::probe_post(outcomes@, r),
    {
        let n = outcomes.len();
        let mut all_installed = true;
        let mut i: usize = 0;
        while i < n
            invariant
                0 <= i <= n,
                n == outcomes@.len(),
                forall|j: int| 0 <= j < i ==> !((#[trigger] outcomes@[j]) is SpawnError),
                all_installed == (forall|j: int|
                    0 <= j < i ==> query_found(#[trigger] outcomes@[j])),
            decreases n - i,
        {
            match &outcomes[i] {
                CommandOutcome::SpawnError => {
                    proof {
                        assert(outcomes@[i as int] is SpawnError);
                    }
                    return Err(
                        spawn_failure("Failed to check if package is installed", "dpkg-query"),
                    );
                },
                CommandOutcome::Completed { success, .. } => {
                    if !*success {
                        proof {
                            assert(!query_found(outcomes@[i as int]));
                        }
                        all_installed = false;
                    }
                },
            }
            i += 1;
        }
        Ok(Probe { needs_run: !all_installed, can_rollback: true })
    }

    /// Plan the one command for the requested direction: install every package
    /// forward, remove every package backward.
    pub fn run_command(&self, store: &OutputStore, op: Operation) -> (r: Result<
        CommandSpec,
        ActionError,
    >)
        ensures
            match resolved_texts_spec(self.names@, store@) {
                Ok(ns) => r matches Ok(c) && c.program@ == "apt-get"@ && c.args@.len() == 2
                    + ns.len() && c.args@[0]@ == (if op == Operation::Perform {
                    "install"@
                } else {
                    "remove"@
                }) && c.args@[1]@ == "-y"@ && (forall|j: int|
                    0 <= j < ns.len() ==> c.args@[j + 2]@ == ns[j]),
                Err(e) => r == Err::<CommandSpec, ActionError>(e),
            },
    {
        let mut args: Vec<String> = Vec::new();
        if matches!(op, Operation::Perform) {
            args.push(String::from_str("install"));
        } else {
            args.push(String::from_str("remove"));
        }
        args.push(String::from_str("-y"));
        let n = self.names.len();
        let mut i: usize = 0;
        while i < n
            invariant
                0 <= i <= n,
                n == self.names@.len(),
                args@.len() == 2 + i,
                args@[0]@ == (if op == Operation::Perform {
                    "install"@
                } else {
                    "remove"@
                }),
                args@[1]@ == "-y"@,
                match resolved_texts_spec(self.names@.take(i as int), store@) {
                    Ok(ns) => ns.len() == i && (forall|j: int|
                        0 <= j < i ==> args@[j + 2]@ == ns[j]),
                    Err(_) => false,
                },
            decreases n - i,
        {
            proof {
                assert(self.names@.take(i as int + 1).drop_last() =~= self.names@.take(i as int));
                assert(self.names@.take(i as int + 1).last() == self.names@[i as int]);
            }
            match resolve_text(&self.names[i], store) {
                Ok(name) => {
                    args.push(name);
                },
                Err(e) => {
                    proof {
                        lemma_resolved_texts_error_persists(
                            self.names@,
                            store@,
                            e,
                            i as int + 1,
                            n as int,
                        );
                        assert(self.names@.take(n as int) =~= self.names@);
                    }
                    return Err(e);
                },
            }
            i += 1;
        }
        proof {
            assert(self.names@.take(n as int) =~= self.names@);
        }
        Ok(CommandSpec { program: String::from_str("apt-get"), args })
    }

    /// The user-facing summary of a failed run in the given direction.
    pub open spec fn run_summary(op: Operation) -> Seq<char> {
        if op == Operation::Perform {
            "Failed to install packages"@
        } else {
            "Failed to remove packages"@
        }
    }

    /// Judge the executed command.
    pub fn run_verdict(&self, op: Operation, outcome: &CommandOutcome) -> (r: Result<
        Option<ActionOutput>,
        ActionError,
    >)
        ensures
            command_verdict_post(Self::run_summary(op), "apt-get"@, *outcome, r),
    {
        if matches!(op, Operation::Perform) {
            command_verdict("Failed to install packages", "apt-get", outcome)
        } else {
            command_verdict("Failed to remove packages", "apt-get", outcome)
        }
    }

    /// The human-readable label.
    pub fn display_name(&self) -> (r: String)
        ensures
            r@ == "Install APT packages"@,
    {
        String::from_str("Install APT packages")
    }
}

/// Probing a package set is repeatable: from one observed system state — one
/// list of query outcomes, none of which failed to launch — any two verdicts
/// carry the same `Probe` value.
pub proof fn lemma_packages_probe_repeatable(
    outcomes: Seq<CommandOutcome>,
    r1: Result<Probe, ActionError>,
    r2: Result<Probe, ActionError>,
)
    requires
        AptPackages::probe_post(outcomes, r1),
        AptPackages::probe_post(outcomes, r2),
        forall|i: int| 0 <= i < outcomes.len() ==> !((#[trigger] outcomes[i]) is SpawnError),
    ensures
        r1 == r2,
{
}

/// Adds a package repository, and removes it again on rollback.
pub struct AptRepository {
    pub url: ActionInput<String>,
}

impl AptRepository {
    pub fn new(url: ActionInput<String>) -> (r: Self)
        ensures
            r.url == url,
    {
        AptRepository { url }
    }

    /// Plan the query that decides whether the repository is already known.
    pub fn probe_command(&self, store: &OutputStore) -> (r: Result<CommandSpec, ActionError>)
        ensures
            match resolve_text_spec(self.url, store@) {
                Ok(u) => r matches Ok(c) && c.program@ == "apt-cache"@ && c.args@.len() == 2
                    && c.args@[0]@ == "policy"@ && c.args@[1]@ == u,
                Err(e) => r == Err::<CommandSpec, ActionError>(e),
            },
    {
        let url = match resolve_text(&self.url, store) {
            Ok(u) => u,
            Err(e) => {
                return Err(e);
            },
        };
        let mut args: Vec<String> = Vec::new();
        args.push(String::from_str("policy"));
        args.push(url);
        Ok(CommandSpec { program: String::from_str("apt-cache"), args })
    }

    /// Judge the executed query.
    pub fn probe_verdict(&self, outcome: &CommandOutcome) -> (r: Result<Probe, ActionError>)
        ensures
            query_probe_post(
                "Failed to check if repository is installed"@,
                "apt-cache"@,
                *outcome,
                r,
            ),
    {
        query_probe_verdict("Failed to check if repository is installed", "apt-cache", outcome)
    }

    /// Plan the command for the requested direction: add the repository
    /// forward, remove it backward.
    pub fn run_command(&self, store: &OutputStore, op: Operation) -> (r: Result<
        CommandSpec,
        ActionError,
    >)
        ensures
            match resolve_text_spec(self.url, store@) {
                Ok(u) => r matches Ok(c) && c.program@ == "add-apt-repository"@ && (if op
                    == Operation::Perform {
                    c.args@.len() == 1 && c.args@[0]@ == u
                } else {
                    c.args@.len() == 2 && c.args@[0]@ == "-r"@ && c.args@[1]@ == u
                }),
                Err(e) => r == Err::<CommandSpec, ActionError>(e),
            },
    {
        let url = match resolve_text(&self.url, store) {
            Ok(u) => u,
            Err(e) => {
                return Err(e);
            },
        };
        let mut args: Vec<String> = Vec::new();
        if !matches!(op, Operation::Perform) {
            args.push(String::from_str("-r"));
        }
        args.push(url);
        Ok(CommandSpec { program: String::from_str("add-apt-repository"), args })
    }

    /// The user-facing summary of a failed run in the given direction.
    pub open spec fn run_summary(op: Operation) -> Seq<char> {
        if op == Operation::Perform {
            "Failed to add repository"@
        } else {
            "Failed to remove repository"@
        }
    }

    /// Judge the executed command.
    pub fn run_verdict(&self, op: Operation, outcome: &CommandOutcome) -> (r: Result<
        Option<ActionOutput>,
        ActionError,
    >)
        ensures
            command_verdict_post(Self::run_summary(op), "add-apt-repository"@, *outcome, r),
    {
        if matches!(op, Operation::Perform) {
            command_verdict("Failed to add repository", "add-apt-repository", outcome)
        } else {
            command_verdict("Failed to remove repository", "add-apt-repository", outcome)
        }
    }

    /// The human-readable label.
    pub fn display_name(&self) -> (r: String)
        ensures
            r@ == "Add repository"@,
    {
        String::from_str("Add repository")
    }
}

/// Refreshes the package cache. The refresh has no meaningful undo, so its
/// probe reports that rollback is unsupported and its run refuses the rollback
/// direction.
#[derive(Default)]
pub struct AptUpdate;

impl AptUpdate {
    pub fn new() -> (r: Self)
        ensures
            r == AptUpdate,
    {
        AptUpdate
    }

    /// The probe: a cache refresh is always wanted and cannot be undone.
    pub open spec fn probe_post(r: Result<Probe, ActionError>) -> bool {
        r == Ok::<Probe, ActionError>(Probe { needs_run: true, can_rollback: false })
    }

    pub fn probe(&self) -> (r: Result<Probe, ActionError>)
        ensures
            Self::probe_post(r),
    {
        Ok(Probe { needs_run: true, can_rollback: false })
    }

    /// Everything planning the run promises: rollback is refused outright, and
    /// a perform plans the one cache-refresh command.
    pub open spec fn run_command_post(op: Operation, r: Result<CommandSpec, ActionError>) -> bool {
        &&& op == Operation::Rollback ==> r == Err::<CommandSpec, ActionError>(
            ActionError::OperationNotSupported,
        )
        &&& op == Operation::Perform ==> (r matches Ok(c) && c.program@ == "apt-get"@
            && c.args@.len() == 1 && c.args@[0]@ == "update"@)
    }

    /// Plan the command for the requested direction.
    pub fn run_command(&self, op: Operation) -> (r: Result<CommandSpec, ActionError>)
        ensures
            Self::run_command_post(op, r),
    {
        if matches!(op, Operation::Rollback) {
            return Err(ActionError::OperationNotSupported);
        }
        let mut args: Vec<String> = Vec::new();
        args.push(String::from_str("update"));
        Ok(CommandSpec { program: String::from_str("apt-get"), args })
    }

    /// Judge the executed refresh.
    pub fn run_verdict(&self, outcome: &CommandOutcome) -> (r: Result<
        Option<ActionOutput>,
        ActionError,
    >)
        ensures
            command_verdict_post("Failed to update APT cache"@, "apt-get"@, *outcome, r),
    {
        command_verdict("Failed to update APT cache", "apt-get", outcome)
    }

    /// The human-readable label.
    pub fn display_name(&self) -> (r: String)
        ensures
            r@ == "Update APT Cache"@,
    {
        String::from_str("Update APT Cache")
    }
}

/// Probing the cache refresh is repeatable and pure: the probe reads no
/// evidence and borrows nothing mutably, so any two of its verdicts are the
/// same `Probe` value.
pub proof fn lemma_update_probe_repeatable(
    r1: Result<Probe, ActionError>,
    r2: Result<Probe, ActionError>,
)
    requires
        AptUpdate::probe_post(r1),
        AptUpdate::probe_post(r2),
    ensures
        r1 == r2,
{
}

/// A rollback demanded of the cache refresh is refused, not silently ignored:
/// every probe verdict reports `can_rollback == false`, and every answer of
/// `run_command` to the rollback direction is `OperationNotSupported`, so no
/// command reaches the system.
pub proof fn lemma_update_rollback_refused(
    pr: Result<Probe, ActionError>,
    rr: Result<CommandSpec, ActionError>,
)
    requires
        AptUpdate::probe_post(pr),
        AptUpdate::run_command_post(Operation::Rollback, rr),
    ensures
        pr matches Ok(p) && !p.can_rollback,
        rr == Err::<CommandSpec, ActionError>(ActionError::OperationNotSupported),
{
}

} // verus!
