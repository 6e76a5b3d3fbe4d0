//! Decisions and log text of the container-orchestration runner.
//!
//! The runner itself (spawning the CLI, streaming its output) is I/O and
//! lives outside this crate; here are the parts that can be pinned down: the
//! fixed argument vectors, the choice of working directory from the results
//! of probing candidate directories, and the exact text of the entries the
//! runner logs.

use crate::logger::LogEntry;
use vstd::prelude::*;

verus! {

/// `s` wrapped in double quotes.
pub open spec fn spec_quoted(s: Seq<char>) -> Seq<char> {
    "\""@ + s + "\""@
}

/// The arguments quoted and joined with `", "`, without the brackets.
pub open spec fn spec_quoted_items(args: Seq<Seq<char>>) -> Seq<char>
    decreases args.len(),
{
    if args.len() == 0 {
        Seq::empty()
    } else if args.len() == 1 {
        spec_quoted(args[0])
    } else {
        spec_quoted_items(args.drop_last()) + ", "@ + spec_quoted(args.last())
    }
}

/// An argument vector rendered for a log line: `["a", "b"]`.
pub open spec fn spec_quoted_list(args: Seq<Seq<char>>) -> Seq<char> {
    "["@ + spec_quoted_items(args) + "]"@
}

proof fn lemma_quoted_items_step(args: Seq<Seq<char>>, i: int)
    requires
        0 <= i < args.len(),
    ensures
        i == 0 ==> spec_quoted_items(args.take(1)) == spec_quoted(args[0]),
        i > 0 ==> spec_quoted_items(args.take(i + 1)) == spec_quoted_items(args.take(i)) + ", "@
            + spec_quoted(args[i]),
{
    let t = args.take(i + 1);
    if i == 0 {
        assert(t.len() == 1);
        assert(t[0] == args[0]);
    } else {
        assert(t.drop_last() =~= args.take(i));
        assert(t.last() == args[i]);
    }
}

/// Renders an argument vector the way the runner logs it: each argument
/// double-quoted, the list joined with `", "` inside square brackets.
pub fn quoted_list(args: &Vec<String>) -> (r: String)
    ensures
        r@ == spec_quoted_list(args.deep_view()),
{
    let mut items = String::new();
    let mut i: usize = 0;
    proof {
        assert(args.deep_view().take(0) =~= Seq::<Seq<char>>::empty());
    }
    while i < args.len()
        invariant
            i <= args@.len(),
            args.deep_view().len() == args@.len(),
            items@ == spec_quoted_items(args.deep_view().take(i as int)),
        decreases args@.len() - i,
    {
        if i > 0 {
            items.append(", ");
        }
        items.append("\"");
        items.append(args[i].as_str());
        items.append("\"");
        proof {
            lemma_quoted_items_step(args.deep_view(), i as int);
            assert(args.deep_view()[i as int] == args@[i as int]@);
            if i == 0 {
                assert(items@ =~= spec_quoted_items(args.deep_view().take(i + 1)));
            } else {
                assert(items@ =~= spec_quoted_items(args.deep_view().take(i + 1)));
            }
        }
        i = i + 1;
    }
    proof {
        assert(args.deep_view().take(args@.len() as int) =~= args.deep_view());
    }
    let mut r = String::from_str("[");
    r.append(items.as_str());
    r.append("]");
    proof {
        assert(r@ =~= spec_quoted_list(args.deep_view()));
    }
    r
}

/// The fixed argument vector of the orchestration CLI: bring the deployment
/// up (detached) or down.
pub open spec fn spec_compose_args(up: bool) -> Seq<Seq<char>> {
    if up {
        seq!["compose"@, "-f"@, "deploy/docker-compose.yml"@, "up"@, "-d"@]
    } else {
        seq!["compose"@, "-f"@, "deploy/docker-compose.yml"@, "down"@]
    }
}

/// Builds the orchestration CLI's argument vector.
pub fn compose_args(up: bool) -> (args: Vec<String>)
    ensures
        args.deep_view() == spec_compose_args(up),
{
    let mut args: Vec<String> = Vec::new();
    args.push("compose".to_owned());
    args.push("-f".to_owned());
    args.push("deploy/docker-compose.yml".to_owned());
    if up {
        args.push("up".to_owned());
        args.push("-d".to_owned());
    } else {
        args.push("down".to_owned());
    }
    proof {
        assert(args.deep_view() =~= spec_compose_args(up));
    }
    args
}

/// Picks the working directory for an orchestration command: given, for each
/// candidate directory walking upward from the current one, whether it holds
/// the deployment descriptor, returns the first hit, or `None` when no
/// candidate has it (the caller then falls back to the parent directory).
pub fn choose_project_root(probes: &Vec<bool>) -> (r: Option<usize>)
    ensures
        match r {
            Some(i) => i < probes@.len() && probes@[i as int] && forall|j: int|
                0 <= j < i ==> !probes@[j],
            None => forall|j: int| 0 <= j < probes@.len() ==> !probes@[j],
        },
{
    let mut i: usize = 0;
    while i < probes.len()
        invariant
            i <= probes@.len(),
            forall|j: int| 0 <= j < i ==> !probes@[j],
        decreases probes@.len() - i,
    {
        if probes[i] {
            return Some(i);
        }
        i = i + 1;
    }
    None
}

/// The entry logged when the upward search for the deployment descriptor
/// found nothing and the runner falls back to the parent directory.
pub fn root_fallback_entry() -> (e: LogEntry)
    ensures
        e@ == ("WARN"@, "Could not auto-detect project root. using default '..' path."@),
{
    LogEntry::new("WARN", "Could not auto-detect project root. using default '..' path.")
}

/// The entry logged when the upward search found the project root.
pub fn root_found_entry(root: &str) -> (e: LogEntry)
    ensures
        e@ == ("DEBUG"@, "Project Root Found: "@ + spec_quoted(root@)),
{
    let mut message = String::from_str("Project Root Found: ");
    message.append("\"");
    message.append(root);
    message.append("\"");
    proof {
        assert(message@ =~= "Project Root Found: "@ + spec_quoted(root@));
    }
    LogEntry { level: "DEBUG".to_owned(), message }
}

/// The entry logged when an orchestration command is launched.
pub fn docker_started_entry(args: &Vec<String>) -> (e: LogEntry)
    ensures
        e@ == ("CMD"@, "Running Docker: "@ + spec_quoted_list(args.deep_view())),
{
    let mut message = String::from_str("Running Docker: ");
    let list = quoted_list(args);
    message.append(list.as_str());
    LogEntry { level: "CMD".to_owned(), message }
}

/// The entry logged when an orchestration command has exited.
pub fn docker_finished_entry(args: &Vec<String>) -> (e: LogEntry)
    ensures
        e@ == ("DOCKER"@, "Command Finished: "@ + spec_quoted_list(args.deep_view())),
{
    let mut message = String::from_str("Command Finished: ");
    let list = quoted_list(args);
    message.append(list.as_str());
    LogEntry { level: "DOCKER".to_owned(), message }
}

/// The entry logged when the orchestration CLI could not be spawned.
pub fn docker_failed_entry(err: &str) -> (e: LogEntry)
    ensures
        e@ == ("ERROR"@, "Docker failed: "@ + err@),
{
    let mut message = String::from_str("Docker failed: ");
    message.append(err);
    LogEntry { level: "ERROR".to_owned(), message }
}

} // verus!
