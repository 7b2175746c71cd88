//! How the backend is launched: its arguments, where its files lie, and
//! the environment it is given.

use vstd::prelude::*;
use vstd::string::StringExecFns;
use crate::probe::{backend_host, backend_port};

verus! {

/// The texts of a sequence of strings.
pub open spec fn text_views(strings: Seq<String>) -> Seq<Seq<char>> {
    strings.map_values(|s: String| s@)
}

/// The texts of a sequence of name and value pairs.
pub open spec fn pair_views(pairs: Seq<(String, String)>) -> Seq<(Seq<char>, Seq<char>)> {
    pairs.map_values(|p: (String, String)| (p.0@, p.1@))
}

/// The arguments of the backend: the host and the port to listen on, the
/// same that the health endpoint is asked at.
pub fn backend_args() -> (args: Vec<String>)
    ensures
        text_views(args@) == seq!["--host"@, "127.0.0.1"@, "--port"@, "8000"@],
{
    let mut args: Vec<String> = Vec::new();
    args.push(String::from_str("--host"));
    args.push(String::from_str(backend_host()));
    args.push(String::from_str("--port"));
    args.push(String::from_str(backend_port()));
    assert(text_views(args@) =~= seq!["--host"@, "127.0.0.1"@, "--port"@, "8000"@]);
    args
}

/// Where the backend executable lies below the resource directory, one
/// path component after the other.
pub fn backend_location() -> (parts: Vec<String>)
    ensures
        text_views(parts@) == seq!["resources"@, "teletraan-backend"@, "teletraan-backend"@],
{
    let mut parts: Vec<String> = Vec::new();
    parts.push(String::from_str("resources"));
    parts.push(String::from_str("teletraan-backend"));
    parts.push(String::from_str("teletraan-backend"));
    assert(text_views(parts@) =~= seq![
        "resources"@,
        "teletraan-backend"@,
        "teletraan-backend"@,
    ]);
    parts
}

/// The directory below the data directory that the backend expects to
/// find.
pub fn data_subdir() -> (name: &'static str)
    ensures
        name@ == "data"@,
{
    "data"
}

/// Where the database lies below the data directory, one path component
/// after the other.
pub fn database_location() -> (parts: Vec<String>)
    ensures
        text_views(parts@) == seq!["data"@, "market-analyzer.db"@],
{
    let mut parts: Vec<String> = Vec::new();
    parts.push(String::from_str(data_subdir()));
    parts.push(String::from_str("market-analyzer.db"));
    assert(text_views(parts@) =~= seq!["data"@, "market-analyzer.db"@]);
    parts
}

/// The name of the log file in the data directory.
pub fn log_file_name() -> (name: &'static str)
    ensures
        name@ == "backend.log"@,
{
    "backend.log"
}

/// The name of the variable that carries the connection string.
pub fn database_variable() -> (name: &'static str)
    ensures
        name@ == "DATABASE_URL"@,
{
    "DATABASE_URL"
}

pub open spec fn spec_database_url(db_path: Seq<char>) -> Seq<char> {
    "sqlite+aiosqlite:///"@ + db_path
}

/// The connection string for the database at the given path.
pub fn database_url(db_path: &str) -> (url: String)
    ensures
        url@ == spec_database_url(db_path@),
{
    let mut url = String::from_str("sqlite+aiosqlite:///");
    url.append(db_path);
    url
}

/// The variables by which a child would take itself to be running inside
/// a session of the tool that started the parent. A backend that inherits
/// one of them refuses to open a session of its own, so none may reach
/// it.
pub open spec fn session_marker(name: Seq<char>) -> bool {
    name == "CLAUDECODE"@ || name == "CLAUDE_CODE_ENTRYPOINT"@
}

/// The names of the session markers.
pub fn session_markers() -> (names: Vec<String>)
    ensures
        text_views(names@) == seq!["CLAUDECODE"@, "CLAUDE_CODE_ENTRYPOINT"@],
        forall|i: int| 0 <= i < names@.len() ==> session_marker(#[trigger] names@[i]@),
{
    let mut names: Vec<String> = Vec::new();
    names.push(String::from_str("CLAUDECODE"));
    names.push(String::from_str("CLAUDE_CODE_ENTRYPOINT"));
    assert(text_views(names@) =~= seq!["CLAUDECODE"@, "CLAUDE_CODE_ENTRYPOINT"@]);
    names
}

pub fn is_session_marker(name: &str) -> (yes: bool)
    ensures
        yes == session_marker(name@),
{
    let name = String::from_str(name);
    name == String::from_str("CLAUDECODE") || name == String::from_str("CLAUDE_CODE_ENTRYPOINT")
}

/// Whether a variable of the parent's environment reaches the child: no
/// session marker does, and with `own_database` the parent's connection
/// string does not either.
pub open spec fn passes(name: Seq<char>, own_database: bool) -> bool {
    !session_marker(name) && !(own_database && name == "DATABASE_URL"@)
}

/// The variables of an environment that pass, in their order.
pub open spec fn passing(env: Seq<(Seq<char>, Seq<char>)>, own_database: bool) -> Seq<
    (Seq<char>, Seq<char>),
>
    decreases env.len(),
{
    if env.len() == 0 {
        Seq::empty()
    } else if passes(env.last().0, own_database) {
        passing(env.drop_last(), own_database).push(env.last())
    } else {
        passing(env.drop_last(), own_database)
    }
}

fn retain_passing(ambient: &Vec<(String, String)>, own_database: bool) -> (kept: Vec<
    (String, String),
>)
    ensures
        pair_views(kept@) == passing(pair_views(ambient@), own_database),
{
    let mut kept: Vec<(String, String)> = Vec::new();
    let mut next: usize = 0;
    assert(pair_views(ambient@).take(0) =~= Seq::empty());
    assert(pair_views(kept@) =~= Seq::empty());
    while next < ambient.len()
        invariant
            next <= ambient.len(),
            pair_views(kept@) == passing(pair_views(ambient@).take(next as int), own_database),
        decreases ambient.len() - next,
    {
        let ghost seen = pair_views(ambient@).take(next as int + 1);
        assert(seen.drop_last() =~= pair_views(ambient@).take(next as int));
        assert(seen.last() == (ambient@[next as int].0@, ambient@[next as int].1@));
        let name = ambient[next].0.clone();
        let marker = is_session_marker(name.as_str());
        let shadowed = own_database && name == String::from_str(database_variable());
        if !marker && !shadowed {
            let ghost before = pair_views(kept@);
            kept.push((name, ambient[next].1.clone()));
            assert(pair_views(kept@) =~= before.push(seen.last()));
        }
        next = next + 1;
    }
    assert(pair_views(ambient@).take(next as int) =~= pair_views(ambient@));
    kept
}

/// Strips the session markers from an environment and leaves the rest as
/// it is, in its order.
pub fn sanitize_environment(ambient: &Vec<(String, String)>) -> (clean: Vec<(String, String)>)
    ensures
        pair_views(clean@) == passing(pair_views(ambient@), false),
{
    retain_passing(ambient, false)
}

/// The environment of the child, made from the parent's.
pub open spec fn spec_child_environment(
    ambient: Seq<(Seq<char>, Seq<char>)>,
    url: Seq<char>,
) -> Seq<(Seq<char>, Seq<char>)> {
    passing(ambient, true).push(("DATABASE_URL"@, url))
}

/// The environment that the backend is started in: the parent's without
/// the session markers, and with the connection string set to `url` in
/// place of any the parent had.
pub fn child_environment(ambient: &Vec<(String, String)>, url: &str) -> (env: Vec<
    (String, String),
>)
    ensures
        pair_views(env@) == spec_child_environment(pair_views(ambient@), url@),
{
    let mut env = retain_passing(ambient, true);
    let ghost before = pair_views(env@);
    env.push((String::from_str(database_variable()), String::from_str(url)));
    assert(pair_views(env@) =~= before.push(("DATABASE_URL"@, url@)));
    env
}

/// No session marker is left in what passes, every variable that passes
/// was in the environment, and nothing is added.
pub proof fn lemma_passing_is_clean(env: Seq<(Seq<char>, Seq<char>)>, own_database: bool)
    ensures
        passing(env, own_database).len() <= env.len(),
        forall|i: int|
            0 <= i < passing(env, own_database).len() ==> !session_marker(
                (#[trigger] passing(env, own_database)[i]).0,
            ) && env.contains(passing(env, own_database)[i]),
        forall|i: int|
            0 <= i < env.len() && passes((#[trigger] env[i]).0, own_database) ==> passing(
                env,
                own_database,
            ).contains(env[i]),
    decreases env.len(),
{
    if env.len() > 0 {
        let shorter = env.drop_last();
        lemma_passing_is_clean(shorter, own_database);
        let kept = passing(env, own_database);
        let kept_shorter = passing(shorter, own_database);
        assert forall|i: int| 0 <= i < kept.len() implies !session_marker((#[trigger] kept[i]).0)
            && env.contains(kept[i]) by {
            if i < kept_shorter.len() {
                assert(kept[i] == kept_shorter[i]);
                let j = choose|j: int| 0 <= j < shorter.len() && shorter[j] == kept_shorter[i];
                assert(env[j] == kept[i]);
            } else {
                assert(kept[i] == env.last());
                assert(env[env.len() - 1] == kept[i]);
            }
        }
        assert forall|i: int|
            0 <= i < env.len() && passes((#[trigger] env[i]).0, own_database) implies kept.contains(
            env[i],
        ) by {
            if i < shorter.len() {
                assert(shorter[i] == env[i]);
                let j = choose|j: int| 0 <= j < kept_shorter.len() && kept_shorter[j] == shorter[i];
                assert(kept[j] == env[i]);
            } else {
                assert(kept[kept.len() - 1] == env[i]);
            }
        }
    }
}

/// Sanitizing a clean environment changes nothing, and so sanitizing
/// twice is sanitizing once.
pub proof fn lemma_sanitize_is_idempotent(env: Seq<(Seq<char>, Seq<char>)>, own_database: bool)
    ensures
        passing(passing(env, own_database), own_database) == passing(env, own_database),
    decreases env.len(),
{
    if env.len() > 0 {
        lemma_sanitize_is_idempotent(env.drop_last(), own_database);
        if passes(env.last().0, own_database) {
            let inner = passing(env.drop_last(), own_database);
            assert(inner.push(env.last()).drop_last() =~= inner);
        }
    }
}

/// Everything that spawning the backend needs to be told.
#[derive(Clone, Debug, PartialEq, Eq)]
pub struct SpawnPlan {
    /// The executable.
    pub program: String,
    pub args: Vec<String>,
    /// The directory the backend runs in: the data directory.
    pub working_dir: String,
    /// The variables to set on top of the inherited environment.
    pub env_set: Vec<(String, String)>,
    /// The variables to take out of the inherited environment.
    pub env_remove: Vec<String>,
}

/// The plan for spawning the backend. Both console streams of the child
/// are to be piped, so that they can be captured.
pub fn spawn_plan(program: String, data_dir: String, db_path: &str) -> (plan: SpawnPlan)
    ensures
        plan.program == program,
        plan.working_dir == data_dir,
        text_views(plan.args@) == seq!["--host"@, "127.0.0.1"@, "--port"@, "8000"@],
        pair_views(plan.env_set@) == seq![("DATABASE_URL"@, spec_database_url(db_path@))],
        text_views(plan.env_remove@) == seq!["CLAUDECODE"@, "CLAUDE_CODE_ENTRYPOINT"@],
{
    let mut env_set: Vec<(String, String)> = Vec::new();
    env_set.push((String::from_str(database_variable()), database_url(db_path)));
    assert(pair_views(env_set@) =~= seq![("DATABASE_URL"@, spec_database_url(db_path@))]);
    SpawnPlan {
        program,
        args: backend_args(),
        working_dir: data_dir,
        env_set,
        env_remove: session_markers(),
    }
}

} // verus!
