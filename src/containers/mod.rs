use vstd::prelude::*;

pub mod bitcoin_container;
pub mod local_validator_container;
pub mod titan_container;

verus! {

/// Everything the instance launcher needs to start one service container.
pub struct LaunchPlan {
    pub container_name: String,
    pub image_name: String,
    pub image_tag: String,
    /// Ports mapped one to one between the host and the container.
    pub ports: Vec<u16>,
    /// Environment variables, in the order they are set.
    pub env: Vec<(String, String)>,
    /// The command line; empty means the image's own entry point.
    pub cmd: Vec<String>,
    /// A line the container must print on stdout before it counts as launched.
    pub wait_for_stdout: Option<String>,
    pub startup_timeout_ms: u64,
}

/// The texts held by a vector of strings.
pub open spec fn texts(v: Seq<String>) -> Seq<Seq<char>> {
    v.map_values(|s: String| s@)
}

/// The name/value texts held by a vector of environment variables.
pub open spec fn env_texts(v: Seq<(String, String)>) -> Seq<(Seq<char>, Seq<char>)> {
    v.map_values(|p: (String, String)| (p.0@, p.1@))
}

/// `name` when no run identity is given, otherwise `name-run_id`.
pub open spec fn instance_name(name: Seq<char>, run_id: Seq<char>) -> Seq<char> {
    if run_id.len() == 0 {
        name
    } else {
        name + "-"@ + run_id
    }
}

/// The container name for one run: a fixed base name, suffixed with the run identity
/// when there is one, so that concurrent runs on one host do not collide.
pub fn make_instance_name(name: &str, run_id: &String) -> (r: String)
    ensures
        r@ == instance_name(name@, run_id@),
{
    let base = String::from_str(name);
    if run_id.as_str().is_empty() {
        base
    } else {
        base.concat("-").concat(run_id.as_str())
    }
}

/// `prefix` followed by the text of `s`.
pub fn prefixed(prefix: &str, s: &String) -> (r: String)
    ensures
        r@ == prefix@ + s@,
{
    String::from_str(prefix).concat(s.as_str())
}

/// A pair of texts as an environment variable.
pub fn env_var(name: &str, value: &str) -> (r: (String, String))
    ensures
        r.0@ == name@,
        r.1@ == value@,
{
    (String::from_str(name), String::from_str(value))
}

} // verus!
