//! The launch planner: stateless computation of everything a spawn needs —
//! a free port, the server URL, the argument vector, and the single
//! provider-specific environment variable.

use vstd::prelude::*;
use vstd::string::StringExecFns;
use crate::errors::ServerError;
use crate::text;

verus! {

/// Provider configuration handed along with a start request; transient,
/// never stored.
#[derive(Debug, Clone)]
pub struct OpenCodeConfig {
    pub provider: String,
    pub model: String,
    pub api_key: Option<String>,
}

/// The closed set of providers the environment table knows.  A provider
/// name outside the table maps to `Other`, which sets no variable.
#[derive(Debug, Clone, Copy, PartialEq, Eq, Structural)]
pub enum Provider {
    Openrouter,
    Anthropic,
    Openai,
    Google,
    Other,
}

/// One environment variable of the spawn plan.
#[derive(Debug, Clone)]
pub struct EnvVar {
    pub name: String,
    pub value: String,
}

/// Everything the host needs to spawn the server: the chosen port, the
/// working directory (the project path), the argument vector, and at most
/// one provider environment variable.
#[derive(Debug, Clone)]
pub struct LaunchPlan {
    pub port: u16,
    pub project_path: String,
    pub args: Vec<String>,
    pub env: Option<EnvVar>,
}

/// Which provider a configuration names.
pub open spec fn provider_of(name: Seq<char>) -> Provider {
    if name == "openrouter"@ {
        Provider::Openrouter
    } else if name == "anthropic"@ {
        Provider::Anthropic
    } else if name == "openai"@ {
        Provider::Openai
    } else if name == "google"@ {
        Provider::Google
    } else {
        Provider::Other
    }
}

/// The fixed provider table: which environment variable carries the API key
/// of each provider.  Unknown providers set no variable.
pub open spec fn provider_env_var(p: Provider) -> Option<Seq<char>> {
    match p {
        Provider::Openrouter => Some("OPENROUTER_API_KEY"@),
        Provider::Anthropic => Some("ANTHROPIC_API_KEY"@),
        Provider::Openai => Some("OPENAI_API_KEY"@),
        Provider::Google => Some("GOOGLE_API_KEY"@),
        Provider::Other => None,
    }
}

/// The environment variable a configuration yields: its name and its value,
/// or nothing when there is no configuration, no API key, or no table entry
/// for the provider.
pub open spec fn env_pair(config: Option<OpenCodeConfig>) -> Option<(Seq<char>, Seq<char>)> {
    match config {
        Some(c) => match c.api_key {
            Some(key) => match provider_env_var(provider_of(c.provider@)) {
                Some(name) => Some((name, key@)),
                None => None,
            },
            None => None,
        },
        None => None,
    }
}

/// The argument vector of a launch:
/// `serve --port <port> --hostname 127.0.0.1`.
pub open spec fn argv_spec(port: u16) -> Seq<Seq<char>> {
    seq!["serve"@, "--port"@, text::decimal_of(port as nat), "--hostname"@, "127.0.0.1"@]
}

/// The URL on which the spawned server listens.
pub open spec fn url_of(port: u16) -> Seq<char> {
    "http://127.0.0.1:"@ + text::decimal_of(port as nat)
}

/// What a well-built plan says for a path, a configuration and a port.
pub open spec fn plan_matches(
    p: LaunchPlan,
    path: Seq<char>,
    config: Option<OpenCodeConfig>,
    port: u16,
) -> bool {
    &&& p.port == port
    &&& p.project_path@ == path
    &&& p.args.deep_view() == argv_spec(port)
    &&& (p.env is Some <==> env_pair(config) is Some)
    &&& (p.env matches Some(e) ==> env_pair(config) matches Some(pair) && e.name@ == pair.0
        && e.value@ == pair.1)
}

/// Distinct ports derive distinct URLs: the fixed prefix and the
/// injectivity of the decimal rendering leave the port readable off the
/// URL.
pub proof fn lemma_url_injective(a: u16, b: u16)
    requires
        a != b,
    ensures
        url_of(a) != url_of(b),
{
    text::lemma_decimal_injective(a as nat, b as nat);
    let p = "http://127.0.0.1:"@;
    let x = text::decimal_of(a as nat);
    let y = text::decimal_of(b as nat);
    if url_of(a) == url_of(b) {
        assert(url_of(a) == p + x);
        assert(url_of(b) == p + y);
        assert((p + x).len() == p.len() + x.len());
        assert((p + y).len() == p.len() + y.len());
        assert(x.len() == y.len());
        assert forall|i: int| 0 <= i < x.len() implies x[i] == y[i] by {
            assert((p + x)[p.len() + i] == x[i]);
            assert((p + y)[p.len() + i] == y[i]);
        }
        assert(x =~= y);
    }
}

/// Which provider a name denotes, per the fixed table.
pub fn parse_provider(name: &str) -> (p: Provider)
    ensures
        p == provider_of(name@),
{
    if text::str_eq(name, "openrouter") {
        Provider::Openrouter
    } else if text::str_eq(name, "anthropic") {
        Provider::Anthropic
    } else if text::str_eq(name, "openai") {
        Provider::Openai
    } else if text::str_eq(name, "google") {
        Provider::Google
    } else {
        Provider::Other
    }
}

/// The name of the environment variable for a provider, if the table has
/// one.
pub fn provider_env_var_name(p: Provider) -> (r: Option<&'static str>)
    ensures
        (r is Some <==> provider_env_var(p) is Some),
        r matches Some(name) ==> provider_env_var(p) matches Some(n) && name@ == n,
{
    match p {
        Provider::Openrouter => Some("OPENROUTER_API_KEY"),
        Provider::Anthropic => Some("ANTHROPIC_API_KEY"),
        Provider::Openai => Some("OPENAI_API_KEY"),
        Provider::Google => Some("GOOGLE_API_KEY"),
        Provider::Other => None,
    }
}

/// The provider environment variable for a launch, per the fixed table:
/// exactly one variable when a configuration carries an API key for a known
/// provider, none otherwise.
pub fn build_environment(config: &Option<OpenCodeConfig>) -> (r: Option<EnvVar>)
    ensures
        (r is Some <==> env_pair(*config) is Some),
        r matches Some(e) ==> env_pair(*config) matches Some(pair) && e.name@ == pair.0
            && e.value@ == pair.1,
{
    match config {
        Some(c) => match &c.api_key {
            Some(key) => {
                let p = parse_provider(c.provider.as_str());
                match provider_env_var_name(p) {
                    Some(name) => Some(
                        EnvVar { name: String::from_str(name), value: key.clone() },
                    ),
                    None => None,
                }
            },
            None => None,
        },
        None => None,
    }
}

/// The fixed argument vector of a launch.
pub fn build_argv(port: u16) -> (v: Vec<String>)
    ensures
        v.deep_view() == argv_spec(port),
{
    let mut v: Vec<String> = Vec::new();
    v.push(String::from_str("serve"));
    v.push(String::from_str("--port"));
    v.push(text::decimal_string(port));
    v.push(String::from_str("--hostname"));
    v.push(String::from_str("127.0.0.1"));
    proof {
        assert(v.deep_view() =~~= argv_spec(port));
    }
    v
}

/// The URL on which the server at `port` listens, as an owned string.
pub fn build_url(port: u16) -> (s: String)
    ensures
        s@ == url_of(port),
{
    let mut s = String::from_str("http://127.0.0.1:");
    text::push_decimal(&mut s, port);
    s
}

/// Relies on `portpicker::pick_unused_port`: asks the operating system for
/// a port that is currently free on both TCP and UDP, or `None` when none
/// could be found.  Which port comes back depends on the machine, so
/// nothing is promised of the value.
#[verifier::external_body]
fn find_available_port() -> (r: Option<u16>)
{
    portpicker::pick_unused_port()
}

/// A free port from the operating system, or `NoPortAvailable` when the
/// port source reports none.
pub fn pick_port() -> (r: Result<u16, ServerError>)
    ensures
        r matches Err(e) ==> e == ServerError::NoPortAvailable,
{
    match find_available_port() {
        Some(port) => Ok(port),
        None => Err(ServerError::NoPortAvailable),
    }
}

/// The complete spawn plan for a path, a configuration and an
/// already-chosen port.
pub fn build_plan(project_path: &String, config: &Option<OpenCodeConfig>, port: u16) -> (p:
    LaunchPlan)
    ensures
        plan_matches(p, project_path@, *config, port),
{
    LaunchPlan {
        port,
        project_path: project_path.clone(),
        args: build_argv(port),
        env: build_environment(config),
    }
}

/// The complete spawn plan for a path and a configuration, around a port
/// freshly obtained from the operating system; `NoPortAvailable` when the
/// port source reports none.
pub fn plan_launch(project_path: &String, config: &Option<OpenCodeConfig>) -> (r: Result<
    LaunchPlan,
    ServerError,
>)
    ensures
        r matches Ok(p) ==> plan_matches(p, project_path@, *config, p.port),
        r matches Err(e) ==> e == ServerError::NoPortAvailable,
{
    match pick_port() {
        Ok(port) => Ok(build_plan(project_path, config, port)),
        Err(e) => Err(e),
    }
}

} // verus!
