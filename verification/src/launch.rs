//! From the arguments of a `run` request to the configuration of a unit.

use crate::container::{ContainerConfig, NetworkMode, ResourceLimits};
use crate::environment::{put, set_variable, unique_keys, Pairs};
use crate::sandbox::config::MAX_CPU_PERCENT;
use crate::text::{after_first, before_first, split_first};
use vstd::prelude::*;

verus! {

/// Why a `run` request cannot be turned into a configuration.
#[derive(Debug, Clone, PartialEq, Eq)]
pub enum LaunchError {
    /// An environment variable is not of the form `NAME=value`.
    InvalidEnvironmentVariable(String),
    /// The network mode is neither `none` nor `host`.
    UnknownNetworkMode(String),
    /// The memory limit is zero.
    ZeroMemoryLimit,
    /// The CPU limit is above 100 percent.
    CpuLimitAboveWhole,
}

/// The name in `NAME=value`: what stands before the first `=`.
pub open spec fn key_of(s: Seq<char>) -> Seq<char> {
    before_first(s, '=')
}

/// The value in `NAME=value`: what stands after the first `=`.
pub open spec fn value_of(s: Seq<char>) -> Seq<char> {
    after_first(s, '=')
}

/// The environment that the first `n` of `vars` set, each `NAME=value`
/// after the other.
pub open spec fn environment_of(vars: Seq<Seq<char>>, n: int) -> Pairs
    decreases n,
{
    if n <= 0 {
        Seq::empty()
    } else {
        put(environment_of(vars, n - 1), key_of(vars[n - 1]), value_of(vars[n - 1]))
    }
}

/// The place of the first of the first `n` of `vars` that holds no `=`.
pub open spec fn first_malformed(vars: Seq<Seq<char>>, n: int) -> Option<int>
    decreases n,
{
    if n <= 0 {
        None
    } else {
        match first_malformed(vars, n - 1) {
            Some(i) => Some(i),
            None => if vars[n - 1].contains('=') {
                None
            } else {
                Some(n - 1)
            },
        }
    }
}

/// The name of a unit that was given none: `wasm-` and the first eight
/// characters of an identifier.
pub open spec fn default_name_of(id: Seq<char>) -> Seq<char> {
    "wasm-"@ + id.subrange(0, if id.len() < 8 {
        id.len() as int
    } else {
        8
    })
}

/// Splits `NAME=value` at its first `=`. A text without `=` is no variable.
pub fn parse_env_var(text: &str) -> (r: Option<(String, String)>)
    ensures
        r is Some <==> text@.contains('='),
        r matches Some((key, value)) ==> key@ == key_of(text@) && value@ == value_of(text@),
{
    split_first(text, '=')
}

/// The environment that the variables set, each `NAME=value` after the
/// other. Fails on the first text without `=`, which the failure carries.
pub fn parse_environment(vars: &Vec<String>) -> (r: Result<Vec<(String, String)>, LaunchError>)
    ensures
        match first_malformed(vars.deep_view(), vars.len() as int) {
            Some(i) => r matches Err(LaunchError::InvalidEnvironmentVariable(text)) && text@
                == vars@[i]@,
            None => r matches Ok(env) && env.deep_view() == environment_of(
                vars.deep_view(),
                vars.len() as int,
            ) && unique_keys(env.deep_view()),
        },
{
    let mut environment: Vec<(String, String)> = Vec::new();
    let mut i: usize = 0;
    assert(environment.deep_view() =~= environment_of(vars.deep_view(), 0));
    while i < vars.len()
        invariant
            i <= vars.len(),
            first_malformed(vars.deep_view(), i as int) is None,
            environment.deep_view() == environment_of(vars.deep_view(), i as int),
            unique_keys(environment.deep_view()),
        decreases vars.len() - i,
    {
        assert(vars.deep_view()[i as int] == vars@[i as int]@);
        match parse_env_var(vars[i].as_str()) {
            Some((key, value)) => {
                set_variable(&mut environment, key, value);
            },
            None => {
                proof {
                    lemma_first_malformed_stays(vars.deep_view(), i as int, vars.len() as int);
                }
                return Err(LaunchError::InvalidEnvironmentVariable(vars[i].clone()));
            },
        }
        i += 1;
    }
    Ok(environment)
}

/// The first malformed variable stays the first however many follow.
pub proof fn lemma_first_malformed_stays(vars: Seq<Seq<char>>, k: int, n: int)
    requires
        0 <= k < n,
        first_malformed(vars, k) is None,
        !vars[k].contains('='),
    ensures
        first_malformed(vars, n) == Some(k),
    decreases n,
{
    if n > k + 1 {
        lemma_first_malformed_stays(vars, k, n - 1);
    }
}

/// Reads a network mode: `none` or `host`.
pub fn parse_network_mode(text: &str) -> (mode: Option<NetworkMode>)
    ensures
        text@ == "none"@ ==> mode == Some(NetworkMode::Closed),
        text@ == "host"@ ==> mode == Some(NetworkMode::Host),
        text@ != "none"@ && text@ != "host"@ ==> mode is None,
{
    proof {
        reveal_strlit("none");
        reveal_strlit("host");
        assert("none"@[0] == 'n' && "host"@[0] == 'h');
    }
    let given = text.to_owned();
    if given == "none".to_owned() {
        Some(NetworkMode::Closed)
    } else if given == "host".to_owned() {
        Some(NetworkMode::Host)
    } else {
        None
    }
}

/// The name of a unit that was given none, from a fresh identifier.
pub fn default_name(id: &str) -> (name: String)
    ensures
        name@ == default_name_of(id@),
{
    let n = id.unicode_len();
    let head = if n < 8 {
        id.substring_char(0, n)
    } else {
        id.substring_char(0, 8)
    };
    let mut name = "wasm-".to_owned();
    name.append(head);
    name
}

/// The configuration of the unit that a `run` request asks for. It keeps
/// the invariant of a configuration.
///
/// The variables are read first, the network mode second, the memory limit
/// third and the CPU limit last, so a request with several of them wrong
/// fails on the first. A unit without a name gets the default name from
/// `id`.
pub fn run_request(
    image: String,
    memory: u64,
    cpu: u32,
    env: &Vec<String>,
    network: &str,
    detach: bool,
    name: Option<String>,
    args: Vec<String>,
    id: &str,
) -> (r: Result<ContainerConfig, LaunchError>)
    ensures
        match first_malformed(env.deep_view(), env.len() as int) {
            Some(i) => r matches Err(LaunchError::InvalidEnvironmentVariable(text)) && text@
                == env@[i]@,
            None => if network@ != "none"@ && network@ != "host"@ {
                r matches Err(LaunchError::UnknownNetworkMode(text)) && text@ == network@
            } else if memory == 0 {
                r == Err::<ContainerConfig, LaunchError>(LaunchError::ZeroMemoryLimit)
            } else if cpu > MAX_CPU_PERCENT {
                r == Err::<ContainerConfig, LaunchError>(LaunchError::CpuLimitAboveWhole)
            } else {
                &&& r matches Ok(config)
                &&& config.well_formed()
                &&& config.image == image
                &&& config.args == args
                &&& config.detached == detach
                &&& config.resource_limits.memory_mb == memory
                &&& config.resource_limits.cpu_percent == cpu
                &&& config.network_mode == (if network@ == "host"@ {
                    NetworkMode::Host
                } else {
                    NetworkMode::Closed
                })
                &&& config.environment.deep_view() == environment_of(
                    env.deep_view(),
                    env.len() as int,
                )
                &&& unique_keys(config.environment.deep_view())
                &&& match name {
                    Some(given) => config.name == given,
                    None => config.name@ == default_name_of(id@),
                }
            },
        },
{
    let environment = match parse_environment(env) {
        Ok(environment) => environment,
        Err(e) => {
            return Err(e);
        },
    };
    let network_mode = match parse_network_mode(network) {
        Some(mode) => mode,
        None => {
            return Err(LaunchError::UnknownNetworkMode(network.to_owned()));
        },
    };
    proof {
        reveal_strlit("none");
        reveal_strlit("host");
    }
    if memory == 0 {
        return Err(LaunchError::ZeroMemoryLimit);
    }
    if cpu > MAX_CPU_PERCENT {
        return Err(LaunchError::CpuLimitAboveWhole);
    }
    let name = match name {
        Some(given) => given,
        None => default_name(id),
    };
    Ok(
        ContainerConfig {
            image,
            name,
            args,
            environment,
            resource_limits: ResourceLimits { memory_mb: memory, cpu_percent: cpu },
            network_mode,
            detached: detach,
        },
    )
}

impl LaunchError {
    pub open spec fn spec_message(&self) -> Seq<char> {
        match self {
            LaunchError::InvalidEnvironmentVariable(text) => "Invalid environment variable: "@
                + text@,
            LaunchError::UnknownNetworkMode(text) => "Unknown network mode: "@ + text@,
            LaunchError::ZeroMemoryLimit => "The memory limit is zero"@,
            LaunchError::CpuLimitAboveWhole => "The CPU limit is above 100 percent"@,
        }
    }

    /// The diagnostic shown to the user.
    pub fn message(&self) -> (s: String)
        ensures
            s@ == self.spec_message(),
    {
        match self {
            LaunchError::InvalidEnvironmentVariable(text) => {
                let mut s = "Invalid environment variable: ".to_owned();
                s.append(text.as_str());
                s
            },
            LaunchError::UnknownNetworkMode(text) => {
                let mut s = "Unknown network mode: ".to_owned();
                s.append(text.as_str());
                s
            },
            LaunchError::ZeroMemoryLimit => "The memory limit is zero".to_owned(),
            LaunchError::CpuLimitAboveWhole => "The CPU limit is above 100 percent".to_owned(),
        }
    }
}

} // verus!
