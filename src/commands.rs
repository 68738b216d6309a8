//! How the agent process is invoked, locally or over a secure shell, and how
//! the result of a connection probe is classified.

use vstd::prelude::*;
use crate::config::{CodexConfig, ConnectionConfig};

verus! {

/// What the local invocation resolves a provider to.
#[derive(Clone, Debug)]
pub struct ProviderConfig {
    pub name: String,
    pub base_url: String,
    pub env_key: String,
}

/// A profile's settings for a provider.
#[derive(Clone, Debug)]
pub struct ProfileConfig {
    pub model: String,
}

/// A process to start: program, arguments in order, at most one environment
/// variable to set, and the working directory.
#[derive(Clone, Debug)]
pub struct CommandPlan {
    pub program: String,
    pub args: Vec<String>,
    pub env: Option<(String, String)>,
    pub cwd: Option<String>,
}

/// Why no process could be started.
#[derive(Clone, Copy, Debug, PartialEq, Eq, Structural)]
pub enum SpawnError {
    ExecutableNotFound,
    MissingConnection,
    PlatformNotSupported,
}

impl SpawnError {
    pub fn message(&self) -> (r: String)
        ensures
            r@ == match *self {
                SpawnError::ExecutableNotFound => "Could not find codex executable"@,
                SpawnError::MissingConnection => "missing connection config"@,
                SpawnError::PlatformNotSupported => "platform not supported"@,
            },
    {
        match self {
            SpawnError::ExecutableNotFound => String::from_str("Could not find codex executable"),
            SpawnError::MissingConnection => String::from_str("missing connection config"),
            SpawnError::PlatformNotSupported => String::from_str("platform not supported"),
        }
    }
}

/// What `str::to_lowercase` makes of a text.
pub uninterp spec fn lower_of(s: Seq<char>) -> Seq<char>;

/// Relies on `str::to_lowercase`: the result depends on the characters alone.
#[verifier::external_body]
fn lowercase(s: &str) -> (r: String)
    ensures
        r@ == lower_of(s@),
{
    s.to_lowercase()
}

pub open spec fn keys_of<T>(entries: Seq<(String, T)>) -> Seq<Seq<char>> {
    entries.map_values(|e: (String, T)| e.0@)
}

/// The index of the entry under a key; a later entry overrides an earlier one.
pub open spec fn key_index(keys: Seq<Seq<char>>, k: Seq<char>) -> Option<int>
    decreases keys.len(),
{
    if keys.len() == 0 {
        None
    } else if keys.last() == k {
        Some(keys.len() - 1)
    } else {
        key_index(keys.drop_last(), k)
    }
}

fn find_entry<T>(entries: &Vec<(String, T)>, k: &String) -> (r: Option<usize>)
    ensures
        r is None <==> key_index(keys_of(entries@), k@) is None,
        r matches Some(i) ==> key_index(keys_of(entries@), k@) == Some(i as int) && i < entries@.len(),
{
    let ghost keys = keys_of(entries@);
    let mut i: usize = entries.len();
    proof {
        assert(keys.subrange(0, i as int) =~= keys);
    }
    while i > 0
        invariant
            i <= entries@.len(),
            keys == keys_of(entries@),
            key_index(keys, k@) == key_index(keys.subrange(0, i as int), k@),
        decreases i,
    {
        let ghost sub = keys.subrange(0, i as int);
        proof {
            assert(sub.last() == entries@[i - 1].0@);
            assert(sub.drop_last() =~= keys.subrange(0, i - 1));
        }
        if entries[i - 1].0 == *k {
            return Some(i - 1);
        }
        i = i - 1;
    }
    proof {
        assert(keys.subrange(0, 0) =~= Seq::<Seq<char>>::empty());
    }
    None
}

/// The entry under the name as given, else under its lowercase form.
pub open spec fn provider_index<T>(entries: Seq<(String, T)>, name: Seq<char>) -> Option<int> {
    match key_index(keys_of(entries), name) {
        Some(i) => Some(i),
        None => key_index(keys_of(entries), lower_of(name)),
    }
}

fn find_provider<T>(entries: &Vec<(String, T)>, name: &String) -> (r: Option<usize>)
    ensures
        r is None <==> provider_index(entries@, name@) is None,
        r matches Some(i) ==> provider_index(entries@, name@) == Some(i as int) && i < entries@.len(),
{
    match find_entry(entries, name) {
        Some(i) => Some(i),
        None => {
            let lower = lowercase(name.as_str());
            find_entry(entries, &lower)
        },
    }
}

fn text_is(s: &String, lit: &str) -> (r: bool)
    ensures
        r == (s@ == lit@),
{
    let t = String::from_str(lit);
    *s == t
}

fn joined(prefix: &str, value: &String) -> (r: String)
    ensures
        r@ == prefix@ + value@,
{
    let mut r = String::from_str(prefix);
    r.append(value.as_str());
    r
}

/// The variable that carries the key when no provider registry could be read.
pub open spec fn fallback_env_var(provider: Seq<char>) -> Seq<char> {
    if provider == "gemini"@ {
        "GEMINI_API_KEY"@
    } else if provider == "openrouter"@ {
        "OPENROUTER_API_KEY"@
    } else if provider == "ollama"@ {
        "OLLAMA_API_KEY"@
    } else {
        "OPENAI_API_KEY"@
    }
}

fn fallback_env_name(provider: &String) -> (r: String)
    ensures
        r@ == fallback_env_var(provider@),
{
    if text_is(provider, "gemini") {
        String::from_str("GEMINI_API_KEY")
    } else if text_is(provider, "openrouter") {
        String::from_str("OPENROUTER_API_KEY")
    } else if text_is(provider, "ollama") {
        String::from_str("OLLAMA_API_KEY")
    } else {
        String::from_str("OPENAI_API_KEY")
    }
}

/// The environment variable that carries a configured, non-empty API key: the
/// registry's variable for the provider (its name as given, then lowercased),
/// else the fixed table, whose default is the OpenAI variable.
pub open spec fn env_var_of(
    config: CodexConfig,
    providers: Option<Seq<(String, ProviderConfig)>>,
) -> Option<(Seq<char>, Seq<char>)> {
    match config.api_key {
        None => None,
        Some(key) => if key@.len() == 0 {
            None
        } else {
            match providers {
                None => Some((fallback_env_var(config.provider@), key@)),
                Some(p) => match provider_index(p, config.provider@) {
                    None => Some((fallback_env_var(config.provider@), key@)),
                    Some(i) => if p[i].1.env_key@.len() == 0 {
                        None
                    } else {
                        Some((p[i].1.env_key@, key@))
                    },
                },
            }
        },
    }
}

pub fn resolve_env(config: &CodexConfig, providers: &Option<Vec<(String, ProviderConfig)>>) -> (r:
    Option<(String, String)>)
    ensures
        env_view(r) == env_var_of(*config, opt_view(*providers)),
{
    match &config.api_key {
        None => None,
        Some(key) => {
            if key.as_str().is_empty() {
                return None;
            }
            match providers {
                None => Some((fallback_env_name(&config.provider), key.clone())),
                Some(p) => match find_provider(p, &config.provider) {
                    None => Some((fallback_env_name(&config.provider), key.clone())),
                    Some(i) => {
                        if p[i].1.env_key.as_str().is_empty() {
                            None
                        } else {
                            Some((p[i].1.env_key.clone(), key.clone()))
                        }
                    },
                },
            }
        },
    }
}

pub open spec fn opt_view<T>(o: Option<Vec<T>>) -> Option<Seq<T>> {
    match o {
        Some(v) => Some(v@),
        None => None,
    }
}


pub open spec fn env_view(o: Option<(String, String)>) -> Option<(Seq<char>, Seq<char>)> {
    match o {
        Some(v) => Some((v.0@, v.1@)),
        None => None,
    }
}

pub open spec fn strings_view(v: Seq<String>) -> Seq<Seq<char>> {
    v.map_values(|s: String| s@)
}

pub open spec fn custom_view(o: Option<Vec<String>>) -> Seq<Seq<char>> {
    match o {
        Some(v) => strings_view(v@),
        None => Seq::empty(),
    }
}

/// One `-c key=value` configuration override.
pub open spec fn override_arg(kv: Seq<char>) -> Seq<Seq<char>> {
    seq!["-c"@, kv]
}

pub open spec fn override_if(cond: bool, kv: Seq<char>) -> Seq<Seq<char>> {
    if cond {
        override_arg(kv)
    } else {
        Seq::empty()
    }
}

pub open spec fn model_args(model: Seq<char>) -> Seq<Seq<char>> {
    override_if(model.len() > 0, "model="@ + model)
}

pub open spec fn named_provider_args(use_oss: bool, provider: Seq<char>) -> Seq<Seq<char>> {
    if use_oss {
        override_arg("model_provider=oss"@)
    } else {
        override_arg("model_provider="@ + provider)
    }
}

/// The provider and model overrides. A provider found in the registry gives
/// its name and base URL, and a profile under the provider gives the model.
pub open spec fn provider_args(
    config: CodexConfig,
    providers: Option<Seq<(String, ProviderConfig)>>,
    profiles: Option<Seq<(String, ProfileConfig)>>,
) -> Seq<Seq<char>> {
    let name = config.provider@;
    if name.len() == 0 {
        override_if(config.use_oss, "model_provider=oss"@) + model_args(config.model@)
    } else {
        match providers {
            None => named_provider_args(config.use_oss, name) + model_args(config.model@),
            Some(p) => match provider_index(p, name) {
                Some(i) => override_arg("model_provider="@ + p[i].1.name@) + override_if(
                    p[i].1.base_url@.len() > 0,
                    "base_url="@ + p[i].1.base_url@,
                ) + model_args(profile_model(config, profiles)),
                None => named_provider_args(config.use_oss, name) + model_args(config.model@),
            },
        }
    }
}

/// The model of the provider's profile, else the configured model; also when
/// the profiles could not be read.
pub open spec fn profile_model(
    config: CodexConfig,
    profiles: Option<Seq<(String, ProfileConfig)>>,
) -> Seq<char> {
    match profiles {
        Some(f) => match provider_index(f, config.provider@) {
            Some(j) => f[j].1.model@,
            None => config.model@,
        },
        None => config.model@,
    }
}

/// The sandbox mode passed on: one of the three known modes, workspace-write
/// for any other value.
pub open spec fn sandbox_value(mode: Seq<char>) -> Seq<char> {
    if mode == "read-only"@ {
        "read-only"@
    } else if mode == "danger-full-access"@ {
        "danger-full-access"@
    } else {
        "workspace-write"@
    }
}

/// The arguments of the local invocation, in order.
pub open spec fn local_args(
    config: CodexConfig,
    providers: Option<Seq<(String, ProviderConfig)>>,
    profiles: Option<Seq<(String, ProfileConfig)>>,
) -> Seq<Seq<char>> {
    seq!["proto"@] + provider_args(config, providers, profiles) + override_if(
        config.approval_policy@.len() > 0,
        "approval_policy="@ + config.approval_policy@,
    ) + override_if(
        config.sandbox_mode@.len() > 0,
        "sandbox_mode="@ + sandbox_value(config.sandbox_mode@),
    ) + override_arg("show_raw_agent_reasoning=true"@) + override_if(
        config.working_directory@.len() > 0,
        "cwd="@ + config.working_directory@,
    ) + custom_view(config.custom_args)
}

/// The executable: the configured path, else the discovered one.
pub open spec fn local_program(config: CodexConfig, discovered: Option<Seq<char>>) -> Option<
    Seq<char>,
> {
    match config.codex_path {
        Some(p) => Some(p@),
        None => discovered,
    }
}

fn push_arg(args: &mut Vec<String>, a: String)
    ensures
        strings_view(final(args)@) == strings_view(old(args)@).push(a@),
{
    let ghost before = args@;
    args.push(a);
    proof {
        assert(strings_view(args@) =~= strings_view(before).push(a@));
    }
}

fn push_override(args: &mut Vec<String>, kv: String)
    ensures
        strings_view(final(args)@) == strings_view(old(args)@) + override_arg(kv@),
{
    let ghost before = strings_view(args@);
    push_arg(args, String::from_str("-c"));
    push_arg(args, kv);
    proof {
        assert(strings_view(args@) =~= before + override_arg(kv@));
    }
}

fn push_all(args: &mut Vec<String>, more: &Vec<String>)
    ensures
        strings_view(final(args)@) == strings_view(old(args)@) + strings_view(more@),
{
    let ghost start = strings_view(args@);
    let mut i: usize = 0;
    while i < more.len()
        invariant
            i <= more@.len(),
            strings_view(args@) == start + strings_view(more@.subrange(0, i as int)),
        decreases more@.len() - i,
    {
        let ghost mid = strings_view(args@);
        push_arg(args, more[i].clone());
        i = i + 1;
        proof {
            assert(strings_view(more@.subrange(0, i as int)) =~= strings_view(
                more@.subrange(0, i - 1),
            ).push(more@[i - 1]@));
            assert(strings_view(args@) =~= start + strings_view(more@.subrange(0, i as int)));
        }
    }
    proof {
        assert(more@.subrange(0, more@.len() as int) =~= more@);
    }
}

fn push_model(args: &mut Vec<String>, model: &String)
    ensures
        strings_view(final(args)@) == strings_view(old(args)@) + model_args(model@),
{
    if !model.as_str().is_empty() {
        push_override(args, joined("model=", model));
    } else {
        proof {
            assert(strings_view(args@) + model_args(model@) =~= strings_view(args@));
        }
    }
}

fn push_named_provider(args: &mut Vec<String>, use_oss: bool, provider: &String)
    ensures
        strings_view(final(args)@) == strings_view(old(args)@) + named_provider_args(
            use_oss,
            provider@,
        ),
{
    if use_oss {
        push_override(args, String::from_str("model_provider=oss"));
    } else {
        push_override(args, joined("model_provider=", provider));
    }
}

fn push_provider_args(
    args: &mut Vec<String>,
    config: &CodexConfig,
    providers: &Option<Vec<(String, ProviderConfig)>>,
    profiles: &Option<Vec<(String, ProfileConfig)>>,
)
    ensures
        strings_view(final(args)@) == strings_view(old(args)@) + provider_args(
            *config,
            opt_view(*providers),
            opt_view(*profiles),
        ),
{
    let ghost start = strings_view(args@);
    if config.provider.as_str().is_empty() {
        if config.use_oss {
            push_override(args, String::from_str("model_provider=oss"));
        }
        let ghost mid = strings_view(args@);
        push_model(args, &config.model);
        proof {
            assert(mid =~= start + override_if(config.use_oss, "model_provider=oss"@));
            assert(strings_view(args@) =~= start + provider_args(
                *config,
                opt_view(*providers),
                opt_view(*profiles),
            ));
        }
        return;
    }
    match providers {
        None => {
            push_named_provider(args, config.use_oss, &config.provider);
            push_model(args, &config.model);
            proof {
                assert(strings_view(args@) =~= start + provider_args(
                    *config,
                    opt_view(*providers),
                    opt_view(*profiles),
                ));
            }
        },
        Some(p) => match find_provider(p, &config.provider) {
            Some(i) => {
                push_override(args, joined("model_provider=", &p[i].1.name));
                let ghost mid = strings_view(args@);
                if !p[i].1.base_url.as_str().is_empty() {
                    push_override(args, joined("base_url=", &p[i].1.base_url));
                }
                let ghost mid2 = strings_view(args@);
                proof {
                    assert(mid2 =~= mid + override_if(
                        p@[i as int].1.base_url@.len() > 0,
                        "base_url="@ + p@[i as int].1.base_url@,
                    ));
                }
                match profiles {
                    Some(f) => match find_provider(f, &config.provider) {
                        Some(j) => push_model(args, &f[j].1.model),
                        None => push_model(args, &config.model),
                    },
                    None => push_model(args, &config.model),
                }
                proof {
                    assert(strings_view(args@) =~= start + provider_args(
                        *config,
                        opt_view(*providers),
                        opt_view(*profiles),
                    ));
                }
            },
            None => {
                push_named_provider(args, config.use_oss, &config.provider);
                push_model(args, &config.model);
                proof {
                    assert(strings_view(args@) =~= start + provider_args(
                        *config,
                        opt_view(*providers),
                        opt_view(*profiles),
                    ));
                }
            },
        },
    }
}

fn sandbox_setting(mode: &String) -> (r: String)
    ensures
        r@ == "sandbox_mode="@ + sandbox_value(mode@),
{
    let value = if text_is(mode, "read-only") {
        String::from_str("read-only")
    } else if text_is(mode, "danger-full-access") {
        String::from_str("danger-full-access")
    } else {
        String::from_str("workspace-write")
    };
    joined("sandbox_mode=", &value)
}

/// The local invocation: the executable, `proto` and the configuration
/// overrides, the API key's variable and the working directory.
pub fn local_command(
    config: &CodexConfig,
    discovered: Option<String>,
    providers: &Option<Vec<(String, ProviderConfig)>>,
    profiles: &Option<Vec<(String, ProfileConfig)>>,
) -> (r: Result<CommandPlan, SpawnError>)
    ensures
        r is Err <==> local_program(*config, opt_str(discovered)) is None,
        r matches Err(e) ==> e == SpawnError::ExecutableNotFound,
        r matches Ok(plan) ==> local_plan_ok(
            *config,
            opt_str(discovered),
            opt_view(*providers),
            opt_view(*profiles),
            plan,
        ),
{
    let program = match &config.codex_path {
        Some(p) => p.clone(),
        None => match discovered {
            Some(d) => d,
            None => {
                return Err(SpawnError::ExecutableNotFound);
            },
        },
    };
    let env = resolve_env(config, providers);
    let mut args: Vec<String> = Vec::new();
    push_arg(&mut args, String::from_str("proto"));
    push_provider_args(&mut args, config, providers, profiles);
    let ghost a1 = strings_view(args@);
    if !config.approval_policy.as_str().is_empty() {
        push_override(&mut args, joined("approval_policy=", &config.approval_policy));
    }
    let ghost a2 = strings_view(args@);
    if !config.sandbox_mode.as_str().is_empty() {
        push_override(&mut args, sandbox_setting(&config.sandbox_mode));
    }
    let ghost a3 = strings_view(args@);
    push_override(&mut args, String::from_str("show_raw_agent_reasoning=true"));
    let ghost a4 = strings_view(args@);
    if !config.working_directory.as_str().is_empty() {
        push_override(&mut args, joined("cwd=", &config.working_directory));
    }
    let ghost a5 = strings_view(args@);
    match &config.custom_args {
        Some(extra) => push_all(&mut args, extra),
        None => {},
    }
    proof {
        assert(a2 =~= a1 + override_if(
            config.approval_policy@.len() > 0,
            "approval_policy="@ + config.approval_policy@,
        ));
        assert(a3 =~= a2 + override_if(
            config.sandbox_mode@.len() > 0,
            "sandbox_mode="@ + sandbox_value(config.sandbox_mode@),
        ));
        assert(a5 =~= a4 + override_if(
            config.working_directory@.len() > 0,
            "cwd="@ + config.working_directory@,
        ));
        assert(strings_view(args@) =~= a5 + custom_view(config.custom_args));
        assert(strings_view(args@) =~= local_args(
            *config,
            opt_view(*providers),
            opt_view(*profiles),
        ));
    }
    Ok(CommandPlan { program, args, env, cwd: Some(config.working_directory.clone()) })
}

/// The plan of a local session: the resolved executable, the arguments in
/// order, the API key's variable and the configured working directory.
pub open spec fn local_plan_ok(
    config: CodexConfig,
    discovered: Option<Seq<char>>,
    providers: Option<Seq<(String, ProviderConfig)>>,
    profiles: Option<Seq<(String, ProfileConfig)>>,
    plan: CommandPlan,
) -> bool {
    &&& local_program(config, discovered) == Some(plan.program@)
    &&& strings_view(plan.args@) == local_args(config, providers, profiles)
    &&& env_view(plan.env) == env_var_of(config, providers)
    &&& plan.cwd matches Some(d) && d@ == config.working_directory@
}

pub open spec fn opt_str(o: Option<String>) -> Option<Seq<char>> {
    match o {
        Some(s) => Some(s@),
        None => None,
    }
}


/// The local transport: the agent executable started directly.
pub struct LocalProcess;

impl LocalProcess {
    /// The invocation of a local session; see `local_command`.
    pub fn command(
        config: &CodexConfig,
        discovered: Option<String>,
        providers: &Option<Vec<(String, ProviderConfig)>>,
        profiles: &Option<Vec<(String, ProfileConfig)>>,
    ) -> (r: Result<CommandPlan, SpawnError>)
        ensures
            r is Err <==> local_program(*config, opt_str(discovered)) is None,
            r matches Err(e) ==> e == SpawnError::ExecutableNotFound,
            r matches Ok(plan) ==> local_plan_ok(
                *config,
                opt_str(discovered),
                opt_view(*providers),
                opt_view(*profiles),
                plan,
            ),
    {
        local_command(config, discovered, providers, profiles)
    }
}

pub open spec fn digit_char(d: nat) -> char {
    "0123456789"@[d as int]
}

/// The decimal digits of a number, without leading zeros.
pub open spec fn decimal_of(n: nat) -> Seq<char>
    decreases n,
{
    if n < 10 {
        seq![digit_char(n)]
    } else {
        decimal_of(n / 10).push(digit_char(n % 10))
    }
}

fn digit_text(d: u16) -> (r: String)
    requires
        d < 10,
    ensures
        r@ == seq![digit_char(d as nat)],
{
    proof {
        reveal_strlit("0123456789");
        reveal_strlit("0");
        reveal_strlit("1");
        reveal_strlit("2");
        reveal_strlit("3");
        reveal_strlit("4");
        reveal_strlit("5");
        reveal_strlit("6");
        reveal_strlit("7");
        reveal_strlit("8");
        reveal_strlit("9");
    }
    let r = match d {
        0 => String::from_str("0"),
        1 => String::from_str("1"),
        2 => String::from_str("2"),
        3 => String::from_str("3"),
        4 => String::from_str("4"),
        5 => String::from_str("5"),
        6 => String::from_str("6"),
        7 => String::from_str("7"),
        8 => String::from_str("8"),
        _ => String::from_str("9"),
    };
    proof {
        assert(r@ =~= seq![digit_char(d as nat)]);
    }
    r
}

/// The decimal text of a port number.
fn port_text(port: u16) -> (r: String)
    ensures
        r@ == decimal_of(port as nat),
    decreases port,
{
    if port < 10 {
        digit_text(port)
    } else {
        let mut r = port_text(port / 10);
        let last = digit_text(port % 10);
        r.append(last.as_str());
        r
    }
}

/// `user@host`, or the host alone when no user is given.
pub open spec fn target_of(conn: ConnectionConfig) -> Seq<char> {
    if conn.user@.len() == 0 {
        conn.host@
    } else {
        conn.user@ + "@"@ + conn.host@
    }
}

/// The shell options shared by sessions and probes, ending with the target.
pub open spec fn ssh_prefix(conn: ConnectionConfig) -> Seq<Seq<char>> {
    seq!["-T"@, "-o"@, "BatchMode=yes"@] + match conn.port {
        Some(p) => seq!["-p"@, decimal_of(p as nat)],
        None => Seq::empty(),
    } + match conn.key_path {
        Some(k) => if k@.len() > 0 {
            seq!["-i"@, k@]
        } else {
            Seq::empty()
        },
        None => Seq::empty(),
    } + seq![target_of(conn)]
}

pub open spec fn remote_args(config: CodexConfig, conn: ConnectionConfig) -> Seq<Seq<char>> {
    ssh_prefix(conn) + seq!["codex"@] + custom_view(config.custom_args) + seq!["proto"@]
}

pub open spec fn probe_args(conn: ConnectionConfig) -> Seq<Seq<char>> {
    ssh_prefix(conn) + seq!["echo"@, "ok"@]
}

fn push_ssh_prefix(args: &mut Vec<String>, conn: &ConnectionConfig)
    ensures
        strings_view(final(args)@) == strings_view(old(args)@) + ssh_prefix(*conn),
{
    let ghost start = strings_view(args@);
    push_arg(args, String::from_str("-T"));
    push_arg(args, String::from_str("-o"));
    push_arg(args, String::from_str("BatchMode=yes"));
    let ghost a1 = strings_view(args@);
    match conn.port {
        Some(p) => {
            push_arg(args, String::from_str("-p"));
            push_arg(args, port_text(p));
        },
        None => {},
    }
    let ghost a2 = strings_view(args@);
    match &conn.key_path {
        Some(k) => {
            if !k.as_str().is_empty() {
                push_arg(args, String::from_str("-i"));
                push_arg(args, k.clone());
            }
        },
        None => {},
    }
    let ghost a3 = strings_view(args@);
    let target = if conn.user.as_str().is_empty() {
        conn.host.clone()
    } else {
        let mut t = conn.user.clone();
        t.append("@");
        t.append(conn.host.as_str());
        t
    };
    push_arg(args, target);
    proof {
        assert(a1 =~= start + seq!["-T"@, "-o"@, "BatchMode=yes"@]);
        assert(strings_view(args@) =~= start + ssh_prefix(*conn));
    }
}

/// The remote transport: the agent started through a secure shell.
pub struct SshProcess;

impl SshProcess {
    /// The invocation of a remote session; it needs connection parameters.
    pub fn command(config: &CodexConfig) -> (r: Result<CommandPlan, SpawnError>)
        ensures
            r is Err <==> config.connection is None,
            r matches Err(e) ==> e == SpawnError::MissingConnection,
            r matches Ok(plan) ==> (config.connection matches Some(conn) && plan.program@
                == "/usr/bin/ssh"@ && strings_view(plan.args@) == remote_args(*config, conn)
                && plan.env is None && plan.cwd is None),
    {
        let conn = match &config.connection {
            Some(c) => c,
            None => {
                return Err(SpawnError::MissingConnection);
            },
        };
        let mut args: Vec<String> = Vec::new();
        push_ssh_prefix(&mut args, conn);
        push_arg(&mut args, String::from_str("codex"));
        let ghost a1 = strings_view(args@);
        match &config.custom_args {
            Some(extra) => push_all(&mut args, extra),
            None => {},
        }
        proof {
            assert(strings_view(args@) =~= a1 + custom_view(config.custom_args));
        }
        push_arg(&mut args, String::from_str("proto"));
        proof {
            assert(strings_view(args@) =~= remote_args(*config, *conn));
        }
        Ok(CommandPlan { program: String::from_str("/usr/bin/ssh"), args, env: None, cwd: None })
    }

    /// The invocation of a connection probe: echo a fixed token remotely. The
    /// runner bounds it by `PROBE_TIMEOUT_SECS` and hands how it ended to
    /// `classify_probe`.
    pub fn test_connection(conn: &ConnectionConfig) -> (r: CommandPlan)
        ensures
            r.program@ == "/usr/bin/ssh"@,
            strings_view(r.args@) == probe_args(*conn),
            r.env is None,
            r.cwd is None,
    {
        let mut args: Vec<String> = Vec::new();
        push_ssh_prefix(&mut args, conn);
        let ghost a1 = strings_view(args@);
        push_arg(&mut args, String::from_str("echo"));
        push_arg(&mut args, String::from_str("ok"));
        proof {
            assert(strings_view(args@) =~= probe_args(*conn));
        }
        CommandPlan { program: String::from_str("/usr/bin/ssh"), args, env: None, cwd: None }
    }

}

/// How a probe's command ended, as its runner saw it.
pub enum ProbeOutcome {
    TimedOut,
    LaunchFailed,
    Finished { success: bool, stdout: String, stderr: String },
}

/// Why a probe failed.
#[derive(Clone, Copy, Debug, PartialEq, Eq, Structural)]
pub enum ProbeError {
    Timeout,
    PermissionDenied,
    Unreachable,
}

impl ProbeError {
    pub fn message(&self) -> (r: String)
        ensures
            r@ == match *self {
                ProbeError::Timeout => "timeout"@,
                ProbeError::PermissionDenied => "permission denied (publickey)"@,
                ProbeError::Unreachable => "host unreachable"@,
            },
    {
        match self {
            ProbeError::Timeout => String::from_str("timeout"),
            ProbeError::PermissionDenied => String::from_str("permission denied (publickey)"),
            ProbeError::Unreachable => String::from_str("host unreachable"),
        }
    }
}

/// Seconds a probe may take.
pub const PROBE_TIMEOUT_SECS: u64 = 5;

/// What `str::trim` makes of a text.
pub uninterp spec fn trim_of(s: Seq<char>) -> Seq<char>;

/// Relies on `str::trim`: the result depends on the characters alone.
#[verifier::external_body]
fn trim_text(s: &str) -> (r: String)
    ensures
        r@ == trim_of(s@),
{
    s.trim().to_string()
}

pub open spec fn contains_seq(s: Seq<char>, p: Seq<char>) -> bool {
    exists|i: int| 0 <= i && i + p.len() <= s.len() && #[trigger] s.subrange(i, i + p.len()) == p
}

/// Relies on `str::contains` with a `&str` pattern: whether the pattern occurs
/// in the text.
#[verifier::external_body]
fn contains_text(s: &str, p: &str) -> (r: bool)
    ensures
        r == contains_seq(s@, p@),
{
    s.contains(p)
}

pub open spec fn probe_view(r: Result<String, ProbeError>) -> Result<Seq<char>, ProbeError> {
    match r {
        Ok(s) => Ok(s@),
        Err(e) => Err(e),
    }
}

/// A finished probe from its trimmed output and lowercased diagnostics.
pub open spec fn finished_result(success: bool, out: Seq<char>, err: Seq<char>) -> Result<Seq<char>, ProbeError> {
    if success && out == "ok"@ {
        Ok(out)
    } else if contains_seq(err, "permission denied"@) {
        Err(ProbeError::PermissionDenied)
    } else {
        Err(ProbeError::Unreachable)
    }
}

pub open spec fn probe_result(outcome: ProbeOutcome) -> Result<Seq<char>, ProbeError> {
    match outcome {
        ProbeOutcome::TimedOut => Err(ProbeError::Timeout),
        ProbeOutcome::LaunchFailed => Err(ProbeError::Unreachable),
        ProbeOutcome::Finished { success, stdout, stderr } => finished_result(
            success,
            trim_of(stdout@),
            lower_of(stderr@),
        ),
    }
}

/// Classifies a finished probe, given its trimmed standard output and its
/// lowercased diagnostic output.
pub fn classify_finished(success: bool, trimmed_out: &String, lowered_err: &String) -> (r: Result<
    String,
    ProbeError,
>)
    ensures
        probe_view(r) == finished_result(success, trimmed_out@, lowered_err@),
{
    if success && text_is(trimmed_out, "ok") {
        Ok(trimmed_out.clone())
    } else if contains_text(lowered_err.as_str(), "permission denied") {
        Err(ProbeError::PermissionDenied)
    } else {
        Err(ProbeError::Unreachable)
    }
}

/// Classifies a probe: the echoed token means reachable; otherwise a timeout,
/// a refused authentication or an unreachable host.
pub fn classify_probe(outcome: &ProbeOutcome) -> (r: Result<String, ProbeError>)
    ensures
        probe_view(r) == probe_result(*outcome),
{
    match outcome {
        ProbeOutcome::TimedOut => Err(ProbeError::Timeout),
        ProbeOutcome::LaunchFailed => Err(ProbeError::Unreachable),
        ProbeOutcome::Finished { success, stdout, stderr } => {
            let out = trim_text(stdout.as_str());
            let err = lowercase(stderr.as_str());
            classify_finished(*success, &out, &err)
        },
    }
}

} // verus!
