//! A compatibility-runtime prefix: its root path, precomputed executable
//! paths and library search string, and the assembly of complete command
//! descriptors — executable, working directory, arguments and environment
//! overlay — for launching a program inside the prefix or terminating every
//! process under it. Nothing here spawns a process: descriptors are handed to
//! the host side to run.

use vstd::prelude::*;

use crate::debug::{spec_rules_encoding, DebugRule, DebugRules};
use crate::text::{join_path, join_strings, spec_join, spec_path_join};

verus! {

/// Feature toggles of a prefix: the two alternative synchronization-primitive
/// backends. Both may be on at once; the library imposes no mutual exclusion.
#[derive(Debug, Default, PartialEq, Eq, Hash, Clone, Copy)]
pub struct PrefixConfig {
    pub esync: bool,
    pub msync: bool,
}

/// Why constructing a prefix failed.
#[derive(Debug, Clone, Copy, PartialEq, Eq)]
pub enum PrefixError {
    /// The derived main-launcher path under the root is not a regular file.
    InvalidPrefix,
}

/// One environment variable of a command's overlay.
#[derive(Debug, Clone, PartialEq, Eq)]
pub struct EnvVar {
    pub name: String,
    pub value: String,
}

impl View for EnvVar {
    type V = (Seq<char>, Seq<char>);

    open spec fn view(&self) -> (Seq<char>, Seq<char>) {
        (self.name@, self.value@)
    }
}

impl DeepView for EnvVar {
    type V = (Seq<char>, Seq<char>);

    open spec fn deep_view(&self) -> (Seq<char>, Seq<char>) {
        (self.name@, self.value@)
    }
}

/// A ready-to-spawn command: which executable to run, in which working
/// directory, with which arguments and which environment-variable overlay.
#[derive(Debug, Clone, PartialEq, Eq)]
pub struct CommandDescriptor {
    pub executable: String,
    pub working_dir: String,
    pub args: Vec<String>,
    pub env: Vec<EnvVar>,
}

/// The argument list of a launch: the fixed start token first when requested,
/// then always the target program last.
pub open spec fn spec_launch_args(use_start_exe: bool, program: Seq<char>) -> Seq<Seq<char>> {
    if use_start_exe {
        seq!["start"@, program]
    } else {
        seq![program]
    }
}

/// The environment overlay of a launch: the prefix identity and the library
/// search path always; each synchronization variable, set to `1`, exactly
/// when its flag is on; the logging configuration exactly when the rule set
/// is non-empty.
pub open spec fn spec_launch_env(
    path: Seq<char>,
    library_paths: Seq<char>,
    config: PrefixConfig,
    rules: Seq<DebugRule>,
) -> Seq<(Seq<char>, Seq<char>)> {
    seq![("WINEPREFIX"@, path), ("DYLD_FALLBACK_LIBRARY_PATH"@, library_paths)] + (if config.esync {
        seq![("ESYNC"@, "1"@)]
    } else {
        Seq::empty()
    }) + (if config.msync {
        seq![("MSYNC"@, "1"@)]
    } else {
        Seq::empty()
    }) + (if rules.len() > 0 {
        seq![("WINEDEBUG"@, spec_rules_encoding(rules))]
    } else {
        Seq::empty()
    })
}

/// The environment overlay of a terminate-all request: the prefix identity
/// alone.
pub open spec fn spec_kill_all_env(path: Seq<char>) -> Seq<(Seq<char>, Seq<char>)> {
    seq![("WINEPREFIX"@, path)]
}

/// Whether the overlay sets a variable of the given name.
pub open spec fn env_has(env: Seq<(Seq<char>, Seq<char>)>, name: Seq<char>) -> bool {
    exists|i: int| 0 <= i < env.len() && env[i].0 == name
}

proof fn lemma_env_has_concat(
    a: Seq<(Seq<char>, Seq<char>)>,
    b: Seq<(Seq<char>, Seq<char>)>,
    name: Seq<char>,
)
    ensures
        env_has(a + b, name) <==> (env_has(a, name) || env_has(b, name)),
{
    if env_has(a, name) {
        let i = choose|i: int| 0 <= i < a.len() && a[i].0 == name;
        assert((a + b)[i].0 == name);
    }
    if env_has(b, name) {
        let i = choose|i: int| 0 <= i < b.len() && b[i].0 == name;
        assert((a + b)[a.len() + i].0 == name);
    }
    if env_has(a + b, name) {
        let i = choose|i: int| 0 <= i < (a + b).len() && (a + b)[i].0 == name;
        if i < a.len() {
            assert(a[i].0 == name);
        } else {
            assert(b[i - a.len()].0 == name);
        }
    }
}

proof fn lemma_launch_env_names_distinct()
    ensures
        "WINEPREFIX"@ != "ESYNC"@,
        "WINEPREFIX"@ != "MSYNC"@,
        "WINEPREFIX"@ != "WINEDEBUG"@,
        "WINEPREFIX"@ != "DYLD_FALLBACK_LIBRARY_PATH"@,
        "DYLD_FALLBACK_LIBRARY_PATH"@ != "ESYNC"@,
        "DYLD_FALLBACK_LIBRARY_PATH"@ != "MSYNC"@,
        "DYLD_FALLBACK_LIBRARY_PATH"@ != "WINEDEBUG"@,
        "ESYNC"@ != "MSYNC"@,
        "ESYNC"@ != "WINEDEBUG"@,
        "MSYNC"@ != "WINEDEBUG"@,
{
    reveal_strlit("WINEPREFIX");
    reveal_strlit("DYLD_FALLBACK_LIBRARY_PATH");
    reveal_strlit("ESYNC");
    reveal_strlit("MSYNC");
    reveal_strlit("WINEDEBUG");
    assert("WINEPREFIX"@[0] == 'W' && "WINEPREFIX"@[4] == 'P');
    assert("WINEDEBUG"@[0] == 'W' && "WINEDEBUG"@[4] == 'D');
    assert("DYLD_FALLBACK_LIBRARY_PATH"@[0] == 'D');
    assert("ESYNC"@[0] == 'E');
    assert("MSYNC"@[0] == 'M');
}

/// Which variables the launch overlay sets, stated as presence: the prefix
/// identity and the library search path always; each synchronization
/// variable exactly when its flag is on — only `esync` enabled sets exactly
/// one of the two, neither enabled sets neither; the logging configuration
/// exactly when the rule set is non-empty, so the empty rule set leaves it
/// unset rather than set to an empty value.
pub proof fn lemma_launch_env_presence(
    path: Seq<char>,
    library_paths: Seq<char>,
    config: PrefixConfig,
    rules: Seq<DebugRule>,
)
    ensures
        env_has(spec_launch_env(path, library_paths, config, rules), "WINEPREFIX"@),
        env_has(spec_launch_env(path, library_paths, config, rules), "DYLD_FALLBACK_LIBRARY_PATH"@),
        env_has(spec_launch_env(path, library_paths, config, rules), "ESYNC"@) <==> config.esync,
        env_has(spec_launch_env(path, library_paths, config, rules), "MSYNC"@) <==> config.msync,
        env_has(spec_launch_env(path, library_paths, config, rules), "WINEDEBUG"@) <==> rules.len()
            > 0,
{
    lemma_launch_env_names_distinct();
    let base = seq![
        ("WINEPREFIX"@, path),
        ("DYLD_FALLBACK_LIBRARY_PATH"@, library_paths),
    ];
    let esync_part: Seq<(Seq<char>, Seq<char>)> = if config.esync {
        seq![("ESYNC"@, "1"@)]
    } else {
        Seq::empty()
    };
    let msync_part: Seq<(Seq<char>, Seq<char>)> = if config.msync {
        seq![("MSYNC"@, "1"@)]
    } else {
        Seq::empty()
    };
    let debug_part: Seq<(Seq<char>, Seq<char>)> = if rules.len() > 0 {
        seq![("WINEDEBUG"@, spec_rules_encoding(rules))]
    } else {
        Seq::empty()
    };
    assert forall|name: Seq<char>| true implies {
        &&& (env_has(base, name) <==> (name == "WINEPREFIX"@ || name
            == "DYLD_FALLBACK_LIBRARY_PATH"@))
        &&& (env_has(esync_part, name) <==> (config.esync && name == "ESYNC"@))
        &&& (env_has(msync_part, name) <==> (config.msync && name == "MSYNC"@))
        &&& (env_has(debug_part, name) <==> (rules.len() > 0 && name == "WINEDEBUG"@))
    } by {
        if name == "WINEPREFIX"@ {
            assert(base[0].0 == name);
        }
        if name == "DYLD_FALLBACK_LIBRARY_PATH"@ {
            assert(base[1].0 == name);
        }
        if config.esync && name == "ESYNC"@ {
            assert(esync_part[0].0 == name);
        }
        if config.msync && name == "MSYNC"@ {
            assert(msync_part[0].0 == name);
        }
        if rules.len() > 0 && name == "WINEDEBUG"@ {
            assert(debug_part[0].0 == name);
        }
    }
    lemma_env_has_concat(base, esync_part, "WINEPREFIX"@);
    lemma_env_has_concat(base + esync_part, msync_part, "WINEPREFIX"@);
    lemma_env_has_concat(base + esync_part + msync_part, debug_part, "WINEPREFIX"@);
    lemma_env_has_concat(base, esync_part, "DYLD_FALLBACK_LIBRARY_PATH"@);
    lemma_env_has_concat(base + esync_part, msync_part, "DYLD_FALLBACK_LIBRARY_PATH"@);
    lemma_env_has_concat(base + esync_part + msync_part, debug_part, "DYLD_FALLBACK_LIBRARY_PATH"@);
    lemma_env_has_concat(base, esync_part, "ESYNC"@);
    lemma_env_has_concat(base + esync_part, msync_part, "ESYNC"@);
    lemma_env_has_concat(base + esync_part + msync_part, debug_part, "ESYNC"@);
    lemma_env_has_concat(base, esync_part, "MSYNC"@);
    lemma_env_has_concat(base + esync_part, msync_part, "MSYNC"@);
    lemma_env_has_concat(base + esync_part + msync_part, debug_part, "MSYNC"@);
    lemma_env_has_concat(base, esync_part, "WINEDEBUG"@);
    lemma_env_has_concat(base + esync_part, msync_part, "WINEDEBUG"@);
    lemma_env_has_concat(base + esync_part + msync_part, debug_part, "WINEDEBUG"@);
}

/// With the start flag set, the argument list of a launch begins with the
/// start token and ends with the target program — whatever the rule set,
/// which never enters the argument list.
pub proof fn lemma_start_args(program: Seq<char>)
    ensures
        spec_launch_args(true, program).len() == 2,
        spec_launch_args(true, program).first() == "start"@,
        spec_launch_args(true, program).last() == program,
        spec_launch_args(false, program).len() == 1,
        spec_launch_args(false, program).last() == program,
{
}

/// The terminate-all request is determined by the prefix root alone: its
/// overlay sets exactly the prefix identity, so two prefixes with the same
/// root — whatever their settings or search paths, and whatever rule sets
/// are in play elsewhere — are given identical descriptors by `kill_all`'s
/// contract.
pub proof fn lemma_kill_all_uniform(a: Prefix, b: Prefix)
    requires
        a.spec_path() == b.spec_path(),
    ensures
        spec_kill_all_env(a.spec_path()) == spec_kill_all_env(b.spec_path()),
        spec_kill_all_env(a.spec_path()).len() == 1,
        spec_kill_all_env(a.spec_path())[0] == ("WINEPREFIX"@, a.spec_path()),
        env_has(spec_kill_all_env(a.spec_path()), "WINEPREFIX"@),
        spec_path_join(a.spec_path(), "bin/wineserver"@) == spec_path_join(
            b.spec_path(),
            "bin/wineserver"@,
        ),
{
    assert(spec_kill_all_env(a.spec_path())[0].0 == "WINEPREFIX"@);
}

/// A runtime installation root with everything derived from it at
/// construction: the three executable paths under `bin/`, the colon-joined
/// library search string, and the configuration. Immutable once constructed.
#[derive(Debug, PartialEq, Eq, Hash)]
pub struct Prefix {
    path: String,
    dynamic_library_paths: String,
    wine: String,
    wineserver: String,
    regedit: String,
    config: PrefixConfig,
}

impl Clone for Prefix {
    /// A clone identifies the same prefix: same root, search string and
    /// configuration.
    fn clone(&self) -> (r: Self)
        ensures
            r.spec_path() == self.spec_path(),
            r.spec_library_paths() == self.spec_library_paths(),
            r.spec_config() == self.spec_config(),
    {
        proof {
            use_type_invariant(&*self);
        }
        Prefix {
            path: self.path.clone(),
            dynamic_library_paths: self.dynamic_library_paths.clone(),
            wine: self.wine.clone(),
            wineserver: self.wineserver.clone(),
            regedit: self.regedit.clone(),
            config: self.config,
        }
    }
}

impl Prefix {
    #[verifier::type_invariant]
    spec fn wf(self) -> bool {
        &&& self.wine@ == spec_path_join(self.path@, "bin/wine"@)
        &&& self.wineserver@ == spec_path_join(self.path@, "bin/wineserver"@)
        &&& self.regedit@ == spec_path_join(self.path@, "bin/regedit"@)
    }

    /// The root path this prefix was constructed at.
    pub closed spec fn spec_path(self) -> Seq<char> {
        self.path@
    }

    /// The precomputed colon-joined library search string.
    pub closed spec fn spec_library_paths(self) -> Seq<char> {
        self.dynamic_library_paths@
    }

    /// The configuration this prefix was constructed with.
    pub closed spec fn spec_config(self) -> PrefixConfig {
        self.config
    }

    /// Builds a prefix at `path`. The caller reports, in
    /// `main_launcher_is_file`, whether the main launcher — `bin/wine` joined
    /// onto the root, as `crate::text::join_path` joins — exists as a regular
    /// file; construction fails exactly when it does not. On success every
    /// derived field is fixed for good: the three executable paths under the
    /// root and the search directories joined with `:` in input order.
    pub fn at(
        path: &str,
        dynamic_library_paths: &Vec<String>,
        config: PrefixConfig,
        main_launcher_is_file: bool,
    ) -> (r: Result<Prefix, PrefixError>)
        ensures
            r is Ok <==> main_launcher_is_file,
            r matches Ok(p) ==> {
                &&& p.spec_path() == path@
                &&& p.spec_library_paths() == spec_join(dynamic_library_paths.deep_view(), ":"@)
                &&& p.spec_config() == config
            },
            r matches Err(e) ==> e == PrefixError::InvalidPrefix,
    {
        if !main_launcher_is_file {
            return Err(PrefixError::InvalidPrefix);
        }
        let wine = join_path(path, "bin/wine");
        let wineserver = join_path(path, "bin/wineserver");
        let regedit = join_path(path, "bin/regedit");
        Ok(
            Prefix {
                path: String::from_str(path),
                dynamic_library_paths: join_strings(dynamic_library_paths, ":"),
                wine,
                wineserver,
                regedit,
                config,
            },
        )
    }

    /// Assembles the descriptor for launching `program` inside this prefix:
    /// the main launcher run from the prefix root, the environment overlay of
    /// `spec_launch_env`, and the argument list of `spec_launch_args` — the
    /// start token first when `use_start_exe`, the program always last. Pure
    /// assembly: the rule set is only read, and nothing is spawned.
    pub fn command(&self, use_start_exe: bool, program: &str, debug_rules: &DebugRules) -> (r:
        CommandDescriptor)
        ensures
            r.executable@ == spec_path_join(self.spec_path(), "bin/wine"@),
            r.working_dir@ == self.spec_path(),
            r.args.deep_view() == spec_launch_args(use_start_exe, program@),
            r.env.deep_view() == spec_launch_env(
                self.spec_path(),
                self.spec_library_paths(),
                self.spec_config(),
                debug_rules@,
            ),
    {
        proof {
            use_type_invariant(&*self);
        }
        let mut env: Vec<EnvVar> = Vec::new();
        env.push(EnvVar { name: String::from_str("WINEPREFIX"), value: self.path.clone() });
        env.push(
            EnvVar {
                name: String::from_str("DYLD_FALLBACK_LIBRARY_PATH"),
                value: self.dynamic_library_paths.clone(),
            },
        );
        if self.config.esync {
            env.push(EnvVar { name: String::from_str("ESYNC"), value: String::from_str("1") });
        }
        if self.config.msync {
            env.push(EnvVar { name: String::from_str("MSYNC"), value: String::from_str("1") });
        }
        if debug_rules.rules.len() > 0 {
            env.push(EnvVar { name: String::from_str("WINEDEBUG"), value: debug_rules.encode() });
        }
        let mut args: Vec<String> = Vec::new();
        if use_start_exe {
            args.push(String::from_str("start"));
        }
        args.push(String::from_str(program));
        let r = CommandDescriptor {
            executable: self.wine.clone(),
            working_dir: self.path.clone(),
            args,
            env,
        };
        proof {
            assert(r.args.deep_view() =~= spec_launch_args(use_start_exe, program@));
            assert(r.env.deep_view() =~= spec_launch_env(
                self.spec_path(),
                self.spec_library_paths(),
                self.spec_config(),
                debug_rules@,
            ));
        }
        r
    }

    /// Assembles the descriptor of the terminate-all request: the
    /// server-terminator executable run from the prefix root, the prefix
    /// identity as the only environment variable, and the fixed termination
    /// flag as the only argument. Nothing else about the prefix — settings or
    /// rules — enters the descriptor.
    pub fn kill_all(&self) -> (r: CommandDescriptor)
        ensures
            r.executable@ == spec_path_join(self.spec_path(), "bin/wineserver"@),
            r.working_dir@ == self.spec_path(),
            r.args.deep_view() == seq!["-k"@],
            r.env.deep_view() == spec_kill_all_env(self.spec_path()),
    {
        proof {
            use_type_invariant(&*self);
        }
        let mut args: Vec<String> = Vec::new();
        args.push(String::from_str("-k"));
        let mut env: Vec<EnvVar> = Vec::new();
        env.push(EnvVar { name: String::from_str("WINEPREFIX"), value: self.path.clone() });
        let r = CommandDescriptor {
            executable: self.wineserver.clone(),
            working_dir: self.path.clone(),
            args,
            env,
        };
        proof {
            assert(r.args.deep_view() =~= seq!["-k"@]);
            assert(r.env.deep_view() =~= spec_kill_all_env(self.spec_path()));
        }
        r
    }
}

} // verus!
