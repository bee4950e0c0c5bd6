//! Configuration resolution.
//!
//! A persisted config file and the command line each supply optional values;
//! [`resolve`] merges them, field by field, with one precedence rule: a
//! command-line value wins if supplied, else the config file's value, else a
//! built-in default. Command lists are never merged partially: the command
//! line's list, when non-empty, replaces the file's entirely. Resolution
//! fails exactly when neither source yields a command.

use vstd::prelude::*;

use crate::globs::{
    all_valid, build_ok, first_invalid_of, str_views, CompileError, CompiledMatcher,
};

verus! {

/// The recognized fields of the persisted config file, with every field
/// already given a value (absent fields take the documented defaults when
/// the file is read).
pub struct Config {
    pub dir: String,
    pub patterns: Vec<String>,
    pub commands: Vec<String>,
    pub command: Option<String>,
    pub debounce: u64,
    pub clear: bool,
    pub ignore: Vec<String>,
}

/// The command-line values, already parsed into plain data. A missing
/// option is `None` (or an empty list) and never overrides the config file.
pub struct Args {
    pub pattern: Vec<String>,
    pub dir: Option<String>,
    pub debounce: Option<u64>,
    pub clear: bool,
    pub ignore: Vec<String>,
    pub command: Vec<String>,
}

/// A fully resolved configuration: every field has its effective value and
/// `patterns` and `commands` are non-empty.
pub struct EffectiveConfig {
    pub dir: String,
    pub patterns: Vec<String>,
    pub ignore: Vec<String>,
    pub debounce: u64,
    pub clear: bool,
    pub commands: Vec<String>,
}

/// Why resolution failed.
#[derive(Debug)]
pub enum ConfigError {
    /// Neither the command line nor the config file yielded any command.
    NoCommand,
}

impl ConfigError {
    /// A short description, for reporting the fatal startup error.
    pub fn message(&self) -> (r: &'static str)
        ensures
            r@ == "no command specified"@,
    {
        "no command specified"
    }
}

/// Built-in default watch root.
pub fn default_dir() -> (r: String)
    ensures
        r@ == "."@,
{
    String::from_str(".")
}

/// Built-in default debounce window, in milliseconds.
pub fn default_debounce() -> (r: u64)
    ensures
        r == 500,
{
    500
}

/// The command list a config file yields: the list form when non-empty,
/// else the legacy singular form, else nothing.
pub open spec fn commands_of(cfg: Config) -> Seq<String> {
    if cfg.commands@.len() > 0 {
        cfg.commands@
    } else if cfg.command is Some {
        seq![cfg.command->Some_0]
    } else {
        Seq::<String>::empty()
    }
}

impl Config {
    /// The config file's command list: `commands` when non-empty, else the
    /// legacy singular `command`, else empty.
    pub fn get_commands(&self) -> (r: Vec<String>)
        ensures
            r@ == commands_of(*self),
    {
        if self.commands.len() > 0 {
            clone_strings(self.commands.as_slice())
        } else {
            match &self.command {
                Some(cmd) => {
                    let r = vec![cmd.clone()];
                    proof {
                        assert(r@ =~= seq![self.command->Some_0]);
                    }
                    r
                },
                None => Vec::new(),
            }
        }
    }

    /// Compiles the watch and ignore matchers this config yields, with the
    /// given command-line patterns taking precedence and command-line
    /// ignores and the built-in ignores appended. Fails with
    /// `CompileError::Pattern` exactly when one of those patterns is an
    /// invalid glob, naming the first offender (watch list checked first);
    /// on valid patterns, succeeds exactly when both sets assemble.
    pub fn build_globsets(&self, extra_patterns: &[String], extra_ignores: &[String]) -> (r: Result<
        (CompiledMatcher, CompiledMatcher),
        CompileError,
    >)
        ensures
            r matches Ok(ms) ==> ({
                let watch = chosen_watch(self.patterns@, extra_patterns@);
                let ign = full_ignore(self.ignore@, extra_ignores@);
                &&& ms.0@ == watch && ms.1@ == ign
                &&& all_valid(watch) && build_ok(watch)
                &&& all_valid(ign) && build_ok(ign)
            }),
            r matches Err(e) ==> ({
                let watch = chosen_watch(self.patterns@, extra_patterns@);
                let ign = full_ignore(self.ignore@, extra_ignores@);
                match e {
                    CompileError::Pattern { pattern, err } => (!all_valid(watch)
                        && first_invalid_of(watch, pattern@)) || (all_valid(watch) && build_ok(
                        watch,
                    ) && !all_valid(ign) && first_invalid_of(ign, pattern@)),
                    CompileError::Build { err } => (all_valid(watch) && !build_ok(watch)) || (
                    all_valid(watch) && build_ok(watch) && all_valid(ign) && !build_ok(ign)),
                }
            }),
            (all_valid(chosen_watch(self.patterns@, extra_patterns@)) && build_ok(
                chosen_watch(self.patterns@, extra_patterns@),
            ) && all_valid(full_ignore(self.ignore@, extra_ignores@)) && build_ok(
                full_ignore(self.ignore@, extra_ignores@),
            )) ==> r is Ok,
    {
        let watch_list: Vec<String> = if extra_patterns.len() > 0 {
            clone_strings(extra_patterns)
        } else if self.patterns.len() > 0 {
            clone_strings(self.patterns.as_slice())
        } else {
            default_patterns()
        };
        proof {
            assert(str_views(watch_list@) =~= chosen_watch(self.patterns@, extra_patterns@));
        }
        let mut ignore_list: Vec<String> = clone_strings(self.ignore.as_slice());
        extend_strings(&mut ignore_list, extra_ignores);
        let builtins = builtin_ignores();
        extend_strings(&mut ignore_list, builtins.as_slice());
        proof {
            assert(str_views(ignore_list@) =~= full_ignore(self.ignore@, extra_ignores@));
        }
        let watch = match crate::globs::compile(&watch_list) {
            Ok(m) => m,
            Err(e) => {
                return Err(e);
            },
        };
        let ignore = match crate::globs::compile(&ignore_list) {
            Ok(m) => m,
            Err(e) => {
                return Err(e);
            },
        };
        Ok((watch, ignore))
    }
}

/// The effective watch pattern list: command-line patterns when given, else
/// the config file's, else the single catch-all pattern.
pub open spec fn chosen_watch(cfg_pats: Seq<String>, extra: Seq<String>) -> Seq<Seq<char>> {
    if extra.len() > 0 {
        str_views(extra)
    } else if cfg_pats.len() > 0 {
        str_views(cfg_pats)
    } else {
        seq!["**/*"@]
    }
}

/// The views of the built-in ignore patterns: version-control and
/// dependency directories, and the config file itself.
pub open spec fn builtin_ignore_views() -> Seq<Seq<char>> {
    seq!["**/target/**"@, "**/node_modules/**"@, "**/.git/**"@, "**/.watchrun.toml"@]
}

/// The effective ignore pattern list: the config file's ignores, then the
/// command line's, then the built-ins.
pub open spec fn full_ignore(cfg_ignore: Seq<String>, extra: Seq<String>) -> Seq<Seq<char>> {
    str_views(cfg_ignore) + str_views(extra) + builtin_ignore_views()
}

/// The single catch-all pattern list used when no pattern is supplied.
pub fn default_patterns() -> (r: Vec<String>)
    ensures
        str_views(r@) == seq!["**/*"@],
{
    let r = vec![String::from_str("**/*")];
    proof {
        assert(str_views(r@) =~= seq!["**/*"@]);
    }
    r
}

/// The built-in ignore patterns, always appended to the user's.
pub fn builtin_ignores() -> (r: Vec<String>)
    ensures
        str_views(r@) == builtin_ignore_views(),
{
    let r = vec![
        String::from_str("**/target/**"),
        String::from_str("**/node_modules/**"),
        String::from_str("**/.git/**"),
        String::from_str("**/.watchrun.toml"),
    ];
    proof {
        assert(str_views(r@) =~= builtin_ignore_views());
    }
    r
}

fn clone_strings(src: &[String]) -> (r: Vec<String>)
    ensures
        r@ == src@,
{
    let mut r: Vec<String> = Vec::new();
    let mut i: usize = 0;
    while i < src.len()
        invariant
            i <= src@.len(),
            r@ =~= src@.take(i as int),
        decreases src@.len() - i,
    {
        r.push(src[i].clone());
        proof {
            assert(src@.take(i + 1) =~= src@.take(i as int).push(src@[i as int]));
        }
        i += 1;
    }
    proof {
        assert(src@.take(src@.len() as int) =~= src@);
    }
    r
}

fn extend_strings(dst: &mut Vec<String>, src: &[String])
    ensures
        final(dst)@ == old(dst)@ + src@,
{
    let mut i: usize = 0;
    while i < src.len()
        invariant
            i <= src@.len(),
            dst@ =~= old(dst)@ + src@.take(i as int),
        decreases src@.len() - i,
    {
        dst.push(src[i].clone());
        proof {
            assert(src@.take(i + 1) =~= src@.take(i as int).push(src@[i as int]));
        }
        i += 1;
    }
    proof {
        assert(old(dst)@ + src@.take(src@.len() as int) =~= old(dst)@ + src@);
    }
}

/// The effective watch root.
pub open spec fn effective_dir(args: Args, file: Option<Config>) -> Seq<char> {
    if args.dir is Some {
        args.dir->Some_0@
    } else if file is Some {
        file->Some_0.dir@
    } else {
        "."@
    }
}

/// The effective debounce window, in milliseconds.
pub open spec fn effective_debounce(args: Args, file: Option<Config>) -> u64 {
    if args.debounce is Some {
        args.debounce->Some_0
    } else if file is Some {
        file->Some_0.debounce
    } else {
        500
    }
}

/// The effective clear-screen flag: set when either source sets it.
pub open spec fn effective_clear(args: Args, file: Option<Config>) -> bool {
    args.clear || (file is Some && file->Some_0.clear)
}

/// The effective command list: the command line's, when non-empty,
/// replaces the config file's entirely.
pub open spec fn effective_commands(args: Args, file: Option<Config>) -> Seq<String> {
    if args.command@.len() > 0 {
        args.command@
    } else if file is Some {
        commands_of(file->Some_0)
    } else {
        Seq::<String>::empty()
    }
}

/// The effective watch pattern list.
pub open spec fn effective_watch(args: Args, file: Option<Config>) -> Seq<Seq<char>> {
    chosen_watch(if file is Some { file->Some_0.patterns@ } else { Seq::<String>::empty() }, args.pattern@)
}

/// The effective ignore pattern list, built-ins appended.
pub open spec fn effective_ignore(args: Args, file: Option<Config>) -> Seq<Seq<char>> {
    full_ignore(if file is Some { file->Some_0.ignore@ } else { Seq::<String>::empty() }, args.ignore@)
}

/// Merges the command line with an optional config file into one effective
/// configuration. Fails exactly when no command is resolved; missing or
/// unparsable config files are passed as `None` and degrade to defaults.
/// That the resolved watch root exists and is a directory is checked by the
/// caller at startup, where the filesystem is in reach.
pub fn resolve(args: &Args, file: &Option<Config>) -> (r: Result<EffectiveConfig, ConfigError>)
    ensures
        r matches Ok(eff) ==> ({
            &&& effective_commands(*args, *file).len() > 0
            &&& eff.dir@ == effective_dir(*args, *file)
            &&& eff.debounce == effective_debounce(*args, *file)
            &&& eff.clear == effective_clear(*args, *file)
            &&& eff.commands@ == effective_commands(*args, *file)
            &&& str_views(eff.patterns@) == effective_watch(*args, *file)
            &&& str_views(eff.ignore@) == effective_ignore(*args, *file)
        }),
        (r is Err) <==> effective_commands(*args, *file).len() == 0,
{
    let commands: Vec<String> = if args.command.len() > 0 {
        clone_strings(args.command.as_slice())
    } else {
        match file {
            Some(cfg) => cfg.get_commands(),
            None => Vec::new(),
        }
    };
    if commands.len() == 0 {
        return Err(ConfigError::NoCommand);
    }
    let dir: String = match &args.dir {
        Some(d) => d.clone(),
        None => match file {
            Some(cfg) => cfg.dir.clone(),
            None => default_dir(),
        },
    };
    let debounce: u64 = match args.debounce {
        Some(d) => d,
        None => match file {
            Some(cfg) => cfg.debounce,
            None => default_debounce(),
        },
    };
    let clear: bool = args.clear || match file {
        Some(cfg) => cfg.clear,
        None => false,
    };
    let patterns: Vec<String> = if args.pattern.len() > 0 {
        clone_strings(args.pattern.as_slice())
    } else {
        match file {
            Some(cfg) => {
                if cfg.patterns.len() > 0 {
                    clone_strings(cfg.patterns.as_slice())
                } else {
                    default_patterns()
                }
            },
            None => default_patterns(),
        }
    };
    proof {
        assert(str_views(patterns@) =~= effective_watch(*args, *file));
    }
    let mut ignore: Vec<String> = match file {
        Some(cfg) => clone_strings(cfg.ignore.as_slice()),
        None => Vec::new(),
    };
    extend_strings(&mut ignore, args.ignore.as_slice());
    let builtins = builtin_ignores();
    extend_strings(&mut ignore, builtins.as_slice());
    proof {
        assert(str_views(ignore@) =~= effective_ignore(*args, *file));
    }
    Ok(EffectiveConfig { dir, patterns, ignore, debounce, clear, commands })
}

/// Debounce precedence: a command-line value wins over the config file's;
/// with neither present, the built-in default of 500 ms applies.
pub proof fn lemma_debounce_precedence(args: Args, file: Option<Config>)
    ensures
        args.debounce is Some ==> effective_debounce(args, file) == args.debounce->Some_0,
        (args.debounce is None && file is Some) ==> effective_debounce(args, file)
            == file->Some_0.debounce,
        (args.debounce is None && file is None) ==> effective_debounce(args, file) == 500,
{
}

} // verus!
