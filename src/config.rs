//! The driver's configuration: the environment it was started in, resolved
//! once, the cache, and verbosity. Tool paths are resolved from it.
use vstd::prelude::*;
use vstd::string::*;
use crate::cache::Cache;
use crate::error::DriverError;
use crate::paths::{join, join_path};
use crate::text::{env_var_name, env_var_name_of, same_text, texts};
use crate::tool_path::{join_all, ToolPath};

verus! {

/// Relies on `atty::is` for standard error: whether it is a terminal. It
/// depends on how the process was started, so nothing is stated of it.
#[verifier::external_body]
fn stderr_is_terminal() -> (r: bool) {
    atty::is(atty::Stream::Stderr)
}

/// The value of the first variable called `key`.
pub open spec fn env_lookup(vars: Seq<(String, String)>, key: Seq<char>) -> Option<Seq<char>>
    decreases vars.len(),
{
    if vars.len() == 0 {
        None
    } else if vars[0].0@ == key {
        Some(vars[0].1@)
    } else {
        env_lookup(vars.subrange(1, vars.len() as int), key)
    }
}

/// The parts below a tool's cache directory: `[version/]tool[suffix]`.
pub open spec fn tool_sub_paths(
    tool: Seq<char>,
    version: Option<Seq<char>>,
    exe_suffix: Seq<char>,
) -> Seq<Seq<char>> {
    match version {
        Some(v) => seq![v, tool + exe_suffix],
        None => seq![tool + exe_suffix],
    }
}

/// Whether `t` is where the tool is run from: the override when there is
/// one, else `root/tool/[version/]tool[suffix]` in the cache.
pub open spec fn tool_path_matches(
    t: ToolPath,
    overridden: Option<Seq<char>>,
    root: Seq<char>,
    tool: Seq<char>,
    version: Option<Seq<char>>,
    exe_suffix: Seq<char>,
) -> bool {
    match overridden {
        Some(p) => t is Overridden && t->Overridden_0@ == p,
        None => match t {
            ToolPath::Cached { bin_path, base, sub_paths } => {
                &&& base@ == join_path(root, tool)
                &&& texts(sub_paths@) == tool_sub_paths(tool, version, exe_suffix)
                &&& bin_path@ == join_all(base@, texts(sub_paths@))
            },
            _ => false,
        },
    }
}

/// Settings for one invocation of the driver.
#[derive(Debug)]
pub struct Config {
    cache: Option<Cache>,
    verbose: bool,
    color: bool,
    vars: Vec<(String, String)>,
    exe_suffix: String,
}

impl Config {
    /// Whether the cache is loaded.
    pub closed spec fn has_cache(&self) -> bool {
        self.cache.is_some()
    }

    /// The cache root, once loaded.
    pub closed spec fn cache_root(&self) -> Seq<char> {
        self.cache.unwrap()@
    }

    /// Whether verbose output was asked for.
    pub closed spec fn verbose_spec(&self) -> bool {
        self.verbose
    }

    /// The environment variables the driver was started with.
    pub closed spec fn vars_spec(&self) -> Seq<(String, String)> {
        self.vars@
    }

    /// The suffix of executable file names on this platform.
    pub closed spec fn exe_suffix_spec(&self) -> Seq<char> {
        self.exe_suffix@
    }

    /// A configuration for a process started with `vars` in its environment,
    /// on a platform whose executables end in `exe_suffix`.
    pub fn new(vars: Vec<(String, String)>, exe_suffix: String) -> (r: Config)
        ensures
            !r.has_cache(),
            !r.verbose_spec(),
            r.vars_spec() == vars@,
            r.exe_suffix_spec() == exe_suffix@,
    {
        Config { cache: None, verbose: false, color: stderr_is_terminal(), vars, exe_suffix }
    }

    /// Loads the cache from the user's directories.
    pub fn load_cache(&mut self) -> (r: Result<(), DriverError>)
        requires
            !old(self).has_cache(),
        ensures
            r is Ok ==> final(self).has_cache(),
            r is Err ==> !final(self).has_cache(),
            final(self).verbose_spec() == old(self).verbose_spec(),
            final(self).vars_spec() == old(self).vars_spec(),
            final(self).exe_suffix_spec() == old(self).exe_suffix_spec(),
    {
        match Cache::new() {
            Ok(c) => {
                self.use_cache(c);
                Ok(())
            },
            Err(e) => Err(e),
        }
    }

    /// Uses `cache` from now on.
    pub fn use_cache(&mut self, cache: Cache)
        ensures
            final(self).has_cache(),
            final(self).cache_root() == cache@,
            final(self).verbose_spec() == old(self).verbose_spec(),
            final(self).vars_spec() == old(self).vars_spec(),
            final(self).exe_suffix_spec() == old(self).exe_suffix_spec(),
    {
        self.cache = Some(cache);
    }

    /// The cache.
    pub fn cache(&self) -> (r: &Cache)
        requires
            self.has_cache(),
        ensures
            r@ == self.cache_root(),
    {
        self.cache.as_ref().unwrap()
    }

    /// Whether verbose output was asked for.
    pub fn is_verbose(&self) -> (r: bool)
        ensures
            r == self.verbose_spec(),
    {
        self.verbose
    }

    /// Turns verbose output on or off.
    pub fn set_verbose(&mut self, verbose: bool)
        ensures
            final(self).verbose_spec() == verbose,
            final(self).has_cache() == old(self).has_cache(),
            final(self).has_cache() ==> final(self).cache_root() == old(self).cache_root(),
            final(self).vars_spec() == old(self).vars_spec(),
            final(self).exe_suffix_spec() == old(self).exe_suffix_spec(),
    {
        self.verbose = verbose;
    }

    /// Whether status lines may be coloured: standard error is a terminal.
    pub closed spec fn color_spec(&self) -> bool {
        self.color
    }

    /// Whether status lines may be coloured.
    pub fn color(&self) -> (r: bool)
        ensures
            r == self.color_spec(),
    {
        self.color
    }

    /// Runs `f` only in verbose mode.
    pub fn verbose<F: FnOnce()>(&self, f: F)
        requires
            self.verbose_spec() ==> f.requires(()),
        ensures
            self.verbose_spec() ==> f.ensures((), ()),
    {
        if self.verbose {
            f();
        }
    }

    /// The value of the environment variable `key`.
    pub fn env_var(&self, key: &str) -> (r: Option<&String>)
        ensures
            r.is_some() == env_lookup(self.vars_spec(), key@).is_some(),
            r.is_some() ==> r.unwrap()@ == env_lookup(self.vars_spec(), key@).unwrap(),
    {
        let n = self.vars.len();
        let mut i: usize = 0;
        assert(self.vars@.subrange(0, n as int) == self.vars@);
        while i < n
            invariant
                n == self.vars@.len(),
                i <= n,
                env_lookup(self.vars@, key@) == env_lookup(
                    self.vars@.subrange(i as int, n as int),
                    key@,
                ),
            decreases n - i,
        {
            let ghost rest = self.vars@.subrange(i as int, n as int);
            assert(rest[0] == self.vars@[i as int]);
            assert(rest.subrange(1, rest.len() as int) == self.vars@.subrange(i + 1, n as int));
            if same_text(self.vars[i].0.as_str(), key) {
                return Some(&self.vars[i].1);
            }
            i = i + 1;
        }
        None
    }

    /// Where to run `tool` (of `version`, if given) from: the path in the
    /// environment variable named after it when set, else its cache path.
    pub fn get_tool(&self, tool: &str, version: Option<&str>) -> (r: ToolPath)
        requires
            self.has_cache(),
        ensures
            tool_path_matches(
                r,
                env_lookup(self.vars_spec(), env_var_name_of(tool@)),
                self.cache_root(),
                tool@,
                crate::cache::text_of(version),
                self.exe_suffix_spec(),
            ),
    {
        let key = env_var_name(tool);
        match self.env_var(key.as_str()) {
            Some(p) => ToolPath::Overridden(p.clone()),
            None => {
                let base = join(self.cache().root(), tool);
                let file = tool.to_owned().concat(self.exe_suffix.as_str());
                let mut sub_paths: Vec<String> = Vec::new();
                let mut bin_path = base.clone();
                match version {
                    Some(v) => {
                        bin_path = join(bin_path.as_str(), v);
                        sub_paths.push(v.to_owned());
                    },
                    None => {},
                }
                bin_path = join(bin_path.as_str(), file.as_str());
                sub_paths.push(file);
                let ghost parts = texts(sub_paths@);
                assert(parts =~= tool_sub_paths(
                    tool@,
                    crate::cache::text_of(version),
                    self.exe_suffix@,
                ));
                proof {
                    reveal_with_fuel(join_all, 3);
                    assert(parts.drop_last().len() == 0 ==> parts.drop_last() =~= Seq::<
                        Seq<char>,
                    >::empty());
                    assert(parts.len() == 2 ==> parts.drop_last().drop_last() =~= Seq::<
                        Seq<char>,
                    >::empty());
                }
                ToolPath::Cached { bin_path, base, sub_paths }
            },
        }
    }

    /// Where to run the binding generator of `version` from.
    pub fn get_wasm_bindgen(&self, version: &str) -> (r: ToolPath)
        requires
            self.has_cache(),
        ensures
            tool_path_matches(
                r,
                env_lookup(self.vars_spec(), env_var_name_of("wasm-bindgen"@)),
                self.cache_root(),
                "wasm-bindgen"@,
                Some(version@),
                self.exe_suffix_spec(),
            ),
    {
        self.get_tool("wasm-bindgen", Some(version))
    }

    /// Where to run the optimizer from.
    pub fn get_wasm_opt(&self) -> (r: ToolPath)
        requires
            self.has_cache(),
        ensures
            tool_path_matches(
                r,
                env_lookup(self.vars_spec(), env_var_name_of("wasm-opt"@)),
                self.cache_root(),
                "wasm-opt"@,
                None,
                self.exe_suffix_spec(),
            ),
    {
        self.get_tool("wasm-opt", None)
    }
}

} // verus!
