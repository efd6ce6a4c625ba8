//! The cache root, namespaced by this tool's version, and the stamps that
//! record checks which once succeeded.
use vstd::prelude::*;
use crate::error::DriverError;
use crate::paths::{join, join_path};

verus! {

/// The version that namespaces the cache.
pub const TOOL_VERSION: &'static str = "0.1.28";

/// Relies on `dirs::cache_dir`: the user's cache directory, if the platform
/// has one. It depends on the environment, so nothing is stated of it.
#[verifier::external_body]
fn user_cache_dir() -> (r: Option<String>) {
    dirs::cache_dir().map(|p| p.to_string_lossy().into_owned())
}

/// Relies on `dirs::home_dir`: the user's home directory, if known. It
/// depends on the environment, so nothing is stated of it.
#[verifier::external_body]
fn user_home_dir() -> (r: Option<String>) {
    dirs::home_dir().map(|p| p.to_string_lossy().into_owned())
}

/// Relies on `std::path::Path::exists`: whether something is at `p` now.
#[verifier::external_body]
fn path_exists(p: &str) -> (r: bool) {
    std::path::Path::new(p).exists()
}

/// The cache root that `from_dirs` picks.
pub open spec fn cache_root_of(
    cache_dir: Option<Seq<char>>,
    home_dir: Option<Seq<char>>,
    version: Seq<char>,
) -> Option<Seq<char>> {
    match cache_dir {
        Some(c) => Some(join_path(join_path(c, "cargo-wasi"@), version)),
        None => match home_dir {
            Some(h) => Some(join_path(join_path(h, ".cargo-wasi"@), version)),
            None => None,
        },
    }
}

/// The characters of an optional text.
pub open spec fn text_of(o: Option<&str>) -> Option<Seq<char>> {
    match o {
        Some(s) => Some(s@),
        None => None,
    }
}

/// Whether `s` holds a path separator.
pub open spec fn has_separator(s: Seq<char>) -> bool {
    exists|i: int| 0 <= i < s.len() && (s[i] == '/' || s[i] == '\\')
}

/// The directory that all tool binaries and stamps live under.
#[derive(Debug)]
pub struct Cache {
    root: String,
}

impl View for Cache {
    type V = Seq<char>;

    closed spec fn view(&self) -> Seq<char> {
        self.root@
    }
}

/// A marker whose existence records that a check once succeeded.
#[derive(Debug)]
pub struct Stamp {
    path: String,
}

impl View for Stamp {
    type V = Seq<char>;

    closed spec fn view(&self) -> Seq<char> {
        self.path@
    }
}

fn opt_view(o: &Option<String>) -> (r: Option<&str>)
    ensures
        r.is_some() == o.is_some(),
        r.is_some() ==> r.unwrap()@ == o.unwrap()@,
{
    match o {
        Some(s) => Some(s.as_str()),
        None => None,
    }
}

impl Cache {
    /// The cache under the user's cache directory, or else under the home
    /// directory.
    pub fn new() -> (r: Result<Cache, DriverError>)
        ensures
            r is Ok ==> exists|c: Option<Seq<char>>, h: Option<Seq<char>>|
                #[trigger] cache_root_of(c, h, TOOL_VERSION@) == Some(r->Ok_0@),
            r is Err ==> r->Err_0 is Message && r->Err_0->Message_text@
                == "failed to find home directory, is $HOME set?"@,
    {
        let cache_dir = user_cache_dir();
        let home_dir = user_home_dir();
        Cache::from_dirs(opt_view(&cache_dir), opt_view(&home_dir), TOOL_VERSION)
    }

    /// The cache for `version` under `cache_dir/cargo-wasi`, or else under
    /// `home_dir/.cargo-wasi`; an error when neither directory is known.
    pub fn from_dirs(cache_dir: Option<&str>, home_dir: Option<&str>, version: &str) -> (r: Result<
        Cache,
        DriverError,
    >)
        ensures
            r is Ok == cache_root_of(
                text_of(cache_dir),
                text_of(home_dir),
                version@,
            ).is_some(),
            r is Ok ==> r->Ok_0@ == cache_root_of(
                text_of(cache_dir),
                text_of(home_dir),
                version@,
            ).unwrap(),
            r is Err ==> r->Err_0 is Message && r->Err_0->Message_text@
                == "failed to find home directory, is $HOME set?"@,
    {
        let all_versions = match cache_dir {
            Some(c) => join(c, "cargo-wasi"),
            None => match home_dir {
                Some(h) => join(h, ".cargo-wasi"),
                None => {
                    return Err(
                        DriverError::Message {
                            text: "failed to find home directory, is $HOME set?".to_owned(),
                        },
                    );
                },
            },
        };
        Ok(Cache { root: join(all_versions.as_str(), version) })
    }

    /// The cache root.
    pub fn root(&self) -> (r: &str)
        ensures
            r@ == self@,
    {
        self.root.as_str()
    }

    /// The lock file that serializes installs of `tool`: `root/tool-lock`.
    pub fn tool_lock_path(&self, tool: &str) -> (r: String)
        ensures
            r@ == join_path(self@, tool@ + "-lock"@),
    {
        join(self.root.as_str(), tool.to_owned().concat("-lock").as_str())
    }

    /// The lock file that serializes all downloads: `root/downloading`.
    pub fn download_lock_path(&self) -> (r: String)
        ensures
            r@ == join_path(self@, "downloading"@),
    {
        join(self.root.as_str(), "downloading")
    }

    /// The stamp called `name`, under `root/stamps`; a name that holds a
    /// path separator is rejected.
    pub fn stamp(&self, name: &str) -> (r: Result<Stamp, DriverError>)
        ensures
            r is Err <==> has_separator(name@),
            r is Ok ==> r->Ok_0@ == join_path(join_path(self@, "stamps"@), name@),
            r is Err ==> r->Err_0 is Message,
    {
        if holds_separator(name) {
            return Err(
                DriverError::Message {
                    text: "a stamp name may not hold a path separator: ".to_owned().concat(name),
                },
            );
        }
        let dir = join(self.root.as_str(), "stamps");
        Ok(Stamp { path: join(dir.as_str(), name) })
    }
}

/// Whether `s` holds `/` or `\\`.
fn holds_separator(s: &str) -> (r: bool)
    ensures
        r == has_separator(s@),
{
    let n = s.unicode_len();
    let mut i: usize = 0;
    while i < n
        invariant
            n == s@.len(),
            i <= n,
            forall|j: int| 0 <= j < i ==> !(#[trigger] s@[j] == '/' || s@[j] == '\\'),
        decreases n - i,
    {
        let c = s.get_char(i);
        if c == '/' || c == '\\' {
            return true;
        }
        i = i + 1;
    }
    false
}

impl Stamp {
    /// The marker's path.
    pub fn path(&self) -> (r: &str)
        ensures
            r@ == self@,
    {
        self.path.as_str()
    }

    /// Whether the marker is there now (it may outlive what it records).
    pub fn is_present(&self) -> bool {
        path_exists(self.path.as_str())
    }

    /// Runs the guarded check `f` unless `present` says the marker is there;
    /// only when `f` succeeds is `create` called to make the marker. An error
    /// of `f` is returned unchanged and no marker is made.
    pub fn ensure_given<E, F, C>(self, present: bool, f: F, create: C) -> (r: Result<(), E>) where
        F: FnOnce() -> Result<(), E>,
        C: FnOnce(Stamp) -> Result<(), E>,

        requires
            !present ==> f.requires(()),
            !present ==> create.requires((self,)),
        ensures
            present ==> r is Ok,
            !present ==> exists|fr: Result<(), E>|
                #[trigger] f.ensures((), fr) && (fr is Err ==> r == fr) && (fr is Ok
                    ==> create.ensures((self,), r)),
    {
        if present {
            return Ok(());
        }
        let fr = f();
        match fr {
            Ok(()) => create(self),
            Err(e) => Err(e),
        }
    }

    /// Looks for the marker, then proceeds as `ensure_given`.
    pub fn ensure<E, F, C>(self, f: F, create: C) -> (r: Result<(), E>) where
        F: FnOnce() -> Result<(), E>,
        C: FnOnce(Stamp) -> Result<(), E>,

        requires
            f.requires(()),
            create.requires((self,)),
        ensures
            r is Ok || (exists|fr: Result<(), E>|
                #[trigger] f.ensures((), fr) && (fr is Err ==> r == fr) && (fr is Ok
                    ==> create.ensures((self,), r))),
    {
        let present = self.is_present();
        self.ensure_given(present, f, create)
    }
}

} // verus!
