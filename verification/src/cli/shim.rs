//! Planning of the `tunnel-pilot` PATH shim: a symlink named `tunnel-pilot`
//! in a bin directory on `$PATH`, pointing at the running app binary.
//!
//! Two candidates, in preference order: `~/.local/bin` (no password prompt)
//! then `/usr/local/bin` (usually needs an admin prompt). The filesystem
//! probing and the mutations happen outside; this module decides.
//!
//! Safety rules: a regular file is never deleted (only a symlink that is
//! ours, [`is_removable_link`]); a development build is never installed
//! ([`dev_build_blocks`]); elevated commands quote every path
//! ([`shell_quote`]). Paths are `/`-separated strings.
use crate::error::AppError;
use crate::state::models::opt_view;
use crate::text::{push_char, str_eq};
use vstd::prelude::*;

verus! {

/// The command name put on `$PATH`.
pub const SHIM_NAME: &'static str = "tunnel-pilot";

/// Escape hatch: install a shim even from a development build.
pub const ALLOW_DEV_SHIM_ENV: &'static str = "TUNNEL_PILOT_ALLOW_DEV_SHIM";

/// Message used where the platform has no symlink shim story.
pub const UNSUPPORTED: &'static str = "installing the CLI on PATH is only supported on macOS and Linux";

/// Where a shim can live.
#[derive(Debug, Clone, Copy, PartialEq, Eq, Structural)]
pub enum ShimTarget {
    /// `~/.local/bin`: user-owned, no elevation.
    UserLocal,
    /// `/usr/local/bin`: system-wide, normally needs an admin prompt.
    UsrLocal,
}

/// `dir` joined with `name` by one `/` (as `Path::join` does for a relative
/// name).
pub open spec fn join_path(dir: Seq<char>, name: Seq<char>) -> Seq<char> {
    if dir.len() == 0 {
        name
    } else if dir.last() == '/' {
        dir + name
    } else {
        dir + "/"@ + name
    }
}

/// `dir` joined with `name`.
pub fn join(dir: &str, name: &str) -> (r: String)
    ensures
        r@ == join_path(dir@, name@),
{
    let n = dir.unicode_len();
    if n == 0 {
        name.to_string()
    } else if dir.get_char(n - 1) == '/' {
        dir.to_string().concat(name)
    } else {
        dir.to_string().concat("/").concat(name)
    }
}

/// A usable home directory: set and non-empty.
pub open spec fn usable_home(home: Option<Seq<char>>) -> Option<Seq<char>> {
    match home {
        Some(h) => if h.len() > 0 {
            Some(h)
        } else {
            None
        },
        None => None,
    }
}

/// The bin directory of a target (none for `~/.local/bin` without a home).
pub open spec fn target_dir(t: ShimTarget, home: Option<Seq<char>>) -> Option<Seq<char>> {
    match t {
        ShimTarget::UserLocal => match usable_home(home) {
            Some(h) => Some(join_path(join_path(h, ".local"@), "bin"@)),
            None => None,
        },
        ShimTarget::UsrLocal => Some("/usr/local/bin"@),
    }
}

/// The short label of a target.
pub open spec fn target_label(t: ShimTarget) -> Seq<char> {
    match t {
        ShimTarget::UserLocal => "~/.local/bin"@,
        ShimTarget::UsrLocal => "/usr/local/bin"@,
    }
}

impl ShimTarget {
    /// The bin directory for this target, given `$HOME` (`None` only when the
    /// home is unset or empty).
    pub fn dir(self, home: Option<&str>) -> (r: Option<String>)
        ensures
            opt_view(r) == target_dir(
                self,
                match home {
                    Some(h) => Some(h@),
                    None => None,
                },
            ),
    {
        match self {
            ShimTarget::UserLocal => match home {
                Some(h) => {
                    if h.unicode_len() == 0 {
                        None
                    } else {
                        let local = join(h, ".local");
                        Some(join(local.as_str(), "bin"))
                    }
                },
                None => None,
            },
            ShimTarget::UsrLocal => Some("/usr/local/bin".to_string()),
        }
    }

    /// Short human label, used in output and log lines.
    pub fn label(self) -> (r: &'static str)
        ensures
            r@ == target_label(self),
    {
        match self {
            ShimTarget::UserLocal => "~/.local/bin",
            ShimTarget::UsrLocal => "/usr/local/bin",
        }
    }
}

/// One resolved install location.
#[derive(Debug, Clone, PartialEq, Eq)]
pub struct Candidate {
    pub target: ShimTarget,
    pub dir: String,
}

impl Candidate {
    /// The symlink path itself (`<dir>/tunnel-pilot`).
    pub fn link_path(&self) -> (r: String)
        ensures
            r@ == join_path(self.dir@, SHIM_NAME@),
    {
        join(self.dir.as_str(), SHIM_NAME)
    }
}

/// The install locations for `home`, in preference order: no elevation
/// first; `~/.local/bin` only when the home is usable.
pub fn candidates(home: Option<&str>) -> (r: Vec<Candidate>)
    ensures
        usable_home(
            match home {
                Some(h) => Some(h@),
                None => None,
            },
        ) is Some ==> r@.len() == 2 && r@[0].target == ShimTarget::UserLocal && Some(r@[0].dir@)
            == target_dir(
            ShimTarget::UserLocal,
            match home {
                Some(h) => Some(h@),
                None => None,
            },
        ) && r@[1].target == ShimTarget::UsrLocal && r@[1].dir@ == "/usr/local/bin"@,
        usable_home(
            match home {
                Some(h) => Some(h@),
                None => None,
            },
        ) is None ==> r@.len() == 1 && r@[0].target == ShimTarget::UsrLocal && r@[0].dir@
            == "/usr/local/bin"@,
{
    let mut out: Vec<Candidate> = Vec::new();
    match ShimTarget::UserLocal.dir(home) {
        Some(dir) => out.push(Candidate { target: ShimTarget::UserLocal, dir }),
        None => {},
    }
    out.push(Candidate { target: ShimTarget::UsrLocal, dir: "/usr/local/bin".to_string() });
    out
}

/// What occupies a candidate path.
#[derive(Debug, Clone, Copy, PartialEq, Eq, Structural)]
pub enum ShimState {
    /// Nothing there.
    Absent,
    /// A symlink resolving to the running binary.
    LinkedToCurrent,
    /// A symlink pointing somewhere else (stale, or dangling).
    LinkedElsewhere,
    /// A real file or directory: never touched.
    NotASymlink,
}

/// Per-candidate inspection result.
#[derive(Debug, Clone, PartialEq, Eq)]
pub struct ShimEntry {
    pub target: ShimTarget,
    /// Path of the shim (`<dir>/tunnel-pilot`).
    pub path: String,
    pub state: ShimState,
    /// Where the symlink points; `None` unless the state is a link.
    pub linked_path: Option<String>,
    /// The directory exists or can be created, writable without elevation.
    pub writable: bool,
    pub dir_exists: bool,
}

impl ShimEntry {
    /// An owned copy, equal field for field.
    pub fn clone_entry(&self) -> (r: ShimEntry)
        ensures
            r == *self,
    {
        ShimEntry {
            target: self.target,
            path: self.path.clone(),
            state: self.state,
            linked_path: crate::state::models::clone_opt_string(&self.linked_path),
            writable: self.writable,
            dir_exists: self.dir_exists,
        }
    }
}

/// The install target picked by [`choose_target`].
#[derive(Debug, Clone, PartialEq, Eq)]
pub struct Chosen {
    pub target: ShimTarget,
    pub path: String,
    /// The directory is not writable by this user: an admin prompt is needed.
    pub needs_elevation: bool,
}

/// The full shim picture the settings screen and the client both render.
#[derive(Debug, Clone, PartialEq, Eq)]
pub struct CliShimStatus {
    /// False on platforms without a symlink shim story.
    pub supported: bool,
    /// A shim exists at one of the candidates (in any state but absent).
    pub installed: bool,
    /// Path of the reported shim: the first candidate that is not absent.
    pub path: Option<String>,
    pub target: Option<ShimTarget>,
    /// The reported shim resolves to the running binary.
    pub links_to_current: bool,
    pub linked_path: Option<String>,
    /// The reported shim is a symlink pointing elsewhere: stale.
    pub linked_elsewhere: bool,
    /// A real file occupies the reported path.
    pub conflict: bool,
    /// Where an install without a forced target would go.
    pub install_target: Option<ShimTarget>,
    pub install_path: Option<String>,
    /// Installing at `install_target` needs an admin prompt.
    pub needs_elevation: bool,
    pub current_exe: Option<String>,
    /// Install would be refused for being a development build.
    pub dev_build: bool,
    /// Every candidate, in preference order.
    pub entries: Vec<ShimEntry>,
}

impl CliShimStatus {
    /// The answer on a platform without shims: nothing to inspect, nothing
    /// installable.
    pub fn unsupported() -> (r: CliShimStatus)
        ensures
            !r.supported && !r.installed && r.path is None && r.target is None
                && !r.links_to_current && r.linked_path is None && !r.linked_elsewhere
                && !r.conflict && r.install_target is None && r.install_path is None
                && !r.needs_elevation && r.current_exe is None && !r.dev_build
                && r.entries@.len() == 0,
    {
        CliShimStatus {
            supported: false,
            installed: false,
            path: None,
            target: None,
            links_to_current: false,
            linked_path: None,
            linked_elsewhere: false,
            conflict: false,
            install_target: None,
            install_path: None,
            needs_elevation: false,
            current_exe: None,
            dev_build: false,
            entries: Vec::new(),
        }
    }
}

/// The first `/` at or after `from`, or the length when there is none.
pub open spec fn next_slash(s: Seq<char>, from: int) -> int
    decreases s.len() - from,
{
    if from < 0 || from >= s.len() {
        s.len() as int
    } else if s[from] == '/' {
        from
    } else {
        next_slash(s, from + 1)
    }
}

/// Whether one of the `/`-separated segments of `s` from `start` on equals
/// `seg`.
pub open spec fn segments_contain(s: Seq<char>, start: int, seg: Seq<char>) -> bool
    decreases s.len() - start,
{
    if start < 0 || start > s.len() {
        false
    } else {
        let e = next_slash(s, start);
        if start <= e <= s.len() {
            s.subrange(start, e) == seg || (e < s.len() && segments_contain(s, e + 1, seg))
        } else {
            false
        }
    }
}

/// Whether `s` has a `/`-separated segment equal to `seg`.
pub open spec fn has_segment(s: Seq<char>, seg: Seq<char>) -> bool {
    segments_contain(s, 0, seg)
}

proof fn lemma_next_slash(s: Seq<char>, from: int)
    requires
        0 <= from <= s.len(),
    ensures
        from <= next_slash(s, from) <= s.len(),
    decreases s.len() - from,
{
    if from < s.len() && s[from] != '/' {
        lemma_next_slash(s, from + 1);
    }
}

/// The first `/` at or after `from` in `s`.
fn find_slash(s: &str, from: usize) -> (r: usize)
    requires
        from <= s@.len(),
    ensures
        r == next_slash(s@, from as int),
        from <= r <= s@.len(),
{
    proof {
        lemma_next_slash(s@, from as int);
    }
    let n = s.unicode_len();
    let mut i = from;
    while i < n
        invariant
            from <= i <= n,
            n == s@.len(),
            next_slash(s@, from as int) == next_slash(s@, i as int),
        decreases n - i,
    {
        if s.get_char(i) == '/' {
            return i;
        }
        i = i + 1;
    }
    i
}

/// A binary under a `target/` directory is a development build: it is
/// deleted by `cargo clean` and rebuilt on every run.
pub fn is_dev_build(exe: &str) -> (r: bool)
    ensures
        r == has_segment(exe@, "target"@),
{
    let n = exe.unicode_len();
    let mut start: usize = 0;
    loop
        invariant
            start <= n,
            n == exe@.len(),
            has_segment(exe@, "target"@) == segments_contain(exe@, start as int, "target"@),
        decreases n - start,
    {
        let e = find_slash(exe, start);
        if str_eq(exe.substring_char(start, e), "target") {
            return true;
        }
        if e >= n {
            return false;
        }
        start = e + 1;
    }
}

/// Whether install must be refused for being a development build: a dev
/// build, and the override not set. Shared by the status and the install.
pub fn dev_build_blocks(exe: &str, allowed: bool) -> (r: bool)
    ensures
        r == (has_segment(exe@, "target"@) && !allowed),
{
    is_dev_build(exe) && !allowed
}

/// The position of the first entry satisfying `p`.
pub open spec fn first_where(es: Seq<ShimEntry>, p: spec_fn(ShimEntry) -> bool) -> Option<int>
    decreases es.len(),
{
    if es.len() == 0 {
        None
    } else if p(es[0]) {
        Some(0)
    } else {
        match first_where(es.drop_first(), p) {
            Some(k) => Some(k + 1),
            None => None,
        }
    }
}

/// `first_where` gives the first position satisfying `p`, or `None` when no
/// position does.
pub proof fn lemma_first_where(es: Seq<ShimEntry>, p: spec_fn(ShimEntry) -> bool)
    ensures
        first_where(es, p) matches Some(k) ==> 0 <= k < es.len() && p(es[k]) && forall|j: int|
            0 <= j < k ==> !p(#[trigger] es[j]),
        first_where(es, p) is None ==> forall|j: int| 0 <= j < es.len() ==> !p(#[trigger] es[j]),
    decreases es.len(),
{
    if es.len() > 0 {
        lemma_first_where(es.drop_first(), p);
        assert forall|j: int| 1 <= j < es.len() implies es[j] == #[trigger] es.drop_first()[j
            - 1] by {}
        if !p(es[0]) {
            if let Some(k) = first_where(es.drop_first(), p) {
                assert forall|j: int| 0 <= j < k + 1 implies !p(#[trigger] es[j]) by {
                    if j > 0 {
                        assert(es[j] == es.drop_first()[j - 1]);
                    }
                }
                assert(es[k + 1] == es.drop_first()[k]);
            } else {
                assert forall|j: int| 0 <= j < es.len() implies !p(#[trigger] es[j]) by {
                    if j > 0 {
                        assert(es[j] == es.drop_first()[j - 1]);
                    }
                }
            }
        }
    }
}

/// Writable without elevation.
pub open spec fn is_writable() -> spec_fn(ShimEntry) -> bool {
    |e: ShimEntry| e.writable
}

/// The system-wide directory.
pub open spec fn is_usr_local() -> spec_fn(ShimEntry) -> bool {
    |e: ShimEntry| e.target == ShimTarget::UsrLocal
}

/// Anything occupies the path.
pub open spec fn is_present() -> spec_fn(ShimEntry) -> bool {
    |e: ShimEntry| e.state != ShimState::Absent
}

/// Position of the first entry with `writable`, `UsrLocal` target or a
/// present state, by `which` (0, 1, 2).
fn find_entry(entries: &[ShimEntry], which: u8) -> (r: Option<usize>)
    requires
        which < 3,
    ensures
        ({
            let p = if which == 0 {
                is_writable()
            } else if which == 1 {
                is_usr_local()
            } else {
                is_present()
            };
            match r {
                Some(k) => first_where(entries@, p) == Some(k as int),
                None => first_where(entries@, p) is None,
            }
        }),
{
    let ghost p = if which == 0 {
        is_writable()
    } else if which == 1 {
        is_usr_local()
    } else {
        is_present()
    };
    proof {
        lemma_first_where(entries@, p);
    }
    let mut i: usize = 0;
    while i < entries.len()
        invariant
            i <= entries.len(),
            which < 3,
            p == (if which == 0 {
                is_writable()
            } else if which == 1 {
                is_usr_local()
            } else {
                is_present()
            }),
            forall|j: int| 0 <= j < i ==> !p(#[trigger] entries@[j]),
            first_where(entries@, p) matches Some(k) ==> 0 <= k < entries@.len() && p(entries@[k])
                && forall|j: int| 0 <= j < k ==> !p(#[trigger] entries@[j]),
            first_where(entries@, p) is None ==> forall|j: int|
                0 <= j < entries@.len() ==> !p(#[trigger] entries@[j]),
        decreases entries.len() - i,
    {
        let e = &entries[i];
        let hit = if which == 0 {
            e.writable
        } else if which == 1 {
            e.target == ShimTarget::UsrLocal
        } else {
            e.state != ShimState::Absent
        };
        if hit {
            proof {
                assert(p(entries@[i as int]));
                if let Some(k) = first_where(entries@, p) {
                    if k > i {
                        assert(!p(entries@[i as int]));
                    }
                }
            }
            return Some(i);
        }
        i = i + 1;
    }
    proof {
        if let Some(k) = first_where(entries@, p) {
            assert(!p(entries@[k]));
        }
    }
    None
}

/// The install choice: the first entry writable without elevation; else the
/// first `/usr/local/bin` entry with an admin prompt; else the first entry
/// with an admin prompt; none without entries. As `(index, elevation)`.
pub open spec fn choice_of(es: Seq<ShimEntry>) -> Option<(int, bool)> {
    match first_where(es, is_writable()) {
        Some(k) => Some((k, false)),
        None => match first_where(es, is_usr_local()) {
            Some(k) => Some((k, true)),
            None => if es.len() > 0 {
                Some((0, true))
            } else {
                None
            },
        },
    }
}

/// Pick where to install: the first candidate writable without elevation,
/// else `/usr/local/bin` flagged as needing an admin prompt.
pub fn choose_target(entries: &[ShimEntry]) -> (r: Option<Chosen>)
    ensures
        match choice_of(entries@) {
            Some((k, elevate)) => r matches Some(c) && c.target == entries@[k].target && c.path@
                == entries@[k].path@ && c.needs_elevation == elevate,
            None => r is None,
        },
{
    proof {
        lemma_first_where(entries@, is_writable());
        lemma_first_where(entries@, is_usr_local());
    }
    let (k, needs_elevation) = match find_entry(entries, 0) {
        Some(k) => (k, false),
        None => match find_entry(entries, 1) {
            Some(k) => (k, true),
            None => {
                if entries.len() > 0 {
                    (0, true)
                } else {
                    return None;
                }
            },
        },
    };
    let e = &entries[k];
    Some(Chosen { target: e.target, path: e.path.clone(), needs_elevation })
}

/// Assemble a status from already-inspected candidates, for the running
/// binary `exe` (`dev_allowed`: the development-build override is set). The
/// reported shim is the first entry that is not absent.
pub fn status_from(entries: Vec<ShimEntry>, exe: Option<&str>, dev_allowed: bool) -> (r:
    CliShimStatus)
    ensures
        r.supported,
        r.entries@ == entries@,
        match first_where(entries@, is_present()) {
            Some(k) => {
                let e = entries@[k];
                &&& r.installed
                &&& opt_view(r.path) == Some(e.path@)
                &&& r.target == Some(e.target)
                &&& r.links_to_current == (e.state == ShimState::LinkedToCurrent)
                &&& opt_view(r.linked_path) == opt_view(e.linked_path)
                &&& r.linked_elsewhere == (e.state == ShimState::LinkedElsewhere)
                &&& r.conflict == (e.state == ShimState::NotASymlink)
            },
            None => !r.installed && r.path is None && r.target is None && !r.links_to_current
                && r.linked_path is None && !r.linked_elsewhere && !r.conflict,
        },
        match choice_of(entries@) {
            Some((k, elevate)) => r.install_target == Some(entries@[k].target) && opt_view(
                r.install_path,
            ) == Some(entries@[k].path@) && r.needs_elevation == elevate,
            None => r.install_target is None && r.install_path is None && !r.needs_elevation,
        },
        opt_view(r.current_exe) == (match exe {
            Some(x) => Some(x@),
            None => None,
        }),
        r.dev_build == (match exe {
            Some(x) => has_segment(x@, "target"@) && !dev_allowed,
            None => false,
        }),
{
    proof {
        lemma_first_where(entries@, is_present());
    }
    let reported = find_entry(&entries, 2);
    let chosen = choose_target(&entries);
    let (installed, path, target, links_to_current, linked_path, linked_elsewhere, conflict) =
        match reported {
        Some(k) => {
            let e = &entries[k];
            (
                true,
                Some(e.path.clone()),
                Some(e.target),
                e.state == ShimState::LinkedToCurrent,
                crate::state::models::clone_opt_string(&e.linked_path),
                e.state == ShimState::LinkedElsewhere,
                e.state == ShimState::NotASymlink,
            )
        },
        None => (false, None, None, false, None, false, false),
    };
    let (install_target, install_path, needs_elevation) = match chosen {
        Some(c) => (Some(c.target), Some(c.path), c.needs_elevation),
        None => (None, None, false),
    };
    let (current_exe, dev_build) = match exe {
        Some(x) => (Some(x.to_string()), dev_build_blocks(x, dev_allowed)),
        None => (None, false),
    };
    CliShimStatus {
        supported: true,
        installed,
        path,
        target,
        links_to_current,
        linked_path,
        linked_elsewhere,
        conflict,
        install_target,
        install_path,
        needs_elevation,
        current_exe,
        dev_build,
        entries,
    }
}

/// The length of the root of a path: 1 when it starts with `/`.
pub open spec fn root_len(s: Seq<char>) -> int {
    if s.len() > 0 && s[0] == '/' {
        1
    } else {
        0
    }
}

/// The end of the first `end` characters of a path once its trailing
/// separators and trailing `.` components are dropped, as `std::path`
/// reads components: the root and a leading `.` stay.
pub open spec fn trim_tail(s: Seq<char>, end: int) -> int
    decreases end,
{
    if end <= root_len(s) || end > s.len() {
        end
    } else if s[end - 1] == '/' {
        trim_tail(s, end - 1)
    } else if s[end - 1] == '.' && end >= 2 && s[end - 2] == '/' {
        trim_tail(s, end - 1)
    } else {
        end
    }
}

proof fn lemma_trim_tail(s: Seq<char>, end: int)
    requires
        0 <= end <= s.len(),
    ensures
        0 <= trim_tail(s, end) <= end,
        end >= root_len(s) ==> trim_tail(s, end) >= root_len(s),
    decreases end,
{
    if end > root_len(s) && (s[end - 1] == '/' || (s[end - 1] == '.' && end >= 2 && s[end - 2]
        == '/')) {
        lemma_trim_tail(s, end - 1);
    }
}

/// The end of the first `end` characters of `s` once trailing separators
/// and trailing `.` components are dropped.
fn trim_tail_at(s: &str, end: usize) -> (r: usize)
    requires
        end <= s@.len(),
    ensures
        r as int == trim_tail(s@, end as int),
{
    let n = s.unicode_len();
    let root: usize = if n > 0 && s.get_char(0) == '/' {
        1
    } else {
        0
    };
    let mut e = end;
    loop
        invariant
            e <= end <= n,
            n == s@.len(),
            root as int == root_len(s@),
            trim_tail(s@, end as int) == trim_tail(s@, e as int),
        decreases e,
    {
        if e <= root {
            return e;
        }
        let c = s.get_char(e - 1);
        if c == '/' || (c == '.' && e >= 2 && s.get_char(e - 2) == '/') {
            e = e - 1;
        } else {
            return e;
        }
    }
}

/// The last `/` before `end`, plus one (0 when there is none).
fn after_last_slash(s: &str, end: usize) -> (r: usize)
    requires
        end <= s@.len(),
    ensures
        r as int == last_slash(s@, end as int) + 1,
        r <= end,
{
    let mut k: usize = end;
    while k > 0 && s.get_char(k - 1) != '/'
        invariant
            k <= end <= s@.len(),
            last_slash(s@, end as int) == last_slash(s@, k as int),
        decreases k,
    {
        k = k - 1;
    }
    k
}

/// The last component of a path as `Path::file_name` reads it: trailing
/// separators and `.` components ignored (empty for the root alone).
pub open spec fn last_segment(s: Seq<char>) -> Seq<char> {
    let e = trim_tail(s, s.len() as int);
    s.subrange(last_slash(s, e) + 1, e)
}

proof fn lemma_last_slash(s: Seq<char>, end: int)
    requires
        0 <= end <= s.len(),
    ensures
        -1 <= last_slash(s, end) < end,
    decreases end,
{
    if end > 0 && s[end - 1] != '/' {
        lemma_last_slash(s, end - 1);
    }
}

/// The last component of `s` (see [`last_segment`]).
fn file_name(s: &str) -> (r: String)
    ensures
        r@ == last_segment(s@),
{
    let n = s.unicode_len();
    proof {
        lemma_trim_tail(s@, n as int);
    }
    let e = trim_tail_at(s, n);
    let start = after_last_slash(s, e);
    s.substring_char(start, e).to_string()
}

/// May this symlink be deleted? Only when it is ours: it resolves to the
/// running binary, or it points at a path whose last segment is our command
/// name (a stale or dangling link).
pub fn is_removable_link(linked: &str, current_exe: Option<&str>) -> (r: bool)
    ensures
        r == ((match current_exe {
            Some(x) => linked@ == x@,
            None => false,
        }) || last_segment(linked@) == SHIM_NAME@),
{
    match current_exe {
        Some(x) => {
            if str_eq(linked, x) {
                return true;
            }
        },
        None => {},
    }
    let name = file_name(linked);
    str_eq(name.as_str(), SHIM_NAME)
}

/// `s` with each character `c` replaced by `f(c)`.
pub open spec fn map_chars(s: Seq<char>, f: spec_fn(char) -> Seq<char>) -> Seq<char>
    decreases s.len(),
{
    if s.len() == 0 {
        Seq::empty()
    } else {
        map_chars(s.drop_last(), f) + f(s.last())
    }
}

/// The POSIX escape of a character inside single quotes.
pub open spec fn sh_escape() -> spec_fn(char) -> Seq<char> {
    |c: char| if c == '\'' {
        seq!['\'', '\\', '\'', '\'']
    } else {
        seq![c]
    }
}

/// The AppleScript string escape of a character.
pub open spec fn applescript_escape() -> spec_fn(char) -> Seq<char> {
    |c: char| if c == '\\' {
        seq!['\\', '\\']
    } else if c == '"' {
        seq!['\\', '"']
    } else {
        seq![c]
    }
}

/// `value` single-quoted for `/bin/sh`.
pub open spec fn sh_quoted(value: Seq<char>) -> Seq<char> {
    seq!['\''] + map_chars(value, sh_escape()) + seq!['\'']
}

/// `value` as an AppleScript string literal.
pub open spec fn applescript_quoted(value: Seq<char>) -> Seq<char> {
    seq!['"'] + map_chars(value, applescript_escape()) + seq!['"']
}

/// Append the escape of every character of `value` to `out`.
fn push_escaped(out: String, value: &str, apple: bool) -> (r: String)
    ensures
        r@ == out@ + map_chars(value@, if apple {
            applescript_escape()
        } else {
            sh_escape()
        }),
{
    let ghost f = if apple {
        applescript_escape()
    } else {
        sh_escape()
    };
    let n = value.unicode_len();
    let mut out = out;
    let ghost start = out@;
    let mut i: usize = 0;
    while i < n
        invariant
            i <= n,
            n == value@.len(),
            f == (if apple {
                applescript_escape()
            } else {
                sh_escape()
            }),
            out@ == start + map_chars(value@.subrange(0, i as int), f),
        decreases n - i,
    {
        let c = value.get_char(i);
        let ghost before = out@;
        if !apple && c == '\'' {
            out = push_char(push_char(push_char(push_char(out, '\''), '\\'), '\''), '\'');
        } else if apple && c == '\\' {
            out = push_char(push_char(out, '\\'), '\\');
        } else if apple && c == '"' {
            out = push_char(push_char(out, '\\'), '"');
        } else {
            out = push_char(out, c);
        }
        proof {
            let p = value@.subrange(0, i + 1);
            assert(p.drop_last() =~= value@.subrange(0, i as int));
            assert(p.last() == c);
            assert(out@ =~= before + f(c));
        }
        i = i + 1;
    }
    proof {
        assert(value@.subrange(0, n as int) =~= value@);
    }
    out
}

/// Single-quote a value for `/bin/sh`, escaping embedded single quotes the
/// POSIX way (`'` becomes `'\''`).
pub fn shell_quote(value: &str) -> (r: String)
    ensures
        r@ == sh_quoted(value@),
{
    let out = push_escaped("'".to_string(), value, false);
    let r = push_char(out, '\'');
    proof {
        reveal_strlit("'");
        assert(r@ =~= sh_quoted(value@));
    }
    r
}

/// Quote a shell command as an AppleScript string literal.
pub fn applescript_quote(value: &str) -> (r: String)
    ensures
        r@ == applescript_quoted(value@),
{
    let out = push_escaped("\"".to_string(), value, true);
    let r = push_char(out, '"');
    proof {
        reveal_strlit("\"");
        assert(r@ =~= applescript_quoted(value@));
    }
    r
}

/// The parent directory of a path as `Path::parent` gives it, with `/`
/// where there is none (the root alone, or an empty path): the path before
/// its last component, trailing separators and `.` components dropped.
pub open spec fn parent_of(s: Seq<char>) -> Seq<char> {
    let e = trim_tail(s, s.len() as int);
    if e <= root_len(s) {
        "/"@
    } else {
        s.subrange(0, trim_tail(s, last_slash(s, e) + 1))
    }
}

/// The last `/` before `end`, or -1.
pub open spec fn last_slash(s: Seq<char>, end: int) -> int
    decreases end,
{
    if end <= 0 || end > s.len() {
        -1
    } else if s[end - 1] == '/' {
        end - 1
    } else {
        last_slash(s, end - 1)
    }
}

/// The parent directory of a link path (see [`parent_of`]).
fn parent_dir(s: &str) -> (r: String)
    ensures
        r@ == parent_of(s@),
{
    let n = s.unicode_len();
    let root: usize = if n > 0 && s.get_char(0) == '/' {
        1
    } else {
        0
    };
    proof {
        lemma_trim_tail(s@, n as int);
    }
    let e = trim_tail_at(s, n);
    if e <= root {
        return "/".to_string();
    }
    let start = after_last_slash(s, e);
    proof {
        lemma_trim_tail(s@, start as int);
    }
    let t = trim_tail_at(s, start);
    s.substring_char(0, t).to_string()
}

/// The elevated install: `mkdir -p <dir> && ln -sfn <exe> <link>`, every
/// path single-quoted.
pub open spec fn install_command_text(exe: Seq<char>, link: Seq<char>) -> Seq<char> {
    "/bin/mkdir -p "@ + sh_quoted(parent_of(link)) + " && /bin/ln -sfn "@ + sh_quoted(exe) + " "@
        + sh_quoted(link)
}

/// The elevated install command. Always succeeds on `&str` paths.
pub fn install_shell_command(exe: &str, link: &str) -> (r: Result<String, AppError>)
    ensures
        r matches Ok(s) && s@ == install_command_text(exe@, link@),
{
    let dir = parent_dir(link);
    Ok(
        "/bin/mkdir -p ".to_string().concat(shell_quote(dir.as_str()).as_str()).concat(
            " && /bin/ln -sfn ",
        ).concat(shell_quote(exe).as_str()).concat(" ").concat(shell_quote(link).as_str()),
    )
}

/// The elevated uninstall: `rm -f <link>`, the path single-quoted.
pub fn uninstall_shell_command(link: &str) -> (r: Result<String, AppError>)
    ensures
        r matches Ok(s) && s@ == "/bin/rm -f "@ + sh_quoted(link@),
{
    Ok("/bin/rm -f ".to_string().concat(shell_quote(link).as_str()))
}

/// The AppleScript that runs `command` with administrator privileges.
pub fn elevation_script(command: &str) -> (r: String)
    ensures
        r@ == "do shell script "@ + applescript_quoted(command@) + " with administrator privileges"@,
{
    "do shell script ".to_string().concat(applescript_quote(command).as_str()).concat(
        " with administrator privileges",
    )
}

/// Whether `s` contains `sub` at some position.
pub open spec fn contains_text(s: Seq<char>, sub: Seq<char>) -> bool {
    exists|i: int| #![trigger s.subrange(i, i + sub.len())] 0 <= i <= s.len() - sub.len() && s.subrange(i, i + sub.len()) == sub
}

/// Whether `s` contains `sub`.
fn contains_str(s: &str, sub: &str) -> (r: bool)
    ensures
        r == contains_text(s@, sub@),
{
    let n = s.unicode_len();
    let m = sub.unicode_len();
    if m > n {
        return false;
    }
    let mut i: usize = 0;
    loop
        invariant
            m <= n,
            n == s@.len(),
            m == sub@.len(),
            i <= n - m,
            forall|k: int| 0 <= k < i ==> #[trigger] s@.subrange(k, k + m) != sub@,
        decreases n - m - i,
    {
        if str_eq(s.substring_char(i, i + m), sub) {
            return true;
        }
        if i == n - m {
            return false;
        }
        i = i + 1;
    }
}

/// The failure of an elevated command, from what `osascript` printed on
/// stderr (trimmed): AppleScript's user-cancelled code `-128` is a refusal;
/// anything else an I/O failure with the detail.
pub fn elevation_failure(stderr: &str) -> (r: AppError)
    ensures
        contains_text(stderr@, "-128"@) ==> r == AppError::InvalidInput(r->InvalidInput_0)
            && r->InvalidInput_0@ == "administrator authorization was cancelled"@,
        !contains_text(stderr@, "-128"@) ==> r == AppError::Io(r->Io_0) && r->Io_0@
            == "elevated command failed: "@ + (if stderr@.len() == 0 {
            "osascript reported no detail"@
        } else {
            stderr@
        }),
{
    if contains_str(stderr, "-128") {
        return AppError::InvalidInput("administrator authorization was cancelled".to_string());
    }
    let detail = if stderr.unicode_len() == 0 {
        "osascript reported no detail".to_string()
    } else {
        stderr.to_string()
    };
    AppError::Io("elevated command failed: ".to_string().concat(detail.as_str()))
}

/// Where no elevation helper exists: the refusal that hands the user the
/// exact command to run.
pub fn root_needed(command: &str) -> (r: AppError)
    ensures
        r == AppError::InvalidInput(r->InvalidInput_0),
        r->InvalidInput_0@ == "this directory needs root; run it yourself: sudo sh -c "@
            + sh_quoted(command@),
{
    AppError::InvalidInput(
        "this directory needs root; run it yourself: sudo sh -c ".to_string().concat(
            shell_quote(command).as_str(),
        ),
    )
}

/// Why the startup hook skips installing, if it does: a shim already
/// exists, a development build, no install location, or one that needs
/// administrator rights (never prompted for at launch).
pub fn auto_install_skip_reason(status: &CliShimStatus) -> (r: Option<&'static str>)
    ensures
        status.installed ==> (r matches Some(s) && s@ == "a shim already exists"@),
        !status.installed && status.dev_build ==> (r matches Some(s) && s@
            == "this is a development build"@),
        !status.installed && !status.dev_build && status.install_target is None ==> (r matches Some(
            s,
        ) && s@ == "no writable install location"@),
        !status.installed && !status.dev_build && status.install_target is Some
            && status.needs_elevation ==> (r matches Some(s) && s@
            == "the install location needs administrator rights"@),
        !status.installed && !status.dev_build && status.install_target is Some
            && !status.needs_elevation ==> r is None,
{
    if status.installed {
        Some("a shim already exists")
    } else if status.dev_build {
        Some("this is a development build")
    } else if status.install_target.is_none() {
        Some("no writable install location")
    } else if status.needs_elevation {
        Some("the install location needs administrator rights")
    } else {
        None
    }
}

/// Entries for target `t`.
pub open spec fn is_target(t: ShimTarget) -> spec_fn(ShimEntry) -> bool {
    |e: ShimEntry| e.target == t
}

/// Position of the first entry for target `t`.
fn find_target(entries: &[ShimEntry], t: ShimTarget) -> (r: Option<usize>)
    ensures
        match r {
            Some(k) => first_where(entries@, is_target(t)) == Some(k as int),
            None => first_where(entries@, is_target(t)) is None,
        },
{
    let ghost p = is_target(t);
    proof {
        lemma_first_where(entries@, p);
    }
    let mut i: usize = 0;
    while i < entries.len()
        invariant
            i <= entries.len(),
            p == is_target(t),
            forall|j: int| 0 <= j < i ==> !p(#[trigger] entries@[j]),
            first_where(entries@, p) matches Some(k) ==> 0 <= k < entries@.len() && p(entries@[k])
                && forall|j: int| 0 <= j < k ==> !p(#[trigger] entries@[j]),
            first_where(entries@, p) is None ==> forall|j: int|
                0 <= j < entries@.len() ==> !p(#[trigger] entries@[j]),
        decreases entries.len() - i,
    {
        if entries[i].target == t {
            proof {
                assert(p(entries@[i as int]));
                if let Some(k) = first_where(entries@, p) {
                    if k > i {
                        assert(!p(entries@[i as int]));
                    }
                }
            }
            return Some(i);
        }
        i = i + 1;
    }
    proof {
        if let Some(k) = first_where(entries@, p) {
            assert(!p(entries@[k]));
        }
    }
    None
}

/// What an install does: link at `chosen`, through `elevated_command` when
/// an admin prompt is needed.
#[derive(Debug, Clone, PartialEq, Eq)]
pub struct InstallPlan {
    pub chosen: Chosen,
    pub elevated_command: Option<String>,
}

/// The refusal of a development-build install.
pub open spec fn dev_build_message(exe: Seq<char>) -> Seq<char> {
    "refusing to install a development build ("@ + exe
        + ") on PATH — it is rebuilt and deleted by cargo. Install the packaged app first, or set "@
        + ALLOW_DEV_SHIM_ENV@ + "=1"@
}

/// The location an install goes to: the forced target's entry (writable
/// means no elevation), or the automatic choice. As `(index, elevation)`.
pub open spec fn install_choice(target: Option<ShimTarget>, es: Seq<ShimEntry>) -> Option<(int, bool)> {
    match target {
        Some(t) => match first_where(es, is_target(t)) {
            Some(k) => Some((k, !es[k].writable)),
            None => None,
        },
        None => choice_of(es),
    }
}

/// Whether a real file occupies the chosen target's path.
pub open spec fn blocked_by_file(es: Seq<ShimEntry>, t: ShimTarget) -> bool {
    exists|k: int| 0 <= k < es.len() && (#[trigger] es[k]).target == t && es[k].state == ShimState::NotASymlink
}

/// Plan an install of the running binary `exe`: refuse a development build
/// (unless `dev_allowed`); resolve the forced `target` or choose one; refuse
/// when a real file is in the way; elevate when the directory is not
/// writable.
pub fn plan_install(
    target: Option<ShimTarget>,
    entries: &[ShimEntry],
    exe: &str,
    dev_allowed: bool,
) -> (r: Result<InstallPlan, AppError>)
    ensures
        has_segment(exe@, "target"@) && !dev_allowed ==> (r matches Err(e) && e
            == AppError::InvalidInput(e->InvalidInput_0) && e->InvalidInput_0@
            == dev_build_message(exe@)),
        !(has_segment(exe@, "target"@) && !dev_allowed) ==> match install_choice(target, entries@) {
            None => r matches Err(e) && (match target {
                Some(t) => e == AppError::InvalidInput(e->InvalidInput_0) && e->InvalidInput_0@
                    == "cannot resolve "@ + target_label(t) + " (is $HOME set?)"@,
                None => e == AppError::Internal(e->Internal_0) && e->Internal_0@
                    == "no install location available"@,
            }),
            Some((k, elevate)) => {
                let e = entries@[k];
                if blocked_by_file(entries@, e.target) {
                    r matches Err(err) && err == AppError::InvalidInput(err->InvalidInput_0)
                        && err->InvalidInput_0@ == e.path@
                        + " already exists and is not a symlink; remove it yourself first"@
                } else {
                    r matches Ok(plan) && plan.chosen.target == e.target && plan.chosen.path@
                        == e.path@ && plan.chosen.needs_elevation == elevate && (elevate
                        ==> opt_view(plan.elevated_command) == Some(
                        install_command_text(exe@, e.path@),
                    )) && (!elevate ==> plan.elevated_command is None)
                }
            },
        },
{
    if dev_build_blocks(exe, dev_allowed) {
        return Err(
            AppError::InvalidInput(
                "refusing to install a development build (".to_string().concat(exe).concat(
                    ") on PATH — it is rebuilt and deleted by cargo. Install the packaged app first, or set ",
                ).concat(ALLOW_DEV_SHIM_ENV).concat("=1"),
            ),
        );
    }
    let chosen = match target {
        Some(t) => match find_target(entries, t) {
            Some(k) => {
                proof {
                    lemma_first_where(entries@, is_target(t));
                }
                Chosen {
                    target: t,
                    path: entries[k].path.clone(),
                    needs_elevation: !entries[k].writable,
                }
            },
            None => {
                return Err(
                    AppError::InvalidInput(
                        "cannot resolve ".to_string().concat(t.label()).concat(" (is $HOME set?)"),
                    ),
                );
            },
        },
        None => match choose_target(entries) {
            Some(c) => c,
            None => {
                return Err(AppError::Internal("no install location available".to_string()));
            },
        },
    };
    proof {
        lemma_first_where(entries@, is_writable());
        lemma_first_where(entries@, is_usr_local());
        if let Some(t) = target {
            lemma_first_where(entries@, is_target(t));
        }
    }
    let ghost choice = install_choice(target, entries@);
    assert(choice matches Some((k, el)) && 0 <= k < entries@.len() && chosen.target
        == entries@[k].target && chosen.path@ == entries@[k].path@ && chosen.needs_elevation
        == el);
    let mut i: usize = 0;
    while i < entries.len()
        invariant
            i <= entries.len(),
            !(has_segment(exe@, "target"@) && !dev_allowed),
            choice == install_choice(target, entries@),
            choice matches Some((k, el)) && 0 <= k < entries@.len() && chosen.target
                == entries@[k].target && chosen.path@ == entries@[k].path@ && chosen.needs_elevation
                == el,
            forall|k: int|
                0 <= k < i ==> !((#[trigger] entries@[k]).target == chosen.target
                    && entries@[k].state == ShimState::NotASymlink),
        decreases entries.len() - i,
    {
        if entries[i].target == chosen.target && entries[i].state == ShimState::NotASymlink {
            return Err(
                AppError::InvalidInput(
                    chosen.path.clone().concat(
                        " already exists and is not a symlink; remove it yourself first",
                    ),
                ),
            );
        }
        i = i + 1;
    }
    let elevated_command = if chosen.needs_elevation {
        match install_shell_command(exe, chosen.path.as_str()) {
            Ok(c) => Some(c),
            Err(_) => None,
        }
    } else {
        None
    };
    Ok(InstallPlan { chosen, elevated_command })
}

/// One shim removal: the path, through `elevated_command` when the
/// directory is not writable.
#[derive(Debug, Clone, PartialEq, Eq)]
pub struct Removal {
    pub path: String,
    pub elevated_command: Option<String>,
}

/// What an uninstall does: the removals in candidate order, and the last
/// path that is not ours (which makes the uninstall fail after them).
#[derive(Debug, Clone, PartialEq, Eq)]
pub struct UninstallPlan {
    pub removals: Vec<Removal>,
    pub blocked: Option<String>,
}

/// Whether an entry's symlink is ours and may go.
pub open spec fn removable_entry(e: ShimEntry, exe: Option<Seq<char>>) -> bool {
    (e.state == ShimState::LinkedToCurrent || e.state == ShimState::LinkedElsewhere) && match e.linked_path {
        Some(l) => (match exe {
            Some(x) => l@ == x,
            None => false,
        }) || last_segment(l@) == SHIM_NAME@,
        None => false,
    }
}

/// Whether an entry stops the uninstall: a real file, or a symlink that is
/// not ours.
pub open spec fn blocking_entry(e: ShimEntry, exe: Option<Seq<char>>) -> bool {
    e.state != ShimState::Absent && !removable_entry(e, exe)
}

/// The removals planned for the first `n` entries, as `(path, elevated)`.
pub open spec fn removals_of(es: Seq<ShimEntry>, exe: Option<Seq<char>>, n: nat) -> Seq<(Seq<char>, Option<Seq<char>>)>
    decreases n,
{
    if n == 0 || n > es.len() {
        Seq::empty()
    } else {
        let e = es[n - 1];
        let before = removals_of(es, exe, (n - 1) as nat);
        if removable_entry(e, exe) {
            before.push(
                (
                    e.path@,
                    if e.writable {
                        None
                    } else {
                        Some("/bin/rm -f "@ + sh_quoted(e.path@))
                    },
                ),
            )
        } else {
            before
        }
    }
}

/// The last blocking path among the first `n` entries.
pub open spec fn blocked_of(es: Seq<ShimEntry>, exe: Option<Seq<char>>, n: nat) -> Option<Seq<char>>
    decreases n,
{
    if n == 0 || n > es.len() {
        None
    } else if blocking_entry(es[n - 1], exe) {
        Some(es[n - 1].path@)
    } else {
        blocked_of(es, exe, (n - 1) as nat)
    }
}

/// The view of a removal.
pub open spec fn removal_view(r: Removal) -> (Seq<char>, Option<Seq<char>>) {
    (r.path@, opt_view(r.elevated_command))
}

/// Plan the removal of every shim of ours for the running binary `exe`:
/// absent entries are skipped; a real file or a symlink that is not ours is
/// left alone and reported as blocking; the others are removed (elevated
/// when their directory is not writable).
pub fn plan_uninstall(entries: &[ShimEntry], exe: Option<&str>) -> (r: UninstallPlan)
    ensures
        r.removals@.map_values(|x: Removal| removal_view(x)) == removals_of(
            entries@,
            match exe {
                Some(x) => Some(x@),
                None => None,
            },
            entries@.len(),
        ),
        opt_view(r.blocked) == blocked_of(
            entries@,
            match exe {
                Some(x) => Some(x@),
                None => None,
            },
            entries@.len(),
        ),
{
    let ghost xv = match exe {
        Some(x) => Some(x@),
        None => None,
    };
    let mut removals: Vec<Removal> = Vec::new();
    let mut blocked: Option<String> = None;
    let mut i: usize = 0;
    while i < entries.len()
        invariant
            i <= entries.len(),
            xv == (match exe {
                Some(x) => Some(x@),
                None => None,
            }),
            removals@.map_values(|x: Removal| removal_view(x)) == removals_of(entries@, xv, i as nat),
            opt_view(blocked) == blocked_of(entries@, xv, i as nat),
        decreases entries.len() - i,
    {
        let e = &entries[i];
        let ours = match e.state {
            ShimState::LinkedToCurrent | ShimState::LinkedElsewhere => match &e.linked_path {
                Some(l) => is_removable_link(l.as_str(), exe),
                None => false,
            },
            _ => false,
        };
        assert(ours == removable_entry(entries@[i as int], xv));
        if ours {
            let elevated_command = if e.writable {
                None
            } else {
                match uninstall_shell_command(e.path.as_str()) {
                    Ok(c) => Some(c),
                    Err(_) => None,
                }
            };
            let ghost before = removals@.map_values(|x: Removal| removal_view(x));
            removals.push(Removal { path: e.path.clone(), elevated_command });
            proof {
                assert(removals@.map_values(|x: Removal| removal_view(x)) =~= before.push(
                    removal_view(removals@.last()),
                ));
            }
        } else if e.state != ShimState::Absent {
            blocked = Some(e.path.clone());
        }
        i = i + 1;
    }
    UninstallPlan { removals, blocked }
}

/// The failure of an uninstall that met a path that is not ours.
pub fn blocked_error(path: &str) -> (r: AppError)
    ensures
        r == AppError::InvalidInput(r->InvalidInput_0),
        r->InvalidInput_0@ == path@ + " is not a Tunnel Pilot symlink; leaving it untouched"@,
{
    AppError::InvalidInput(path.to_string().concat(" is not a Tunnel Pilot symlink; leaving it untouched"))
}

/// What is found at a candidate's link path.
#[derive(Debug, Clone, PartialEq, Eq)]
pub enum LinkStat {
    /// Nothing there.
    Missing,
    /// A real file or directory.
    NotASymlink,
    /// A symlink; where it resolves (or its raw target when dangling), if
    /// that could be read.
    Symlink(Option<String>),
}

/// Inspect one candidate from what was found at its link path: absent, a
/// non-link (never touched), or a link that points at the running binary
/// or elsewhere.
pub fn inspect_candidate(
    candidate: &Candidate,
    found: LinkStat,
    current_exe: Option<&str>,
    writable: bool,
    dir_exists: bool,
) -> (r: ShimEntry)
    ensures
        r.target == candidate.target,
        r.path@ == join_path(candidate.dir@, SHIM_NAME@),
        r.writable == writable,
        r.dir_exists == dir_exists,
        found == LinkStat::Missing ==> r.state == ShimState::Absent && r.linked_path is None,
        found == LinkStat::NotASymlink ==> r.state == ShimState::NotASymlink && r.linked_path is None,
        found matches LinkStat::Symlink(resolved) ==> r.linked_path == resolved && r.state == (
        if (resolved matches Some(p) && current_exe matches Some(e) && p@ == e@) {
            ShimState::LinkedToCurrent
        } else {
            ShimState::LinkedElsewhere
        }),
{
    let path = candidate.link_path();
    let (state, linked_path) = match found {
        LinkStat::Missing => (ShimState::Absent, None),
        LinkStat::NotASymlink => (ShimState::NotASymlink, None),
        LinkStat::Symlink(resolved) => {
            let matches_current = match (&resolved, current_exe) {
                (Some(p), Some(e)) => str_eq(p.as_str(), e),
                _ => false,
            };
            let state = if matches_current {
                ShimState::LinkedToCurrent
            } else {
                ShimState::LinkedElsewhere
            };
            (state, resolved)
        },
    };
    ShimEntry { target: candidate.target, path, state, linked_path, writable, dir_exists }
}

/// The shim status: unsupported off Unix; otherwise the status of the
/// inspected candidates (see [`status_from`]).
pub fn shim_status(unix: bool, entries: Vec<ShimEntry>, exe: Option<&str>, dev_allowed: bool) -> (r:
    CliShimStatus)
    ensures
        !unix ==> !r.supported && !r.installed && r.install_target is None && r.entries@.len() == 0,
        unix ==> r.supported && r.entries@ == entries@,
{
    if !unix {
        return CliShimStatus::unsupported();
    }
    status_from(entries, exe, dev_allowed)
}

/// Whether the launch-time auto-install goes ahead: only when nothing is
/// installed, this is not a development build, and a location is writable
/// without an admin prompt.
pub fn auto_install_on_startup(status: &CliShimStatus) -> (r: bool)
    ensures
        r == (!status.installed && !status.dev_build && status.install_target is Some
            && !status.needs_elevation),
{
    auto_install_skip_reason(status).is_none()
}

} // verus!
