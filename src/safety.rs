//! Classification of file-system paths as safe, needing confirmation, or blocked.

use vstd::prelude::*;
use crate::system::{canonical_form, home_dir, parent_dir, parent_of, path_separator};
use crate::text::{opt_text, strings_view, concat2, concat3, equals_ignoring_ascii_case, eq_ignoring_ascii_case, starts_with, has_prefix};

verus! {

/// How freely an operation on a path may proceed.
#[derive(Debug, Clone, Copy, PartialEq, Eq, Structural)]
pub enum SafetyLevel {
    /// Allowed without confirmation.
    Safe,
    /// Requires the user's approval.
    NeedsConfirmation,
    /// Never allowed.
    Blocked,
}

pub open spec fn is_separator(c: char) -> bool {
    c == '/' || c == '\\'
}

/// `path` is `root` itself or lies below it, comparing whole components.
pub open spec fn is_under(path: Seq<char>, root: Seq<char>) -> bool {
    &&& has_prefix(path, root)
    &&& {
        ||| path.len() == root.len()
        ||| is_separator(path[root.len() as int])
        ||| (root.len() > 0 && is_separator(root.last()))
    }
}

/// Index just past the last separator among the first `end` characters, or 0.
pub open spec fn name_start(s: Seq<char>, end: int) -> int
    decreases end,
{
    if end <= 0 {
        0
    } else if is_separator(s[end - 1]) {
        end
    } else {
        name_start(s, end - 1)
    }
}

/// Index of the last '.' in `s[from..end]`, or -1 when there is none.
pub open spec fn last_dot(s: Seq<char>, from: int, end: int) -> int
    decreases end - from,
{
    if end <= from {
        -1
    } else if s[end - 1] == '.' {
        end - 1
    } else {
        last_dot(s, from, end - 1)
    }
}

/// The extension of a path's final component: what follows its last '.',
/// where that dot is not the component's first character.
pub open spec fn extension_of(path: Seq<char>) -> Option<Seq<char>> {
    let start = name_start(path, path.len() as int);
    let dot = last_dot(path, start, path.len() as int);
    if dot > start {
        Some(path.subrange(dot + 1, path.len() as int))
    } else {
        None
    }
}

/// `path` without the verbatim prefix `\\?\` that Windows puts before the
/// canonical form of a local path.
pub open spec fn plain_form(path: Seq<char>) -> Seq<char> {
    if has_prefix(path, "\\\\?\\"@) {
        path.subrange("\\\\?\\"@.len() as int, path.len() as int)
    } else {
        path
    }
}

/// The protected roots on Windows.
pub open spec fn windows_protected_roots() -> Seq<Seq<char>> {
    seq!["C:\\Windows"@, "C:\\Program Files"@, "C:\\Program Files (x86)"@, "C:\\ProgramData"@]
}

/// The protected roots on other systems.
pub open spec fn unix_protected_roots() -> Seq<Seq<char>> {
    seq![
        "/bin"@, "/sbin"@, "/usr/bin"@, "/usr/sbin"@, "/etc"@,
        "/boot"@, "/sys"@, "/proc"@, "/lib"@, "/lib64"@,
    ]
}

/// The user directories, below the home directory, that are allowed by default.
pub open spec fn user_dir_names() -> Seq<Seq<char>> {
    seq!["Documents"@, "Desktop"@, "Downloads"@, "Pictures"@, "Videos"@, "Music"@]
}

/// `name` joined below `base` with the separator `sep`.
pub open spec fn joined(base: Seq<char>, name: Seq<char>, sep: char) -> Seq<char> {
    if base.len() > 0 && is_separator(base.last()) {
        base + name
    } else {
        base + seq![sep] + name
    }
}

/// Decides which operations on paths may proceed freely.
pub struct SafetyValidator {
    protected_paths: Vec<String>,
    allowed_paths: Vec<String>,
    system_extensions: Vec<String>,
}

impl SafetyValidator {
    pub closed spec fn protected_roots(&self) -> Seq<Seq<char>> {
        strings_view(self.protected_paths@)
    }

    pub closed spec fn allowed_roots(&self) -> Seq<Seq<char>> {
        strings_view(self.allowed_paths@)
    }

    pub closed spec fn extensions(&self) -> Seq<Seq<char>> {
        strings_view(self.system_extensions@)
    }

    pub open spec fn protects(&self, path: Seq<char>) -> bool {
        exists|i: int| 0 <= i < self.protected_roots().len() && is_under(path, #[trigger] self.protected_roots()[i])
    }

    pub open spec fn allows(&self, path: Seq<char>) -> bool {
        exists|i: int| 0 <= i < self.allowed_roots().len() && is_under(path, #[trigger] self.allowed_roots()[i])
    }

    /// The file's extension is one of the system extensions, ignoring ASCII case.
    pub open spec fn is_system_name(&self, file: Seq<char>) -> bool {
        &&& extension_of(file) is Some
        &&& exists|i: int| 0 <= i < self.extensions().len()
            && eq_ignoring_ascii_case(extension_of(file)->0, #[trigger] self.extensions()[i])
    }

    /// The level of a file whose resolved location is `location`: blocked in a
    /// protected tree, safe in an allowed tree unless it bears a system
    /// extension, and needing confirmation anywhere else.
    pub open spec fn level_of(&self, location: Seq<char>, file: Seq<char>) -> SafetyLevel {
        if self.protects(location) {
            SafetyLevel::Blocked
        } else if self.allows(location) {
            if self.is_system_name(file) {
                SafetyLevel::NeedsConfirmation
            } else {
                SafetyLevel::Safe
            }
        } else {
            SafetyLevel::NeedsConfirmation
        }
    }

    /// The level of `path` given how it resolved on disk: `own` is the
    /// canonical form of the path itself, `parent` that of its parent. An
    /// existing path is judged by its own canonical form; a path that does
    /// not exist, by its parent's canonical form and its own extension; a path
    /// that resolves neither way is blocked.
    pub open spec fn resolved_level(&self, path: Seq<char>, own: Option<Seq<char>>, parent: Option<Seq<char>>) -> SafetyLevel {
        match own {
            Some(c) => self.level_of(plain_form(c), plain_form(c)),
            None => match parent {
                Some(c) => if parent_of(path) is Some {
                    self.level_of(plain_form(c), path)
                } else {
                    SafetyLevel::Blocked
                },
                None => SafetyLevel::Blocked,
            },
        }
    }

    /// A level that `check_path` may give `path`: its resolved level for some
    /// outcome of resolving it and its parent on disk.
    pub open spec fn possible_level(&self, path: Seq<char>, level: SafetyLevel) -> bool {
        exists|own: Option<Seq<char>>, parent: Option<Seq<char>>| level == #[trigger] self.resolved_level(path, own, parent)
    }

    /// The roots of a platform whose path separator is `separator`, for a
    /// user whose home directory is `home`.
    pub open spec fn has_platform_roots(&self, home: Seq<char>, separator: char) -> bool {
        &&& separator == '/' || separator == '\\'
        &&& self.protected_roots() == (if separator == '\\' {
            windows_protected_roots()
        } else {
            unix_protected_roots()
        })
        &&& self.allowed_roots().len() == user_dir_names().len()
        &&& forall|i: int| 0 <= i < user_dir_names().len() ==> #[trigger] self.allowed_roots()[i] == joined(
            home,
            user_dir_names()[i],
            separator,
        )
    }

    /// A validator with the platform's protected roots, the current user's
    /// document directories as allowed roots, and the system extensions
    /// `sys`, `dll` and `exe`.
    pub fn new() -> (r: Self)
        ensures
            exists|home: Seq<char>, separator: char| r.has_platform_roots(home, separator),
            r.extensions() == seq!["sys"@, "dll"@, "exe"@],
    {
        let sep = path_separator();
        let protected_paths = Self::get_protected_paths(sep);
        let home = match home_dir() {
            Some(h) => h,
            None => String::from_str("."),
        };
        let allowed_paths = Self::get_allowed_paths(home.as_str(), sep);
        let ghost home_text = home@;
        let mut system_extensions: Vec<String> = Vec::new();
        system_extensions.push(String::from_str("sys"));
        system_extensions.push(String::from_str("dll"));
        system_extensions.push(String::from_str("exe"));
        assert(strings_view(system_extensions@) =~= seq!["sys"@, "dll"@, "exe"@]);
        let r = SafetyValidator { protected_paths, allowed_paths, system_extensions };
        assert(r.has_platform_roots(home_text, sep));
        r
    }

    /// A validator over the given roots, with the system extensions `sys`,
    /// `dll` and `exe`.
    pub fn with_roots(protected_paths: Vec<String>, allowed_paths: Vec<String>) -> (r: Self)
        ensures
            r.protected_roots() == strings_view(protected_paths@),
            r.allowed_roots() == strings_view(allowed_paths@),
            r.extensions() == seq!["sys"@, "dll"@, "exe"@],
    {
        let mut system_extensions: Vec<String> = Vec::new();
        system_extensions.push(String::from_str("sys"));
        system_extensions.push(String::from_str("dll"));
        system_extensions.push(String::from_str("exe"));
        assert(strings_view(system_extensions@) =~= seq!["sys"@, "dll"@, "exe"@]);
        SafetyValidator { protected_paths, allowed_paths, system_extensions }
    }

    /// The protected roots of the platform whose path separator is `separator`.
    pub fn get_protected_paths(separator: char) -> (r: Vec<String>)
        ensures
            strings_view(r@) == (if separator == '\\' {
                windows_protected_roots()
            } else {
                unix_protected_roots()
            }),
    {
        let mut v: Vec<String> = Vec::new();
        if separator == '\\' {
            v.push(String::from_str("C:\\Windows"));
            v.push(String::from_str("C:\\Program Files"));
            v.push(String::from_str("C:\\Program Files (x86)"));
            v.push(String::from_str("C:\\ProgramData"));
            assert(strings_view(v@) =~= windows_protected_roots());
        } else {
            v.push(String::from_str("/bin"));
            v.push(String::from_str("/sbin"));
            v.push(String::from_str("/usr/bin"));
            v.push(String::from_str("/usr/sbin"));
            v.push(String::from_str("/etc"));
            v.push(String::from_str("/boot"));
            v.push(String::from_str("/sys"));
            v.push(String::from_str("/proc"));
            v.push(String::from_str("/lib"));
            v.push(String::from_str("/lib64"));
            assert(strings_view(v@) =~= unix_protected_roots());
        }
        v
    }

    /// The user's document directories below `home`.
    pub fn get_allowed_paths(home: &str, separator: char) -> (r: Vec<String>)
        requires
            separator == '/' || separator == '\\',
        ensures
            r@.len() == user_dir_names().len(),
            forall|i: int| 0 <= i < r@.len() ==> #[trigger] r@[i]@ == joined(home@, user_dir_names()[i], separator),
    {
        let mut v: Vec<String> = Vec::new();
        v.push(join_path(home, "Documents", separator));
        v.push(join_path(home, "Desktop", separator));
        v.push(join_path(home, "Downloads", separator));
        v.push(join_path(home, "Pictures", separator));
        v.push(join_path(home, "Videos", separator));
        v.push(join_path(home, "Music", separator));
        v
    }

    /// Classifies the file `file` whose resolved location is `location`.
    pub fn level_for(&self, location: &str, file: &str) -> (r: SafetyLevel)
        ensures
            r == self.level_of(location@, file@),
    {
        if self.is_protected(location) {
            SafetyLevel::Blocked
        } else if self.is_allowed(location) {
            if self.is_system_file(file) {
                SafetyLevel::NeedsConfirmation
            } else {
                SafetyLevel::Safe
            }
        } else {
            SafetyLevel::NeedsConfirmation
        }
    }

    /// Classifies a path by how it and its parent resolve on disk; see
    /// `resolved_level`.
    pub fn check_path(&self, path: &str) -> (r: SafetyLevel)
        ensures
            self.possible_level(path@, r),
    {
        let own = canonical_form(path);
        let parent = match &own {
            Some(_) => None,
            None => match parent_dir(path) {
                Some(p) => canonical_form(p.as_str()),
                None => None,
            },
        };
        let ghost own_text = opt_text(own);
        let ghost parent_text = opt_text(parent);
        let r = self.level_after_resolution(path, own, parent);
        assert(r == self.resolved_level(path@, own_text, parent_text));
        r
    }

    /// The level of `path`, where `own` is what the path itself resolved to
    /// and `parent` what its parent resolved to, `None` where resolution failed.
    pub fn level_after_resolution(&self, path: &str, own: Option<String>, parent: Option<String>) -> (r: SafetyLevel)
        ensures
            r == self.resolved_level(path@, opt_text(own), opt_text(parent)),
    {
        match own {
            Some(c) => {
                let c = plain_path(c.as_str());
                self.level_for(c.as_str(), c.as_str())
            },
            None => match parent {
                Some(c) => {
                    if has_parent(path) {
                        let c = plain_path(c.as_str());
                        self.level_for(c.as_str(), path)
                    } else {
                        SafetyLevel::Blocked
                    }
                },
                None => SafetyLevel::Blocked,
            },
        }
    }

    /// Whether the path is blocked: the result of one `check_path`.
    pub fn is_system_critical(&self, path: &str) -> (r: bool)
        ensures
            exists|level: SafetyLevel| self.possible_level(path@, level) && r == (level == SafetyLevel::Blocked),
    {
        let level = self.check_path(path);
        level == SafetyLevel::Blocked
    }

    fn is_protected(&self, path: &str) -> (r: bool)
        ensures
            r == self.protects(path@),
    {
        path_under_any(path, &self.protected_paths)
    }

    fn is_allowed(&self, path: &str) -> (r: bool)
        ensures
            r == self.allows(path@),
    {
        path_under_any(path, &self.allowed_paths)
    }

    fn is_system_file(&self, path: &str) -> (r: bool)
        ensures
            r == self.is_system_name(path@),
    {
        match extension(path) {
            None => false,
            Some(ext) => {
                let mut i: usize = 0;
                while i < self.system_extensions.len()
                    invariant
                        i <= self.system_extensions@.len(),
                        extension_of(path@) == Some(ext@),
                        forall|j: int| 0 <= j < i ==> !eq_ignoring_ascii_case(ext@, #[trigger] self.extensions()[j]),
                    decreases self.system_extensions@.len() - i,
                {
                    if equals_ignoring_ascii_case(ext.as_str(), self.system_extensions[i].as_str()) {
                        assert(eq_ignoring_ascii_case(ext@, self.extensions()[i as int]));
                        return true;
                    }
                    i = i + 1;
                }
                false
            },
        }
    }
}

/// `name` joined below `base`.
fn join_path(base: &str, name: &str, separator: char) -> (r: String)
    requires
        separator == '/' || separator == '\\',
    ensures
        r@ == joined(base@, name@, separator),
{
    let n = base.unicode_len();
    if n > 0 && is_separator_char(base.get_char(n - 1)) {
        concat2(base, name)
    } else if separator == '/' {
        proof {
            reveal_strlit("/");
        }
        concat3(base, "/", name)
    } else {
        proof {
            reveal_strlit("\\");
        }
        concat3(base, "\\", name)
    }
}

/// The path without a leading verbatim prefix `\\?\`.
pub fn plain_path(path: &str) -> (r: String)
    ensures
        r@ == plain_form(path@),
{
    if starts_with(path, "\\\\?\\") {
        let n = path.unicode_len();
        let k = "\\\\?\\".unicode_len();
        String::from_str(path.substring_char(k, n))
    } else {
        String::from_str(path)
    }
}

/// Whether the path has a parent.
fn has_parent(path: &str) -> (r: bool)
    ensures
        r == parent_of(path@) is Some,
{
    match parent_dir(path) {
        Some(_) => true,
        None => false,
    }
}

fn is_separator_char(c: char) -> (r: bool)
    ensures
        r == is_separator(c),
{
    c == '/' || c == '\\'
}

/// Whether `path` lies under `root`.
pub fn path_is_under(path: &str, root: &str) -> (r: bool)
    ensures
        r == is_under(path@, root@),
{
    if !starts_with(path, root) {
        return false;
    }
    let n = path.unicode_len();
    let k = root.unicode_len();
    if n == k {
        true
    } else if is_separator_char(path.get_char(k)) {
        true
    } else {
        k > 0 && is_separator_char(root.get_char(k - 1))
    }
}

fn path_under_any(path: &str, roots: &Vec<String>) -> (r: bool)
    ensures
        r == exists|i: int| 0 <= i < roots@.len() && is_under(path@, #[trigger] strings_view(roots@)[i]),
{
    let mut i: usize = 0;
    while i < roots.len()
        invariant
            i <= roots@.len(),
            forall|j: int| 0 <= j < i ==> !is_under(path@, #[trigger] strings_view(roots@)[j]),
        decreases roots@.len() - i,
    {
        if path_is_under(path, roots[i].as_str()) {
            assert(is_under(path@, strings_view(roots@)[i as int]));
            return true;
        }
        i = i + 1;
    }
    false
}

/// The extension of the path's final component, if it has one.
pub fn extension(path: &str) -> (r: Option<String>)
    ensures
        r is Some <==> extension_of(path@) is Some,
        r is Some ==> r->0@ == extension_of(path@)->0,
{
    let n = path.unicode_len();
    let mut start: usize = n;
    while start > 0 && !is_separator_char(path.get_char(start - 1))
        invariant
            n == path@.len(),
            start <= n,
            name_start(path@, n as int) == name_start(path@, start as int),
        decreases start,
    {
        start = start - 1;
    }
    assert(name_start(path@, start as int) == start);
    let mut dot: usize = n;
    while dot > start && path.get_char(dot - 1) != '.'
        invariant
            n == path@.len(),
            start <= dot <= n,
            last_dot(path@, start as int, n as int) == last_dot(path@, start as int, dot as int),
        decreases dot,
    {
        dot = dot - 1;
    }
    if dot - start > 1 {
        assert(last_dot(path@, start as int, n as int) == dot - 1);
        Some(String::from_str(path.substring_char(dot, n)))
    } else {
        assert(last_dot(path@, start as int, n as int) == dot - 1 || last_dot(path@, start as int, n as int) == -1);
        None
    }
}

/// A path under a protected root is blocked, even where it also lies under
/// an allowed root: the protected check comes first.
pub proof fn lemma_protected_always_blocked(v: SafetyValidator, location: Seq<char>, file: Seq<char>, i: int)
    requires
        0 <= i < v.protected_roots().len(),
        is_under(location, v.protected_roots()[i]),
    ensures
        v.level_of(location, file) == SafetyLevel::Blocked,
{
}

/// A file that does not exist yet, whose parent resolves to a location under
/// an allowed root and under no protected root, is never blocked: it is safe,
/// or needs confirmation when it bears a system extension.
pub proof fn lemma_new_file_in_allowed_dir(v: SafetyValidator, parent: Seq<char>, file: Seq<char>, i: int)
    requires
        0 <= i < v.allowed_roots().len(),
        is_under(parent, v.allowed_roots()[i]),
        !v.protects(parent),
    ensures
        v.level_of(parent, file) != SafetyLevel::Blocked,
        v.level_of(parent, file) == (if v.is_system_name(file) {
            SafetyLevel::NeedsConfirmation
        } else {
            SafetyLevel::Safe
        }),
{
}

} // verus!
