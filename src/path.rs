use vstd::prelude::*;
use vstd::string::*;

use crate::error::Error;
use crate::text::{chars_of, push_char, same_text, string_of};

verus! {

/// The character that stands for text that was not valid UTF-8.
pub const REPLACEMENT: char = '\u{FFFD}';

/// Where a project goes: the current directory, or a directory path.
pub enum ProjectDir {
    CurrentDir,
    Dir(String),
}

/// What a `ProjectDir` holds.
pub enum DirModel {
    CurrentDir,
    Dir(Seq<char>),
}

impl View for ProjectDir {
    type V = DirModel;

    open spec fn view(&self) -> DirModel {
        match self {
            ProjectDir::CurrentDir => DirModel::CurrentDir,
            ProjectDir::Dir(p) => DirModel::Dir(p@),
        }
    }
}

/// The model of an outcome of path resolution.
pub open spec fn dir_outcome(r: Result<ProjectDir, Error>) -> Result<DirModel, Error> {
    match r {
        Ok(d) => Ok(d@),
        Err(e) => Err(e),
    }
}

/// A path that starts with the home directory shorthand: `~` alone, or `~/`
/// and more.
pub open spec fn starts_with_home(raw: Seq<char>) -> bool {
    raw.len() > 0 && raw[0] == '~' && (raw.len() == 1 || raw[1] == '/')
}

/// Where `raw` leads: a file is refused; `.` is the current directory; a
/// path with text that was not valid UTF-8 is refused; the home shorthand is
/// replaced by `home`, which must be known; any other path is kept.
pub open spec fn resolved(raw: Seq<char>, is_file: bool, home: Option<Seq<char>>) -> Result<DirModel, Error> {
    if is_file {
        Err(Error::NoDirectory)
    } else if raw == "."@ {
        Ok(DirModel::CurrentDir)
    } else if raw.contains(REPLACEMENT) {
        Err(Error::Utf8Check)
    } else if starts_with_home(raw) {
        match home {
            Some(h) => Ok(DirModel::Dir(h + raw.skip(1))),
            None => Err(Error::HomeDir),
        }
    } else {
        Ok(DirModel::Dir(raw))
    }
}

/// Where `raw` leads, with `home` as the home directory. `is_file` says
/// whether `raw` names an existing regular file.
pub fn resolve_path(raw: &str, is_file: bool, home: Option<String>) -> (r: Result<ProjectDir, Error>)
    ensures
        dir_outcome(r) == resolved(raw@, is_file, crate::licensing::opt_view(home)),
{
    proof {
        reveal_strlit(".");
    }
    if is_file {
        return Err(Error::NoDirectory);
    }
    if same_text(raw, ".") {
        return Ok(ProjectDir::CurrentDir);
    }
    let cs = chars_of(raw);
    let mut i: usize = 0;
    while i < cs.len()
        invariant
            i <= cs.len(),
            cs@ == raw@,
            !is_file,
            raw@ != "."@,
            forall|j: int| 0 <= j < i ==> cs@[j] != REPLACEMENT,
        decreases cs.len() - i,
    {
        if cs[i] == REPLACEMENT {
            proof {
                assert(raw@[i as int] == REPLACEMENT);
            }
            return Err(Error::Utf8Check);
        }
        i = i + 1;
    }
    if cs.len() > 0 && cs[0] == '~' && (cs.len() == 1 || cs[1] == '/') {
        match home {
            Some(h) => {
                let mut p = h;
                let mut k: usize = 1;
                while k < cs.len()
                    invariant
                        1 <= k <= cs.len(),
                        cs@ == raw@,
                        p@ == home->0@ + raw@.subrange(1, k as int),
                    decreases cs.len() - k,
                {
                    push_char(&mut p, cs[k]);
                    k = k + 1;
                    proof {
                        assert(p@ =~= home->0@ + raw@.subrange(1, k as int));
                    }
                }
                proof {
                    assert(raw@.subrange(1, cs.len() as int) =~= raw@.skip(1));
                }
                Ok(ProjectDir::Dir(p))
            },
            None => Err(Error::HomeDir),
        }
    } else {
        Ok(ProjectDir::Dir(String::from_str(raw)))
    }
}

/// Relies on `home::home_dir`: the current user's home directory, where it
/// can be found, read as text with invalid UTF-8 replaced. It depends on the
/// environment, so nothing is stated of it.
#[verifier::external_body]
fn home_directory() -> (r: Option<String>) {
    home::home_dir().map(|p| p.to_string_lossy().into_owned())
}

/// Where the project path `raw` leads; the home directory is looked up only
/// where `raw` starts with the shorthand. `is_file` says whether `raw` names
/// an existing regular file. The caller makes the directory.
pub fn path_validation(raw: &str, is_file: bool) -> (r: Result<ProjectDir, Error>)
    ensures
        !starts_with_home(raw@) ==> dir_outcome(r) == resolved(raw@, is_file, None),
        exists|home: Option<Seq<char>>| dir_outcome(r) == resolved(raw@, is_file, home),
{
    let cs = chars_of(raw);
    if cs.len() > 0 && cs[0] == '~' && (cs.len() == 1 || cs[1] == '/') {
        let home = home_directory();
        let ghost h = crate::licensing::opt_view(home);
        let r = resolve_path(raw, is_file, home);
        proof {
            assert(dir_outcome(r) == resolved(raw@, is_file, h));
        }
        r
    } else {
        resolve_path(raw, is_file, None)
    }
}

/// A home directory that resolution leaves as it is: an absolute path of
/// valid text.
pub open spec fn settled(p: Seq<char>) -> bool {
    p.len() > 0 && p[0] == '/' && !p.contains(REPLACEMENT)
}

/// Resolving an already resolved directory gives that same directory, and
/// an absolute current directory of valid text resolves to itself, where the
/// home directory, if known, is itself absolute and valid text.
pub proof fn lemma_resolution_idempotent(raw: Seq<char>, home: Option<Seq<char>>, current: Seq<char>)
    requires
        home matches Some(h) ==> settled(h),
        settled(current),
    ensures
        resolved(raw, false, home) matches Ok(DirModel::Dir(p)) ==> resolved(p, false, home) == Ok::<
            DirModel,
            Error,
        >(DirModel::Dir(p)),
        resolved(current, false, home) == Ok::<DirModel, Error>(DirModel::Dir(current)),
{
    reveal_strlit(".");
    assert(current != "."@) by {
        if current == "."@ {
            assert(current[0] == '.');
        }
    }
    if let Ok(DirModel::Dir(p)) = resolved(raw, false, home) {
        if starts_with_home(raw) {
            let h = home->0;
            assert(p == h + raw.skip(1));
            assert(p[0] == '/');
            assert(!p.contains(REPLACEMENT)) by {
                if p.contains(REPLACEMENT) {
                    let i = choose|i: int| 0 <= i < p.len() && p[i] == REPLACEMENT;
                    if i < h.len() {
                        assert(h[i] == REPLACEMENT);
                    } else {
                        assert(raw[i - h.len() + 1] == REPLACEMENT);
                    }
                }
            }
            assert(p != "."@) by {
                if p == "."@ {
                    assert(p[0] == '.');
                }
            }
        }
    }
}

/// The path without its trailing separators.
pub open spec fn trim_slashes(p: Seq<char>) -> Seq<char>
    decreases p.len(),
{
    if p.len() > 0 && p.last() == '/' {
        trim_slashes(p.drop_last())
    } else {
        p
    }
}

/// What follows the last separator of a path.
pub open spec fn after_slash(p: Seq<char>) -> Seq<char>
    decreases p.len(),
{
    if p.len() == 0 {
        p
    } else if p.last() == '/' {
        seq![]
    } else {
        after_slash(p.drop_last()).push(p.last())
    }
}

/// The last component of a path, trailing separators ignored.
pub open spec fn last_component(p: Seq<char>) -> Seq<char> {
    after_slash(trim_slashes(p))
}

/// The last component of `path`, trailing separators ignored.
pub fn final_component(path: &str) -> (r: String)
    ensures
        r@ == last_component(path@),
{
    let cs = chars_of(path);
    let mut end: usize = cs.len();
    proof {
        assert(path@.take(end as int) =~= path@);
    }
    while end > 0 && cs[end - 1] == '/'
        invariant
            end <= cs.len(),
            cs@ == path@,
            trim_slashes(path@) == trim_slashes(path@.take(end as int)),
        decreases end,
    {
        proof {
            assert(path@.take(end as int).drop_last() =~= path@.take(end - 1));
        }
        end = end - 1;
    }
    proof {
        assert(trim_slashes(path@.take(end as int)) == path@.take(end as int));
    }
    let mut start: usize = end;
    while start > 0 && cs[start - 1] != '/'
        invariant
            start <= end <= cs.len(),
            cs@ == path@,
            last_component(path@) == after_slash(path@.take(start as int)) + path@.subrange(
                start as int,
                end as int,
            ),
        decreases start,
    {
        proof {
            let t = path@.take(start as int);
            assert(t.drop_last() =~= path@.take(start - 1));
            assert(t.last() == cs@[start - 1]);
            assert(after_slash(t) + path@.subrange(start as int, end as int) =~= after_slash(
                path@.take(start - 1),
            ) + path@.subrange(start - 1, end as int));
        }
        start = start - 1;
    }
    proof {
        if start > 0 {
            assert(path@.take(start as int).last() == '/');
        }
        assert(after_slash(path@.take(start as int)) =~= seq![]);
    }
    let mut part: Vec<char> = Vec::new();
    let mut k: usize = start;
    while k < end
        invariant
            start <= k <= end <= cs.len(),
            cs@ == path@,
            part@ == path@.subrange(start as int, k as int),
        decreases end - k,
    {
        part.push(cs[k]);
        k = k + 1;
        proof {
            assert(part@ =~= path@.subrange(start as int, k as int));
        }
    }
    proof {
        assert(last_component(path@) =~= part@);
    }
    string_of(&part)
}

/// A name made of ASCII characters.
pub open spec fn ascii_name(n: Seq<char>) -> bool {
    forall|i: int| 0 <= i < n.len() ==> (n[i] as u32) < 128
}

/// The name of a project: the given name where there is one, else the last
/// component of its directory.
pub open spec fn named(name: Seq<char>, path: Seq<char>) -> Result<Seq<char>, Error> {
    if name.len() > 0 {
        if ascii_name(name) {
            Ok(name)
        } else {
            Err(Error::InvalidName)
        }
    } else {
        let c = last_component(path);
        if c.contains(REPLACEMENT) {
            Err(Error::Utf8Check)
        } else if c.len() == 0 || c == "."@ || c == ".."@ || !ascii_name(c) {
            Err(Error::InvalidName)
        } else {
            Ok(c)
        }
    }
}

/// The model of an outcome of name resolution.
pub open spec fn name_outcome(r: Result<String, Error>) -> Result<Seq<char>, Error> {
    match r {
        Ok(s) => Ok(s@),
        Err(e) => Err(e),
    }
}

/// Whether every character of `s` is ASCII.
fn all_ascii(s: &str) -> (r: bool)
    ensures
        r == ascii_name(s@),
{
    let cs = chars_of(s);
    let mut i: usize = 0;
    while i < cs.len()
        invariant
            i <= cs.len(),
            cs@ == s@,
            forall|j: int| 0 <= j < i ==> (cs@[j] as u32) < 128,
        decreases cs.len() - i,
    {
        if (cs[i] as u32) >= 128 {
            return false;
        }
        i = i + 1;
    }
    true
}

/// The name of a project: `name` where it is not empty (it must be ASCII),
/// else the last component of the resolved project path `path`.
pub fn resolve_name(name: &str, path: &str) -> (r: Result<String, Error>)
    ensures
        name_outcome(r) == named(name@, path@),
{
    if !name.is_empty() {
        if all_ascii(name) {
            return Ok(String::from_str(name));
        } else {
            return Err(Error::InvalidName);
        }
    }
    let c = final_component(path);
    if crate::text::has_char(c.as_str(), REPLACEMENT) {
        return Err(Error::Utf8Check);
    }
    if c.as_str().is_empty() || same_text(c.as_str(), ".") || same_text(c.as_str(), "..") || !all_ascii(
        c.as_str(),
    ) {
        return Err(Error::InvalidName);
    }
    Ok(c)
}

/// A non-empty ASCII name is kept whatever the path; without a name, the
/// last component of the path is the name where it is valid ASCII text.
pub proof fn lemma_name_derivation(name: Seq<char>, path: Seq<char>)
    ensures
        name.len() > 0 && ascii_name(name) ==> named(name, path) == Ok::<Seq<char>, Error>(name),
        name.len() == 0 && last_component(path).len() > 0 && last_component(path) != "."@
            && last_component(path) != ".."@ && ascii_name(last_component(path)) ==> named(name, path)
            == Ok::<Seq<char>, Error>(last_component(path)),
{
    if name.len() == 0 && ascii_name(last_component(path)) {
        let c = last_component(path);
        assert(!c.contains(REPLACEMENT)) by {
            if c.contains(REPLACEMENT) {
                let i = choose|i: int| 0 <= i < c.len() && c[i] == REPLACEMENT;
                assert((c[i] as u32) < 128);
            }
        }
    }
}

} // verus!
