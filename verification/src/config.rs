//! Where the server keeps its data: the base directory, the `var` directory
//! for databases and assets, and the `projects` directory for schemas.
//! Paths are strings with `/` as separator.

use vstd::prelude::*;
use vstd::string::StringExecFns;
use crate::text::{chars_of, string_of, sub_chars};

verus! {

/// `p` appended to `base` as `PathBuf::join` appends on Unix: an absolute
/// `p` replaces `base`, an empty `base` gives `p`, and otherwise a `/`
/// separates them unless `base` already ends with one.
pub open spec fn path_join(base: Seq<char>, p: Seq<char>) -> Seq<char> {
    if p.len() > 0 && p[0] == '/' {
        p
    } else if base.len() == 0 {
        p
    } else if base.last() == '/' {
        base + p
    } else {
        base + "/"@ + p
    }
}

/// Joins a path component to a base path.
pub fn join_path(base: &str, p: &str) -> (r: String)
    ensures
        r@ == path_join(base@, p@),
{
    proof {
        reveal_strlit("/");
    }
    if p.unicode_len() > 0 && p.get_char(0) == '/' {
        return p.to_owned();
    }
    let n = base.unicode_len();
    if n == 0 {
        return p.to_owned();
    }
    let mut r = base.to_owned();
    if base.get_char(n - 1) != '/' {
        r.append("/");
    }
    r.append(p);
    r
}

/// A path without the trailing separators and trailing `.` components that
/// do not change which file it names (`a/`, `a/.` and `a/./` name `a`); a
/// lone `/` stays.
pub open spec fn trim_path_end(q: Seq<char>) -> Seq<char>
    decreases q.len(),
{
    if q.len() > 1 && q.last() == '/' {
        trim_path_end(q.drop_last())
    } else if q.len() >= 2 && q.last() == '.' && q[q.len() - 2] == '/' {
        trim_path_end(q.drop_last())
    } else {
        q
    }
}

/// The position where the last component of the first `n` characters
/// starts: just after the last `/`, or zero.
pub open spec fn component_start(q: Seq<char>, n: int) -> int
    decreases n,
{
    if n <= 0 || n > q.len() {
        0
    } else if q[n - 1] == '/' {
        n
    } else {
        component_start(q, n - 1)
    }
}

/// The file name of a path, as `Path::file_name` finds it: the last
/// component once trailing separators and `.` components are set aside.
pub open spec fn file_name_of(p: Seq<char>) -> Seq<char> {
    let q = trim_path_end(p);
    q.subrange(component_start(q, q.len() as int), q.len() as int)
}

/// `ext` added to a path as `PathBuf::add_extension` adds it: a path with
/// no file name (empty, `/`, or ending in `.` or `..`) and an empty `ext`
/// leave it as it is; otherwise the path is cut just after its file name
/// and `.ext` appended.
pub open spec fn path_add_extension(p: Seq<char>, ext: Seq<char>) -> Seq<char> {
    let c = file_name_of(p);
    if ext.len() == 0 || c.len() == 0 || c == "."@ || c == ".."@ {
        p
    } else {
        trim_path_end(p) + "."@ + ext
    }
}

proof fn lemma_component_start(q: Seq<char>, n: int)
    requires
        0 <= n <= q.len(),
    ensures
        0 <= component_start(q, n) <= n,
    decreases n,
{
    if n > 0 && q[n - 1] != '/' {
        lemma_component_start(q, n - 1);
    }
}

/// Adds an extension to a path, as `PathBuf::add_extension` does.
pub fn add_extension(path: String, ext: &str) -> (r: String)
    ensures
        r@ == path_add_extension(path@, ext@),
{
    proof {
        reveal_strlit(".");
        reveal_strlit("..");
    }
    if ext.unicode_len() == 0 {
        return path;
    }
    let v = chars_of(path.as_str());
    let mut n: usize = v.len();
    assert(v@.take(n as int) =~= v@);
    while (n > 1 && v[n - 1] == '/') || (n >= 2 && v[n - 1] == '.' && v[n - 2] == '/')
        invariant
            n <= v@.len(),
            trim_path_end(v@) == trim_path_end(v@.take(n as int)),
        decreases n,
    {
        assert(v@.take(n as int).drop_last() =~= v@.take(n - 1));
        n = n - 1;
    }
    let ghost q = v@.take(n as int);
    assert(trim_path_end(q) == q);
    let mut k: usize = n;
    while k > 0 && v[k - 1] != '/'
        invariant
            k <= n <= v@.len(),
            q == v@.take(n as int),
            component_start(q, n as int) == component_start(q, k as int),
        decreases k,
    {
        k = k - 1;
    }
    proof {
        lemma_component_start(q, n as int);
    }
    let c = sub_chars(&v, k, n);
    assert(c@ =~= file_name_of(path@));
    let c_len = c.len();
    if c_len == 0 || (c_len == 1 && c[0] == '.') || (c_len == 2 && c[0] == '.' && c[1] == '.') {
        proof {
            if c_len == 1 {
                assert(c@ =~= "."@);
            }
            if c_len == 2 {
                assert(c@ =~= ".."@);
            }
        }
        return path;
    }
    proof {
        assert(c@ != "."@) by {
            if c@ == "."@ {
                assert(c@.len() == 1);
                assert(c@[0] == '.');
            }
        }
        assert(c@ != ".."@) by {
            if c@ == ".."@ {
                assert(c@.len() == 2);
                assert(c@[0] == '.' && c@[1] == '.');
            }
        }
    }
    let mut r = string_of(sub_chars(&v, 0, n).as_slice());
    r.append(".");
    r.append(ext);
    r
}

/// The directories of the server.
#[derive(Debug, Clone)]
pub struct Config {
    pub base: String,
    pub var: String,
    pub projects: String,
}

impl Config {
    /// The directories under the base directory `base`: `base/var` and
    /// `base/projects`.
    pub fn new(base: String) -> (r: Config)
        ensures
            r.base@ == base@,
            r.var@ == path_join(base@, "var"@),
            r.projects@ == path_join(base@, "projects"@),
    {
        let var = join_path(base.as_str(), "var");
        let projects = join_path(base.as_str(), "projects");
        Config { var, projects, base }
    }
}

/// The database file of dataset `name`: `var/name.db`.
pub fn db_path(var: &str, name: &str) -> (r: String)
    ensures
        r@ == path_add_extension(path_join(var@, name@), "db"@),
{
    add_extension(join_path(var, name), "db")
}

/// The asset directory of dataset `name`: `var/assets/name`.
pub fn assets_dir(var: &str, name: &str) -> (r: String)
    ensures
        r@ == path_join(path_join(var@, "assets"@), name@),
{
    let a = join_path(var, "assets");
    join_path(a.as_str(), name)
}

/// The schema file of dataset `name` under the projects directory:
/// `projects/name/name.kdl`.
pub fn schema_path(projects: &str, name: &str) -> (r: String)
    ensures
        r@ == path_add_extension(path_join(path_join(projects@, name@), name@), "kdl"@),
{
    let d = join_path(projects, name);
    add_extension(join_path(d.as_str(), name), "kdl")
}

/// A plain name: not empty, no separator, and neither `.` nor `..`.
pub open spec fn plain_name(name: Seq<char>) -> bool {
    &&& name.len() > 0
    &&& forall|i: int| 0 <= i < name.len() ==> name[i] != '/'
    &&& name != "."@
    &&& name != ".."@
}

proof fn lemma_component_start_after(q: Seq<char>, s: int, n: int)
    requires
        0 < s <= n <= q.len(),
        q[s - 1] == '/',
        forall|i: int| s <= i < n ==> q[i] != '/',
    ensures
        component_start(q, n) == s,
    decreases n,
{
    if n > s {
        lemma_component_start_after(q, s, n - 1);
    }
}

proof fn lemma_add_extension_plain(d: Seq<char>, name: Seq<char>, ext: Seq<char>)
    requires
        d.len() > 0,
        plain_name(name),
        ext.len() > 0,
    ensures
        path_add_extension(d + "/"@ + name, ext) == d + "/"@ + name + "."@ + ext,
{
    reveal_strlit("/");
    reveal_strlit(".");
    reveal_strlit("..");
    let q = d + "/"@ + name;
    let s: int = d.len() as int + 1;
    assert(q[s - 1] == '/');
    assert forall|i: int| s <= i < q.len() implies q[i] != '/' by {
        assert(q[i] == name[i - s]);
    }
    assert(q.last() == name.last());
    if name.len() == 1 {
        if name[0] == '.' {
            assert(name =~= "."@);
        }
    } else {
        assert(q[q.len() - 2] == name[name.len() - 2]);
    }
    assert(trim_path_end(q) == q);
    lemma_component_start_after(q, s, q.len() as int);
    assert(file_name_of(q) =~= name);
}

/// For a directory that does not end with `/` and plain names, the paths
/// the server uses are: `dir/name` for a component, `var/name.db` for a
/// database and `projects/name/name.kdl` for a schema.
pub proof fn law_plain_paths(dir: Seq<char>, name: Seq<char>)
    requires
        dir.len() > 0,
        dir.last() != '/',
        plain_name(name),
    ensures
        path_join(dir, name) == dir + "/"@ + name,
        path_add_extension(path_join(dir, name), "db"@) == dir + "/"@ + name + ".db"@,
        path_add_extension(path_join(path_join(dir, name), name), "kdl"@) == dir + "/"@ + name
            + "/"@ + name + ".kdl"@,
{
    reveal_strlit("db");
    reveal_strlit("kdl");
    reveal_strlit(".db");
    reveal_strlit(".kdl");
    reveal_strlit(".");
    let d1 = dir + "/"@ + name;
    assert(name[0] != '/');
    assert(d1.last() == name.last());
    assert(d1.last() != '/');
    lemma_add_extension_plain(dir, name, "db"@);
    assert("."@ + "db"@ =~= ".db"@);
    assert(dir + "/"@ + name + "."@ + "db"@ =~= dir + "/"@ + name + ".db"@);
    lemma_add_extension_plain(d1, name, "kdl"@);
    assert(d1 + "/"@ + name + "."@ + "kdl"@ =~= dir + "/"@ + name + "/"@ + name + ".kdl"@);
}

} // verus!
