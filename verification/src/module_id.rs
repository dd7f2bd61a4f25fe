//! The identity of a module: its id, the stable form of the id that
//! diagnostics and options see, and the name that stands for the file.
//!
//! Where one path is seen from another, both are first normalised and
//! written with `/` between their parts. The way between them is then a
//! matter of their parts alone: nothing of the process enters it.
use vstd::prelude::*;

verus! {

/// Whether a path is absolute as `std::path::Path::is_absolute` judges it on
/// the platform the library is built for.
pub uninterp spec fn path_is_absolute(path: Seq<char>) -> bool;

/// The path without its final component, as `std::path::Path::parent` gives it.
pub uninterp spec fn path_parent(path: Seq<char>) -> Option<Seq<char>>;

/// The final component without its extension, as `std::path::Path::file_stem`
/// gives it.
pub uninterp spec fn path_file_stem(path: Seq<char>) -> Option<Seq<char>>;

/// `path` without `.` parts, with each `..` taken together with the part
/// before it, as `sugar_path::SugarPath::normalize` gives it.
pub uninterp spec fn path_normalized(path: Seq<char>) -> Seq<char>;

/// `path` with each separator of the platform written as `/`, as
/// `sugar_path::SugarPath::to_slash_lossy` gives it.
pub uninterp spec fn path_to_slash(path: Seq<char>) -> Seq<char>;

/// Calls `std::path::Path::is_absolute`. The claim is only that the answer
/// depends on the text of the path alone.
#[verifier::external_body]
fn is_absolute(path: &str) -> (r: bool)
    ensures
        r == path_is_absolute(path@),
{
    std::path::Path::new(path).is_absolute()
}

/// Calls `std::path::Path::parent`. The claim is only that the answer depends
/// on the text of the path alone.
#[verifier::external_body]
pub(crate) fn parent_dir(path: &str) -> (r: Option<String>)
    ensures
        match r {
            Some(dir) => path_parent(path@) == Some(dir@),
            None => path_parent(path@) is None,
        },
{
    std::path::Path::new(path).parent().map(|dir| dir.to_string_lossy().into_owned())
}

/// Calls `std::path::Path::file_stem`. The claim is only that the answer
/// depends on the text of the path alone.
#[verifier::external_body]
fn file_stem(path: &str) -> (r: Option<String>)
    ensures
        match r {
            Some(stem) => path_file_stem(path@) == Some(stem@),
            None => path_file_stem(path@) is None,
        },
{
    std::path::Path::new(path).file_stem().map(|stem| stem.to_string_lossy().into_owned())
}

/// Calls `sugar_path::SugarPath::normalize`, which works on the components
/// of the path and asks nothing of the process. The claim is only that the
/// answer depends on the text of the path alone.
#[verifier::external_body]
fn normalize(path: &str) -> (r: String)
    ensures
        r@ == path_normalized(path@),
{
    sugar_path::SugarPath::normalize(&path).to_string_lossy().into_owned()
}

/// Calls `sugar_path::SugarPath::to_slash_lossy`. The claim is only that the
/// answer depends on the text of the path alone.
#[verifier::external_body]
fn to_slash(path: &str) -> (r: String)
    ensures
        r@ == path_to_slash(path@),
{
    sugar_path::SugarPath::to_slash_lossy(&path).into_owned()
}

/// The texts of a list of strings.
pub open spec fn texts(list: Seq<String>) -> Seq<Seq<char>> {
    Seq::new(list.len(), |i: int| list[i]@)
}

/// Where the splitting of `s` at `/` stands after `n` characters: the parts
/// that are complete, and the part that is being read.
pub open spec fn split_state(s: Seq<char>, n: int) -> (Seq<Seq<char>>, Seq<char>)
    decreases n,
{
    if n <= 0 {
        (Seq::empty(), Seq::empty())
    } else {
        let (done, part) = split_state(s, n - 1);
        if s[n - 1] == '/' {
            if part.len() > 0 {
                (done.push(part), Seq::empty())
            } else {
                (done, Seq::empty())
            }
        } else {
            (done, part.push(s[n - 1]))
        }
    }
}

/// The parts of a path written with `/`: what stands between the slashes,
/// without the empty parts.
pub open spec fn segments(s: Seq<char>) -> Seq<Seq<char>> {
    let (done, part) = split_state(s, s.len() as int);
    if part.len() > 0 {
        done.push(part)
    } else {
        done
    }
}

/// The first place from `i` on at which two lists of parts differ, or at
/// which one of them ends.
pub open spec fn common_from(a: Seq<Seq<char>>, b: Seq<Seq<char>>, i: int) -> int
    decreases a.len() - i,
{
    if 0 <= i < a.len() && i < b.len() && a[i] == b[i] {
        common_from(a, b, i + 1)
    } else {
        i
    }
}

/// `n` steps up: `..`, `n` times.
pub open spec fn up_steps(n: int) -> Seq<Seq<char>> {
    Seq::new(n as nat, |i: int| ".."@)
}

/// The way from the directory with the parts `base` to the file with the
/// parts `path`: up out of what they do not share, then down to the file.
pub open spec fn way_between(path: Seq<Seq<char>>, base: Seq<Seq<char>>) -> Seq<Seq<char>> {
    let shared = common_from(path, base, 0);
    up_steps(base.len() - shared) + path.skip(shared)
}

/// The first `n` parts written as a path, with `/` between them.
pub open spec fn joined(parts: Seq<Seq<char>>, n: int) -> Seq<char>
    decreases n,
{
    if n <= 0 {
        Seq::empty()
    } else if n == 1 {
        parts[0]
    } else {
        joined(parts, n - 1) + "/"@ + parts[n - 1]
    }
}

/// The parts of a path after it is normalised and written with `/`.
pub open spec fn path_segments(path: Seq<char>) -> Seq<Seq<char>> {
    segments(path_to_slash(path_normalized(path)))
}

/// Where a module lies as seen from a directory, written with `/`. Both
/// must be absolute for the question to have an answer; a module that is
/// not (a virtual one) is taken as it stands.
pub open spec fn relative_to(path: Seq<char>, base: Seq<char>) -> Seq<char> {
    if path_is_absolute(path) && path_is_absolute(base) {
        let way = way_between(path_segments(path), path_segments(base));
        joined(way, way.len() as int)
    } else {
        path
    }
}

/// The stable form of an id: an absolute id as seen from the working
/// directory, with `/` between its parts; any other id unchanged.
pub open spec fn stabilized(id: Seq<char>, cwd: Seq<char>) -> Seq<char> {
    relative_to(id, cwd)
}

/// Computes [`segments`].
pub fn split_segments(s: &str) -> (r: Vec<String>)
    ensures
        texts(r@) == segments(s@),
{
    let n: usize = s.unicode_len();
    let mut done: Vec<String> = Vec::new();
    let mut part = String::new();
    let mut filled = false;
    let mut i: usize = 0;
    assert(texts(done@) =~= split_state(s@, 0).0);
    while i < n
        invariant
            n == s@.len(),
            i <= n,
            texts(done@) == split_state(s@, i as int).0,
            part@ == split_state(s@, i as int).1,
            filled == (part@.len() > 0),
        decreases n - i,
    {
        let c = s.get_char(i);
        if c == '/' {
            if filled {
                let ghost before = texts(done@);
                done.push(part);
                assert(texts(done@) =~= before.push(part@));
                part = String::new();
                filled = false;
            }
        } else {
            part.push(c);
            filled = true;
        }
        i += 1;
    }
    if filled {
        let ghost before = texts(done@);
        done.push(part);
        assert(texts(done@) =~= before.push(part@));
    }
    done
}

/// Computes [`way_between`].
pub fn way_between_segments(path: &Vec<String>, base: &Vec<String>) -> (r: Vec<String>)
    ensures
        texts(r@) == way_between(texts(path@), texts(base@)),
{
    let ghost a = texts(path@);
    let ghost b = texts(base@);
    let mut shared: usize = 0;
    while shared < path.len() && shared < base.len() && path[shared] == base[shared]
        invariant
            shared <= path.len(),
            shared <= base.len(),
            a == texts(path@),
            b == texts(base@),
            common_from(a, b, 0) == common_from(a, b, shared as int),
        decreases path.len() - shared,
    {
        assert(a[shared as int] == b[shared as int]);
        shared += 1;
    }
    assert(common_from(a, b, 0) == shared) by {
        if shared < path.len() && shared < base.len() {
            assert(a[shared as int] != b[shared as int]);
        }
    }
    let mut out: Vec<String> = Vec::new();
    let mut up: usize = shared;
    assert(texts(out@) =~= up_steps(0));
    while up < base.len()
        invariant
            shared <= up <= base.len(),
            texts(out@) == up_steps(up - shared),
        decreases base.len() - up,
    {
        let ghost before = texts(out@);
        let step = String::from_str("..");
        out.push(step);
        assert(texts(out@) =~= before.push(".."@));
        assert(before.push(".."@) =~= up_steps(up + 1 - shared));
        up += 1;
    }
    let ghost ups = texts(out@);
    let mut down: usize = shared;
    assert(texts(out@) =~= ups + a.subrange(shared as int, shared as int));
    while down < path.len()
        invariant
            shared <= down <= path.len(),
            a == texts(path@),
            texts(out@) == ups + a.subrange(shared as int, down as int),
        decreases path.len() - down,
    {
        let ghost before = texts(out@);
        let part = path[down].clone();
        out.push(part);
        assert(texts(out@) =~= before.push(a[down as int]));
        assert(before.push(a[down as int]) =~= ups + a.subrange(shared as int, down + 1));
        down += 1;
    }
    assert(a.subrange(shared as int, a.len() as int) =~= a.skip(shared as int));
    out
}

/// Computes [`joined`] for the whole list.
pub fn join_segments(parts: &Vec<String>) -> (r: String)
    ensures
        r@ == joined(texts(parts@), parts@.len() as int),
{
    let mut out = String::new();
    let mut i: usize = 0;
    while i < parts.len()
        invariant
            i <= parts.len(),
            out@ == joined(texts(parts@), i as int),
        decreases parts.len() - i,
    {
        if i > 0 {
            out.append("/");
        }
        out.append(parts[i].as_str());
        assert(out@ =~= joined(texts(parts@), i + 1));
        i += 1;
    }
    out
}

/// The parts of a path, normalised: computes [`path_segments`].
pub fn normalized_segments(path: &str) -> (r: Vec<String>)
    ensures
        texts(r@) == path_segments(path@),
{
    let normal = normalize(path);
    let slashed = to_slash(normal.as_str());
    split_segments(slashed.as_str())
}

/// Computes [`relative_to`].
pub fn relative_path(path: &str, base: &str) -> (r: String)
    ensures
        r@ == relative_to(path@, base@),
{
    if is_absolute(path) && is_absolute(base) {
        let target = normalized_segments(path);
        let from = normalized_segments(base);
        let way = way_between_segments(&target, &from);
        join_segments(&way)
    } else {
        String::from_str(path)
    }
}

/// The stem of the directory a path lies in, where it has both.
pub open spec fn dir_stem(path: Seq<char>) -> Option<Seq<char>> {
    match path_parent(path) {
        Some(dir) => path_file_stem(dir),
        None => None,
    }
}

/// The name that stands for a file of which the stem and the stem of its
/// directory are known: the stem, or the whole path where there is none;
/// for an `index` file the stem of the directory, where there is one.
pub open spec fn representative_choice(path: Seq<char>, stem: Option<Seq<char>>, dir: Option<Seq<char>>) -> Seq<
    char,
> {
    let name = match stem {
        Some(stem) => stem,
        None => path,
    };
    if name == "index"@ {
        match dir {
            Some(dir) => dir,
            None => name,
        }
    } else {
        name
    }
}

/// The name that stands for a file: its stem, or for an `index` file the stem
/// of the directory it lies in.
pub open spec fn representative_name(path: Seq<char>) -> Seq<char> {
    representative_choice(path, path_file_stem(path), dir_stem(path))
}

/// The text of an optional string.
pub open spec fn text_of(s: Option<String>) -> Option<Seq<char>> {
    match s {
        Some(s) => Some(s@),
        None => None,
    }
}

/// Whether a file without a stem of its own, or with this one, is an
/// `index` file and so goes by the name of its directory.
pub fn is_index(name: &str) -> (r: bool)
    ensures
        r == (name@ == "index"@),
{
    String::from_str(name) == String::from_str("index")
}

/// Computes [`representative_choice`].
pub fn choose_representative_name(path: &str, stem: Option<String>, dir: Option<String>) -> (r: String)
    ensures
        r@ == representative_choice(path@, text_of(stem), text_of(dir)),
{
    let name = match stem {
        Some(stem) => stem,
        None => String::from_str(path),
    };
    if is_index(name.as_str()) {
        match dir {
            Some(dir) => dir,
            None => name,
        }
    } else {
        name
    }
}

/// Computes [`representative_name`]. The directory is looked at only for an
/// `index` file.
pub fn representative_file_name(path: &str) -> (r: String)
    ensures
        r@ == representative_name(path@),
{
    let stem = file_stem(path);
    let index = match &stem {
        Some(stem) => is_index(stem.as_str()),
        None => is_index(path),
    };
    let dir = if index {
        match parent_dir(path) {
            Some(dir) => file_stem(dir.as_str()),
            None => None,
        }
    } else {
        None
    };
    choose_representative_name(path, stem, dir)
}

/// The canonical, path-like id of a module.
#[derive(Clone, Debug, PartialEq, Eq)]
pub struct ModuleId {
    inner: String,
}

impl View for ModuleId {
    type V = Seq<char>;

    closed spec fn view(&self) -> Seq<char> {
        self.inner@
    }
}

impl ModuleId {
    pub fn new(id: String) -> (r: ModuleId)
        ensures
            r@ == id@,
    {
        ModuleId { inner: id }
    }

    pub fn as_str(&self) -> (r: &str)
        ensures
            r@ == self@,
    {
        self.inner.as_str()
    }

    /// The id as diagnostics and options see it: see [`stabilized`].
    pub fn stabilize(&self, cwd: &str) -> (r: String)
        ensures
            r@ == stabilized(self@, cwd@),
    {
        relative_path(self.inner.as_str(), cwd)
    }
}

} // verus!
