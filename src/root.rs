use vstd::prelude::*;

verus! {

/// An absolute filesystem path, held as its components below `/`.
#[derive(Debug)]
pub struct FsPath {
    pub parts: Vec<String>,
}

impl View for FsPath {
    type V = Seq<Seq<char>>;

    open spec fn view(&self) -> Seq<Seq<char>> {
        self.parts@.map_values(|s: String| s@)
    }
}

/// Name of the subdirectory whose presence marks the project root.
pub open spec fn marker_dir_name() -> Seq<char> {
    "scripts"@
}

/// Name of the subdirectory of the project root that holds the audit logs.
pub open spec fn logs_dir_name() -> Seq<char> {
    "logs"@
}

/// The directory chosen as project root from a start directory, given whether
/// the start directory and its parent hold the marker subdirectory.
pub open spec fn resolved_root(start: Seq<Seq<char>>, here: bool, up: bool) -> Option<Seq<Seq<char>>> {
    if here {
        Some(start)
    } else if start.len() > 0 && up {
        Some(start.drop_last())
    } else {
        None
    }
}

/// The project root could not be found from the start directory.
#[derive(Clone, Copy, Debug, PartialEq, Eq, Structural)]
pub struct RootNotFound;

impl FsPath {
    /// The filesystem root `/`.
    pub fn top() -> (r: FsPath)
        ensures
            r@ == Seq::<Seq<char>>::empty(),
    {
        let r = FsPath { parts: Vec::new() };
        assert(r@ =~= Seq::<Seq<char>>::empty());
        r
    }

    /// A copy of the first `n` components.
    pub fn prefix(&self, n: usize) -> (r: FsPath)
        requires
            n <= self@.len(),
        ensures
            r@ == self@.subrange(0, n as int),
    {
        let mut parts: Vec<String> = Vec::new();
        let mut i: usize = 0;
        while i < n
            invariant
                n <= self.parts@.len(),
                i <= n,
                parts@.len() == i,
                forall|k: int| 0 <= k < i ==> parts@[k]@ == self.parts@[k]@,
            decreases n - i,
        {
            parts.push(self.parts[i].clone());
            i = i + 1;
        }
        let r = FsPath { parts };
        assert(r@ =~= self@.subrange(0, n as int));
        r
    }

    /// A copy of this path.
    pub fn copy(&self) -> (r: FsPath)
        ensures
            r@ == self@,
    {
        let r = self.prefix(self.parts.len());
        assert(r@ =~= self@);
        r
    }

    /// The path of the entry `name` inside this directory.
    pub fn join(&self, name: &str) -> (r: FsPath)
        ensures
            r@ == self@.push(name@),
    {
        let base = self.prefix(self.parts.len());
        let mut parts = base.parts;
        let last = String::from_str(name);
        parts.push(last);
        let r = FsPath { parts };
        assert(self@.subrange(0, self@.len() as int) =~= self@);
        assert(r@.len() == self@.len() + 1);
        assert forall|k: int| 0 <= k < r@.len() implies r@[k] == self@.push(name@)[k] by {
            if k < self@.len() {
                assert(r.parts@[k] == base.parts@[k]);
            }
        }
        assert(r@ =~= self@.push(name@));
        r
    }

    /// The directory that holds this one, or `None` for `/`.
    pub fn parent(&self) -> (r: Option<FsPath>)
        ensures
            match r {
                Some(p) => self@.len() > 0 && p@ == self@.drop_last(),
                None => self@.len() == 0,
            },
    {
        let n = self.parts.len();
        if n == 0 {
            None
        } else {
            Some(self.prefix(n - 1))
        }
    }

    /// The marker subdirectory inside this directory, whose presence makes it a
    /// project root.
    pub fn marker_dir(&self) -> (r: FsPath)
        ensures
            r@ == self@.push(marker_dir_name()),
    {
        self.join("scripts")
    }

    /// The logs directory under this project root.
    pub fn logs_dir(&self) -> (r: FsPath)
        ensures
            r@ == self@.push(logs_dir_name()),
    {
        self.join("logs")
    }
}

/// The text of a path: each component preceded by `/`, or `/` alone for the
/// filesystem root.
pub open spec fn path_text(p: Seq<Seq<char>>) -> Seq<char> {
    if p.len() == 0 {
        "/"@
    } else {
        components_text(p)
    }
}

/// Each component preceded by `/`.
pub open spec fn components_text(p: Seq<Seq<char>>) -> Seq<char>
    decreases p.len(),
{
    if p.len() == 0 {
        Seq::empty()
    } else {
        components_text(p.drop_last()) + "/"@ + p.last()
    }
}

impl FsPath {
    /// The text of this path, as the host's filesystem writes it.
    pub fn to_text(&self) -> (r: String)
        ensures
            r@ == path_text(self@),
    {
        if self.parts.len() == 0 {
            return String::from_str("/");
        }
        let mut s = String::new();
        let mut i: usize = 0;
        while i < self.parts.len()
            invariant
                i <= self@.len(),
                self@.len() == self.parts@.len(),
                s@ == components_text(self@.subrange(0, i as int)),
            decreases self.parts@.len() - i,
        {
            s.append("/");
            s.append(self.parts[i].as_str());
            proof {
                let q = self@.subrange(0, i + 1);
                assert(q.drop_last() =~= self@.subrange(0, i as int));
            }
            i = i + 1;
        }
        assert(self@.subrange(0, self@.len() as int) =~= self@);
        s
    }
}

/// Chooses the project root from `start`: `start` itself when it holds the
/// marker subdirectory (`here`), else its parent when that holds it (`up`).
/// No deeper search is made.
pub fn resolve_project_root(start: &FsPath, here: bool, up: bool) -> (r: Result<FsPath, RootNotFound>)
    ensures
        match r {
            Ok(root) => resolved_root(start@, here, up) == Some(root@),
            Err(_) => resolved_root(start@, here, up) is None,
        },
{
    if here {
        Ok(start.copy())
    } else {
        match start.parent() {
            Some(p) => if up {
                Ok(p)
            } else {
                Err(RootNotFound)
            },
            None => Err(RootNotFound),
        }
    }
}

/// Started one level below a directory that holds the marker, the search
/// finds a root: the start itself if it holds the marker too, else that
/// directory.
pub proof fn lemma_one_level_below_resolves(root: Seq<Seq<char>>, name: Seq<char>, marked: Set<Seq<Seq<char>>>)
    requires
        marked.contains(root),
    ensures
        resolved_root(root.push(name), marked.contains(root.push(name)), marked.contains(root)) is Some,
        !marked.contains(root.push(name)) ==> resolved_root(root.push(name), false, true) == Some(root),
{
    assert(root.push(name).drop_last() =~= root);
}

/// Started two levels below the root, where neither the start nor its parent
/// holds the marker, the search fails.
pub proof fn lemma_two_levels_below_fails(
    root: Seq<Seq<char>>,
    a: Seq<char>,
    b: Seq<char>,
    marked: Set<Seq<Seq<char>>>,
)
    requires
        !marked.contains(root.push(a)),
        !marked.contains(root.push(a).push(b)),
    ensures
        resolved_root(
            root.push(a).push(b),
            marked.contains(root.push(a).push(b)),
            marked.contains(root.push(a).push(b).drop_last()),
        ) is None,
{
    assert(root.push(a).push(b).drop_last() =~= root.push(a));
}

} // verus!
