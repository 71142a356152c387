use vstd::prelude::*;

verus! {

/// A filesystem path held as its list of components, so that the rules that
/// derive one location from another (parent, join, last component) can be
/// stated and checked without touching the filesystem.
#[derive(Debug)]
pub struct BackendPath {
    pub parts: Vec<String>,
}

impl View for BackendPath {
    type V = Seq<Seq<char>>;

    open spec fn view(&self) -> Seq<Seq<char>> {
        self.parts@.map_values(|s: String| s@)
    }
}

impl BackendPath {
    pub fn from_parts(parts: Vec<String>) -> (r: BackendPath)
        ensures
            r.parts == parts,
    {
        BackendPath { parts }
    }

    pub fn parts(&self) -> (r: &Vec<String>)
        ensures
            r == &self.parts,
    {
        &self.parts
    }

    pub fn duplicate(&self) -> (r: BackendPath)
        ensures
            r@ == self@,
    {
        let mut parts: Vec<String> = Vec::new();
        let mut i: usize = 0;
        while i < self.parts.len()
            invariant
                i <= self.parts@.len(),
                parts@.len() == i,
                forall|j: int| 0 <= j < i ==> parts@[j]@ == self.parts@[j]@,
            decreases self.parts@.len() - i,
        {
            parts.push(self.parts[i].clone());
            i = i + 1;
        }
        let r = BackendPath { parts };
        assert(r@ =~= self@);
        r
    }

    /// The path with one more component `name` at its end.
    pub fn join(&self, name: &str) -> (r: BackendPath)
        ensures
            r@ == self@.push(name@),
    {
        let mut r = self.duplicate();
        r.parts.push(name.to_owned());
        assert(r@ =~= self@.push(name@));
        r
    }

    /// The path without its last component; none for the empty path.
    pub fn parent(&self) -> (r: Option<BackendPath>)
        ensures
            self@.len() == 0 <==> r is None,
            r matches Some(p) ==> p@ == self@.drop_last(),
    {
        let n = self.parts.len();
        if n == 0 {
            return None;
        }
        let mut parts: Vec<String> = Vec::new();
        let mut i: usize = 0;
        while i < n - 1
            invariant
                n == self.parts@.len(),
                n > 0,
                i <= n - 1,
                parts@.len() == i,
                forall|j: int| 0 <= j < i ==> parts@[j]@ == self.parts@[j]@,
            decreases n - 1 - i,
        {
            parts.push(self.parts[i].clone());
            i = i + 1;
        }
        let p = BackendPath { parts };
        assert(p@ =~= self@.drop_last());
        Some(p)
    }

    /// Whether the last component is exactly `name`.
    pub fn ends_with(&self, name: &str) -> (r: bool)
        ensures
            r == (self@.len() > 0 && self@.last() == name@),
    {
        let n = self.parts.len();
        if n == 0 {
            false
        } else {
            let last = self.parts[n - 1].clone();
            let wanted = name.to_owned();
            last == wanted
        }
    }
}

} // verus!
