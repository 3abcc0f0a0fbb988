use vstd::prelude::*;

verus! {

/// A directory path as its components: the anchor (a drive prefix and the
/// root, as far as the path has them), which no step up removes, then the
/// names below it.
#[derive(Debug)]
pub struct DirPath {
    pub anchor: Vec<String>,
    pub names: Vec<String>,
}

/// The first `n` elements of `v`, copied.
fn copy_prefix(v: &Vec<String>, n: usize) -> (r: Vec<String>)
    requires
        n <= v@.len(),
    ensures
        r@ == v@.take(n as int),
{
    let mut r: Vec<String> = Vec::new();
    let mut i: usize = 0;
    while i < n
        invariant
            i <= n <= v@.len(),
            r@ == v@.take(i as int),
        decreases n - i,
    {
        r.push(v[i].clone());
        proof {
            assert(v@.take(i + 1) == v@.take(i as int).push(v@[i as int]));
        }
        i = i + 1;
    }
    r
}

impl DirPath {
    /// All components, anchor first.
    pub open spec fn components(&self) -> Seq<String> {
        self.anchor@ + self.names@
    }

    /// The number of components.
    pub fn component_count(&self) -> (r: usize)
        requires
            self.anchor@.len() + self.names@.len() <= usize::MAX,
        ensures
            r == self.components().len(),
    {
        self.anchor.len() + self.names.len()
    }

    /// The component at `i`.
    pub fn component(&self, i: usize) -> (r: String)
        requires
            i < self.components().len(),
        ensures
            r == self.components()[i as int],
    {
        if i < self.anchor.len() {
            self.anchor[i].clone()
        } else {
            self.names[i - self.anchor.len()].clone()
        }
    }

    /// A copy of the path.
    pub fn duplicate(&self) -> (r: DirPath)
        ensures
            r.anchor@ == self.anchor@,
            r.names@ == self.names@,
    {
        DirPath {
            anchor: copy_prefix(&self.anchor, self.anchor.len()),
            names: copy_prefix(&self.names, self.names.len()),
        }
    }

    /// A directory has a parent where it has a name below its anchor.
    pub fn has_parent(&self) -> (r: bool)
        ensures
            r == (self.names@.len() > 0),
    {
        self.names.len() > 0
    }

    /// The parent directory: the path without its last name, none where
    /// only the anchor is left.
    pub fn parent(&self) -> (r: Option<DirPath>)
        ensures
            r is None <==> self.names@.len() == 0,
            r matches Some(p) ==> p.anchor@ == self.anchor@ && p.names@ == self.names@.drop_last(),
    {
        if self.names.len() == 0 {
            None
        } else {
            let names = copy_prefix(&self.names, self.names.len() - 1);
            Some(DirPath { anchor: copy_prefix(&self.anchor, self.anchor.len()), names })
        }
    }

    /// The path of the entry `name` in this directory.
    pub fn join(&self, name: &String) -> (r: DirPath)
        ensures
            r.anchor@ == self.anchor@,
            r.names@ == self.names@.push(*name),
    {
        let mut names = copy_prefix(&self.names, self.names.len());
        names.push(name.clone());
        DirPath { anchor: copy_prefix(&self.anchor, self.anchor.len()), names }
    }

    /// The path of the first `count` components, anchor components kept as
    /// anchor.
    pub fn prefix(&self, count: usize) -> (r: DirPath)
        requires
            count <= self.components().len(),
        ensures
            r.components() == self.components().take(count as int),
            r.anchor@ == self.anchor@.take(if count < self.anchor@.len() { count as int } else { self.anchor@.len() as int }),
    {
        if count <= self.anchor.len() {
            let r = DirPath { anchor: copy_prefix(&self.anchor, count), names: Vec::new() };
            proof {
                assert(r.components() == self.components().take(count as int));
            }
            r
        } else {
            let r = DirPath {
                anchor: copy_prefix(&self.anchor, self.anchor.len()),
                names: copy_prefix(&self.names, count - self.anchor.len()),
            };
            proof {
                assert(self.anchor@.take(self.anchor@.len() as int) == self.anchor@);
                assert(r.components() == self.components().take(count as int));
            }
            r
        }
    }
}

} // verus!
