//! A filesystem path modelled as the sequence of its components below the
//! root, so that directory search and display can be reasoned about exactly.

use vstd::prelude::*;
use vstd::string::StringExecFns;

verus! {

/// A path, root first: the empty sequence is the filesystem root, and each
/// component is one directory or file name.
#[derive(Debug, Clone)]
pub struct FsPath {
    pub components: Vec<String>,
}

impl View for FsPath {
    type V = Seq<Seq<char>>;

    open spec fn view(&self) -> Seq<Seq<char>> {
        self.components.deep_view()
    }
}

/// The fixed name of the project descriptor file looked for by the locator.
pub open spec fn manifest_filename() -> Seq<char> {
    "mun.toml"@
}

/// `p` rendered with one `/` before each component; the root renders empty.
pub open spec fn display_of(p: Seq<Seq<char>>) -> Seq<char>
    decreases p.len(),
{
    if p.len() == 0 {
        Seq::empty()
    } else {
        display_of(p.drop_last()) + seq!['/'] + p.last()
    }
}

impl FsPath {
    /// The root path, with no components.
    pub fn root() -> (r: FsPath)
        ensures
            r@ == Seq::<Seq<char>>::empty(),
    {
        FsPath { components: Vec::new() }
    }

    /// An element-wise copy of the path.
    pub fn duplicate(&self) -> (r: FsPath)
        ensures
            r@ == self@,
    {
        let mut components: Vec<String> = Vec::new();
        let n = self.components.len();
        for i in 0..n
            invariant
                n == self.components.len(),
                components@.len() == i,
                components.deep_view() == self@.take(i as int),
        {
            components.push(self.components[i].clone());
            proof {
                assert(components.deep_view() =~= self@.take(i + 1));
            }
        }
        proof {
            assert(self@.take(n as int) =~= self@);
        }
        FsPath { components }
    }

    /// Appends one component to the path.
    pub fn push_component(&mut self, name: String)
        ensures
            final(self)@ == old(self)@.push(name@),
    {
        self.components.push(name);
        proof {
            assert(self@ =~= old(self)@.push(name@));
        }
    }

    /// Whether both paths name the same filesystem location.
    pub fn same_path(&self, other: &FsPath) -> (r: bool)
        ensures
            r == (self@ == other@),
    {
        let n = self.components.len();
        if n != other.components.len() {
            proof {
                assert(self@.len() != other@.len());
            }
            return false;
        }
        for i in 0..n
            invariant
                n == self.components.len(),
                n == other.components.len(),
                forall|j: int| 0 <= j < i ==> self@[j] == other@[j],
        {
            if !(self.components[i] == other.components[i]) {
                proof {
                    assert(self@[i as int] != other@[i as int]);
                }
                return false;
            }
            proof {
                assert(self@[i as int] == other@[i as int]);
            }
        }
        proof {
            assert(self@ =~= other@);
        }
        true
    }

    /// The path of the manifest file directly inside this directory.
    pub fn manifest_file(&self) -> (r: FsPath)
        ensures
            r@ == self@.push(manifest_filename()),
    {
        let mut r = self.duplicate();
        r.push_component("mun.toml".to_owned());
        r
    }

    /// The path rendered as text, one `/` before each component.
    pub fn display_string(&self) -> (s: String)
        ensures
            s@ == display_of(self@),
    {
        let mut s = String::new();
        let n = self.components.len();
        for i in 0..n
            invariant
                n == self.components.len(),
                s@ == display_of(self@.take(i as int)),
        {
            s.append("/");
            s.append(self.components[i].as_str());
            proof {
                reveal_strlit("/");
                assert(self@.take(i + 1).drop_last() =~= self@.take(i as int));
                assert(s@ =~= display_of(self@.take(i + 1)));
            }
        }
        proof {
            assert(self@.take(n as int) =~= self@);
        }
        s
    }
}

} // verus!
