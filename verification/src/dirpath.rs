use vstd::prelude::*;
use vstd::string::*;

verus! {

/// A directory path, held as its components in order. The navigator starts
/// from a single base component (the working directory, `.`) and only ever
/// appends entry names to the path or removes the last of them, so the
/// components never contain a separator. A path of one component is a root
/// to the navigator: it has no parent to go back to.
pub struct DirPath {
    components: Vec<String>,
}

impl View for DirPath {
    type V = Seq<Seq<char>>;

    closed spec fn view(&self) -> Seq<Seq<char>> {
        self.components@.map_values(|c: String| c@)
    }
}

/// The textual form of a component sequence: the components joined with `/`.
pub open spec fn joined(cs: Seq<Seq<char>>) -> Seq<char>
    decreases cs.len(),
{
    if cs.len() == 0 {
        Seq::empty()
    } else if cs.len() == 1 {
        cs[0]
    } else {
        joined(cs.drop_last()) + "/"@ + cs.last()
    }
}

impl DirPath {
    /// A path of a single component.
    pub fn new(first: &str) -> (r: DirPath)
        ensures
            r@ == seq![first@],
    {
        let mut components: Vec<String> = Vec::new();
        components.push(first.to_owned());
        let r = DirPath { components };
        proof {
            assert(r@ =~= seq![first@]);
        }
        r
    }

    /// Appends one entry name to the path.
    pub fn push(&mut self, name: String)
        ensures
            final(self)@ == old(self)@.push(name@),
    {
        let ghost before = self@;
        self.components.push(name);
        proof {
            assert(self@ =~= before.push(name@));
        }
    }

    /// Removes the last component, when there is a parent to fall back to;
    /// at a root (a single component) the path is left unchanged.
    pub fn pop(&mut self) -> (popped: bool)
        ensures
            old(self)@.len() <= 1 ==> !popped && final(self)@ == old(self)@,
            old(self)@.len() > 1 ==> popped && final(self)@ == old(self)@.drop_last(),
    {
        let ghost before = self@;
        if self.components.len() > 1 {
            self.components.pop();
            proof {
                assert(self@ =~= before.drop_last());
            }
            true
        } else {
            false
        }
    }

    /// The path of a child entry: this path with `name` appended, the path
    /// itself left untouched.
    pub fn join(&self, name: &str) -> (r: DirPath)
        ensures
            r@ == self@.push(name@),
    {
        let mut components: Vec<String> = Vec::new();
        let mut i: usize = 0;
        while i < self.components.len()
            invariant
                i <= self.components.len(),
                components@.len() == i,
                forall|j: int| 0 <= j < i ==> components@[j]@ == self.components@[j]@,
            decreases self.components.len() - i,
        {
            components.push(self.components[i].clone());
            i += 1;
        }
        components.push(name.to_owned());
        let r = DirPath { components };
        proof {
            assert(r@ =~= self@.push(name@));
        }
        r
    }

    /// The number of components.
    pub fn depth(&self) -> (n: usize)
        ensures
            n == self@.len(),
    {
        self.components.len()
    }

    /// The path's textual form, its components joined with `/`.
    pub fn display_string(&self) -> (r: String)
        ensures
            r@ == joined(self@),
    {
        let mut r = String::new();
        let mut i: usize = 0;
        while i < self.components.len()
            invariant
                i <= self.components.len(),
                self@.len() == self.components@.len(),
                r@ == joined(self@.take(i as int)),
            decreases self.components.len() - i,
        {
            if i > 0 {
                r.append("/");
            }
            let c = &self.components[i];
            r.append(c.as_str());
            proof {
                let cs = self@;
                let ii = i as int;
                assert(cs.take(ii + 1).drop_last() =~= cs.take(ii));
                assert(cs.take(ii + 1).last() == cs[ii]);
                if ii == 0 {
                    assert(r@ =~= joined(cs.take(1)));
                } else {
                    assert(joined(cs.take(ii + 1)) == joined(cs.take(ii)) + "/"@ + cs[ii]);
                }
            }
            i += 1;
        }
        proof {
            assert(self@.take(self@.len() as int) =~= self@);
        }
        r
    }
}

} // verus!
