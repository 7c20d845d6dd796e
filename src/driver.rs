use vstd::prelude::*;

use crate::types::Address;

verus! {

/// Whether `name` is the name of an invariant entry point: it starts with `test_`.
pub open spec fn is_test_name(name: Seq<char>) -> bool {
    name.len() >= 5 && name.subrange(0, 5) == "test_"@
}

/// Whether `name` starts with `test_`.
pub fn is_test_function(name: &str) -> (r: bool)
    ensures
        r == is_test_name(name@),
{
    let n = name.unicode_len();
    if n < 5 {
        return false;
    }
    name.substring_char(0, 5).to_owned() == "test_".to_owned()
}

/// The views of a sequence of strings.
pub open spec fn names_view(v: Seq<String>) -> Seq<Seq<char>> {
    Seq::new(v.len(), |i: int| v[i]@)
}

/// The names among `names` that are invariant entry points, in order.
pub fn test_functions(names: &Vec<String>) -> (r: Vec<String>)
    ensures
        names_view(r@) == names_view(names@).filter(|n: Seq<char>| is_test_name(n)),
{
    let ghost pred = |n: Seq<char>| is_test_name(n);
    let mut out: Vec<String> = Vec::new();
    let mut i: usize = 0;
    while i < names.len()
        invariant
            i <= names@.len(),
            pred == (|n: Seq<char>| is_test_name(n)),
            names_view(out@) == names_view(names@).subrange(0, i as int).filter(pred),
        decreases names@.len() - i,
    {
        let ghost before = names_view(names@).subrange(0, i as int);
        proof {
            before.lemma_filter_push(names@[i as int]@, pred);
            assert(names_view(names@).subrange(0, i + 1) =~= before.push(names@[i as int]@));
        }
        let name_str = names[i].as_str();
        let keep = is_test_function(name_str);
        assert(pred(names@[i as int]@) == keep);
        if keep {
            out.push(names[i].clone());
            assert(names_view(out@) =~= before.filter(pred).push(names@[i as int]@));
        } else {
            assert(names_view(out@) =~= before.filter(pred));
        }
        assert(names_view(out@) == names_view(names@).subrange(0, i + 1).filter(pred));
        i = i + 1;
    }
    assert(names_view(names@).subrange(0, i as int) =~= names_view(names@));
    out
}

/// What a matched file is, by its extension.
#[derive(Debug)]
pub enum Artifact {
    /// An ABI description; the path without `.abi`.
    Abi(String),
    /// Constructor bytecode; the path without `.bin`.
    Bin(String),
    /// Anything else.
    Other,
}

/// Whether `path` ends with the four characters `ext`.
pub open spec fn has_extension(path: Seq<char>, ext: Seq<char>) -> bool {
    path.len() >= 4 && path.subrange(path.len() - 4, path.len() as int) == ext
}

/// The path without its last four characters.
pub open spec fn stem_of(path: Seq<char>) -> Seq<char> {
    path.subrange(0, path.len() - 4)
}

/// Classifies a matched path by its `.abi` or `.bin` extension.
pub fn classify_artifact(path: &str) -> (r: Artifact)
    ensures
        match r {
            Artifact::Abi(stem) => has_extension(path@, ".abi"@) && stem@ == stem_of(path@),
            Artifact::Bin(stem) => !has_extension(path@, ".abi"@) && has_extension(path@, ".bin"@)
                && stem@ == stem_of(path@),
            Artifact::Other => !has_extension(path@, ".abi"@) && !has_extension(path@, ".bin"@),
        },
{
    let n = path.unicode_len();
    if n < 4 {
        return Artifact::Other;
    }
    let ext = path.substring_char(n - 4, n).to_owned();
    let stem = path.substring_char(0, n - 4).to_owned();
    if ext == ".abi".to_owned() {
        Artifact::Abi(stem)
    } else if ext == ".bin".to_owned() {
        Artifact::Bin(stem)
    } else {
        Artifact::Other
    }
}

/// The addresses at which artifacts were deployed, by stem, in order of deployment.
pub struct Deployments {
    entries: Vec<(String, Address)>,
}

impl Deployments {
    /// The (stem, address) pairs, in order of deployment.
    pub closed spec fn view(&self) -> Seq<(Seq<char>, Seq<u8>)> {
        Seq::new(self.entries@.len(), |i: int| (self.entries@[i].0@, self.entries@[i].1@))
    }

    pub fn new() -> (r: Deployments)
        ensures
            r.view() == Seq::<(Seq<char>, Seq<u8>)>::empty(),
    {
        let r = Deployments { entries: Vec::new() };
        assert(r.view() =~= Seq::<(Seq<char>, Seq<u8>)>::empty());
        r
    }

    /// Notes that the artifact `stem` was deployed at `address`.
    pub fn record(&mut self, stem: String, address: Address)
        ensures
            final(self).view() == old(self).view().push((stem@, address@)),
    {
        let ghost s = stem@;
        self.entries.push((stem, address));
        assert(self.view() =~= old(self).view().push((s, address@)));
    }

    /// The number of deployments.
    pub fn len(&self) -> (r: usize)
        ensures
            r == self.view().len(),
    {
        self.entries.len()
    }

    /// The address of the `i`-th deployment.
    pub fn address_at(&self, i: usize) -> (r: Address)
        requires
            i < self.view().len(),
        ensures
            r@ == self.view()[i as int].1,
    {
        self.entries[i].1
    }

    /// The address of the latest deployment of `stem`, if any.
    pub fn address_of(&self, stem: &String) -> (r: Option<Address>)
        ensures
            match r {
                Some(a) => exists|i: int|
                    0 <= i < self.view().len() && self.view()[i] == (stem@, a@) && forall|j: int|
                        i < j < self.view().len() ==> (#[trigger] self.view()[j]).0 != stem@,
                None => forall|j: int| 0 <= j < self.view().len() ==> (#[trigger] self.view()[j]).0 != stem@,
            },
    {
        let mut i: usize = self.entries.len();
        while i > 0
            invariant
                i <= self.entries@.len(),
                forall|j: int| i <= j < self.view().len() ==> (#[trigger] self.view()[j]).0 != stem@,
            decreases i,
        {
            i = i - 1;
            if self.entries[i].0 == *stem {
                let a = self.entries[i].1;
                assert(self.view()[i as int] == (stem@, a@));
                return Some(a);
            }
        }
        None
    }
}

} // verus!
