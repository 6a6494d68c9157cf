//! Artifact declarations: binaries and libraries of a project.
use vstd::prelude::*;

use super::types::LibType;
use crate::text::owned;

verus! {

/// A binary artifact.
pub struct Binary {
    pub name: String,
    pub path: String,
    pub out_name: Option<String>,
    pub features: Vec<String>,
    pub no_default_features: bool,
}

/// A library artifact.
pub struct Library {
    pub name: String,
    pub path: String,
    pub out_name: Option<String>,
    pub types: Vec<LibType>,
    pub headers: bool,
}

/// Abstract value of a [`Binary`].
pub struct BinaryModel {
    pub name: Seq<char>,
    pub path: Seq<char>,
    pub out_name: Option<Seq<char>>,
    pub features: Seq<Seq<char>>,
    pub no_default_features: bool,
}

/// Abstract value of a [`Library`].
pub struct LibraryModel {
    pub name: Seq<char>,
    pub path: Seq<char>,
    pub out_name: Option<Seq<char>>,
    pub types: Seq<LibType>,
    pub headers: bool,
}

impl View for Binary {
    type V = BinaryModel;

    open spec fn view(&self) -> BinaryModel {
        BinaryModel {
            name: self.name@,
            path: self.path@,
            out_name: self.out_name.deep_view(),
            features: self.features.deep_view(),
            no_default_features: self.no_default_features,
        }
    }
}

impl DeepView for Binary {
    type V = BinaryModel;

    open spec fn deep_view(&self) -> BinaryModel {
        self@
    }
}

impl View for Library {
    type V = LibraryModel;

    open spec fn view(&self) -> LibraryModel {
        LibraryModel {
            name: self.name@,
            path: self.path@,
            out_name: self.out_name.deep_view(),
            types: self.types@,
            headers: self.headers,
        }
    }
}

impl DeepView for Library {
    type V = LibraryModel;

    open spec fn deep_view(&self) -> LibraryModel {
        self@
    }
}

/// The default source path of a binary.
pub fn default_binary_path() -> (r: String)
    ensures
        r@ == "src/main.rs"@,
{
    owned("src/main.rs")
}

/// The default source path of a library.
pub fn default_library_path() -> (r: String)
    ensures
        r@ == "src/lib.rs"@,
{
    owned("src/lib.rs")
}

impl Default for Binary {
    fn default() -> (r: Self)
        ensures
            r@.name == "my-project"@,
            r@.path == "src/main.rs"@,
            r@.out_name is None,
            r@.features.len() == 0,
            !r@.no_default_features,
    {
        Binary {
            name: owned("my-project"),
            path: default_binary_path(),
            out_name: None,
            features: Vec::new(),
            no_default_features: false,
        }
    }
}

impl Default for Library {
    fn default() -> (r: Self)
        ensures
            r@.name.len() == 0,
            r@.path == "src/lib.rs"@,
            r@.out_name is None,
            r@.types.len() == 0,
            !r@.headers,
    {
        Library {
            name: String::new(),
            path: default_library_path(),
            out_name: None,
            types: Vec::new(),
            headers: false,
        }
    }
}

impl Binary {
    /// An exact copy of this binary declaration.
    pub fn duplicate(&self) -> (r: Self)
        ensures
            r@ == self@,
    {
        Binary {
            name: self.name.clone(),
            path: self.path.clone(),
            out_name: clone_opt_string(&self.out_name),
            features: clone_strings(&self.features),
            no_default_features: self.no_default_features,
        }
    }
}

impl Library {
    /// An exact copy of this library declaration.
    pub fn duplicate(&self) -> (r: Self)
        ensures
            r@ == self@,
    {
        let mut types: Vec<LibType> = Vec::new();
        let mut i: usize = 0;
        while i < self.types.len()
            invariant
                i <= self.types@.len(),
                types@ == self.types@.subrange(0, i as int),
            decreases self.types@.len() - i,
        {
            types.push(self.types[i]);
            i = i + 1;
            assert(types@ =~= self.types@.subrange(0, i as int));
        }
        assert(types@ =~= self.types@);
        Library {
            name: self.name.clone(),
            path: self.path.clone(),
            out_name: clone_opt_string(&self.out_name),
            types,
            headers: self.headers,
        }
    }
}

/// A copy of an optional string.
pub fn clone_opt_string(o: &Option<String>) -> (r: Option<String>)
    ensures
        r.deep_view() == o.deep_view(),
{
    match o {
        Some(s) => Some(s.clone()),
        None => None,
    }
}

/// A copy of a list of strings.
pub fn clone_strings(v: &Vec<String>) -> (r: Vec<String>)
    ensures
        r.deep_view() == v.deep_view(),
{
    let mut r: Vec<String> = Vec::new();
    let mut i: usize = 0;
    while i < v.len()
        invariant
            i <= v@.len(),
            r@.len() == i,
            forall|k: int| 0 <= k < i ==> r@[k]@ == v@[k]@,
        decreases v@.len() - i,
    {
        r.push(v[i].clone());
        i = i + 1;
    }
    assert(r.deep_view() =~= v.deep_view());
    r
}

} // verus!
