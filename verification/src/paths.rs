//! Paths as the system reads them. What a path looks like differs from system to
//! system, so each answer of the system is kept together with the text that it was
//! asked about; nothing but the system's answer makes such a value.

use vstd::prelude::*;

verus! {

/// A path of a configuration, resolved against the configuration's directory.
#[derive(Debug, Clone, PartialEq, Eq)]
pub struct ResolvedPath {
    written: String,
    base: String,
    resolved: String,
}

impl ResolvedPath {
    /// The path as the configuration has it.
    pub closed spec fn written(self) -> Seq<char> {
        self.written@
    }

    /// The directory that it was resolved against.
    pub closed spec fn base(self) -> Seq<char> {
        self.base@
    }

    /// Where it leads.
    pub closed spec fn resolved(self) -> Seq<char> {
        self.resolved@
    }

    /// Where the path leads.
    pub fn as_str(&self) -> (r: &str)
        ensures
            r@ == self.resolved(),
    {
        self.resolved.as_str()
    }
}

/// Whether the system takes a path to be absolute.
#[derive(Debug)]
pub struct Absoluteness {
    path: String,
    absolute: bool,
}

impl Absoluteness {
    /// The path that was asked about.
    pub closed spec fn path(self) -> Seq<char> {
        self.path@
    }

    /// The answer.
    pub closed spec fn absolute(self) -> bool {
        self.absolute
    }

    /// The answer.
    pub fn holds(&self) -> (r: bool)
        ensures
            r == self.absolute(),
    {
        self.absolute
    }
}

/// What the system takes to be the last part of a path.
#[derive(Debug)]
pub struct LastPart {
    path: String,
    name: Option<String>,
}

impl LastPart {
    /// The path that was asked about.
    pub closed spec fn path(self) -> Seq<char> {
        self.path@
    }

    /// The answer: no part where the path has none, or one that is no text.
    pub closed spec fn name(self) -> Option<String> {
        self.name
    }

    /// The answer.
    pub fn get(&self) -> (r: Option<&str>)
        ensures
            r is Some <==> self.name() is Some,
            r matches Some(t) ==> t@ == self.name()->0@,
    {
        match &self.name {
            Some(name) => Some(name.as_str()),
            None => None,
        }
    }
}

/// `std::path::Path::join`: `written` itself where it is absolute, and else `written`
/// within the directory `base`. What is absolute and how the two are joined differs
/// from system to system, so that all that is claimed is which two texts were joined.
#[verifier::external_body]
pub(crate) fn join(base: &str, written: &str) -> (r: ResolvedPath)
    ensures
        r.base() == base@,
        r.written() == written@,
{
    ResolvedPath {
        written: written.to_owned(),
        base: base.to_owned(),
        resolved: std::path::Path::new(base).join(written).to_string_lossy().into_owned(),
    }
}

/// `std::path::Path::is_absolute`: whether a path does not depend on the current
/// directory. What such a path looks like differs from system to system, so that all
/// that is claimed is which path was asked about.
#[verifier::external_body]
pub(crate) fn is_absolute(path: &str) -> (r: Absoluteness)
    ensures
        r.path() == path@,
{
    Absoluteness { path: path.to_owned(), absolute: std::path::Path::new(path).is_absolute() }
}

/// `std::path::Path::file_name`: the last part of a path, where it has one that is
/// text. What parts a path has differs from system to system, so that all that is
/// claimed is which path was asked about.
#[verifier::external_body]
pub(crate) fn file_name(path: &str) -> (r: LastPart)
    ensures
        r.path() == path@,
{
    let name = std::path::Path::new(path).file_name().and_then(|name| name.to_str());
    LastPart { path: path.to_owned(), name: name.map(|s| s.to_owned()) }
}

} // verus!
