//! What can go wrong with a manifest. Every error ends the query that met it
//! and is handed to the caller as it is.

use vstd::prelude::*;
use crate::deploy_config::RouteError;
use crate::text::clone_texts;

verus! {

/// An environment was asked for that the manifest cannot give.
#[derive(Clone, Copy, Debug, PartialEq, Eq, Structural)]
pub enum LookupError {
    /// The manifest has environments, but none under the name asked for.
    UnknownEnvironment,
    /// The manifest has no environment at all.
    NoEnvironmentsDefined,
}

/// Worker names that the manifest gives out more than once, each listed once.
#[derive(Debug, PartialEq, Eq)]
pub struct NameConflictError {
    pub duplicates: Vec<String>,
}

impl DeepView for NameConflictError {
    type V = Seq<Seq<char>>;

    open spec fn deep_view(&self) -> Seq<Seq<char>> {
        self.duplicates.deep_view()
    }
}

impl View for NameConflictError {
    type V = Seq<Seq<char>>;

    open spec fn view(&self) -> Seq<Seq<char>> {
        self.deep_view()
    }
}

impl Clone for NameConflictError {
    fn clone(&self) -> (r: Self)
        ensures
            r@ == self@,
    {
        NameConflictError { duplicates: clone_texts(&self.duplicates) }
    }
}

/// Why a manifest has no deployment for an environment.
#[derive(Debug, PartialEq, Eq)]
pub enum DeployError {
    /// The worker name, carried here, is not a valid one.
    InvalidName(String),
    Lookup(LookupError),
    Route(RouteError),
}

pub enum DeployErrorView {
    InvalidName(Seq<char>),
    Lookup(LookupError),
    Route(RouteError),
}

impl DeepView for DeployError {
    type V = DeployErrorView;

    open spec fn deep_view(&self) -> DeployErrorView {
        match self {
            DeployError::InvalidName(n) => DeployErrorView::InvalidName(n@),
            DeployError::Lookup(e) => DeployErrorView::Lookup(*e),
            DeployError::Route(e) => DeployErrorView::Route(*e),
        }
    }
}

impl View for DeployError {
    type V = DeployErrorView;

    open spec fn view(&self) -> DeployErrorView {
        self.deep_view()
    }
}

impl Clone for DeployError {
    fn clone(&self) -> (r: Self)
        ensures
            r@ == self@,
    {
        match self {
            DeployError::InvalidName(n) => DeployError::InvalidName(n.clone()),
            DeployError::Lookup(e) => DeployError::Lookup(*e),
            DeployError::Route(e) => DeployError::Route(*e),
        }
    }
}

} // verus!

verus! {

/// A field of a document, named by its key. The bucket is that of the
/// site or of a namespace, whichever was being read.
#[derive(Clone, Copy, Debug, PartialEq, Eq, Structural)]
pub enum Field {
    /// The document as a whole.
    Document,
    Name,
    Type,
    AccountId,
    WorkersDev,
    Route,
    Routes,
    ZoneId,
    WebpackConfig,
    Private,
    Site,
    Bucket,
    EntryPoint,
    KvNamespaces,
    Id,
    Binding,
    Env,
}

/// What is wrong with a field.
#[derive(Clone, Copy, Debug, PartialEq, Eq, Structural)]
pub enum Reason {
    /// The field is needed and not there.
    Missing,
    /// The field holds a value of another kind than it takes, or a word
    /// that it does not know.
    WrongKind,
}

/// Why a document is not a manifest.
#[derive(Clone, Copy, Debug, PartialEq, Eq, Structural)]
pub enum FormatError {
    /// The field named here cannot be read, for the reason given.
    Malformed(Field, Reason),
    /// An environment cannot be read: its field named here, for the reason
    /// given. The environments have no order, so of several faults the
    /// one is given whose field comes first in the list of fields, a
    /// missing field before one of the wrong kind.
    MalformedEnvironment(Field, Reason),
    /// A section that takes known fields only holds another one.
    UnknownField,
    /// The namespaces stand inside the site section; their place is the
    /// level above it.
    MisplacedKvNamespaces,
}

/// Why a document gives no manifest to work with.
#[derive(Debug, PartialEq, Eq)]
pub enum ManifestError {
    Format(FormatError),
    NameConflict(NameConflictError),
}

} // verus!
