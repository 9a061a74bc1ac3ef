//! The records of the index: a package version as clients read it, the
//! metadata an author uploads with it, and the two together as stored.

use std::collections::HashMap;
use vstd::prelude::*;
use crate::time::Timestamp;

verus! {

/// What a dependency is needed for.
#[derive(Debug, Clone, Copy, PartialEq, Eq, Structural)]
pub enum DependencyKind {
    Dev,
    Build,
    Normal,
}

/// One dependency of a package version.
#[derive(Debug)]
pub struct Dependency {
    pub name: String,
    pub req: String,
    pub features: Vec<String>,
    pub optional: bool,
    pub default_features: bool,
    pub target: Option<String>,
    pub kind: DependencyKind,
    pub registry: Option<String>,
    pub package: Option<String>,
}

/// The mathematical value of a [`Dependency`].
pub struct DependencyView {
    pub name: Seq<char>,
    pub req: Seq<char>,
    pub features: Seq<Seq<char>>,
    pub optional: bool,
    pub default_features: bool,
    pub target: Option<Seq<char>>,
    pub kind: DependencyKind,
    pub registry: Option<Seq<char>>,
    pub package: Option<Seq<char>>,
}

impl View for Dependency {
    type V = DependencyView;

    open spec fn view(&self) -> DependencyView {
        DependencyView {
            name: self.name@,
            req: self.req@,
            features: self.features.deep_view(),
            optional: self.optional,
            default_features: self.default_features,
            target: self.target.deep_view(),
            kind: self.kind,
            registry: self.registry.deep_view(),
            package: self.package.deep_view(),
        }
    }
}

impl DeepView for Dependency {
    type V = DependencyView;

    open spec fn deep_view(&self) -> DependencyView {
        self@
    }
}

/// A copy of a list of strings, character for character.
pub fn clone_strings(list: &Vec<String>) -> (copy: Vec<String>)
    ensures
        copy.deep_view() == list.deep_view(),
{
    let mut copy: Vec<String> = Vec::new();
    let mut i: usize = 0;
    while i < list.len()
        invariant
            i <= list.len(),
            copy.len() == i,
            forall|k: int| 0 <= k < i ==> copy[k]@ == list[k]@,
        decreases list.len() - i,
    {
        copy.push(list[i].clone());
        i += 1;
    }
    assert(copy.deep_view() =~= list.deep_view());
    copy
}

/// A copy of an optional string.
pub fn clone_optional(text: &Option<String>) -> (copy: Option<String>)
    ensures
        copy.deep_view() == text.deep_view(),
{
    match text {
        Some(s) => Some(s.clone()),
        None => None,
    }
}

impl Clone for Dependency {
    fn clone(&self) -> (copy: Self)
        ensures
            copy@ == self@,
    {
        Dependency {
            name: self.name.clone(),
            req: self.req.clone(),
            features: clone_strings(&self.features),
            optional: self.optional,
            default_features: self.default_features,
            target: clone_optional(&self.target),
            kind: self.kind,
            registry: clone_optional(&self.registry),
            package: clone_optional(&self.package),
        }
    }
}

/// A copy of a list of dependencies.
pub fn clone_dependencies(list: &Vec<Dependency>) -> (copy: Vec<Dependency>)
    ensures
        copy.deep_view() == list.deep_view(),
{
    let mut copy: Vec<Dependency> = Vec::new();
    let mut i: usize = 0;
    while i < list.len()
        invariant
            i <= list.len(),
            copy.len() == i,
            forall|k: int| 0 <= k < i ==> copy[k]@ == list[k]@,
        decreases list.len() - i,
    {
        copy.push(list[i].clone());
        i += 1;
    }
    assert(copy.deep_view() =~= list.deep_view());
    copy
}

/// One version of a package, as the index hands it to clients.
#[derive(Debug)]
pub struct Package {
    pub name: String,
    pub vers: String,
    pub deps: Vec<Dependency>,
    pub cksum: String,
    pub features: HashMap<String, Vec<String>>,
    pub yanked: bool,
    pub links: Option<String>,
    pub v: Option<usize>,
    pub features2: Option<HashMap<String, Vec<String>>>,
}

/// The mathematical value of a [`Package`]. The two feature tables are
/// carried as the maps they are.
pub struct PackageView {
    pub name: Seq<char>,
    pub vers: Seq<char>,
    pub deps: Seq<DependencyView>,
    pub cksum: Seq<char>,
    pub features: Map<String, Vec<String>>,
    pub yanked: bool,
    pub links: Option<Seq<char>>,
    pub v: Option<usize>,
    pub features2: Option<Map<String, Vec<String>>>,
}

impl View for Package {
    type V = PackageView;

    open spec fn view(&self) -> PackageView {
        PackageView {
            name: self.name@,
            vers: self.vers@,
            deps: self.deps.deep_view(),
            cksum: self.cksum@,
            features: self.features@,
            yanked: self.yanked,
            links: self.links.deep_view(),
            v: self.v,
            features2: match self.features2 {
                Some(table) => Some(table@),
                None => None,
            },
        }
    }
}

impl DeepView for Package {
    type V = PackageView;

    open spec fn deep_view(&self) -> PackageView {
        self@
    }
}

impl Clone for Package {
    fn clone(&self) -> (copy: Self)
        ensures
            copy@ == self@,
    {
        Package {
            name: self.name.clone(),
            vers: self.vers.clone(),
            deps: clone_dependencies(&self.deps),
            cksum: self.cksum.clone(),
            features: self.features.clone(),
            yanked: self.yanked,
            links: clone_optional(&self.links),
            v: self.v,
            features2: match &self.features2 {
                Some(table) => Some(table.clone()),
                None => None,
            },
        }
    }
}

/// What an author uploads beside the archive.
#[derive(Debug)]
pub struct Metadata {
    pub name: String,
    pub vers: String,
    pub deps: Vec<Dependency>,
    pub features: HashMap<String, Vec<String>>,
    pub authors: Vec<String>,
    pub description: Option<String>,
    pub documentation: Option<String>,
    pub homepage: Option<String>,
    pub readme: Option<String>,
    pub readme_file: Option<String>,
    pub keywords: Vec<String>,
    pub categories: Vec<String>,
    pub license: Option<String>,
    pub license_file: Option<String>,
    pub repository: Option<String>,
    pub badges: HashMap<String, HashMap<String, String>>,
    pub links: Option<String>,
}

/// The mathematical value of a [`Metadata`].
pub struct MetadataView {
    pub name: Seq<char>,
    pub vers: Seq<char>,
    pub deps: Seq<DependencyView>,
    pub features: Map<String, Vec<String>>,
    pub authors: Seq<Seq<char>>,
    pub description: Option<Seq<char>>,
    pub documentation: Option<Seq<char>>,
    pub homepage: Option<Seq<char>>,
    pub readme: Option<Seq<char>>,
    pub readme_file: Option<Seq<char>>,
    pub keywords: Seq<Seq<char>>,
    pub categories: Seq<Seq<char>>,
    pub license: Option<Seq<char>>,
    pub license_file: Option<Seq<char>>,
    pub repository: Option<Seq<char>>,
    pub badges: Map<String, HashMap<String, String>>,
    pub links: Option<Seq<char>>,
}

impl View for Metadata {
    type V = MetadataView;

    open spec fn view(&self) -> MetadataView {
        MetadataView {
            name: self.name@,
            vers: self.vers@,
            deps: self.deps.deep_view(),
            features: self.features@,
            authors: self.authors.deep_view(),
            description: self.description.deep_view(),
            documentation: self.documentation.deep_view(),
            homepage: self.homepage.deep_view(),
            readme: self.readme.deep_view(),
            readme_file: self.readme_file.deep_view(),
            keywords: self.keywords.deep_view(),
            categories: self.categories.deep_view(),
            license: self.license.deep_view(),
            license_file: self.license_file.deep_view(),
            repository: self.repository.deep_view(),
            badges: self.badges@,
            links: self.links.deep_view(),
        }
    }
}

impl DeepView for Metadata {
    type V = MetadataView;

    open spec fn deep_view(&self) -> MetadataView {
        self@
    }
}

impl Clone for Metadata {
    fn clone(&self) -> (copy: Self)
        ensures
            copy@ == self@,
    {
        Metadata {
            name: self.name.clone(),
            vers: self.vers.clone(),
            deps: clone_dependencies(&self.deps),
            features: self.features.clone(),
            authors: clone_strings(&self.authors),
            description: clone_optional(&self.description),
            documentation: clone_optional(&self.documentation),
            homepage: clone_optional(&self.homepage),
            readme: clone_optional(&self.readme),
            readme_file: clone_optional(&self.readme_file),
            keywords: clone_strings(&self.keywords),
            categories: clone_strings(&self.categories),
            license: clone_optional(&self.license),
            license_file: clone_optional(&self.license_file),
            repository: clone_optional(&self.repository),
            badges: self.badges.clone(),
            links: clone_optional(&self.links),
        }
    }
}

/// The index record that an upload with this metadata and checksum gives:
/// never yanked, and of the second schema.
pub open spec fn package_of(meta: MetadataView, cksum: Seq<char>) -> PackageView {
    PackageView {
        name: meta.name,
        vers: meta.vers,
        deps: meta.deps,
        cksum: cksum,
        features: meta.features,
        yanked: false,
        links: meta.links,
        v: Some(2usize),
        features2: None,
    }
}

impl Metadata {
    /// The index record for this upload, with the checksum of its archive.
    pub fn to_package(&self, cksum: String) -> (pkg: Package)
        ensures
            pkg@ == package_of(self@, cksum@),
    {
        Package {
            name: self.name.clone(),
            vers: self.vers.clone(),
            deps: clone_dependencies(&self.deps),
            cksum,
            features: self.features.clone(),
            yanked: false,
            links: clone_optional(&self.links),
            v: Some(2),
            features2: None,
        }
    }
}

/// A package version as the store keeps it. A mirrored version has neither
/// metadata nor a time of upload.
#[derive(Debug)]
pub struct UploadedPackage {
    pub pkg: Package,
    pub upload_meta: Option<Metadata>,
    pub upload_timestamp: Option<Timestamp>,
}

/// The mathematical value of an [`UploadedPackage`].
pub struct UploadedPackageView {
    pub pkg: PackageView,
    pub upload_meta: Option<MetadataView>,
    pub upload_timestamp: Option<Timestamp>,
}

impl View for UploadedPackage {
    type V = UploadedPackageView;

    open spec fn view(&self) -> UploadedPackageView {
        UploadedPackageView {
            pkg: self.pkg@,
            upload_meta: self.upload_meta.deep_view(),
            upload_timestamp: self.upload_timestamp,
        }
    }
}

impl DeepView for UploadedPackage {
    type V = UploadedPackageView;

    open spec fn deep_view(&self) -> UploadedPackageView {
        self@
    }
}

impl Clone for UploadedPackage {
    fn clone(&self) -> (copy: Self)
        ensures
            copy@ == self@,
    {
        UploadedPackage {
            pkg: self.pkg.clone(),
            upload_meta: match &self.upload_meta {
                Some(meta) => Some(meta.clone()),
                None => None,
            },
            upload_timestamp: self.upload_timestamp,
        }
    }
}

} // verus!
