//! Imports.
use crate::ast::common::{Identifier, identifier_view, IdentifierView};
use crate::span::Span;
use vstd::prelude::*;

verus! {

/// An imported name with its optional alias.
#[derive(Debug, PartialEq, Eq)]
pub struct ImportSymbol {
    pub symbol: Identifier,
    pub alias: Option<Identifier>,
    pub span: Span,
}

/// What is taken from a package.
#[derive(Debug, PartialEq, Eq)]
pub enum PackageAccess {
    Star(Span),
    SubPackage(Box<Package>),
    Symbol(ImportSymbol),
    Multiple(Vec<PackageAccess>),
}

/// A package with one access.
#[derive(Debug, PartialEq, Eq)]
pub struct Package {
    pub name: Identifier,
    pub access: PackageAccess,
    pub span: Span,
}

/// A package with several accesses.
#[derive(Debug, PartialEq, Eq)]
pub struct Packages {
    pub name: Identifier,
    pub accesses: Vec<PackageAccess>,
    pub span: Span,
}

/// The package of an import, with one access or several.
#[derive(Debug, PartialEq, Eq)]
pub enum PackageOrPackages {
    Package(Package),
    Packages(Packages),
}

/// An import.
#[derive(Debug, PartialEq, Eq)]
pub struct ImportStatement {
    pub package_or_packages: PackageOrPackages,
    pub span: Span,
}

/// What an `ImportSymbol` is, with texts and lists as sequences.
pub struct ImportSymbolView {
    pub symbol: IdentifierView,
    pub alias: Option<IdentifierView>,
    pub span: Span,
}

/// What a `PackageAccess` is, with texts and lists as sequences.
pub enum PackageAccessView {
    Star(Span),
    SubPackage(Box<PackageView>),
    Symbol(ImportSymbolView),
    Multiple(Seq<PackageAccessView>),
}

/// What a `Package` is, with texts and lists as sequences.
pub struct PackageView {
    pub name: IdentifierView,
    pub access: PackageAccessView,
    pub span: Span,
}

/// What a `Packages` is, with texts and lists as sequences.
pub struct PackagesView {
    pub name: IdentifierView,
    pub accesses: Seq<PackageAccessView>,
    pub span: Span,
}

/// What a `PackageOrPackages` is, with texts and lists as sequences.
pub enum PackageOrPackagesView {
    Package(PackageView),
    Packages(PackagesView),
}

/// What an `ImportStatement` is, with texts and lists as sequences.
pub struct ImportStatementView {
    pub package_or_packages: PackageOrPackagesView,
    pub span: Span,
}

pub open spec fn import_symbol_view(x: ImportSymbol) -> ImportSymbolView
    decreases x,
{
    ImportSymbolView {
        symbol: identifier_view(x.symbol),
        alias: match x.alias { Some(v) => Some(identifier_view(v)), None => None },
        span: x.span,
    }
}

impl View for ImportSymbol {
    type V = ImportSymbolView;

    open spec fn view(&self) -> ImportSymbolView {
        import_symbol_view(*self)
    }
}

pub open spec fn package_access_view(x: PackageAccess) -> PackageAccessView
    decreases x,
{
    match x {
        PackageAccess::Star(f0) => PackageAccessView::Star(f0),
        PackageAccess::SubPackage(f0) => PackageAccessView::SubPackage(Box::new(package_view(*f0))),
        PackageAccess::Symbol(f0) => PackageAccessView::Symbol(import_symbol_view(f0)),
        PackageAccess::Multiple(f0) => PackageAccessView::Multiple(package_access_seq_view(f0@)),
    }
}

pub open spec fn package_access_seq_view(s: Seq<PackageAccess>) -> Seq<PackageAccessView>
    decreases s,
{
    Seq::new(
        s.len(),
        |i: int|
            if 0 <= i < s.len() {
                package_access_view(s[i])
            } else {
                arbitrary()
            },
    )
}

impl View for PackageAccess {
    type V = PackageAccessView;

    open spec fn view(&self) -> PackageAccessView {
        package_access_view(*self)
    }
}

pub open spec fn package_view(x: Package) -> PackageView
    decreases x,
{
    PackageView {
        name: identifier_view(x.name),
        access: package_access_view(x.access),
        span: x.span,
    }
}

impl View for Package {
    type V = PackageView;

    open spec fn view(&self) -> PackageView {
        package_view(*self)
    }
}

pub open spec fn packages_view(x: Packages) -> PackagesView
    decreases x,
{
    PackagesView {
        name: identifier_view(x.name),
        accesses: package_access_seq_view(x.accesses@),
        span: x.span,
    }
}

impl View for Packages {
    type V = PackagesView;

    open spec fn view(&self) -> PackagesView {
        packages_view(*self)
    }
}

pub open spec fn package_or_packages_view(x: PackageOrPackages) -> PackageOrPackagesView
    decreases x,
{
    match x {
        PackageOrPackages::Package(f0) => PackageOrPackagesView::Package(package_view(f0)),
        PackageOrPackages::Packages(f0) => PackageOrPackagesView::Packages(packages_view(f0)),
    }
}

impl View for PackageOrPackages {
    type V = PackageOrPackagesView;

    open spec fn view(&self) -> PackageOrPackagesView {
        package_or_packages_view(*self)
    }
}

pub open spec fn import_statement_view(x: ImportStatement) -> ImportStatementView
    decreases x,
{
    ImportStatementView {
        package_or_packages: package_or_packages_view(x.package_or_packages),
        span: x.span,
    }
}

pub open spec fn import_statement_seq_view(s: Seq<ImportStatement>) -> Seq<ImportStatementView>
    decreases s,
{
    Seq::new(
        s.len(),
        |i: int|
            if 0 <= i < s.len() {
                import_statement_view(s[i])
            } else {
                arbitrary()
            },
    )
}

impl View for ImportStatement {
    type V = ImportStatementView;

    open spec fn view(&self) -> ImportStatementView {
        import_statement_view(*self)
    }
}

impl Clone for ImportSymbol {
    fn clone(&self) -> (r: ImportSymbol)
        ensures
            r@ == self@,
        decreases self,
    {
        ImportSymbol {
            symbol: self.symbol.clone(),
            alias: match &self.alias { Some(v) => Some(v.clone()), None => None },
            span: self.span,
        }
    }
}

impl Clone for PackageAccess {
    fn clone(&self) -> (r: PackageAccess)
        ensures
            r@ == self@,
        decreases self,
    {
        match self {
            PackageAccess::Star(f0) => PackageAccess::Star(*f0),
            PackageAccess::SubPackage(f0) => PackageAccess::SubPackage(Box::new((&**f0).clone())),
            PackageAccess::Symbol(f0) => PackageAccess::Symbol(f0.clone()),
            PackageAccess::Multiple(f0) => PackageAccess::Multiple(clone_package_access_seq(f0)),
        }
    }
}

/// A copy of a list.
pub fn clone_package_access_seq(items: &Vec<PackageAccess>) -> (r: Vec<PackageAccess>)
    ensures
        package_access_seq_view(r@) == package_access_seq_view(items@),
    decreases items,
{
    let mut out: Vec<PackageAccess> = Vec::new();
    let mut i: usize = 0;
    while i < items.len()
        invariant
            i <= items.len(),
            package_access_seq_view(out@) =~= package_access_seq_view(items@).take(i as int),
        decreases items.len() - i,
    {
        let ghost before = package_access_seq_view(out@);
        let item = items[i].clone();
        out.push(item);
        assert(package_access_seq_view(out@) =~= before.push(item@));
        assert(package_access_seq_view(items@).take(i + 1) =~=
            package_access_seq_view(items@).take(i as int).push(
            items[i as int]@,
        ));
        i = i + 1;
    }
    assert(package_access_seq_view(items@).take(i as int) =~= package_access_seq_view(items@));
    out
}

impl Clone for Package {
    fn clone(&self) -> (r: Package)
        ensures
            r@ == self@,
        decreases self,
    {
        Package {
            name: self.name.clone(),
            access: self.access.clone(),
            span: self.span,
        }
    }
}

impl Clone for Packages {
    fn clone(&self) -> (r: Packages)
        ensures
            r@ == self@,
        decreases self,
    {
        Packages {
            name: self.name.clone(),
            accesses: clone_package_access_seq(&self.accesses),
            span: self.span,
        }
    }
}

impl Clone for PackageOrPackages {
    fn clone(&self) -> (r: PackageOrPackages)
        ensures
            r@ == self@,
        decreases self,
    {
        match self {
            PackageOrPackages::Package(f0) => PackageOrPackages::Package(f0.clone()),
            PackageOrPackages::Packages(f0) => PackageOrPackages::Packages(f0.clone()),
        }
    }
}

impl Clone for ImportStatement {
    fn clone(&self) -> (r: ImportStatement)
        ensures
            r@ == self@,
        decreases self,
    {
        ImportStatement {
            package_or_packages: self.package_or_packages.clone(),
            span: self.span,
        }
    }
}

/// A copy of a list.
pub fn clone_import_statement_seq(items: &Vec<ImportStatement>) -> (r: Vec<ImportStatement>)
    ensures
        import_statement_seq_view(r@) == import_statement_seq_view(items@),
    decreases items,
{
    let mut out: Vec<ImportStatement> = Vec::new();
    let mut i: usize = 0;
    while i < items.len()
        invariant
            i <= items.len(),
            import_statement_seq_view(out@) =~= import_statement_seq_view(items@).take(i as int),
        decreases items.len() - i,
    {
        let ghost before = import_statement_seq_view(out@);
        let item = items[i].clone();
        out.push(item);
        assert(import_statement_seq_view(out@) =~= before.push(item@));
        assert(import_statement_seq_view(items@).take(i + 1) =~=
            import_statement_seq_view(items@).take(i as int).push(
            items[i as int]@,
        ));
        i = i + 1;
    }
    assert(import_statement_seq_view(items@).take(i as int) =~= import_statement_seq_view(items@));
    out
}

} // verus!
