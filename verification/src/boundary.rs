//! Module boundary information: what a module crossing marks (a server
//! component, a client reference, ...), the original source path where it
//! matters, and the chunking the crossing asks for.

use vstd::prelude::*;

use crate::boundary_types::{
    boundary_type_client_reference, boundary_type_css_client_reference,
    spec_client_reference, spec_css_client_reference, CssClientReferenceBoundary,
    EcmascriptClientReferenceBoundary,
};
use crate::text::opt_view;

verus! {

/// The chunking a boundary asks for in place of the reference's own.
#[derive(Debug, Clone)]
pub enum ChunkingType {
    /// Put the module into a shared chunk group, inheriting async-ness from
    /// the parent when `inherit_async`, merged with the groups of the same tag.
    Shared { inherit_async: bool, merge_tag: Option<String> },
}

pub enum ChunkingTypeView {
    Shared { inherit_async: bool, merge_tag: Option<Seq<char>> },
}

impl View for ChunkingType {
    type V = ChunkingTypeView;

    open spec fn view(&self) -> ChunkingTypeView {
        match self {
            ChunkingType::Shared { inherit_async, merge_tag } => ChunkingTypeView::Shared {
                inherit_async: *inherit_async,
                merge_tag: opt_view(*merge_tag),
            },
        }
    }
}

impl ChunkingType {
    /// A copy of this chunking type.
    pub fn duplicate(&self) -> (c: Self)
        ensures
            c@ == self@,
    {
        match self {
            ChunkingType::Shared { inherit_async, merge_tag } => ChunkingType::Shared {
                inherit_async: *inherit_async,
                merge_tag: merge_tag.clone(),
            },
        }
    }
}

pub open spec fn opt_chunking_view(o: Option<ChunkingType>) -> Option<ChunkingTypeView> {
    match o {
        Some(c) => Some(c@),
        None => None,
    }
}

/// Optional file system path.
#[derive(Debug, Clone)]
pub struct OptionFileSystemPath(pub Option<String>);

/// Optional chunking type.
#[derive(Debug, Clone)]
pub struct OptionChunkingType(pub Option<ChunkingType>);

/// Optional boundary info.
#[derive(Debug, Clone)]
pub struct OptionBoundaryInfo(pub Option<BoundaryInfo>);

/// Simple boundary info for boundaries that only need a type, an optional
/// source path and an optional chunking type.
#[derive(Debug, Clone)]
pub struct SimpleBoundary {
    pub boundary_type: String,
    pub source_path: Option<String>,
    pub chunking_type: Option<ChunkingType>,
}

pub struct SimpleBoundaryView {
    pub boundary_type: Seq<char>,
    pub source_path: Option<Seq<char>>,
    pub chunking_type: Option<ChunkingTypeView>,
}

impl View for SimpleBoundary {
    type V = SimpleBoundaryView;

    open spec fn view(&self) -> SimpleBoundaryView {
        SimpleBoundaryView {
            boundary_type: self.boundary_type@,
            source_path: opt_view(self.source_path),
            chunking_type: opt_chunking_view(self.chunking_type),
        }
    }
}

impl SimpleBoundary {
    /// A boundary of the given type, without source path or chunking type.
    pub fn new(boundary_type: String) -> (b: Self)
        ensures
            b@ == (SimpleBoundaryView {
                boundary_type: boundary_type@,
                source_path: None,
                chunking_type: None,
            }),
    {
        Self { boundary_type, source_path: None, chunking_type: None }
    }

    /// A boundary of the given type and source path.
    pub fn with_source_path(boundary_type: String, source_path: String) -> (b: Self)
        ensures
            b@ == (SimpleBoundaryView {
                boundary_type: boundary_type@,
                source_path: Some(source_path@),
                chunking_type: None,
            }),
    {
        Self { boundary_type, source_path: Some(source_path), chunking_type: None }
    }

    /// A boundary of the given type, source path and chunking type.
    pub fn with_source_path_and_chunking(
        boundary_type: String,
        source_path: String,
        chunking_type: ChunkingType,
    ) -> (b: Self)
        ensures
            b@ == (SimpleBoundaryView {
                boundary_type: boundary_type@,
                source_path: Some(source_path@),
                chunking_type: Some(chunking_type@),
            }),
    {
        Self { boundary_type, source_path: Some(source_path), chunking_type: Some(chunking_type) }
    }

    /// A boundary of the given type and chunking type, without source path.
    pub fn with_chunking(boundary_type: String, chunking_type: ChunkingType) -> (b: Self)
        ensures
            b@ == (SimpleBoundaryView {
                boundary_type: boundary_type@,
                source_path: None,
                chunking_type: Some(chunking_type@),
            }),
    {
        Self { boundary_type, source_path: None, chunking_type: Some(chunking_type) }
    }
}

/// The metadata of a module crossing: one of the boundary kinds below.
#[derive(Debug, Clone)]
pub enum BoundaryInfo {
    Simple(SimpleBoundary),
    EcmascriptClientReference(EcmascriptClientReferenceBoundary),
    CssClientReference(CssClientReferenceBoundary),
}

pub enum BoundaryInfoView {
    Simple(SimpleBoundaryView),
    EcmascriptClientReference(EcmascriptClientReferenceBoundary),
    CssClientReference(CssClientReferenceBoundary),
}

impl View for BoundaryInfo {
    type V = BoundaryInfoView;

    open spec fn view(&self) -> BoundaryInfoView {
        match self {
            BoundaryInfo::Simple(b) => BoundaryInfoView::Simple(b@),
            BoundaryInfo::EcmascriptClientReference(b) => BoundaryInfoView::EcmascriptClientReference(*b),
            BoundaryInfo::CssClientReference(b) => BoundaryInfoView::CssClientReference(*b),
        }
    }
}

impl BoundaryInfoView {
    /// The type of boundary being crossed.
    pub open spec fn boundary_type(self) -> Seq<char> {
        match self {
            BoundaryInfoView::Simple(b) => b.boundary_type,
            BoundaryInfoView::EcmascriptClientReference(_) => spec_client_reference(),
            BoundaryInfoView::CssClientReference(_) => spec_css_client_reference(),
        }
    }

    /// The original source path before any transformation, if recorded.
    pub open spec fn source_path(self) -> Option<Seq<char>> {
        match self {
            BoundaryInfoView::Simple(b) => b.source_path,
            _ => None,
        }
    }

    /// The chunking type that overrides the reference's, if any.
    pub open spec fn chunking_type(self) -> Option<ChunkingTypeView> {
        match self {
            BoundaryInfoView::Simple(b) => b.chunking_type,
            _ => None,
        }
    }
}

impl BoundaryInfo {
    /// The type of boundary being crossed (e.g. "server-component",
    /// "client-reference").
    pub fn boundary_type(&self) -> (s: String)
        ensures
            s@ == self@.boundary_type(),
    {
        match self {
            BoundaryInfo::Simple(b) => b.boundary_type.clone(),
            BoundaryInfo::EcmascriptClientReference(_) => boundary_type_client_reference(),
            BoundaryInfo::CssClientReference(_) => boundary_type_css_client_reference(),
        }
    }

    /// Original source path before any transformation (e.g. before
    /// MDX -> MDX.tsx), for the boundaries that record it.
    pub fn source_path(&self) -> (p: OptionFileSystemPath)
        ensures
            opt_view(p.0) == self@.source_path(),
    {
        match self {
            BoundaryInfo::Simple(b) => OptionFileSystemPath(b.source_path.clone()),
            _ => OptionFileSystemPath(None),
        }
    }

    /// The chunking type applied to modules that cross this boundary, in
    /// place of the reference's chunking type, if any.
    pub fn chunking_type(&self) -> (c: OptionChunkingType)
        ensures
            opt_chunking_view(c.0) == self@.chunking_type(),
    {
        match self {
            BoundaryInfo::Simple(b) => OptionChunkingType(
                match &b.chunking_type {
                    Some(c) => Some(c.duplicate()),
                    None => None,
                },
            ),
            _ => OptionChunkingType(None),
        }
    }
}

} // verus!
