//! Transitions that mark modules with boundaries: server components, server
//! utilities ('use server') and dynamic import entries (next/dynamic).
//!
//! Instead of wrapping a module in a marker type, a transition attaches
//! boundary metadata to the result of processing the module.

use vstd::prelude::*;

use crate::boundary::{
    BoundaryInfo, BoundaryInfoView, ChunkingType, ChunkingTypeView, SimpleBoundary,
    SimpleBoundaryView,
};
use crate::boundary_types::{
    boundary_type_dynamic_entry, boundary_type_server_component, boundary_type_server_utility,
    server_utility_merge_tag, spec_dynamic_entry, spec_server_component, spec_server_utility,
    spec_server_utility_merge_tag,
};
use crate::worker_type::ReferenceType;

verus! {

/// The result of processing a source into a module.
#[derive(Debug, Clone)]
pub enum ProcessResult {
    /// A module, with the boundary it crosses, if any.
    Module { module: u64, boundary: Option<BoundaryInfo> },
    /// The source could not be processed.
    Unknown(u64),
    /// The source is ignored.
    Ignore,
}

pub enum ProcessResultView {
    Module { module: u64, boundary: Option<BoundaryInfoView> },
    Unknown(u64),
    Ignore,
}

pub open spec fn opt_boundary_view(b: Option<BoundaryInfo>) -> Option<BoundaryInfoView> {
    match b {
        Some(b) => Some(b@),
        None => None,
    }
}

impl View for ProcessResult {
    type V = ProcessResultView;

    open spec fn view(&self) -> ProcessResultView {
        match self {
            ProcessResult::Module { module, boundary } => ProcessResultView::Module {
                module: *module,
                boundary: opt_boundary_view(*boundary),
            },
            ProcessResult::Unknown(s) => ProcessResultView::Unknown(*s),
            ProcessResult::Ignore => ProcessResultView::Ignore,
        }
    }
}

/// Keeps a module's own boundary, or marks it with `fallback` when it has none.
pub open spec fn spec_mark(r: ProcessResultView, fallback: BoundaryInfoView) -> ProcessResultView {
    match r {
        ProcessResultView::Module { module, boundary } => ProcessResultView::Module {
            module,
            boundary: match boundary {
                Some(b) => Some(b),
                None => Some(fallback),
            },
        },
        _ => r,
    }
}

/// The boundary of a server component whose original source path is `path`.
pub open spec fn server_component_boundary(path: Seq<char>) -> BoundaryInfoView {
    BoundaryInfoView::Simple(
        SimpleBoundaryView {
            boundary_type: spec_server_component(),
            source_path: Some(path),
            chunking_type: None,
        },
    )
}

/// The boundary of a server utility: shared chunking that inherits
/// async-ness, merged under the server utility tag.
pub open spec fn server_utility_boundary() -> BoundaryInfoView {
    BoundaryInfoView::Simple(
        SimpleBoundaryView {
            boundary_type: spec_server_utility(),
            source_path: None,
            chunking_type: Some(
                ChunkingTypeView::Shared {
                    inherit_async: true,
                    merge_tag: Some(spec_server_utility_merge_tag()),
                },
            ),
        },
    )
}

/// The boundary of a dynamic import entry.
pub open spec fn dynamic_entry_boundary() -> BoundaryInfoView {
    BoundaryInfoView::Simple(
        SimpleBoundaryView {
            boundary_type: spec_dynamic_entry(),
            source_path: None,
            chunking_type: None,
        },
    )
}

fn mark(r: ProcessResult, fallback: BoundaryInfo) -> (m: ProcessResult)
    ensures
        m@ == spec_mark(r@, fallback@),
{
    match r {
        ProcessResult::Module { module, boundary } => ProcessResult::Module {
            module,
            boundary: match boundary {
                Some(b) => Some(b),
                None => Some(fallback),
            },
        },
        ProcessResult::Unknown(s) => ProcessResult::Unknown(s),
        ProcessResult::Ignore => ProcessResult::Ignore,
    }
}

/// Marks a module as a server component boundary.
///
/// When walking the module graph to build the client reference manifest,
/// this determines under which server component CSS client references are
/// required.
#[derive(Debug, Clone, Copy)]
pub struct NextServerComponentTransition {}

impl NextServerComponentTransition {
    pub fn new() -> (t: Self) {
        NextServerComponentTransition {  }
    }

    /// The result of the transition, given what the module context made of
    /// the source and the source's path before any transformation: a module
    /// keeps its boundary, or gets a server component boundary that records
    /// the original path (MDX pages become `page.mdx.tsx`, but manifest keys
    /// use `page.mdx`); other results pass through.
    pub fn process_result(&self, inner: ProcessResult, source_path: String) -> (r: ProcessResult)
        ensures
            r@ == spec_mark(inner@, server_component_boundary(source_path@)),
    {
        let boundary = BoundaryInfo::Simple(
            SimpleBoundary::with_source_path(boundary_type_server_component(), source_path),
        );
        mark(inner, boundary)
    }
}

/// Marks a module as a server utility boundary ('use server').
#[derive(Debug, Clone, Copy)]
pub struct NextServerUtilityTransition {}

impl NextServerUtilityTransition {
    pub fn new() -> (t: Self) {
        NextServerUtilityTransition {  }
    }

    /// The result of the transition, given what the module context made of
    /// the source: a module keeps its boundary, or gets a server utility
    /// boundary with shared chunking; other results pass through.
    pub fn process_result(&self, inner: ProcessResult) -> (r: ProcessResult)
        ensures
            r@ == spec_mark(inner@, server_utility_boundary()),
    {
        let chunking = ChunkingType::Shared {
            inherit_async: true,
            merge_tag: Some(server_utility_merge_tag()),
        };
        let boundary = BoundaryInfo::Simple(
            SimpleBoundary::with_chunking(boundary_type_server_utility(), chunking),
        );
        mark(inner, boundary)
    }
}

/// Where the dynamic transition sends a source.
#[derive(Debug, Clone, Copy, PartialEq, Eq)]
pub enum ProcessTarget {
    /// Process through the client transition of this id.
    ClientTransition(u64),
    /// Process in the module asset context of the transition.
    ModuleAssetContext,
}

/// Why the dynamic transition failed.
#[derive(Debug, Clone, Copy, PartialEq, Eq)]
pub enum DynamicTransitionError {
    /// The processed module is not an ecmascript module.
    NotEcmascriptModule,
}

impl DynamicTransitionError {
    pub fn message(&self) -> (s: String)
        ensures
            s@ == "not an ecmascript module"@,
    {
        String::from_str("not an ecmascript module")
    }
}

/// Marks a module as a dynamic import entry, and optionally applies another
/// transition (i.e. to the client context) first.
#[derive(Debug, Clone, Copy)]
pub struct NextDynamicTransition {
    pub client_transition: Option<u64>,
}

/// The dynamic transition's result, given what processing made of the
/// source and whether the module is an ecmascript module: a module is
/// marked as a dynamic entry (overriding any boundary it had), unknown and
/// ignored sources are ignored.
pub open spec fn spec_dynamic_result(inner: ProcessResultView, is_ecmascript: bool) -> Result<
    ProcessResultView,
    DynamicTransitionError,
> {
    match inner {
        ProcessResultView::Module { module, .. } => if is_ecmascript {
            Ok(ProcessResultView::Module { module, boundary: Some(dynamic_entry_boundary()) })
        } else {
            Err(DynamicTransitionError::NotEcmascriptModule)
        },
        _ => Ok(ProcessResultView::Ignore),
    }
}

impl NextDynamicTransition {
    /// A transition that only marks the module with a dynamic entry boundary.
    pub fn new_marker() -> (t: Self)
        ensures
            t.client_transition is None,
    {
        NextDynamicTransition { client_transition: None }
    }

    /// A transition that applies `client_transition` and marks the module
    /// with a dynamic entry boundary.
    pub fn new_client(client_transition: u64) -> (t: Self)
        ensures
            t.client_transition == Some(client_transition),
    {
        NextDynamicTransition { client_transition: Some(client_transition) }
    }

    /// Where the source is processed, and with which reference type.
    pub fn process_target(&self) -> (r: (ProcessTarget, ReferenceType))
        ensures
            r.1 == ReferenceType::Undefined,
            r.0 == match self.client_transition {
                Some(c) => ProcessTarget::ClientTransition(c),
                None => ProcessTarget::ModuleAssetContext,
            },
    {
        match self.client_transition {
            Some(c) => (ProcessTarget::ClientTransition(c), ReferenceType::Undefined),
            None => (ProcessTarget::ModuleAssetContext, ReferenceType::Undefined),
        }
    }

    /// The result of the transition (see [`spec_dynamic_result`]).
    pub fn process_result(&self, inner: ProcessResult, is_ecmascript: bool) -> (r: Result<
        ProcessResult,
        DynamicTransitionError,
    >)
        ensures
            match (r, spec_dynamic_result(inner@, is_ecmascript)) {
                (Ok(a), Ok(b)) => a@ == b,
                (Err(a), Err(b)) => a == b,
                _ => false,
            },
    {
        match inner {
            ProcessResult::Module { module, .. } => {
                if !is_ecmascript {
                    return Err(DynamicTransitionError::NotEcmascriptModule);
                }
                let boundary = BoundaryInfo::Simple(
                    SimpleBoundary::new(boundary_type_dynamic_entry()),
                );
                Ok(ProcessResult::Module { module, boundary: Some(boundary) })
            },
            _ => Ok(ProcessResult::Ignore),
        }
    }
}

/// Marking keeps the module and never removes a boundary: a module that had
/// a boundary keeps it, one that had none gets the fallback, and results
/// that are not modules pass through unchanged.
pub proof fn lemma_mark_preserves(r: ProcessResultView, fallback: BoundaryInfoView)
    ensures
        r matches ProcessResultView::Module { module, boundary } ==> spec_mark(r, fallback)
            == (ProcessResultView::Module {
            module,
            boundary: Some(
                match boundary {
                    Some(b) => b,
                    None => fallback,
                },
            ),
        }),
        !(r is Module) ==> spec_mark(r, fallback) == r,
{
}

/// Passing a result through a marking transition twice is the same as
/// passing it once, whatever boundary the second pass would add.
pub proof fn lemma_mark_idempotent(
    r: ProcessResultView,
    first: BoundaryInfoView,
    second: BoundaryInfoView,
)
    ensures
        spec_mark(spec_mark(r, first), second) == spec_mark(r, first),
{
}

/// The dynamic transition never yields an unknown result, and every module
/// it yields is marked as a dynamic entry, whatever boundary it had.
pub proof fn lemma_dynamic_marks_every_module(inner: ProcessResultView, is_ecmascript: bool)
    ensures
        spec_dynamic_result(inner, is_ecmascript) matches Ok(r) ==> !(r is Unknown),
        spec_dynamic_result(inner, is_ecmascript) matches Ok(
            ProcessResultView::Module { boundary, .. },
        ) ==> boundary == Some(dynamic_entry_boundary())
            && boundary->0.boundary_type() == spec_dynamic_entry(),
        inner is Module && is_ecmascript ==> spec_dynamic_result(inner, is_ecmascript) is Ok,
{
}

/// The dynamic transition ignores every result that is not a module, and
/// fails only on a module that is not an ecmascript module.
pub proof fn lemma_dynamic_ignores_non_modules(inner: ProcessResultView, is_ecmascript: bool)
    ensures
        !(inner is Module) ==> spec_dynamic_result(inner, is_ecmascript) == Ok::<
            ProcessResultView,
            DynamicTransitionError,
        >(ProcessResultView::Ignore),
        spec_dynamic_result(inner, is_ecmascript) is Err <==> (inner is Module && !is_ecmascript),
{
}

/// A module without boundary that passes the server component transition is
/// marked "server-component" with the original source path, and without a
/// chunking override: the reference keeps its own chunking.
pub proof fn lemma_server_component_marks(module: u64, path: Seq<char>)
    ensures
        spec_mark(
            ProcessResultView::Module { module, boundary: None },
            server_component_boundary(path),
        ) matches ProcessResultView::Module { module: m, boundary: Some(b) } && m == module
            && b.boundary_type() == "server-component"@ && b.source_path() == Some(path)
            && b.chunking_type() == None::<ChunkingTypeView>,
{
}

/// A module without boundary that passes the server utility transition is
/// marked "server-utility", without source path, with shared chunking that
/// inherits async-ness, merged under "next-server-utility".
pub proof fn lemma_server_utility_marks(module: u64)
    ensures
        spec_mark(
            ProcessResultView::Module { module, boundary: None },
            server_utility_boundary(),
        ) matches ProcessResultView::Module { module: m, boundary: Some(b) } && m == module
            && b.boundary_type() == "server-utility"@ && b.source_path() == None::<Seq<char>>
            && b.chunking_type() == Some(
            ChunkingTypeView::Shared { inherit_async: true, merge_tag: Some("next-server-utility"@) },
        ),
{
}

} // verus!
