//! The client reference manifest: which modules of the graph are client
//! references (Ecmascript or CSS) and which mark server component or server
//! utility boundaries. All detection is based on boundary information.

use rustc_hash::{FxBuildHasher, FxHashMap};
use vstd::prelude::*;

use crate::boundary::{BoundaryInfo, BoundaryInfoView};
use crate::boundary_types::{
    boundary_type_server_component, boundary_type_server_utility, spec_server_component,
    spec_server_utility,
};
use crate::text::views;

verus! {

#[verifier::external_type_specification]
#[verifier::external_body]
pub struct ExFxBuildHasher(FxBuildHasher);

/// Inserts into a map hashed by rustc-hash's `FxBuildHasher`.
///
/// Calls std's `HashMap::insert`. The contract claims what std documents for
/// it: afterwards the key maps to the value and every other key is
/// unchanged. It relies on `FxBuildHasher` hashing deterministically, which
/// rustc-hash's source shows: it holds no state and its hasher starts from
/// a fixed value.
#[verifier::external_body]
fn fx_insert(m: &mut FxHashMap<u64, ClientManifestEntryType>, k: u64, v: ClientManifestEntryType)
    ensures
        final(m)@ == old(m)@.insert(k, v),
{
    m.insert(k, v);
}

/// What the manifest records of a module.
#[derive(Debug, Clone, Copy, PartialEq, Eq, Structural)]
pub enum ClientManifestEntryType {
    /// An Ecmascript client reference, with its client and server side
    /// rendering modules.
    EcmascriptClientReference { client_module: u64, ssr_module: u64 },
    /// A CSS client reference, with its client module.
    CssClientReference(u64),
    /// A server component or server utility boundary.
    Boundary { boundary: u64, is_server_component: bool },
}

/// A boundary attached to a module of the graph: its identity and its info.
#[derive(Debug, Clone)]
pub struct BoundaryRef {
    pub id: u64,
    pub info: BoundaryInfo,
}

pub struct BoundaryRefView {
    pub id: u64,
    pub info: BoundaryInfoView,
}

impl View for BoundaryRef {
    type V = BoundaryRefView;

    open spec fn view(&self) -> BoundaryRefView {
        BoundaryRefView { id: self.id, info: self.info@ }
    }
}

/// A module of the graph, with the boundary it was reached through, if any.
#[derive(Debug, Clone)]
pub struct GraphNode {
    pub module: u64,
    pub boundary: Option<BoundaryRef>,
}

pub struct GraphNodeView {
    pub module: u64,
    pub boundary: Option<BoundaryRefView>,
}

impl View for GraphNode {
    type V = GraphNodeView;

    open spec fn view(&self) -> GraphNodeView {
        GraphNodeView {
            module: self.module,
            boundary: match self.boundary {
                Some(b) => Some(b@),
                None => None,
            },
        }
    }
}

/// Tracks information about all the CSS and JS client references in the graph.
#[derive(Debug, Clone)]
pub struct ClientReferenceData(pub FxHashMap<u64, ClientManifestEntryType>);

/// The manifest entry of one module: a server component or server utility
/// boundary by its type; otherwise a client reference by the kind of its
/// boundary; nothing for a module without boundary or with another boundary.
pub open spec fn spec_manifest_entry(node: GraphNodeView) -> Option<ClientManifestEntryType> {
    match node.boundary {
        None => None,
        Some(b) => if b.info.boundary_type() == spec_server_component() {
            Some(ClientManifestEntryType::Boundary { boundary: b.id, is_server_component: true })
        } else if b.info.boundary_type() == spec_server_utility() {
            Some(ClientManifestEntryType::Boundary { boundary: b.id, is_server_component: false })
        } else {
            match b.info {
                BoundaryInfoView::EcmascriptClientReference(e) => Some(
                    ClientManifestEntryType::EcmascriptClientReference {
                        client_module: e.client_module,
                        ssr_module: e.ssr_module,
                    },
                ),
                BoundaryInfoView::CssClientReference(c) => Some(
                    ClientManifestEntryType::CssClientReference(c.client_module),
                ),
                BoundaryInfoView::Simple(_) => None,
            }
        },
    }
}

/// The manifest of a walk over the graph: each module with an entry maps to
/// it; when a module is reached more than once, the last entry stands.
pub open spec fn spec_manifest(nodes: Seq<GraphNodeView>) -> Map<u64, ClientManifestEntryType>
    decreases nodes.len(),
{
    if nodes.len() == 0 {
        Map::empty()
    } else {
        let m = spec_manifest(nodes.drop_last());
        match spec_manifest_entry(nodes.last()) {
            Some(e) => m.insert(nodes.last().module, e),
            None => m,
        }
    }
}

/// The manifest entry of one module of the graph.
pub fn client_manifest_entry(node: &GraphNode) -> (e: Option<ClientManifestEntryType>)
    ensures
        e == spec_manifest_entry(node@),
{
    match &node.boundary {
        None => None,
        Some(b) => {
            let boundary_type = b.info.boundary_type();
            if boundary_type == boundary_type_server_component() {
                return Some(
                    ClientManifestEntryType::Boundary { boundary: b.id, is_server_component: true },
                );
            }
            if boundary_type == boundary_type_server_utility() {
                return Some(
                    ClientManifestEntryType::Boundary {
                        boundary: b.id,
                        is_server_component: false,
                    },
                );
            }
            match &b.info {
                BoundaryInfo::EcmascriptClientReference(e) => Some(
                    ClientManifestEntryType::EcmascriptClientReference {
                        client_module: e.client_module,
                        ssr_module: e.ssr_module,
                    },
                ),
                BoundaryInfo::CssClientReference(c) => Some(
                    ClientManifestEntryType::CssClientReference(c.client_module),
                ),
                BoundaryInfo::Simple(_) => None,
            }
        },
    }
}

/// Maps the modules of the graph, in the order of the walk, to their client
/// manifest entries.
pub fn map_client_references(nodes: &Vec<GraphNode>) -> (d: ClientReferenceData)
    ensures
        d.0@ == spec_manifest(views(nodes@)),
{
    let ghost ns = views(nodes@);
    let mut manifest: FxHashMap<u64, ClientManifestEntryType> = FxHashMap::default();
    let mut k: usize = 0;
    while k < nodes.len()
        invariant
            k <= nodes.len(),
            ns == views(nodes@),
            manifest@ == spec_manifest(ns.take(k as int)),
        decreases nodes.len() - k,
    {
        let node = &nodes[k];
        assert(ns[k as int] == node@);
        assert(ns.take(k + 1).drop_last() =~= ns.take(k as int));
        match client_manifest_entry(node) {
            Some(e) => fx_insert(&mut manifest, node.module, e),
            None => {},
        }
        k = k + 1;
    }
    assert(ns.take(k as int) =~= ns);
    ClientReferenceData(manifest)
}

/// A module is in the manifest exactly when some visit of it has an entry,
/// and its entry is that of such a visit.
pub proof fn lemma_manifest_membership(nodes: Seq<GraphNodeView>, module: u64)
    ensures
        spec_manifest(nodes).contains_key(module) <==> exists|i: int|
            0 <= i < nodes.len() && nodes[i].module == module && (#[trigger] spec_manifest_entry(
                nodes[i],
            )) is Some,
        spec_manifest(nodes).contains_key(module) ==> exists|i: int|
            0 <= i < nodes.len() && nodes[i].module == module && #[trigger] spec_manifest_entry(
                nodes[i],
            ) == Some(spec_manifest(nodes)[module]),
    decreases nodes.len(),
{
    if nodes.len() > 0 {
        let prefix = nodes.drop_last();
        lemma_manifest_membership(prefix, module);
        let last = nodes.len() - 1;
        assert forall|i: int| 0 <= i < prefix.len() implies prefix[i] == nodes[i] by {}
        if spec_manifest(nodes).contains_key(module) {
            if nodes[last].module == module && spec_manifest_entry(nodes[last]) is Some {
                assert(spec_manifest_entry(nodes[last]) == Some(spec_manifest(nodes)[module]));
            } else {
                let i = choose|i: int|
                    0 <= i < prefix.len() && prefix[i].module == module
                        && #[trigger] spec_manifest_entry(prefix[i]) == Some(
                        spec_manifest(prefix)[module],
                    );
                assert(nodes[i] == prefix[i]);
            }
        } else {
            assert forall|i: int|
                0 <= i < nodes.len() && nodes[i].module == module implies !(
                #[trigger] spec_manifest_entry(nodes[i]) is Some) by {
                if i < last {
                    assert(nodes[i] == prefix[i]);
                }
            }
        }
    }
}

/// A server component boundary always yields a server component entry, a
/// server utility boundary a server utility entry, and a module reached
/// without boundary no entry.
pub proof fn lemma_boundary_kind_entries(node: GraphNodeView)
    ensures
        node.boundary is None ==> spec_manifest_entry(node) is None,
        node.boundary matches Some(b) ==> (b.info.boundary_type() == spec_server_component()
            ==> spec_manifest_entry(node) == Some(
            ClientManifestEntryType::Boundary { boundary: b.id, is_server_component: true },
        )),
        node.boundary matches Some(b) ==> (b.info.boundary_type() == spec_server_utility()
            ==> spec_manifest_entry(node) == Some(
            ClientManifestEntryType::Boundary { boundary: b.id, is_server_component: false },
        )),
{
    crate::boundary_types::lemma_boundary_types_distinct();
}

} // verus!
