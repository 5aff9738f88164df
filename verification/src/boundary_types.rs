//! The boundary kinds of the framework, and the boundaries of client
//! references, which carry the modules that the client and the server side
//! render load.

use vstd::prelude::*;

verus! {

/// Server component boundary: marks modules that are React Server Components.
pub open spec fn spec_server_component() -> Seq<char> {
    "server-component"@
}

/// Server utility boundary: marks modules decorated with 'use server'.
pub open spec fn spec_server_utility() -> Seq<char> {
    "server-utility"@
}

/// Dynamic import entry: marks modules loaded via next/dynamic.
pub open spec fn spec_dynamic_entry() -> Seq<char> {
    "dynamic-entry"@
}

/// Ecmascript client reference: marks client components referenced from
/// server components.
pub open spec fn spec_client_reference() -> Seq<char> {
    "client-reference"@
}

/// CSS client reference: marks CSS modules referenced from server components.
pub open spec fn spec_css_client_reference() -> Seq<char> {
    "css-client-reference"@
}

/// Merge tag for server utility chunk groups.
pub open spec fn spec_server_utility_merge_tag() -> Seq<char> {
    "next-server-utility"@
}

pub fn boundary_type_server_component() -> (s: String)
    ensures
        s@ == spec_server_component(),
{
    String::from_str("server-component")
}

pub fn boundary_type_server_utility() -> (s: String)
    ensures
        s@ == spec_server_utility(),
{
    String::from_str("server-utility")
}

pub fn boundary_type_dynamic_entry() -> (s: String)
    ensures
        s@ == spec_dynamic_entry(),
{
    String::from_str("dynamic-entry")
}

pub fn boundary_type_client_reference() -> (s: String)
    ensures
        s@ == spec_client_reference(),
{
    String::from_str("client-reference")
}

pub fn boundary_type_css_client_reference() -> (s: String)
    ensures
        s@ == spec_css_client_reference(),
{
    String::from_str("css-client-reference")
}

/// The merge tag of server utility chunk groups.
pub fn server_utility_merge_tag() -> (s: String)
    ensures
        s@ == spec_server_utility_merge_tag(),
{
    String::from_str("next-server-utility")
}

/// The five boundary kinds are pairwise distinct, so a boundary's kind
/// identifies what it marks.
pub proof fn lemma_boundary_types_distinct()
    ensures
        spec_server_component() != spec_server_utility(),
        spec_server_component() != spec_dynamic_entry(),
        spec_server_component() != spec_client_reference(),
        spec_server_component() != spec_css_client_reference(),
        spec_server_utility() != spec_dynamic_entry(),
        spec_server_utility() != spec_client_reference(),
        spec_server_utility() != spec_css_client_reference(),
        spec_dynamic_entry() != spec_client_reference(),
        spec_dynamic_entry() != spec_css_client_reference(),
        spec_client_reference() != spec_css_client_reference(),
{
    reveal_strlit("server-component");
    reveal_strlit("server-utility");
    reveal_strlit("dynamic-entry");
    reveal_strlit("client-reference");
    reveal_strlit("css-client-reference");
    assert(spec_server_component()[0] != spec_server_utility()[7]
        || spec_server_component().len() != spec_server_utility().len());
    assert(spec_server_component().len() != spec_dynamic_entry().len());
    assert(spec_server_component()[0] != spec_client_reference()[0]);
    assert(spec_server_component().len() != spec_css_client_reference().len());
    assert(spec_server_utility()[0] != spec_dynamic_entry()[0]);
    assert(spec_server_utility().len() != spec_client_reference().len());
    assert(spec_server_utility().len() != spec_css_client_reference().len());
    assert(spec_dynamic_entry().len() != spec_client_reference().len());
    assert(spec_dynamic_entry().len() != spec_css_client_reference().len());
    assert(spec_client_reference().len() != spec_css_client_reference().len());
}

/// Boundary of a CSS client reference, carrying the client module.
#[derive(Debug, Clone, Copy, PartialEq, Eq)]
pub struct CssClientReferenceBoundary {
    pub client_module: u64,
}

impl CssClientReferenceBoundary {
    pub fn new(client_module: u64) -> (b: Self)
        ensures
            b.client_module == client_module,
    {
        CssClientReferenceBoundary { client_module }
    }
}

/// Boundary of an Ecmascript client reference, carrying the client and the
/// server side rendering modules.
#[derive(Debug, Clone, Copy, PartialEq, Eq)]
pub struct EcmascriptClientReferenceBoundary {
    pub client_module: u64,
    pub ssr_module: u64,
}

impl EcmascriptClientReferenceBoundary {
    pub fn new(client_module: u64, ssr_module: u64) -> (b: Self)
        ensures
            b.client_module == client_module,
            b.ssr_module == ssr_module,
    {
        EcmascriptClientReferenceBoundary { client_module, ssr_module }
    }
}

} // verus!
