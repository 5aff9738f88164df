use next_turbo::boundary::{BoundaryInfo, ChunkingType, SimpleBoundary};
use next_turbo::boundary_types::{
    boundary_type_client_reference, boundary_type_css_client_reference,
    boundary_type_dynamic_entry, boundary_type_server_component, boundary_type_server_utility,
    server_utility_merge_tag, CssClientReferenceBoundary, EcmascriptClientReferenceBoundary,
};
use next_turbo::client_references::{
    client_manifest_entry, map_client_references, BoundaryRef, ClientManifestEntryType, GraphNode,
};
use next_turbo::inlined_bytes_module::{
    js_string_literal, FileContent, InlinedBytesError, InlinedBytesJsModule,
};
use next_turbo::transitions::{
    DynamicTransitionError, NextDynamicTransition, NextServerComponentTransition,
    NextServerUtilityTransition, ProcessResult, ProcessTarget,
};
use next_turbo::worker_type::ReferenceType;

fn simple(t: &str) -> BoundaryInfo {
    BoundaryInfo::Simple(SimpleBoundary::new(t.to_string()))
}

#[test]
fn boundary_type_names() {
    assert_eq!(boundary_type_server_component(), "server-component");
    assert_eq!(boundary_type_server_utility(), "server-utility");
    assert_eq!(boundary_type_dynamic_entry(), "dynamic-entry");
    assert_eq!(boundary_type_client_reference(), "client-reference");
    assert_eq!(boundary_type_css_client_reference(), "css-client-reference");
    assert_eq!(server_utility_merge_tag(), "next-server-utility");
}

#[test]
fn simple_boundary_constructors() {
    let b = SimpleBoundary::new("t".to_string());
    assert_eq!(b.boundary_type, "t");
    assert!(b.source_path.is_none() && b.chunking_type.is_none());
    let b = SimpleBoundary::with_source_path("t".to_string(), "/p".to_string());
    assert_eq!(b.source_path.as_deref(), Some("/p"));
    assert!(b.chunking_type.is_none());
    let c = ChunkingType::Shared { inherit_async: true, merge_tag: None };
    let b = SimpleBoundary::with_source_path_and_chunking("t".to_string(), "/q".to_string(), c);
    assert_eq!(b.source_path.as_deref(), Some("/q"));
    assert!(b.chunking_type.is_some());
    let c = ChunkingType::Shared { inherit_async: false, merge_tag: Some("m".to_string()) };
    let b = SimpleBoundary::with_chunking("t".to_string(), c);
    assert!(b.source_path.is_none());
    match b.chunking_type {
        Some(ChunkingType::Shared { inherit_async, merge_tag }) => {
            assert!(!inherit_async);
            assert_eq!(merge_tag.as_deref(), Some("m"));
        }
        None => panic!("expected a chunking type"),
    }
}

#[test]
fn boundary_info_accessors() {
    let css = BoundaryInfo::CssClientReference(CssClientReferenceBoundary::new(5));
    assert_eq!(css.boundary_type(), "css-client-reference");
    assert!(css.source_path().0.is_none());
    assert!(css.chunking_type().0.is_none());
    let ecma = BoundaryInfo::EcmascriptClientReference(EcmascriptClientReferenceBoundary::new(6, 7));
    assert_eq!(ecma.boundary_type(), "client-reference");
    assert!(ecma.source_path().0.is_none());
    let s = BoundaryInfo::Simple(SimpleBoundary::with_source_path(
        "server-component".to_string(),
        "/app/page.mdx".to_string(),
    ));
    assert_eq!(s.boundary_type(), "server-component");
    assert_eq!(s.source_path().0.as_deref(), Some("/app/page.mdx"));
}

#[test]
fn server_component_transition_marks_modules() {
    let t = NextServerComponentTransition::new();
    let r = t.process_result(ProcessResult::Module { module: 3, boundary: None }, "/app/page.mdx".to_string());
    match r {
        ProcessResult::Module { module, boundary: Some(b) } => {
            assert_eq!(module, 3);
            assert_eq!(b.boundary_type(), "server-component");
            assert_eq!(b.source_path().0.as_deref(), Some("/app/page.mdx"));
        }
        _ => panic!("expected a marked module"),
    }
}

#[test]
fn server_component_transition_keeps_existing_boundary() {
    let t = NextServerComponentTransition::new();
    let r = t.process_result(
        ProcessResult::Module { module: 3, boundary: Some(simple("client-reference")) },
        "/x".to_string(),
    );
    match r {
        ProcessResult::Module { boundary: Some(b), .. } => {
            assert_eq!(b.boundary_type(), "client-reference");
            assert!(b.source_path().0.is_none());
        }
        _ => panic!("expected a module"),
    }
    assert!(matches!(t.process_result(ProcessResult::Ignore, "/x".to_string()), ProcessResult::Ignore));
    assert!(matches!(
        t.process_result(ProcessResult::Unknown(8), "/x".to_string()),
        ProcessResult::Unknown(8)
    ));
}

#[test]
fn server_utility_transition_marks_with_shared_chunking() {
    let t = NextServerUtilityTransition::new();
    match t.process_result(ProcessResult::Module { module: 4, boundary: None }) {
        ProcessResult::Module { module: 4, boundary: Some(b) } => {
            assert_eq!(b.boundary_type(), "server-utility");
            match b.chunking_type().0 {
                Some(ChunkingType::Shared { inherit_async, merge_tag }) => {
                    assert!(inherit_async);
                    assert_eq!(merge_tag.as_deref(), Some("next-server-utility"));
                }
                None => panic!("expected shared chunking"),
            }
        }
        _ => panic!("expected a marked module"),
    }
}

#[test]
fn dynamic_transition_results() {
    let marker = NextDynamicTransition::new_marker();
    assert_eq!(marker.process_target(), (ProcessTarget::ModuleAssetContext, ReferenceType::Undefined));
    let client = NextDynamicTransition::new_client(12);
    assert_eq!(client.process_target(), (ProcessTarget::ClientTransition(12), ReferenceType::Undefined));
    let r = marker
        .process_result(ProcessResult::Module { module: 2, boundary: Some(simple("server-component")) }, true)
        .unwrap();
    match r {
        ProcessResult::Module { module: 2, boundary: Some(b) } => assert_eq!(b.boundary_type(), "dynamic-entry"),
        _ => panic!("expected a marked module"),
    }
    let e = marker.process_result(ProcessResult::Module { module: 2, boundary: None }, false).unwrap_err();
    assert_eq!(e, DynamicTransitionError::NotEcmascriptModule);
    assert_eq!(e.message(), "not an ecmascript module");
    assert!(matches!(marker.process_result(ProcessResult::Unknown(1), false), Ok(ProcessResult::Ignore)));
    assert!(matches!(marker.process_result(ProcessResult::Ignore, true), Ok(ProcessResult::Ignore)));
}

fn node(module: u64, id: u64, info: Option<BoundaryInfo>) -> GraphNode {
    GraphNode { module, boundary: info.map(|info| BoundaryRef { id, info }) }
}

#[test]
fn manifest_entries_by_boundary() {
    assert_eq!(client_manifest_entry(&node(1, 0, None)), None);
    assert_eq!(
        client_manifest_entry(&node(1, 10, Some(simple("server-component")))),
        Some(ClientManifestEntryType::Boundary { boundary: 10, is_server_component: true })
    );
    assert_eq!(
        client_manifest_entry(&node(1, 11, Some(simple("server-utility")))),
        Some(ClientManifestEntryType::Boundary { boundary: 11, is_server_component: false })
    );
    assert_eq!(client_manifest_entry(&node(1, 12, Some(simple("dynamic-entry")))), None);
    assert_eq!(client_manifest_entry(&node(1, 12, Some(simple("client-reference")))), None);
    assert_eq!(
        client_manifest_entry(&node(
            1,
            13,
            Some(BoundaryInfo::EcmascriptClientReference(EcmascriptClientReferenceBoundary::new(20, 21)))
        )),
        Some(ClientManifestEntryType::EcmascriptClientReference { client_module: 20, ssr_module: 21 })
    );
    assert_eq!(
        client_manifest_entry(&node(1, 14, Some(BoundaryInfo::CssClientReference(CssClientReferenceBoundary::new(30))))),
        Some(ClientManifestEntryType::CssClientReference(30))
    );
}

#[test]
fn manifest_of_a_graph() {
    let nodes = vec![
        node(1, 0, None),
        node(2, 10, Some(simple("server-component"))),
        node(3, 11, Some(BoundaryInfo::CssClientReference(CssClientReferenceBoundary::new(30)))),
        node(4, 12, Some(simple("dynamic-entry"))),
        node(3, 13, Some(simple("server-utility"))),
    ];
    let data = map_client_references(&nodes);
    assert_eq!(data.0.len(), 2);
    assert!(!data.0.contains_key(&1));
    assert!(!data.0.contains_key(&4));
    assert_eq!(
        data.0.get(&2),
        Some(&ClientManifestEntryType::Boundary { boundary: 10, is_server_component: true })
    );
    assert_eq!(
        data.0.get(&3),
        Some(&ClientManifestEntryType::Boundary { boundary: 13, is_server_component: false })
    );
}

#[test]
fn inlined_bytes_chunk_code() {
    let code = InlinedBytesJsModule::chunk_item_content(
        &FileContent::Content(b"hi!?".to_vec()),
        "__turbopack_export_value__",
    )
    .unwrap();
    assert!(code.starts_with("\nvar decode = Uint8Array.fromBase64 || function Uint8Array_fromBase64(base64) {\n"));
    assert!(code.ends_with("};\n__turbopack_export_value__(decode(\"aGkhPw\"));"));
    let empty = InlinedBytesJsModule::chunk_item_content(&FileContent::Content(Vec::new()), "v").unwrap();
    assert!(empty.ends_with("v(decode(\"\"));"));
    assert_eq!(
        InlinedBytesJsModule::chunk_item_content(&FileContent::NotFound, "v"),
        Err(InlinedBytesError::FileNotFound)
    );
    assert_eq!(InlinedBytesJsModule::ident_modifier(), "static bytes in ecmascript");
    assert_eq!(InlinedBytesJsModule::new(3).source, 3);
    assert_eq!(js_string_literal("ab+/"), "\"ab+/\"");
}

#[test]
fn inlined_bytes_code_for_encoded() {
    let code = InlinedBytesJsModule::code_for_encoded("exp", "QQ");
    assert_eq!(
        code,
        "\nvar decode = Uint8Array.fromBase64 || function Uint8Array_fromBase64(base64) {\n  var binaryString = atob(base64);\n  var buffer = new Uint8Array(binaryString.length);\n  for (var i = 0; i < binaryString.length; i++) {\n    buffer[i] = binaryString.charCodeAt(i)\n  }\n  return buffer\n};\nexp(decode(\"QQ\"));"
    );
}

#[test]
fn inlined_bytes_not_found_message() {
    assert_eq!(
        InlinedBytesError::FileNotFound.message("[project]/data.bin (static bytes in ecmascript)"),
        "File not found: [project]/data.bin (static bytes in ecmascript)"
    );
}

#[test]
fn inlined_bytes_three_byte_groups() {
    let code = InlinedBytesJsModule::chunk_item_content(&FileContent::Content(b"Man".to_vec()), "v").unwrap();
    assert!(code.ends_with("v(decode(\"TWFu\"));"));
    let code = InlinedBytesJsModule::chunk_item_content(&FileContent::Content(vec![0xfb, 0xff]), "v").unwrap();
    assert!(code.ends_with("v(decode(\"+/8\"));"));
}
