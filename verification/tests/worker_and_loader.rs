use next_turbo::base_loader_tree::{AppDirModuleType, BaseLoaderTreeBuilder, ProcessSourceError};
use next_turbo::boundary::{BoundaryInfo, SimpleBoundary};
use next_turbo::transitions::ProcessResult;
use next_turbo::worker_type::{ReferenceType, WorkerReferenceSubType, WorkerType};

#[test]
fn worker_type_strings() {
    assert_eq!(WorkerType::WebWorker.display_string(), "web worker");
    assert_eq!(WorkerType::SharedWebWorker.display_string(), "shared web worker");
    assert_eq!(WorkerType::NodeWorkerThread.display_string(), "node worker thread");
    assert_eq!(WorkerType::WebWorker.modifier_str(), "worker loader");
    assert_eq!(WorkerType::SharedWebWorker.modifier_str(), "worker loader");
    assert_eq!(WorkerType::NodeWorkerThread.modifier_str(), "node worker thread loader");
    assert_eq!(WorkerType::WebWorker.chunk_modifier_str(), "worker");
    assert_eq!(WorkerType::SharedWebWorker.chunk_modifier_str(), "worker");
    assert_eq!(WorkerType::NodeWorkerThread.chunk_modifier_str(), "node worker thread");
}

#[test]
fn worker_reference_types() {
    assert_eq!(
        WorkerType::WebWorker.reference_type(),
        ReferenceType::Worker(WorkerReferenceSubType::WebWorker)
    );
    assert_eq!(
        WorkerType::SharedWebWorker.reference_type(),
        ReferenceType::Worker(WorkerReferenceSubType::SharedWorker)
    );
    assert_eq!(
        WorkerType::NodeWorkerThread.reference_type(),
        ReferenceType::Worker(WorkerReferenceSubType::NodeWorker)
    );
}

#[test]
fn app_dir_module_type_names() {
    let all = [
        (AppDirModuleType::Page, "page"),
        (AppDirModuleType::DefaultPage, "defaultPage"),
        (AppDirModuleType::Error, "error"),
        (AppDirModuleType::Layout, "layout"),
        (AppDirModuleType::Loading, "loading"),
        (AppDirModuleType::Template, "template"),
        (AppDirModuleType::NotFound, "not-found"),
        (AppDirModuleType::Forbidden, "forbidden"),
        (AppDirModuleType::Unauthorized, "unauthorized"),
        (AppDirModuleType::GlobalError, "global-error"),
        (AppDirModuleType::GlobalNotFound, "global-not-found"),
    ];
    for (t, n) in all {
        assert_eq!(t.name(), n);
    }
}

#[test]
fn unique_numbers_count_up() {
    let mut b = BaseLoaderTreeBuilder::new(1, 2);
    assert_eq!(b.unique_number(), 0);
    assert_eq!(b.unique_number(), 1);
    assert_eq!(b.unique_number(), 2);
    assert_eq!(b.module_asset_context, 1);
    assert_eq!(b.server_component_transition, 2);
}

#[test]
fn loader_tree_module_entries() {
    let mut b = BaseLoaderTreeBuilder::new(1, 2);
    let (i, label) = b.begin_module(AppDirModuleType::Page);
    assert_eq!(i, 0);
    assert_eq!(label, "page #0");
    b.add_import("page_0", i);
    b.add_inner_asset(i, 40, None);
    let (j, label2) = b.begin_module(AppDirModuleType::NotFound);
    assert_eq!(j, 1);
    assert_eq!(label2, "not-found #1");
    let boundary = BoundaryInfo::Simple(SimpleBoundary::new("server-component".to_string()));
    b.add_import("not_found_1", j);
    b.add_inner_asset(j, 41, Some(boundary));
    assert_eq!(
        b.imports,
        vec![
            "const page_0 = () => require(\"MODULE_0\");\n".to_string(),
            "const not_found_1 = () => require(\"MODULE_1\");\n".to_string(),
        ]
    );
    assert_eq!(b.inner_assets.len(), 2);
    let (k0, m0) = b.inner_assets.entry(0);
    assert_eq!((k0.as_str(), *m0), ("MODULE_0", 40));
    let (k1, m1) = b.inner_assets.entry(1);
    assert_eq!((k1.as_str(), *m1), ("MODULE_1", 41));
    assert_eq!(b.inner_asset_boundaries.len(), 1);
    assert_eq!(b.inner_asset_boundaries.entry(0).0, "MODULE_1");
}

#[test]
fn loader_tree_large_module_number() {
    let mut b = BaseLoaderTreeBuilder::new(0, 0);
    for _ in 0..12 {
        b.unique_number();
    }
    let (i, label) = b.begin_module(AppDirModuleType::GlobalError);
    assert_eq!(i, 12);
    assert_eq!(label, "global-error #12");
    b.add_import("x", i);
    b.add_inner_asset(i, 5, None);
    assert_eq!(b.imports[0], "const x = () => require(\"MODULE_12\");\n");
}

#[test]
fn module_tuple_code_format() {
    assert_eq!(
        BaseLoaderTreeBuilder::module_tuple_code("page__0", "\"/app/page.mdx\""),
        "[page__0, \"/app/page.mdx\"]"
    );
}

#[test]
fn processed_module_results() {
    let r = BaseLoaderTreeBuilder::process_source(ProcessResult::Module {
        module: 9,
        boundary: None,
    });
    assert!(matches!(r, Ok((9, None))));
    let e = BaseLoaderTreeBuilder::process_source(ProcessResult::Ignore).unwrap_err();
    assert_eq!(e, ProcessSourceError::Ignored);
    assert_eq!(e.message(), "Expected process result to be a module, but it was ignored");
    let e = BaseLoaderTreeBuilder::process_source(ProcessResult::Unknown(3)).unwrap_err();
    assert_eq!(e, ProcessSourceError::Unknown);
    assert_eq!(
        e.message(),
        "Expected process result to be a module, but it could not be processed"
    );
    assert_eq!(
        BaseLoaderTreeBuilder::process_source_reference_type(),
        ReferenceType::EcmaScriptModulesUndefined
    );
}

#[test]
fn loader_tree_import_kept_when_processing_fails() {
    let mut b = BaseLoaderTreeBuilder::new(1, 2);
    let (i, _) = b.begin_module(AppDirModuleType::Layout);
    b.add_import("layout_0", i);
    let failed = BaseLoaderTreeBuilder::process_source(ProcessResult::Ignore);
    assert!(failed.is_err());
    assert_eq!(b.imports, vec!["const layout_0 = () => require(\"MODULE_0\");\n".to_string()]);
    assert_eq!(b.inner_assets.len(), 0);
    assert_eq!(b.inner_asset_boundaries.len(), 0);
    assert_eq!(b.unique_number(), 1);
}

#[test]
fn create_module_tuple_code_records_in_order() {
    let mut b = BaseLoaderTreeBuilder::new(1, 2);
    let (i, label) = b.begin_module(AppDirModuleType::Page);
    assert_eq!(label, "page #0");
    let boundary = BoundaryInfo::Simple(SimpleBoundary::new("server-component".to_string()));
    let code = b
        .create_module_tuple_code(
            "page__0",
            i,
            ProcessResult::Module { module: 77, boundary: Some(boundary) },
            "\"/app/page.js\"",
        )
        .unwrap();
    assert_eq!(code, "[page__0, \"/app/page.js\"]");
    assert_eq!(b.imports, vec!["const page__0 = () => require(\"MODULE_0\");\n".to_string()]);
    assert_eq!(b.inner_assets.len(), 1);
    assert_eq!(b.inner_assets.entry(0), (&"MODULE_0".to_string(), &77));
    assert_eq!(b.inner_asset_boundaries.len(), 1);

    let (j, _) = b.begin_module(AppDirModuleType::Error);
    let err = b.create_module_tuple_code("error__1", j, ProcessResult::Unknown(5), "\"/e\"");
    assert_eq!(err, Err(ProcessSourceError::Unknown));
    assert_eq!(b.imports.len(), 2);
    assert_eq!(b.imports[1], "const error__1 = () => require(\"MODULE_1\");\n");
    assert_eq!(b.inner_assets.len(), 1);
    assert_eq!(b.inner_asset_boundaries.len(), 1);

    let (k, _) = b.begin_module(AppDirModuleType::Template);
    assert_eq!(k, 2);
    b.create_module_tuple_code("t__2", k, ProcessResult::Module { module: 78, boundary: None }, "\"/t\"")
        .unwrap();
    assert_eq!(b.inner_assets.len(), 2);
    assert_eq!(b.inner_assets.entry(1), (&"MODULE_2".to_string(), &78));
    assert_eq!(b.inner_asset_boundaries.len(), 1);
}
