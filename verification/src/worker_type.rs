use vstd::prelude::*;

verus! {

/// The kind of worker a chunk is loaded into.
#[derive(Debug, Clone, Copy, PartialEq, Eq, Hash)]
pub enum WorkerType {
    WebWorker,
    SharedWebWorker,
    NodeWorkerThread,
}

/// The worker subtype recorded on a worker reference.
#[derive(Debug, Clone, Copy, PartialEq, Eq, Hash)]
pub enum WorkerReferenceSubType {
    WebWorker,
    SharedWorker,
    NodeWorker,
}

/// The kinds of references this library hands to module processing.
#[derive(Debug, Clone, Copy, PartialEq, Eq, Hash)]
pub enum ReferenceType {
    /// A reference from an ECMAScript import whose subtype is not known.
    EcmaScriptModulesUndefined,
    /// A reference that loads a worker.
    Worker(WorkerReferenceSubType),
    /// A reference of no particular kind.
    Undefined,
}

/// Human readable description of a worker kind.
pub open spec fn spec_worker_display(w: WorkerType) -> Seq<char> {
    match w {
        WorkerType::WebWorker => "web worker"@,
        WorkerType::SharedWebWorker => "shared web worker"@,
        WorkerType::NodeWorkerThread => "node worker thread"@,
    }
}

/// The modifier appended to the ident of a worker loader module.
pub open spec fn spec_modifier(w: WorkerType) -> Seq<char> {
    match w {
        WorkerType::WebWorker | WorkerType::SharedWebWorker => "worker loader"@,
        WorkerType::NodeWorkerThread => "node worker thread loader"@,
    }
}

/// The modifier appended to the ident of a worker chunk.
pub open spec fn spec_chunk_modifier(w: WorkerType) -> Seq<char> {
    match w {
        WorkerType::WebWorker | WorkerType::SharedWebWorker => "worker"@,
        WorkerType::NodeWorkerThread => "node worker thread"@,
    }
}

/// The worker subtype that matches a worker kind.
pub open spec fn spec_worker_subtype(w: WorkerType) -> WorkerReferenceSubType {
    match w {
        WorkerType::WebWorker => WorkerReferenceSubType::WebWorker,
        WorkerType::SharedWebWorker => WorkerReferenceSubType::SharedWorker,
        WorkerType::NodeWorkerThread => WorkerReferenceSubType::NodeWorker,
    }
}

impl WorkerType {
    /// The text by which the worker kind is shown to people.
    pub fn display_string(&self) -> (s: String)
        ensures
            s@ == spec_worker_display(*self),
    {
        match self {
            WorkerType::WebWorker => String::from_str("web worker"),
            WorkerType::SharedWebWorker => String::from_str("shared web worker"),
            WorkerType::NodeWorkerThread => String::from_str("node worker thread"),
        }
    }

    pub fn modifier_str(&self) -> (s: String)
        ensures
            s@ == spec_modifier(*self),
    {
        match self {
            WorkerType::SharedWebWorker | WorkerType::WebWorker => String::from_str(
                "worker loader",
            ),
            WorkerType::NodeWorkerThread => String::from_str("node worker thread loader"),
        }
    }

    pub fn chunk_modifier_str(&self) -> (s: String)
        ensures
            s@ == spec_chunk_modifier(*self),
    {
        match self {
            WorkerType::SharedWebWorker | WorkerType::WebWorker => String::from_str("worker"),
            WorkerType::NodeWorkerThread => String::from_str("node worker thread"),
        }
    }

    pub fn reference_type(&self) -> (r: ReferenceType)
        ensures
            r == ReferenceType::Worker(spec_worker_subtype(*self)),
    {
        ReferenceType::Worker(
            match self {
                WorkerType::WebWorker => WorkerReferenceSubType::WebWorker,
                WorkerType::SharedWebWorker => WorkerReferenceSubType::SharedWorker,
                WorkerType::NodeWorkerThread => WorkerReferenceSubType::NodeWorker,
            },
        )
    }
}

/// Distinct worker kinds have distinct reference subtypes, so a worker
/// reference determines the worker kind it was made for.
pub proof fn lemma_reference_type_injective(a: WorkerType, b: WorkerType)
    requires
        spec_worker_subtype(a) == spec_worker_subtype(b),
    ensures
        a == b,
{
}

} // verus!
