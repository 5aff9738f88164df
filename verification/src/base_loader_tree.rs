//! Building the loader tree of the app directory: each page, layout, error
//! boundary, ... module gets a unique number, an import that requires it
//! lazily, and an entry among the inner assets.

use vstd::prelude::*;

use crate::boundary::{BoundaryInfo, BoundaryInfoView};
use crate::ordered_map::{spec_ordered_insert, OrderedMap};
use crate::text::{push_decimal, spec_decimal, views};
use crate::transitions::{opt_boundary_view, ProcessResult, ProcessResultView};
use crate::worker_type::ReferenceType;

verus! {

/// The kinds of modules of the app directory.
#[derive(Clone, Copy, Debug, PartialEq, Eq, Structural)]
pub enum AppDirModuleType {
    Page,
    DefaultPage,
    Error,
    Layout,
    Loading,
    Template,
    NotFound,
    Forbidden,
    Unauthorized,
    GlobalError,
    GlobalNotFound,
}

/// The name of a module kind, as used in the loader tree.
pub open spec fn spec_module_type_name(t: AppDirModuleType) -> Seq<char> {
    match t {
        AppDirModuleType::Page => "page"@,
        AppDirModuleType::DefaultPage => "defaultPage"@,
        AppDirModuleType::Error => "error"@,
        AppDirModuleType::Layout => "layout"@,
        AppDirModuleType::Loading => "loading"@,
        AppDirModuleType::Template => "template"@,
        AppDirModuleType::NotFound => "not-found"@,
        AppDirModuleType::Forbidden => "forbidden"@,
        AppDirModuleType::Unauthorized => "unauthorized"@,
        AppDirModuleType::GlobalError => "global-error"@,
        AppDirModuleType::GlobalNotFound => "global-not-found"@,
    }
}

impl AppDirModuleType {
    pub fn name(&self) -> (s: &'static str)
        ensures
            s@ == spec_module_type_name(*self),
    {
        match self {
            AppDirModuleType::Page => "page",
            AppDirModuleType::DefaultPage => "defaultPage",
            AppDirModuleType::Error => "error",
            AppDirModuleType::Layout => "layout",
            AppDirModuleType::Loading => "loading",
            AppDirModuleType::Template => "template",
            AppDirModuleType::NotFound => "not-found",
            AppDirModuleType::Forbidden => "forbidden",
            AppDirModuleType::Unauthorized => "unauthorized",
            AppDirModuleType::GlobalError => "global-error",
            AppDirModuleType::GlobalNotFound => "global-not-found",
        }
    }
}

/// The key under which the `i`-th module is an inner asset.
pub open spec fn module_key(i: nat) -> Seq<char> {
    "MODULE_"@ + spec_decimal(i)
}

/// The label of the `i`-th module of a kind, before it is made an identifier.
pub open spec fn module_label(t: AppDirModuleType, i: nat) -> Seq<char> {
    spec_module_type_name(t) + " #"@ + spec_decimal(i)
}

/// The import that requires the `i`-th module lazily under `identifier`.
pub open spec fn module_import(identifier: Seq<char>, i: nat) -> Seq<char> {
    "const "@ + identifier + " = () => require(\""@ + module_key(i) + "\");\n"@
}

/// The loader tree entry of a module: its identifier and its path.
pub open spec fn module_tuple(identifier: Seq<char>, path_js: Seq<char>) -> Seq<char> {
    "["@ + identifier + ", "@ + path_js + "]"@
}

/// Why processing a loader tree source gave no module.
#[derive(Debug, Clone, Copy, PartialEq, Eq)]
pub enum ProcessSourceError {
    Ignored,
    Unknown,
}

impl ProcessSourceError {
    pub fn message(&self) -> (s: String)
        ensures
            s@ == match self {
                ProcessSourceError::Ignored => "Expected process result to be a module, but it was ignored"@,
                ProcessSourceError::Unknown => "Expected process result to be a module, but it could not be processed"@,
            },
    {
        match self {
            ProcessSourceError::Ignored => String::from_str(
                "Expected process result to be a module, but it was ignored",
            ),
            ProcessSourceError::Unknown => String::from_str(
                "Expected process result to be a module, but it could not be processed",
            ),
        }
    }
}

/// The module and boundary of a processed source; a source that was
/// ignored or could not be processed is an error.
pub open spec fn spec_process_source(r: ProcessResultView) -> Result<
    (u64, Option<BoundaryInfoView>),
    ProcessSourceError,
> {
    match r {
        ProcessResultView::Module { module, boundary } => Ok((module, boundary)),
        ProcessResultView::Ignore => Err(ProcessSourceError::Ignored),
        ProcessResultView::Unknown(_) => Err(ProcessSourceError::Unknown),
    }
}

/// Every key of some entries is `MODULE_<j>` for a `j` below `n`.
pub open spec fn keys_numbered_below<V>(entries: Seq<(Seq<char>, V)>, n: nat) -> bool {
    forall|k: int| 0 <= k < entries.len() ==> key_numbered_below(#[trigger] entries[k].0, n)
}

/// A key is `MODULE_<j>` for a `j` below `n`.
pub open spec fn key_numbered_below(key: Seq<char>, n: nat) -> bool {
    exists|j: nat| j < n && key == #[trigger] module_key(j)
}

/// Every inner asset key, and every boundary key, is `MODULE_<j>` for a
/// number `j` already taken from the builder; so the next number's key is
/// fresh.
pub open spec fn keys_fresh(b: BaseLoaderTreeBuilderView) -> bool {
    &&& keys_numbered_below(b.inner_assets, b.counter)
    &&& keys_numbered_below(b.inner_asset_boundaries, b.counter)
}

pub struct BaseLoaderTreeBuilderView {
    pub inner_assets: Seq<(Seq<char>, u64)>,
    pub inner_asset_boundaries: Seq<(Seq<char>, BoundaryInfoView)>,
    pub counter: nat,
    pub imports: Seq<Seq<char>>,
    pub module_asset_context: u64,
    pub server_component_transition: u64,
}

/// Collects the modules of a loader tree: their imports, the inner assets
/// keyed `MODULE_<i>`, and the boundaries of those that cross one.
pub struct BaseLoaderTreeBuilder {
    pub inner_assets: OrderedMap<u64>,
    pub inner_asset_boundaries: OrderedMap<BoundaryInfo>,
    counter: usize,
    pub imports: Vec<String>,
    pub module_asset_context: u64,
    pub server_component_transition: u64,
}

impl View for BaseLoaderTreeBuilder {
    type V = BaseLoaderTreeBuilderView;

    closed spec fn view(&self) -> BaseLoaderTreeBuilderView {
        BaseLoaderTreeBuilderView {
            inner_assets: self.inner_assets@,
            inner_asset_boundaries: self.inner_asset_boundaries@,
            counter: self.counter as nat,
            imports: views(self.imports@),
            module_asset_context: self.module_asset_context,
            server_component_transition: self.server_component_transition,
        }
    }
}

impl BaseLoaderTreeBuilder {
    /// The maps of the builder hold each key once.
    pub closed spec fn wf(&self) -> bool {
        &&& self.inner_assets.wf()
        &&& self.inner_asset_boundaries.wf()
    }

    pub fn new(module_asset_context: u64, server_component_transition: u64) -> (b: Self)
        ensures
            b.wf(),
            b@.inner_assets.len() == 0,
            b@.inner_asset_boundaries.len() == 0,
            b@.counter == 0,
            b@.imports.len() == 0,
            b@.module_asset_context == module_asset_context,
            b@.server_component_transition == server_component_transition,
            keys_fresh(b@),
    {
        BaseLoaderTreeBuilder {
            inner_assets: OrderedMap::new(),
            inner_asset_boundaries: OrderedMap::new(),
            counter: 0,
            imports: Vec::new(),
            module_asset_context,
            server_component_transition,
        }
    }

    /// A number not handed out before by this builder.
    pub fn unique_number(&mut self) -> (i: usize)
        requires
            old(self)@.counter < usize::MAX,
        ensures
            i == old(self)@.counter,
            final(self)@ == (BaseLoaderTreeBuilderView { counter: old(self)@.counter + 1, ..old(self)@ }),
            final(self).wf() == old(self).wf(),
            keys_fresh(old(self)@) ==> keys_fresh(final(self)@),
    {
        proof {
            if keys_fresh(self@) {
                lemma_numbered_below_monotonic(self@.inner_assets, self@.counter, self@.counter + 1);
                lemma_numbered_below_monotonic(
                    self@.inner_asset_boundaries,
                    self@.counter,
                    self@.counter + 1,
                );
            }
        }
        let i = self.counter;
        self.counter = self.counter + 1;
        i
    }

    /// The reference type under which loader tree sources are processed.
    pub fn process_source_reference_type() -> (r: ReferenceType)
        ensures
            r == ReferenceType::EcmaScriptModulesUndefined,
    {
        ReferenceType::EcmaScriptModulesUndefined
    }

    /// The module and boundary of a processed source, or why there is none.
    pub fn process_source(result: ProcessResult) -> (r: Result<
        (u64, Option<BoundaryInfo>),
        ProcessSourceError,
    >)
        ensures
            match (r, spec_process_source(result@)) {
                (Ok((m, b)), Ok((n, c))) => m == n && match (b, c) {
                    (Some(x), Some(y)) => x@ == y,
                    (None, None) => true,
                    _ => false,
                },
                (Err(e), Err(f)) => e == f,
                _ => false,
            },
    {
        match result {
            ProcessResult::Module { module, boundary } => Ok((module, boundary)),
            ProcessResult::Ignore => Err(ProcessSourceError::Ignored),
            ProcessResult::Unknown(_) => Err(ProcessSourceError::Unknown),
        }
    }

    /// Starts the entry of a module of kind `module_type`: takes the next
    /// unique number `i` and returns it with the label `"<name> #<i>"`, from
    /// which the module's identifier is made.
    pub fn begin_module(&mut self, module_type: AppDirModuleType) -> (r: (usize, String))
        requires
            old(self)@.counter < usize::MAX,
        ensures
            r.0 == old(self)@.counter,
            r.1@ == module_label(module_type, r.0 as nat),
            final(self)@ == (BaseLoaderTreeBuilderView { counter: old(self)@.counter + 1, ..old(self)@ }),
            final(self).wf() == old(self).wf(),
            keys_fresh(old(self)@) ==> keys_fresh(final(self)@),
    {
        let name = module_type.name();
        let i = self.unique_number();
        let mut label = String::from_str(name);
        label.append(" #");
        push_decimal(&mut label, i);
        assert(label@ =~= module_label(module_type, i as nat));
        (i, label)
    }

    /// Records the import that requires the `i`-th module lazily under
    /// `identifier`. This happens before the module's source is processed, so
    /// the import stays even when processing fails.
    pub fn add_import(&mut self, identifier: &str, i: usize)
        ensures
            final(self)@ == (BaseLoaderTreeBuilderView {
                imports: old(self)@.imports.push(module_import(identifier@, i as nat)),
                ..old(self)@
            }),
            final(self).wf() == old(self).wf(),
            keys_fresh(old(self)@) ==> keys_fresh(final(self)@),
    {
        let mut import = String::from_str("const ");
        import.append(identifier);
        import.append(" = () => require(\"");
        let mut key = String::from_str("MODULE_");
        push_decimal(&mut key, i);
        import.append(key.as_str());
        import.append("\");\n");
        assert(import@ =~= module_import(identifier@, i as nat));
        let ghost old_imports = views(self.imports@);
        self.imports.push(import);
        assert(views(self.imports@) =~= old_imports.push(module_import(identifier@, i as nat)));
    }

    /// Records the processed `i`-th module as inner asset `MODULE_<i>`, and
    /// its boundary, if it crosses one.
    pub fn add_inner_asset(&mut self, i: usize, module: u64, boundary: Option<BoundaryInfo>)
        requires
            old(self).wf(),
        ensures
            final(self).wf(),
            final(self)@.inner_assets == spec_ordered_insert(
                old(self)@.inner_assets,
                module_key(i as nat),
                module,
            ),
            final(self)@.inner_asset_boundaries == match boundary {
                Some(b) => spec_ordered_insert(
                    old(self)@.inner_asset_boundaries,
                    module_key(i as nat),
                    b@,
                ),
                None => old(self)@.inner_asset_boundaries,
            },
            final(self)@.imports == old(self)@.imports,
            final(self)@.counter == old(self)@.counter,
            final(self)@.module_asset_context == old(self)@.module_asset_context,
            final(self)@.server_component_transition == old(self)@.server_component_transition,
    {
        let mut key = String::from_str("MODULE_");
        push_decimal(&mut key, i);
        assert(key@ =~= module_key(i as nat));
        match boundary {
            Some(b) => {
                let key2 = key.clone();
                self.inner_assets.insert(key, module);
                self.inner_asset_boundaries.insert(key2, b);
            },
            None => {
                self.inner_assets.insert(key, module);
            },
        }
    }

    /// Finishes the entry of the `i`-th module, given its identifier (made
    /// from the label of [`Self::begin_module`]), what processing its source
    /// gave, and its original source path as a JavaScript string literal.
    ///
    /// The import is recorded first, and stays whatever processing gave. A
    /// processed module is then recorded as inner asset `MODULE_<i>`, with its
    /// boundary, and the loader tree entry `[identifier, path]` is returned; a
    /// source that was ignored or could not be processed is an error, and no
    /// inner asset is recorded. When every key present is numbered below `i`,
    /// as with a number just taken from the builder, the new entries are
    /// appended and replace none.
    pub fn create_module_tuple_code(
        &mut self,
        identifier: &str,
        i: usize,
        processed: ProcessResult,
        path_js: &str,
    ) -> (r: Result<String, ProcessSourceError>)
        requires
            old(self).wf(),
        ensures
            final(self).wf(),
            final(self)@.imports == old(self)@.imports.push(module_import(identifier@, i as nat)),
            final(self)@.counter == old(self)@.counter,
            final(self)@.module_asset_context == old(self)@.module_asset_context,
            final(self)@.server_component_transition == old(self)@.server_component_transition,
            match spec_process_source(processed@) {
                Ok((m, b)) => {
                    &&& r matches Ok(code) && code@ == module_tuple(identifier@, path_js@)
                    &&& final(self)@.inner_assets == spec_ordered_insert(
                        old(self)@.inner_assets,
                        module_key(i as nat),
                        m,
                    )
                    &&& final(self)@.inner_asset_boundaries == match b {
                        Some(bv) => spec_ordered_insert(
                            old(self)@.inner_asset_boundaries,
                            module_key(i as nat),
                            bv,
                        ),
                        None => old(self)@.inner_asset_boundaries,
                    }
                    &&& keys_numbered_below(old(self)@.inner_assets, i as nat)
                        ==> final(self)@.inner_assets == old(self)@.inner_assets.push(
                        (module_key(i as nat), m),
                    )
                    &&& keys_numbered_below(old(self)@.inner_asset_boundaries, i as nat) ==> (
                    b matches Some(bv) ==> final(self)@.inner_asset_boundaries
                        == old(self)@.inner_asset_boundaries.push((module_key(i as nat), bv)))
                },
                Err(e) => {
                    &&& r == Err::<String, ProcessSourceError>(e)
                    &&& final(self)@.inner_assets == old(self)@.inner_assets
                    &&& final(self)@.inner_asset_boundaries == old(self)@.inner_asset_boundaries
                },
            },
            forall|n: nat|
                keys_numbered_below(old(self)@.inner_assets, n) && i < n ==> keys_numbered_below(
                    final(self)@.inner_assets,
                    n,
                ),
            forall|n: nat|
                keys_numbered_below(old(self)@.inner_asset_boundaries, n) && i < n
                    ==> keys_numbered_below(final(self)@.inner_asset_boundaries, n),
            keys_fresh(old(self)@) && i < old(self)@.counter ==> keys_fresh(final(self)@),
    {
        self.add_import(identifier, i);
        let ghost mid = self@;
        let r = match Self::process_source(processed) {
            Ok((module, boundary)) => {
                let ghost bv = opt_boundary_view(boundary);
                self.add_inner_asset(i, module, boundary);
                proof {
                    lemma_insert_numbered(mid.inner_assets, i as nat, module);
                    if let Some(x) = bv {
                        lemma_insert_numbered(mid.inner_asset_boundaries, i as nat, x);
                    }
                }
                Ok(Self::module_tuple_code(identifier, path_js))
            },
            Err(e) => Err(e),
        };
        r
    }

    /// The loader tree entry `[identifier, path]`, where `path_js` is the
    /// module's original source path as a JavaScript string literal.
    pub fn module_tuple_code(identifier: &str, path_js: &str) -> (s: String)
        ensures
            s@ == module_tuple(identifier@, path_js@),
    {
        let mut s = String::from_str("[");
        s.append(identifier);
        s.append(", ");
        s.append(path_js);
        s.append("]");
        assert(s@ =~= module_tuple(identifier@, path_js@));
        s
    }
}

/// How many of the first `k` calls of a builder's history take a number.
pub open spec fn count_taken(takes: Seq<bool>, k: int) -> nat
    decreases k,
{
    if k <= 0 {
        0
    } else {
        count_taken(takes, k - 1) + if takes[k - 1] {
            1nat
        } else {
            0nat
        }
    }
}

proof fn lemma_count_taken_monotonic(takes: Seq<bool>, j: int, k: int)
    requires
        0 <= j <= k,
    ensures
        count_taken(takes, j) <= count_taken(takes, k),
    decreases k - j,
{
    if j < k {
        lemma_count_taken_monotonic(takes, j, k - 1);
    }
}

/// The numbers of a builder's history. `states[0]` is a new builder and each
/// call leads from `states[k]` to `states[k + 1]`: a call that takes a
/// number (`unique_number`, `begin_module`) adds one to the counter and
/// returns the counter it found; the other calls keep the counter. Then the
/// number taken by the `k`-th call is the count of numbers taken before it,
/// so successive numbers are 0, 1, 2, ... and never repeat.
pub proof fn lemma_numbers_of_a_history(states: Seq<BaseLoaderTreeBuilderView>, takes: Seq<bool>)
    requires
        states.len() == takes.len() + 1,
        states[0].counter == 0,
        forall|k: int|
            0 <= k < takes.len() ==> #[trigger] states[k + 1].counter == states[k].counter + if takes[k] {
                1nat
            } else {
                0nat
            },
    ensures
        forall|k: int| 0 <= k < states.len() ==> #[trigger] states[k].counter == count_taken(takes, k),
        forall|j: int, k: int|
            0 <= j < k < takes.len() && takes[j] && takes[k] ==> states[j].counter
                < states[k].counter,
    decreases takes.len(),
{
    if takes.len() > 0 {
        let n = takes.len() - 1;
        let prefix = states.drop_last();
        let ptakes = takes.drop_last();
        assert forall|k: int| 0 <= k < ptakes.len() implies #[trigger] prefix[k + 1].counter
            == prefix[k].counter + if ptakes[k] {
            1nat
        } else {
            0nat
        } by {
            assert(prefix[k + 1] == states[k + 1]);
            assert(states[k + 1].counter == states[k].counter + if takes[k] {
                1nat
            } else {
                0nat
            });
        }
        lemma_numbers_of_a_history(prefix, ptakes);
        assert forall|k: int| 0 <= k <= n implies count_taken(ptakes, k) == count_taken(takes, k) by {
            lemma_count_prefix(takes, k);
        }
        assert forall|k: int| 0 <= k < states.len() implies #[trigger] states[k].counter
            == count_taken(takes, k) by {
            if k <= n {
                assert(states[k] == prefix[k]);
                assert(prefix[k].counter == count_taken(ptakes, k));
            } else {
                assert(states[n] == prefix[n]);
                assert(prefix[n].counter == count_taken(ptakes, n));
                lemma_count_prefix(takes, n);
                assert(states[n].counter == count_taken(takes, n));
                assert(states[n + 1].counter == states[n].counter + if takes[n] {
                    1nat
                } else {
                    0nat
                });
            }
        }
        assert forall|j: int, k: int|
            0 <= j < k < takes.len() && takes[j] && takes[k] implies states[j].counter
            < states[k].counter by {
            lemma_count_taken_monotonic(takes, j + 1, k);
            assert(states[j].counter == count_taken(takes, j));
            assert(states[k].counter == count_taken(takes, k));
        }
    }
}

proof fn lemma_count_prefix(takes: Seq<bool>, k: int)
    requires
        0 <= k < takes.len(),
    ensures
        count_taken(takes.drop_last(), k) == count_taken(takes, k),
    decreases k,
{
    if k > 0 {
        lemma_count_prefix(takes, k - 1);
    }
}

/// Inserting `MODULE_<i>`: when every key is numbered below `i`, the entry
/// is appended; the keys stay numbered below any bound above `i`.
pub proof fn lemma_insert_numbered<V>(entries: Seq<(Seq<char>, V)>, i: nat, v: V)
    ensures
        keys_numbered_below(entries, i) ==> spec_ordered_insert(entries, module_key(i), v)
            == entries.push((module_key(i), v)),
        forall|n: nat|
            keys_numbered_below(entries, n) && i < n ==> keys_numbered_below(
                #[trigger] spec_ordered_insert(entries, module_key(i), v),
                n,
            ),
{
    if keys_numbered_below(entries, i) {
        assert forall|k: int| 0 <= k < entries.len() implies entries[k].0 != module_key(i) by {
            assert(key_numbered_below(entries[k].0, i));
            let j = choose|j: nat| j < i && entries[k].0 == #[trigger] module_key(j);
            lemma_module_keys_distinct(j, i);
        }
    }
    assert forall|n: nat|
        keys_numbered_below(entries, n) && i < n implies keys_numbered_below(
        #[trigger] spec_ordered_insert(entries, module_key(i), v),
        n,
    ) by {
        let r = spec_ordered_insert(entries, module_key(i), v);
        assert forall|k: int| 0 <= k < r.len() implies key_numbered_below(#[trigger] r[k].0, n) by {
            if k < entries.len() && r[k].0 == entries[k].0 {
                assert(key_numbered_below(entries[k].0, n));
            } else {
                assert(r[k].0 == module_key(i));
                assert(key_numbered_below(module_key(i), n));
            }
        }
    }
}

/// The module entry of a number just taken is fresh: when the keys were fresh
/// before `begin_module` (or `unique_number`) took number `i`, every key is
/// numbered below `i`, so `create_module_tuple_code` for `i` appends its
/// entries and replaces none.
pub proof fn lemma_taken_number_is_fresh(
    before: BaseLoaderTreeBuilderView,
    after: BaseLoaderTreeBuilderView,
    i: nat,
)
    requires
        keys_fresh(before),
        i == before.counter,
        after == (BaseLoaderTreeBuilderView { counter: before.counter + 1, ..before }),
    ensures
        keys_numbered_below(after.inner_assets, i),
        keys_numbered_below(after.inner_asset_boundaries, i),
        i < after.counter,
{
}

/// Taking a number raises the bound below which the keys are numbered.
pub proof fn lemma_numbered_below_monotonic<V>(entries: Seq<(Seq<char>, V)>, n: nat, m: nat)
    requires
        keys_numbered_below(entries, n),
        n <= m,
    ensures
        keys_numbered_below(entries, m),
{
    assert forall|k: int| 0 <= k < entries.len() implies key_numbered_below(
        #[trigger] entries[k].0,
        m,
    ) by {
        assert(key_numbered_below(entries[k].0, n));
        let j = choose|j: nat| j < n && entries[k].0 == #[trigger] module_key(j);
        assert(j < m);
    }
}

/// Distinct module numbers give distinct inner asset keys, so no module
/// entry of the loader tree replaces another.
pub proof fn lemma_module_keys_distinct(i: nat, j: nat)
    requires
        i != j,
    ensures
        module_key(i) != module_key(j),
{
    lemma_decimal_injective(i, j);
    if module_key(i) == module_key(j) {
        reveal_strlit("MODULE_");
        assert(spec_decimal(i) =~= module_key(i).skip(7));
        assert(spec_decimal(j) =~= module_key(j).skip(7));
    }
}

proof fn lemma_decimal_len(n: nat)
    ensures
        spec_decimal(n).len() >= 1,
        spec_decimal(n).last() == crate::text::digit_char(n % 10),
    decreases n,
{
    if n >= 10 {
        lemma_decimal_len(n / 10);
    }
}

/// Distinct numbers have distinct decimal representations.
pub proof fn lemma_decimal_injective(i: nat, j: nat)
    requires
        i != j,
    ensures
        spec_decimal(i) != spec_decimal(j),
    decreases i + j,
{
    lemma_decimal_len(i);
    lemma_decimal_len(j);
    if spec_decimal(i) == spec_decimal(j) {
        assert(i % 10 == j % 10);
        if i < 10 && j < 10 {
        } else if i < 10 {
            lemma_decimal_len(j / 10);
            assert(spec_decimal(j).len() >= 2);
        } else if j < 10 {
            lemma_decimal_len(i / 10);
            assert(spec_decimal(i).len() >= 2);
        } else {
            assert(i / 10 != j / 10);
            assert(spec_decimal(i / 10) =~= spec_decimal(i).drop_last());
            assert(spec_decimal(j / 10) =~= spec_decimal(j).drop_last());
            lemma_decimal_injective(i / 10, j / 10);
        }
    }
}

} // verus!
