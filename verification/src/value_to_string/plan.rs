use vstd::prelude::*;

use crate::text::{
    chars_of, opt_view, push_char, push_decimal, spec_decimal, usize_to_decimal, views,
};
use crate::value_to_string::attr::{
    find_attr, spec_find_attr, AttrForm, AttrFormView, AttrInput, AttrInputView, AttrLookup,
    AttrLookupView,
};
use crate::value_to_string::format::{
    all_digits, contains_string, field_var_name, is_numeric_name, is_pure_constant, parse_format_fields,
    spec_fields, spec_is_pure_constant, spec_transformed, spec_var_name, string_views,
};

verus! {

// ---------------------------------------------------------------------------
// Field access
// ---------------------------------------------------------------------------

/// The numeric value of a string of decimal digits.
pub open spec fn decimal_value(s: Seq<char>) -> nat
    decreases s.len(),
{
    if s.len() == 0 {
        0
    } else {
        decimal_value(s.drop_last()) * 10 + ((s.last() as int - 48) as nat)
    }
}

/// Where a resolved value is read from.
#[derive(Debug, Clone)]
pub enum FieldAccess {
    /// `self.N`: a positional field of the deriving struct.
    SelfIndex(usize),
    /// `self.name`: a named field of the deriving struct.
    SelfField(String),
    /// A binding made by the pattern of a match arm.
    Binding(String),
}

pub enum FieldAccessView {
    SelfIndex(nat),
    SelfField(Seq<char>),
    Binding(Seq<char>),
}

impl View for FieldAccess {
    type V = FieldAccessView;

    open spec fn view(&self) -> FieldAccessView {
        match self {
            FieldAccess::SelfIndex(i) => FieldAccessView::SelfIndex(*i as nat),
            FieldAccess::SelfField(n) => FieldAccessView::SelfField(n@),
            FieldAccess::Binding(n) => FieldAccessView::Binding(n@),
        }
    }
}

/// A field name can be read from `self`: a positional name must be a
/// non-empty number that fits in `usize`.
pub open spec fn field_access_ok(name: Seq<char>) -> bool {
    all_digits(name) ==> name.len() > 0 && decimal_value(name) <= usize::MAX
}

/// How a struct field named in a format string is read from `self`.
pub open spec fn spec_struct_access(name: Seq<char>) -> FieldAccessView {
    if all_digits(name) {
        FieldAccessView::SelfIndex(decimal_value(name))
    } else {
        FieldAccessView::SelfField(name)
    }
}

proof fn lemma_decimal_prefix_le(s: Seq<char>, k: int)
    requires
        0 <= k <= s.len(),
    ensures
        decimal_value(s.take(k)) <= decimal_value(s),
    decreases s.len() - k,
{
    if k < s.len() {
        lemma_decimal_prefix_le(s, k + 1);
        assert(s.take(k + 1).drop_last() =~= s.take(k));
    } else {
        assert(s.take(k) =~= s);
    }
}

/// Whether a field name can be read from `self` (see [`field_access_ok`]).
pub fn field_access_is_valid(name: &str) -> (b: bool)
    ensures
        b == field_access_ok(name@),
{
    if !is_numeric_name(name) {
        return true;
    }
    let chars = chars_of(name);
    if chars.len() == 0 {
        return false;
    }
    let mut v: usize = 0;
    let mut k: usize = 0;
    while k < chars.len()
        invariant
            k <= chars.len(),
            chars@ == name@,
            all_digits(name@),
            v == decimal_value(name@.take(k as int)),
        decreases chars.len() - k,
    {
        let d = (chars[k] as u32 - 48) as usize;
        assert(name@.take(k + 1).drop_last() =~= name@.take(k as int));
        assert('0' <= name@[k as int] <= '9');
        if v > (usize::MAX - d) / 10 {
            proof {
                lemma_decimal_prefix_le(name@, k + 1);
            }
            return false;
        }
        v = v * 10 + d;
        k = k + 1;
    }
    assert(name@.take(chars.len() as int) =~= name@);
    true
}

/// Reads the value of a string of decimal digits.
fn parse_decimal(name: &str) -> (v: usize)
    requires
        all_digits(name@),
        decimal_value(name@) <= usize::MAX,
    ensures
        v == decimal_value(name@),
{
    let chars = chars_of(name);
    let mut v: usize = 0;
    let mut k: usize = 0;
    while k < chars.len()
        invariant
            k <= chars.len(),
            chars@ == name@,
            all_digits(name@),
            decimal_value(name@) <= usize::MAX,
            v == decimal_value(name@.take(k as int)),
        decreases chars.len() - k,
    {
        let d = (chars[k] as u32 - 48) as usize;
        assert(name@.take(k + 1).drop_last() =~= name@.take(k as int));
        assert('0' <= name@[k as int] <= '9');
        proof {
            lemma_decimal_prefix_le(name@, k + 1);
        }
        v = v * 10 + d;
        k = k + 1;
    }
    assert(name@.take(chars.len() as int) =~= name@);
    v
}

/// The access of a struct field on `self`: named fields use `self.name`,
/// positional fields use `self.0`.
pub fn struct_field_access(field_name: &str) -> (a: FieldAccess)
    requires
        field_access_ok(field_name@),
    ensures
        a@ == spec_struct_access(field_name@),
{
    if is_numeric_name(field_name) {
        FieldAccess::SelfIndex(parse_decimal(field_name))
    } else {
        FieldAccess::SelfField(String::from_str(field_name))
    }
}

// ---------------------------------------------------------------------------
// Plans
// ---------------------------------------------------------------------------

/// A statement that resolves a value to its string into a local variable.
#[derive(Debug, Clone)]
pub struct Resolve {
    pub var: String,
    pub access: FieldAccess,
}

pub struct ResolveView {
    pub var: Seq<char>,
    pub access: FieldAccessView,
}

impl View for Resolve {
    type V = ResolveView;

    open spec fn view(&self) -> ResolveView {
        ResolveView { var: self.var@, access: self.access@ }
    }
}

impl ResolveView {
    /// Values read from `self` are borrowed before resolving; bindings of a
    /// match arm are references already.
    pub open spec fn add_ref(self) -> bool {
        !(self.access is Binding)
    }
}

/// The statement that resolves the value at `access` into the local `var`.
pub fn generate_resolve(var: String, access: FieldAccess) -> (r: Resolve)
    ensures
        r@ == (ResolveView { var: var@, access: access@ }),
{
    Resolve { var, access }
}

impl Resolve {
    /// Whether the access is borrowed before it is resolved.
    pub fn add_ref(&self) -> (b: bool)
        ensures
            b == self@.add_ref(),
    {
        match self.access {
            FieldAccess::Binding(_) => false,
            _ => true,
        }
    }
}

/// How the string of a value without resolved fields is produced.
#[derive(Debug, Clone)]
pub enum ValueExpr {
    /// The text itself, a constant.
    Constant(String),
    /// The text run through `format!`.
    Format(String),
}

pub enum ValueExprView {
    Constant(Seq<char>),
    Format(Seq<char>),
}

impl View for ValueExpr {
    type V = ValueExprView;

    open spec fn view(&self) -> ValueExprView {
        match self {
            ValueExpr::Constant(s) => ValueExprView::Constant(s@),
            ValueExpr::Format(s) => ValueExprView::Format(s@),
        }
    }
}

/// An expression argument of the format-with-expressions form, resolved
/// into the local variable `var`.
#[derive(Debug, Clone)]
pub struct ExprArg {
    pub var: String,
    pub expr: String,
}

pub struct ExprArgView {
    pub var: Seq<char>,
    pub expr: Seq<char>,
}

impl View for ExprArg {
    type V = ExprArgView;

    open spec fn view(&self) -> ExprArgView {
        ExprArgView { var: self.var@, expr: self.expr@ }
    }
}

/// The local variable of the `i`-th expression argument.
pub open spec fn arg_var(i: nat) -> Seq<char> {
    "__arg"@ + spec_decimal(i)
}

/// The resolved expression arguments.
pub open spec fn spec_expr_args(exprs: Seq<Seq<char>>) -> Seq<ExprArgView> {
    Seq::new(exprs.len(), |i: int| ExprArgView { var: arg_var(i as nat), expr: exprs[i] })
}

/// Names the expression arguments `__arg0`, `__arg1`, ... in order.
pub fn expr_args(exprs: &Vec<String>) -> (r: Vec<ExprArg>)
    ensures
        views(r@) == spec_expr_args(views(exprs@)),
{
    let mut r: Vec<ExprArg> = Vec::new();
    let mut k: usize = 0;
    while k < exprs.len()
        invariant
            k <= exprs.len(),
            views(r@) == spec_expr_args(views(exprs@)).take(k as int),
        decreases exprs.len() - k,
    {
        let mut var = String::from_str("__arg");
        push_decimal(&mut var, k);
        let ghost prev = views(r@);
        r.push(ExprArg { var, expr: exprs[k].clone() });
        assert(views(r@) =~= prev.push(spec_expr_args(views(exprs@))[k as int]));
        k = k + 1;
        assert(views(r@) =~= spec_expr_args(views(exprs@)).take(k as int));
    }
    assert(spec_expr_args(views(exprs@)).take(k as int) =~= spec_expr_args(views(exprs@)));
    r
}

/// The generated `to_string` of a struct.
#[derive(Debug, Clone)]
pub enum StructPlan {
    /// No attribute: delegate to the type's `Display`.
    DisplayDelegate,
    /// A format string without field references: a synchronous function
    /// returning the value.
    Sync(ValueExpr),
    /// A format string with field references: an asynchronous function that
    /// resolves each referenced field, then formats the rewritten string.
    AutoFields { fmt: String, resolves: Vec<Resolve> },
    /// A format string with expression arguments, each resolved first.
    FormatExprs { fmt: String, args: Vec<ExprArg> },
    /// A single expression, resolved and returned.
    DirectExpr(String),
}

pub enum StructPlanView {
    DisplayDelegate,
    Sync(ValueExprView),
    AutoFields { fmt: Seq<char>, resolves: Seq<ResolveView> },
    FormatExprs { fmt: Seq<char>, args: Seq<ExprArgView> },
    DirectExpr(Seq<char>),
}

impl View for StructPlan {
    type V = StructPlanView;

    open spec fn view(&self) -> StructPlanView {
        match self {
            StructPlan::DisplayDelegate => StructPlanView::DisplayDelegate,
            StructPlan::Sync(v) => StructPlanView::Sync(v@),
            StructPlan::AutoFields { fmt, resolves } => StructPlanView::AutoFields {
                fmt: fmt@,
                resolves: views(resolves@),
            },
            StructPlan::FormatExprs { fmt, args } => StructPlanView::FormatExprs {
                fmt: fmt@,
                args: views(args@),
            },
            StructPlan::DirectExpr(e) => StructPlanView::DirectExpr(e@),
        }
    }
}

/// The value of a format string without field references: the string
/// itself when it is a pure constant, else formatted.
pub open spec fn spec_value_expr(fmt: Seq<char>) -> ValueExprView {
    if spec_is_pure_constant(fmt) {
        ValueExprView::Constant(spec_transformed(fmt))
    } else {
        ValueExprView::Format(spec_transformed(fmt))
    }
}

/// The resolve statements of a struct's referenced fields.
pub open spec fn spec_struct_resolves(refs: Seq<Seq<char>>) -> Seq<ResolveView> {
    refs.map_values(
        |r: Seq<char>| ResolveView { var: spec_var_name(r), access: spec_struct_access(r) },
    )
}

/// Every referenced field of a struct format string can be read from `self`.
pub open spec fn struct_refs_ok(fmt: Seq<char>) -> bool {
    forall|k: int| 0 <= k < spec_fields(fmt).len() ==> field_access_ok(#[trigger] spec_fields(fmt)[k])
}

pub open spec fn spec_struct_format_auto_fields(fmt: Seq<char>) -> StructPlanView {
    if spec_fields(fmt).len() == 0 {
        StructPlanView::Sync(spec_value_expr(fmt))
    } else {
        StructPlanView::AutoFields {
            fmt: spec_transformed(fmt),
            resolves: spec_struct_resolves(spec_fields(fmt)),
        }
    }
}

pub open spec fn spec_struct_plan(attr: Option<AttrFormView>) -> StructPlanView {
    match attr {
        None => StructPlanView::DisplayDelegate,
        Some(AttrFormView::FormatAutoFields(f)) => spec_struct_format_auto_fields(f),
        Some(AttrFormView::FormatExprs(f, es)) => StructPlanView::FormatExprs {
            fmt: f,
            args: spec_expr_args(es),
        },
        Some(AttrFormView::DirectExpr(e)) => StructPlanView::DirectExpr(e),
    }
}

/// The plan for a format string with auto-field references:
/// `#[value_to_string("{field}")]`.
pub fn generate_struct_format_auto_fields(fmt: &str) -> (p: StructPlan)
    requires
        fmt@.len() < usize::MAX,
        struct_refs_ok(fmt@),
    ensures
        p@ == spec_struct_format_auto_fields(fmt@),
{
    let (transformed, refs) = parse_format_fields(fmt);
    if refs.len() == 0 {
        let value = if is_pure_constant(fmt) {
            ValueExpr::Constant(transformed)
        } else {
            ValueExpr::Format(transformed)
        };
        return StructPlan::Sync(value);
    }
    let mut resolves: Vec<Resolve> = Vec::new();
    let mut k: usize = 0;
    while k < refs.len()
        invariant
            k <= refs.len(),
            string_views(refs@) == spec_fields(fmt@),
            struct_refs_ok(fmt@),
            views(resolves@) == spec_struct_resolves(string_views(refs@)).take(k as int),
        decreases refs.len() - k,
    {
        let name = refs[k].as_str();
        assert(string_views(refs@)[k as int] == refs@[k as int]@);
        let var = field_var_name(name);
        let access = struct_field_access(name);
        let ghost prev = views(resolves@);
        resolves.push(generate_resolve(var, access));
        assert(views(resolves@) =~= prev.push(
            spec_struct_resolves(string_views(refs@))[k as int],
        ));
        k = k + 1;
        assert(views(resolves@) =~= spec_struct_resolves(string_views(refs@)).take(k as int));
    }
    assert(spec_struct_resolves(string_views(refs@)).take(k as int) =~= spec_struct_resolves(
        string_views(refs@),
    ));
    StructPlan::AutoFields { fmt: transformed, resolves }
}

/// The plan for a format string with expression arguments:
/// `#[value_to_string("fmt {}", expr1, expr2)]`.
pub fn generate_struct_format_exprs(fmt: String, exprs: &Vec<String>) -> (p: StructPlan)
    ensures
        p@ == (StructPlanView::FormatExprs { fmt: fmt@, args: spec_expr_args(views(exprs@)) }),
{
    StructPlan::FormatExprs { fmt, args: expr_args(exprs) }
}

/// The plan for direct expression delegation: `#[value_to_string(expr)]`.
pub fn generate_struct_direct_expr(expr: String) -> (p: StructPlan)
    ensures
        p@ == StructPlanView::DirectExpr(expr@),
{
    StructPlan::DirectExpr(expr)
}

/// The plan of a struct's `to_string`, by the form of its attribute.
pub fn generate_struct_impl(attr: Option<AttrForm>) -> (p: StructPlan)
    requires
        attr matches Some(AttrForm::FormatAutoFields(f)) ==> f@.len() < usize::MAX && struct_refs_ok(f@),
    ensures
        p@ == spec_struct_plan(match attr {
            Some(f) => Some(f@),
            None => None,
        }),
{
    match attr {
        Some(AttrForm::FormatAutoFields(fmt)) => generate_struct_format_auto_fields(fmt.as_str()),
        Some(AttrForm::FormatExprs(fmt, exprs)) => generate_struct_format_exprs(fmt, &exprs),
        Some(AttrForm::DirectExpr(expr)) => generate_struct_direct_expr(expr),
        None => StructPlan::DisplayDelegate,
    }
}

// ---------------------------------------------------------------------------
// Enums
// ---------------------------------------------------------------------------

/// The fields of an enum variant.
#[derive(Debug, Clone)]
pub enum FieldsShape {
    /// Named fields, by name.
    Named(Vec<String>),
    /// Positional fields, by count.
    Unnamed(usize),
    Unit,
}

pub enum FieldsShapeView {
    Named(Seq<Seq<char>>),
    Unnamed(nat),
    Unit,
}

impl View for FieldsShape {
    type V = FieldsShapeView;

    open spec fn view(&self) -> FieldsShapeView {
        match self {
            FieldsShape::Named(n) => FieldsShapeView::Named(string_views(n@)),
            FieldsShape::Unnamed(c) => FieldsShapeView::Unnamed(*c as nat),
            FieldsShape::Unit => FieldsShapeView::Unit,
        }
    }
}

/// One variant of the deriving enum.
#[derive(Debug)]
pub struct VariantInput {
    pub name: String,
    pub attrs: Vec<AttrInput>,
    pub fields: FieldsShape,
}

pub struct VariantInputView {
    pub name: Seq<char>,
    pub attrs: Seq<AttrInputView>,
    pub fields: FieldsShapeView,
}

impl View for VariantInput {
    type V = VariantInputView;

    open spec fn view(&self) -> VariantInputView {
        VariantInputView { name: self.name@, attrs: views(self.attrs@), fields: self.fields@ }
    }
}

/// A named field in a match pattern: bound to its name, or ignored (`name: _`).
#[derive(Debug, Clone)]
pub struct NamedBinding {
    pub name: String,
    pub bound: bool,
}

pub struct NamedBindingView {
    pub name: Seq<char>,
    pub bound: bool,
}

impl View for NamedBinding {
    type V = NamedBindingView;

    open spec fn view(&self) -> NamedBindingView {
        NamedBindingView { name: self.name@, bound: self.bound }
    }
}

/// The pattern of a match arm.
#[derive(Debug, Clone)]
pub enum ArmPattern {
    /// `Enum::Variant { a, b: _ }`
    Named(Vec<NamedBinding>),
    /// `Enum::Variant(_0, _)`: the variable bound at each position, or none.
    Unnamed(Vec<Option<String>>),
    /// `Enum::Variant`
    Unit,
}

pub enum ArmPatternView {
    Named(Seq<NamedBindingView>),
    Unnamed(Seq<Option<Seq<char>>>),
    Unit,
}

impl View for ArmPattern {
    type V = ArmPatternView;

    open spec fn view(&self) -> ArmPatternView {
        match self {
            ArmPattern::Named(b) => ArmPatternView::Named(views(b@)),
            ArmPattern::Unnamed(b) => ArmPatternView::Unnamed(
                b@.map_values(|o: Option<String>| opt_view(o)),
            ),
            ArmPattern::Unit => ArmPatternView::Unit,
        }
    }
}

/// The body of a match arm.
#[derive(Debug, Clone)]
pub enum ArmBody {
    /// Resolve the referenced fields, then produce the value.
    Auto { resolves: Vec<Resolve>, value: ValueExpr },
    /// Resolve the expression arguments, then format.
    Exprs { fmt: String, args: Vec<ExprArg> },
    /// Resolve one expression and return it.
    Direct(String),
}

pub enum ArmBodyView {
    Auto { resolves: Seq<ResolveView>, value: ValueExprView },
    Exprs { fmt: Seq<char>, args: Seq<ExprArgView> },
    Direct(Seq<char>),
}

impl View for ArmBody {
    type V = ArmBodyView;

    open spec fn view(&self) -> ArmBodyView {
        match self {
            ArmBody::Auto { resolves, value } => ArmBodyView::Auto {
                resolves: views(resolves@),
                value: value@,
            },
            ArmBody::Exprs { fmt, args } => ArmBodyView::Exprs { fmt: fmt@, args: views(args@) },
            ArmBody::Direct(e) => ArmBodyView::Direct(e@),
        }
    }
}

/// One match arm of the generated `to_string` of an enum.
#[derive(Debug, Clone)]
pub struct ArmPlan {
    pub variant: String,
    pub pattern: ArmPattern,
    pub body: ArmBody,
}

pub struct ArmPlanView {
    pub variant: Seq<char>,
    pub pattern: ArmPatternView,
    pub body: ArmBodyView,
}

impl View for ArmPlan {
    type V = ArmPlanView;

    open spec fn view(&self) -> ArmPlanView {
        ArmPlanView { variant: self.variant@, pattern: self.pattern@, body: self.body@ }
    }
}

/// The binding of the positional field `i`.
pub open spec fn positional_var(i: nat) -> Seq<char> {
    seq!['_'] + spec_decimal(i)
}

/// The value of an auto-field arm: a constant only when nothing is
/// referenced and the string has no braces.
pub open spec fn spec_arm_value(fmt: Seq<char>) -> ValueExprView {
    if spec_fields(fmt).len() == 0 && spec_is_pure_constant(fmt) {
        ValueExprView::Constant(spec_transformed(fmt))
    } else {
        ValueExprView::Format(spec_transformed(fmt))
    }
}

/// The pattern of an auto-field arm: only referenced fields are bound.
pub open spec fn spec_auto_pattern(fields: FieldsShapeView, refs: Seq<Seq<char>>) -> ArmPatternView {
    match fields {
        FieldsShapeView::Named(names) => ArmPatternView::Named(
            names.map_values(|n: Seq<char>| NamedBindingView { name: n, bound: refs.contains(n) }),
        ),
        FieldsShapeView::Unnamed(count) => ArmPatternView::Unnamed(
            Seq::new(
                count,
                |i: int|
                    if refs.contains(spec_decimal(i as nat)) {
                        Some(positional_var(i as nat))
                    } else {
                        None
                    },
            ),
        ),
        FieldsShapeView::Unit => ArmPatternView::Unit,
    }
}

/// The resolve statements of an auto-field arm.
pub open spec fn spec_auto_resolves(fields: FieldsShapeView, refs: Seq<Seq<char>>) -> Seq<ResolveView> {
    match fields {
        FieldsShapeView::Named(_) => refs.map_values(
            |r: Seq<char>| ResolveView { var: spec_var_name(r), access: FieldAccessView::Binding(r) },
        ),
        FieldsShapeView::Unnamed(_) => refs.map_values(
            |r: Seq<char>|
                ResolveView {
                    var: spec_var_name(r),
                    access: FieldAccessView::Binding(spec_var_name(r)),
                },
        ),
        FieldsShapeView::Unit => seq![],
    }
}

/// The arm of a variant whose string is a format string with auto-field references.
pub open spec fn spec_auto_arm(variant: Seq<char>, fields: FieldsShapeView, fmt: Seq<char>) -> ArmPlanView {
    ArmPlanView {
        variant,
        pattern: spec_auto_pattern(fields, spec_fields(fmt)),
        body: ArmBodyView::Auto {
            resolves: spec_auto_resolves(fields, spec_fields(fmt)),
            value: spec_arm_value(fmt),
        },
    }
}

/// A pattern that binds every field of a variant.
pub open spec fn spec_destructure_all(fields: FieldsShapeView) -> ArmPatternView {
    match fields {
        FieldsShapeView::Named(names) => ArmPatternView::Named(
            names.map_values(|n: Seq<char>| NamedBindingView { name: n, bound: true }),
        ),
        FieldsShapeView::Unnamed(count) => ArmPatternView::Unnamed(
            Seq::new(count, |i: int| Some(positional_var(i as nat))),
        ),
        FieldsShapeView::Unit => ArmPatternView::Unit,
    }
}

/// A character that may start a binding name: a lowercase ASCII letter or `_`.
pub open spec fn is_binding_start(c: char) -> bool {
    ('a' <= c <= 'z') || c == '_'
}

/// A character that may continue a binding name: a lowercase ASCII letter,
/// a digit or `_`.
pub open spec fn is_binding_continue(c: char) -> bool {
    is_binding_start(c) || ('0' <= c <= '9')
}

/// A keyword of Rust, strict or reserved, which cannot name a binding.
pub open spec fn is_rust_keyword(s: Seq<char>) -> bool {
    s == "as"@
        || s == "async"@
        || s == "await"@
        || s == "break"@
        || s == "const"@
        || s == "continue"@
        || s == "crate"@
        || s == "dyn"@
        || s == "else"@
        || s == "enum"@
        || s == "extern"@
        || s == "false"@
        || s == "fn"@
        || s == "for"@
        || s == "if"@
        || s == "impl"@
        || s == "in"@
        || s == "let"@
        || s == "loop"@
        || s == "match"@
        || s == "mod"@
        || s == "move"@
        || s == "mut"@
        || s == "pub"@
        || s == "ref"@
        || s == "return"@
        || s == "self"@
        || s == "static"@
        || s == "struct"@
        || s == "super"@
        || s == "trait"@
        || s == "true"@
        || s == "type"@
        || s == "unsafe"@
        || s == "use"@
        || s == "where"@
        || s == "while"@
        || s == "abstract"@
        || s == "become"@
        || s == "box"@
        || s == "do"@
        || s == "final"@
        || s == "macro"@
        || s == "override"@
        || s == "priv"@
        || s == "typeof"@
        || s == "unsized"@
        || s == "virtual"@
        || s == "yield"@
        || s == "try"@
        || s == "gen"@
}

/// An expression that is a bare snake_case identifier which is not a
/// keyword nor `_`. By Rust's naming rules such a name denotes a local
/// binding: constants and statics are written in upper case, and unit
/// structs and variants start with an upper-case letter, so they are never
/// taken for a binding.
pub open spec fn is_bare_ident(s: Seq<char>) -> bool {
    &&& s.len() > 0
    &&& is_binding_start(s[0])
    &&& forall|k: int| 1 <= k < s.len() ==> is_binding_continue(#[trigger] s[k])
    &&& s != "_"@
    &&& !is_rust_keyword(s)
}

fn eq_str(a: &String, b: &str) -> (r: bool)
    ensures
        r == (a@ == b@),
{
    *a == String::from_str(b)
}

/// Whether a name is a Rust keyword (see [`is_rust_keyword`]).
pub fn is_keyword(name: &str) -> (b: bool)
    ensures
        b == is_rust_keyword(name@),
{
    let owned = String::from_str(name);
    eq_str(&owned, "as")
        || eq_str(&owned, "async")
        || eq_str(&owned, "await")
        || eq_str(&owned, "break")
        || eq_str(&owned, "const")
        || eq_str(&owned, "continue")
        || eq_str(&owned, "crate")
        || eq_str(&owned, "dyn")
        || eq_str(&owned, "else")
        || eq_str(&owned, "enum")
        || eq_str(&owned, "extern")
        || eq_str(&owned, "false")
        || eq_str(&owned, "fn")
        || eq_str(&owned, "for")
        || eq_str(&owned, "if")
        || eq_str(&owned, "impl")
        || eq_str(&owned, "in")
        || eq_str(&owned, "let")
        || eq_str(&owned, "loop")
        || eq_str(&owned, "match")
        || eq_str(&owned, "mod")
        || eq_str(&owned, "move")
        || eq_str(&owned, "mut")
        || eq_str(&owned, "pub")
        || eq_str(&owned, "ref")
        || eq_str(&owned, "return")
        || eq_str(&owned, "self")
        || eq_str(&owned, "static")
        || eq_str(&owned, "struct")
        || eq_str(&owned, "super")
        || eq_str(&owned, "trait")
        || eq_str(&owned, "true")
        || eq_str(&owned, "type")
        || eq_str(&owned, "unsafe")
        || eq_str(&owned, "use")
        || eq_str(&owned, "where")
        || eq_str(&owned, "while")
        || eq_str(&owned, "abstract")
        || eq_str(&owned, "become")
        || eq_str(&owned, "box")
        || eq_str(&owned, "do")
        || eq_str(&owned, "final")
        || eq_str(&owned, "macro")
        || eq_str(&owned, "override")
        || eq_str(&owned, "priv")
        || eq_str(&owned, "typeof")
        || eq_str(&owned, "unsized")
        || eq_str(&owned, "virtual")
        || eq_str(&owned, "yield")
        || eq_str(&owned, "try")
        || eq_str(&owned, "gen")
}

/// The pattern of a direct-expression arm: the single field of a
/// one-field tuple variant is bound under the name of the expression when
/// the expression is a bare binding name (`#[value_to_string(more)] More(..)`
/// names the field `more`, and `_0` names it `_0`); otherwise, as for an
/// expression that names a constant or a unit struct, every field is bound
/// as for the other forms.
pub open spec fn spec_direct_pattern(fields: FieldsShapeView, expr: Seq<char>) -> ArmPatternView {
    if fields == FieldsShapeView::Unnamed(1) && is_bare_ident(expr) {
        ArmPatternView::Unnamed(seq![Some(expr)])
    } else {
        spec_destructure_all(fields)
    }
}

/// Whether an expression is a bare binding name (see [`is_bare_ident`]).
pub fn is_bare_identifier(expr: &str) -> (b: bool)
    ensures
        b == is_bare_ident(expr@),
{
    let chars = chars_of(expr);
    if chars.len() == 0 {
        return false;
    }
    let c0 = chars[0];
    if !(('a' <= c0 && c0 <= 'z') || c0 == '_') {
        return false;
    }
    let mut k: usize = 1;
    while k < chars.len()
        invariant
            1 <= k <= chars.len(),
            chars@ == expr@,
            forall|j: int| 1 <= j < k ==> is_binding_continue(#[trigger] expr@[j]),
        decreases chars.len() - k,
    {
        let c = chars[k];
        if !(('a' <= c && c <= 'z') || c == '_' || ('0' <= c && c <= '9')) {
            assert(!is_binding_continue(expr@[k as int]));
            return false;
        }
        k = k + 1;
    }
    let owned = String::from_str(expr);
    !(eq_str(&owned, "_") || is_keyword(expr))
}

/// The arm generated for a variant, by the attribute in effect on it
/// (a variant without one shows its own name).
pub open spec fn spec_variant_arm(v: VariantInputView) -> ArmPlanView {
    match spec_find_attr(v.attrs).form() {
        Some(AttrFormView::FormatExprs(f, es)) => ArmPlanView {
            variant: v.name,
            pattern: spec_destructure_all(v.fields),
            body: ArmBodyView::Exprs { fmt: f, args: spec_expr_args(es) },
        },
        Some(AttrFormView::DirectExpr(e)) => ArmPlanView {
            variant: v.name,
            pattern: spec_direct_pattern(v.fields, e),
            body: ArmBodyView::Direct(e),
        },
        Some(AttrFormView::FormatAutoFields(f)) => spec_auto_arm(v.name, v.fields, f),
        None => spec_auto_arm(v.name, v.fields, v.name),
    }
}

/// Whether the arm of a variant has to await something.
pub open spec fn spec_variant_async(v: VariantInputView) -> bool {
    match spec_find_attr(v.attrs).form() {
        Some(AttrFormView::FormatExprs(_, _)) => true,
        Some(AttrFormView::DirectExpr(_)) => true,
        Some(AttrFormView::FormatAutoFields(f)) => spec_fields(f).len() > 0,
        None => spec_fields(v.name).len() > 0,
    }
}

/// The message reported for a variant's malformed attribute, if any.
pub open spec fn spec_variant_diagnostic(v: VariantInputView) -> Seq<Seq<char>> {
    match spec_find_attr(v.attrs) {
        AttrLookupView::Invalid(m) => seq![m],
        _ => seq![],
    }
}

/// The messages reported while planning the variants, in order.
pub open spec fn spec_enum_diagnostics(vs: Seq<VariantInputView>) -> Seq<Seq<char>>
    decreases vs.len(),
{
    if vs.len() == 0 {
        seq![]
    } else {
        spec_enum_diagnostics(vs.drop_last()) + spec_variant_diagnostic(vs.last())
    }
}

/// The generated `to_string` of an enum: one arm per variant, asynchronous
/// when some arm awaits.
#[derive(Debug, Clone)]
pub struct EnumPlan {
    pub arms: Vec<ArmPlan>,
    pub needs_async: bool,
    pub diagnostics: Vec<String>,
}

pub struct EnumPlanView {
    pub arms: Seq<ArmPlanView>,
    pub needs_async: bool,
    pub diagnostics: Seq<Seq<char>>,
}

impl View for EnumPlan {
    type V = EnumPlanView;

    open spec fn view(&self) -> EnumPlanView {
        EnumPlanView {
            arms: views(self.arms@),
            needs_async: self.needs_async,
            diagnostics: string_views(self.diagnostics@),
        }
    }
}

pub open spec fn spec_enum_plan(vs: Seq<VariantInputView>) -> EnumPlanView {
    EnumPlanView {
        arms: vs.map_values(|v: VariantInputView| spec_variant_arm(v)),
        needs_async: exists|i: int| 0 <= i < vs.len() && spec_variant_async(#[trigger] vs[i]),
        diagnostics: spec_enum_diagnostics(vs),
    }
}

/// The name of every variant (used as a format string) has fields that a
/// variant's arm can handle: the names of a variant must fit in memory.
pub open spec fn variant_ok(v: VariantInputView) -> bool {
    &&& v.name.len() < usize::MAX
    &&& spec_find_attr(v.attrs).form() matches Some(AttrFormView::FormatAutoFields(f)) ==> f.len()
        < usize::MAX
}

/// The binding of the positional field `i`: `_i`.
fn positional_binding(i: usize) -> (s: String)
    ensures
        s@ == positional_var(i as nat),
{
    let mut s = String::new();
    push_char(&mut s, '_');
    push_decimal(&mut s, i);
    assert(s@ =~= positional_var(i as nat));
    s
}

/// A pattern that binds all fields of a variant: named fields bind to their
/// name, positional fields to `_0`, `_1`, ...
pub fn enum_destructure_all(fields: &FieldsShape) -> (p: ArmPattern)
    ensures
        p@ == spec_destructure_all(fields@),
{
    match fields {
        FieldsShape::Named(names) => {
            let mut b: Vec<NamedBinding> = Vec::new();
            let mut k: usize = 0;
            while k < names.len()
                invariant
                    k <= names.len(),
                    views(b@) == string_views(names@).take(k as int).map_values(
                        |n: Seq<char>| NamedBindingView { name: n, bound: true },
                    ),
                decreases names.len() - k,
            {
                let ghost prev = views(b@);
                b.push(NamedBinding { name: names[k].clone(), bound: true });
                assert(views(b@) =~= prev.push(NamedBindingView { name: names@[k as int]@, bound: true }));
                assert(string_views(names@)[k as int] == names@[k as int]@);
                k = k + 1;
                assert(views(b@) =~= string_views(names@).take(k as int).map_values(
                    |n: Seq<char>| NamedBindingView { name: n, bound: true },
                ));
            }
            assert(string_views(names@).take(k as int) =~= string_views(names@));
            ArmPattern::Named(b)
        },
        FieldsShape::Unnamed(count) => {
            let mut b: Vec<Option<String>> = Vec::new();
            let mut k: usize = 0;
            while k < *count
                invariant
                    k <= *count,
                    b@.map_values(|o: Option<String>| opt_view(o)) =~= Seq::new(
                        k as nat,
                        |i: int| Some(positional_var(i as nat)),
                    ),
                decreases *count - k,
            {
                let ghost prev = b@.map_values(|o: Option<String>| opt_view(o));
                b.push(Some(positional_binding(k)));
                assert(b@.map_values(|o: Option<String>| opt_view(o)) =~= prev.push(
                    Some(positional_var(k as nat)),
                ));
                k = k + 1;
                assert(b@.map_values(|o: Option<String>| opt_view(o)) =~= Seq::new(
                    k as nat,
                    |i: int| Some(positional_var(i as nat)),
                ));
            }
            ArmPattern::Unnamed(b)
        },
        FieldsShape::Unit => ArmPattern::Unit,
    }
}

/// The match arm of a variant whose string is a format string with
/// auto-field references; records in `needs_async` whether it awaits.
pub fn generate_enum_format_auto_fields(
    variant: &String,
    fields: &FieldsShape,
    fmt: &str,
    needs_async: &mut bool,
) -> (arm: ArmPlan)
    requires
        fmt@.len() < usize::MAX,
    ensures
        arm@ == spec_auto_arm(variant@, fields@, fmt@),
        *final(needs_async) == (*old(needs_async) || spec_fields(fmt@).len() > 0),
{
    let (transformed, refs) = parse_format_fields(fmt);
    let ghost rs = string_views(refs@);
    if refs.len() > 0 {
        *needs_async = true;
    }
    let value = if refs.len() == 0 && is_pure_constant(fmt) {
        ValueExpr::Constant(transformed)
    } else {
        ValueExpr::Format(transformed)
    };
    let mut resolves: Vec<Resolve> = Vec::new();
    let pattern = match fields {
        FieldsShape::Named(names) => {
            let mut b: Vec<NamedBinding> = Vec::new();
            let mut k: usize = 0;
            while k < names.len()
                invariant
                    k <= names.len(),
                    rs == string_views(refs@),
                    views(b@) == string_views(names@).take(k as int).map_values(
                        |n: Seq<char>| NamedBindingView { name: n, bound: rs.contains(n) },
                    ),
                decreases names.len() - k,
            {
                let bound = contains_string(&refs, &names[k]);
                let ghost prev = views(b@);
                b.push(NamedBinding { name: names[k].clone(), bound });
                assert(views(b@) =~= prev.push(NamedBindingView { name: names@[k as int]@, bound }));
                assert(string_views(names@)[k as int] == names@[k as int]@);
                k = k + 1;
                assert(views(b@) =~= string_views(names@).take(k as int).map_values(
                    |n: Seq<char>| NamedBindingView { name: n, bound: rs.contains(n) },
                ));
            }
            assert(string_views(names@).take(k as int) =~= string_views(names@));
            let mut j: usize = 0;
            while j < refs.len()
                invariant
                    j <= refs.len(),
                    rs == string_views(refs@),
                    views(resolves@) == rs.take(j as int).map_values(
                        |r: Seq<char>|
                            ResolveView { var: spec_var_name(r), access: FieldAccessView::Binding(r) },
                    ),
                decreases refs.len() - j,
            {
                assert(rs[j as int] == refs@[j as int]@);
                let var = field_var_name(refs[j].as_str());
                let ghost prev = views(resolves@);
                resolves.push(generate_resolve(var, FieldAccess::Binding(refs[j].clone())));
                assert(views(resolves@) =~= prev.push(
                    ResolveView {
                        var: spec_var_name(rs[j as int]),
                        access: FieldAccessView::Binding(rs[j as int]),
                    },
                ));
                j = j + 1;
                assert(views(resolves@) =~= rs.take(j as int).map_values(
                    |r: Seq<char>|
                        ResolveView { var: spec_var_name(r), access: FieldAccessView::Binding(r) },
                ));
            }
            assert(rs.take(j as int) =~= rs);
            ArmPattern::Named(b)
        },
        FieldsShape::Unnamed(count) => {
            let mut b: Vec<Option<String>> = Vec::new();
            let mut k: usize = 0;
            while k < *count
                invariant
                    k <= *count,
                    rs == string_views(refs@),
                    b@.map_values(|o: Option<String>| opt_view(o)) =~= Seq::new(
                        k as nat,
                        |i: int|
                            if rs.contains(spec_decimal(i as nat)) {
                                Some(positional_var(i as nat))
                            } else {
                                None
                            },
                    ),
                decreases *count - k,
            {
                let idx = usize_to_decimal(k);
                let ghost prev = b@.map_values(|o: Option<String>| opt_view(o));
                if contains_string(&refs, &idx) {
                    b.push(Some(positional_binding(k)));
                    assert(b@.map_values(|o: Option<String>| opt_view(o)) =~= prev.push(
                        Some(positional_var(k as nat)),
                    ));
                } else {
                    b.push(None);
                    assert(b@.map_values(|o: Option<String>| opt_view(o)) =~= prev.push(None));
                }
                k = k + 1;
                assert(b@.map_values(|o: Option<String>| opt_view(o)) =~= Seq::new(
                    k as nat,
                    |i: int|
                        if rs.contains(spec_decimal(i as nat)) {
                            Some(positional_var(i as nat))
                        } else {
                            None
                        },
                ));
            }
            let mut j: usize = 0;
            while j < refs.len()
                invariant
                    j <= refs.len(),
                    rs == string_views(refs@),
                    views(resolves@) == rs.take(j as int).map_values(
                        |r: Seq<char>|
                            ResolveView {
                                var: spec_var_name(r),
                                access: FieldAccessView::Binding(spec_var_name(r)),
                            },
                    ),
                decreases refs.len() - j,
            {
                assert(rs[j as int] == refs@[j as int]@);
                let var = field_var_name(refs[j].as_str());
                let access = FieldAccess::Binding(var.clone());
                let ghost prev = views(resolves@);
                resolves.push(generate_resolve(var, access));
                assert(views(resolves@) =~= prev.push(
                    ResolveView {
                        var: spec_var_name(rs[j as int]),
                        access: FieldAccessView::Binding(spec_var_name(rs[j as int])),
                    },
                ));
                j = j + 1;
                assert(views(resolves@) =~= rs.take(j as int).map_values(
                    |r: Seq<char>|
                        ResolveView {
                            var: spec_var_name(r),
                            access: FieldAccessView::Binding(spec_var_name(r)),
                        },
                ));
            }
            assert(rs.take(j as int) =~= rs);
            ArmPattern::Unnamed(b)
        },
        FieldsShape::Unit => {
            assert(views(resolves@) =~= seq![]);
            ArmPattern::Unit
        },
    };
    ArmPlan {
        variant: variant.clone(),
        pattern,
        body: ArmBody::Auto { resolves, value },
    }
}

/// The match arm of a variant with a format string and expression arguments.
pub fn generate_enum_format_exprs(
    variant: &String,
    fields: &FieldsShape,
    fmt: String,
    exprs: &Vec<String>,
) -> (arm: ArmPlan)
    ensures
        arm@ == (ArmPlanView {
            variant: variant@,
            pattern: spec_destructure_all(fields@),
            body: ArmBodyView::Exprs { fmt: fmt@, args: spec_expr_args(views(exprs@)) },
        }),
{
    ArmPlan {
        variant: variant.clone(),
        pattern: enum_destructure_all(fields),
        body: ArmBody::Exprs { fmt, args: expr_args(exprs) },
    }
}

/// The match arm of a variant with a direct expression.
pub fn generate_enum_direct_expr(variant: &String, fields: &FieldsShape, expr: String) -> (arm:
    ArmPlan)
    ensures
        arm@ == (ArmPlanView {
            variant: variant@,
            pattern: spec_direct_pattern(fields@, expr@),
            body: ArmBodyView::Direct(expr@),
        }),
{
    let one_field = match fields {
        FieldsShape::Unnamed(count) => *count == 1,
        _ => false,
    };
    let pattern = if one_field && is_bare_identifier(expr.as_str()) {
        let mut b: Vec<Option<String>> = Vec::new();
        b.push(Some(expr.clone()));
        assert(b@.map_values(|o: Option<String>| opt_view(o)) =~= seq![Some(expr@)]);
        ArmPattern::Unnamed(b)
    } else {
        enum_destructure_all(fields)
    };
    ArmPlan { variant: variant.clone(), pattern, body: ArmBody::Direct(expr) }
}

/// Plans the generated `to_string` of an enum: one arm per variant, in
/// order. The function is asynchronous when some arm awaits.
pub fn generate_enum_impl(variants: &Vec<VariantInput>) -> (p: EnumPlan)
    requires
        forall|i: int| 0 <= i < variants@.len() ==> variant_ok(#[trigger] variants@[i]@),
    ensures
        p@ == spec_enum_plan(views(variants@)),
{
    let ghost vs = views(variants@);
    let mut arms: Vec<ArmPlan> = Vec::new();
    let mut diagnostics: Vec<String> = Vec::new();
    let mut needs_async = false;
    let mut k: usize = 0;
    while k < variants.len()
        invariant
            k <= variants.len(),
            vs == views(variants@),
            forall|i: int| 0 <= i < variants@.len() ==> variant_ok(#[trigger] variants@[i]@),
            views(arms@) == vs.take(k as int).map_values(|v: VariantInputView| spec_variant_arm(v)),
            needs_async == exists|i: int| 0 <= i < k && spec_variant_async(#[trigger] vs[i]),
            string_views(diagnostics@) == spec_enum_diagnostics(vs.take(k as int)),
        decreases variants.len() - k,
    {
        let variant = &variants[k];
        assert(vs[k as int] == variant@);
        assert(variant_ok(variant@));
        let ghost v = variant@;
        let ghost prev_diags = string_views(diagnostics@);
        let lookup = find_attr(&variant.attrs);
        let form = match lookup {
            AttrLookup::Found(f) => Some(f),
            AttrLookup::Invalid(m) => {
                diagnostics.push(m);
                None
            },
            AttrLookup::Missing => None,
        };
        assert(vs.take(k + 1).drop_last() =~= vs.take(k as int));
        assert(string_views(diagnostics@) =~= prev_diags + spec_variant_diagnostic(v));
        let was_async = needs_async;
        let arm = match form {
            Some(AttrForm::FormatExprs(fmt, exprs)) => {
                needs_async = true;
                generate_enum_format_exprs(&variant.name, &variant.fields, fmt, &exprs)
            },
            Some(AttrForm::DirectExpr(expr)) => {
                needs_async = true;
                generate_enum_direct_expr(&variant.name, &variant.fields, expr)
            },
            Some(AttrForm::FormatAutoFields(fmt)) => {
                generate_enum_format_auto_fields(
                    &variant.name,
                    &variant.fields,
                    fmt.as_str(),
                    &mut needs_async,
                )
            },
            None => {
                generate_enum_format_auto_fields(
                    &variant.name,
                    &variant.fields,
                    variant.name.as_str(),
                    &mut needs_async,
                )
            },
        };
        assert(arm@ == spec_variant_arm(v));
        assert(needs_async == (was_async || spec_variant_async(v)));
        let ghost prev_arms = views(arms@);
        arms.push(arm);
        assert(views(arms@) =~= prev_arms.push(spec_variant_arm(v)));
        k = k + 1;
        assert(views(arms@) =~= vs.take(k as int).map_values(
            |v: VariantInputView| spec_variant_arm(v),
        ));
        assert(needs_async == exists|i: int| 0 <= i < k && spec_variant_async(#[trigger] vs[i]))
            by {
            if needs_async && !was_async {
                assert(spec_variant_async(vs[k - 1]));
            }
        }
    }
    assert(vs.take(k as int) =~= vs);
    EnumPlan { arms, needs_async, diagnostics }
}

// ---------------------------------------------------------------------------
// The derive
// ---------------------------------------------------------------------------

/// The kind of type the derive is applied to.
#[derive(Debug)]
pub enum DeriveData {
    Struct,
    Enum(Vec<VariantInput>),
    Union,
}

pub enum DeriveDataView {
    Struct,
    Enum(Seq<VariantInputView>),
    Union,
}

/// The type the derive is applied to: its name, its attributes and its kind.
#[derive(Debug)]
pub struct DeriveInputModel {
    pub ident: String,
    pub attrs: Vec<AttrInput>,
    pub data: DeriveData,
}

pub struct DeriveInputModelView {
    pub ident: Seq<char>,
    pub attrs: Seq<AttrInputView>,
    pub data: DeriveDataView,
}

impl View for DeriveInputModel {
    type V = DeriveInputModelView;

    open spec fn view(&self) -> DeriveInputModelView {
        DeriveInputModelView {
            ident: self.ident@,
            attrs: views(self.attrs@),
            data: match self.data {
                DeriveData::Struct => DeriveDataView::Struct,
                DeriveData::Enum(vs) => DeriveDataView::Enum(views(vs@)),
                DeriveData::Union => DeriveDataView::Union,
            },
        }
    }
}

/// What the derive produces.
#[derive(Debug, Clone)]
pub enum DerivedImpl {
    /// The `to_string` of a struct, with the message of a malformed
    /// attribute, if any.
    Struct { plan: StructPlan, diagnostic: Option<String> },
    /// The `to_string` of an enum.
    Enum(EnumPlan),
    /// The derive does not apply; the compile error to report.
    Rejected(String),
}

pub enum DerivedImplView {
    Struct { plan: StructPlanView, diagnostic: Option<Seq<char>> },
    Enum(EnumPlanView),
    Rejected(Seq<char>),
}

impl View for DerivedImpl {
    type V = DerivedImplView;

    open spec fn view(&self) -> DerivedImplView {
        match self {
            DerivedImpl::Struct { plan, diagnostic } => DerivedImplView::Struct {
                plan: plan@,
                diagnostic: opt_view(*diagnostic),
            },
            DerivedImpl::Enum(p) => DerivedImplView::Enum(p@),
            DerivedImpl::Rejected(m) => DerivedImplView::Rejected(m@),
        }
    }
}

/// The error reported when the derive is applied to a union.
pub open spec fn union_message() -> Seq<char> {
    "ValueToString cannot be derived for unions"@
}

/// The inputs the derive handles without failing: a struct's field
/// references can be read from `self`, and every format string fits in memory.
pub open spec fn derive_ok(input: DeriveInputModelView) -> bool {
    match input.data {
        DeriveDataView::Struct => match spec_find_attr(input.attrs).form() {
            Some(AttrFormView::FormatAutoFields(f)) => f.len() < usize::MAX && struct_refs_ok(f),
            _ => true,
        },
        DeriveDataView::Enum(vs) => forall|i: int| 0 <= i < vs.len() ==> variant_ok(#[trigger] vs[i]),
        DeriveDataView::Union => true,
    }
}

pub open spec fn spec_derive(input: DeriveInputModelView) -> DerivedImplView {
    match input.data {
        DeriveDataView::Struct => {
            let lookup = spec_find_attr(input.attrs);
            DerivedImplView::Struct {
                plan: spec_struct_plan(lookup.form()),
                diagnostic: match lookup {
                    AttrLookupView::Invalid(m) => Some(m),
                    _ => None,
                },
            }
        },
        DeriveDataView::Enum(vs) => DerivedImplView::Enum(spec_enum_plan(vs)),
        DeriveDataView::Union => DerivedImplView::Rejected(union_message()),
    }
}

/// Plans the `ValueToString` implementation of a type.
pub fn derive_value_to_string(input: &DeriveInputModel) -> (d: DerivedImpl)
    requires
        derive_ok(input@),
    ensures
        d@ == spec_derive(input@),
{
    match &input.data {
        DeriveData::Struct => {
            let lookup = find_attr(&input.attrs);
            let (form, diagnostic) = match lookup {
                AttrLookup::Found(f) => (Some(f), None),
                AttrLookup::Invalid(m) => (None, Some(m)),
                AttrLookup::Missing => (None, None),
            };
            let plan = generate_struct_impl(form);
            DerivedImpl::Struct { plan, diagnostic }
        },
        DeriveData::Enum(variants) => {
            assert forall|i: int| 0 <= i < variants@.len() implies variant_ok(
                #[trigger] variants@[i]@,
            ) by {
                assert(views(variants@)[i] == variants@[i]@);
            }
            DerivedImpl::Enum(generate_enum_impl(variants))
        },
        DeriveData::Union => DerivedImpl::Rejected(
            String::from_str("ValueToString cannot be derived for unions"),
        ),
    }
}

/// Whether the format string can be planned (see [`derive_ok`]).
fn format_supported(fmt: &str, in_struct: bool) -> (b: bool)
    ensures
        b == (fmt@.len() < usize::MAX && (in_struct ==> struct_refs_ok(fmt@))),
{
    let chars = chars_of(fmt);
    if chars.len() == usize::MAX {
        return false;
    }
    if !in_struct {
        return true;
    }
    let (_, refs) = parse_format_fields(fmt);
    let mut k: usize = 0;
    while k < refs.len()
        invariant
            k <= refs.len(),
            in_struct,
            fmt@.len() < usize::MAX,
            string_views(refs@) == spec_fields(fmt@),
            forall|j: int| 0 <= j < k ==> field_access_ok(#[trigger] spec_fields(fmt@)[j]),
        decreases refs.len() - k,
    {
        assert(string_views(refs@)[k as int] == refs@[k as int]@);
        if !field_access_is_valid(refs[k].as_str()) {
            assert(!field_access_ok(spec_fields(fmt@)[k as int]));
            return false;
        }
        k = k + 1;
    }
    true
}

/// Whether the derive handles the input without failing (see [`derive_ok`]);
/// where it does not, the derive fails as the input is read.
pub fn derive_input_supported(input: &DeriveInputModel) -> (b: bool)
    ensures
        b == derive_ok(input@),
{
    match &input.data {
        DeriveData::Struct => {
            let lookup = find_attr(&input.attrs);
            match lookup {
                AttrLookup::Found(AttrForm::FormatAutoFields(f)) => format_supported(
                    f.as_str(),
                    true,
                ),
                _ => true,
            }
        },
        DeriveData::Enum(variants) => {
            let ghost vs = views(variants@);
            let mut k: usize = 0;
            while k < variants.len()
                invariant
                    k <= variants.len(),
                    vs == views(variants@),
                    input@.data == DeriveDataView::Enum(vs),
                    forall|j: int| 0 <= j < k ==> variant_ok(#[trigger] vs[j]),
                decreases variants.len() - k,
            {
                let v = &variants[k];
                assert(vs[k as int] == v@);
                if !format_supported(v.name.as_str(), false) {
                    assert(!variant_ok(vs[k as int]));
                    assert(k < vs.len());
                    assert(input@.data->Enum_0 == vs);
                    assert(!derive_ok(input@));
                    return false;
                }
                match find_attr(&v.attrs) {
                    AttrLookup::Found(AttrForm::FormatAutoFields(f)) => {
                        if !format_supported(f.as_str(), false) {
                            assert(!variant_ok(vs[k as int]));
                            assert(k < vs.len());
                            assert(input@.data->Enum_0 == vs);
                            assert(!derive_ok(input@));
                            return false;
                        }
                    },
                    _ => {},
                }
                k = k + 1;
            }
            true
        },
        DeriveData::Union => true,
    }
}

} // verus!
