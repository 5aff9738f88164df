use next_turbo::value_to_string::attr::{
    find_attr, parse_attr, AttrArg, AttrError, AttrForm, AttrInput, AttrLookup,
};
use next_turbo::value_to_string::format::{
    field_var_name, is_numeric_name, is_pure_constant, parse_format_fields,
};
use next_turbo::value_to_string::plan::{
    derive_input_supported, derive_value_to_string, enum_destructure_all, field_access_is_valid,
    generate_enum_direct_expr, is_bare_identifier,
    generate_struct_format_auto_fields, struct_field_access, ArmBody, ArmPattern, DeriveData,
    DeriveInputModel, DerivedImpl, FieldAccess, FieldsShape, StructPlan, ValueExpr, VariantInput,
};

fn lit(s: &str) -> AttrArg {
    AttrArg { text: format!("{:?}", s), str_lit: Some(s.to_string()) }
}

fn expr(s: &str) -> AttrArg {
    AttrArg { text: s.to_string(), str_lit: None }
}

fn v2s(args: Vec<AttrArg>) -> AttrInput {
    AttrInput { path_ident: Some("value_to_string".to_string()), args: Ok(args) }
}

fn strings(v: &[&str]) -> Vec<String> {
    v.iter().map(|s| s.to_string()).collect()
}

fn struct_plan(attrs: Vec<AttrInput>) -> (StructPlan, Option<String>) {
    let input = DeriveInputModel { ident: "T".to_string(), attrs, data: DeriveData::Struct };
    assert!(derive_input_supported(&input));
    match derive_value_to_string(&input) {
        DerivedImpl::Struct { plan, diagnostic } => (plan, diagnostic),
        _ => panic!("expected a struct plan"),
    }
}

fn resolves_of(plan: &StructPlan) -> Vec<(String, String)> {
    match plan {
        StructPlan::AutoFields { resolves, .. } => resolves
            .iter()
            .map(|r| {
                let access = match &r.access {
                    FieldAccess::SelfIndex(i) => format!("self.{}", i),
                    FieldAccess::SelfField(n) => format!("self.{}", n),
                    FieldAccess::Binding(n) => n.clone(),
                };
                (r.var.clone(), access)
            })
            .collect(),
        _ => panic!("expected auto fields"),
    }
}

#[test]
fn pure_constant_strings() {
    assert!(is_pure_constant("constant-value"));
    assert!(is_pure_constant(""));
    assert!(!is_pure_constant("a {b}"));
    assert!(!is_pure_constant("a }"));
    assert!(!is_pure_constant("{{"));
}

#[test]
fn format_fields_named() {
    let (t, f) = parse_format_fields("{name} ({id})");
    assert_eq!(t, "{name} ({id})");
    assert_eq!(f, strings(&["name", "id"]));
}

#[test]
fn format_fields_positional() {
    let (t, f) = parse_format_fields("wrapped({0})");
    assert_eq!(t, "wrapped({_0})");
    assert_eq!(f, strings(&["0"]));
}

#[test]
fn format_fields_deduplicated_in_first_order() {
    let (t, f) = parse_format_fields("{b}{a}{b}{1}{a}");
    assert_eq!(t, "{b}{a}{b}{_1}{a}");
    assert_eq!(f, strings(&["b", "a", "1"]));
}

#[test]
fn format_fields_escapes() {
    let (t, f) = parse_format_fields("{{x}} {y} }} } {{");
    assert_eq!(t, "{{x}} {y} }} } {{");
    assert_eq!(f, strings(&["y"]));
    let (t, f) = parse_format_fields("no close {abc");
    assert_eq!(t, "no close {abc}");
    assert_eq!(f, strings(&["abc"]));
    let (t, f) = parse_format_fields("{}");
    assert_eq!(t, "{_}");
    assert_eq!(f, strings(&[""]));
}

#[test]
fn var_names() {
    assert!(is_numeric_name("12"));
    assert!(is_numeric_name(""));
    assert!(!is_numeric_name("a1"));
    assert_eq!(field_var_name("0"), "_0");
    assert_eq!(field_var_name("name"), "name");
}

#[test]
fn field_accesses() {
    assert!(matches!(struct_field_access("3"), FieldAccess::SelfIndex(3)));
    assert!(matches!(struct_field_access("10"), FieldAccess::SelfIndex(10)));
    match struct_field_access("name") {
        FieldAccess::SelfField(n) => assert_eq!(n, "name"),
        _ => panic!("expected a named field"),
    }
    assert!(field_access_is_valid("name"));
    assert!(field_access_is_valid("18446744073709551615"));
    assert!(!field_access_is_valid("18446744073709551616"));
    assert!(!field_access_is_valid(""));
}

#[test]
fn attribute_forms() {
    match parse_attr(&vec![lit("{a}")]) {
        Ok(AttrForm::FormatAutoFields(f)) => assert_eq!(f, "{a}"),
        _ => panic!("expected auto fields"),
    }
    match parse_attr(&vec![lit("x {} {}"), expr("self.a"), expr("self.b")]) {
        Ok(AttrForm::FormatExprs(f, e)) => {
            assert_eq!(f, "x {} {}");
            assert_eq!(e, strings(&["self.a", "self.b"]));
        }
        _ => panic!("expected format with expressions"),
    }
    match parse_attr(&vec![expr("self.name")]) {
        Ok(AttrForm::DirectExpr(e)) => assert_eq!(e, "self.name"),
        _ => panic!("expected a direct expression"),
    }
    assert!(matches!(parse_attr(&vec![]), Err(AttrError::MissingArgument)));
    assert!(matches!(parse_attr(&vec![expr("a"), expr("b")]), Err(AttrError::ExtraArgument)));
    assert_eq!(AttrError::MissingArgument.message(), "expected format string or expression");
    assert_eq!(
        AttrError::ExtraArgument.message(),
        "expected format string as first argument when providing multiple arguments"
    );
}

#[test]
fn attribute_lookup() {
    let other = AttrInput { path_ident: Some("doc".to_string()), args: Err("bad".to_string()) };
    assert!(matches!(find_attr(&vec![]), AttrLookup::Missing));
    assert!(matches!(find_attr(&vec![AttrInput { path_ident: Some("doc".to_string()), args: Err("e".to_string()) }]), AttrLookup::Missing));
    match find_attr(&vec![other, v2s(vec![lit("a")]), v2s(vec![lit("b")])]) {
        AttrLookup::Found(AttrForm::FormatAutoFields(f)) => assert_eq!(f, "a"),
        _ => panic!("expected the first attribute"),
    }
    match find_attr(&vec![v2s(vec![])]) {
        AttrLookup::Invalid(m) => {
            assert_eq!(m, "invalid value_to_string attribute: expected format string or expression")
        }
        _ => panic!("expected an invalid attribute"),
    }
    let broken = AttrInput { path_ident: Some("value_to_string".to_string()), args: Err("unexpected token".to_string()) };
    match find_attr(&vec![broken]) {
        AttrLookup::Invalid(m) => assert_eq!(m, "invalid value_to_string attribute: unexpected token"),
        _ => panic!("expected an invalid attribute"),
    }
}

#[test]
fn plan_display_delegation() {
    let (p, d) = struct_plan(vec![]);
    assert!(matches!(p, StructPlan::DisplayDelegate));
    assert!(d.is_none());
}

#[test]
fn plan_named_fields() {
    let (p, _) = struct_plan(vec![v2s(vec![lit("item {name} (count: {count})")])]);
    match &p {
        StructPlan::AutoFields { fmt, .. } => assert_eq!(fmt, "item {name} (count: {count})"),
        _ => panic!("expected auto fields"),
    }
    assert_eq!(
        resolves_of(&p),
        vec![
            ("name".to_string(), "self.name".to_string()),
            ("count".to_string(), "self.count".to_string())
        ]
    );
}

#[test]
fn plan_tuple_struct() {
    let (p, _) = struct_plan(vec![v2s(vec![lit("wrapped({0})")])]);
    match &p {
        StructPlan::AutoFields { fmt, .. } => assert_eq!(fmt, "wrapped({_0})"),
        _ => panic!("expected auto fields"),
    }
    assert_eq!(resolves_of(&p), vec![("_0".to_string(), "self.0".to_string())]);
}

#[test]
fn plan_constant_string() {
    let (p, _) = struct_plan(vec![v2s(vec![lit("constant-value")])]);
    match p {
        StructPlan::Sync(ValueExpr::Constant(v)) => assert_eq!(v, "constant-value"),
        _ => panic!("expected a constant"),
    }
    match generate_struct_format_auto_fields("a {{b}}") {
        StructPlan::Sync(ValueExpr::Format(v)) => assert_eq!(v, "a {{b}}"),
        _ => panic!("expected a formatted value"),
    }
}

#[test]
fn plan_direct_and_format_exprs() {
    let (p, _) = struct_plan(vec![v2s(vec![expr("self.name")])]);
    match p {
        StructPlan::DirectExpr(e) => assert_eq!(e, "self.name"),
        _ => panic!("expected a direct expression"),
    }
    let (p, _) = struct_plan(vec![v2s(vec![lit("prefix({}) suffix({})"), expr("self.name"), expr("self.count")])]);
    match p {
        StructPlan::FormatExprs { fmt, args } => {
            assert_eq!(fmt, "prefix({}) suffix({})");
            let pairs: Vec<(String, String)> = args.into_iter().map(|a| (a.var, a.expr)).collect();
            assert_eq!(
                pairs,
                vec![
                    ("__arg0".to_string(), "self.name".to_string()),
                    ("__arg1".to_string(), "self.count".to_string())
                ]
            );
        }
        _ => panic!("expected format with expressions"),
    }
}

#[test]
fn plan_struct_with_malformed_attribute() {
    let (p, d) = struct_plan(vec![v2s(vec![expr("a"), expr("b")])]);
    assert!(matches!(p, StructPlan::DisplayDelegate));
    assert_eq!(
        d.as_deref(),
        Some("invalid value_to_string attribute: expected format string as first argument when providing multiple arguments")
    );
}

#[test]
fn struct_with_unreadable_field_is_not_supported() {
    let input = DeriveInputModel {
        ident: "T".to_string(),
        attrs: vec![v2s(vec![lit("{}")])],
        data: DeriveData::Struct,
    };
    assert!(!derive_input_supported(&input));
}

fn variant(name: &str, attrs: Vec<AttrInput>, fields: FieldsShape) -> VariantInput {
    VariantInput { name: name.to_string(), attrs, fields }
}

#[test]
fn plan_enum_kinds() {
    let input = DeriveInputModel {
        ident: "Kind".to_string(),
        attrs: vec![],
        data: DeriveData::Enum(vec![
            variant("Module", vec![v2s(vec![lit("module")])], FieldsShape::Unit),
            variant("Asset", vec![v2s(vec![lit("asset({0})")])], FieldsShape::Unnamed(1)),
            variant("Entry", vec![v2s(vec![lit("entry {name}")])], FieldsShape::Named(strings(&["name"]))),
        ]),
    };
    assert!(derive_input_supported(&input));
    let plan = match derive_value_to_string(&input) {
        DerivedImpl::Enum(p) => p,
        _ => panic!("expected an enum plan"),
    };
    assert!(plan.needs_async);
    assert!(plan.diagnostics.is_empty());
    assert_eq!(plan.arms.len(), 3);
    let a0 = &plan.arms[0];
    assert_eq!(a0.variant, "Module");
    assert!(matches!(a0.pattern, ArmPattern::Unit));
    match &a0.body {
        ArmBody::Auto { resolves, value: ValueExpr::Constant(v) } => {
            assert!(resolves.is_empty());
            assert_eq!(v, "module");
        }
        _ => panic!("expected a constant arm"),
    }
    let a1 = &plan.arms[1];
    match &a1.pattern {
        ArmPattern::Unnamed(b) => assert_eq!(b, &vec![Some("_0".to_string())]),
        _ => panic!("expected a positional pattern"),
    }
    match &a1.body {
        ArmBody::Auto { resolves, value: ValueExpr::Format(v) } => {
            assert_eq!(v, "asset({_0})");
            assert_eq!(resolves.len(), 1);
            assert_eq!(resolves[0].var, "_0");
            assert!(matches!(&resolves[0].access, FieldAccess::Binding(b) if b == "_0"));
            assert!(!resolves[0].add_ref());
        }
        _ => panic!("expected a formatted arm"),
    }
    let a2 = &plan.arms[2];
    match &a2.pattern {
        ArmPattern::Named(b) => {
            assert_eq!(b.len(), 1);
            assert_eq!(b[0].name, "name");
            assert!(b[0].bound);
        }
        _ => panic!("expected a named pattern"),
    }
}

#[test]
fn plan_enum_default_names() {
    let input = DeriveInputModel {
        ident: "DefaultNames".to_string(),
        attrs: vec![],
        data: DeriveData::Enum(vec![
            variant("Alpha", vec![], FieldsShape::Unit),
            variant("Beta", vec![], FieldsShape::Unit),
        ]),
    };
    let plan = match derive_value_to_string(&input) {
        DerivedImpl::Enum(p) => p,
        _ => panic!("expected an enum plan"),
    };
    assert!(!plan.needs_async);
    let names: Vec<String> = plan
        .arms
        .iter()
        .map(|a| match &a.body {
            ArmBody::Auto { value: ValueExpr::Constant(v), .. } => v.clone(),
            _ => panic!("expected constants"),
        })
        .collect();
    assert_eq!(names, strings(&["Alpha", "Beta"]));
}

#[test]
fn plan_mixed_enum() {
    let input = DeriveInputModel {
        ident: "MixedEnum".to_string(),
        attrs: vec![],
        data: DeriveData::Enum(vec![
            variant("Literal", vec![v2s(vec![lit("literal")])], FieldsShape::Unit),
            variant("Delegate", vec![v2s(vec![expr("_0")])], FieldsShape::Unnamed(1)),
            variant(
                "ExprNamed",
                vec![v2s(vec![lit("wrapped({})"), expr("name")])],
                FieldsShape::Named(strings(&["name"])),
            ),
            variant("Broken", vec![v2s(vec![])], FieldsShape::Named(strings(&["a", "b"]))),
        ]),
    };
    let plan = match derive_value_to_string(&input) {
        DerivedImpl::Enum(p) => p,
        _ => panic!("expected an enum plan"),
    };
    assert!(plan.needs_async);
    assert_eq!(
        plan.diagnostics,
        strings(&["invalid value_to_string attribute: expected format string or expression"])
    );
    match &plan.arms[1].body {
        ArmBody::Direct(e) => assert_eq!(e, "_0"),
        _ => panic!("expected a direct arm"),
    }
    match &plan.arms[1].pattern {
        ArmPattern::Unnamed(b) => assert_eq!(b, &vec![Some("_0".to_string())]),
        _ => panic!("expected a positional pattern"),
    }
    match &plan.arms[2].body {
        ArmBody::Exprs { fmt, args } => {
            assert_eq!(fmt, "wrapped({})");
            assert_eq!(args.len(), 1);
            assert_eq!(args[0].var, "__arg0");
            assert_eq!(args[0].expr, "name");
        }
        _ => panic!("expected a format arm"),
    }
    // a malformed attribute counts as none: the variant shows its name and
    // binds none of its fields
    match &plan.arms[3].pattern {
        ArmPattern::Named(b) => assert!(b.iter().all(|x| !x.bound)),
        _ => panic!("expected a named pattern"),
    }
    match &plan.arms[3].body {
        ArmBody::Auto { value: ValueExpr::Constant(v), .. } => assert_eq!(v, "Broken"),
        _ => panic!("expected a constant arm"),
    }
}

#[test]
fn destructure_all_patterns() {
    match enum_destructure_all(&FieldsShape::Unnamed(3)) {
        ArmPattern::Unnamed(b) => assert_eq!(
            b,
            vec![Some("_0".to_string()), Some("_1".to_string()), Some("_2".to_string())]
        ),
        _ => panic!("expected a positional pattern"),
    }
    match enum_destructure_all(&FieldsShape::Named(strings(&["x", "y"]))) {
        ArmPattern::Named(b) => assert!(b.iter().all(|x| x.bound) && b.len() == 2),
        _ => panic!("expected a named pattern"),
    }
    assert!(matches!(enum_destructure_all(&FieldsShape::Unit), ArmPattern::Unit));
}

#[test]
fn union_is_rejected() {
    let input = DeriveInputModel { ident: "U".to_string(), attrs: vec![], data: DeriveData::Union };
    match derive_value_to_string(&input) {
        DerivedImpl::Rejected(m) => assert_eq!(m, "ValueToString cannot be derived for unions"),
        _ => panic!("expected a rejection"),
    }
}

#[test]
fn direct_expression_names_the_tuple_field() {
    let arm = generate_enum_direct_expr(&"More".to_string(), &FieldsShape::Unnamed(1), "more".to_string());
    match &arm.pattern {
        ArmPattern::Unnamed(b) => assert_eq!(b, &vec![Some("more".to_string())]),
        _ => panic!("expected a positional pattern"),
    }
    match &arm.body {
        ArmBody::Direct(e) => assert_eq!(e, "more"),
        _ => panic!("expected a direct arm"),
    }
    let arm = generate_enum_direct_expr(&"D".to_string(), &FieldsShape::Unnamed(1), "_0".to_string());
    match &arm.pattern {
        ArmPattern::Unnamed(b) => assert_eq!(b, &vec![Some("_0".to_string())]),
        _ => panic!("expected a positional pattern"),
    }
    let arm = generate_enum_direct_expr(&"D".to_string(), &FieldsShape::Unnamed(1), "_0 . name".to_string());
    match &arm.pattern {
        ArmPattern::Unnamed(b) => assert_eq!(b, &vec![Some("_0".to_string())]),
        _ => panic!("expected a positional pattern"),
    }
    let arm = generate_enum_direct_expr(&"D".to_string(), &FieldsShape::Unnamed(2), "more".to_string());
    match &arm.pattern {
        ArmPattern::Unnamed(b) => assert_eq!(b, &vec![Some("_0".to_string()), Some("_1".to_string())]),
        _ => panic!("expected a positional pattern"),
    }
}

#[test]
fn bare_identifiers() {
    assert!(is_bare_identifier("more"));
    assert!(is_bare_identifier("_0"));
    assert!(is_bare_identifier("abc_9"));
    assert!(!is_bare_identifier("Abc_9"));
    assert!(!is_bare_identifier("GLOBAL"));
    assert!(!is_bare_identifier("true"));
    assert!(!is_bare_identifier("match"));
    assert!(!is_bare_identifier(""));
    assert!(!is_bare_identifier("_"));
    assert!(!is_bare_identifier("self"));
    assert!(!is_bare_identifier("Self"));
    assert!(!is_bare_identifier("9a"));
    assert!(!is_bare_identifier("self . name"));
}

#[test]
fn direct_expression_naming_a_constant_keeps_positional_binding() {
    let arm = generate_enum_direct_expr(&"V".to_string(), &FieldsShape::Unnamed(1), "GLOBAL".to_string());
    match &arm.pattern {
        ArmPattern::Unnamed(b) => assert_eq!(b, &vec![Some("_0".to_string())]),
        _ => panic!("expected a positional pattern"),
    }
    let arm = generate_enum_direct_expr(&"V".to_string(), &FieldsShape::Unnamed(1), "Unit".to_string());
    match &arm.pattern {
        ArmPattern::Unnamed(b) => assert_eq!(b, &vec![Some("_0".to_string())]),
        _ => panic!("expected a positional pattern"),
    }
}
