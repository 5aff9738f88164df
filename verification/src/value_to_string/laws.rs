//! Properties of the format strings of the derive.

use vstd::prelude::*;

use crate::text::{digit_char, spec_decimal};
use crate::value_to_string::attr::{spec_find_attr, AttrFormView, AttrLookupView};
use crate::value_to_string::plan::{
    positional_var, spec_auto_arm, spec_auto_pattern, spec_auto_resolves, spec_enum_plan,
    spec_struct_format_auto_fields, spec_struct_resolves, spec_variant_arm, spec_variant_async,
    ArmBodyView, ArmPatternView, FieldAccessView, FieldsShapeView, ResolveView, StructPlanView,
    ValueExprView, VariantInputView,
};
use crate::value_to_string::format::{
    all_digits, close_brace_from, dedup_into, doubled_at, is_digit, lemma_close_brace_bounds,
    refs_from, render_from, spec_fields, spec_is_pure_constant, spec_transformed, spec_var_name,
    transform_from,
};

verus! {

/// Deduplication keeps exactly the names of the accumulator and of the list.
pub proof fn lemma_dedup_contains(acc: Seq<Seq<char>>, refs: Seq<Seq<char>>, x: Seq<char>)
    ensures
        dedup_into(acc, refs).contains(x) <==> (acc.contains(x) || refs.contains(x)),
    decreases refs.len(),
{
    if refs.len() > 0 {
        let next = if acc.contains(refs[0]) {
            acc
        } else {
            acc.push(refs[0])
        };
        lemma_dedup_contains(next, refs.drop_first(), x);
        if acc.contains(x) {
            let k = choose|k: int| 0 <= k < acc.len() && acc[k] == x;
            assert(next[k] == x);
        }
        if next.contains(x) && !acc.contains(x) {
            assert(x == refs[0]);
        }
        if refs.contains(x) && !refs.drop_first().contains(x) {
            let k = choose|k: int| 0 <= k < refs.len() && refs[k] == x;
            if k > 0 {
                assert(refs.drop_first()[k - 1] == x);
            }
            assert(x == refs[0]);
            if !acc.contains(x) {
                assert(next[next.len() - 1] == x);
            }
        }
        if refs.drop_first().contains(x) {
            let k = choose|k: int| 0 <= k < refs.drop_first().len() && refs.drop_first()[k] == x;
            assert(refs[k + 1] == x);
        }
    }
}

/// Deduplication into a list without repeats yields a list without repeats.
pub proof fn lemma_dedup_no_repeats(acc: Seq<Seq<char>>, refs: Seq<Seq<char>>)
    requires
        acc.no_duplicates(),
    ensures
        dedup_into(acc, refs).no_duplicates(),
    decreases refs.len(),
{
    if refs.len() > 0 {
        let next = if acc.contains(refs[0]) {
            acc
        } else {
            acc.push(refs[0])
        };
        if !acc.contains(refs[0]) {
            assert forall|i: int, j: int|
                0 <= i < next.len() && 0 <= j < next.len() && i != j implies next[i] != next[j] by {
                if i == acc.len() as int {
                    assert(next[j] == acc[j]);
                } else if j == acc.len() as int {
                    assert(next[i] == acc[i]);
                }
            }
        }
        lemma_dedup_no_repeats(next, refs.drop_first());
    }
}

/// The fields of a format string are its referenced names, each listed once.
pub proof fn lemma_fields_are_the_references(fmt: Seq<char>, x: Seq<char>)
    ensures
        spec_fields(fmt).contains(x) <==> refs_from(fmt, 0).contains(x),
        spec_fields(fmt).no_duplicates(),
{
    lemma_dedup_contains(seq![], refs_from(fmt, 0), x);
    lemma_dedup_no_repeats(seq![], refs_from(fmt, 0));
}

/// A string without braces is its own rewriting and references no field.
pub proof fn lemma_pure_constant_unchanged(fmt: Seq<char>)
    requires
        spec_is_pure_constant(fmt),
    ensures
        spec_transformed(fmt) == fmt,
        spec_fields(fmt).len() == 0,
{
    lemma_pure_suffix(fmt, 0);
    assert(fmt.skip(0) =~= fmt);
}

proof fn lemma_pure_suffix(s: Seq<char>, i: int)
    requires
        spec_is_pure_constant(s),
        0 <= i <= s.len(),
    ensures
        transform_from(s, i) == s.skip(i),
        refs_from(s, i).len() == 0,
    decreases s.len() - i,
{
    if i < s.len() {
        assert(s[i] != '{' && s[i] != '}') by {
            if s[i] == '{' || s[i] == '}' {
                assert(s.contains(s[i]));
            }
        }
        lemma_pure_suffix(s, i + 1);
        assert(s.skip(i) =~= seq![s[i]] + s.skip(i + 1));
    } else {
        assert(s.skip(i) =~= Seq::<char>::empty());
    }
}

/// Distinct fields get distinct local variables, unless one name is a number
/// and the other that number behind an underscore (`0` and `_0`).
pub proof fn lemma_var_names_distinct(a: Seq<char>, b: Seq<char>)
    requires
        a != b,
        !(all_digits(a) && b == seq!['_'] + a),
        !(all_digits(b) && a == seq!['_'] + b),
    ensures
        spec_var_name(a) != spec_var_name(b),
{
    if all_digits(a) && all_digits(b) {
        assert(a =~= spec_var_name(a).drop_first());
        assert(b =~= spec_var_name(b).drop_first());
    }
}

proof fn lemma_close_brace_shift(p: Seq<char>, x: Seq<char>, k: int)
    requires
        0 <= k <= x.len(),
    ensures
        close_brace_from(p + x, p.len() + k) == p.len() + close_brace_from(x, k),
    decreases x.len() - k,
{
    if k < x.len() {
        assert((p + x)[p.len() + k] == x[k]);
        lemma_close_brace_shift(p, x, k + 1);
    }
}

proof fn lemma_render_shift(
    p: Seq<char>,
    x: Seq<char>,
    j: int,
    value: spec_fn(Seq<char>) -> Seq<char>,
)
    requires
        0 <= j,
    ensures
        render_from(p + x, p.len() + j, value) == render_from(x, j, value),
    decreases x.len() + 1 - j,
{
    let s = p + x;
    let i = p.len() + j;
    if j < x.len() {
        assert(s[i] == x[j]);
        if j + 1 < x.len() {
            assert(s[i + 1] == x[j + 1]);
        }
        assert(doubled_at(s, i, '{') == doubled_at(x, j, '{'));
        assert(doubled_at(s, i, '}') == doubled_at(x, j, '}'));
        if doubled_at(x, j, '{') || doubled_at(x, j, '}') {
            lemma_render_shift(p, x, j + 2, value);
        } else if x[j] == '{' {
            lemma_close_brace_bounds(x, j + 1);
            lemma_close_brace_shift(p, x, j + 1);
            let c = close_brace_from(x, j + 1);
            assert(s.subrange(i + 1, p.len() + c) =~= x.subrange(j + 1, c));
            lemma_render_shift(p, x, c + 1, value);
        } else {
            lemma_render_shift(p, x, j + 1, value);
        }
    }
}

proof fn lemma_transform_head(s: Seq<char>, i: int)
    requires
        0 <= i < s.len(),
    ensures
        transform_from(s, i).len() > 0,
        transform_from(s, i)[0] == s[i],
{
}

/// Rendering the rewritten string from `i` with the locals gives what
/// rendering the original string from `i` with the field values gives.
proof fn lemma_render_transform_from(
    s: Seq<char>,
    i: int,
    value: spec_fn(Seq<char>) -> Seq<char>,
    locals: spec_fn(Seq<char>) -> Seq<char>,
)
    requires
        0 <= i,
        forall|x: Seq<char>| #[trigger]
            refs_from(s, i).contains(x) ==> locals(spec_var_name(x)) == value(x),
    ensures
        render_from(transform_from(s, i), 0, locals) == render_from(s, i, value),
    decreases s.len() + 1 - i,
{
    if i < s.len() {
        if doubled_at(s, i, '{') {
            assert forall|x: Seq<char>| #[trigger]
                refs_from(s, i + 2).contains(x) implies locals(spec_var_name(x)) == value(x) by {
                assert(refs_from(s, i) == refs_from(s, i + 2));
            }
            lemma_render_transform_from(s, i + 2, value, locals);
            let t = seq!['{', '{'] + transform_from(s, i + 2);
            assert(doubled_at(t, 0, '{'));
            lemma_render_shift(seq!['{', '{'], transform_from(s, i + 2), 0, value);
            lemma_render_shift(seq!['{', '{'], transform_from(s, i + 2), 0, locals);
        } else if s[i] == '{' {
            lemma_close_brace_bounds(s, i + 1);
            let j = close_brace_from(s, i + 1);
            let name = s.subrange(i + 1, j);
            let var = spec_var_name(name);
            assert forall|x: Seq<char>| #[trigger]
                refs_from(s, j + 1).contains(x) implies locals(spec_var_name(x)) == value(x) by {
                let t = refs_from(s, j + 1);
                let m = choose|m: int| 0 <= m < t.len() && t[m] == x;
                assert(refs_from(s, i)[m + 1] == x);
                assert(refs_from(s, i).contains(x));
            }
            assert(refs_from(s, i)[0] == name);
            assert(refs_from(s, i).contains(name));
            lemma_render_transform_from(s, j + 1, value, locals);
            let head = seq!['{'] + var + seq!['}'];
            let rest = transform_from(s, j + 1);
            let t = head + rest;
            assert(t =~= transform_from(s, i));
            // the local's name holds no brace and does not start with `{`
            assert(forall|m: int| 0 <= m < var.len() ==> var[m] != '}') by {
                assert forall|m: int| 0 <= m < var.len() implies var[m] != '}' by {
                    if all_digits(name) {
                        if m > 0 {
                            assert(is_digit(name[m - 1]));
                        }
                    } else {
                        assert(s[i + 1 + m] != '}');
                    }
                }
            }
            assert(var.len() > 0 && var[0] != '{') by {
                if !all_digits(name) {
                    assert(name.len() > 0);
                    assert(s[i + 1] != '{');
                }
            }
            assert(t[0] == '{');
            assert(t[1] == var[0]);
            assert(!doubled_at(t, 0, '{'));
            assert forall|m: int| 1 <= m < 1 + var.len() as int implies t[m] != '}' by {
                assert(t[m] == var[m - 1]);
            }
            assert(t[1 + var.len() as int] == '}');
            lemma_close_brace_at_t(t, 1, 1 + var.len() as int);
            assert(t.subrange(1, 1 + var.len() as int) =~= var);
            lemma_render_shift(head, rest, 0, locals);
        } else if doubled_at(s, i, '}') {
            assert forall|x: Seq<char>| #[trigger]
                refs_from(s, i + 2).contains(x) implies locals(spec_var_name(x)) == value(x) by {
                assert(refs_from(s, i) == refs_from(s, i + 2));
            }
            lemma_render_transform_from(s, i + 2, value, locals);
            let t = seq!['}', '}'] + transform_from(s, i + 2);
            assert(doubled_at(t, 0, '}'));
            lemma_render_shift(seq!['}', '}'], transform_from(s, i + 2), 0, locals);
        } else {
            assert forall|x: Seq<char>| #[trigger]
                refs_from(s, i + 1).contains(x) implies locals(spec_var_name(x)) == value(x) by {
                assert(refs_from(s, i) == refs_from(s, i + 1));
            }
            lemma_render_transform_from(s, i + 1, value, locals);
            let rest = transform_from(s, i + 1);
            let t = seq![s[i]] + rest;
            if i + 1 < s.len() {
                lemma_transform_head(s, i + 1);
                assert(t[1] == s[i + 1]);
            }
            assert(!doubled_at(t, 0, '}'));
            assert(!doubled_at(t, 0, '{'));
            lemma_render_shift(seq![s[i]], rest, 0, locals);
        }
    }
}

proof fn lemma_close_brace_at_t(t: Seq<char>, k: int, i: int)
    requires
        0 <= k <= i < t.len(),
        forall|m: int| k <= m < i ==> t[m] != '}',
        t[i] == '}',
    ensures
        close_brace_from(t, k) == i,
    decreases i - k,
{
    if k < i {
        lemma_close_brace_at_t(t, k + 1, i);
    }
}

/// What the derived `to_string` yields for an auto-field format string:
/// formatting the rewritten string, where each local holds the string of its
/// field, gives the format string with each `{field}` replaced by the
/// field's string and each doubled brace by a single one.
pub proof fn lemma_rendered_string(
    fmt: Seq<char>,
    value: spec_fn(Seq<char>) -> Seq<char>,
    locals: spec_fn(Seq<char>) -> Seq<char>,
)
    requires
        forall|k: int|
            0 <= k < spec_fields(fmt).len() ==> locals(spec_var_name(#[trigger] spec_fields(fmt)[k]))
                == value(spec_fields(fmt)[k]),
    ensures
        render_from(spec_transformed(fmt), 0, locals) == render_from(fmt, 0, value),
{
    assert forall|x: Seq<char>| #[trigger]
        refs_from(fmt, 0).contains(x) implies locals(spec_var_name(x)) == value(x) by {
        lemma_fields_are_the_references(fmt, x);
        let k = choose|k: int| 0 <= k < spec_fields(fmt).len() && spec_fields(fmt)[k] == x;
    }
    lemma_render_transform_from(fmt, 0, value, locals);
}

/// Decimal representations are made of digits.
pub proof fn lemma_decimal_digits(n: nat)
    ensures
        all_digits(spec_decimal(n)),
        spec_decimal(n).len() > 0,
    decreases n,
{
    if n >= 10 {
        lemma_decimal_digits(n / 10);
        let d = spec_decimal(n / 10);
        assert forall|k: int| 0 <= k < spec_decimal(n).len() implies is_digit(
            #[trigger] spec_decimal(n)[k],
        ) by {
            if k < d.len() {
                assert(spec_decimal(n)[k] == d[k]);
            } else {
                assert(spec_decimal(n)[k] == digit_char(n % 10));
            }
        }
    }
}

/// A variant without a `value_to_string` attribute, whose name has no
/// braces, shows its own name: the arm binds no field, resolves nothing and
/// returns the name as a constant, without awaiting.
pub proof fn lemma_default_variant_name(v: VariantInputView)
    requires
        spec_find_attr(v.attrs) == AttrLookupView::Missing,
        spec_is_pure_constant(v.name),
    ensures
        spec_variant_arm(v).body == (ArmBodyView::Auto {
            resolves: spec_auto_resolves(v.fields, seq![]),
            value: ValueExprView::Constant(v.name),
        }),
        spec_auto_resolves(v.fields, seq![]).len() == 0,
        !spec_variant_async(v),
        spec_variant_arm(v).pattern == spec_auto_pattern(v.fields, seq![]),
{
    lemma_pure_constant_unchanged(v.name);
    assert(spec_fields(v.name) =~= seq![]);
}

/// In an arm over positional fields, a referenced field `i` of the variant is
/// bound in the pattern to the very variable that its resolve statement
/// reads, and that variable is the one the rewritten format string names.
pub proof fn lemma_positional_bindings_agree(count: nat, refs: Seq<Seq<char>>, i: nat)
    requires
        i < count,
        refs.contains(spec_decimal(i)),
    ensures
        spec_auto_pattern(FieldsShapeView::Unnamed(count), refs) matches ArmPatternView::Unnamed(b)
            && b[i as int] == Some(spec_var_name(spec_decimal(i))),
        exists|k: int|
            0 <= k < refs.len() && #[trigger] spec_auto_resolves(
                FieldsShapeView::Unnamed(count),
                refs,
            )[k].access == FieldAccessView::Binding(spec_var_name(spec_decimal(i))),
{
    lemma_decimal_digits(i);
    assert(spec_var_name(spec_decimal(i)) == positional_var(i));
    let k = choose|k: int| 0 <= k < refs.len() && refs[k] == spec_decimal(i);
    assert(spec_auto_resolves(FieldsShapeView::Unnamed(count), refs)[k].access
        == FieldAccessView::Binding(spec_var_name(spec_decimal(i))));
}

/// In an arm over named fields, the fields bound by the pattern are exactly
/// the referenced ones, and each resolve statement reads the binding of its
/// field.
pub proof fn lemma_named_bindings_agree(names: Seq<Seq<char>>, refs: Seq<Seq<char>>, k: int)
    requires
        0 <= k < names.len(),
    ensures
        spec_auto_pattern(FieldsShapeView::Named(names), refs) matches ArmPatternView::Named(b)
            && b[k].name == names[k] && b[k].bound == refs.contains(names[k]),
        forall|j: int|
            0 <= j < refs.len() ==> #[trigger] spec_auto_resolves(
                FieldsShapeView::Named(names),
                refs,
            )[j].access == FieldAccessView::Binding(refs[j]),
{
}

proof fn lemma_render_pure_suffix(s: Seq<char>, i: int, value: spec_fn(Seq<char>) -> Seq<char>)
    requires
        spec_is_pure_constant(s),
        0 <= i <= s.len(),
    ensures
        render_from(s, i, value) == s.skip(i),
    decreases s.len() - i,
{
    if i < s.len() {
        assert(s[i] != '{' && s[i] != '}') by {
            if s[i] == '{' || s[i] == '}' {
                assert(s.contains(s[i]));
            }
        }
        lemma_render_pure_suffix(s, i + 1, value);
        assert(s.skip(i) =~= seq![s[i]] + s.skip(i + 1));
    } else {
        assert(s.skip(i) =~= Seq::<char>::empty());
    }
}

/// A string used as a constant is what the format string displays: when an
/// enum arm's value is a constant `c`, formatting its format string gives
/// `c`, whatever the fields hold. So a string with doubled braces, which
/// display as single ones, is never used as a constant.
pub proof fn lemma_constant_arm_displays_itself(
    variant: Seq<char>,
    fields: FieldsShapeView,
    fmt: Seq<char>,
    value: spec_fn(Seq<char>) -> Seq<char>,
)
    ensures
        spec_auto_arm(variant, fields, fmt).body matches ArmBodyView::Auto {
            value: ValueExprView::Constant(c),
            ..
        } ==> render_from(fmt, 0, value) == c && !c.contains('{') && !c.contains('}'),
{
    if spec_auto_arm(variant, fields, fmt).body matches ArmBodyView::Auto {
        value: ValueExprView::Constant(c),
        ..
    } {
        lemma_pure_constant_unchanged(fmt);
        lemma_render_pure_suffix(fmt, 0, value);
        assert(fmt.skip(0) =~= fmt);
    }
}

/// The same holds of a struct: a constant value is what its format string
/// displays, and holds no brace.
pub proof fn lemma_constant_struct_displays_itself(
    fmt: Seq<char>,
    value: spec_fn(Seq<char>) -> Seq<char>,
)
    ensures
        spec_struct_format_auto_fields(fmt) matches StructPlanView::Sync(ValueExprView::Constant(c))
            ==> render_from(fmt, 0, value) == c && !c.contains('{') && !c.contains('}'),
{
    if spec_struct_format_auto_fields(fmt) matches StructPlanView::Sync(
        ValueExprView::Constant(c),
    ) {
        lemma_pure_constant_unchanged(fmt);
        lemma_render_pure_suffix(fmt, 0, value);
        assert(fmt.skip(0) =~= fmt);
    }
}

/// An enum's `to_string` awaits when some arm awaits: when a variant's
/// attribute is a direct expression or a format string with expression
/// arguments, or its format string (its name, without attribute) references
/// a field, the plan is asynchronous; and it is asynchronous only then. In
/// particular an arm that resolves an expression makes the plan asynchronous.
pub proof fn lemma_enum_async_when_an_arm_awaits(vs: Seq<VariantInputView>)
    ensures
        spec_enum_plan(vs).needs_async <==> exists|i: int|
            0 <= i < vs.len() && #[trigger] awaits(vs[i]),
        forall|i: int|
            0 <= i < vs.len() && (spec_enum_plan(vs).arms[i].body is Direct
                || spec_enum_plan(vs).arms[i].body is Exprs) ==> spec_enum_plan(vs).needs_async,
{
    assert forall|i: int| 0 <= i < vs.len() implies #[trigger] awaits(vs[i]) == spec_variant_async(
        vs[i],
    ) by {
        lemma_fields_empty_iff(vs[i].name);
        if let AttrLookupView::Found(AttrFormView::FormatAutoFields(f)) = spec_find_attr(vs[i].attrs) {
            lemma_fields_empty_iff(f);
        }
    }
    if spec_enum_plan(vs).needs_async {
        let i = choose|i: int| 0 <= i < vs.len() && spec_variant_async(#[trigger] vs[i]);
        assert(awaits(vs[i]));
    }
    if exists|i: int| 0 <= i < vs.len() && #[trigger] awaits(vs[i]) {
        let i = choose|i: int| 0 <= i < vs.len() && #[trigger] awaits(vs[i]);
        assert(spec_variant_async(vs[i]));
    }
    assert forall|i: int|
        0 <= i < vs.len() && (spec_enum_plan(vs).arms[i].body is Direct
            || spec_enum_plan(vs).arms[i].body is Exprs) implies spec_enum_plan(vs).needs_async by {
        assert(spec_enum_plan(vs).arms[i] == spec_variant_arm(vs[i]));
        assert(awaits(vs[i]));
    }
}

proof fn lemma_fields_empty_iff(f: Seq<char>)
    ensures
        (spec_fields(f).len() > 0) == (refs_from(f, 0).len() > 0),
{
    if refs_from(f, 0).len() > 0 {
        lemma_fields_are_the_references(f, refs_from(f, 0)[0]);
        assert(refs_from(f, 0).contains(refs_from(f, 0)[0]));
    }
    if spec_fields(f).len() > 0 {
        lemma_fields_are_the_references(f, spec_fields(f)[0]);
        assert(spec_fields(f).contains(spec_fields(f)[0]));
    }
}

/// Whether the string of a variant needs something resolved: its attribute
/// names expressions, or its format string references a field.
pub open spec fn awaits(v: VariantInputView) -> bool {
    match spec_find_attr(v.attrs) {
        AttrLookupView::Found(AttrFormView::DirectExpr(_)) => true,
        AttrLookupView::Found(AttrFormView::FormatExprs(_, _)) => true,
        AttrLookupView::Found(AttrFormView::FormatAutoFields(f)) => refs_from(f, 0).len() > 0,
        _ => refs_from(v.name, 0).len() > 0,
    }
}

/// A resolve statement borrows the value it reads exactly when it reads a
/// field of `self`; the bindings of a match arm are references already.
pub proof fn lemma_add_ref_reads_self(r: ResolveView)
    ensures
        r.add_ref() <==> (r.access is SelfIndex || r.access is SelfField),
{
}

/// Every resolve statement of a struct's plan reads a field of `self` and
/// borrows it; every resolve statement of an enum arm reads a binding and
/// does not.
pub proof fn lemma_resolves_borrow_struct_fields(fmt: Seq<char>, fields: FieldsShapeView)
    ensures
        spec_struct_format_auto_fields(fmt) matches StructPlanView::AutoFields { resolves, .. }
            ==> forall|k: int|
            0 <= k < resolves.len() ==> (#[trigger] resolves[k]).add_ref() && (
            resolves[k].access is SelfIndex || resolves[k].access is SelfField),
        forall|k: int|
            0 <= k < spec_auto_resolves(fields, spec_fields(fmt)).len() ==> !(
            #[trigger] spec_auto_resolves(fields, spec_fields(fmt))[k]).add_ref(),
{
}

} // verus!
