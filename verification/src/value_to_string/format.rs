use vstd::prelude::*;

use crate::text::{chars_of, contains_char, push_char, string_from_chars};

verus! {

/// An ASCII decimal digit.
pub open spec fn is_digit(c: char) -> bool {
    '0' <= c <= '9'
}

/// Every character of `s` is an ASCII digit (vacuously true of the empty name).
pub open spec fn all_digits(s: Seq<char>) -> bool {
    forall|k: int| 0 <= k < s.len() ==> is_digit(#[trigger] s[k])
}

/// A format string without braces needs no formatting at all.
pub open spec fn spec_is_pure_constant(s: Seq<char>) -> bool {
    !s.contains('{') && !s.contains('}')
}

/// The local variable that holds a field's value: numeric names get a `_` prefix.
pub open spec fn spec_var_name(name: Seq<char>) -> Seq<char> {
    if all_digits(name) {
        seq!['_'] + name
    } else {
        name
    }
}

/// The index of the first `}` in `s` at or after `k`, or `s.len()` if there is none.
pub open spec fn close_brace_from(s: Seq<char>, k: int) -> int
    decreases s.len() - k,
{
    if k >= s.len() {
        s.len() as int
    } else if s[k] == '}' {
        k
    } else {
        close_brace_from(s, k + 1)
    }
}

pub proof fn lemma_close_brace_bounds(s: Seq<char>, k: int)
    requires
        0 <= k <= s.len(),
    ensures
        k <= close_brace_from(s, k) <= s.len(),
        close_brace_from(s, k) < s.len() ==> s[close_brace_from(s, k)] == '}',
        forall|m: int| k <= m < close_brace_from(s, k) ==> s[m] != '}',
    decreases s.len() - k,
{
    if k < s.len() && s[k] != '}' {
        lemma_close_brace_bounds(s, k + 1);
    }
}

#[via_fn]
proof fn scan_decreases(s: Seq<char>, i: int) {
    if 0 <= i < s.len() {
        lemma_close_brace_bounds(s, i + 1);
    }
}

#[via_fn]
proof fn refs_decreases(s: Seq<char>, i: int) {
    if 0 <= i < s.len() {
        lemma_close_brace_bounds(s, i + 1);
    }
}

/// Where a field reference that opens at `i` (the `{`) ends: the index of
/// the first character after its closing `}`.
pub open spec fn field_end(s: Seq<char>, i: int) -> int {
    close_brace_from(s, i + 1) + 1
}

/// Whether position `i` starts a doubled brace `cc`.
pub open spec fn doubled_at(s: Seq<char>, i: int, c: char) -> bool {
    s[i] == c && i + 1 < s.len() && s[i + 1] == c
}

/// The format string rewritten for the generated code, from position `i` on:
/// doubled braces stay as they are, each field reference `{name}` becomes
/// `{var}` where `var` is the name of its local variable, and every other
/// character is copied.
pub open spec fn transform_from(s: Seq<char>, i: int) -> Seq<char>
    decreases s.len() + 1 - i,
    via scan_decreases
{
    if i < 0 || i >= s.len() {
        seq![]
    } else if doubled_at(s, i, '{') {
        seq!['{', '{'] + transform_from(s, i + 2)
    } else if s[i] == '{' {
        let j = close_brace_from(s, i + 1);
        seq!['{'] + spec_var_name(s.subrange(i + 1, j)) + seq!['}'] + transform_from(s, j + 1)
    } else if doubled_at(s, i, '}') {
        seq!['}', '}'] + transform_from(s, i + 2)
    } else {
        seq![s[i]] + transform_from(s, i + 1)
    }
}

#[via_fn]
proof fn render_decreases(s: Seq<char>, i: int, value: spec_fn(Seq<char>) -> Seq<char>) {
    if 0 <= i < s.len() {
        lemma_close_brace_bounds(s, i + 1);
    }
}

/// What formatting a string yields from position `i` on, as `format!` reads
/// it: a doubled brace stands for one brace, `{name}` for the value of
/// `name`, and every other character for itself.
pub open spec fn render_from(s: Seq<char>, i: int, value: spec_fn(Seq<char>) -> Seq<char>) -> Seq<
    char,
>
    decreases s.len() + 1 - i,
    via render_decreases
{
    if i < 0 || i >= s.len() {
        seq![]
    } else if doubled_at(s, i, '{') {
        seq!['{'] + render_from(s, i + 2, value)
    } else if s[i] == '{' {
        let j = close_brace_from(s, i + 1);
        value(s.subrange(i + 1, j)) + render_from(s, j + 1, value)
    } else if doubled_at(s, i, '}') {
        seq!['}'] + render_from(s, i + 2, value)
    } else {
        seq![s[i]] + render_from(s, i + 1, value)
    }
}

/// The field names referenced from position `i` on, in order, repeats included.
pub open spec fn refs_from(s: Seq<char>, i: int) -> Seq<Seq<char>>
    decreases s.len() + 1 - i,
    via refs_decreases
{
    if i < 0 || i >= s.len() {
        seq![]
    } else if doubled_at(s, i, '{') {
        refs_from(s, i + 2)
    } else if s[i] == '{' {
        let j = close_brace_from(s, i + 1);
        seq![s.subrange(i + 1, j)] + refs_from(s, j + 1)
    } else if doubled_at(s, i, '}') {
        refs_from(s, i + 2)
    } else {
        refs_from(s, i + 1)
    }
}

/// Appends to `acc` each name of `refs` that it does not hold yet, in order.
pub open spec fn dedup_into(acc: Seq<Seq<char>>, refs: Seq<Seq<char>>) -> Seq<Seq<char>>
    decreases refs.len(),
{
    if refs.len() == 0 {
        acc
    } else {
        dedup_into(
            if acc.contains(refs[0]) {
                acc
            } else {
                acc.push(refs[0])
            },
            refs.drop_first(),
        )
    }
}

/// The rewritten format string.
pub open spec fn spec_transformed(s: Seq<char>) -> Seq<char> {
    transform_from(s, 0)
}

/// The distinct field names that a format string references, in order of
/// first appearance.
pub open spec fn spec_fields(s: Seq<char>) -> Seq<Seq<char>> {
    dedup_into(seq![], refs_from(s, 0))
}

/// The contents of a list of strings.
pub open spec fn string_views(v: Seq<String>) -> Seq<Seq<char>> {
    v.map_values(|x: String| x@)
}

/// Returns true if the format string is a pure constant (no `{` or `}`
/// characters), so that it can be used as the value directly.
pub fn is_pure_constant(fmt: &str) -> (b: bool)
    ensures
        b == spec_is_pure_constant(fmt@),
{
    !contains_char(fmt, '{') && !contains_char(fmt, '}')
}

/// Whether a field name is all ASCII digits (a positional field).
pub fn is_numeric_name(name: &str) -> (b: bool)
    ensures
        b == all_digits(name@),
{
    let chars = chars_of(name);
    let mut k: usize = 0;
    while k < chars.len()
        invariant
            k <= chars.len(),
            chars@ == name@,
            forall|j: int| 0 <= j < k ==> is_digit(#[trigger] chars@[j]),
        decreases chars.len() - k,
    {
        if !('0' <= chars[k] && chars[k] <= '9') {
            assert(!is_digit(name@[k as int]));
            return false;
        }
        k = k + 1;
    }
    true
}

/// The name of the local variable that holds a field's value.
pub fn field_var_name(field_name: &str) -> (v: String)
    ensures
        v@ == spec_var_name(field_name@),
{
    if is_numeric_name(field_name) {
        let mut v = String::new();
        push_char(&mut v, '_');
        v.append(field_name);
        assert(v@ =~= seq!['_'] + field_name@);
        v
    } else {
        String::from_str(field_name)
    }
}

pub proof fn lemma_close_brace_at(s: Seq<char>, k: int, i: int)
    requires
        0 <= k <= i <= s.len(),
        forall|m: int| k <= m < i ==> s[m] != '}',
        i == s.len() || s[i] == '}',
    ensures
        close_brace_from(s, k) == i,
    decreases i - k,
{
    if k < i {
        lemma_close_brace_at(s, k + 1, i);
    }
}

/// Whether some string of `fields` equals `name`.
pub fn contains_string(fields: &Vec<String>, name: &String) -> (b: bool)
    ensures
        b == string_views(fields@).contains(name@),
{
    let mut k: usize = 0;
    while k < fields.len()
        invariant
            k <= fields.len(),
            forall|j: int| 0 <= j < k ==> fields@[j]@ != name@,
        decreases fields.len() - k,
    {
        if fields[k] == *name {
            assert(string_views(fields@)[k as int] == name@);
            return true;
        }
        k = k + 1;
    }
    assert forall|j: int| 0 <= j < string_views(fields@).len() implies string_views(
        fields@,
    )[j] != name@ by {
        assert(string_views(fields@)[j] == fields@[j]@);
    }
    false
}

/// Extracts the field references from a format string such as
/// `"{name} ({id})"`.
///
/// Returns the rewritten format string, where `{0}` becomes `{_0}` for
/// positional fields, and the distinct field names in order of first
/// appearance.
pub fn parse_format_fields(fmt: &str) -> (r: (String, Vec<String>))
    requires
        fmt@.len() < usize::MAX,
    ensures
        r.0@ == spec_transformed(fmt@),
        string_views(r.1@) == spec_fields(fmt@),
{
    let chars = chars_of(fmt);
    let ghost s = fmt@;
    let mut fields: Vec<String> = Vec::new();
    let mut transformed = String::new();
    let n = chars.len();
    let mut i: usize = 0;
    assert(string_views(fields@) =~= seq![]);
    while i < n
        invariant
            chars@ == s,
            n == s.len(),
            n < usize::MAX,
            i <= n + 1,
            transformed@ + transform_from(s, i as int) == transform_from(s, 0),
            dedup_into(string_views(fields@), refs_from(s, i as int)) == dedup_into(
                seq![],
                refs_from(s, 0),
            ),
        decreases n + 1 - i,
    {
        let ghost i0 = i as int;
        let ghost before = transformed@;
        if chars[i] == '{' {
            if i + 1 < n && chars[i + 1] == '{' {
                push_char(&mut transformed, '{');
                push_char(&mut transformed, '{');
                i = i + 2;
                assert(transformed@ + transform_from(s, i as int) =~= before + transform_from(
                    s,
                    i0,
                ));
                continue;
            }
            i = i + 1;
            let start = i;
            while i < n && chars[i] != '}'
                invariant
                    chars@ == s,
                    n == s.len(),
                    start <= i <= n,
                    forall|m: int| start <= m < i ==> s[m] != '}',
                decreases n - i,
            {
                i = i + 1;
            }
            proof {
                lemma_close_brace_at(s, start as int, i as int);
            }
            let field_name = string_from_chars(&chars, start, i);
            i = i + 1;
            let var_name = field_var_name(field_name.as_str());
            let ghost old_fields = string_views(fields@);
            assert(refs_from(s, i0).drop_first() =~= refs_from(s, i as int));
            if !contains_string(&fields, &field_name) {
                fields.push(field_name);
                assert(string_views(fields@) =~= old_fields.push(
                    s.subrange(start as int, i - 1),
                ));
            }
            push_char(&mut transformed, '{');
            transformed.append(var_name.as_str());
            push_char(&mut transformed, '}');
            assert(transformed@ + transform_from(s, i as int) =~= before + transform_from(s, i0));
        } else if chars[i] == '}' && i + 1 < n && chars[i + 1] == '}' {
            push_char(&mut transformed, '}');
            push_char(&mut transformed, '}');
            i = i + 2;
            assert(transformed@ + transform_from(s, i as int) =~= before + transform_from(s, i0));
        } else {
            push_char(&mut transformed, chars[i]);
            i = i + 1;
            assert(transformed@ + transform_from(s, i as int) =~= before + transform_from(s, i0));
        }
    }
    assert(transformed@ =~= transform_from(s, 0));
    (transformed, fields)
}

} // verus!
