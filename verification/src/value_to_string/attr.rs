use vstd::prelude::*;

use crate::text::{opt_view, views};

verus! {

/// One argument of a `#[value_to_string(...)]` attribute: an expression,
/// kept as its source text, with the value of the string literal when the
/// expression is one.
#[derive(Debug, Clone)]
pub struct AttrArg {
    pub text: String,
    pub str_lit: Option<String>,
}

pub struct AttrArgView {
    pub text: Seq<char>,
    pub str_lit: Option<Seq<char>>,
}

impl View for AttrArg {
    type V = AttrArgView;

    open spec fn view(&self) -> AttrArgView {
        AttrArgView { text: self.text@, str_lit: opt_view(self.str_lit) }
    }
}

/// An attribute on the deriving type or on a variant: the single identifier
/// that forms its path (`None` for any other path), and its arguments, or
/// the message of the error met while parsing them.
#[derive(Debug)]
pub struct AttrInput {
    pub path_ident: Option<String>,
    pub args: Result<Vec<AttrArg>, String>,
}

pub struct AttrInputView {
    pub path_ident: Option<Seq<char>>,
    pub args: Result<Seq<AttrArgView>, Seq<char>>,
}

impl View for AttrInput {
    type V = AttrInputView;

    open spec fn view(&self) -> AttrInputView {
        AttrInputView {
            path_ident: opt_view(self.path_ident),
            args: match self.args {
                Ok(a) => Ok(views(a@)),
                Err(e) => Err(e@),
            },
        }
    }
}

/// The parsed form of a `#[value_to_string(...)]` attribute.
#[derive(Debug, Clone)]
pub enum AttrForm {
    /// `#[value_to_string("{field} text")]`: a format string whose `{...}`
    /// references name fields.
    FormatAutoFields(String),
    /// `#[value_to_string("fmt {}", expr1, expr2)]`: a format string with
    /// explicit expression arguments (their source text).
    FormatExprs(String, Vec<String>),
    /// `#[value_to_string(expr)]`: a single expression to delegate to.
    DirectExpr(String),
}

pub enum AttrFormView {
    FormatAutoFields(Seq<char>),
    FormatExprs(Seq<char>, Seq<Seq<char>>),
    DirectExpr(Seq<char>),
}

impl View for AttrForm {
    type V = AttrFormView;

    open spec fn view(&self) -> AttrFormView {
        match self {
            AttrForm::FormatAutoFields(f) => AttrFormView::FormatAutoFields(f@),
            AttrForm::FormatExprs(f, e) => AttrFormView::FormatExprs(f@, views(e@)),
            AttrForm::DirectExpr(e) => AttrFormView::DirectExpr(e@),
        }
    }
}

/// Why an attribute's arguments do not form a valid attribute.
#[derive(Debug, Clone, Copy, PartialEq, Eq)]
pub enum AttrError {
    /// The attribute has no argument.
    MissingArgument,
    /// The first argument is not a string literal, yet more arguments follow.
    ExtraArgument,
}

/// The message reported for an attribute error.
pub open spec fn spec_attr_error_message(e: AttrError) -> Seq<char> {
    match e {
        AttrError::MissingArgument => "expected format string or expression"@,
        AttrError::ExtraArgument => "expected format string as first argument when providing multiple arguments"@,
    }
}

impl AttrError {
    pub fn message(&self) -> (s: String)
        ensures
            s@ == spec_attr_error_message(*self),
    {
        match self {
            AttrError::MissingArgument => String::from_str("expected format string or expression"),
            AttrError::ExtraArgument => String::from_str(
                "expected format string as first argument when providing multiple arguments",
            ),
        }
    }
}

/// The texts of a list of attribute arguments.
pub open spec fn arg_texts(args: Seq<AttrArgView>) -> Seq<Seq<char>> {
    args.map_values(|a: AttrArgView| a.text)
}

/// What the arguments of an attribute parse into.
pub open spec fn spec_parse_attr(args: Seq<AttrArgView>) -> Result<AttrFormView, AttrError> {
    if args.len() == 0 {
        Err(AttrError::MissingArgument)
    } else if args[0].str_lit is Some {
        if args.len() == 1 {
            Ok(AttrFormView::FormatAutoFields(args[0].str_lit->0))
        } else {
            Ok(AttrFormView::FormatExprs(args[0].str_lit->0, arg_texts(args.drop_first())))
        }
    } else if args.len() > 1 {
        Err(AttrError::ExtraArgument)
    } else {
        Ok(AttrFormView::DirectExpr(args[0].text))
    }
}

/// Parses the arguments of a `#[value_to_string(...)]` attribute into an
/// [`AttrForm`].
pub fn parse_attr(args: &Vec<AttrArg>) -> (r: Result<AttrForm, AttrError>)
    ensures
        match (r, spec_parse_attr(views(args@))) {
            (Ok(f), Ok(g)) => f@ == g,
            (Err(e), Err(g)) => e == g,
            _ => false,
        },
{
    if args.len() == 0 {
        return Err(AttrError::MissingArgument);
    }
    let first = &args[0];
    match &first.str_lit {
        Some(fmt) => {
            let mut rest: Vec<String> = Vec::new();
            let mut k: usize = 1;
            while k < args.len()
                invariant
                    1 <= k <= args.len(),
                    views(rest@) == arg_texts(views(args@)).subrange(1, k as int),
                decreases args.len() - k,
            {
                let ghost prev = views(rest@);
                rest.push(args[k].text.clone());
                assert(views(rest@) =~= prev.push(args@[k as int].text@));
                assert(arg_texts(views(args@))[k as int] == args@[k as int].text@);
                k = k + 1;
                assert(views(rest@) =~= arg_texts(views(args@)).subrange(1, k as int));
            }
            assert(arg_texts(views(args@).drop_first()) =~= arg_texts(views(args@)).subrange(
                1,
                args.len() as int,
            ));
            if rest.len() == 0 {
                Ok(AttrForm::FormatAutoFields(fmt.clone()))
            } else {
                Ok(AttrForm::FormatExprs(fmt.clone(), rest))
            }
        },
        None => {
            if args.len() > 1 {
                return Err(AttrError::ExtraArgument);
            }
            Ok(AttrForm::DirectExpr(first.text.clone()))
        },
    }
}

/// The outcome of looking for the `#[value_to_string(...)]` attribute.
#[derive(Debug, Clone)]
pub enum AttrLookup {
    /// No attribute of that name is present.
    Missing,
    /// The first such attribute, parsed.
    Found(AttrForm),
    /// The first such attribute is malformed; the message to report. The
    /// derive then goes on as though the attribute were missing.
    Invalid(String),
}

pub enum AttrLookupView {
    Missing,
    Found(AttrFormView),
    Invalid(Seq<char>),
}

impl View for AttrLookup {
    type V = AttrLookupView;

    open spec fn view(&self) -> AttrLookupView {
        match self {
            AttrLookup::Missing => AttrLookupView::Missing,
            AttrLookup::Found(f) => AttrLookupView::Found(f@),
            AttrLookup::Invalid(m) => AttrLookupView::Invalid(m@),
        }
    }
}

impl AttrLookupView {
    /// The attribute form in effect: a malformed attribute counts as none.
    pub open spec fn form(self) -> Option<AttrFormView> {
        match self {
            AttrLookupView::Found(f) => Some(f),
            _ => None,
        }
    }
}

impl AttrLookup {
    /// The attribute form in effect: a malformed attribute counts as none.
    pub fn into_form(self) -> (r: Option<AttrForm>)
        ensures
            match (r, self@.form()) {
                (Some(f), Some(g)) => f@ == g,
                (None, None) => true,
                _ => false,
            },
    {
        match self {
            AttrLookup::Found(f) => Some(f),
            _ => None,
        }
    }
}

/// The name of the attribute the derive reads.
pub open spec fn attr_name() -> Seq<char> {
    "value_to_string"@
}

/// The text put before the message of a malformed attribute.
pub open spec fn invalid_prefix() -> Seq<char> {
    "invalid value_to_string attribute: "@
}

/// What one attribute of the right name yields.
pub open spec fn spec_lookup_of(args: Result<Seq<AttrArgView>, Seq<char>>) -> AttrLookupView {
    match args {
        Err(e) => AttrLookupView::Invalid(invalid_prefix() + e),
        Ok(a) => match spec_parse_attr(a) {
            Ok(f) => AttrLookupView::Found(f),
            Err(e) => AttrLookupView::Invalid(invalid_prefix() + spec_attr_error_message(e)),
        },
    }
}

/// The first attribute named `value_to_string` decides; the others are ignored.
pub open spec fn spec_find_attr(attrs: Seq<AttrInputView>) -> AttrLookupView
    decreases attrs.len(),
{
    if attrs.len() == 0 {
        AttrLookupView::Missing
    } else if attrs[0].path_ident == Some(attr_name()) {
        spec_lookup_of(attrs[0].args)
    } else {
        spec_find_attr(attrs.drop_first())
    }
}

fn invalid_message(detail: &str) -> (s: String)
    ensures
        s@ == invalid_prefix() + detail@,
{
    let mut s = String::from_str("invalid value_to_string attribute: ");
    s.append(detail);
    s
}

/// Looks for the `#[value_to_string(...)]` attribute and parses it.
pub fn find_attr(attrs: &Vec<AttrInput>) -> (r: AttrLookup)
    ensures
        r@ == spec_find_attr(views(attrs@)),
{
    let target = String::from_str("value_to_string");
    let mut k: usize = 0;
    assert(views(attrs@).skip(0) =~= views(attrs@));
    while k < attrs.len()
        invariant
            k <= attrs.len(),
            target@ == attr_name(),
            spec_find_attr(views(attrs@)) == spec_find_attr(views(attrs@).skip(k as int)),
        decreases attrs.len() - k,
    {
        let ghost rest = views(attrs@).skip(k as int);
        assert(rest[0] == attrs@[k as int]@);
        assert(rest.drop_first() =~= views(attrs@).skip(k + 1));
        let attr = &attrs[k];
        let named = match &attr.path_ident {
            Some(p) => *p == target,
            None => false,
        };
        if named {
            match &attr.args {
                Err(e) => {
                    return AttrLookup::Invalid(invalid_message(e.as_str()));
                },
                Ok(args) => {
                    return match parse_attr(args) {
                        Ok(f) => AttrLookup::Found(f),
                        Err(e) => {
                            let m = e.message();
                            AttrLookup::Invalid(invalid_message(m.as_str()))
                        },
                    };
                },
            }
        }
        k = k + 1;
    }
    AttrLookup::Missing
}

} // verus!
