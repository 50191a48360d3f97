//! The fields of a plugin type as they are declared, and what the
//! attributes written on a field make of it.

use vstd::prelude::*;
use crate::directive::{
    apply_metas, apply_metas_spec, error_of, is_word, skip_stands_alone, DeriveError, DeriveErrorView, Directives,
    ErrorKind, Meta,
};

verus! {

/// What follows the path of an attribute.
#[derive(Clone, Debug, PartialEq, Eq)]
pub enum AttrArgs {
    /// Nothing, as in `#[frei0r]`.
    Path,
    /// `=` and a value, as in `#[frei0r = 1]`.
    NameValue,
    /// Tokens in brackets that are entries separated by commas, as in
    /// `#[frei0r(skip)]`: the entries, in the order written.
    List(Vec<Meta>),
    /// Tokens in brackets that are no such entries: what the parser says of them.
    Malformed(String),
}

/// An attribute written on a field.
#[derive(Clone, Debug, PartialEq, Eq)]
pub struct Attribute {
    /// The word of the attribute's path, where the path is a single word.
    pub path: Option<String>,
    pub args: AttrArgs,
}

/// A named field of a plugin type, as declared.
#[derive(Clone, Debug, PartialEq, Eq)]
pub struct Field {
    pub attrs: Vec<Attribute>,
    pub ident: String,
    /// The name of the field's type, without a module path.
    pub ty: String,
}

impl Attribute {
    /// Whether the attribute is one of this library's: its path is the word `frei0r`.
    pub open spec fn spec_is_frei0r(&self) -> bool {
        self.path matches Some(word) && word@ == "frei0r"@
    }

    /// Whether the attribute is one of this library's.
    #[verifier::when_used_as_spec(spec_is_frei0r)]
    pub fn is_frei0r(&self) -> (own: bool)
        ensures
            own == self.spec_is_frei0r(),
    {
        match &self.path {
            Some(word) => is_word(word, "frei0r"),
            None => false,
        }
    }
}

/// The state after the directives of one attribute. An attribute of another
/// path leaves the state as it is, whatever follows its path.
pub open spec fn apply_attr_spec(state: Directives, attr: Attribute) -> Result<Directives, DeriveErrorView> {
    if !attr.spec_is_frei0r() {
        Ok(state)
    } else {
        match attr.args {
            AttrArgs::Path => Err(error_of(ErrorKind::MissingArguments)),
            AttrArgs::NameValue => Err(error_of(ErrorKind::ExpectedParentheses)),
            AttrArgs::List(metas) => apply_metas_spec(state, metas@),
            AttrArgs::Malformed(words) => Err(DeriveErrorView { kind: ErrorKind::Syntax, message: words@ }),
        }
    }
}

/// The state after the attributes of a field, taken in order, or the first error.
pub open spec fn apply_attrs_spec(state: Directives, attrs: Seq<Attribute>) -> Result<Directives, DeriveErrorView>
    decreases attrs.len(),
{
    if attrs.len() == 0 {
        Ok(state)
    } else {
        match apply_attr_spec(state, attrs[0]) {
            Ok(next) => apply_attrs_spec(next, attrs.drop_first()),
            Err(e) => Err(e),
        }
    }
}

/// What the directives written on a field ask for.
pub open spec fn field_directives(field: Field) -> Result<Directives, DeriveErrorView> {
    apply_attrs_spec(Directives::spec_none(), field.attrs@)
}

/// Takes the directives of one attribute into the state.
pub fn apply_attr(state: Directives, attr: &Attribute) -> (next: Result<Directives, DeriveError>)
    ensures
        match next {
            Ok(s) => apply_attr_spec(state, *attr) == Ok::<Directives, DeriveErrorView>(s),
            Err(e) => apply_attr_spec(state, *attr) == Err::<Directives, DeriveErrorView>(e@),
        },
{
    if !attr.is_frei0r() {
        return Ok(state);
    }
    match &attr.args {
        AttrArgs::Path => Err(DeriveError::new(ErrorKind::MissingArguments)),
        AttrArgs::NameValue => Err(DeriveError::new(ErrorKind::ExpectedParentheses)),
        AttrArgs::List(metas) => apply_metas(state, metas),
        AttrArgs::Malformed(words) => Err(DeriveError { kind: ErrorKind::Syntax, message: words.clone() }),
    }
}

/// Takes the directives of a field's attributes into the state, in order, up
/// to the first error.
pub fn apply_attrs(state: Directives, attrs: &Vec<Attribute>) -> (last: Result<Directives, DeriveError>)
    ensures
        match last {
            Ok(s) => apply_attrs_spec(state, attrs@) == Ok::<Directives, DeriveErrorView>(s),
            Err(e) => apply_attrs_spec(state, attrs@) == Err::<Directives, DeriveErrorView>(e@),
        },
{
    let mut current = state;
    let mut i: usize = 0;
    assert(attrs@.skip(0) == attrs@);
    while i < attrs.len()
        invariant
            i <= attrs.len(),
            apply_attrs_spec(current, attrs@.skip(i as int)) == apply_attrs_spec(state, attrs@),
        decreases attrs.len() - i,
    {
        assert(attrs@.skip(i as int)[0] == attrs@[i as int]);
        assert(attrs@.skip(i as int).drop_first() == attrs@.skip(i + 1));
        match apply_attr(current, &attrs[i]) {
            Ok(next) => {
                current = next;
            },
            Err(e) => {
                return Err(e);
            },
        }
        i = i + 1;
    }
    Ok(current)
}

proof fn lemma_attrs_keep_wf(state: Directives, attrs: Seq<Attribute>)
    requires
        state.wf(),
        apply_attrs_spec(state, attrs) is Ok,
    ensures
        (apply_attrs_spec(state, attrs)->Ok_0).wf(),
    decreases attrs.len(),
{
    if attrs.len() > 0 {
        let first = attrs[0];
        if first.spec_is_frei0r() {
            if let AttrArgs::List(metas) = first.args {
                skip_stands_alone(state, metas@);
            }
        }
        lemma_attrs_keep_wf(apply_attr_spec(state, first)->Ok_0, attrs.drop_first());
    }
}

/// A field that is skipped carries no other directive: where the attributes
/// of a field are read without an error, `skip` is not set beside `rename`
/// or `explain`.
pub proof fn skipped_field_has_no_other_directive(field: Field)
    requires
        field_directives(field) is Ok,
    ensures
        (field_directives(field)->Ok_0).wf(),
{
    lemma_attrs_keep_wf(Directives::spec_none(), field.attrs@);
}

/// A text of the table, as the generated code will hold it.
#[derive(Clone, Debug, PartialEq, Eq)]
pub enum TextExpr {
    /// The source text of an expression, as a directive gave it.
    Given(String),
    /// The name of a field; it stands for the C string literal of that name.
    Ident(String),
    /// The empty text; it stands for the empty C string literal.
    Empty,
}

/// A field that is a parameter, with what its directives gave.
#[derive(Clone, Debug, PartialEq, Eq)]
pub struct FieldInfo {
    pub ident: String,
    pub ty: String,
    pub rename: Option<String>,
    pub explain: Option<String>,
}

/// What a field gives: nothing where it is skipped, else the parameter.
pub open spec fn field_info_spec(field: Field) -> Result<Option<FieldInfo>, DeriveErrorView> {
    match field_directives(field) {
        Err(e) => Err(e),
        Ok(state) => if state.skip {
            Ok(None)
        } else {
            Ok(Some(FieldInfo { ident: field.ident, ty: field.ty, rename: state.rename, explain: state.explain }))
        },
    }
}

impl FieldInfo {
    /// Reads the directives of a field.
    pub fn new(field: Field) -> (info: Result<Option<FieldInfo>, DeriveError>)
        ensures
            match info {
                Ok(i) => field_info_spec(field) == Ok::<Option<FieldInfo>, DeriveErrorView>(i),
                Err(e) => field_info_spec(field) == Err::<Option<FieldInfo>, DeriveErrorView>(e@),
            },
    {
        match apply_attrs(Directives::none(), &field.attrs) {
            Err(e) => Err(e),
            Ok(state) => if state.skip {
                Ok(None)
            } else {
                Ok(Some(FieldInfo { ident: field.ident, ty: field.ty, rename: state.rename, explain: state.explain }))
            },
        }
    }

    /// The name that the parameter is exposed under: what `rename` gave, or
    /// else the field's own name.
    pub open spec fn spec_param_name(&self) -> TextExpr {
        match self.rename {
            Some(expr) => TextExpr::Given(expr),
            None => TextExpr::Ident(self.ident),
        }
    }

    /// The explanation of the parameter: what `explain` gave, or else the
    /// empty text.
    pub open spec fn spec_param_explain(&self) -> TextExpr {
        match self.explain {
            Some(expr) => TextExpr::Given(expr),
            None => TextExpr::Empty,
        }
    }

    /// The name that the parameter is exposed under.
    #[verifier::when_used_as_spec(spec_param_name)]
    pub fn param_name(&self) -> (name: TextExpr)
        ensures
            name == self.spec_param_name(),
    {
        match &self.rename {
            Some(expr) => TextExpr::Given(expr.clone()),
            None => TextExpr::Ident(self.ident.clone()),
        }
    }

    /// The explanation of the parameter.
    #[verifier::when_used_as_spec(spec_param_explain)]
    pub fn param_explain(&self) -> (explanation: TextExpr)
        ensures
            explanation == self.spec_param_explain(),
    {
        match &self.explain {
            Some(expr) => TextExpr::Given(expr.clone()),
            None => TextExpr::Empty,
        }
    }
}

} // verus!
