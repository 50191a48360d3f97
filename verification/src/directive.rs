//! The directives that a field of a plugin type may carry: `skip`,
//! `rename = ..` and `explain = ..`, and the rules on how they combine.

use vstd::prelude::*;

verus! {

/// Why a declaration gives no parameter table.
#[derive(Clone, Copy, Debug, PartialEq, Eq, Structural)]
pub enum ErrorKind {
    /// The tokens of a directive list are no list of entries.
    Syntax,
    /// The attribute has no list of directives in parentheses.
    MissingArguments,
    /// The attribute has `=` where a list in parentheses is expected.
    ExpectedParentheses,
    /// An entry is named by a path that is not a single word.
    ExpectedIdent,
    /// An entry that is none of `skip`, `rename = ..`, `explain = ..`.
    UnknownAttribute,
    /// `skip` beside `rename` or `explain`.
    SkipWithOther,
    /// `skip` twice.
    DuplicateSkip,
    /// `rename` twice.
    DuplicateRename,
    /// `explain` twice.
    DuplicateExplain,
    /// The type of a field that is not skipped is no parameter type.
    UnsupportedType,
    /// The declaration is not a struct with named fields.
    NotNamedStruct,
}

/// The text that describes an error of the given kind. A syntax error that
/// comes from a parser carries the parser's words instead.
pub open spec fn message_of(kind: ErrorKind) -> Seq<char> {
    match kind {
        ErrorKind::Syntax => "malformed attribute arguments"@,
        ErrorKind::MissingArguments => "expected attribute arguments in parentheses: #[frei0r(...)]"@,
        ErrorKind::ExpectedParentheses => "expected parentheses: #[frei0r(...)]"@,
        ErrorKind::ExpectedIdent => "expected this path to be an identifier"@,
        ErrorKind::UnknownAttribute => "unknown attribute"@,
        ErrorKind::SkipWithOther => "skip attribute cannot be specified with other attribute"@,
        ErrorKind::DuplicateSkip => "attempting to set skip attribute more than once"@,
        ErrorKind::DuplicateRename => "attempting to set rename attribute more than once"@,
        ErrorKind::DuplicateExplain => "attempting to set explain attribute more than once"@,
        ErrorKind::UnsupportedType => "field type is not a parameter type"@,
        ErrorKind::NotNamedStruct => "Derive macro PluginBase is only supported on struct with named fields."@,
    }
}

/// An error of the build rule: its kind, and the text to show.
#[derive(Clone, Debug, PartialEq, Eq)]
pub struct DeriveError {
    pub kind: ErrorKind,
    pub message: String,
}

/// What a `DeriveError` is in contracts.
pub struct DeriveErrorView {
    pub kind: ErrorKind,
    pub message: Seq<char>,
}

impl View for DeriveError {
    type V = DeriveErrorView;

    open spec fn view(&self) -> DeriveErrorView {
        DeriveErrorView { kind: self.kind, message: self.message@ }
    }
}

/// The error of the given kind, with the text of that kind.
pub open spec fn error_of(kind: ErrorKind) -> DeriveErrorView {
    DeriveErrorView { kind, message: message_of(kind) }
}

impl DeriveError {
    /// The error of the given kind, with the text of that kind.
    pub fn new(kind: ErrorKind) -> (error: DeriveError)
        ensures
            error@ == error_of(kind),
    {
        let message = match kind {
            ErrorKind::Syntax => "malformed attribute arguments",
            ErrorKind::MissingArguments => "expected attribute arguments in parentheses: #[frei0r(...)]",
            ErrorKind::ExpectedParentheses => "expected parentheses: #[frei0r(...)]",
            ErrorKind::ExpectedIdent => "expected this path to be an identifier",
            ErrorKind::UnknownAttribute => "unknown attribute",
            ErrorKind::SkipWithOther => "skip attribute cannot be specified with other attribute",
            ErrorKind::DuplicateSkip => "attempting to set skip attribute more than once",
            ErrorKind::DuplicateRename => "attempting to set rename attribute more than once",
            ErrorKind::DuplicateExplain => "attempting to set explain attribute more than once",
            ErrorKind::UnsupportedType => "field type is not a parameter type",
            ErrorKind::NotNamedStruct => "Derive macro PluginBase is only supported on struct with named fields.",
        };
        DeriveError { kind, message: message.to_owned() }
    }
}

/// Whether a text is the given word.
pub fn is_word(text: &String, word: &str) -> (same: bool)
    ensures
        same == (text@ == word@),
{
    let owned = word.to_owned();
    *text == owned
}

/// One entry of a directive list, in the shape it was written.
#[derive(Clone, Debug, PartialEq, Eq)]
pub enum Meta {
    /// A path alone, as in `skip`: its word, where the path is a single word.
    Path(Option<String>),
    /// A path, `=` and an expression, as in `rename = c"x"`: the path's word,
    /// where it is a single word, and the text of the expression.
    NameValue(Option<String>, String),
    /// A path followed by tokens in brackets.
    List,
}

/// What the directives seen so far on a field ask for.
#[derive(Clone, Debug, PartialEq, Eq)]
pub struct Directives {
    pub skip: bool,
    pub rename: Option<String>,
    pub explain: Option<String>,
}

impl Directives {
    /// No directive yet.
    pub open spec fn spec_none() -> Directives {
        Directives { skip: false, rename: None, explain: None }
    }

    /// `skip` stands alone: where it is set, neither of the others is.
    pub open spec fn wf(&self) -> bool {
        self.skip ==> self.rename.is_none() && self.explain.is_none()
    }

    /// No directive yet.
    #[verifier::when_used_as_spec(spec_none)]
    pub fn none() -> (state: Directives)
        ensures
            state == Directives::spec_none(),
    {
        Directives { skip: false, rename: None, explain: None }
    }
}

/// The state after one more entry, or the error that the entry is.
pub open spec fn apply_meta_spec(state: Directives, meta: Meta) -> Result<Directives, DeriveErrorView> {
    match meta {
        Meta::Path(None) => Err(error_of(ErrorKind::ExpectedIdent)),
        Meta::Path(Some(word)) => if word@ == "skip"@ {
            if state.rename.is_some() || state.explain.is_some() {
                Err(error_of(ErrorKind::SkipWithOther))
            } else if state.skip {
                Err(error_of(ErrorKind::DuplicateSkip))
            } else {
                Ok(Directives { skip: true, rename: state.rename, explain: state.explain })
            }
        } else {
            Err(error_of(ErrorKind::UnknownAttribute))
        },
        Meta::NameValue(None, _) => Err(error_of(ErrorKind::ExpectedIdent)),
        Meta::NameValue(Some(word), value) => if word@ == "rename"@ {
            if state.skip {
                Err(error_of(ErrorKind::SkipWithOther))
            } else if state.rename.is_some() {
                Err(error_of(ErrorKind::DuplicateRename))
            } else {
                Ok(Directives { skip: state.skip, rename: Some(value), explain: state.explain })
            }
        } else if word@ == "explain"@ {
            if state.skip {
                Err(error_of(ErrorKind::SkipWithOther))
            } else if state.explain.is_some() {
                Err(error_of(ErrorKind::DuplicateExplain))
            } else {
                Ok(Directives { skip: state.skip, rename: state.rename, explain: Some(value) })
            }
        } else {
            Err(error_of(ErrorKind::UnknownAttribute))
        },
        Meta::List => Err(error_of(ErrorKind::UnknownAttribute)),
    }
}

/// The state after the entries of a list, taken in order, or the first error.
pub open spec fn apply_metas_spec(state: Directives, metas: Seq<Meta>) -> Result<Directives, DeriveErrorView>
    decreases metas.len(),
{
    if metas.len() == 0 {
        Ok(state)
    } else {
        match apply_meta_spec(state, metas[0]) {
            Ok(next) => apply_metas_spec(next, metas.drop_first()),
            Err(e) => Err(e),
        }
    }
}

/// Takes one more entry into the state.
pub fn apply_meta(state: Directives, meta: &Meta) -> (next: Result<Directives, DeriveError>)
    ensures
        match next {
            Ok(s) => apply_meta_spec(state, *meta) == Ok::<Directives, DeriveErrorView>(s),
            Err(e) => apply_meta_spec(state, *meta) == Err::<Directives, DeriveErrorView>(e@),
        },
{
    match meta {
        Meta::Path(None) => Err(DeriveError::new(ErrorKind::ExpectedIdent)),
        Meta::Path(Some(word)) => {
            if is_word(word, "skip") {
                if state.rename.is_some() || state.explain.is_some() {
                    Err(DeriveError::new(ErrorKind::SkipWithOther))
                } else if state.skip {
                    Err(DeriveError::new(ErrorKind::DuplicateSkip))
                } else {
                    Ok(Directives { skip: true, rename: state.rename, explain: state.explain })
                }
            } else {
                Err(DeriveError::new(ErrorKind::UnknownAttribute))
            }
        },
        Meta::NameValue(None, _) => Err(DeriveError::new(ErrorKind::ExpectedIdent)),
        Meta::NameValue(Some(word), value) => {
            if is_word(word, "rename") {
                if state.skip {
                    Err(DeriveError::new(ErrorKind::SkipWithOther))
                } else if state.rename.is_some() {
                    Err(DeriveError::new(ErrorKind::DuplicateRename))
                } else {
                    Ok(Directives { skip: state.skip, rename: Some(value.clone()), explain: state.explain })
                }
            } else if is_word(word, "explain") {
                if state.skip {
                    Err(DeriveError::new(ErrorKind::SkipWithOther))
                } else if state.explain.is_some() {
                    Err(DeriveError::new(ErrorKind::DuplicateExplain))
                } else {
                    Ok(Directives { skip: state.skip, rename: state.rename, explain: Some(value.clone()) })
                }
            } else {
                Err(DeriveError::new(ErrorKind::UnknownAttribute))
            }
        },
        Meta::List => Err(DeriveError::new(ErrorKind::UnknownAttribute)),
    }
}

/// Takes the entries of a list into the state, in order, up to the first
/// that is an error.
pub fn apply_metas(state: Directives, metas: &Vec<Meta>) -> (last: Result<Directives, DeriveError>)
    ensures
        match last {
            Ok(s) => apply_metas_spec(state, metas@) == Ok::<Directives, DeriveErrorView>(s),
            Err(e) => apply_metas_spec(state, metas@) == Err::<Directives, DeriveErrorView>(e@),
        },
{
    let mut current = state;
    let mut i: usize = 0;
    assert(metas@.skip(0) == metas@);
    while i < metas.len()
        invariant
            i <= metas.len(),
            apply_metas_spec(current, metas@.skip(i as int)) == apply_metas_spec(state, metas@),
        decreases metas.len() - i,
    {
        assert(metas@.skip(i as int)[0] == metas@[i as int]);
        assert(metas@.skip(i as int).drop_first() == metas@.skip(i + 1));
        match apply_meta(current, &metas[i]) {
            Ok(next) => {
                current = next;
            },
            Err(e) => {
                return Err(e);
            },
        }
        i = i + 1;
    }
    Ok(current)
}

/// `skip` excludes the other directives: whatever list of entries is taken
/// without an error, `skip` is not set beside `rename` or `explain`.
pub proof fn skip_stands_alone(state: Directives, metas: Seq<Meta>)
    requires
        state.wf(),
        apply_metas_spec(state, metas) is Ok,
    ensures
        (apply_metas_spec(state, metas)->Ok_0).wf(),
    decreases metas.len(),
{
    if metas.len() > 0 {
        skip_stands_alone(apply_meta_spec(state, metas[0])->Ok_0, metas.drop_first());
    }
}

} // verus!
