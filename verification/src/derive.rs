//! The build rule of a plugin's parameter table: from the declaration of a
//! plugin type to the list of its parameters, in the order of declaration.

use vstd::prelude::*;
use crate::directive::{error_of, is_word, DeriveError, DeriveErrorView, ErrorKind};
use crate::field::{field_directives, field_info_spec, Field, FieldInfo, TextExpr};
use crate::kinds::ParamType;

verus! {

/// The kind of parameter that a field of the named type is; `None` for a
/// type that is no parameter type.
pub open spec fn kind_of_type(ty: Seq<char>) -> Option<ParamType> {
    if ty == "bool"@ {
        Some(ParamType::Bool)
    } else if ty == "f64"@ {
        Some(ParamType::Double)
    } else if ty == "Color"@ {
        Some(ParamType::Color)
    } else if ty == "Position"@ {
        Some(ParamType::Position)
    } else if ty == "CString"@ {
        Some(ParamType::String)
    } else {
        None
    }
}

/// The kind of parameter that a field of the named type is.
pub fn param_type_of(ty: &String) -> (kind: Option<ParamType>)
    ensures
        kind == kind_of_type(ty@),
{
    if is_word(ty, "bool") {
        Some(ParamType::Bool)
    } else if is_word(ty, "f64") {
        Some(ParamType::Double)
    } else if is_word(ty, "Color") {
        Some(ParamType::Color)
    } else if is_word(ty, "Position") {
        Some(ParamType::Position)
    } else if is_word(ty, "CString") {
        Some(ParamType::String)
    } else {
        None
    }
}

/// The fields of a struct, by the way they are written.
#[derive(Clone, Debug, PartialEq, Eq)]
pub enum Fields {
    Named(Vec<Field>),
    Unnamed,
    Unit,
}

/// What a declaration declares.
#[derive(Clone, Debug, PartialEq, Eq)]
pub enum Data {
    Struct(Fields),
    Enum,
    Union,
}

/// The declaration of a plugin type.
#[derive(Clone, Debug, PartialEq, Eq)]
pub struct DeriveInput {
    pub ident: String,
    pub data: Data,
}

/// The parameters among the fields that follow, behind those found before:
/// the fields are read in order, a skipped one adds nothing, and the first
/// error ends the reading.
pub open spec fn collect_from(found: Seq<FieldInfo>, fields: Seq<Field>) -> Result<Seq<FieldInfo>, DeriveErrorView>
    decreases fields.len(),
{
    if fields.len() == 0 {
        Ok(found)
    } else {
        match field_info_spec(fields[0]) {
            Err(e) => Err(e),
            Ok(None) => collect_from(found, fields.drop_first()),
            Ok(Some(info)) => collect_from(found.push(info), fields.drop_first()),
        }
    }
}

/// The parameters among the fields, in the order of declaration.
pub open spec fn collect_fields(fields: Seq<Field>) -> Result<Seq<FieldInfo>, DeriveErrorView> {
    collect_from(Seq::empty(), fields)
}

/// A plugin type with the fields that are parameters.
#[derive(Clone, Debug, PartialEq, Eq)]
pub struct DeriveInputInfo {
    pub ident: String,
    pub fields: Vec<FieldInfo>,
}

/// The name and the parameters of a declared plugin type.
pub open spec fn derive_input_info_spec(input: DeriveInput) -> Result<(String, Seq<FieldInfo>), DeriveErrorView> {
    match input.data {
        Data::Struct(Fields::Named(fields)) => match collect_fields(fields@) {
            Ok(found) => Ok((input.ident, found)),
            Err(e) => Err(e),
        },
        _ => Err(error_of(ErrorKind::NotNamedStruct)),
    }
}

impl DeriveInputInfo {
    /// Reads the declaration of a plugin type: a struct with named fields.
    pub fn new(derive_input: DeriveInput) -> (info: Result<DeriveInputInfo, DeriveError>)
        ensures
            match info {
                Ok(i) => derive_input_info_spec(derive_input) == Ok::<(String, Seq<FieldInfo>), DeriveErrorView>((i.ident, i.fields@)),
                Err(e) => derive_input_info_spec(derive_input) == Err::<(String, Seq<FieldInfo>), DeriveErrorView>(e@),
            },
    {
        match derive_input.data {
            Data::Struct(Fields::Named(fields)) => {
                let ghost all = fields@;
                let mut found: Vec<FieldInfo> = Vec::new();
                assert(all.skip(0) == all);
                for field in it: fields
                    invariant
                        it.seq() == all,
                        derive_input.data matches Data::Struct(Fields::Named(declared)) && declared@ == all,
                        collect_from(found@, all.skip(it.index() as int)) == collect_fields(all),
                {
                    assert(all.skip(it.index() as int)[0] == all[it.index() as int]);
                    assert(all.skip(it.index() as int).drop_first() == all.skip(it.index() + 1));
                    match FieldInfo::new(field) {
                        Err(e) => {
                            return Err(e);
                        },
                        Ok(None) => {},
                        Ok(Some(info)) => {
                            found.push(info);
                        },
                    }
                }
                Ok(DeriveInputInfo { ident: derive_input.ident, fields: found })
            },
            _ => Err(DeriveError::new(ErrorKind::NotNamedStruct)),
        }
    }
}

/// One parameter of a plugin type: one row of its table.
#[derive(Clone, Debug, PartialEq, Eq)]
pub struct ParamEntry {
    /// The field that holds the parameter.
    pub field: String,
    /// The name of the field's type.
    pub ty: String,
    /// The name that the host sees.
    pub name: TextExpr,
    pub kind: ParamType,
    pub explanation: TextExpr,
}

/// The row of a parameter; `None` where its type is no parameter type.
pub open spec fn entry_of(info: FieldInfo) -> Option<ParamEntry> {
    match kind_of_type(info.ty@) {
        Some(kind) => Some(
            ParamEntry {
                field: info.ident,
                ty: info.ty,
                name: info.spec_param_name(),
                kind,
                explanation: info.spec_param_explain(),
            },
        ),
        None => None,
    }
}

/// The rows of the parameters, one for each in the same order; an error
/// where the type of one of them is no parameter type.
pub open spec fn entries_of(infos: Seq<FieldInfo>) -> Result<Seq<ParamEntry>, DeriveErrorView> {
    if forall|i: int| 0 <= i < infos.len() ==> (#[trigger] entry_of(infos[i])).is_some() {
        Ok(Seq::new(infos.len(), |i: int| entry_of(infos[i]).unwrap()))
    } else {
        Err(error_of(ErrorKind::UnsupportedType))
    }
}

/// The name of a declared plugin type and the rows of its table. An error in
/// the directives comes before one in the types.
pub open spec fn derive_spec(input: DeriveInput) -> Result<(String, Seq<ParamEntry>), DeriveErrorView> {
    match derive_input_info_spec(input) {
        Err(e) => Err(e),
        Ok((ident, infos)) => match entries_of(infos) {
            Err(e) => Err(e),
            Ok(entries) => Ok((ident, entries)),
        },
    }
}

/// The parameter table of a plugin type: what the plugin type's reflection
/// answers, index by index.
#[derive(Clone, Debug, PartialEq, Eq)]
pub struct ParamTable {
    /// The name of the plugin type.
    pub ident: String,
    /// The parameters; the place of a row is the index of its parameter.
    pub params: Vec<ParamEntry>,
}

impl ParamTable {
    /// The number of parameters.
    pub fn param_count(&self) -> (count: usize)
        ensures
            count == self.params@.len(),
    {
        self.params.len()
    }

    /// The row of the parameter with the given index.
    pub fn param_info(&self, index: usize) -> (entry: &ParamEntry)
        requires
            index < self.params@.len(),
        ensures
            *entry == self.params@[index as int],
    {
        &self.params[index]
    }
}

/// Builds the row of a parameter.
pub fn param_entry(info: FieldInfo) -> (entry: Result<ParamEntry, DeriveError>)
    ensures
        match entry {
            Ok(row) => entry_of(info) == Some(row),
            Err(e) => entry_of(info).is_none() && e@ == error_of(ErrorKind::UnsupportedType),
        },
{
    match param_type_of(&info.ty) {
        Some(kind) => {
            let name = info.param_name();
            let explanation = info.param_explain();
            Ok(ParamEntry { field: info.ident, ty: info.ty, name, kind, explanation })
        },
        None => Err(DeriveError::new(ErrorKind::UnsupportedType)),
    }
}

/// Builds the parameter table of a declared plugin type: one row for each
/// field that is not skipped, in the order of declaration.
pub fn derive_plugin_base(input: DeriveInput) -> (table: Result<ParamTable, DeriveError>)
    ensures
        match table {
            Ok(t) => derive_spec(input) == Ok::<(String, Seq<ParamEntry>), DeriveErrorView>((t.ident, t.params@)),
            Err(e) => derive_spec(input) == Err::<(String, Seq<ParamEntry>), DeriveErrorView>(e@),
        },
{
    match DeriveInputInfo::new(input) {
        Err(e) => Err(e),
        Ok(info) => {
            let ghost infos = info.fields@;
            let mut params: Vec<ParamEntry> = Vec::new();
            for field in it: info.fields
                invariant
                    it.seq() == infos,
                    derive_input_info_spec(input) == Ok::<(String, Seq<FieldInfo>), DeriveErrorView>((info.ident, infos)),
                    params@.len() == it.index(),
                    forall|i: int| 0 <= i < it.index() ==> #[trigger] entry_of(infos[i]) == Some(params@[i]),
            {
                match param_entry(field) {
                    Err(e) => {
                        assert(entry_of(infos[it.index() as int]).is_none());
                        return Err(e);
                    },
                    Ok(row) => {
                        params.push(row);
                    },
                }
            }
            assert(params@ == Seq::new(infos.len(), |i: int| entry_of(infos[i]).unwrap()));
            Ok(ParamTable { ident: info.ident, params })
        },
    }
}

/// Whether a field is left out of the table: its directives say `skip`.
pub open spec fn is_skipped(field: Field) -> bool {
    field_directives(field) matches Ok(state) && state.skip
}

/// The test for the fields that are left out.
pub open spec fn skipped() -> spec_fn(Field) -> bool {
    |field: Field| is_skipped(field)
}

/// The test for the fields that stay.
pub open spec fn kept() -> spec_fn(Field) -> bool {
    |field: Field| !is_skipped(field)
}

/// Whether a row is what the directives and the type of a field ask for.
pub open spec fn row_follows_field(row: ParamEntry, field: Field) -> bool {
    &&& field_directives(field) matches Ok(state)
    &&& !state.skip
    &&& row.field == field.ident
    &&& row.ty == field.ty
    &&& kind_of_type(field.ty@) == Some(row.kind)
    &&& row.name == match state.rename {
        Some(expr) => TextExpr::Given(expr),
        None => TextExpr::Ident(field.ident),
    }
    &&& row.explanation == match state.explain {
        Some(expr) => TextExpr::Given(expr),
        None => TextExpr::Empty,
    }
}

proof fn lemma_filter_front(fields: Seq<Field>, test: spec_fn(Field) -> bool)
    requires
        fields.len() > 0,
    ensures
        fields.filter(test) == if test(fields[0]) {
            seq![fields[0]] + fields.drop_first().filter(test)
        } else {
            fields.drop_first().filter(test)
        },
{
    let head = seq![fields[0]];
    assert(fields == head + fields.drop_first());
    Seq::filter_distributes_over_add(head, fields.drop_first(), test);
    reveal_with_fuel(Seq::filter, 2);
    assert(head.drop_last() == Seq::<Field>::empty());
    if test(fields[0]) {
        assert(head.filter(test) == head);
    } else {
        assert(head.filter(test) == Seq::<Field>::empty());
        assert(Seq::<Field>::empty() + fields.drop_first().filter(test) == fields.drop_first().filter(test));
    }
}

proof fn lemma_collect_from(found: Seq<FieldInfo>, fields: Seq<Field>)
    requires
        collect_from(found, fields) is Ok,
    ensures
        ({
            let all = collect_from(found, fields)->Ok_0;
            let stay = fields.filter(kept());
            &&& all.len() == found.len() + stay.len()
            &&& stay.len() + fields.filter(skipped()).len() == fields.len()
            &&& forall|j: int| 0 <= j < found.len() ==> all[j] == found[j]
            &&& forall|k: int| 0 <= k < stay.len() ==> field_info_spec(#[trigger] stay[k]) == Ok::<Option<FieldInfo>, DeriveErrorView>(Some(all[found.len() + k]))
        }),
    decreases fields.len(),
{
    if fields.len() == 0 {
        reveal_with_fuel(Seq::filter, 1);
    } else {
        let rest = fields.drop_first();
        lemma_filter_front(fields, kept());
        lemma_filter_front(fields, skipped());
        match field_info_spec(fields[0]) {
            Err(_) => {},
            Ok(None) => {
                lemma_collect_from(found, rest);
            },
            Ok(Some(info)) => {
                lemma_collect_from(found.push(info), rest);
                let all = collect_from(found, fields)->Ok_0;
                let stay = fields.filter(kept());
                assert forall|k: int| 0 <= k < stay.len() implies field_info_spec(#[trigger] stay[k]) == Ok::<Option<FieldInfo>, DeriveErrorView>(Some(all[found.len() + k])) by {
                    if k == 0 {
                        assert(all[found.len() as int] == found.push(info)[found.len() as int]);
                    } else {
                        assert(stay[k] == rest.filter(kept())[k - 1]);
                    }
                }
                assert forall|j: int| 0 <= j < found.len() implies all[j] == found[j] by {
                    assert(all[j] == found.push(info)[j]);
                }
            },
        }
    }
}

/// The table has one row for each declared field that is not skipped, in the
/// order of declaration, and so as many rows as there are fields less the
/// skipped ones; each row holds the name, the kind and the explanation that
/// the directives and the type of its field ask for.
pub proof fn table_follows_declaration(input: DeriveInput)
    requires
        derive_spec(input) is Ok,
    ensures
        input.data matches Data::Struct(Fields::Named(fields)) && ({
            let params = (derive_spec(input)->Ok_0).1;
            let stay = fields@.filter(kept());
            &&& params.len() == fields@.len() - fields@.filter(skipped()).len()
            &&& params.len() == stay.len()
            &&& forall|i: int| 0 <= i < params.len() ==> row_follows_field(#[trigger] params[i], stay[i])
        }),
{
    match input.data {
        Data::Struct(Fields::Named(fields)) => {
            lemma_collect_from(Seq::empty(), fields@);
            let infos = collect_fields(fields@)->Ok_0;
            let params = (derive_spec(input)->Ok_0).1;
            let stay = fields@.filter(kept());
            assert forall|i: int| 0 <= i < params.len() implies row_follows_field(#[trigger] params[i], stay[i]) by {
                assert(field_info_spec(stay[i]) == Ok::<Option<FieldInfo>, DeriveErrorView>(Some(infos[i])));
                assert(entry_of(infos[i]).is_some());
            }
        },
        _ => {},
    }
}

} // verus!
