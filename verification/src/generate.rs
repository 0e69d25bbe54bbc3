//! The generator: it turns one resolved `Config` into the schema descriptor
//! and the two ordered bind sequences that the generated code carries.

use vstd::prelude::*;

use crate::config::{
    lemma_first_id_index, spec_db_selection, spec_id_column, spec_id_index, Config, DbType,
};
use crate::input::{distinct_names, field_names, FieldDecl, MetaError, TypeData, TypeDecl};
use crate::naming::{spec_screaming_snake_case, spec_table_case, str_eq};
use crate::schema::Descriptor;

verus! {

/// The columns with every occurrence of the primary-key column removed,
/// declaration order preserved.
pub open spec fn spec_without(cols: Seq<Seq<char>>, pk: Seq<char>) -> Seq<Seq<char>>
    decreases cols.len(),
{
    if cols.len() == 0 {
        Seq::empty()
    } else {
        let rest = spec_without(cols.drop_first(), pk);
        if cols[0] == pk {
            rest
        } else {
            seq![cols[0]] + rest
        }
    }
}

/// The insert bind sequence: one value per column, in declaration order.
pub open spec fn spec_insert_binds(cols: Seq<Seq<char>>) -> Seq<Seq<char>> {
    cols
}

/// The update bind sequence: every column but the primary key, in
/// declaration order, and the primary key once more as the final bound
/// value.
pub open spec fn spec_update_binds(cols: Seq<Seq<char>>, pk: Seq<char>) -> Seq<Seq<char>> {
    spec_without(cols, pk).push(pk)
}

proof fn lemma_without_push(a: Seq<Seq<char>>, x: Seq<char>, pk: Seq<char>)
    ensures
        spec_without(a.push(x), pk) == spec_without(a, pk) + (if x == pk {
            Seq::<Seq<char>>::empty()
        } else {
            seq![x]
        }),
    decreases a.len(),
{
    let b = a.push(x);
    let tail: Seq<Seq<char>> = if x == pk {
        Seq::empty()
    } else {
        seq![x]
    };
    if a.len() == 0 {
        assert(b[0] == x);
        assert(b.drop_first() =~= a);
        assert(spec_without(a, pk) =~= Seq::<Seq<char>>::empty());
        if x == pk {
            assert(spec_without(b, pk) == spec_without(a, pk));
        } else {
            assert(spec_without(b, pk) == seq![x] + spec_without(a, pk));
        }
        assert(spec_without(b, pk) =~= spec_without(a, pk) + tail);
    } else {
        assert(b[0] == a[0]);
        assert(b.drop_first() =~= a.drop_first().push(x));
        lemma_without_push(a.drop_first(), x, pk);
        if a[0] == pk {
            assert(spec_without(b, pk) == spec_without(a.drop_first(), pk) + tail);
            assert(spec_without(a, pk) == spec_without(a.drop_first(), pk));
            assert(spec_without(b, pk) =~= spec_without(a, pk) + tail);
        } else {
            assert(spec_without(b, pk) == seq![a[0]] + (spec_without(a.drop_first(), pk) + tail));
            assert(spec_without(a, pk) == seq![a[0]] + spec_without(a.drop_first(), pk));
            assert(seq![a[0]] + (spec_without(a.drop_first(), pk) + tail) =~= (seq![a[0]]
                + spec_without(a.drop_first(), pk)) + tail);
            assert(spec_without(b, pk) =~= spec_without(a, pk) + tail);
        }
    }
}

/// No element of the main update pass is the primary-key column.
proof fn lemma_without_excludes_key(cols: Seq<Seq<char>>, pk: Seq<char>)
    ensures
        forall|i: int|
            0 <= i < spec_without(cols, pk).len() ==> spec_without(cols, pk)[i] != pk,
    decreases cols.len(),
{
    if cols.len() > 0 {
        lemma_without_excludes_key(cols.drop_first(), pk);
        assert forall|i: int|
            0 <= i < spec_without(cols, pk).len() implies spec_without(cols, pk)[i] != pk by {
            if cols[0] == pk {
                assert(spec_without(cols, pk) == spec_without(cols.drop_first(), pk));
            } else {
                assert(spec_without(cols, pk) == seq![cols[0]] + spec_without(
                    cols.drop_first(),
                    pk,
                ));
                if i > 0 {
                    assert(spec_without(cols, pk)[i] == spec_without(cols.drop_first(), pk)[i - 1]);
                }
            }
        }
    }
}

/// Removing the primary-key column from pairwise-distinct columns removes
/// exactly its one position and keeps the order of the rest.
proof fn lemma_without_removes_one(cols: Seq<Seq<char>>, pk: Seq<char>, k: int)
    requires
        forall|i: int, j: int| 0 <= i < j < cols.len() ==> cols[i] != cols[j],
        0 <= k < cols.len(),
        cols[k] == pk,
    ensures
        spec_without(cols, pk) == cols.remove(k),
    decreases cols.len(),
{
    if k == 0 {
        assert forall|i: int|
            0 <= i < cols.drop_first().len() implies cols.drop_first()[i] != pk by {
            assert(cols.drop_first()[i] == cols[i + 1]);
        }
        lemma_without_keeps_all(cols.drop_first(), pk);
        assert(spec_without(cols, pk) =~= cols.remove(0));
    } else {
        assert(cols[0] != cols[k]);
        lemma_without_removes_one(cols.drop_first(), pk, k - 1);
        assert(spec_without(cols, pk) =~= seq![cols[0]] + cols.drop_first().remove(k - 1));
        assert(seq![cols[0]] + cols.drop_first().remove(k - 1) =~= cols.remove(k));
    }
}

/// Columns that never hold the primary-key column pass through unchanged.
proof fn lemma_without_keeps_all(cols: Seq<Seq<char>>, pk: Seq<char>)
    requires
        forall|i: int| 0 <= i < cols.len() ==> cols[i] != pk,
    ensures
        spec_without(cols, pk) == cols,
    decreases cols.len(),
{
    if cols.len() > 0 {
        assert forall|i: int|
            0 <= i < cols.drop_first().len() implies cols.drop_first()[i] != pk by {
            assert(cols.drop_first()[i] == cols[i + 1]);
        }
        lemma_without_keeps_all(cols.drop_first(), pk);
        assert(spec_without(cols, pk) =~= cols);
    }
}

/// Update bind order and key-trailing: the update sequence is as long as the
/// column list, its main pass excludes the primary key while keeping
/// declaration order, and the primary key is bound exactly once, last,
/// whatever its declared position.
pub proof fn lemma_update_binds_key_trailing(cols: Seq<Seq<char>>, pk: Seq<char>, k: int)
    requires
        forall|i: int, j: int| 0 <= i < j < cols.len() ==> cols[i] != cols[j],
        0 <= k < cols.len(),
        cols[k] == pk,
    ensures
        spec_update_binds(cols, pk).len() == cols.len(),
        spec_update_binds(cols, pk).last() == pk,
        forall|i: int|
            0 <= i < cols.len() - 1 ==> spec_update_binds(cols, pk)[i] != pk,
        spec_update_binds(cols, pk) == cols.remove(k).push(pk),
{
    lemma_without_removes_one(cols, pk, k);
    lemma_without_excludes_key(cols, pk);
    assert forall|i: int|
        0 <= i < cols.len() - 1 implies spec_update_binds(cols, pk)[i] != pk by {
        assert(spec_update_binds(cols, pk)[i] == spec_without(cols, pk)[i]);
    }
}

/// The column names of the declared fields, in declaration order.
fn column_names(fields: &Vec<FieldDecl>) -> (r: Vec<String>)
    ensures
        r.deep_view() == field_names(fields@),
{
    let n = fields.len();
    let mut out: Vec<String> = Vec::new();
    let mut i: usize = 0;
    while i < n
        invariant
            n == fields@.len(),
            i <= n,
            out@.len() == i,
            forall|j: int| 0 <= j < i ==> out@[j]@ == fields@[j].name@,
        decreases n - i,
    {
        out.push(fields[i].name.clone());
        i = i + 1;
    }
    proof {
        assert(out.deep_view() =~= field_names(fields@));
    }
    out
}

/// Builds the schema descriptor the generated static holds: the table name,
/// the primary-key column, and one column per declared field, in declaration
/// order.
pub fn build_static_model_schema(config: &Config) -> (m: Descriptor)
    requires
        config.wf(),
    ensures
        m.table_name@ == config.table_name@,
        m.id_column@ == config.id_column@,
        m.columns_view() == field_names(config.fields@),
        m.wf(),
{
    let columns = column_names(&config.fields);
    let m = Descriptor {
        table_name: config.table_name.clone(),
        id_column: config.id_column.clone(),
        columns,
    };
    proof {
        lemma_first_id_index(config.fields@);
        let sii = spec_id_index(config.fields@);
        assert(m.columns_view()[sii] == m.id_column@);
    }
    m
}

/// What the generated trait implementations carry: the primary-key field's
/// declared type, the selected database type, and the two bind sequences.
pub struct CrudImpl {
    pub id_type: String,
    pub db_type: DbType,
    pub insert_binds: Vec<String>,
    pub update_binds: Vec<String>,
}

/// The index of the declared field whose identifier is the primary-key
/// column.
fn find_column_index(fields: &Vec<FieldDecl>, id_column: &String) -> (r: usize)
    requires
        exists|i: int| 0 <= i < fields@.len() && fields@[i].name@ == id_column@,
    ensures
        r < fields@.len(),
        fields@[r as int].name@ == id_column@,
{
    let n = fields.len();
    let mut i: usize = 0;
    while i < n
        invariant
            n == fields@.len(),
            i <= n,
            forall|j: int| 0 <= j < i ==> fields@[j].name@ != id_column@,
            exists|j: int| 0 <= j < fields@.len() && fields@[j].name@ == id_column@,
        decreases n - i,
    {
        if str_eq(fields[i].name.as_str(), id_column.as_str()) {
            return i;
        }
        i = i + 1;
    }
    unreached()
}

/// Builds the generated implementation content from a resolved
/// configuration: the insert sequence binds every column in declaration
/// order; the update sequence binds every column but the primary key in
/// declaration order and then the primary key once more, last.
pub fn build_sqlx_crud_impl(config: &Config) -> (r: CrudImpl)
    requires
        config.wf(),
    ensures
        r.db_type == config.db_ty,
        r.id_type@ == config.fields@[spec_id_index(config.fields@)].ty@,
        r.insert_binds.deep_view() == spec_insert_binds(field_names(config.fields@)),
        r.update_binds.deep_view() == spec_update_binds(
            field_names(config.fields@),
            config.id_column@,
        ),
{
    proof {
        lemma_first_id_index(config.fields@);
        let sii = spec_id_index(config.fields@);
        assert(config.fields@[sii].name@ == config.id_column@);
    }
    let id_index = find_column_index(&config.fields, &config.id_column);
    proof {
        let sii = spec_id_index(config.fields@);
        if (id_index as int) < sii {
            assert(config.fields@[id_index as int].name@ != config.fields@[sii].name@);
        }
        if sii < id_index as int {
            assert(config.fields@[sii].name@ != config.fields@[id_index as int].name@);
        }
        assert(id_index as int == sii);
    }
    let id_type = config.fields[id_index].ty.clone();
    let insert_binds = column_names(&config.fields);
    let update_binds = update_bind_names(&config.fields, &config.id_column);
    CrudImpl { id_type, db_type: config.db_ty, insert_binds, update_binds }
}

/// The update bind sequence over the declared fields: the non-key columns in
/// declaration order, then the primary-key column.
fn update_bind_names(fields: &Vec<FieldDecl>, id_column: &String) -> (r: Vec<String>)
    ensures
        r.deep_view() == spec_update_binds(field_names(fields@), id_column@),
{
    let ghost cols = field_names(fields@);
    let n = fields.len();
    let mut out: Vec<String> = Vec::new();
    let mut i: usize = 0;
    while i < n
        invariant
            n == fields@.len(),
            i <= n,
            cols == field_names(fields@),
            out.deep_view() == spec_without(cols.take(i as int), id_column@),
        decreases n - i,
    {
        proof {
            assert(cols.take(i as int + 1) =~= cols.take(i as int).push(cols[i as int]));
            lemma_without_push(cols.take(i as int), cols[i as int], id_column@);
        }
        if !str_eq(fields[i].name.as_str(), id_column.as_str()) {
            out.push(fields[i].name.clone());
            proof {
                assert(out.deep_view() =~= spec_without(cols.take(i as int + 1), id_column@));
            }
        } else {
            proof {
                assert(out.deep_view() =~= spec_without(cols.take(i as int + 1), id_column@));
            }
        }
        i = i + 1;
    }
    proof {
        assert(cols.take(n as int) =~= cols);
    }
    out.push(id_column.clone());
    proof {
        assert(out.deep_view() =~= spec_update_binds(field_names(fields@), id_column@));
    }
    out
}

/// Everything the derivation emits for one annotated type: the name of the
/// generated schema value, the schema descriptor itself, the generated
/// implementation content, and the externally-assigned-identifier marker.
pub struct Derived {
    pub model_schema_ident: String,
    pub descriptor: Descriptor,
    pub crud: CrudImpl,
    pub external_id: bool,
}

/// The output `d` is the one derivation of `input`: every part of it agrees
/// with the defining transform or selection policy on the declaration.
pub open spec fn derives_ok(input: TypeDecl, d: Derived) -> bool {
    match input.data {
        TypeData::NamedStruct { fields } => {
            &&& spec_db_selection(input.attrs.database) == Ok::<DbType, MetaError>(d.crud.db_type)
            &&& d.descriptor.table_name@ == spec_table_case(input.ident@)
            &&& d.descriptor.id_column@ == spec_id_column(fields@)
            &&& d.descriptor.columns_view() == field_names(fields@)
            &&& d.descriptor.wf()
            &&& d.model_schema_ident@ == spec_screaming_snake_case(input.ident@) + "_SCHEMA"@
            &&& d.crud.id_type@ == fields@[spec_id_index(fields@)].ty@
            &&& d.crud.insert_binds.deep_view() == spec_insert_binds(field_names(fields@))
            &&& d.crud.update_binds.deep_view() == spec_update_binds(
                field_names(fields@),
                spec_id_column(fields@),
            )
            &&& d.external_id == input.attrs.external_id
        },
        TypeData::Unsupported => false,
    }
}

/// Derives the persistence metadata of one annotated type: the schema
/// descriptor and the generated implementation content. Aborts, and only
/// aborts, when the declaration is not a struct with named fields, when it
/// declares no fields, or when its database annotation names an unrecognized
/// database type.
pub fn sqlx_meta(input: TypeDecl) -> (r: Result<Derived, MetaError>)
    requires
        input.wf(),
    ensures
        match r {
            Ok(d) => {
                &&& input.data matches TypeData::NamedStruct { fields } && fields@.len() > 0
                &&& derives_ok(input, d)
            },
            Err(e) => match e {
                MetaError::NotNamedStruct => input.data is Unsupported,
                MetaError::NoFields => {
                    &&& input.data matches TypeData::NamedStruct { fields } && fields@.len() == 0
                    &&& spec_db_selection(input.attrs.database) is Ok
                },
                MetaError::UnknownDatabase(n) => {
                    &&& input.data is NamedStruct
                    &&& spec_db_selection(input.attrs.database) == Err::<DbType, MetaError>(
                        MetaError::UnknownDatabase(n),
                    )
                },
            },
        },
{
    let TypeDecl { ident, attrs, data } = input;
    match data {
        TypeData::NamedStruct { fields } => {
            let config = match Config::new(ident.as_str(), fields, &attrs) {
                Ok(c) => c,
                Err(e) => {
                    return Err(e);
                },
            };
            let descriptor = build_static_model_schema(&config);
            let crud = build_sqlx_crud_impl(&config);
            Ok(
                Derived {
                    model_schema_ident: config.model_schema_ident,
                    descriptor,
                    crud,
                    external_id: config.external_id,
                },
            )
        },
        TypeData::Unsupported => Err(MetaError::NotNamedStruct),
    }
}

/// Column completeness: the descriptor holds exactly one column per declared
/// field, in declaration order, with no duplicates and no omissions.
pub proof fn lemma_column_completeness(fields: Seq<FieldDecl>, m: Descriptor)
    requires
        distinct_names(fields),
        m.columns_view() == field_names(fields),
    ensures
        m.columns_view().len() == fields.len(),
        forall|i: int| 0 <= i < fields.len() ==> m.columns_view()[i] == fields[i].name@,
        forall|i: int, j: int|
            0 <= i < j < m.columns_view().len() ==> m.columns_view()[i] != m.columns_view()[j],
{
}

/// Primary-key membership: the primary-key column of a well-formed
/// descriptor is always one of its columns.
pub proof fn lemma_primary_key_membership(m: Descriptor)
    requires
        m.wf(),
    ensures
        exists|i: int|
            0 <= i < m.columns_view().len() && m.columns_view()[i] == m.id_column@,
{
}

/// Idempotence: two derivations of one unchanged type declaration agree in
/// every emitted character, so regeneration is byte-identical.
pub proof fn lemma_idempotent(input: TypeDecl, a: Derived, b: Derived)
    requires
        derives_ok(input, a),
        derives_ok(input, b),
    ensures
        a.descriptor.table_name@ == b.descriptor.table_name@,
        a.descriptor.id_column@ == b.descriptor.id_column@,
        a.descriptor.columns_view() == b.descriptor.columns_view(),
        a.model_schema_ident@ == b.model_schema_ident@,
        a.crud.id_type@ == b.crud.id_type@,
        a.crud.db_type == b.crud.db_type,
        a.crud.insert_binds.deep_view() == b.crud.insert_binds.deep_view(),
        a.crud.update_binds.deep_view() == b.crud.update_binds.deep_view(),
        a.external_id == b.external_id,
{
}

} // verus!
