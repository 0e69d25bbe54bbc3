//! The schema resolver: it reads a type's identifier, field declarations and
//! annotations and fixes every schema fact the generator needs.

use vstd::prelude::*;

use crate::input::{distinct_names, FieldDecl, MetaError, TypeAttrs};
use crate::naming::{
    screaming_snake_case, spec_screaming_snake_case, spec_table_case, str_eq, table_case,
};

verus! {

/// The closed set of recognized database types.
#[derive(Clone, Copy, Debug, PartialEq, Eq, Structural)]
pub enum DbType {
    Any,
    Mssql,
    MySql,
    Postgres,
    Sqlite,
}

/// The database type a recognized annotation value names, or `None` for an
/// unrecognized value.
pub open spec fn spec_db_type(name: Seq<char>) -> Option<DbType> {
    if name == "Any"@ {
        Some(DbType::Any)
    } else if name == "Mssql"@ {
        Some(DbType::Mssql)
    } else if name == "MySql"@ {
        Some(DbType::MySql)
    } else if name == "Postgres"@ {
        Some(DbType::Postgres)
    } else if name == "Sqlite"@ {
        Some(DbType::Sqlite)
    } else {
        None
    }
}

/// The database type the annotations select: the named one when the selector
/// is present, the default otherwise, and an error exactly when the selector
/// names an unrecognized database type.
pub open spec fn spec_db_selection(database: Option<String>) -> Result<DbType, MetaError> {
    match database {
        Some(name) => match spec_db_type(name@) {
            Some(d) => Ok(d),
            None => Err(MetaError::UnknownDatabase(name)),
        },
        None => Ok(DbType::Sqlite),
    }
}

impl DbType {
    /// Parses a database annotation value. An unrecognized name is a hard
    /// failure, never a silent fallback.
    pub fn from_name(name: &str) -> (r: Result<DbType, MetaError>)
        ensures
            match r {
                Ok(d) => spec_db_type(name@) == Some(d),
                Err(e) => {
                    &&& spec_db_type(name@) is None
                    &&& e matches MetaError::UnknownDatabase(n) && n@ == name@
                },
            },
    {
        if str_eq(name, "Any") {
            Ok(DbType::Any)
        } else if str_eq(name, "Mssql") {
            Ok(DbType::Mssql)
        } else if str_eq(name, "MySql") {
            Ok(DbType::MySql)
        } else if str_eq(name, "Postgres") {
            Ok(DbType::Postgres)
        } else if str_eq(name, "Sqlite") {
            Ok(DbType::Sqlite)
        } else {
            Err(MetaError::UnknownDatabase(String::from_str(name)))
        }
    }

    /// Reads the backend selection from the annotations: a missing selector
    /// falls back to the default database type, Sqlite; a present one must
    /// name a recognized database type.
    pub fn new(database: &Option<String>) -> (r: Result<DbType, MetaError>)
        ensures
            r == spec_db_selection(*database),
    {
        match database {
            Some(name) => {
                let parsed = DbType::from_name(name.as_str());
                match parsed {
                    Ok(d) => Ok(d),
                    Err(_) => Err(MetaError::UnknownDatabase(name.clone())),
                }
            },
            None => Ok(DbType::Sqlite),
        }
    }

    /// The path text of the statement-builder database type each recognized
    /// database selects in generated code.
    pub fn sqlx_db(&self) -> (r: String)
        ensures
            r@ == spec_sqlx_db(*self),
    {
        match self {
            DbType::Any => String::from_str("::sqlx::Any"),
            DbType::Mssql => String::from_str("::sqlx::Mssql"),
            DbType::MySql => String::from_str("::sqlx::MySql"),
            DbType::Postgres => String::from_str("::sqlx::Postgres"),
            DbType::Sqlite => String::from_str("::sqlx::Sqlite"),
        }
    }
}

/// The path text of the database type in generated code.
pub open spec fn spec_sqlx_db(d: DbType) -> Seq<char> {
    match d {
        DbType::Any => "::sqlx::Any"@,
        DbType::Mssql => "::sqlx::Mssql"@,
        DbType::MySql => "::sqlx::MySql"@,
        DbType::Postgres => "::sqlx::Postgres"@,
        DbType::Sqlite => "::sqlx::Sqlite"@,
    }
}

/// The index of the first field carrying the primary-key marker, or the
/// field count when no field carries it.
pub open spec fn first_id_index(fields: Seq<FieldDecl>) -> int
    decreases fields.len(),
{
    if fields.len() == 0 {
        0
    } else if fields[0].is_id {
        0
    } else {
        1 + first_id_index(fields.drop_first())
    }
}

/// The index of the field selected as the primary key: the first marked
/// field, or, when none is marked, the first declared field.
pub open spec fn spec_id_index(fields: Seq<FieldDecl>) -> int {
    if first_id_index(fields) < fields.len() {
        first_id_index(fields)
    } else {
        0
    }
}

/// The selected primary-key column name.
pub open spec fn spec_id_column(fields: Seq<FieldDecl>) -> Seq<char> {
    fields[spec_id_index(fields)].name@
}

/// `first_id_index` is the least index of a marked field, and it is the
/// field count exactly when no field is marked.
pub proof fn lemma_first_id_index(fields: Seq<FieldDecl>)
    ensures
        0 <= first_id_index(fields) <= fields.len(),
        first_id_index(fields) < fields.len() ==> fields[first_id_index(fields)].is_id,
        forall|j: int| 0 <= j < first_id_index(fields) ==> !fields[j].is_id,
    decreases fields.len(),
{
    if fields.len() > 0 && !fields[0].is_id {
        lemma_first_id_index(fields.drop_first());
        assert forall|j: int| 0 <= j < first_id_index(fields) implies !fields[j].is_id by {
            if j > 0 {
                assert(fields.drop_first()[j - 1] == fields[j]);
            }
        }
    }
}

/// Backend default: a missing database annotation selects the default
/// database type, never an error; only a present annotation can abort.
pub proof fn lemma_backend_default()
    ensures
        spec_db_selection(None) == Ok::<DbType, MetaError>(DbType::Sqlite),
{
}

/// Default key selection: for a type with no primary-key marker, the first
/// declared field is selected as the primary key.
pub proof fn lemma_default_key_selection(fields: Seq<FieldDecl>)
    requires
        fields.len() > 0,
        forall|i: int| 0 <= i < fields.len() ==> !fields[i].is_id,
    ensures
        spec_id_column(fields) == fields[0].name@,
{
    lemma_first_id_index(fields);
    if first_id_index(fields) < fields.len() {
        assert(fields[first_id_index(fields)].is_id);
    }
}

/// Every schema fact of one annotated type, fixed by the resolver.
pub struct Config {
    pub ident: String,
    pub fields: Vec<FieldDecl>,
    pub db_ty: DbType,
    pub model_schema_ident: String,
    pub table_name: String,
    pub id_column: String,
    pub external_id: bool,
}

impl Config {
    /// The resolver's invariant: at least one field, pairwise distinct field
    /// identifiers, and every derived name agreeing with its defining
    /// transform or selection policy.
    pub open spec fn wf(&self) -> bool {
        &&& self.fields@.len() > 0
        &&& distinct_names(self.fields@)
        &&& self.id_column@ == spec_id_column(self.fields@)
        &&& self.table_name@ == spec_table_case(self.ident@)
        &&& self.model_schema_ident@ == spec_screaming_snake_case(self.ident@) + "_SCHEMA"@
    }

    /// Resolves one type's schema facts from its identifier, its field
    /// declarations and its annotations. Fails exactly when the annotations
    /// name an unrecognized database type or the type declares no fields.
    pub fn new(ident: &str, fields: Vec<FieldDecl>, attrs: &TypeAttrs) -> (r: Result<
        Config,
        MetaError,
    >)
        requires
            distinct_names(fields@),
        ensures
            match r {
                Ok(c) => {
                    &&& spec_db_selection(attrs.database) == Ok::<DbType, MetaError>(c.db_ty)
                    &&& fields@.len() > 0
                    &&& c.wf()
                    &&& c.ident@ == ident@
                    &&& c.fields@ == fields@
                    &&& c.external_id == attrs.external_id
                },
                Err(e) => match e {
                    MetaError::UnknownDatabase(n) => spec_db_selection(attrs.database) == Err::<
                        DbType,
                        MetaError,
                    >(MetaError::UnknownDatabase(n)),
                    MetaError::NoFields => {
                        &&& spec_db_selection(attrs.database) is Ok
                        &&& fields@.len() == 0
                    },
                    MetaError::NotNamedStruct => false,
                },
            },
    {
        let db_ty = match DbType::new(&attrs.database) {
            Ok(d) => d,
            Err(e) => {
                return Err(e);
            },
        };
        if fields.len() == 0 {
            return Err(MetaError::NoFields);
        }
        let id_index = find_id_index(&fields);
        let id_column = fields[id_index].name.clone();
        let snake = screaming_snake_case(ident);
        let model_schema_ident = snake.concat("_SCHEMA");
        let table_name = table_case(ident);
        Ok(
            Config {
                ident: String::from_str(ident),
                fields,
                db_ty,
                model_schema_ident,
                table_name,
                id_column,
                external_id: attrs.external_id,
            },
        )
    }
}

/// Scans the field declarations in order for the primary-key marker and
/// returns the selected key field's index: the first marked field, or the
/// first field when none is marked.
fn find_id_index(fields: &Vec<FieldDecl>) -> (r: usize)
    requires
        fields@.len() > 0,
    ensures
        r as int == spec_id_index(fields@),
{
    let n = fields.len();
    let mut i: usize = 0;
    while i < n
        invariant
            n == fields@.len(),
            i <= n,
            forall|j: int| 0 <= j < i ==> !fields@[j].is_id,
        decreases n - i,
    {
        if fields[i].is_id {
            proof {
                lemma_first_id_index(fields@);
                assert(first_id_index(fields@) <= i as int);
            }
            return i;
        }
        i = i + 1;
    }
    proof {
        lemma_first_id_index(fields@);
        assert(first_id_index(fields@) == fields@.len());
    }
    0
}

} // verus!
