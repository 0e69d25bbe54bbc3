use sqlx_meta::config::DbType;
use sqlx_meta::generate::{sqlx_meta, Derived};
use sqlx_meta::input::{FieldDecl, MetaError, TypeAttrs, TypeData, TypeDecl};

fn field(name: &str, ty: &str, is_id: bool) -> FieldDecl {
    FieldDecl { name: name.to_string(), ty: ty.to_string(), is_id }
}

fn decl(ident: &str, database: Option<&str>, fields: Vec<FieldDecl>) -> TypeDecl {
    TypeDecl {
        ident: ident.to_string(),
        attrs: TypeAttrs { database: database.map(|s| s.to_string()), external_id: false },
        data: TypeData::NamedStruct { fields },
    }
}

fn user_decl() -> TypeDecl {
    decl(
        "User",
        None,
        vec![field("id", "u32", false), field("name", "String", false), field("email", "String", false)],
    )
}

fn derive(input: TypeDecl) -> Derived {
    sqlx_meta(input).expect("derivation must succeed")
}

#[test]
fn columns_complete_in_declaration_order() {
    let d = derive(user_decl());
    assert_eq!(d.descriptor.columns, vec!["id", "name", "email"]);
}

#[test]
fn primary_key_is_a_column() {
    let d = derive(user_decl());
    assert!(d.descriptor.columns.contains(&d.descriptor.id_column));
}

#[test]
fn default_key_is_first_field() {
    let d = derive(user_decl());
    assert_eq!(d.descriptor.id_column, "id");
    assert_eq!(d.crud.id_type, "u32");
}

#[test]
fn marked_key_is_selected() {
    let d = derive(decl(
        "User",
        None,
        vec![field("id", "u32", false), field("email", "String", true), field("name", "String", false)],
    ));
    assert_eq!(d.descriptor.id_column, "email");
    assert_eq!(d.crud.id_type, "String");
}

#[test]
fn first_marked_key_wins() {
    let d = derive(decl(
        "User",
        None,
        vec![field("a", "u32", false), field("b", "u32", true), field("c", "u32", true)],
    ));
    assert_eq!(d.descriptor.id_column, "b");
}

#[test]
fn table_name_from_type_ident() {
    let d = derive(decl("UserAccount", None, vec![field("id", "u32", false)]));
    assert_eq!(d.descriptor.table_name, "user_account");
}

#[test]
fn model_schema_ident_is_screaming_snake() {
    let d = derive(decl("UserAccount", None, vec![field("id", "u32", false)]));
    assert_eq!(d.model_schema_ident, "USER_ACCOUNT_SCHEMA");
}

#[test]
fn insert_binds_one_value_per_column_in_order() {
    let d = derive(user_decl());
    assert_eq!(d.crud.insert_binds, vec!["id", "name", "email"]);
}

#[test]
fn update_binds_exclude_key_and_trail_it() {
    let d = derive(user_decl());
    assert_eq!(d.crud.update_binds, vec!["name", "email", "id"]);
}

#[test]
fn update_binds_trail_key_from_middle_position() {
    let d = derive(decl(
        "User",
        None,
        vec![field("a", "u32", false), field("key", "u32", true), field("b", "u32", false)],
    ));
    assert_eq!(d.crud.insert_binds, vec!["a", "key", "b"]);
    assert_eq!(d.crud.update_binds, vec!["a", "b", "key"]);
}

#[test]
fn backend_defaults_to_sqlite() {
    let d = derive(user_decl());
    assert_eq!(d.crud.db_type, DbType::Sqlite);
}

#[test]
fn backend_annotation_selects_database() {
    let d = derive(decl("User", Some("Postgres"), vec![field("id", "u32", false)]));
    assert_eq!(d.crud.db_type, DbType::Postgres);
}

#[test]
fn every_recognized_database_parses() {
    assert!(matches!(DbType::from_name("Any"), Ok(DbType::Any)));
    assert!(matches!(DbType::from_name("Mssql"), Ok(DbType::Mssql)));
    assert!(matches!(DbType::from_name("MySql"), Ok(DbType::MySql)));
    assert!(matches!(DbType::from_name("Postgres"), Ok(DbType::Postgres)));
    assert!(matches!(DbType::from_name("Sqlite"), Ok(DbType::Sqlite)));
}

#[test]
fn unrecognized_database_aborts() {
    let r = sqlx_meta(decl("User", Some("Oracle"), vec![field("id", "u32", false)]));
    match r {
        Err(MetaError::UnknownDatabase(name)) => {
            assert_eq!(name, "Oracle");
            assert_eq!(
                MetaError::UnknownDatabase(name).message(),
                "unknown database type Oracle"
            );
        }
        _ => panic!("an unrecognized database type must abort derivation"),
    }
}

#[test]
fn lowercase_database_name_is_not_recognized() {
    let r = sqlx_meta(decl("User", Some("sqlite"), vec![field("id", "u32", false)]));
    assert!(matches!(r, Err(MetaError::UnknownDatabase(_))));
}

#[test]
fn sqlx_db_paths() {
    assert_eq!(DbType::Any.sqlx_db(), "::sqlx::Any");
    assert_eq!(DbType::Mssql.sqlx_db(), "::sqlx::Mssql");
    assert_eq!(DbType::MySql.sqlx_db(), "::sqlx::MySql");
    assert_eq!(DbType::Postgres.sqlx_db(), "::sqlx::Postgres");
    assert_eq!(DbType::Sqlite.sqlx_db(), "::sqlx::Sqlite");
}

#[test]
fn non_struct_shape_aborts() {
    let input = TypeDecl {
        ident: "Choice".to_string(),
        attrs: TypeAttrs { database: None, external_id: false },
        data: TypeData::Unsupported,
    };
    let r = sqlx_meta(input);
    assert!(matches!(r, Err(MetaError::NotNamedStruct)));
}

#[test]
fn no_fields_aborts() {
    let r = sqlx_meta(decl("Empty", None, vec![]));
    assert!(matches!(r, Err(MetaError::NoFields)));
}

#[test]
fn external_id_marker_is_recorded() {
    let mut input = user_decl();
    input.attrs.external_id = true;
    let d = derive(input);
    assert!(d.external_id);
}

#[test]
fn regeneration_is_byte_identical() {
    let a = derive(user_decl());
    let b = derive(user_decl());
    assert_eq!(a.descriptor.table_name, b.descriptor.table_name);
    assert_eq!(a.descriptor.id_column, b.descriptor.id_column);
    assert_eq!(a.descriptor.columns, b.descriptor.columns);
    assert_eq!(a.model_schema_ident, b.model_schema_ident);
    assert_eq!(a.crud.id_type, b.crud.id_type);
    assert_eq!(a.crud.db_type, b.crud.db_type);
    assert_eq!(a.crud.insert_binds, b.crud.insert_binds);
    assert_eq!(a.crud.update_binds, b.crud.update_binds);
    assert_eq!(a.external_id, b.external_id);
}

#[test]
fn error_messages_are_descriptive() {
    assert_eq!(
        MetaError::NotNamedStruct.message(),
        "this derive only works on structs with named fields"
    );
    assert_eq!(
        MetaError::NoFields.message(),
        "the struct must declare at least one named field"
    );
}

#[test]
fn single_field_struct_binds() {
    let d = derive(decl("Counter", None, vec![field("id", "u64", false)]));
    assert_eq!(d.crud.insert_binds, vec!["id"]);
    assert_eq!(d.crud.update_binds, vec!["id"]);
    assert_eq!(d.descriptor.table_name, "counter");
}
