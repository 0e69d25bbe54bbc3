use sqlx_meta::traits::{Binds, Schema};

struct User {
    id: u32,
    name: String,
}

impl Schema for User {
    type Id = u32;

    fn table_name() -> &'static str {
        "user"
    }

    fn id(&self) -> u32 {
        self.id
    }

    fn id_column() -> &'static str {
        "id"
    }

    fn columns() -> &'static [&'static str] {
        &["id", "name"]
    }
}

struct MockQuery {
    bound: Vec<String>,
}

impl Binds<MockQuery> for User {
    fn insert_binds(&self, mut query: MockQuery) -> MockQuery {
        query.bound.push(self.id.to_string());
        query.bound.push(self.name.clone());
        query
    }

    fn update_binds(&self, mut query: MockQuery) -> MockQuery {
        query.bound.push(self.name.clone());
        query.bound.push(self.id.to_string());
        query
    }
}

#[test]
fn schema_accessors() {
    let u = User { id: 7, name: "Ada".to_string() };
    assert_eq!(User::table_name(), "user");
    assert_eq!(User::id_column(), "id");
    assert_eq!(User::columns(), &["id", "name"]);
    assert_eq!(u.id(), 7);
}

#[test]
fn binds_append_in_bind_order() {
    let u = User { id: 7, name: "Ada".to_string() };
    let q = u.insert_binds(MockQuery { bound: Vec::new() });
    assert_eq!(q.bound, vec!["7", "Ada"]);
    let q = u.update_binds(MockQuery { bound: Vec::new() });
    assert_eq!(q.bound, vec!["Ada", "7"]);
}

#[test]
fn static_metadata_shape() {
    let m = sqlx_meta::schema::Metadata { table_name: "user", id_column: "id", columns: ["id", "name"] };
    assert_eq!(m.table_name, "user");
    assert_eq!(m.id_column, "id");
    assert_eq!(m.columns, ["id", "name"]);
}
