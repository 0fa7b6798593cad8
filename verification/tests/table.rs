use accounts::table::{FieldAttribute, SQLTable, SQLValue};

struct SqlBytes(Vec<u8>);

type SQLType = SqlBytes;

struct Ex1 {
    field1: String,
    aaaa: i32,
}

// the mapping a `(table_name = "ex_1", sql_type = "SQLType")` declaration
// expands to, written out by hand
impl SQLTable for Ex1 {
    type Type = SQLType;

    fn table_name(&self) -> &'static str {
        "ex_1"
    }

    fn schema_of(&self) -> Vec<(String, String, FieldAttribute)> {
        let mut result = Vec::new();
        result.push((
            "field1".to_string(),
            SQLValue::column_type(std::marker::PhantomData::<String>).to_string(),
            FieldAttribute { size: Some(50), unique: false, not_null: false },
        ));
        result.push((
            "aaaa".to_string(),
            SQLValue::column_type(std::marker::PhantomData::<i32>).to_string(),
            FieldAttribute { size: None, unique: false, not_null: false },
        ));
        result
    }

    fn map_to_sql<V: SQLValue<Self::Type>>(self) -> Vec<(String, V)> {
        let mut result = Vec::new();
        result.push(("field1".to_string(), V::deserialize(SQLValue::serialize(self.field1))));
        result.push(("aaaa".to_string(), V::deserialize(SQLValue::serialize(self.aaaa))));
        result
    }

    fn map_from_sql<V: SQLValue<Self::Type>>(mut v: Vec<V>) -> Self {
        let aaaa = SQLValue::deserialize(v.pop().expect("two columns").serialize());
        let field1 = SQLValue::deserialize(v.pop().expect("two columns").serialize());
        Ex1 { field1, aaaa }
    }
}

impl SQLValue<SQLType> for String {
    fn column_type(_: std::marker::PhantomData<Self>) -> &'static str {
        "varchar"
    }

    fn serialize(self) -> SQLType {
        SqlBytes(self.into_bytes())
    }

    fn deserialize(t: SQLType) -> Self {
        String::from_utf8(t.0).expect("stored text is valid")
    }
}

impl SQLValue<SQLType> for i32 {
    fn column_type(_: std::marker::PhantomData<Self>) -> &'static str {
        "int"
    }

    fn serialize(self) -> SQLType {
        SqlBytes(format!("{}", self).into_bytes())
    }

    fn deserialize(t: SQLType) -> Self {
        String::from_utf8(t.0).expect("stored int is text").parse().expect("stored int parses")
    }
}

impl SQLValue<SQLType> for SqlBytes {
    fn column_type(_: std::marker::PhantomData<Self>) -> &'static str {
        "blob"
    }

    fn serialize(self) -> SQLType {
        self
    }

    fn deserialize(t: SQLType) -> Self {
        t
    }
}

#[test]
fn it_derives_sql_table() {
    let ex1 = Ex1 {
        field1: "aaa".to_string(),
        aaaa: 10,
    };

    assert_eq!(ex1.table_name(), "ex_1");
}

#[test]
fn mapped_columns_round_trip() {
    let ex1 = Ex1 {
        field1: "aaa".to_string(),
        aaaa: 10,
    };
    assert_eq!(ex1.schema_of().len(), 2);
    let cols: Vec<(String, SqlBytes)> = ex1.map_to_sql();
    assert_eq!(cols[0].0, "field1");
    assert_eq!(cols[1].0, "aaaa");
    let back = Ex1::map_from_sql(cols.into_iter().map(|(_, v)| v).collect());
    assert_eq!(back.field1, "aaa");
    assert_eq!(back.aaaa, 10);
}
