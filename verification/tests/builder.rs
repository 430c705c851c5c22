use edsm_dumps_model::schema::criteria::Criteria;
use edsm_dumps_model::schema::print::{
    auto_enum_name, auto_struct_name, decimal, enum_lines, field_line, struct_lines,
    variant_line, Case,
};
use edsm_dumps_model::schema::types::{ObjectScheme, Type, Types};
use edsm_dumps_model::schema::value::{Number, Value};
use edsm_dumps_model::schema::{
    Enum, Schema, SchemaBuilder, SchemaGenerator, SchemaType, SchemaTypes, Struct, Variant,
};

const DERIVE: &str = "#[derive(Debug, Clone, PartialEq, Serialize, Deserialize)]\n";

fn num(n: u64) -> Value {
    Value::Number(Number::PosInt(n))
}

fn text(s: &str) -> Value {
    Value::String(s.to_owned())
}

fn object(fields: Vec<(&str, Value)>) -> Value {
    Value::Object(fields.into_iter().map(|(k, v)| (k.to_owned(), v)).collect())
}

fn schema_of(criteria: Criteria, samples: Vec<Value>) -> Schema {
    let mut generator = SchemaGenerator::new(criteria);
    for v in samples {
        generator.add_value(v);
    }
    generator.build()
}

#[test]
fn numbers_are_written_in_decimal() {
    assert_eq!(decimal(0), "0");
    assert_eq!(decimal(7), "7");
    assert_eq!(decimal(10), "10");
    assert_eq!(decimal(12345), "12345");
    assert_eq!(decimal(u64::MAX), "18446744073709551615");
    assert_eq!(auto_struct_name(12), "AutoGen12Struct");
    assert_eq!(auto_enum_name(0), "AutoGen0Enum");
}

#[test]
fn types_are_written_as_rust_writes_them() {
    assert_eq!(SchemaTypes::Unit.text(), "()");
    assert_eq!(SchemaTypes::Bool.text(), "bool");
    assert_eq!(SchemaTypes::U64.text(), "u64");
    assert_eq!(SchemaTypes::I64.text(), "i64");
    assert_eq!(SchemaTypes::Float.text(), "f64");
    assert_eq!(SchemaTypes::String.text(), "String");
    assert_eq!(SchemaTypes::Struct(3).text(), "AutoGen3Struct");
    assert_eq!(SchemaTypes::Enum(4).text(), "AutoGen4Enum");
    let inner = SchemaType { is_nullable: true, typ: SchemaTypes::U64 };
    let list = SchemaType { is_nullable: false, typ: SchemaTypes::Array(Box::new(inner)) };
    assert_eq!(list.text(), "Vec<Option<u64>>");
    let maybe = SchemaType { is_nullable: true, typ: SchemaTypes::Array(Box::new(list)) };
    assert_eq!(maybe.text(), "Option<Vec<Vec<Option<u64>>>>");
    assert!(!maybe.is_struct() && !maybe.is_enum());
    assert!(SchemaType { is_nullable: false, typ: SchemaTypes::Struct(0) }.is_struct());
    assert!(SchemaType { is_nullable: true, typ: SchemaTypes::Enum(0) }.is_enum());
}

#[test]
fn a_root_of_one_plain_type_is_a_struct_around_it() {
    let schema = schema_of(Criteria::new(), vec![num(1), num(2)]);
    assert!(schema.is_complete());
    assert_eq!(schema.print(), format!("{}pub struct Root(u64)\n", DERIVE));
    let schema = schema_of(Criteria::new(), vec![Value::Null, num(1)]);
    assert_eq!(schema.print(), format!("{}pub struct Root(Option<u64>)\n", DERIVE));
    let schema = schema_of(Criteria::new(), vec![]);
    assert_eq!(schema.print(), format!("{}pub struct Root(())\n", DERIVE));
    let schema = schema_of(Criteria::new(), vec![Value::Null]);
    assert_eq!(schema.print(), format!("{}pub struct Root(Option<()>)\n", DERIVE));
    let schema = schema_of(Criteria::new(), vec![Value::Array(vec![num(1), Value::Null])]);
    assert_eq!(schema.print(), format!("{}pub struct Root(Vec<Option<u64>>)\n", DERIVE));
}

#[test]
fn a_root_of_several_types_is_an_enum() {
    let schema = schema_of(Criteria::new(), vec![num(1), text("a")]);
    assert!(schema.root().is_enum());
    assert_eq!(
        schema.print(),
        format!("{}pub enum Root {{\n    String(String),\n    U64(u64),\n}}\n", DERIVE)
    );
}

#[test]
fn an_object_is_a_struct_with_its_fields_in_order() {
    let schema = schema_of(
        Criteria::new(),
        vec![
            object(vec![("systemId", num(1)), ("name", text("x"))]),
            object(vec![("systemId", num(2))]),
        ],
    );
    assert!(schema.root().is_struct());
    assert_eq!(schema.struct_count(), 1);
    assert_eq!(schema.enum_count(), 0);
    assert_eq!(
        schema.print(),
        format!(
            "{}#[serde(rename_all = \"camelCase\")]\npub struct Root {{\n    name: Option<String>,\n    system_id: u64,\n}}\n",
            DERIVE
        )
    );
}

#[test]
fn a_field_in_another_case_keeps_its_name() {
    let schema = schema_of(
        Criteria::new(),
        vec![object(vec![
            ("systemId", num(1)),
            ("bodyName", text("")),
            ("update_time", num(1)),
        ])],
    );
    assert_eq!(
        schema.print(),
        format!(
            "{}#[serde(rename_all = \"camelCase\")]\npub struct Root {{\n    body_name: String,\n    system_id: u64,\n    #[serde(rename = \"update_time\")]\n    update_time: u64,\n}}\n",
            DERIVE
        )
    );
}

#[test]
fn nested_objects_take_their_numbers_in_the_order_of_the_walk() {
    let schema = schema_of(
        Criteria::new(),
        vec![object(vec![(
            "items",
            Value::Array(vec![object(vec![("a", num(1))]), object(vec![("a", text("x"))])]),
        )])],
    );
    assert_eq!(schema.struct_count(), 2);
    assert_eq!(schema.enum_count(), 1);
    assert_eq!(schema.struct_at(0).0, 0);
    assert_eq!(schema.struct_at(1).0, 1);
    assert_eq!(schema.enum_at(0).0, 2);
    assert!(schema.find_struct(1).is_some());
    assert!(schema.find_struct(2).is_none());
    assert!(schema.find_enum(2).is_some());
    let expected = format!(
        "{d}#[serde(rename_all = \"camelCase\")]\npub struct Root {{\n    items: Vec<AutoGen1Struct>,\n}}\n\n{d}#[serde(rename_all = \"camelCase\")]\npub struct AutoGen1Struct {{\n    a: AutoGen2Enum,\n}}\n\n{d}pub enum AutoGen2Enum {{\n    String(String),\n    U64(u64),\n}}\n",
        d = DERIVE
    );
    assert_eq!(schema.print(), expected);
}

#[test]
fn objects_told_apart_by_a_type_field_are_variants() {
    let mut criteria = Criteria::new();
    criteria.add("", "type");
    let schema = schema_of(
        criteria,
        vec![
            object(vec![("type", text("Star")), ("age", num(1))]),
            object(vec![("type", text("Planet")), ("Mass", num(1))]),
        ],
    );
    let expected = format!(
        "{d}pub enum Root {{\n    AutoGen1Struct(AutoGen1Struct),\n    AutoGen2Struct(AutoGen2Struct),\n}}\n\n{d}#[serde(rename_all = \"PascalCase\")]\npub struct AutoGen1Struct {{\n    mass: u64,\n}}\n\n{d}#[serde(rename_all = \"camelCase\")]\npub struct AutoGen2Struct {{\n    age: u64,\n}}\n",
        d = DERIVE
    );
    assert_eq!(schema.print(), expected);
}

#[test]
fn variants_are_written_in_pascal_case() {
    assert_eq!(
        Variant::primitive("Civil liberty").print(),
        "    #[serde(rename = \"Civil liberty\")]\n    CivilLiberty"
    );
    assert_eq!(Variant::primitive("Boom").print(), "    Boom");
    assert_eq!(Variant::Struct(3).print(), "    AutoGen3Struct");
    assert_eq!(Variant::Enum(4).print(), "    AutoGen4Enum");
    assert_eq!(variant_line(&Variant::primitive("Boom"), &SchemaTypes::Unit), "    Boom,\n");
    assert_eq!(
        variant_line(&Variant::Struct(1), &SchemaTypes::Struct(1)),
        "    AutoGen1Struct(AutoGen1Struct),\n"
    );
    assert_eq!(SchemaTypes::Array(Box::new(SchemaType { is_nullable: false, typ: SchemaTypes::Unit })).varinat(), Variant::primitive("Array"));
    assert_eq!(SchemaTypes::Enum(9).varinat(), Variant::Enum(9));
    assert_eq!(SchemaTypes::Struct(9).varinat(), Variant::Struct(9));
    assert_eq!(SchemaTypes::Float.varinat(), Variant::primitive("Float"));
}

#[test]
fn an_enum_keeps_its_variants_in_order_each_once() {
    let mut e = Enum::new();
    e.add(Variant::Enum(2), SchemaTypes::Enum(2));
    e.add(Variant::Struct(7), SchemaTypes::Struct(7));
    e.add(Variant::primitive("War"), SchemaTypes::Unit);
    e.add(Variant::Struct(1), SchemaTypes::Struct(1));
    e.add(Variant::primitive("Boom"), SchemaTypes::Unit);
    e.add(Variant::primitive("War"), SchemaTypes::Bool);
    assert_eq!(e.len(), 5);
    assert_eq!(e.variant(0), &Variant::primitive("Boom"));
    assert_eq!(e.variant(1), &Variant::primitive("War"));
    assert_eq!(e.held(1), &SchemaTypes::Bool);
    assert_eq!(e.variant(2), &Variant::Struct(1));
    assert_eq!(e.variant(3), &Variant::Struct(7));
    assert_eq!(e.variant(4), &Variant::Enum(2));
    assert_eq!(
        e.print("States"),
        "pub enum States {\n    Boom,\n    War(bool),\n    AutoGen1Struct(AutoGen1Struct),\n    AutoGen7Struct(AutoGen7Struct),\n    AutoGen2Enum(AutoGen2Enum),\n}\n"
    );
    assert_eq!(enum_lines(0, &e), "");
    assert!(enum_lines(3, &e).starts_with("\n#[derive("));
    assert!(Variant::primitive("a").lt(&Variant::Struct(0)));
    assert!(Variant::Struct(9).lt(&Variant::Enum(0)));
    assert!(!Variant::Enum(0).lt(&Variant::primitive("z")));
    assert!(Variant::Struct(1).same(&Variant::Struct(1)));
    assert!(!Variant::Struct(1).same(&Variant::Enum(1)));
}

#[test]
fn a_struct_detects_the_case_of_its_fields() {
    let plain = SchemaType { is_nullable: false, typ: SchemaTypes::Bool };
    let mut st = Struct::new();
    assert_eq!(st.detect_case(), Case::Camel);
    st.insert("SystemName".to_owned(), SchemaType { is_nullable: false, typ: SchemaTypes::String });
    assert_eq!(st.detect_case(), Case::Pascal);
    st.insert("is_player".to_owned(), SchemaType { is_nullable: true, typ: SchemaTypes::Bool });
    assert_eq!(st.detect_case(), Case::Pascal);
    st.insert("body_id".to_owned(), SchemaType { is_nullable: false, typ: SchemaTypes::U64 });
    assert_eq!(st.detect_case(), Case::Snake);
    assert_eq!(st.len(), 3);
    assert_eq!(st.name(0), "SystemName");
    assert_eq!(st.name(1), "body_id");
    assert_eq!(st.field(2), &SchemaType { is_nullable: true, typ: SchemaTypes::Bool });
    assert_eq!(
        st.print("Row"),
        "#[serde(rename_all = \"snake_case\")]\npub struct Row {\n    #[serde(rename = \"SystemName\")]\n    system_name: String,\n    body_id: u64,\n    is_player: Option<bool>,\n}\n"
    );
    assert_eq!(struct_lines(0, &st), "");
    assert!(struct_lines(5, &st).contains("pub struct AutoGen5Struct {"));
    assert_eq!(field_line(Case::Camel, "id64", &plain), "    id64: bool,\n");
    assert_eq!(Case::Camel.apply("system_name"), "systemName");
    assert_eq!(Case::Pascal.apply("system_name"), "SystemName");
    assert_eq!(Case::Snake.apply("SystemName"), "system_name");
    assert_eq!(Case::Snake.name(), "snake_case");
    assert_eq!(Case::Pascal.name(), "PascalCase");
    assert_eq!(Case::Camel.name(), "camelCase");
}

#[test]
fn the_builder_gives_out_numbers_from_zero() {
    let mut builder = SchemaBuilder::new(Criteria::new());
    assert_eq!(builder.next_id(), 0);
    assert_eq!(builder.next_id(), 1);
    builder.add_struct(1, Struct::new());
    builder.add_struct(0, Struct::new());
    builder.add_enum(5, Enum::new());
    let t = SchemaTypes::parse(&mut builder, Type::Array(Types::from_vec(vec![Type::Bool, Type::Null])));
    assert_eq!(
        t,
        SchemaTypes::Array(Box::new(SchemaType { is_nullable: true, typ: SchemaTypes::Bool }))
    );
    let object = Type::Object(
        "".to_owned(),
        ObjectScheme::from_list(vec![("a", Types::from_vec(vec![Type::U64, Type::Bool]))]),
    );
    assert_eq!(SchemaTypes::parse(&mut builder, object), SchemaTypes::Struct(2));
    assert_eq!(builder.next_id(), 4);
    let root = SchemaType::parse(&mut builder, Types::empty());
    assert_eq!(root, SchemaType { is_nullable: false, typ: SchemaTypes::Unit });
    let schema = builder.build(root);
    assert_eq!(schema.struct_count(), 3);
    assert_eq!(schema.enum_count(), 2);
    assert_eq!(schema.struct_at(2).0, 2);
    assert_eq!(schema.enum_at(0).0, 3);
    assert_eq!(schema.enum_at(1).0, 5);
    assert!(schema.is_complete());
    let st = Struct::parse(
        &mut SchemaBuilder::new(Criteria::new()),
        ObjectScheme::from_list(vec![("b", Types::null()), ("a", Types::from_type(Type::Float))]),
    );
    assert_eq!(st.name(0), "a");
    assert_eq!(st.field(0), &SchemaType { is_nullable: false, typ: SchemaTypes::Float });
    assert_eq!(st.field(1), &SchemaType { is_nullable: true, typ: SchemaTypes::Unit });
}

#[test]
fn a_schema_without_its_root_is_not_complete() {
    let builder = SchemaBuilder::new(Criteria::new());
    let schema = builder.build(SchemaType { is_nullable: false, typ: SchemaTypes::Struct(0) });
    assert!(!schema.is_complete());
    let builder = SchemaBuilder::new(Criteria::new());
    let schema = builder.build(SchemaType { is_nullable: false, typ: SchemaTypes::Enum(0) });
    assert!(!schema.is_complete());
}
