use edsm_dumps_model::schema::criteria::Criteria;
use edsm_dumps_model::schema::types::{str_lt, ObjectScheme, Type, Types};
use edsm_dumps_model::schema::value::{Number, Value};

fn whole(n: i64) -> Value {
    if n >= 0 {
        Value::Number(Number::PosInt(n as u64))
    } else {
        Value::Number(Number::NegInt(n))
    }
}

fn float() -> Value {
    Value::Number(Number::Float)
}

fn text(s: &str) -> Value {
    Value::String(s.to_owned())
}

fn object(fields: Vec<(&str, Value)>) -> Value {
    Value::Object(fields.into_iter().map(|(k, v)| (k.to_owned(), v)).collect())
}

#[test]
fn type_from_unsigned_int() {
    let c = Criteria::new();
    let j: Value = whole(1);
    let t = Type::from_value(&c, j);
    assert_eq!(t, Type::U64);
}

#[test]
fn type_from_signed_int() {
    let c = Criteria::new();
    let j: Value = whole(-1);
    let t = Type::from_value(&c, j);
    assert_eq!(t, Type::I64);
}

#[test]
fn type_from_float_without_fractional_part() {
    let c = Criteria::new();
    let j: Value = float();
    let t = Type::from_value(&c, j);
    assert_eq!(t, Type::Float);
}

#[test]
fn type_from_float_with_fractional_part() {
    let c = Criteria::new();
    let j: Value = float();
    let t = Type::from_value(&c, j);
    assert_eq!(t, Type::Float);
}

#[test]
fn types_add_same_primitive() {
    let c = Criteria::new();
    let mut ts = Types::from_value_path(&c, "", Value::Bool(true));
    let t = Type::from_value(&c, Value::Bool(false));

    ts.add(t);

    assert_eq!(ts.into_vec(), vec![Type::Bool]);
}

#[test]
fn types_add_different_primitive() {
    let c = Criteria::new();
    let mut ts = Types::from_value_path(&c, "", Value::Bool(true));
    let t = Type::from_value(&c, whole(1));

    ts.add(t);

    assert_eq!(ts.into_vec(), vec![Type::Bool, Type::U64]);
}

#[test]
fn types_from_unsigned_and_signed_is_signed() {
    let c = Criteria::new();
    let mut ts = Types::from_value_path(&c, "", whole(1));
    let t = Type::from_value(&c, whole(-1));

    ts.add(t);

    assert_eq!(ts.into_vec(), vec![Type::I64]);
}

#[test]
fn types_from_unsigned_and_float_is_float() {
    let c = Criteria::new();
    let mut ts = Types::from_value_path(&c, "", whole(1));
    let t = Type::from_value(&c, float());

    ts.add(t);

    assert_eq!(ts.into_vec(), vec![Type::Float]);
}

#[test]
fn types_from_signed_and_float_is_float() {
    let c = Criteria::new();
    let mut ts = Types::from_value_path(&c, "", whole(-1));
    let t = Type::from_value(&c, float());

    ts.add(t);

    assert_eq!(ts.into_vec(), vec![Type::Float]);
}

#[test]
fn types_from_same_type_array() {
    let c = Criteria::new();
    let mut ts = Types::from_value_path(&c, "", Value::Array(vec![whole(0), Value::Bool(true)]));
    let t = Type::from_value(&c, Value::Array(vec![Value::Bool(false), whole(123)]));

    ts.add(t);

    assert_eq!(
        ts.into_vec(),
        vec![Type::Array(Types::from_vec(vec![Type::Bool, Type::U64]))]
    );
}

#[test]
fn types_from_different_type_array() {
    let c = Criteria::new();
    let mut ts = Types::from_value_path(&c, "", Value::Array(vec![whole(0), Value::Bool(true)]));
    let t = Type::from_value(&c, Value::Array(vec![Value::Null, float()]));

    ts.add(t);

    assert_eq!(
        ts.into_vec(),
        vec![Type::Array(Types::from_vec(vec![
            Type::Null,
            Type::Bool,
            Type::Float
        ]))]
    );
}

#[test]
fn types_from_objects() {
    let c = Criteria::new();
    let mut ts = Types::from_value_path(
        &c,
        "",
        object(vec![("a", whole(0)), ("b", Value::Bool(true))]),
    );
    let t = Type::from_value(&c, object(vec![("a", whole(1)), ("c", text("test"))]));

    ts.add(t);

    assert_eq!(
        ts.into_vec(),
        vec![Type::Object(
            "".to_owned(),
            ObjectScheme::from_list(vec![
                ("a", Types::from_vec(vec![Type::U64])),
                ("b", Types::from_vec(vec![Type::Null, Type::Bool])),
                ("c", Types::from_vec(vec![Type::Null, Type::String])),
            ])
        )]
    );
}

#[test]
fn types_from_objects_has_different_type() {
    let mut c = Criteria::new();
    c.add("", "type");

    let mut ts = Types::from_value_path(
        &c,
        "",
        object(vec![("type", text("B")), ("a", whole(0)), ("b", Value::Bool(true))]),
    );
    let t = Type::from_value(
        &c,
        object(vec![("type", text("C")), ("a", whole(1)), ("c", text("test"))]),
    );

    ts.add(t);

    assert_eq!(
        ts.into_vec(),
        vec![
            Type::Object(
                "B".to_owned(),
                ObjectScheme::from_list(vec![
                    ("a", Types::from_vec(vec![Type::U64])),
                    ("b", Types::from_vec(vec![Type::Bool])),
                ])
            ),
            Type::Object(
                "C".to_owned(),
                ObjectScheme::from_list(vec![
                    ("a", Types::from_vec(vec![Type::U64])),
                    ("c", Types::from_vec(vec![Type::String])),
                ])
            )
        ]
    );
}

#[test]
fn types_keep_the_order_of_their_keys() {
    let ts = Types::from_vec(vec![
        Type::Object("b".to_owned(), ObjectScheme::new()),
        Type::String,
        Type::Array(Types::empty()),
        Type::Object("a".to_owned(), ObjectScheme::new()),
        Type::Float,
        Type::Null,
        Type::Bool,
        Type::I64,
        Type::U64,
    ]);
    assert!(ts.is_nullable());
    assert_eq!(ts.variants_count(), 8);
    assert_eq!(
        ts.into_vec(),
        vec![
            Type::Null,
            Type::Bool,
            Type::U64,
            Type::I64,
            Type::Float,
            Type::String,
            Type::Array(Types::empty()),
            Type::Object("a".to_owned(), ObjectScheme::new()),
            Type::Object("b".to_owned(), ObjectScheme::new()),
        ]
    );
}

#[test]
fn empty_and_null_types() {
    assert_eq!(Types::empty().into_vec(), Vec::<Type>::new());
    assert_eq!(Types::null().into_vec(), vec![Type::Null]);
    assert!(!Types::empty().is_nullable());
    assert!(Types::null().is_nullable());
    assert_eq!(Types::empty().variants_count(), 0);
    assert_eq!(Types::null().variants_count(), 0);
    assert_eq!(Types::from_type(Type::Bool).variants_count(), 1);
    assert_eq!(Types::from_type(Type::Bool).with_null().into_vec(), vec![Type::Null, Type::Bool]);
    assert_eq!(Types::null().with_null().into_vec(), vec![Type::Null]);
    assert_eq!(
        Types::from_vec(vec![Type::U64, Type::I64]).with_null().into_vec(),
        vec![Type::Null, Type::I64]
    );
}

#[test]
fn merge_takes_in_every_type_of_the_other() {
    let mut a = Types::from_vec(vec![Type::Bool, Type::U64]);
    a.merge(Types::from_vec(vec![Type::String, Type::I64]));
    assert_eq!(a.into_vec(), vec![Type::Bool, Type::I64, Type::String]);
    let mut b = Types::from_vec(vec![Type::I64, Type::U64]);
    b.merge(Types::from_vec(vec![Type::Float]));
    assert_eq!(b.into_vec(), vec![Type::Float]);
    let mut c = Types::empty();
    c.merge(Types::empty());
    assert_eq!(c.into_vec(), Vec::<Type>::new());
}

#[test]
fn normalize_drops_the_whole_numbers_that_are_covered() {
    let mut ts = Types::from_vec(vec![Type::U64, Type::I64, Type::Float, Type::Bool]);
    assert_eq!(ts.variants_count(), 4);
    ts.normalize();
    assert_eq!(ts.into_vec(), vec![Type::Bool, Type::Float]);
    let mut only = Types::from_vec(vec![Type::U64]);
    only.normalize();
    assert_eq!(only.into_vec(), vec![Type::U64]);
}

#[test]
fn object_fields_are_found_by_name() {
    let o = ObjectScheme::from_list(vec![
        ("b", Types::null()),
        ("a", Types::empty()),
        ("b", Types::from_type(Type::Bool)),
    ]);
    assert!(o.contains_key("a"));
    assert!(o.contains_key("b"));
    assert!(!o.contains_key("c"));
    assert!(!o.contains_key(""));
    assert_eq!(
        o.into_vec(),
        vec![
            ("a".to_owned(), Types::empty()),
            ("b".to_owned(), Types::from_type(Type::Bool)),
        ]
    );
}

#[test]
fn objects_of_one_kind_merge_their_fields() {
    let mut a = ObjectScheme::from_list(vec![
        ("x", Types::from_type(Type::U64)),
        ("y", Types::from_type(Type::Bool)),
    ]);
    a.merge(ObjectScheme::from_list(vec![
        ("x", Types::from_type(Type::Float)),
        ("z", Types::from_type(Type::String)),
    ]));
    assert_eq!(
        a.into_vec(),
        vec![
            ("x".to_owned(), Types::from_type(Type::Float)),
            ("y".to_owned(), Types::from_vec(vec![Type::Null, Type::Bool])),
            ("z".to_owned(), Types::from_vec(vec![Type::Null, Type::String])),
        ]
    );
}

#[test]
fn nested_values_give_nested_types() {
    let mut c = Criteria::new();
    c.add(".rings[]", "type");
    let v = object(vec![
        ("name", text("Sol")),
        (
            "rings",
            Value::Array(vec![
                object(vec![("type", text("Icy")), ("mass", whole(5))]),
                object(vec![("type", text("Rocky")), ("mass", float())]),
                object(vec![("type", whole(3)), ("mass", whole(1))]),
            ]),
        ),
    ]);
    let t = Type::from_value(&c, v);
    let (kind, fields) = t.unwrap_obj();
    assert_eq!(kind, "");
    let mut fields = fields.into_vec();
    assert_eq!(fields.len(), 2);
    let (name, rings) = fields.remove(1);
    assert_eq!(name, "rings");
    let mut rings = rings.into_vec();
    assert_eq!(rings.len(), 1);
    let kinds = rings.remove(0).unwrap_arr().into_vec();
    assert_eq!(
        kinds,
        vec![
            Type::Object(
                "".to_owned(),
                ObjectScheme::from_list(vec![("mass", Types::from_type(Type::U64))])
            ),
            Type::Object(
                "Icy".to_owned(),
                ObjectScheme::from_list(vec![("mass", Types::from_type(Type::U64))])
            ),
            Type::Object(
                "Rocky".to_owned(),
                ObjectScheme::from_list(vec![("mass", Types::from_type(Type::Float))])
            ),
        ]
    );
}

#[test]
fn texts_are_ordered_as_in_the_dictionary() {
    assert!(str_lt("", "a"));
    assert!(!str_lt("", ""));
    assert!(!str_lt("a", ""));
    assert!(str_lt("a", "b"));
    assert!(str_lt("a", "ab"));
    assert!(!str_lt("ab", "a"));
    assert!(str_lt("Z", "a"));
    assert!(str_lt("abc", "abd"));
    assert!(!str_lt("abc", "abc"));
    for (a, b) in [("x", "\u{e9}"), ("\u{e9}", "\u{4e2d}"), ("a\u{e9}", "a\u{ea}"), ("b", "a\u{4e2d}")] {
        assert_eq!(str_lt(a, b), a < b, "{:?} {:?}", a, b);
        assert_eq!(str_lt(b, a), b < a, "{:?} {:?}", b, a);
    }
}
