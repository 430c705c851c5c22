use edsm_dumps_model::schema::case::{camel_case, first_cap, into_parts, pascal_case, snake_case};

#[test]
fn test_snake_case() {
    let s = "Civil liberty";
    assert_eq!(&snake_case(s), "civil_liberty");
}

#[test]
fn test_pascal_case() {
    let s = "Civil liberty";
    assert_eq!(&pascal_case(s), "CivilLiberty");
}

#[test]
fn test_camel_case() {
    let s = "Civil liberty";
    assert_eq!(&camel_case(s), "civilLiberty");
}

#[test]
fn test_into_parts() {
    let s = "Civil liberty";
    assert_eq!(
        into_parts(s),
        vec!["civil".to_owned(), "liberty".to_owned()]
    );
}

#[test]
fn test_first_cap() {
    let s = "sample";
    assert_eq!(&first_cap(s), "Sample");
}

#[test]
fn words_break_at_capitals_after_small_letters() {
    assert_eq!(into_parts("systemId64"), vec!["system", "id64"]);
    assert_eq!(into_parts("SystemID"), vec!["system", "id"]);
    assert_eq!(into_parts("HTTPServer"), vec!["httpserver"]);
    assert_eq!(into_parts("a1B2"), vec!["a1", "b2"]);
    assert_eq!(into_parts("--x__y  z--"), vec!["x", "y", "z"]);
    assert_eq!(into_parts(""), Vec::<String>::new());
    assert_eq!(into_parts("-- --"), Vec::<String>::new());
    assert_eq!(into_parts("\u{e9}t\u{e9}"), vec!["t"]);
    assert_eq!(into_parts("x\u{0663}y"), vec!["x\u{0663}y"]);
}

#[test]
fn cases_of_a_name() {
    assert_eq!(snake_case("systemId64"), "system_id64");
    assert_eq!(pascal_case("system_id64"), "SystemId64");
    assert_eq!(camel_case("System Id64"), "systemId64");
    assert_eq!(snake_case("name"), "name");
    assert_eq!(camel_case("name"), "name");
    assert_eq!(pascal_case("name"), "Name");
    assert_eq!(snake_case(""), "");
    assert_eq!(pascal_case(""), "");
    assert_eq!(camel_case(""), "");
    assert_eq!(first_cap(""), "");
    assert_eq!(first_cap("1a"), "1a");
    assert_eq!(first_cap("Ab"), "Ab");
}
