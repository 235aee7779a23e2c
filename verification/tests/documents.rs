use passkeys::json::Json;

#[test]
fn a_member_that_is_set_again_keeps_its_place() {
    let mut document = Json::object();
    document.set("a", Json::Int(1));
    document.set("b", Json::Null);
    document.set("a", Json::Bool(true));
    document.set_some("c", None);
    document.set_some("d", Some(Json::UInt(2)));
    match document {
        Json::Object(members) => {
            let names: Vec<&str> = members.iter().map(|(name, _)| name.as_str()).collect();
            assert_eq!(names, vec!["a", "b", "d"]);
            assert!(matches!(members[0].1, Json::Bool(true)));
        }
        other => panic!("{other:?}"),
    }
}

#[test]
fn copies_are_the_same_document() {
    let mut inner = Json::object();
    inner.set("text", Json::text("é\"\\"));
    inner.set("missing", Json::optional_text(&None));
    inner.set("there", Json::optional_text(&Some("x".to_string())));
    let list = Json::list(&vec![inner, Json::Null, Json::texts(&vec!["a".to_string()])]);
    assert_eq!(format!("{:?}", list.clone()), format!("{list:?}"));
}
