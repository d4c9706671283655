use tenant_forge::project::{
    decode_tags, encode_tags, stored_tags, tags_or_empty, ExecutionResult, ProjectDataResult,
};

#[test]
fn tags_are_stored_as_a_json_list() {
    let tags = Some(vec![String::from("prod"), String::from("eu \"west\"")]);
    assert_eq!(encode_tags(&tags), Ok(String::from("[\"prod\",\"eu \\\"west\\\"\"]")));
    assert_eq!(encode_tags(&Some(Vec::new())), Ok(String::from("[]")));
}

#[test]
fn absent_tags_are_stored_as_the_empty_list() {
    assert_eq!(encode_tags(&None), Ok(String::from("[]")));
}

#[test]
fn stored_tags_are_read_back() {
    assert_eq!(
        decode_tags("[\"prod\", \"eu \\\"west\\\"\"]"),
        vec![String::from("prod"), String::from("eu \"west\"")]
    );
    assert_eq!(decode_tags("[]"), Vec::<String>::new());
}

#[test]
fn unreadable_tags_read_as_none() {
    assert_eq!(decode_tags(""), Vec::<String>::new());
    assert_eq!(decode_tags("prod"), Vec::<String>::new());
    assert_eq!(decode_tags("[1, 2]"), Vec::<String>::new());
    assert_eq!(decode_tags("[\"a\"] trailing"), Vec::<String>::new());
    assert_eq!(decode_tags("{\"a\": \"b\"}"), Vec::<String>::new());
}

#[test]
fn tags_survive_a_round_trip() {
    let tags = vec![String::from("a,b"), String::from("ñ"), String::from("line\nbreak")];
    let text = encode_tags(&Some(tags.clone())).expect("encodes");
    assert_eq!(decode_tags(&text), tags);
}

#[test]
fn stored_tags_hands_on_what_it_gets() {
    assert_eq!(stored_tags::<String>(None), Ok(String::from("[]")));
    assert_eq!(stored_tags::<String>(Some(Ok(String::from("[\"x\"]")))), Ok(String::from("[\"x\"]")));
    assert_eq!(stored_tags(Some(Err(String::from("bad")))), Err(String::from("bad")));
}

#[test]
fn tags_or_empty_hands_on_what_it_gets() {
    assert_eq!(tags_or_empty::<u8>(Ok(vec![String::from("x")])), vec![String::from("x")]);
    assert_eq!(tags_or_empty(Err(7u8)), Vec::<String>::new());
}

#[test]
fn project_is_assembled_from_its_row() {
    let p = ProjectDataResult::from_row(
        3,
        String::from("billing"),
        String::from("tenant billing"),
        "[\"prod\"]",
        Some(String::from("[{\"id\":\"a\"}]")),
    );
    assert_eq!(p.id, Some(3));
    assert_eq!(p.name, "billing");
    assert_eq!(p.description, "tenant billing");
    assert_eq!(p.tags, vec![String::from("prod")]);
    assert_eq!(p.connections, "[{\"id\":\"a\"}]");
}

#[test]
fn project_without_connections_or_readable_tags() {
    let p = ProjectDataResult::from_row(1, String::new(), String::new(), "null", None);
    assert_eq!(p.id, Some(1));
    assert!(p.tags.is_empty());
    assert_eq!(p.connections, "");
}

#[test]
fn update_outcome() {
    let r = ExecutionResult::updated();
    assert!(r.success);
    assert_eq!(r.message, "Project updated successfully");
}

#[test]
fn encoding_tags_always_succeeds() {
    let odd = vec![String::new(), String::from("\u{0}\u{1F}"), String::from("\\ \" /"), String::from("日本語")];
    let text = encode_tags(&Some(odd.clone())).expect("encodes");
    assert_eq!(decode_tags(&text), odd);
    assert_eq!(text, "[\"\",\"\\u0000\\u001f\",\"\\\\ \\\" /\",\"日本語\"]");
}
