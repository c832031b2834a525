use utoipa_helper::contract::Annotation;
use utoipa_helper::contract::DeclShape;
use utoipa_helper::contract::ResponseContract;
use utoipa_helper::contract::SynthesisError;
use utoipa_helper::json_response::JsonResponse;
use utoipa_helper::schema::Schema;
use utoipa_helper::transport::HeaderName;

fn ann(key: &str, value: &str) -> Annotation {
    Annotation {
        key: key.to_string(),
        value: value.to_string(),
    }
}

#[test]
fn legal_declaration_synthesizes() {
    let attrs = vec![ann("status", "CREATED"), ann("description", "json test")];
    let contract = ResponseContract::synthesize(DeclShape::Unnamed(1), &attrs).unwrap();
    let frag = contract.document(Schema::new("P".to_string()));
    assert_eq!(frag.status_code, "201");
    assert_eq!(frag.description, "json test");
}

#[test]
fn numeric_status_annotation_synthesizes() {
    let attrs = vec![ann("status", "418")];
    let contract = ResponseContract::synthesize(DeclShape::Unnamed(1), &attrs).unwrap();
    let resp = contract.apply(JsonResponse::new(b"{}".to_vec()).into_response());
    assert_eq!(resp.status, 418);
}

#[test]
fn plus_signed_status_numeral_is_accepted() {
    let attrs = vec![ann("status", "+201")];
    let contract = ResponseContract::synthesize(DeclShape::Unnamed(1), &attrs).unwrap();
    let resp = contract.apply(JsonResponse::new(b"{}".to_vec()).into_response());
    assert_eq!(resp.status, 201);
}

#[test]
fn later_annotation_overrides_earlier() {
    let attrs = vec![ann("status", "OK"), ann("status", "NO_CONTENT")];
    let contract = ResponseContract::synthesize(DeclShape::Unnamed(1), &attrs).unwrap();
    let resp = contract.apply(JsonResponse::new(b"".to_vec()).into_response());
    assert_eq!(resp.status, 204);
}

#[test]
fn unknown_key_is_refused() {
    let attrs = vec![ann("status", "OK"), ann("colour", "green")];
    let err = ResponseContract::synthesize(DeclShape::Unnamed(1), &attrs).unwrap_err();
    assert_eq!(err, SynthesisError::UnknownKey("colour".to_string()));
}

#[test]
fn wrong_shapes_are_refused() {
    let attrs: Vec<Annotation> = vec![];
    for shape in [
        DeclShape::Unnamed(0),
        DeclShape::Unnamed(2),
        DeclShape::Named(1),
        DeclShape::Unit,
        DeclShape::NotStruct,
    ] {
        let err = ResponseContract::synthesize(shape, &attrs).unwrap_err();
        assert_eq!(err, SynthesisError::BadShape(shape));
    }
}

#[test]
fn the_whole_content_vocabulary_is_accepted() {
    for (mime, header) in [
        ("text/html", "text/html; charset=utf-8"),
        ("text/css", "text/css; charset=utf-8"),
        ("application/json", "application/json; charset=utf-8"),
    ] {
        let attrs = vec![ann("content", mime)];
        let contract = ResponseContract::synthesize(DeclShape::Unnamed(1), &attrs).unwrap();
        let resp = contract.apply(JsonResponse::new(b"{}".to_vec()).into_response());
        let content: Vec<&str> = resp
            .headers
            .iter()
            .filter(|h| h.name == HeaderName::ContentType)
            .map(|h| h.value.as_str())
            .collect();
        assert_eq!(content, vec![header]);
        let frag = contract.document(Schema::new("P".to_string()));
        assert_eq!(frag.content_type, mime);
    }
}

#[test]
fn unsupported_content_type_is_refused() {
    let attrs = vec![ann("content", "image/png")];
    let err = ResponseContract::synthesize(DeclShape::Unnamed(1), &attrs).unwrap_err();
    assert_eq!(
        err,
        SynthesisError::UnknownContentType("image/png".to_string())
    );
}

#[test]
fn unparseable_status_is_refused() {
    for bad in ["CREATED_X", "12a", "", "-1", "+", "99999999999"] {
        let attrs = vec![ann("status", bad)];
        let err = ResponseContract::synthesize(DeclShape::Unnamed(1), &attrs).unwrap_err();
        assert_eq!(err, SynthesisError::UnparseableStatus(bad.to_string()));
    }
}

#[test]
fn out_of_range_status_is_refused_not_defaulted() {
    let attrs = vec![ann("status", "54321")];
    let err = ResponseContract::synthesize(DeclShape::Unnamed(1), &attrs).unwrap_err();
    assert_eq!(err, SynthesisError::StatusOutOfRange(54321));

    let attrs = vec![ann("status", "99")];
    let err = ResponseContract::synthesize(DeclShape::Unnamed(1), &attrs).unwrap_err();
    assert_eq!(err, SynthesisError::StatusOutOfRange(99));

    let attrs = vec![ann("status", "600")];
    let err = ResponseContract::synthesize(DeclShape::Unnamed(1), &attrs).unwrap_err();
    assert_eq!(err, SynthesisError::StatusOutOfRange(600));
}

#[test]
fn errors_carry_a_descriptive_message() {
    let attrs = vec![ann("colour", "green")];
    let err = ResponseContract::synthesize(DeclShape::Unnamed(1), &attrs).unwrap_err();
    assert_eq!(err.message(), "not a valid annotation key");

    let attrs = vec![ann("status", "600")];
    let err = ResponseContract::synthesize(DeclShape::Unnamed(1), &attrs).unwrap_err();
    assert_eq!(err.message(), "status code must lie between 100 and 599");
}

#[test]
fn error_annotation_is_accepted() {
    let attrs = vec![ann("error", "ignored"), ann("status", "OK")];
    let contract = ResponseContract::synthesize(DeclShape::Unnamed(1), &attrs).unwrap();
    let resp = contract.apply(JsonResponse::new(b"{}".to_vec()).into_response());
    assert_eq!(resp.status, 200);
}

#[test]
fn declared_content_overrides_the_inner_choice() {
    let attrs = vec![ann("content", "text/html")];
    let contract = ResponseContract::synthesize(DeclShape::Unnamed(1), &attrs).unwrap();
    let resp = contract.apply(JsonResponse::new(b"{}".to_vec()).into_response());
    let content: Vec<&str> = resp
        .headers
        .iter()
        .filter(|h| h.name == HeaderName::ContentType)
        .map(|h| h.value.as_str())
        .collect();
    assert_eq!(content, vec!["text/html; charset=utf-8"]);
}
