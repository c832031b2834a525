use utoipa_helper::content_type_trait::ContentTypeTag;
use utoipa_helper::contract::Annotation;
use utoipa_helper::contract::DeclShape;
use utoipa_helper::contract::DescribedJsonResponse;
use utoipa_helper::contract::ResponseContract;
use utoipa_helper::json_response::JsonResponse;
use utoipa_helper::schema::alias_schema;
use utoipa_helper::schema::AliasError;
use utoipa_helper::schema::Schema;
use utoipa_helper::status_code_trait::StatusTag;
use utoipa_helper::transport::HeaderName;

fn ann(key: &str, value: &str) -> Annotation {
    Annotation {
        key: key.to_string(),
        value: value.to_string(),
    }
}

fn payload_schema() -> Schema {
    Schema::new("TestJson".to_string())
        .field("field".to_string(), "string".to_string())
        .field("id".to_string(), "uuid".to_string())
        .field("value".to_string(), "decimal".to_string())
}

#[test]
fn undeclared_contract_documents_the_default_entry() {
    let contract = ResponseContract::synthesize(DeclShape::Unnamed(1), &vec![]).unwrap();
    let frag = contract.document(Schema::new("P".to_string()));
    assert_eq!(frag.status_code, "200");
    assert_eq!(frag.content_type, "text/html");
    assert_eq!(frag.description, "");
}

#[test]
fn body_schema_is_the_payload_schema_exactly() {
    let contract = ResponseContract::new(
        Some(StatusTag::Created),
        Some(ContentTypeTag::Json),
        Some("json test".to_string()),
    );
    let schema = payload_schema();
    let frag = contract.document(schema.clone());
    assert_eq!(frag.body_schema, schema);
}

#[test]
fn declared_attributes_override_rendering_regardless_of_inner() {
    let contract = ResponseContract::new(
        Some(StatusTag::Created),
        Some(ContentTypeTag::Json),
        None,
    );
    let inner = JsonResponse::new(b"{}".to_vec()).with_cookie("a=1".to_string());
    let resp = contract.apply(inner.into_response());
    assert_eq!(resp.status, 201);
    let content: Vec<&str> = resp
        .headers
        .iter()
        .filter(|h| h.name == HeaderName::ContentType)
        .map(|h| h.value.as_str())
        .collect();
    assert_eq!(content, vec!["application/json; charset=utf-8"]);
    let cookies: Vec<&str> = resp
        .headers
        .iter()
        .filter(|h| h.name == HeaderName::SetCookie)
        .map(|h| h.value.as_str())
        .collect();
    assert_eq!(cookies, vec!["a=1"]);
}

struct Test0 {
    a: u8,
    b: u8,
}

struct Test1 {
    a: u8,
    b: u8,
}

struct Wider {
    a: u64,
    b: u64,
}

#[test]
fn test_derive_utoipa_test() {
    let target = Schema::new("Test0".to_string())
        .field("a".to_string(), "integer".to_string())
        .field("b".to_string(), "integer".to_string());
    let aliased = alias_schema::<Test0, Test1>(target.clone());
    assert!(aliased.is_ok());
    let _ = Test0 { a: 0, b: 0 };
    let _ = Test1 { a: 0, b: 0 };
}

#[test]
fn alias_of_equal_sized_types_shares_name_and_fields() {
    let target = Schema::new("Test1".to_string()).field("a".to_string(), "integer".to_string());
    let aliased = alias_schema::<Test0, Test1>(target.clone()).unwrap();
    assert_eq!(aliased.name, target.name);
    assert_eq!(aliased.fields, target.fields);
}

#[test]
fn alias_of_differently_sized_types_fails() {
    let target = Schema::new("Wider".to_string());
    let aliased = alias_schema::<Test0, Wider>(target);
    assert_eq!(aliased.unwrap_err(), AliasError::SizeMismatch);
    let _ = Wider { a: 0, b: 0 };
}

#[test]
fn ok_html_declaration_serves_cookie_and_body() {
    let id = "67e55044-10b1-426f-9247-bb680e5fe0c8";
    let attrs = vec![ann("status", "OK"), ann("description", "test response")];
    let contract = ResponseContract::synthesize(DeclShape::Unnamed(1), &attrs).unwrap();

    let frag = contract.document(Schema::new("String".to_string()));
    assert_eq!(frag.status_code, "200");
    assert_eq!(frag.description, "test response");

    let inner = utoipa_helper::html_response::HtmlResponse::new(
        format!("test {id}").into_bytes(),
    )
    .with_cookie("test=value".to_string());
    let described = utoipa_helper::contract::DescribedHtmlResponse::lift(contract, inner);
    let resp = described.into_response();
    assert_eq!(resp.status, 200);
    let cookies: Vec<&str> = resp
        .headers
        .iter()
        .filter(|h| h.name == HeaderName::SetCookie)
        .map(|h| h.value.as_str())
        .collect();
    assert_eq!(cookies, vec!["test=value"]);
    assert_eq!(resp.body, format!("test {id}").into_bytes());
}

#[test]
fn created_json_declaration_end_to_end() {
    let body = br#"{"field":"test_field","id":"67e55044-10b1-426f-9247-bb680e5fe0c8","value":"1.234"}"#.to_vec();
    let attrs = vec![ann("status", "CREATED"), ann("description", "json test")];
    let contract = ResponseContract::synthesize(DeclShape::Unnamed(1), &attrs).unwrap();

    let frag = contract.document(payload_schema());
    assert_eq!(frag.status_code, "201");
    assert_eq!(frag.description, "json test");
    let fields: Vec<(&str, &str)> = frag
        .body_schema
        .fields
        .iter()
        .map(|f| (f.name.as_str(), f.ty.as_str()))
        .collect();
    assert_eq!(
        fields,
        vec![("field", "string"), ("id", "uuid"), ("value", "decimal")]
    );

    let wrapper = JsonResponse::new(body.clone());
    let described = DescribedJsonResponse::lift(contract, wrapper);
    let resp = described.into_response();
    assert_eq!(resp.status, 201);
    assert_eq!(resp.body, body);
}
