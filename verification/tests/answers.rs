use arrakis::error::Error;
use arrakis::json::JsonValue;
use arrakis::response::{
    arrakis_error_to_status_code, make_arrakis_response, make_error_response,
    make_success_response, Status,
};

fn text(bytes: Vec<u8>) -> String {
    String::from_utf8(bytes).unwrap()
}

#[test]
fn errors_have_their_status() {
    let s = |t: &str| t.to_string();
    assert_eq!(arrakis_error_to_status_code(Error::InternalError(s("x"))), Status::InternalServerError);
    assert_eq!(arrakis_error_to_status_code(Error::NotFound(s("x"))), Status::NotFound);
    assert_eq!(arrakis_error_to_status_code(Error::InvalidFilter(s("x"))), Status::BadRequest);
    assert_eq!(arrakis_error_to_status_code(Error::InvalidFilterSyntax(s("x"))), Status::BadRequest);
    assert_eq!(
        arrakis_error_to_status_code(Error::InvalidFilterType(s("x"), s("y"))),
        Status::BadRequest
    );
    assert_eq!(
        arrakis_error_to_status_code(Error::InvalidColumnType(s("x"), s("y"), s("z"))),
        Status::BadRequest
    );
    assert_eq!(arrakis_error_to_status_code(Error::UnknownModel(s("x"))), Status::BadRequest);
    assert_eq!(arrakis_error_to_status_code(Error::UnknownColumn(s("x"), s("y"))), Status::BadRequest);
    assert_eq!(arrakis_error_to_status_code(Error::InvalidInputError(s("x"))), Status::BadRequest);
}

#[test]
fn errors_have_their_messages() {
    let s = |t: &str| t.to_string();
    assert_eq!(Error::NotFound(s("t")).to_string(), "table not found 't'");
    assert_eq!(Error::InvalidFilter(s("f")).to_string(), "invalid or unknown filter 'f'");
    assert_eq!(Error::InvalidFilterSyntax(s("as it is")).to_string(), "as it is");
    assert_eq!(
        Error::InvalidFilterType(s("limit"), s("u32")).to_string(),
        "invalid type for filter 'limit, expected 'u32'"
    );
    assert_eq!(
        Error::InvalidColumnType(s("c"), s("e"), s("f")).to_string(),
        "invalid type for column 'c', expected 'e' found 'f'"
    );
    assert_eq!(Error::UnknownModel(s("t")).to_string(), "table 't' do not exist");
    assert_eq!(
        Error::UnknownColumn(s("c"), s("t")).to_string(),
        "column 'c' do not exist for table 't'"
    );
    assert_eq!(Error::InvalidInputError(s("why")).to_string(), "invalid input: why");
    assert_eq!(Error::InternalError(s("why")).to_string(), "internal error, why");
}

#[test]
fn errors_have_their_descriptions() {
    let s = |t: &str| t.to_string();
    assert_eq!(Error::NotFound(s("t")).description(), "table not found");
    assert_eq!(Error::InvalidFilter(s("f")).description(), "invalid or unknown filter");
    assert_eq!(Error::InvalidFilterSyntax(s("f")).description(), "invalid filter syntax");
    assert_eq!(Error::InvalidFilterType(s("a"), s("b")).description(), "invalid type for column");
    assert_eq!(
        Error::InvalidColumnType(s("a"), s("b"), s("c")).description(),
        "invalid type for column"
    );
    assert_eq!(Error::UnknownModel(s("t")).description(), "unknow model");
    assert_eq!(Error::UnknownColumn(s("c"), s("t")).description(), "unknow column");
    assert_eq!(Error::InvalidInputError(s("x")).description(), "invalid input");
    assert_eq!(Error::InternalError(s("x")).description(), "internal error");
}

#[test]
fn a_success_holds_the_value_under_data() {
    assert_eq!(text(make_success_response(JsonValue::Bool(true))), "{\"data\":true}");
    assert_eq!(text(make_success_response(JsonValue::Null)), "{\"data\":null}");
    let rows = JsonValue::Array(vec![JsonValue::Object(vec![
        ("name".to_string(), JsonValue::String("b\"ob".to_string())),
        ("id".to_string(), JsonValue::Number("1".to_string())),
        ("ratio".to_string(), JsonValue::Number("1.5".to_string())),
        ("big".to_string(), JsonValue::Number("18446744073709551615".to_string())),
        ("low".to_string(), JsonValue::Number("-9223372036854775808".to_string())),
    ])]);
    assert_eq!(
        text(make_success_response(rows)),
        "{\"data\":[{\"big\":18446744073709551615,\"id\":1,\"low\":-9223372036854775808,\
         \"name\":\"b\\\"ob\",\"ratio\":1.5}]}"
    );
}

#[test]
fn a_number_that_is_none_is_written_as_null() {
    assert_eq!(
        text(make_success_response(JsonValue::Number("abc".to_string()))),
        "{\"data\":null}"
    );
}

#[test]
fn a_failure_holds_the_message_under_error() {
    assert_eq!(text(make_error_response("not found")), "{\"error\":\"not found\"}");
    assert_eq!(text(make_error_response("a \"b\"\n")), "{\"error\":\"a \\\"b\\\"\\n\"}");
}

#[test]
fn an_answer_has_a_body_and_a_status() {
    let (body, status) = make_arrakis_response(Ok(Some(JsonValue::Array(vec![]))));
    assert_eq!(text(body), "{\"data\":[]}");
    assert_eq!(status, Status::Success);
    let (body, status) = make_arrakis_response(Ok(None));
    assert_eq!(body.len(), 0);
    assert_eq!(status, Status::NoContent);
    let (body, status) = make_arrakis_response(Err(Error::UnknownModel("t".to_string())));
    assert_eq!(text(body), "{\"error\":\"table 't' do not exist\"}");
    assert_eq!(status, Status::BadRequest);
    let (body, status) =
        make_arrakis_response(Err(Error::InternalError("internal database error".to_string())));
    assert_eq!(text(body), "{\"error\":\"internal error, internal database error\"}");
    assert_eq!(status, Status::InternalServerError);
}
