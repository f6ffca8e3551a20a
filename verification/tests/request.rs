use s3_listing::native::{
    address_or_last_error, ok_or_last_error, on_err, ErrorSource, AWS_OP_ERR, AWS_OP_SUCCESS,
};
use s3_listing::request::{list_objects_query, list_objects_request};

fn pair(name: &str, value: &str) -> (String, String) {
    (name.to_string(), value.to_string())
}

#[test]
fn query_without_token() {
    let query = list_objects_query(None, "/", 1000, "photos/");
    assert_eq!(
        query,
        vec![
            pair("list-type", "2"),
            pair("delimiter", "/"),
            pair("max-keys", "1000"),
            pair("prefix", "photos/"),
        ]
    );
}

#[test]
fn query_with_token_puts_it_last() {
    let query = list_objects_query(Some("abc=="), "", 0, "");
    assert_eq!(
        query,
        vec![
            pair("list-type", "2"),
            pair("delimiter", ""),
            pair("max-keys", "0"),
            pair("prefix", ""),
            pair("continuation-token", "abc=="),
        ]
    );
}

#[test]
fn max_keys_is_written_in_decimal() {
    assert_eq!(list_objects_query(None, "/", 7, "")[2], pair("max-keys", "7"));
    assert_eq!(list_objects_query(None, "/", 10, "")[2], pair("max-keys", "10"));
    assert_eq!(list_objects_query(None, "/", 4294967295, "")[2], pair("max-keys", "4294967295"));
}

#[test]
fn request_is_a_get_with_the_restore_status_header() {
    let request = list_objects_request("bucket", Some("t"), "/", 5, "p");
    assert_eq!(request.method, "GET");
    assert_eq!(request.bucket, "bucket");
    assert_eq!(request.path, "/");
    assert_eq!(request.query, list_objects_query(Some("t"), "/", 5, "p"));
    assert_eq!(request.headers, vec![pair("x-amz-optional-object-attributes", "RestoreStatus")]);
}

#[test]
fn requests_are_reproducible() {
    assert_eq!(
        list_objects_request("b", None, "/", 5, "p"),
        list_objects_request("b", None, "/", 5, "p")
    );
}

#[test]
fn success_code_is_ok() {
    assert_eq!(AWS_OP_SUCCESS, 0);
    assert_eq!(ok_or_last_error(AWS_OP_SUCCESS), Ok(()));
}

#[test]
fn error_code_points_to_the_last_error() {
    assert_eq!(AWS_OP_ERR, -1);
    assert_eq!(ok_or_last_error(AWS_OP_ERR), Err(ErrorSource::LastError));
}

#[test]
fn unexpected_code_is_an_error_of_its_own() {
    assert_eq!(ok_or_last_error(5), Err(ErrorSource::Code(5)));
    assert_eq!(ok_or_last_error(-2), Err(ErrorSource::Code(-2)));
    assert_eq!(ok_or_last_error(i32::MAX), Err(ErrorSource::Code(i32::MAX)));
    assert_eq!(ok_or_last_error(i32::MIN), Err(ErrorSource::Code(i32::MIN)));
}

#[test]
fn null_address_points_to_the_last_error() {
    assert_eq!(address_or_last_error(0), Err(ErrorSource::LastError));
    assert_eq!(address_or_last_error(4096), Ok(4096));
    assert_eq!(address_or_last_error(usize::MAX), Ok(usize::MAX));
}

#[test]
fn on_err_runs_only_on_an_error() {
    let mut calls = 0;
    let ok: Result<u8, u8> = on_err(Ok(1), || calls += 1);
    assert_eq!(ok, Ok(1));
    assert_eq!(calls, 0);
    let err: Result<u8, u8> = on_err(Err(2), || calls += 1);
    assert_eq!(err, Err(2));
    assert_eq!(calls, 1);
}
