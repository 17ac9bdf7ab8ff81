use screencap::model::{Error, ErrorKind};
use screencap::protocol::{
    handle, id_value, internal_handle, pin_id, pin_id_of_pairs, pin_id_of_query, respond,
    select_query, serve, Response, QUERY_MARK, STATUS_BAD_REQUEST, STATUS_OK,
};
use screencap::screenshot::{pin_insert, PinStore};

fn store_with(images: Vec<Vec<u8>>) -> PinStore {
    let mut store = PinStore::new();
    for image in images {
        pin_insert(Ok(image), &mut store).unwrap();
    }
    store
}

fn header(response: &Response, name: &str) -> Option<String> {
    response.headers.iter().find(|(key, _)| key == name).map(|(_, value)| value.clone())
}

fn pairs(list: &[(&str, &str)]) -> Vec<(String, String)> {
    list.iter().map(|(k, v)| (k.to_string(), v.to_string())).collect()
}

#[test]
fn image_is_served_with_success() {
    let store = store_with(vec![vec![1, 2, 3], vec![4, 5]]);
    let response = handle("/", Some("id=2"), &store);
    assert_eq!(response.status, 200);
    assert_eq!(response.status, STATUS_OK);
    assert_eq!(response.body, vec![4, 5]);
    assert_eq!(
        response.headers,
        vec![
            (String::from("access-control-allow-origin"), String::from("*")),
            (String::from("content-type"), String::from("image/png")),
        ]
    );
}

#[test]
fn non_numeric_id_is_a_client_error() {
    let store = store_with(vec![vec![1]]);
    let response = handle("/", Some("id=abc"), &store);
    assert_eq!(response.status, 400);
    assert_eq!(response.status, STATUS_BAD_REQUEST);
    assert_eq!(response.body, b"invalid digit found in string".to_vec());
    assert_eq!(header(&response, "access-control-allow-origin"), Some(String::from("*")));
    assert_eq!(header(&response, "content-type"), None);
    assert_eq!(response.headers.len(), 1);
}

#[test]
fn message_of_a_bad_id_is_the_standard_one() {
    for text in ["abc", "", "-", "+", "1 ", " 1", "1.0", "0x10", "99999999999", "-99999999999",
        "2147483648", "-2147483649", "１"]
    {
        let expected = text.parse::<i32>().unwrap_err().to_string();
        let error = pin_id(text).unwrap_err();
        assert_eq!(error.kind, ErrorKind::Validation);
        assert_eq!(error.message, expected);
    }
}

#[test]
fn decimal_ids_are_read() {
    assert_eq!(pin_id("1").unwrap(), 1);
    assert_eq!(pin_id("+17").unwrap(), 17);
    assert_eq!(pin_id("-4").unwrap(), -4);
    assert_eq!(pin_id("007").unwrap(), 7);
    assert_eq!(pin_id("-0").unwrap(), 0);
    assert_eq!(pin_id("2147483647").unwrap(), i32::MAX);
    assert_eq!(pin_id("-2147483648").unwrap(), i32::MIN);
    assert_eq!(pin_id("0000000000000000042").unwrap(), 42);
}

#[test]
fn missing_query_is_a_client_error() {
    let store = store_with(vec![vec![1]]);
    let response = handle("/pin", None, &store);
    assert_eq!(response.status, 400);
    assert_eq!(response.body, b"query is empty".to_vec());
    let error = internal_handle("/pin", None, &store).unwrap_err();
    assert_eq!(error.kind, ErrorKind::Validation);
    assert_eq!(error.message, "query is empty");
}

#[test]
fn missing_id_is_a_client_error() {
    let store = store_with(vec![vec![1]]);
    for query in ["", "x=1", "ID=1", "id", "&&"] {
        let response = handle("/", Some(query), &store);
        if query == "id" {
            // A name without a value has the empty value.
            assert_eq!(response.body, b"cannot parse integer from empty string".to_vec());
        } else {
            assert_eq!(response.body, b"id is empty".to_vec());
        }
        assert_eq!(response.status, 400);
    }
}

#[test]
fn unknown_pin_is_a_client_error() {
    let store = store_with(vec![vec![1]]);
    for query in ["id=2", "id=0", "id=-1"] {
        let response = handle("/", Some(query), &store);
        assert_eq!(response.status, 400);
        assert_eq!(response.body, b"pin not found".to_vec());
    }
    let error = internal_handle("/", Some("id=2"), &store).unwrap_err();
    assert_eq!(error.kind, ErrorKind::StateNotFound);
}

#[test]
fn query_in_the_path_and_query_component_agree() {
    let store = store_with(vec![vec![10], vec![20], vec![30]]);
    let separate = handle("/image", Some("id=3"), &store);
    let embedded = handle("/image%3Fid%3D3", None, &store);
    let literal = handle("/image?id=3", None, &store);
    for response in [&separate, &embedded, &literal] {
        assert_eq!(response.status, 200);
        assert_eq!(response.body, vec![30]);
    }
    assert_eq!(separate.headers, embedded.headers);
}

#[test]
fn query_in_the_path_wins() {
    let store = store_with(vec![vec![10], vec![20]]);
    let response = handle("/image%3Fid=1", Some("id=2"), &store);
    assert_eq!(response.body, vec![10]);
    let response = handle("/image%3F", Some("id=2"), &store);
    assert_eq!(response.status, 400);
    assert_eq!(response.body, b"id is empty".to_vec());
}

#[test]
fn first_id_is_taken() {
    let store = store_with(vec![vec![10], vec![20]]);
    assert_eq!(handle("/", Some("a=b&id=2&id=1"), &store).body, vec![20]);
    assert_eq!(handle("/", Some("id=x&id=1"), &store).status, 400);
}

#[test]
fn value_is_percent_decoded() {
    let store = store_with(vec![vec![10], vec![20]]);
    assert_eq!(handle("/", Some("id=%32"), &store).body, vec![20]);
    assert_eq!(handle("/", Some("%69d=1"), &store).body, vec![10]);
    // In a query a plus sign stands for a space.
    let response = handle("/", Some("id=+1"), &store);
    assert_eq!(response.status, 400);
    assert_eq!(response.body, b"invalid digit found in string".to_vec());
    assert_eq!(handle("/", Some("id=%2B1"), &store).body, vec![10]);
}

#[test]
fn select_query_splits_at_the_first_mark() {
    assert_eq!(select_query(b"/a?b?c".to_vec(), None), Some(b"b?c".to_vec()));
    assert_eq!(select_query(b"?".to_vec(), Some("x")), Some(Vec::new()));
    assert_eq!(select_query(b"/a".to_vec(), Some("x=1")), Some(b"x=1".to_vec()));
    assert_eq!(select_query(b"/a".to_vec(), None), None);
    assert_eq!(select_query(Vec::new(), None), None);
    assert_eq!(select_query(vec![b'a', QUERY_MARK, b'b'], None), Some(vec![b'b']));
    assert_eq!(QUERY_MARK, b'?');
}

#[test]
fn id_value_finds_the_first_pair_named_id() {
    assert_eq!(id_value(&pairs(&[("a", "1"), ("id", "2"), ("id", "3")])), Some(String::from("2")));
    assert_eq!(id_value(&pairs(&[("Id", "1"), ("id ", "2")])), None);
    assert_eq!(id_value(&pairs(&[])), None);
    assert_eq!(id_value(&pairs(&[("id", "")])), Some(String::new()));
}

#[test]
fn pairs_are_read_for_the_id() {
    assert_eq!(pin_id_of_pairs(&pairs(&[("id", "12")])).unwrap(), 12);
    let error = pin_id_of_pairs(&pairs(&[("x", "12")])).unwrap_err();
    assert_eq!(error.kind, ErrorKind::Validation);
    assert_eq!(error.message, "id is empty");
    assert_eq!(pin_id_of_query(Some(b"x=1&id=5".to_vec())).unwrap(), 5);
    assert_eq!(pin_id_of_query(None).unwrap_err().message, "query is empty");
    assert_eq!(pin_id_of_query(Some(Vec::new())).unwrap_err().message, "id is empty");
}

#[test]
fn serve_passes_failures_on() {
    let store = store_with(vec![vec![7]]);
    assert_eq!(serve(Ok(1), &store).unwrap(), vec![7]);
    let error = serve(Err(Error::new(ErrorKind::Validation, "bad")), &store).unwrap_err();
    assert_eq!(error.kind, ErrorKind::Validation);
    assert_eq!(error.message, "bad");
    assert_eq!(serve(Ok(2), &store).unwrap_err().message, "pin not found");
}

#[test]
fn failure_body_is_the_message_in_utf8() {
    let response = respond(Err(Error::new(ErrorKind::CaptureFailure, "écran 屏幕")));
    assert_eq!(response.status, 400);
    assert_eq!(response.body, "écran 屏幕".as_bytes().to_vec());
    let response = respond(Ok(Vec::new()));
    assert_eq!(response.status, 200);
    assert!(response.body.is_empty());
}

#[test]
fn ill_formed_path_does_not_fail() {
    let store = store_with(vec![vec![1]]);
    let response = handle("/%ff%fe%3Fid=1", None, &store);
    assert_eq!(response.body, vec![1]);
    let response = handle("/%3", Some("id=1"), &store);
    assert_eq!(response.body, vec![1]);
}
