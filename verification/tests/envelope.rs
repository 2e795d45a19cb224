use torrent_rpc::error::DecodeError;
use torrent_rpc::json::Json;
use torrent_rpc::types::{
    BlocklistUpdate, FreeSpace, Nothing, PortTest, RpcResponse, SessionClose, Torrent, Torrents,
};

fn answer(result: &str, arguments: Json) -> Json {
    Json::object(vec![Json::member("arguments", arguments), Json::member("result", Json::text(result))])
}

fn with_result(result: &str) -> RpcResponse<Nothing> {
    RpcResponse { arguments: Nothing {}, result: result.to_string() }
}

#[test]
fn is_ok_only_for_the_exact_word() {
    assert!(with_result("success").is_ok());
    assert!(!with_result("success ").is_ok());
    assert!(!with_result(" success").is_ok());
    assert!(!with_result("error").is_ok());
    assert!(!with_result("Success").is_ok());
    assert!(!with_result("SUCCESS").is_ok());
    assert!(!with_result("").is_ok());
    assert!(!with_result("succes").is_ok());
    assert!(!with_result("successs").is_ok());
    assert!(!with_result("no such method").is_ok());
}

#[test]
fn envelope_decodes_result_and_payload() {
    let json = answer("success", Json::object(vec![Json::member("port-is-open", Json::Bool(true))]));
    let response = RpcResponse::<PortTest>::decode(&json).unwrap();
    assert!(response.is_ok());
    assert_eq!(response.result, "success");
    assert!(response.arguments.port_is_open);
}

#[test]
fn envelope_reads_members_in_any_order_and_skips_others() {
    let json = Json::object(vec![
        Json::member("tag", Json::integer(3)),
        Json::member("result", Json::text("success")),
        Json::member("arguments", Json::object(vec![Json::member("port-is-open", Json::Bool(false))])),
    ]);
    let response = RpcResponse::<PortTest>::decode(&json).unwrap();
    assert!(response.is_ok());
    assert!(!response.arguments.port_is_open);
}

#[test]
fn envelope_of_a_failure_still_decodes() {
    let json = answer("torrent not found", Json::object(Vec::new()));
    let response = RpcResponse::<Nothing>::decode(&json).unwrap();
    assert!(!response.is_ok());
    assert_eq!(response.result, "torrent not found");
}

#[test]
fn envelope_must_be_an_object() {
    for json in [Json::Null, Json::text("success"), Json::Array(Vec::new()), Json::integer(0)] {
        assert_eq!(RpcResponse::<Nothing>::decode(&json).err(), Some(DecodeError::NotAnObject));
    }
}

#[test]
fn envelope_requires_both_members() {
    let no_result = Json::object(vec![Json::member("arguments", Json::object(Vec::new()))]);
    assert_eq!(
        RpcResponse::<Nothing>::decode(&no_result).err(),
        Some(DecodeError::MissingField("result"))
    );
    let no_arguments = Json::object(vec![Json::member("result", Json::text("success"))]);
    assert_eq!(
        RpcResponse::<Nothing>::decode(&no_arguments).err(),
        Some(DecodeError::MissingField("arguments"))
    );
    assert_eq!(
        RpcResponse::<Nothing>::decode(&Json::object(Vec::new())).err(),
        Some(DecodeError::MissingField("arguments"))
    );
}

#[test]
fn envelope_reports_the_first_fault_in_field_order() {
    let json = Json::object(vec![
        Json::member("result", Json::integer(0)),
        Json::member("arguments", Json::text("none")),
    ]);
    assert_eq!(
        RpcResponse::<Nothing>::decode(&json).err(),
        Some(DecodeError::WrongType("arguments"))
    );
    let json = answer("success", Json::Null);
    assert_eq!(
        RpcResponse::<Nothing>::decode(&json).err(),
        Some(DecodeError::WrongType("arguments"))
    );
    let json = Json::object(vec![
        Json::member("arguments", Json::object(Vec::new())),
        Json::member("result", Json::Null),
    ]);
    assert_eq!(RpcResponse::<Nothing>::decode(&json).err(), Some(DecodeError::WrongType("result")));
}

#[test]
fn envelope_refuses_a_repeated_member() {
    let json = Json::object(vec![
        Json::member("arguments", Json::object(Vec::new())),
        Json::member("result", Json::text("success")),
        Json::member("result", Json::text("error")),
    ]);
    assert_eq!(
        RpcResponse::<Nothing>::decode(&json).err(),
        Some(DecodeError::RepeatedField("result"))
    );
}

#[test]
fn envelope_passes_on_the_fault_of_its_payload() {
    let json = answer("success", Json::object(Vec::new()));
    assert_eq!(
        RpcResponse::<PortTest>::decode(&json).err(),
        Some(DecodeError::MissingField("port-is-open"))
    );
    let json = answer("success", Json::object(vec![Json::member("port-is-open", Json::integer(1))]));
    assert_eq!(
        RpcResponse::<PortTest>::decode(&json).err(),
        Some(DecodeError::WrongType("port-is-open"))
    );
}

#[test]
fn empty_payloads_decode_from_any_object() {
    let json = answer("success", Json::object(Vec::new()));
    assert!(RpcResponse::<Nothing>::decode(&json).is_ok());
    assert!(RpcResponse::<SessionClose>::decode(&json).is_ok());
    let json = answer("success", Json::object(vec![Json::member("more", Json::integer(1))]));
    assert!(RpcResponse::<Nothing>::decode(&json).is_ok());
    assert!(RpcResponse::<SessionClose>::decode(&json).is_ok());
}

#[test]
fn free_space_decodes() {
    let json = answer(
        "success",
        Json::object(vec![
            Json::member("path", Json::text("/var/lib/downloads")),
            Json::member("size-bytes", Json::integer(10_000_000_000)),
            Json::member("total_size", Json::integer(20_000_000_000)),
        ]),
    );
    let response = RpcResponse::<FreeSpace>::decode(&json).unwrap();
    assert_eq!(response.arguments.path, "/var/lib/downloads");
    assert_eq!(response.arguments.size_bytes, 10_000_000_000);
}

#[test]
fn free_space_takes_a_negative_size_as_it_is() {
    let json = answer(
        "success",
        Json::object(vec![
            Json::member("path", Json::text("/nowhere")),
            Json::member("size-bytes", Json::integer(-1)),
        ]),
    );
    let response = RpcResponse::<FreeSpace>::decode(&json).unwrap();
    assert_eq!(response.arguments.size_bytes, -1);
}

#[test]
fn free_space_keys_are_hyphenated() {
    let json = answer(
        "success",
        Json::object(vec![
            Json::member("path", Json::text("/x")),
            Json::member("sizeBytes", Json::integer(1)),
            Json::member("size_bytes", Json::integer(1)),
        ]),
    );
    assert_eq!(
        RpcResponse::<FreeSpace>::decode(&json).err(),
        Some(DecodeError::MissingField("size-bytes"))
    );
}

#[test]
fn blocklist_update_decodes_with_or_without_a_size() {
    let json = answer("success", Json::object(vec![Json::member("blocklist-size", Json::integer(393006))]));
    let response = RpcResponse::<BlocklistUpdate>::decode(&json).unwrap();
    assert_eq!(response.arguments.blocklist_size, Some(393006));
    let json = answer("gotNewBlocklist: http error", Json::object(Vec::new()));
    let response = RpcResponse::<BlocklistUpdate>::decode(&json).unwrap();
    assert_eq!(response.arguments.blocklist_size, None);
    assert!(!response.is_ok());
    let json = answer("success", Json::object(vec![Json::member("blocklist-size", Json::Null)]));
    let response = RpcResponse::<BlocklistUpdate>::decode(&json).unwrap();
    assert_eq!(response.arguments.blocklist_size, None);
    let json = answer("success", Json::object(vec![Json::member("blocklist-size", Json::integer(1 << 40))]));
    assert_eq!(
        RpcResponse::<BlocklistUpdate>::decode(&json).err(),
        Some(DecodeError::OutOfRange("blocklist-size"))
    );
}

#[test]
fn torrent_list_decodes() {
    let json = answer(
        "success",
        Json::object(vec![Json::member(
            "torrents",
            Json::Array(vec![
                Json::object(vec![Json::member("id", Json::integer(1))]),
                Json::object(vec![Json::member("id", Json::integer(2))]),
                Json::object(Vec::new()),
            ]),
        )]),
    );
    let response = RpcResponse::<Torrents<Torrent>>::decode(&json).unwrap();
    let ids: Vec<Option<i64>> = response.arguments.torrents.iter().map(|t| t.id).collect();
    assert_eq!(ids, vec![Some(1), Some(2), None]);
}

#[test]
fn torrent_list_reports_the_first_bad_torrent() {
    let json = answer(
        "success",
        Json::object(vec![Json::member(
            "torrents",
            Json::Array(vec![
                Json::object(vec![Json::member("id", Json::integer(1))]),
                Json::object(vec![Json::member("id", Json::text("two"))]),
                Json::object(vec![Json::member("name", Json::integer(3))]),
            ]),
        )]),
    );
    assert_eq!(
        RpcResponse::<Torrents<Torrent>>::decode(&json).err(),
        Some(DecodeError::WrongType("id"))
    );
    let json = answer("success", Json::object(vec![Json::member("torrents", Json::object(Vec::new()))]));
    assert_eq!(
        RpcResponse::<Torrents<Torrent>>::decode(&json).err(),
        Some(DecodeError::WrongType("torrents"))
    );
    let json = answer("success", Json::object(Vec::new()));
    assert_eq!(
        RpcResponse::<Torrents<Torrent>>::decode(&json).err(),
        Some(DecodeError::MissingField("torrents"))
    );
}
