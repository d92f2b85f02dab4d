use k4rust::ipc::{dot_apply_query, query_route, IpcClient, QueryRoute};

#[test]
fn connect_accepts_positive_handles() {
    let c = IpcClient::connect(7).unwrap();
    assert_eq!(c.handle(), 7);
    assert!(c.closes_on_drop());
    assert_eq!(IpcClient::connect_with_creds(1).unwrap().handle(), 1);
    assert_eq!(IpcClient::connect_with_timeout(3).unwrap().handle(), 3);
    assert_eq!(IpcClient::connect_with_capability(9).unwrap().handle(), 9);
}

#[test]
fn connect_refusals_name_the_code() {
    assert_eq!(IpcClient::connect(0).err().unwrap(), "Connection failed, code: 0");
    assert_eq!(IpcClient::connect(-1).err().unwrap(), "Connection failed, code: -1");
    assert_eq!(
        IpcClient::connect_with_creds(-2).err().unwrap(),
        "Connection failed with credentials, code: -2"
    );
    assert_eq!(
        IpcClient::connect_with_timeout(0).err().unwrap(),
        "Connection failed with timeout, code: 0"
    );
    assert_eq!(
        IpcClient::connect_with_capability(-2).err().unwrap(),
        "Connection failed with capability settings, code: -2"
    );
    assert_eq!(
        IpcClient::connect(i32::MIN).err().unwrap(),
        format!("Connection failed, code: {}", i32::MIN)
    );
}

#[test]
fn query_routes_by_arity() {
    assert_eq!(query_route(0), QueryRoute::Arity0);
    assert_eq!(query_route(1), QueryRoute::Arity1);
    assert_eq!(query_route(2), QueryRoute::Arity2);
    assert_eq!(query_route(3), QueryRoute::Arity3);
    assert_eq!(query_route(4), QueryRoute::Packed(4));
    assert_eq!(query_route(10), QueryRoute::Packed(10));
    assert_eq!(dot_apply_query(), "{(value x) . y}");
}
