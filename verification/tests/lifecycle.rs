use lokal::lokal::Lokal;
use lokal::tunnel::{Response, Tunnel, TunnelError, TunnelResponse, TunnelType};

fn fresh_tunnel() -> Tunnel {
    Tunnel::new(Lokal::new_default())
}

fn one_record() -> Option<Vec<TunnelResponse>> {
    Some(vec![TunnelResponse {
        address_public: "mysite.k.lokal.so".to_string(),
        address_mdns: "mysite".to_string(),
        id: "tun-1".to_string(),
    }])
}

fn ok_response() -> Response {
    Response {
        success: true,
        message: String::new(),
        tunnel: one_record(),
    }
}

fn header() -> Option<String> {
    Some("0.6.0".to_string())
}

#[test]
fn create_without_any_address_fails() {
    let mut t = fresh_tunnel();
    let r = t.create(header(), ok_response());
    assert_eq!(r, Err(TunnelError::ConfigurationError));
}

#[test]
fn create_without_any_address_fails_regardless_of_flags() {
    let mut t = fresh_tunnel()
        .set_name("mysite".to_string())
        .set_local_address("127.0.0.1:3000".to_string())
        .ignore_duplicate()
        .show_startup_banner();
    let r = t.create(
        header(),
        Response {
            success: false,
            message: "irrelevant".to_string(),
            tunnel: None,
        },
    );
    assert_eq!(r, Err(TunnelError::ConfigurationError));
}

#[test]
fn create_without_version_header_fails() {
    let mut t = fresh_tunnel().set_lan_address("mysite".to_string());
    let r = t.create(None, ok_response());
    assert_eq!(r, Err(TunnelError::IncompatibleServerError));
    assert!(t.id.is_none());
}

#[test]
fn create_with_outdated_server_fails() {
    let mut t = fresh_tunnel().set_lan_address("mysite".to_string());
    let r = t.create(Some("0.5.9".to_string()), ok_response());
    assert_eq!(r, Err(TunnelError::IncompatibleServerError));
}

#[test]
fn create_with_prerelease_of_minimum_fails() {
    let mut t = fresh_tunnel().set_lan_address("mysite".to_string());
    let r = t.create(Some("0.6.0-rc.1".to_string()), ok_response());
    assert_eq!(r, Err(TunnelError::IncompatibleServerError));
}

#[test]
fn create_with_unparseable_version_fails() {
    let mut t = fresh_tunnel().set_lan_address("mysite".to_string());
    let r = t.create(Some("latest".to_string()), ok_response());
    assert_eq!(r, Err(TunnelError::IncompatibleServerError));
}

#[test]
fn create_accepts_minimum_and_newer_servers() {
    for v in ["0.6.0", "0.6.1", "1.2.3", "0.7.0-beta.1"] {
        let mut t = fresh_tunnel().set_lan_address("mysite".to_string());
        let r = t.create(Some(v.to_string()), ok_response());
        assert_eq!(r, Ok(()), "version {v} should be accepted");
    }
}

#[test]
fn create_with_empty_record_list_fails() {
    let mut t = fresh_tunnel().set_lan_address("mysite".to_string());
    let r = t.create(
        header(),
        Response {
            success: true,
            message: String::new(),
            tunnel: Some(vec![]),
        },
    );
    assert_eq!(r, Err(TunnelError::TunnelCreationError));
}

#[test]
fn create_success_adopts_first_record() {
    let mut t = fresh_tunnel().set_lan_address("other".to_string());
    let r = t.create(header(), ok_response());
    assert_eq!(r, Ok(()));
    assert_eq!(t.address_public, "mysite.k.lokal.so");
    assert_eq!(t.address_mdns, "mysite");
    assert_eq!(t.id, Some("tun-1".to_string()));
}

#[test]
fn create_again_keeps_assigned_id() {
    let mut t = fresh_tunnel().set_lan_address("mysite".to_string());
    assert_eq!(t.create(header(), ok_response()), Ok(()));
    assert_eq!(t.id, Some("tun-1".to_string()));

    let r = t.create(
        header(),
        Response {
            success: true,
            message: String::new(),
            tunnel: Some(vec![TunnelResponse {
                address_public: "elsewhere.k.lokal.so".to_string(),
                address_mdns: "elsewhere".to_string(),
                id: "tun-9".to_string(),
            }]),
        },
    );
    assert_eq!(r, Ok(()));
    assert_eq!(t.id, Some("tun-1".to_string()));
    assert_eq!(t.address_public, "elsewhere.k.lokal.so");
    assert_eq!(t.address_mdns, "elsewhere");
}

#[test]
fn duplicate_reconciliation_keeps_assigned_id() {
    let mut t = fresh_tunnel()
        .set_lan_address("mysite".to_string())
        .ignore_duplicate();
    assert_eq!(t.create(header(), ok_response()), Ok(()));
    assert_eq!(t.id, Some("tun-1".to_string()));

    let r = t.create(
        header(),
        Response {
            success: false,
            message: "address is already being used".to_string(),
            tunnel: Some(vec![TunnelResponse {
                address_public: "mysite.k.lokal.so".to_string(),
                address_mdns: "mysite".to_string(),
                id: "tun-9".to_string(),
            }]),
        },
    );
    assert_eq!(r, Ok(()));
    assert_eq!(t.id, Some("tun-1".to_string()));
}

#[test]
fn create_success_without_record_list_keeps_fields() {
    let mut t = fresh_tunnel().set_lan_address("mysite".to_string());
    let r = t.create(
        header(),
        Response {
            success: true,
            message: String::new(),
            tunnel: None,
        },
    );
    assert_eq!(r, Ok(()));
    assert_eq!(t.address_mdns, "mysite");
    assert!(t.id.is_none());
}

#[test]
fn create_tolerated_duplicate_adopts_existing_tunnel() {
    let mut t = fresh_tunnel()
        .set_lan_address("other".to_string())
        .ignore_duplicate();
    let r = t.create(
        header(),
        Response {
            success: false,
            message: "address is already being used".to_string(),
            tunnel: one_record(),
        },
    );
    assert_eq!(r, Ok(()));
    assert_eq!(t.address_public, "mysite.k.lokal.so");
    assert_eq!(t.address_mdns, "mysite");
    assert_eq!(t.id, Some("tun-1".to_string()));
}

#[test]
fn create_rejection_without_tolerance_carries_message() {
    let mut t = fresh_tunnel().set_lan_address("other".to_string());
    let r = t.create(
        header(),
        Response {
            success: false,
            message: "address is already being used".to_string(),
            tunnel: one_record(),
        },
    );
    assert_eq!(
        r,
        Err(TunnelError::RemoteRejectionError(
            "address is already being used".to_string()
        ))
    );
    assert_eq!(t.address_mdns, "other");
    assert!(t.id.is_none());
}

#[test]
fn create_rejection_with_other_message_is_not_tolerated() {
    let mut t = fresh_tunnel()
        .set_lan_address("other".to_string())
        .ignore_duplicate();
    let r = t.create(
        header(),
        Response {
            success: false,
            message: "quota exceeded".to_string(),
            tunnel: one_record(),
        },
    );
    assert_eq!(
        r,
        Err(TunnelError::RemoteRejectionError("quota exceeded".to_string()))
    );
}

#[test]
fn update_port_rejection_carries_message() {
    let mut t = fresh_tunnel().set_public_address("tcp.lokal.so".to_string());
    let r = t.update_public_url_port(Response {
        success: false,
        message: "no such tunnel".to_string(),
        tunnel: None,
    });
    assert_eq!(
        r,
        Err(TunnelError::RemoteRejectionError("no such tunnel".to_string()))
    );
    assert_eq!(t.address_public, "tcp.lokal.so");
}

#[test]
fn update_port_empty_record_list_fails() {
    let mut t = fresh_tunnel().set_public_address("tcp.lokal.so".to_string());
    let r = t.update_public_url_port(Response {
        success: true,
        message: String::new(),
        tunnel: Some(vec![]),
    });
    assert_eq!(r, Err(TunnelError::TunnelCreationError));
}

#[test]
fn update_port_still_unassigned_leaves_descriptor_unchanged() {
    let mut t = fresh_tunnel()
        .set_tunnel_type(TunnelType::TCP)
        .set_public_address("tcp.lokal.so".to_string());
    let r = t.update_public_url_port(Response {
        success: true,
        message: String::new(),
        tunnel: Some(vec![TunnelResponse {
            address_public: "tcp.lokal.so".to_string(),
            address_mdns: String::new(),
            id: "tun-2".to_string(),
        }]),
    });
    assert_eq!(r, Err(TunnelError::PortNotAssignedError));
    assert_eq!(t.address_public, "tcp.lokal.so");
    assert!(t.id.is_none());
}

#[test]
fn update_port_overwrites_public_address() {
    let mut t = fresh_tunnel()
        .set_tunnel_type(TunnelType::TCP)
        .set_public_address("tcp.lokal.so".to_string());
    let r = t.update_public_url_port(Response {
        success: true,
        message: String::new(),
        tunnel: Some(vec![TunnelResponse {
            address_public: "tcp.lokal.so:32145".to_string(),
            address_mdns: String::new(),
            id: "tun-2".to_string(),
        }]),
    });
    assert_eq!(r, Ok(()));
    assert_eq!(t.address_public, "tcp.lokal.so:32145");
    assert_eq!(t.get_public_address().unwrap(), "tcp.lokal.so:32145");
}

#[test]
fn update_port_without_record_list_keeps_fields() {
    let mut t = fresh_tunnel().set_public_address("tcp.lokal.so".to_string());
    let r = t.update_public_url_port(Response {
        success: true,
        message: String::new(),
        tunnel: None,
    });
    assert_eq!(r, Ok(()));
    assert_eq!(t.address_public, "tcp.lokal.so");
}

#[test]
fn can_create_requires_an_address() {
    let t = fresh_tunnel();
    assert!(!t.can_create());
    assert!(fresh_tunnel().set_lan_address("mysite".to_string()).can_create());
    assert!(fresh_tunnel()
        .set_public_address("mysite.k.lokal.so".to_string())
        .can_create());
}
