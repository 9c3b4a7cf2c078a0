use datum_connect::state::{
    parse_host_port, settled, HostPortError, ProxyState, SelectedContext, State, TcpProxyData,
};

#[test]
fn parse_tcp_proxy_data_from_host_port() {
    let data = TcpProxyData::from_host_port_str("test-proxy", "example.test:443").unwrap();
    assert_eq!(data.host, "example.test");
    assert_eq!(data.port, 443);
}

#[test]
fn parse_tcp_proxy_data_rejects_missing_port() {
    let err = TcpProxyData::from_host_port_str("test-proxy", "example.test").unwrap_err();
    assert!(err.message().contains("missing port"));
}

#[test]
fn parse_tcp_proxy_data_rejects_invalid_port() {
    let err = TcpProxyData::from_host_port_str("test-proxy", "example.test:abc").unwrap_err();
    assert!(err.message().contains("invalid port"));
}

fn proxy(id: &str, host: &str, port: u16) -> ProxyState {
    ProxyState::new(TcpProxyData {
        resource_id: id.to_string(),
        host: host.to_string(),
        port,
    })
}

#[test]
fn ports_are_read_from_the_last_colon() {
    assert_eq!(
        parse_host_port("fd00::1:8080"),
        Ok(("fd00::1".to_string(), 8080))
    );
    assert_eq!(parse_host_port("h:65535"), Ok(("h".to_string(), 65535)));
    assert_eq!(parse_host_port("h:65536"), Err(HostPortError::InvalidPort));
    assert_eq!(parse_host_port("h:"), Err(HostPortError::InvalidPort));
}

#[test]
fn an_address_reads_back() {
    let data = TcpProxyData::from_host_port_str("p", "example.test:443").unwrap();
    assert_eq!(data.address(), "example.test:443");
}

#[test]
fn setting_a_proxy_replaces_the_one_of_its_tunnel() {
    let mut state = State::empty();
    state.set_proxy(proxy("a", "one", 1));
    state.set_proxy(proxy("b", "two", 2));
    state.set_proxy(proxy("a", "three", 3));
    assert_eq!(state.proxies, vec![proxy("a", "three", 3), proxy("b", "two", 2)]);
    assert_eq!(state.proxies[0].id(), "a");
}

#[test]
fn removing_a_proxy_gives_it_back_and_leaves_the_others() {
    let mut state = State::empty();
    state.set_proxy(proxy("a", "one", 1));
    state.set_proxy(proxy("b", "two", 2));
    assert_eq!(state.remove_proxy("a"), Some(proxy("a", "one", 1)));
    assert_eq!(state.remove_proxy("a"), None);
    assert_eq!(state.proxies, vec![proxy("b", "two", 2)]);
}

#[test]
fn a_state_is_shared_once_it_is_written() {
    let mut next = State::empty();
    next.set_proxy(proxy("a", "one", 1));
    let (shared, told) = settled(State::empty(), next.clone(), true);
    assert_eq!(shared.proxies, next.proxies);
    assert!(told);
    let (shared, told) = settled(State::empty(), next, false);
    assert!(shared.proxies.is_empty());
    assert!(!told);
}

#[test]
fn a_project_given_by_its_id_has_no_organization() {
    let context = SelectedContext::for_project("my-project");
    assert_eq!(context.project_id, "my-project");
    assert_eq!(context.project_name, "my-project");
    assert_eq!(context.org_id, "");
    assert_eq!(context.org_name, "");
    assert_eq!(context.org_type, "");
    assert!(!context.is_personal_org());
    assert!(context.same_as(&SelectedContext::for_project("my-project")));
    assert!(!context.same_as(&SelectedContext::for_project("other")));
}

#[test]
fn invitations_are_for_organizations_that_are_not_personal() {
    let mut context = SelectedContext::for_project("p");
    assert!(!context.can_send_invite());
    context.org_type = "PerSonal".to_string();
    assert!(context.is_personal_org());
    assert!(!context.can_send_invite());
    context.org_type = "team".to_string();
    assert!(!context.is_personal_org());
    assert!(context.can_send_invite());
    context.org_name = "Acme".to_string();
    assert_eq!(context.label(), "Acme / p");
}
