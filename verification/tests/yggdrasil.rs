use oxide_launcher::error::{Error, TransportError};
use oxide_launcher::yggdrasil::{Authenticate, Invalidate, Refresh, SignOut, Validate};

fn transport_failure() -> Result<String, TransportError> {
    Err(TransportError { message: "HTTP 403".to_string() })
}

#[test]
fn authenticate_body_has_agent_block_and_fields() {
    let req = Authenticate::new("alice@example.com", "hunter2");
    let body = req.request_body();
    assert!(body.contains("\"agent\":{\"name\":\"Minecraft\",\"version\":1}"));
    assert!(body.contains("\"username\":\"alice@example.com\""));
    assert!(body.contains("\"password\":\"hunter2\""));
    assert!(body.contains("\"clientToken\":null"));
    assert!(body.contains("\"requestUser\":false"));
}

#[test]
fn authenticate_body_exact() {
    let req = Authenticate::new("alice", "secret");
    assert_eq!(
        req.request_body(),
        "{\"agent\":{\"name\":\"Minecraft\",\"version\":1},\"clientToken\":null,\
         \"password\":\"secret\",\"requestUser\":false,\"username\":\"alice\"}"
    );
}

#[test]
fn refresh_body_has_all_fields() {
    let req = Refresh::new("AT", "CT", true);
    let body = req.request_body();
    assert_eq!(
        body,
        "{\"accessToken\":\"AT\",\"clientToken\":\"CT\",\"requestUser\":true}"
    );
}

#[test]
fn validate_body_with_and_without_client_token() {
    let with = Validate::new("AT", Some("CT".to_string()));
    assert_eq!(
        with.request_body(),
        "{\"accessToken\":\"AT\",\"clientToken\":\"CT\"}"
    );
    let without = Validate::new("AT", None);
    assert_eq!(
        without.request_body(),
        "{\"accessToken\":\"AT\",\"clientToken\":null}"
    );
}

#[test]
fn sign_out_body() {
    let req = SignOut::new("alice", "hunter2");
    assert_eq!(
        req.request_body(),
        "{\"password\":\"hunter2\",\"username\":\"alice\"}"
    );
}

#[test]
fn invalidate_body() {
    let req = Invalidate::new("AT", "CT");
    assert_eq!(
        req.request_body(),
        "{\"accessToken\":\"AT\",\"clientToken\":\"CT\"}"
    );
}

#[test]
fn endpoints_are_fixed() {
    assert_eq!(
        Authenticate::get_endpoint(),
        "https://authserver.mojang.com/authenticate"
    );
    assert_eq!(Refresh::get_endpoint(), "https://authserver.mojang.com/refresh");
    assert_eq!(Validate::get_endpoint(), "https://authserver.mojang.com/validate");
    assert_eq!(SignOut::get_endpoint(), "https://authserver.mojang.com/signout");
    assert_eq!(
        Invalidate::get_endpoint(),
        "https://authserver.mojang.com/invalidate"
    );
}

#[test]
fn response_without_optional_fields_decodes() {
    let body = "{\"accessToken\":\"AT\",\"selectedProfile\":{\"id\":\"abc123\",\"name\":\"Steve\"}}";
    let resp = Authenticate::process_response(Ok(body.to_string())).unwrap();
    assert_eq!(resp.access_token, "AT");
    assert!(resp.client_token.is_none());
    assert!(resp.available_profiles.is_none());
    assert_eq!(resp.selected_profile.id, "abc123");
    assert_eq!(resp.selected_profile.name, "Steve");
}

#[test]
fn response_without_selected_profile_fails() {
    let body = "{\"accessToken\":\"AT\",\"clientToken\":\"CT\"}";
    let r = Authenticate::process_response(Ok(body.to_string()));
    assert!(matches!(r, Err(Error::Decode)));
}

#[test]
fn response_that_is_not_json_fails() {
    let r = Refresh::process_response(Ok("not json".to_string()));
    assert!(matches!(r, Err(Error::Decode)));
}

#[test]
fn profile_flags_default_to_false() {
    let body = "{\"accessToken\":\"AT\",\"selectedProfile\":{\"id\":\"abc123\",\"name\":\"Steve\"}}";
    let resp = Refresh::process_response(Ok(body.to_string())).unwrap();
    assert!(!resp.selected_profile.legacy);
    assert!(!resp.selected_profile.demo);
}

#[test]
fn profile_flags_are_read_when_present() {
    let body = "{\"accessToken\":\"AT\",\"selectedProfile\":\
                {\"id\":\"abc123\",\"name\":\"Steve\",\"legacy\":true,\"demo\":true}}";
    let resp = Authenticate::process_response(Ok(body.to_string())).unwrap();
    assert!(resp.selected_profile.legacy);
    assert!(resp.selected_profile.demo);
}

#[test]
fn available_profiles_keep_their_order() {
    let body = "{\"accessToken\":\"AT\",\
                \"availableProfiles\":[\
                {\"id\":\"id1\",\"name\":\"One\"},\
                {\"id\":\"id2\",\"name\":\"Two\"}],\
                \"selectedProfile\":{\"id\":\"id1\",\"name\":\"One\"}}";
    let resp = Authenticate::process_response(Ok(body.to_string())).unwrap();
    let profiles = resp.available_profiles.unwrap();
    assert_eq!(profiles.len(), 2);
    assert_eq!(profiles[0].id, "id1");
    assert_eq!(profiles[0].name, "One");
    assert_eq!(profiles[1].id, "id2");
    assert_eq!(profiles[1].name, "Two");
}

#[test]
fn bad_profile_in_list_fails_decode() {
    let body = "{\"accessToken\":\"AT\",\
                \"availableProfiles\":[{\"id\":\"id1\"}],\
                \"selectedProfile\":{\"id\":\"id1\",\"name\":\"One\"}}";
    let r = Authenticate::process_response(Ok(body.to_string()));
    assert!(matches!(r, Err(Error::Decode)));
}

#[test]
fn wrong_type_for_access_token_fails() {
    let body = "{\"accessToken\":7,\"selectedProfile\":{\"id\":\"a\",\"name\":\"S\"}}";
    let r = Authenticate::process_response(Ok(body.to_string()));
    assert!(matches!(r, Err(Error::Decode)));
}

#[test]
fn empty_operations_succeed_on_successful_transport() {
    assert!(Validate::process_response(Ok(String::new())).is_ok());
    assert!(SignOut::process_response(Ok(String::new())).is_ok());
    assert!(Invalidate::process_response(Ok(String::new())).is_ok());
}

#[test]
fn transport_failure_surfaces_on_every_operation() {
    match Authenticate::process_response(transport_failure()) {
        Err(Error::Transport(t)) => assert_eq!(t.message, "HTTP 403"),
        _ => panic!("expected a transport error"),
    }
    match Refresh::process_response(transport_failure()) {
        Err(Error::Transport(t)) => assert_eq!(t.message, "HTTP 403"),
        _ => panic!("expected a transport error"),
    }
    match Validate::process_response(transport_failure()) {
        Err(Error::Transport(t)) => assert_eq!(t.message, "HTTP 403"),
        _ => panic!("expected a transport error"),
    }
    match SignOut::process_response(transport_failure()) {
        Err(Error::Transport(t)) => assert_eq!(t.message, "HTTP 403"),
        _ => panic!("expected a transport error"),
    }
    match Invalidate::process_response(transport_failure()) {
        Err(Error::Transport(t)) => assert_eq!(t.message, "HTTP 403"),
        _ => panic!("expected a transport error"),
    }
}

#[test]
fn unknown_fields_are_ignored_even_with_odd_numbers() {
    let body = "{\"accessToken\":\"AT\",\"user\":{\"id\":\"u1\"},\"score\":-1.5,\
                \"selectedProfile\":{\"id\":\"a\",\"name\":\"S\",\"rank\":2.75}}";
    let resp = Authenticate::process_response(Ok(body.to_string())).unwrap();
    assert_eq!(resp.access_token, "AT");
    assert_eq!(resp.selected_profile.id, "a");
}

#[test]
fn available_profiles_null_decodes_as_absent() {
    let body = "{\"accessToken\":\"AT\",\"availableProfiles\":null,\
                \"selectedProfile\":{\"id\":\"a\",\"name\":\"S\"}}";
    let resp = Authenticate::process_response(Ok(body.to_string())).unwrap();
    assert!(resp.available_profiles.is_none());
}

#[test]
fn client_token_null_decodes_as_absent() {
    let body = "{\"accessToken\":\"AT\",\"clientToken\":null,\
                \"selectedProfile\":{\"id\":\"a\",\"name\":\"S\"}}";
    let resp = Authenticate::process_response(Ok(body.to_string())).unwrap();
    assert!(resp.client_token.is_none());
}
