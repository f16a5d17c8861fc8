use pay2wash::client::{
    should_stop_redirect, AuthenticatedSessionError, LoginAdvance, Pay2WashClient, StatusError,
    StatusResponse,
};
use pay2wash::model::{
    DecodeError, FromMachineStatusError, MachineState, NumberBool, RawMachineStatus,
    RemainingTime, UserId,
};
use pay2wash::session::{AuthenticatedSession, Pay2WashSession, UnauthenticatedSession};
use pay2wash::strict_types::{Email, Password};

fn client() -> Pay2WashClient {
    Pay2WashClient::new(
        Email::new(String::from("user@example.com")),
        Password::new(String::from("SECRET-REDACTED")),
    )
}

fn session() -> AuthenticatedSession {
    AuthenticatedSession {
        csrf_token: String::from("csrf"),
        user_token: UserId(42),
        location: String::from("31"),
        machine_mappings: vec![
            (String::from("475"), String::from("W1")),
            (String::from("476"), String::from("W2")),
        ],
    }
}

fn running_record() -> RawMachineStatus {
    RawMachineStatus {
        running: true,
        starter: 7,
        reserved: false,
        reserver: 0,
        in_maintenance: 0,
        remaining_time: String::from("1:05"),
        gateway_offline: 0,
        remaining_time_is_from_machine: 1,
        controller_logic: 2,
    }
}

fn response_with(entries: Vec<(String, RawMachineStatus)>) -> StatusResponse {
    StatusResponse {
        status_code: 200,
        body: Ok(entries),
    }
}

#[test]
fn login_form_echoes_csrf_and_credentials() {
    let client = client();
    let fresh = UnauthenticatedSession {
        csrf_token: String::from("token-123"),
    };
    let form = client.login_form(&fresh);
    assert_eq!(form.csrf_token, "token-123");
    assert_eq!(form.email, "user@example.com");
    assert_eq!(form.password.as_str(), "SECRET-REDACTED");
}

#[test]
fn advance_login_short_circuits_a_live_session() {
    let live = session();
    assert_eq!(
        Pay2WashClient::advance_login(Pay2WashSession::Authenticated(live.clone())),
        LoginAdvance::Complete(live)
    );
}

#[test]
fn advance_login_submits_from_a_fresh_session() {
    let fresh = UnauthenticatedSession {
        csrf_token: String::from("t"),
    };
    assert_eq!(
        Pay2WashClient::advance_login(Pay2WashSession::Unauthenticated(fresh.clone())),
        LoginAdvance::MustSubmit(fresh)
    );
}

#[test]
fn finish_authentication_accepts_only_authenticated_pages() {
    let live = session();
    assert_eq!(
        Pay2WashClient::finish_authentication(Pay2WashSession::Authenticated(live.clone())),
        Ok(live)
    );
    assert!(Pay2WashClient::finish_authentication(Pay2WashSession::Unauthenticated(
        UnauthenticatedSession {
            csrf_token: String::from("t"),
        }
    ))
    .is_err());
}

#[test]
fn redirects_stop_at_five_hops_or_on_the_status_endpoint() {
    assert!(should_stop_redirect(5, "/anywhere"));
    assert!(should_stop_redirect(1, "/machine_statuses/31"));
    assert!(!should_stop_redirect(2, "/login"));
    assert!(!should_stop_redirect(4, "/machine_statusesX"));
}

#[test]
fn statuses_resolve_to_display_names_and_states() {
    let client = client();
    let result = client.get_machine_statuses(
        &session(),
        response_with(vec![(String::from("475"), running_record())]),
    );
    let statuses = result.expect("the poll should succeed");
    assert_eq!(statuses.len(), 1);
    assert_eq!(statuses[0].0, "W1");
    assert_eq!(
        statuses[0].1.state,
        MachineState::Running {
            starter: UserId(7),
            remaining_time: RemainingTime(3900),
            remaining_time_is_from_machine: NumberBool::True,
        }
    );
    assert_eq!(statuses[0].1.raw.controller_logic, 2);
}

#[test]
fn redirect_yields_bad_session_even_with_a_broken_body() {
    let client = client();
    for code in [300u16, 301, 302, 307, 399] {
        let response = StatusResponse {
            status_code: code,
            body: Err(String::from("any transport complaint")),
        };
        assert_eq!(
            client.get_machine_statuses(&session(), response),
            Err(AuthenticatedSessionError::BadSession)
        );
    }
}

#[test]
fn redirect_yields_bad_session_even_with_a_parsed_body() {
    let client = client();
    let response = StatusResponse {
        status_code: 302,
        body: Ok(vec![(String::from("475"), running_record())]),
    };
    assert_eq!(
        client.get_machine_statuses(&session(), response),
        Err(AuthenticatedSessionError::BadSession)
    );
}

#[test]
fn malformed_body_is_a_fatal_poll_error() {
    let client = client();
    let response = StatusResponse {
        status_code: 200,
        body: Err(String::from("not a JSON object")),
    };
    assert_eq!(
        client.get_machine_statuses(&session(), response),
        Err(AuthenticatedSessionError::Other(
            StatusError::MalformedBody {
                message: String::from("not a JSON object"),
            }
        ))
    );
}

#[test]
fn unmapped_machine_id_fails_the_poll() {
    let client = client();
    let result = client.get_machine_statuses(
        &session(),
        response_with(vec![(String::from("999"), running_record())]),
    );
    assert_eq!(
        result,
        Err(AuthenticatedSessionError::Other(
            StatusError::UnknownMachineId {
                machine_id: String::from("999"),
            }
        ))
    );
}

#[test]
fn undecodable_record_fails_the_poll_with_its_machine_id() {
    let client = client();
    let mut record = running_record();
    record.in_maintenance = 999;
    let result = client.get_machine_statuses(
        &session(),
        response_with(vec![(String::from("476"), record)]),
    );
    assert_eq!(
        result,
        Err(AuthenticatedSessionError::Other(StatusError::Decode {
            machine_id: String::from("476"),
            error: DecodeError::TriBoolOutOfRange(999),
        }))
    );
}

#[test]
fn contradictory_record_fails_the_poll_with_its_machine_id() {
    let client = client();
    let mut record = running_record();
    record.reserved = true;
    let result = client.get_machine_statuses(
        &session(),
        response_with(vec![(String::from("475"), record)]),
    );
    assert_eq!(
        result,
        Err(AuthenticatedSessionError::Other(StatusError::BadState {
            machine_id: String::from("475"),
            error: FromMachineStatusError::BadInvariant {
                running: true,
                reserved: true,
                in_maintenance: NumberBool::False,
            },
        }))
    );
}

#[test]
fn first_failing_record_decides_the_poll_error() {
    let client = client();
    let mut broken = running_record();
    broken.in_maintenance = 400;
    let result = client.get_machine_statuses(
        &session(),
        response_with(vec![
            (String::from("475"), running_record()),
            (String::from("999"), running_record()),
            (String::from("476"), broken),
        ]),
    );
    assert_eq!(
        result,
        Err(AuthenticatedSessionError::Other(
            StatusError::UnknownMachineId {
                machine_id: String::from("999"),
            }
        ))
    );
}

#[test]
fn every_valid_record_is_reported_in_feed_order() {
    let client = client();
    let mut idle = running_record();
    idle.running = false;
    idle.remaining_time = String::from("0:00");
    let result = client.get_machine_statuses(
        &session(),
        response_with(vec![
            (String::from("476"), idle),
            (String::from("475"), running_record()),
        ]),
    );
    let statuses = result.expect("the poll should succeed");
    assert_eq!(statuses.len(), 2);
    assert_eq!(statuses[0].0, "W2");
    assert_eq!(statuses[0].1.state, MachineState::Idle);
    assert_eq!(statuses[1].0, "W1");
}
