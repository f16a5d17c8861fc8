use pay2wash::model::UserId;
use pay2wash::session::{
    extract_session, ExtractionError, HtmlDocument, LabelSpan, LocationInput, MachineContainer,
    MachineInput, MetaTag, Pay2WashSession,
};

fn meta(content: &str) -> Option<MetaTag> {
    Some(MetaTag {
        content: Some(String::from(content)),
    })
}

fn machine(id: &str, label: &str) -> MachineInput {
    MachineInput {
        value: Some(String::from(id)),
        container: Some(MachineContainer {
            label: Some(LabelSpan {
                first_text: Some(String::from(label)),
            }),
        }),
    }
}

fn authenticated_document() -> HtmlDocument {
    HtmlDocument {
        csrf_meta: meta("csrf-value"),
        user_token_meta: meta("475001"),
        location_input: Some(LocationInput {
            value: Some(String::from("31")),
        }),
        machine_inputs: vec![machine("475", "  W1\n"), machine("476", "W2  ")],
    }
}

#[test]
fn empty_user_token_yields_unauthenticated_with_verbatim_csrf() {
    let doc = HtmlDocument {
        csrf_meta: meta("a csrf token (verbatim)"),
        user_token_meta: meta(""),
        location_input: None,
        machine_inputs: vec![],
    };
    match extract_session(&doc) {
        Ok(Pay2WashSession::Unauthenticated(session)) => {
            assert_eq!(session.csrf_token, "a csrf token (verbatim)");
        }
        other => panic!("expected an unauthenticated session, got {other:?}"),
    }
}

#[test]
fn authenticated_document_yields_both_machine_mappings() {
    match extract_session(&authenticated_document()) {
        Ok(Pay2WashSession::Authenticated(session)) => {
            assert_eq!(session.csrf_token, "csrf-value");
            assert_eq!(session.user_token, UserId(475_001));
            assert_eq!(session.location, "31");
            let mut mappings = session.machine_mappings.clone();
            mappings.sort();
            assert_eq!(
                mappings,
                vec![
                    (String::from("475"), String::from("W1")),
                    (String::from("476"), String::from("W2")),
                ]
            );
        }
        other => panic!("expected an authenticated session, got {other:?}"),
    }
}

#[test]
fn machine_labels_are_trimmed_of_unicode_whitespace() {
    let mut doc = authenticated_document();
    doc.machine_inputs = vec![machine("9", "\u{a0}\t Dryer 2 \u{2003}\n")];
    match extract_session(&doc) {
        Ok(Pay2WashSession::Authenticated(session)) => {
            assert_eq!(
                session.machine_mappings,
                vec![(String::from("9"), String::from("Dryer 2"))]
            );
        }
        other => panic!("expected an authenticated session, got {other:?}"),
    }
}

#[test]
fn missing_csrf_meta_fails() {
    let mut doc = authenticated_document();
    doc.csrf_meta = None;
    assert_eq!(extract_session(&doc), Err(ExtractionError::MissingCsrfMeta));
}

#[test]
fn missing_csrf_content_fails() {
    let mut doc = authenticated_document();
    doc.csrf_meta = Some(MetaTag { content: None });
    assert_eq!(
        extract_session(&doc),
        Err(ExtractionError::MissingCsrfContent)
    );
}

#[test]
fn missing_user_token_meta_fails() {
    let mut doc = authenticated_document();
    doc.user_token_meta = None;
    assert_eq!(
        extract_session(&doc),
        Err(ExtractionError::MissingUserTokenMeta)
    );
}

#[test]
fn missing_user_token_content_fails() {
    let mut doc = authenticated_document();
    doc.user_token_meta = Some(MetaTag { content: None });
    assert_eq!(
        extract_session(&doc),
        Err(ExtractionError::MissingUserTokenContent)
    );
}

#[test]
fn missing_location_fails_when_authenticated() {
    let mut doc = authenticated_document();
    doc.location_input = None;
    assert_eq!(extract_session(&doc), Err(ExtractionError::MissingLocation));
}

#[test]
fn missing_location_value_fails_when_authenticated() {
    let mut doc = authenticated_document();
    doc.location_input = Some(LocationInput { value: None });
    assert_eq!(
        extract_session(&doc),
        Err(ExtractionError::MissingLocationValue)
    );
}

#[test]
fn empty_location_value_fails_when_authenticated() {
    let mut doc = authenticated_document();
    doc.location_input = Some(LocationInput {
        value: Some(String::new()),
    });
    assert_eq!(
        extract_session(&doc),
        Err(ExtractionError::MissingLocationValue)
    );
}

#[test]
fn machine_input_without_value_fails_with_its_position() {
    let mut doc = authenticated_document();
    doc.machine_inputs[1].value = None;
    assert_eq!(
        extract_session(&doc),
        Err(ExtractionError::MissingMachineIdValue { index: 1 })
    );
}

#[test]
fn machine_input_without_container_fails_with_its_position() {
    let mut doc = authenticated_document();
    doc.machine_inputs[0].container = None;
    assert_eq!(
        extract_session(&doc),
        Err(ExtractionError::MissingMachineContainer { index: 0 })
    );
}

#[test]
fn machine_container_without_label_fails_with_its_position() {
    let mut doc = authenticated_document();
    doc.machine_inputs[0].container = Some(MachineContainer { label: None });
    assert_eq!(
        extract_session(&doc),
        Err(ExtractionError::MissingMachineLabel { index: 0 })
    );
}

#[test]
fn machine_label_without_text_fails_with_its_position() {
    let mut doc = authenticated_document();
    doc.machine_inputs[1].container = Some(MachineContainer {
        label: Some(LabelSpan { first_text: None }),
    });
    assert_eq!(
        extract_session(&doc),
        Err(ExtractionError::MissingMachineLabelText { index: 1 })
    );
}

#[test]
fn earliest_machine_failure_wins() {
    let mut doc = authenticated_document();
    doc.machine_inputs[0].value = None;
    doc.machine_inputs[1].container = None;
    assert_eq!(
        extract_session(&doc),
        Err(ExtractionError::MissingMachineIdValue { index: 0 })
    );
}

#[test]
fn repeated_machine_id_keeps_one_entry_with_the_last_name() {
    let mut doc = authenticated_document();
    doc.machine_inputs = vec![
        machine("475", "Old name"),
        machine("476", "W2"),
        machine("475", "New name"),
    ];
    match extract_session(&doc) {
        Ok(Pay2WashSession::Authenticated(session)) => {
            assert_eq!(
                session.machine_mappings,
                vec![
                    (String::from("475"), String::from("New name")),
                    (String::from("476"), String::from("W2")),
                ]
            );
        }
        other => panic!("expected an authenticated session, got {other:?}"),
    }
}

#[test]
fn non_integer_user_token_fails() {
    let mut doc = authenticated_document();
    doc.user_token_meta = meta("12ab");
    assert_eq!(
        extract_session(&doc),
        Err(ExtractionError::MalformedUserToken)
    );
}

#[test]
fn overflowing_user_token_fails() {
    let mut doc = authenticated_document();
    doc.user_token_meta = meta("99999999999999999999");
    assert_eq!(
        extract_session(&doc),
        Err(ExtractionError::MalformedUserToken)
    );
}

#[test]
fn csrf_token_accessor_reads_both_states() {
    let unauthenticated = extract_session(&HtmlDocument {
        csrf_meta: meta("one"),
        user_token_meta: meta(""),
        location_input: None,
        machine_inputs: vec![],
    })
    .unwrap();
    assert_eq!(unauthenticated.csrf_token(), "one");

    let authenticated = extract_session(&authenticated_document()).unwrap();
    assert_eq!(authenticated.csrf_token(), "csrf-value");
}

#[test]
fn machine_name_resolves_known_ids_only() {
    let session = match extract_session(&authenticated_document()) {
        Ok(Pay2WashSession::Authenticated(session)) => session,
        other => panic!("expected an authenticated session, got {other:?}"),
    };
    assert_eq!(
        session.machine_name(&String::from("476")),
        Some(String::from("W2"))
    );
    assert_eq!(session.machine_name(&String::from("999")), None);
}
