use warden::client::{
    after_receive, after_send, command_request, communication_failed, connection_failed, handle_error_response,
    interpret_response, prompt_words,
    Command, CommandError, Reply, WardenClientError,
};
use warden::protocol::{
    ApplicationConfig, RealmDescription, State, WardenCommand, WardenDaemonError, WardenResponse,
};

const REALM: &str = "67e55044-10b1-426f-9247-bb680e5fe0c8";
const REALM_ID: u128 = 0x67e55044_10b1_426f_9247_bb680e5fe0c8;
const APP: &str = "a1a2a3a4-b1b2-c1c2-d1d2-d3d4d5d6d7d8";
const APP_ID: u128 = 0xa1a2a3a4_b1b2_c1c2_d1d2_d3d4d5d6d7d8;

#[test]
fn handle_warden_error_response() {
    let warden_response = WardenResponse::Error {
        warden_error: WardenDaemonError::UnknownCommand,
    };
    let result = match handle_error_response(warden_response) {
        WardenClientError::WardenOperationFail(_) => Ok(()),
        _ => Err(()),
    };
    assert!(result.is_ok());
}

#[test]
fn handle_other_warden_response() {
    let warden_response = WardenResponse::Success;
    let result = match handle_error_response(warden_response) {
        WardenClientError::InvalidResponse { response: _ } => Ok(()),
        _ => Err(()),
    };
    assert!(result.is_ok());
}

#[test]
fn identifiers_become_uuids() {
    assert_eq!(
        command_request(Command::StartRealm { id: REALM.to_string() }),
        Ok(WardenCommand::StartRealm { uuid: REALM_ID })
    );
    assert_eq!(
        command_request(Command::StopApplication { application_id: APP.to_string(), realm_id: REALM.to_string() }),
        Ok(WardenCommand::StopApplication { realm_uuid: REALM_ID, application_uuid: APP_ID })
    );
    assert_eq!(command_request(Command::ListRealms), Ok(WardenCommand::ListRealms));
}

#[test]
fn a_bad_identifier_is_refused_realm_first() {
    assert_eq!(
        command_request(Command::InspectRealm { id: "not-a-uuid".to_string() }),
        Err(CommandError::InvalidUuid("not-a-uuid".to_string()))
    );
    assert_eq!(
        command_request(Command::StartApplication { application_id: "bad-app".to_string(), realm_id: "bad-realm".to_string() }),
        Err(CommandError::InvalidUuid("bad-realm".to_string()))
    );
    assert_eq!(
        command_request(Command::StartApplication { application_id: "bad-app".to_string(), realm_id: REALM.to_string() }),
        Err(CommandError::InvalidUuid("bad-app".to_string()))
    );
}

#[test]
fn application_configuration_is_passed_on() {
    let r = command_request(Command::CreateApplication {
        realm_id: REALM.to_string(),
        name: "app_test".to_string(),
        version: "0.0.1".to_string(),
        image_registry: "https://github.com/islet-project/realm-manager".to_string(),
        image_storage_size_mb: 128,
        data_storage_size_mb: 128,
    });
    assert_eq!(
        r,
        Ok(WardenCommand::CreateApplication {
            realm_uuid: REALM_ID,
            config: ApplicationConfig {
                name: "app_test".to_string(),
                version: "0.0.1".to_string(),
                image_registry: "https://github.com/islet-project/realm-manager".to_string(),
                image_storage_size_mb: 128,
                data_storage_size_mb: 128,
            },
        })
    );
}

#[test]
fn fitting_answers_give_their_replies() {
    let create = command_request(Command::ListRealms).unwrap();
    assert_eq!(
        interpret_response(&create, WardenResponse::ListedRealms { realms_description: vec![] }),
        Ok(Reply::Descriptions(vec![]))
    );
    let start = WardenCommand::StartRealm { uuid: REALM_ID };
    assert_eq!(interpret_response(&start, WardenResponse::Success), Ok(Reply::Done));
    let inspect = WardenCommand::InspectRealm { uuid: REALM_ID };
    let description = RealmDescription { uuid: REALM_ID, state: State::Halted, applications: vec![], network: vec![] };
    assert_eq!(
        interpret_response(&inspect, WardenResponse::InspectedRealm { description }),
        Ok(Reply::Description(RealmDescription {
            uuid: REALM_ID,
            state: State::Halted,
            applications: vec![],
            network: vec![]
        }))
    );
    let create_app = WardenCommand::CreateApplication {
        realm_uuid: REALM_ID,
        config: ApplicationConfig {
            name: String::new(),
            version: String::new(),
            image_registry: String::new(),
            image_storage_size_mb: 1,
            data_storage_size_mb: 1,
        },
    };
    assert_eq!(
        interpret_response(&create_app, WardenResponse::CreatedApplication { uuid: APP_ID }),
        Ok(Reply::Uuid(APP_ID))
    );
}

#[test]
fn unfitting_answers_are_errors() {
    let start = WardenCommand::StartRealm { uuid: REALM_ID };
    assert_eq!(
        interpret_response(&start, WardenResponse::CreatedRealm { uuid: 5 }),
        Err(WardenClientError::InvalidResponse { response: WardenResponse::CreatedRealm { uuid: 5 } })
    );
    assert_eq!(
        interpret_response(&start, WardenResponse::Error { warden_error: WardenDaemonError::UnknownCommand }),
        Err(WardenClientError::WardenOperationFail(WardenDaemonError::UnknownCommand))
    );
    assert_eq!(
        interpret_response(&WardenCommand::ListRealms, WardenResponse::Success),
        Err(WardenClientError::InvalidResponse { response: WardenResponse::Success })
    );
}

#[test]
fn transport_errors() {
    assert_eq!(
        connection_failed("/tmp/x".to_string(), "refused".to_string()),
        WardenClientError::ConnectionFailed { socket_path: "/tmp/x".to_string(), details: "refused".to_string() }
    );
    assert_eq!(communication_failed("eof".to_string()), WardenClientError::CommunicationFail("eof".to_string()));
}

#[test]
fn a_failed_send_or_receive_is_a_communication_failure() {
    assert_eq!(after_send(Ok(())), Ok(()));
    assert_eq!(
        after_send(Err("broken pipe".to_string())),
        Err(WardenClientError::CommunicationFail("broken pipe".to_string()))
    );
    let start = WardenCommand::StartRealm { uuid: REALM_ID };
    assert_eq!(
        after_receive(&start, Err("eof".to_string())),
        Err(WardenClientError::CommunicationFail("eof".to_string()))
    );
    assert_eq!(after_receive(&start, Ok(WardenResponse::Success)), Ok(Reply::Done));
    assert_eq!(
        after_receive(&start, Ok(WardenResponse::ListedRealms { realms_description: vec![] })),
        Err(WardenClientError::InvalidResponse { response: WardenResponse::ListedRealms { realms_description: vec![] } })
    );
}

#[test]
fn prompt_lines_are_split_as_a_shell_splits_them() {
    assert_eq!(
        prompt_words("  start-realm --id 'a b'\n"),
        Some(vec!["start-realm".to_string(), "--id".to_string(), "a b".to_string()])
    );
    assert_eq!(prompt_words("list-realms"), Some(vec!["list-realms".to_string()]));
    assert_eq!(prompt_words(" \t\n"), Some(vec![]));
    assert_eq!(prompt_words("stop-realm --id \"unclosed"), None);
}
