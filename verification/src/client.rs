//! The warden's command-line client: turning a typed command into a request
//! for the daemon, and interpreting the daemon's answer to a request.
use vstd::prelude::*;
use crate::protocol::{
    ApplicationConfig, CpuConfig, KernelConfig, MemoryConfig, NetworkConfig, RealmConfig,
    RealmDescription, WardenCommand, WardenDaemonError, WardenResponse,
};
use crate::uuids::{parse_uuid, uuid_parse};
use crate::text::{trim, trimmed};
use crate::vm::texts;

verus! {

/// A command typed at the client's prompt.
#[derive(Debug, PartialEq, Eq)]
pub enum Command {
    CreateRealm {
        cpu: String,
        machine: String,
        core_count: usize,
        ram_size: usize,
        tap_device: String,
        mac_address: String,
        network_device: Option<String>,
        remote_terminal_uri: Option<String>,
        kernel_initramfs: Option<String>,
        kernel_options: Option<String>,
        kernel: String,
        vsock_cid: u32,
    },
    ListRealms,
    StartRealm { id: String },
    InspectRealm { id: String },
    StopRealm { id: String },
    RebootRealm { id: String },
    DestroyRealm { id: String },
    CreateApplication {
        realm_id: String,
        name: String,
        version: String,
        image_registry: String,
        image_storage_size_mb: u32,
        data_storage_size_mb: u32,
    },
    StartApplication { application_id: String, realm_id: String },
    StopApplication { application_id: String, realm_id: String },
    UpdateApplication {
        application_id: String,
        realm_id: String,
        name: String,
        version: String,
        image_registry: String,
        image_storage_size_mb: u32,
        data_storage_size_mb: u32,
    },
}

/// The parsed prompt line: the command it holds.
#[derive(Debug, PartialEq, Eq)]
pub struct CmdParser {
    pub command: Command,
}

/// The words `shlex::split` makes of a line, as a POSIX shell splits it, or
/// nothing when the line has an unclosed quote or a trailing escape.
pub uninterp spec fn shell_words(line: Seq<char>) -> Option<Seq<Seq<char>>>;

/// Splits `line` into words through `shlex::split`; the contract names the
/// result.
#[verifier::external_body]
fn split_shell_words(line: &str) -> (r: Option<Vec<String>>)
    ensures
        match r {
            Some(v) => shell_words(line@) == Some(texts(v@)),
            None => shell_words(line@) is None,
        },
{
    shlex::split(line)
}

/// The words of a line typed at the prompt: the line without its leading
/// and trailing white space, split as a shell splits it; nothing when it
/// cannot be split.
pub fn prompt_words(line: &str) -> (r: Option<Vec<String>>)
    ensures
        match r {
            Some(v) => shell_words(trimmed(line@)) == Some(texts(v@)),
            None => shell_words(trimmed(line@)) is None,
        },
{
    split_shell_words(trim(line))
}

/// Why a command could not become a request.
#[derive(Debug, PartialEq, Eq)]
pub enum CommandError {
    /// The text is not a UUID.
    InvalidUuid(String),
}

/// Parsing one identifier of a command.
pub open spec fn spec_id(text: String) -> Result<u128, Seq<char>> {
    match uuid_parse(text@) {
        Some(u) => Ok(u),
        None => Err(text@),
    }
}

/// Whether `r` is the failure of parsing `text`.
pub open spec fn is_invalid_uuid<T>(r: Result<T, CommandError>, text: String) -> bool {
    r matches Err(CommandError::InvalidUuid(t)) && t@ == text@
}

/// Whether `r` is the request `cmd` for the command whose identifiers
/// parse: the first identifier that does not parse (the realm's before the
/// application's) is the error.
pub open spec fn request_of_command(cmd: Command, r: Result<WardenCommand, CommandError>) -> bool {
    match cmd {
        Command::CreateRealm {
            cpu,
            machine,
            core_count,
            ram_size,
            tap_device,
            mac_address,
            network_device,
            remote_terminal_uri,
            kernel_initramfs,
            kernel_options,
            kernel,
            vsock_cid,
        } => r == Ok::<WardenCommand, CommandError>(
            WardenCommand::CreateRealm {
                config: RealmConfig {
                    machine,
                    cpu: CpuConfig { cpu, cores_number: core_count },
                    memory: MemoryConfig { ram_size },
                    network: NetworkConfig {
                        vsock_cid,
                        tap_device,
                        mac_address,
                        hardware_device: network_device,
                        remote_terminal_uri,
                    },
                    kernel: KernelConfig {
                        kernel_path: kernel,
                        kernel_initramfs_path: kernel_initramfs,
                        kernel_cmd_params: kernel_options,
                    },
                },
            },
        ),
        Command::ListRealms => r == Ok::<WardenCommand, CommandError>(WardenCommand::ListRealms),
        Command::StartRealm { id } => match spec_id(id) {
            Ok(u) => r == Ok::<WardenCommand, CommandError>(WardenCommand::StartRealm { uuid: u }),
            Err(_) => is_invalid_uuid(r, id),
        },
        Command::InspectRealm { id } => match spec_id(id) {
            Ok(u) => r == Ok::<WardenCommand, CommandError>(WardenCommand::InspectRealm { uuid: u }),
            Err(_) => is_invalid_uuid(r, id),
        },
        Command::StopRealm { id } => match spec_id(id) {
            Ok(u) => r == Ok::<WardenCommand, CommandError>(WardenCommand::StopRealm { uuid: u }),
            Err(_) => is_invalid_uuid(r, id),
        },
        Command::RebootRealm { id } => match spec_id(id) {
            Ok(u) => r == Ok::<WardenCommand, CommandError>(WardenCommand::RebootRealm { uuid: u }),
            Err(_) => is_invalid_uuid(r, id),
        },
        Command::DestroyRealm { id } => match spec_id(id) {
            Ok(u) => r == Ok::<WardenCommand, CommandError>(WardenCommand::DestroyRealm { uuid: u }),
            Err(_) => is_invalid_uuid(r, id),
        },
        Command::CreateApplication {
            realm_id,
            name,
            version,
            image_registry,
            image_storage_size_mb,
            data_storage_size_mb,
        } => match spec_id(realm_id) {
            Ok(u) => r == Ok::<WardenCommand, CommandError>(
                WardenCommand::CreateApplication {
                    realm_uuid: u,
                    config: ApplicationConfig {
                        name,
                        version,
                        image_registry,
                        image_storage_size_mb,
                        data_storage_size_mb,
                    },
                },
            ),
            Err(_) => is_invalid_uuid(r, realm_id),
        },
        Command::StartApplication { application_id, realm_id } => match spec_id(realm_id) {
            Err(_) => is_invalid_uuid(r, realm_id),
            Ok(ru) => match spec_id(application_id) {
                Err(_) => is_invalid_uuid(r, application_id),
                Ok(au) => r == Ok::<WardenCommand, CommandError>(
                    WardenCommand::StartApplication { realm_uuid: ru, application_uuid: au },
                ),
            },
        },
        Command::StopApplication { application_id, realm_id } => match spec_id(realm_id) {
            Err(_) => is_invalid_uuid(r, realm_id),
            Ok(ru) => match spec_id(application_id) {
                Err(_) => is_invalid_uuid(r, application_id),
                Ok(au) => r == Ok::<WardenCommand, CommandError>(
                    WardenCommand::StopApplication { realm_uuid: ru, application_uuid: au },
                ),
            },
        },
        Command::UpdateApplication {
            application_id,
            realm_id,
            name,
            version,
            image_registry,
            image_storage_size_mb,
            data_storage_size_mb,
        } => match spec_id(realm_id) {
            Err(_) => is_invalid_uuid(r, realm_id),
            Ok(ru) => match spec_id(application_id) {
                Err(_) => is_invalid_uuid(r, application_id),
                Ok(au) => r == Ok::<WardenCommand, CommandError>(
                    WardenCommand::UpdateApplication {
                        realm_uuid: ru,
                        application_uuid: au,
                        config: ApplicationConfig {
                            name,
                            version,
                            image_registry,
                            image_storage_size_mb,
                            data_storage_size_mb,
                        },
                    },
                ),
            },
        },
    }
}

fn parse_id(text: String) -> (r: Result<u128, CommandError>)
    ensures
        match spec_id(text) {
            Ok(u) => r == Ok::<u128, CommandError>(u),
            Err(_) => is_invalid_uuid(r, text),
        },
{
    match parse_uuid(text.as_str()) {
        Some(u) => Ok(u),
        None => Err(CommandError::InvalidUuid(text)),
    }
}

/// Whether request `req` is of the kind that command `cmd` names.
pub open spec fn same_kind(cmd: Command, req: WardenCommand) -> bool {
    match cmd {
        Command::CreateRealm { .. } => req is CreateRealm,
        Command::ListRealms => req is ListRealms,
        Command::StartRealm { .. } => req is StartRealm,
        Command::InspectRealm { .. } => req is InspectRealm,
        Command::StopRealm { .. } => req is StopRealm,
        Command::RebootRealm { .. } => req is RebootRealm,
        Command::DestroyRealm { .. } => req is DestroyRealm,
        Command::CreateApplication { .. } => req is CreateApplication,
        Command::StartApplication { .. } => req is StartApplication,
        Command::StopApplication { .. } => req is StopApplication,
        Command::UpdateApplication { .. } => req is UpdateApplication,
    }
}

/// The text that names the realm in a command, if it names one.
pub open spec fn command_realm_text(cmd: Command) -> Option<Seq<char>> {
    match cmd {
        Command::StartRealm { id } => Some(id@),
        Command::InspectRealm { id } => Some(id@),
        Command::StopRealm { id } => Some(id@),
        Command::RebootRealm { id } => Some(id@),
        Command::DestroyRealm { id } => Some(id@),
        Command::CreateApplication { realm_id, .. } => Some(realm_id@),
        Command::StartApplication { realm_id, .. } => Some(realm_id@),
        Command::StopApplication { realm_id, .. } => Some(realm_id@),
        Command::UpdateApplication { realm_id, .. } => Some(realm_id@),
        _ => None,
    }
}

/// The text that names the application in a command, if it names one.
pub open spec fn command_application_text(cmd: Command) -> Option<Seq<char>> {
    match cmd {
        Command::StartApplication { application_id, .. } => Some(application_id@),
        Command::StopApplication { application_id, .. } => Some(application_id@),
        Command::UpdateApplication { application_id, .. } => Some(application_id@),
        _ => None,
    }
}

/// The realm a request is about, if it is about one.
pub open spec fn request_realm(req: WardenCommand) -> Option<u128> {
    match req {
        WardenCommand::StartRealm { uuid } => Some(uuid),
        WardenCommand::StopRealm { uuid } => Some(uuid),
        WardenCommand::RebootRealm { uuid } => Some(uuid),
        WardenCommand::DestroyRealm { uuid } => Some(uuid),
        WardenCommand::InspectRealm { uuid } => Some(uuid),
        WardenCommand::CreateApplication { realm_uuid, .. } => Some(realm_uuid),
        WardenCommand::UpdateApplication { realm_uuid, .. } => Some(realm_uuid),
        WardenCommand::StartApplication { realm_uuid, .. } => Some(realm_uuid),
        WardenCommand::StopApplication { realm_uuid, .. } => Some(realm_uuid),
        _ => None,
    }
}

/// The application a request is about, if it is about one.
pub open spec fn request_application(req: WardenCommand) -> Option<u128> {
    match req {
        WardenCommand::UpdateApplication { application_uuid, .. } => Some(application_uuid),
        WardenCommand::StartApplication { application_uuid, .. } => Some(application_uuid),
        WardenCommand::StopApplication { application_uuid, .. } => Some(application_uuid),
        _ => None,
    }
}

/// Whether the text of an identifier, if there is one, is a UUID.
pub open spec fn parses(text: Option<Seq<char>>) -> bool {
    text matches Some(t) ==> uuid_parse(t) is Some
}

/// Each command becomes the request of the kind it names, about the realm
/// and the application its identifiers name, with the configuration given to
/// it; it is refused exactly when an identifier is no UUID, with the realm's
/// identifier checked first.
pub proof fn law_command_becomes_its_request(cmd: Command, r: Result<WardenCommand, CommandError>)
    requires
        request_of_command(cmd, r),
    ensures
        r is Ok <==> parses(command_realm_text(cmd)) && parses(command_application_text(cmd)),
        r matches Ok(req) ==> {
            &&& same_kind(cmd, req)
            &&& request_realm(req) == (match command_realm_text(cmd) {
                Some(t) => uuid_parse(t),
                None => None::<u128>,
            })
            &&& request_application(req) == (match command_application_text(cmd) {
                Some(t) => uuid_parse(t),
                None => None::<u128>,
            })
        },
        !parses(command_realm_text(cmd)) ==> (r matches Err(CommandError::InvalidUuid(t))
            && Some(t@) == command_realm_text(cmd)),
        parses(command_realm_text(cmd)) && !parses(command_application_text(cmd)) ==> (r matches Err(
            CommandError::InvalidUuid(t),
        ) && Some(t@) == command_application_text(cmd)),
        cmd matches Command::CreateRealm {
            cpu,
            machine,
            core_count,
            ram_size,
            tap_device,
            mac_address,
            network_device,
            remote_terminal_uri,
            kernel_initramfs,
            kernel_options,
            kernel,
            vsock_cid,
        } ==> (r matches Ok(WardenCommand::CreateRealm { config }) && config.machine == machine
            && config.cpu.cpu == cpu && config.cpu.cores_number == core_count && config.memory.ram_size
            == ram_size && config.network.tap_device == tap_device && config.network.mac_address
            == mac_address && config.network.hardware_device == network_device
            && config.network.remote_terminal_uri == remote_terminal_uri && config.network.vsock_cid
            == vsock_cid && config.kernel.kernel_path == kernel && config.kernel.kernel_initramfs_path
            == kernel_initramfs && config.kernel.kernel_cmd_params == kernel_options),
        r matches Ok(WardenCommand::CreateApplication { config, .. }) ==> (cmd matches Command::CreateApplication {
            name,
            version,
            image_registry,
            image_storage_size_mb,
            data_storage_size_mb,
            ..
        } && config.name == name && config.version == version && config.image_registry == image_registry
            && config.image_storage_size_mb == image_storage_size_mb && config.data_storage_size_mb
            == data_storage_size_mb),
        r matches Ok(WardenCommand::UpdateApplication { config, .. }) ==> (cmd matches Command::UpdateApplication {
            name,
            version,
            image_registry,
            image_storage_size_mb,
            data_storage_size_mb,
            ..
        } && config.name == name && config.version == version && config.image_registry == image_registry
            && config.image_storage_size_mb == image_storage_size_mb && config.data_storage_size_mb
            == data_storage_size_mb),
{
}

/// The request to the daemon for a typed command: the configuration given
/// to `CreateRealm` or `CreateApplication`/`UpdateApplication` is passed on
/// as it is; identifiers are parsed as UUIDs.
pub fn command_request(command: Command) -> (r: Result<WardenCommand, CommandError>)
    ensures
        request_of_command(command, r),
{
    match command {
        Command::CreateRealm {
            cpu,
            machine,
            core_count,
            ram_size,
            tap_device,
            mac_address,
            network_device,
            remote_terminal_uri,
            kernel_initramfs,
            kernel_options,
            kernel,
            vsock_cid,
        } => Ok(
            WardenCommand::CreateRealm {
                config: RealmConfig {
                    machine,
                    cpu: CpuConfig { cpu, cores_number: core_count },
                    memory: MemoryConfig { ram_size },
                    network: NetworkConfig {
                        vsock_cid,
                        tap_device,
                        mac_address,
                        hardware_device: network_device,
                        remote_terminal_uri,
                    },
                    kernel: KernelConfig {
                        kernel_path: kernel,
                        kernel_initramfs_path: kernel_initramfs,
                        kernel_cmd_params: kernel_options,
                    },
                },
            },
        ),
        Command::ListRealms => Ok(WardenCommand::ListRealms),
        Command::StartRealm { id } => match parse_id(id) {
            Ok(uuid) => Ok(WardenCommand::StartRealm { uuid }),
            Err(e) => Err(e),
        },
        Command::InspectRealm { id } => match parse_id(id) {
            Ok(uuid) => Ok(WardenCommand::InspectRealm { uuid }),
            Err(e) => Err(e),
        },
        Command::StopRealm { id } => match parse_id(id) {
            Ok(uuid) => Ok(WardenCommand::StopRealm { uuid }),
            Err(e) => Err(e),
        },
        Command::RebootRealm { id } => match parse_id(id) {
            Ok(uuid) => Ok(WardenCommand::RebootRealm { uuid }),
            Err(e) => Err(e),
        },
        Command::DestroyRealm { id } => match parse_id(id) {
            Ok(uuid) => Ok(WardenCommand::DestroyRealm { uuid }),
            Err(e) => Err(e),
        },
        Command::CreateApplication {
            realm_id,
            name,
            version,
            image_registry,
            image_storage_size_mb,
            data_storage_size_mb,
        } => match parse_id(realm_id) {
            Ok(realm_uuid) => Ok(
                WardenCommand::CreateApplication {
                    realm_uuid,
                    config: ApplicationConfig {
                        name,
                        version,
                        image_registry,
                        image_storage_size_mb,
                        data_storage_size_mb,
                    },
                },
            ),
            Err(e) => Err(e),
        },
        Command::StartApplication { application_id, realm_id } => {
            let realm_uuid = match parse_id(realm_id) {
                Ok(u) => u,
                Err(e) => return Err(e),
            };
            match parse_id(application_id) {
                Ok(application_uuid) => Ok(
                    WardenCommand::StartApplication { realm_uuid, application_uuid },
                ),
                Err(e) => Err(e),
            }
        },
        Command::StopApplication { application_id, realm_id } => {
            let realm_uuid = match parse_id(realm_id) {
                Ok(u) => u,
                Err(e) => return Err(e),
            };
            match parse_id(application_id) {
                Ok(application_uuid) => Ok(
                    WardenCommand::StopApplication { realm_uuid, application_uuid },
                ),
                Err(e) => Err(e),
            }
        },
        Command::UpdateApplication {
            application_id,
            realm_id,
            name,
            version,
            image_registry,
            image_storage_size_mb,
            data_storage_size_mb,
        } => {
            let realm_uuid = match parse_id(realm_id) {
                Ok(u) => u,
                Err(e) => return Err(e),
            };
            match parse_id(application_id) {
                Ok(application_uuid) => Ok(
                    WardenCommand::UpdateApplication {
                        realm_uuid,
                        application_uuid,
                        config: ApplicationConfig {
                            name,
                            version,
                            image_registry,
                            image_storage_size_mb,
                            data_storage_size_mb,
                        },
                    },
                ),
                Err(e) => Err(e),
            }
        },
    }
}

// ---------------------------------------------------------------------------
// Answers

/// Errors of the client library.
#[derive(Debug, PartialEq, Eq)]
pub enum WardenClientError {
    ConnectionFailed { socket_path: String, details: String },
    WardenOperationFail(WardenDaemonError),
    CommunicationFail(String),
    InvalidResponse { response: WardenResponse },
}

/// What a request's successful answer carries.
#[derive(Debug, PartialEq, Eq)]
pub enum Reply {
    Done,
    Uuid(u128),
    Description(RealmDescription),
    Descriptions(Vec<RealmDescription>),
}

/// The error for an answer that does not fit the request: the daemon's own
/// error is passed on, anything else is an invalid response.
pub open spec fn spec_error_of_response(response: WardenResponse) -> WardenClientError {
    match response {
        WardenResponse::Error { warden_error } => WardenClientError::WardenOperationFail(warden_error),
        response => WardenClientError::InvalidResponse { response },
    }
}

/// The error for an answer that does not fit the request.
pub fn handle_error_response(response: WardenResponse) -> (r: WardenClientError)
    ensures
        r == spec_error_of_response(response),
{
    match response {
        WardenResponse::Error { warden_error } => WardenClientError::WardenOperationFail(warden_error),
        response => WardenClientError::InvalidResponse { response },
    }
}

/// The reply a request expects from its answer, when the answer fits: realm
/// and application creation expect the new UUID, inspection a description,
/// listing all descriptions, every other request `Success`.
pub open spec fn spec_fitting_reply(request: WardenCommand, response: WardenResponse) -> Option<Reply> {
    match (request, response) {
        (WardenCommand::CreateRealm { .. }, WardenResponse::CreatedRealm { uuid }) => Some(Reply::Uuid(uuid)),
        (WardenCommand::CreateApplication { .. }, WardenResponse::CreatedApplication { uuid }) => Some(
            Reply::Uuid(uuid),
        ),
        (WardenCommand::InspectRealm { .. }, WardenResponse::InspectedRealm { description }) => Some(
            Reply::Description(description),
        ),
        (WardenCommand::ListRealms, WardenResponse::ListedRealms { realms_description }) => Some(
            Reply::Descriptions(realms_description),
        ),
        (WardenCommand::StartRealm { .. }, WardenResponse::Success) => Some(Reply::Done),
        (WardenCommand::StopRealm { .. }, WardenResponse::Success) => Some(Reply::Done),
        (WardenCommand::RebootRealm { .. }, WardenResponse::Success) => Some(Reply::Done),
        (WardenCommand::DestroyRealm { .. }, WardenResponse::Success) => Some(Reply::Done),
        (WardenCommand::UpdateApplication { .. }, WardenResponse::Success) => Some(Reply::Done),
        (WardenCommand::StartApplication { .. }, WardenResponse::Success) => Some(Reply::Done),
        (WardenCommand::StopApplication { .. }, WardenResponse::Success) => Some(Reply::Done),
        _ => None,
    }
}

/// The outcome of a request given the daemon's answer: the fitting reply,
/// or the error for the answer.
pub fn interpret_response(request: &WardenCommand, response: WardenResponse) -> (r: Result<Reply, WardenClientError>)
    ensures
        match spec_fitting_reply(*request, response) {
            Some(reply) => r == Ok::<Reply, WardenClientError>(reply),
            None => r == Err::<Reply, WardenClientError>(spec_error_of_response(response)),
        },
{
    match request {
        WardenCommand::CreateRealm { .. } => match response {
            WardenResponse::CreatedRealm { uuid } => Ok(Reply::Uuid(uuid)),
            response => Err(handle_error_response(response)),
        },
        WardenCommand::CreateApplication { .. } => match response {
            WardenResponse::CreatedApplication { uuid } => Ok(Reply::Uuid(uuid)),
            response => Err(handle_error_response(response)),
        },
        WardenCommand::InspectRealm { .. } => match response {
            WardenResponse::InspectedRealm { description } => Ok(Reply::Description(description)),
            response => Err(handle_error_response(response)),
        },
        WardenCommand::ListRealms => match response {
            WardenResponse::ListedRealms { realms_description } => Ok(
                Reply::Descriptions(realms_description),
            ),
            response => Err(handle_error_response(response)),
        },
        _ => match response {
            WardenResponse::Success => Ok(Reply::Done),
            response => Err(handle_error_response(response)),
        },
    }
}

/// What follows sending a request: when the send succeeded, the answer is
/// to be received; a failed send ends the exchange with `CommunicationFail`,
/// and nothing is received.
pub fn after_send(sent: Result<(), String>) -> (r: Result<(), WardenClientError>)
    ensures
        match sent {
            Ok(()) => r is Ok,
            Err(m) => r == Err::<(), WardenClientError>(WardenClientError::CommunicationFail(m)),
        },
{
    match sent {
        Ok(()) => Ok(()),
        Err(m) => Err(WardenClientError::CommunicationFail(m)),
    }
}

/// The outcome of a request once its answer was received, or receiving
/// failed: a failed receive is `CommunicationFail`; an answer is interpreted
/// as `interpret_response` does.
pub fn after_receive(request: &WardenCommand, received: Result<WardenResponse, String>) -> (r: Result<
    Reply,
    WardenClientError,
>)
    ensures
        match received {
            Err(m) => r == Err::<Reply, WardenClientError>(WardenClientError::CommunicationFail(m)),
            Ok(response) => match spec_fitting_reply(*request, response) {
                Some(reply) => r == Ok::<Reply, WardenClientError>(reply),
                None => r == Err::<Reply, WardenClientError>(spec_error_of_response(response)),
            },
        },
{
    match received {
        Err(m) => Err(WardenClientError::CommunicationFail(m)),
        Ok(response) => interpret_response(request, response),
    }
}

/// The error for a failure to reach the daemon's socket at `socket_path`.
pub fn connection_failed(socket_path: String, details: String) -> (r: WardenClientError)
    ensures
        r == (WardenClientError::ConnectionFailed { socket_path, details }),
{
    WardenClientError::ConnectionFailed { socket_path, details }
}

/// The error for a failure to exchange messages with the daemon.
pub fn communication_failed(details: String) -> (r: WardenClientError)
    ensures
        r == WardenClientError::CommunicationFail(details),
{
    WardenClientError::CommunicationFail(details)
}

/// A request is answered successfully only by the answer that fits it, and
/// the daemon's own error always reaches the caller unchanged.
pub proof fn law_only_fitting_answers_succeed(request: WardenCommand, response: WardenResponse)
    ensures
        response is Error ==> spec_fitting_reply(request, response) is None
            && spec_error_of_response(response) == WardenClientError::WardenOperationFail(
            response->warden_error,
        ),
        !(response is Error) ==> spec_error_of_response(response) == (WardenClientError::InvalidResponse { response }),
{
}

} // verus!
