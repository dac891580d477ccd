use vstd::prelude::*;
use crate::command::command::{
    ticket_in, ticket_of, upload, upload_model, upload_request, upload_request_model, Commands,
    TicketModel, UploadRequestResponse,
};
use crate::decode::{parse_json, parsed_document};
use crate::json::text_of;
use crate::request::{BuildError, BuildFault, DescriptorModel, RequestDescriptor};

verus! {

/// Why an invocation ended without a response to print. Each carries a text for the
/// user.
#[derive(Debug, PartialEq)]
pub enum Failure {
    /// The stored access token could not be read or written.
    CredentialIoError(String),
    /// The raw JSON given in place of the fields cannot serve as the body.
    MalformedOverride(String),
    /// A field that the request cannot do without is unset.
    MissingRequiredField(String),
    /// No ticket for the upload of the file could be had.
    UploadNegotiationFailed(String),
    /// The file could not be sent to the address on the ticket.
    UploadTransferFailed(String),
    /// The exchange with the service could not be completed.
    TransportError(String),
    /// The body of the response could not be read as text.
    ResponseReadError(String),
}

/// The kind of a `Failure`.
#[derive(Debug, Clone, Copy, PartialEq, Eq)]
pub enum FailureKind {
    CredentialIoError,
    MalformedOverride,
    MissingRequiredField,
    UploadNegotiationFailed,
    UploadTransferFailed,
    TransportError,
    ResponseReadError,
}

impl Failure {
    pub open spec fn kind(&self) -> FailureKind {
        match self {
            Failure::CredentialIoError(_) => FailureKind::CredentialIoError,
            Failure::MalformedOverride(_) => FailureKind::MalformedOverride,
            Failure::MissingRequiredField(_) => FailureKind::MissingRequiredField,
            Failure::UploadNegotiationFailed(_) => FailureKind::UploadNegotiationFailed,
            Failure::UploadTransferFailed(_) => FailureKind::UploadTransferFailed,
            Failure::TransportError(_) => FailureKind::TransportError,
            Failure::ResponseReadError(_) => FailureKind::ResponseReadError,
        }
    }

    /// The text that the failure carries for the user.
    pub open spec fn text(&self) -> Seq<char> {
        match self {
            Failure::CredentialIoError(detail) => detail@,
            Failure::MalformedOverride(detail) => detail@,
            Failure::MissingRequiredField(name) => name@,
            Failure::UploadNegotiationFailed(detail) => detail@,
            Failure::UploadTransferFailed(detail) => detail@,
            Failure::TransportError(detail) => detail@,
            Failure::ResponseReadError(detail) => detail@,
        }
    }

    /// The failure that a request that could not be built ends in.
    pub fn of_build(error: BuildError) -> (r: Failure)
        ensures
            r.kind() == fault_kind(error@),
            match error {
                BuildError::MalformedOverride(detail) => r == Failure::MalformedOverride(detail),
                BuildError::MissingRequiredField(name) => r == Failure::MissingRequiredField(name),
            },
    {
        match error {
            BuildError::MalformedOverride(detail) => Failure::MalformedOverride(detail),
            BuildError::MissingRequiredField(name) => Failure::MissingRequiredField(name),
        }
    }
}

/// The kind of failure that a request that could not be built ends in.
pub open spec fn fault_kind(fault: BuildFault) -> FailureKind {
    match fault {
        BuildFault::MalformedOverride => FailureKind::MalformedOverride,
        BuildFault::MissingRequiredField(_) => FailureKind::MissingRequiredField,
    }
}

/// Why one exchange with the service brought no response text.
#[derive(Debug, PartialEq)]
pub enum TransportError {
    /// The request could not be sent, or no response came.
    Connection(String),
    /// A response came whose body could not be read as text.
    ResponseRead(String),
}

/// What came back from one exchange: the status, and the body as text.
#[derive(Debug, PartialEq)]
pub struct Reply {
    pub status: u16,
    pub body: String,
}

/// What the driver reports back after it has done what it was asked to.
#[derive(Debug, PartialEq)]
pub enum Event {
    /// Nothing yet: the invocation begins.
    Started,
    /// The access token was written, or could not be.
    TokenStored(Result<(), String>),
    /// The access token was read, or could not be.
    TokenLoaded(Result<String, String>),
    /// The type of the file was found from its content, or could not be.
    FileTypeFound(Result<String, String>),
    /// The request was answered, or the exchange failed.
    Replied(Result<Reply, TransportError>),
}

impl Event {
    /// The text that an event which reports a failure came with.
    pub open spec fn failure_text(&self) -> Option<Seq<char>> {
        match self {
            Event::TokenStored(Err(detail)) => Some(detail@),
            Event::TokenLoaded(Err(detail)) => Some(detail@),
            Event::FileTypeFound(Err(detail)) => Some(detail@),
            Event::Replied(Err(TransportError::Connection(detail))) => Some(detail@),
            Event::Replied(Err(TransportError::ResponseRead(detail))) => Some(detail@),
            _ => None,
        }
    }
}

/// A request ready to be sent: the description, and the header that tells the service
/// who is asking.
#[derive(Debug, PartialEq)]
pub struct Outgoing {
    pub request: RequestDescriptor,
    pub header: (String, String),
}

/// Mathematical model of an `Outgoing`.
pub struct OutgoingModel {
    pub request: DescriptorModel,
    pub header: (Seq<char>, Seq<char>),
}

impl View for Outgoing {
    type V = OutgoingModel;

    open spec fn view(&self) -> OutgoingModel {
        OutgoingModel { request: self.request@, header: (self.header.0@, self.header.1@) }
    }
}

/// A request with the header `Access-Token`, which holds the access token.
pub open spec fn authorized(request: DescriptorModel, access_token: Seq<char>) -> OutgoingModel {
    OutgoingModel { request, header: ("Access-Token"@, access_token) }
}

/// Attaches the access token to a request.
pub fn authorize(request: RequestDescriptor, access_token: &str) -> (r: Outgoing)
    ensures
        r@ == authorized(request@, access_token@),
{
    Outgoing {
        request,
        header: (String::from_str("Access-Token"), String::from_str(access_token)),
    }
}

/// What the driver is asked to do next.
#[derive(Debug, PartialEq)]
pub enum Action {
    /// Write the access token where it is kept, in place of what was there.
    StoreToken { access_token: String },
    /// Read the access token from where it is kept.
    LoadToken,
    /// Find the type of the file from its content.
    InspectFile { path: String },
    /// Send the request and report what came back.
    Send { outgoing: Outgoing },
    /// Print the text: the invocation has succeeded.
    Print { text: String },
    /// Nothing is left to do: the invocation has succeeded.
    Finish,
    /// Give up: the invocation has failed.
    Fail { error: Failure },
}

/// Mathematical model of an `Action`. Of a failure it keeps the kind.
pub enum ActionModel {
    StoreToken(Seq<char>),
    LoadToken,
    InspectFile(Seq<char>),
    Send(OutgoingModel),
    Print(Seq<char>),
    Finish,
    Fail(FailureKind),
}

impl View for Action {
    type V = ActionModel;

    open spec fn view(&self) -> ActionModel {
        match self {
            Action::StoreToken { access_token } => ActionModel::StoreToken(access_token@),
            Action::LoadToken => ActionModel::LoadToken,
            Action::InspectFile { path } => ActionModel::InspectFile(path@),
            Action::Send { outgoing } => ActionModel::Send(outgoing@),
            Action::Print { text } => ActionModel::Print(text@),
            Action::Finish => ActionModel::Finish,
            Action::Fail { error } => ActionModel::Fail(error.kind()),
        }
    }
}

/// How far an invocation has come.
#[derive(Debug, Clone, Copy, PartialEq, Eq)]
pub enum Stage {
    /// Nothing has been done yet.
    Idle,
    /// The access token is being written.
    StoringToken,
    /// The access token is being read.
    LoadingToken,
    /// The type of the file to upload is being found.
    InspectingFile,
    /// The service is being asked where to upload the file.
    Negotiating,
    /// The file is being sent.
    Transferring,
    /// The request of the command itself is being sent.
    Requesting,
    /// The invocation has ended.
    Done,
}

/// The ticket that a reply to an upload request grants: the status must tell of
/// success, and the body must be a document that holds a ticket.
pub open spec fn granted(reply: Reply) -> Option<TicketModel> {
    if 200 <= reply.status < 300 {
        match parsed_document(reply.body@) {
            Some(document) => ticket_in(document),
            None => None,
        }
    } else {
        None
    }
}

/// Reads the ticket out of a reply to an upload request.
pub fn read_ticket(reply: &Reply) -> (r: Option<UploadRequestResponse>)
    ensures
        ticket_of(r) == granted(*reply),
{
    if 200 <= reply.status && reply.status < 300 {
        match parse_json(reply.body.as_str()) {
            Ok(document) => UploadRequestResponse::from_json(&document),
            Err(_) => None,
        }
    } else {
        None
    }
}

/// The text that a failed exchange came with.
fn transport_detail(error: TransportError) -> (r: String)
    ensures
        Some(r@) == Event::Replied(Err(error)).failure_text(),
{
    match error {
        TransportError::Connection(detail) => detail,
        TransportError::ResponseRead(detail) => detail,
    }
}

/// One invocation on its way: the command, how far it has come, and what it has
/// learnt so far.
#[derive(Debug, PartialEq)]
pub struct Pipeline {
    pub command: Commands,
    pub stage: Stage,
    pub access_token: Option<String>,
    pub ticket: Option<UploadRequestResponse>,
}

/// What one step leads to: the stage reached, what is known then, and what the driver
/// is asked to do.
pub struct Step {
    pub stage: Stage,
    pub access_token: Option<Seq<char>>,
    pub ticket: Option<TicketModel>,
    pub action: ActionModel,
}

/// The step that ends an invocation.
pub open spec fn ending(
    access_token: Option<Seq<char>>,
    ticket: Option<TicketModel>,
    action: ActionModel,
) -> Step {
    Step { stage: Stage::Done, access_token, ticket, action }
}

/// The step that sends the request of the command itself, or ends the invocation where
/// no request can be built.
pub open spec fn requesting(
    command: Commands,
    access_token: Seq<char>,
    ticket: Option<TicketModel>,
) -> Step {
    match command.expected(ticket) {
        Some(Ok(request)) => Step {
            stage: Stage::Requesting,
            access_token: Some(access_token),
            ticket,
            action: ActionModel::Send(authorized(request, access_token)),
        },
        Some(Err(fault)) => ending(Some(access_token), ticket, ActionModel::Fail(fault_kind(fault))),
        None => ending(Some(access_token), ticket, ActionModel::Finish),
    }
}

/// The step that asks the service where to upload a file.
pub open spec fn negotiating(path: Seq<char>, file_type: Seq<char>, access_token: Seq<char>) -> Step {
    Step {
        stage: Stage::Negotiating,
        access_token: Some(access_token),
        ticket: None,
        action: ActionModel::Send(authorized(upload_request_model(path, file_type), access_token)),
    }
}

/// The step taken once the access token is at hand. A command that has a file to
/// upload first asks where to, after the type of the file has been found if the
/// caller gave none; any other command goes on to its own request.
pub open spec fn launching(command: Commands, access_token: Seq<char>) -> Step {
    match command.upload_source() {
        Some(path) => match command.upload_type() {
            Some(file_type) => negotiating(path, file_type, access_token),
            None => Step {
                stage: Stage::InspectingFile,
                access_token: Some(access_token),
                ticket: None,
                action: ActionModel::InspectFile(path),
            },
        },
        None => requesting(command, access_token, None),
    }
}

impl Pipeline {
    /// The step that an event leads to. An event that the stage does not wait for ends
    /// the invocation as a failure of the transport.
    pub open spec fn after(&self, event: Event) -> Step {
        let token = text_of(self.access_token);
        let ticket = ticket_of(self.ticket);
        let stray = ending(token, ticket, ActionModel::Fail(FailureKind::TransportError));
        match (self.stage, event) {
            (Stage::Idle, Event::Started) => match self.command {
                Commands::AccessToken { access_token } => Step {
                    stage: Stage::StoringToken,
                    access_token: token,
                    ticket,
                    action: ActionModel::StoreToken(access_token@),
                },
                _ => Step {
                    stage: Stage::LoadingToken,
                    access_token: token,
                    ticket,
                    action: ActionModel::LoadToken,
                },
            },
            (Stage::StoringToken, Event::TokenStored(Ok(_))) => ending(
                token,
                ticket,
                ActionModel::Finish,
            ),
            (Stage::StoringToken, Event::TokenStored(Err(_))) => ending(
                token,
                ticket,
                ActionModel::Fail(FailureKind::CredentialIoError),
            ),
            (Stage::LoadingToken, Event::TokenLoaded(Ok(loaded))) => launching(
                self.command,
                loaded@,
            ),
            (Stage::LoadingToken, Event::TokenLoaded(Err(_))) => ending(
                token,
                ticket,
                ActionModel::Fail(FailureKind::CredentialIoError),
            ),
            (Stage::InspectingFile, Event::FileTypeFound(Ok(file_type))) => match (
                token,
                self.command.upload_source(),
            ) {
                (Some(t), Some(path)) => negotiating(path, file_type@, t),
                _ => stray,
            },
            (Stage::InspectingFile, Event::FileTypeFound(Err(_))) => ending(
                token,
                ticket,
                ActionModel::Fail(FailureKind::UploadNegotiationFailed),
            ),
            (Stage::Negotiating, Event::Replied(Ok(reply))) => match (
                token,
                self.command.upload_source(),
            ) {
                (Some(t), Some(path)) => match granted(reply) {
                    Some(g) => Step {
                        stage: Stage::Transferring,
                        access_token: token,
                        ticket: Some(g),
                        action: ActionModel::Send(authorized(upload_model(path, g.upload_url), t)),
                    },
                    None => ending(
                        token,
                        ticket,
                        ActionModel::Fail(FailureKind::UploadNegotiationFailed),
                    ),
                },
                _ => stray,
            },
            (Stage::Negotiating, Event::Replied(Err(_))) => ending(
                token,
                ticket,
                ActionModel::Fail(FailureKind::UploadNegotiationFailed),
            ),
            (Stage::Transferring, Event::Replied(Ok(_))) => match (token, ticket) {
                (Some(t), Some(g)) => requesting(self.command, t, ticket),
                _ => stray,
            },
            (Stage::Transferring, Event::Replied(Err(_))) => ending(
                token,
                ticket,
                ActionModel::Fail(FailureKind::UploadTransferFailed),
            ),
            (Stage::Requesting, Event::Replied(Ok(reply))) => ending(
                token,
                ticket,
                ActionModel::Print(reply.body@),
            ),
            (Stage::Requesting, Event::Replied(Err(TransportError::Connection(_)))) => ending(
                token,
                ticket,
                ActionModel::Fail(FailureKind::TransportError),
            ),
            (Stage::Requesting, Event::Replied(Err(TransportError::ResponseRead(_)))) => ending(
                token,
                ticket,
                ActionModel::Fail(FailureKind::ResponseReadError),
            ),
            _ => stray,
        }
    }

    /// Whether the stage waits for an event of this kind.
    pub open spec fn awaits(&self, event: Event) -> bool {
        match (self.stage, event) {
            (Stage::Idle, Event::Started) => true,
            (Stage::StoringToken, Event::TokenStored(_)) => true,
            (Stage::LoadingToken, Event::TokenLoaded(_)) => true,
            (Stage::InspectingFile, Event::FileTypeFound(_)) => true,
            (Stage::Negotiating, Event::Replied(_)) => true,
            (Stage::Transferring, Event::Replied(_)) => true,
            (Stage::Requesting, Event::Replied(_)) => true,
            _ => false,
        }
    }

    /// Whether a pipeline is where a step says, with the command it had.
    pub open spec fn reached(&self, command: Commands, step: Step) -> bool {
        &&& self.command == command
        &&& self.stage == step.stage
        &&& text_of(self.access_token) == step.access_token
        &&& ticket_of(self.ticket) == step.ticket
    }

    /// An invocation of the command, with nothing done yet.
    pub fn new(command: Commands) -> (r: Pipeline)
        ensures
            r.command == command,
            r.stage == Stage::Idle,
            r.access_token is None,
            r.ticket is None,
    {
        Pipeline { command, stage: Stage::Idle, access_token: None, ticket: None }
    }

    /// Takes one step: given what the driver reports, says what it is to do next.
    pub fn advance(self, event: Event) -> (r: (Pipeline, Action))
        ensures
            r.0.reached(self.command, self.after(event)),
            r.1@ == self.after(event).action,
            (r.1 matches Action::Fail { error } && self.awaits(event) && event.failure_text()
                is Some) ==> r.1->error.text() == event.failure_text()->0,
            r.1 matches Action::Fail { error: Failure::MissingRequiredField(name) } ==> name@
                == "file_name"@,
    {
        let Pipeline { command, stage, access_token, ticket } = self;
        match (stage, event) {
            (Stage::Idle, Event::Started) => {
                let action = match &command {
                    Commands::AccessToken { access_token: given } => Action::StoreToken {
                        access_token: given.clone(),
                    },
                    _ => Action::LoadToken,
                };
                let stage = match &command {
                    Commands::AccessToken { .. } => Stage::StoringToken,
                    _ => Stage::LoadingToken,
                };
                (Pipeline { command, stage, access_token, ticket }, action)
            },
            (Stage::StoringToken, Event::TokenStored(Ok(_))) => (
                Pipeline { command, stage: Stage::Done, access_token, ticket },
                Action::Finish,
            ),
            (Stage::StoringToken, Event::TokenStored(Err(detail))) => (
                Pipeline { command, stage: Stage::Done, access_token, ticket },
                Action::Fail { error: Failure::CredentialIoError(detail) },
            ),
            (Stage::LoadingToken, Event::TokenLoaded(Ok(loaded))) => match command.upload_plan() {
                Some((path, Some(file_type))) => {
                    let request = upload_request(path.as_str(), file_type.as_str());
                    let outgoing = authorize(request, loaded.as_str());
                    (
                        Pipeline {
                            command,
                            stage: Stage::Negotiating,
                            access_token: Some(loaded),
                            ticket: None,
                        },
                        Action::Send { outgoing },
                    )
                },
                Some((path, None)) => (
                    Pipeline {
                        command,
                        stage: Stage::InspectingFile,
                        access_token: Some(loaded),
                        ticket: None,
                    },
                    Action::InspectFile { path },
                ),
                None => Pipeline::request(command, loaded, None),
            },
            (Stage::LoadingToken, Event::TokenLoaded(Err(detail))) => (
                Pipeline { command, stage: Stage::Done, access_token, ticket },
                Action::Fail { error: Failure::CredentialIoError(detail) },
            ),
            (Stage::InspectingFile, Event::FileTypeFound(Ok(file_type))) => {
                match (access_token, command.upload_plan()) {
                    (Some(token), Some((path, _))) => {
                        let request = upload_request(path.as_str(), file_type.as_str());
                        let outgoing = authorize(request, token.as_str());
                        (
                            Pipeline {
                                command,
                                stage: Stage::Negotiating,
                                access_token: Some(token),
                                ticket: None,
                            },
                            Action::Send { outgoing },
                        )
                    },
                    (access_token, _) => Pipeline::stray(command, access_token, ticket),
                }
            },
            (Stage::InspectingFile, Event::FileTypeFound(Err(detail))) => (
                Pipeline { command, stage: Stage::Done, access_token, ticket },
                Action::Fail { error: Failure::UploadNegotiationFailed(detail) },
            ),
            (Stage::Negotiating, Event::Replied(Ok(reply))) => {
                match (access_token, command.upload_plan()) {
                    (Some(token), Some((path, _))) => match read_ticket(&reply) {
                        Some(granted_ticket) => {
                            let request = upload(
                                path.as_str(),
                                granted_ticket.upload_url.as_str(),
                            );
                            let outgoing = authorize(request, token.as_str());
                            (
                                Pipeline {
                                    command,
                                    stage: Stage::Transferring,
                                    access_token: Some(token),
                                    ticket: Some(granted_ticket),
                                },
                                Action::Send { outgoing },
                            )
                        },
                        None => (
                            Pipeline {
                                command,
                                stage: Stage::Done,
                                access_token: Some(token),
                                ticket,
                            },
                            Action::Fail {
                                error: Failure::UploadNegotiationFailed(
                                    String::from_str("the service granted no upload"),
                                ),
                            },
                        ),
                    },
                    (access_token, _) => Pipeline::stray(command, access_token, ticket),
                }
            },
            (Stage::Negotiating, Event::Replied(Err(error))) => (
                Pipeline { command, stage: Stage::Done, access_token, ticket },
                Action::Fail { error: Failure::UploadNegotiationFailed(transport_detail(error)) },
            ),
            (Stage::Transferring, Event::Replied(Ok(_))) => match (access_token, ticket) {
                (Some(token), Some(granted_ticket)) => Pipeline::request(
                    command,
                    token,
                    Some(granted_ticket),
                ),
                (access_token, ticket) => Pipeline::stray(command, access_token, ticket),
            },
            (Stage::Transferring, Event::Replied(Err(error))) => (
                Pipeline { command, stage: Stage::Done, access_token, ticket },
                Action::Fail { error: Failure::UploadTransferFailed(transport_detail(error)) },
            ),
            (Stage::Requesting, Event::Replied(Ok(reply))) => (
                Pipeline { command, stage: Stage::Done, access_token, ticket },
                Action::Print { text: reply.body },
            ),
            (Stage::Requesting, Event::Replied(Err(TransportError::Connection(detail)))) => (
                Pipeline { command, stage: Stage::Done, access_token, ticket },
                Action::Fail { error: Failure::TransportError(detail) },
            ),
            (Stage::Requesting, Event::Replied(Err(TransportError::ResponseRead(detail)))) => (
                Pipeline { command, stage: Stage::Done, access_token, ticket },
                Action::Fail { error: Failure::ResponseReadError(detail) },
            ),
            (_, _) => Pipeline::stray(command, access_token, ticket),
        }
    }

    /// Ends the invocation on an event that the stage did not wait for.
    fn stray(
        command: Commands,
        access_token: Option<String>,
        ticket: Option<UploadRequestResponse>,
    ) -> (r: (Pipeline, Action))
        ensures
            r.0.reached(
                command,
                ending(
                    text_of(access_token),
                    ticket_of(ticket),
                    ActionModel::Fail(FailureKind::TransportError),
                ),
            ),
            r.1@ == ActionModel::Fail(FailureKind::TransportError),
    {
        (
            Pipeline { command, stage: Stage::Done, access_token, ticket },
            Action::Fail {
                error: Failure::TransportError(String::from_str("an event came out of order")),
            },
        )
    }

    /// Builds the request of the command itself and asks for it to be sent.
    fn request(command: Commands, access_token: String, ticket: Option<UploadRequestResponse>) -> (r: (
        Pipeline,
        Action,
    ))
        requires
            command.upload_source() is Some ==> ticket is Some,
        ensures
            r.0.reached(command, requesting(command, access_token@, ticket_of(ticket))),
            r.1@ == requesting(command, access_token@, ticket_of(ticket)).action,
            r.1 matches Action::Fail { error: Failure::MissingRequiredField(name) } ==> name@
                == "file_name"@,
    {
        let built = match &ticket {
            Some(t) => command.build_request(Some(t)),
            None => command.build_request(None),
        };
        match built {
            Some(Ok(request)) => {
                let outgoing = authorize(request, access_token.as_str());
                (
                    Pipeline {
                        command,
                        stage: Stage::Requesting,
                        access_token: Some(access_token),
                        ticket,
                    },
                    Action::Send { outgoing },
                )
            },
            Some(Err(error)) => (
                Pipeline { command, stage: Stage::Done, access_token: Some(access_token), ticket },
                Action::Fail { error: Failure::of_build(error) },
            ),
            None => (
                Pipeline { command, stage: Stage::Done, access_token: Some(access_token), ticket },
                Action::Finish,
            ),
        }
    }
}

} // verus!
