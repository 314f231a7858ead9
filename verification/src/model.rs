//! What the two ends of a channel agree on, and how a client and a server
//! come out of it.

use crate::client::Client;
use crate::connection::ReceiveState;
use crate::error::InitError;
use crate::handlers::{register_spec, ServerRegistry};
use crate::namespace::{pathbuf_to_interprocess_name, resolution_spec};
use crate::packet::header_len;
use crate::server::Server;
use interprocess::local_socket::Name;
use std::marker::PhantomData;
use std::path::PathBuf;
use vstd::prelude::*;

verus! {

/// The magic bytes of a channel whose options name none: `4242`.
pub open spec fn default_magic() -> Seq<u8> {
    seq![52u8, 50u8, 52u8, 50u8]
}

/// Internal options that a server/client model can have
#[derive(Debug)]
pub struct OptionsRaw {
    socket_name: PathBuf,
    magic_bytes: Vec<u8>,
    disable_single_server_check: bool,
}

impl OptionsRaw {
    /// The name of the endpoint.
    pub closed spec fn spec_socket_name(&self) -> PathBuf {
        self.socket_name
    }

    /// The magic bytes of the channel.
    pub closed spec fn spec_magic_bytes(&self) -> Seq<u8> {
        self.magic_bytes@
    }

    /// Whether a process may hold several servers.
    pub closed spec fn spec_disable_single_server_check(&self) -> bool {
        self.disable_single_server_check
    }

    /// A header with the magic bytes has a length that fits in `usize`.
    #[verifier::type_invariant]
    spec fn header_fits(&self) -> bool {
        header_len(self.magic_bytes@) <= usize::MAX
    }

    /// The options of a channel with this name: the default magic bytes, and
    /// one server to a process.
    pub fn new(namespace: PathBuf) -> (opts: Self)
        ensures
            opts.spec_socket_name() == namespace,
            opts.spec_magic_bytes() == default_magic(),
            !opts.spec_disable_single_server_check(),
    {
        let mut magic_bytes: Vec<u8> = Vec::new();
        magic_bytes.push(52);
        magic_bytes.push(50);
        magic_bytes.push(52);
        magic_bytes.push(50);
        assert(magic_bytes@ =~= default_magic());
        OptionsRaw { socket_name: namespace, magic_bytes, disable_single_server_check: false }
    }

    /// The name of the endpoint.
    pub fn socket_name(&self) -> (name: &PathBuf)
        ensures
            *name == self.spec_socket_name(),
    {
        &self.socket_name
    }

    /// A copy of the magic bytes of the channel.
    pub fn magic_bytes(&self) -> (magic: Vec<u8>)
        ensures
            magic@ == self.spec_magic_bytes(),
            header_len(magic@) <= usize::MAX,
    {
        proof {
            use_type_invariant(self);
        }
        self.magic_bytes.clone()
    }

    /// The magic bytes of the channel, out of options that are no longer
    /// needed.
    pub fn into_magic_bytes(self) -> (magic: Vec<u8>)
        ensures
            magic@ == self.spec_magic_bytes(),
            header_len(magic@) <= usize::MAX,
    {
        proof {
            use_type_invariant(&self);
        }
        self.magic_bytes
    }

    /// Whether a process may hold several servers.
    pub fn single_server_check_disabled(&self) -> (disabled: bool)
        ensures
            disabled == self.spec_disable_single_server_check(),
    {
        self.disable_single_server_check
    }
}

/// The hook that a new server runs for its lifecycle.
#[derive(Debug, Clone, Copy, PartialEq, Eq, Structural)]
pub enum Handlers {
    /// The handlers that remove the socket file when the process panics or
    /// is told to end.
    Default,
    /// A hook that the caller keeps.
    Custom,
}

/// The options of a channel on which clients send `C` and the server sends
/// `S`.
#[derive(Debug)]
pub struct ClientServerOptions<C, S> {
    options_inner: OptionsRaw,
    handler: Handlers,
    _client: PhantomData<C>,
    _server: PhantomData<S>,
}

impl<C, S> ClientServerOptions<C, S> {
    /// The options that client and server share.
    pub closed spec fn inner(&self) -> OptionsRaw {
        self.options_inner
    }

    /// The hook that a new server runs.
    pub closed spec fn handler(&self) -> Handlers {
        self.handler
    }

    /// Creates a model in the given namespace with the default options.
    pub fn new(namespace: PathBuf) -> (options: Self)
        ensures
            options.inner().spec_socket_name() == namespace,
            options.inner().spec_magic_bytes() == default_magic(),
            !options.inner().spec_disable_single_server_check(),
            options.handler() == Handlers::Default,
    {
        ClientServerOptions {
            options_inner: OptionsRaw::new(namespace),
            handler: Handlers::Default,
            _client: PhantomData,
            _server: PhantomData,
        }
    }

    /// NOT RECOMMENDED: Set the magic bytes used in the packets to validate client and server
    /// methods.
    ///
    /// Changing this value will break compatibility for previous versions of your program. Both
    /// the client and the server need to agree on this value for messages to be passed back and
    /// forth.
    pub fn magic_bytes(self, magic_bytes: Vec<u8>) -> (options: Self)
        requires
            header_len(magic_bytes@) <= usize::MAX,
        ensures
            options.inner().spec_magic_bytes() == magic_bytes@,
            options.inner().spec_socket_name() == self.inner().spec_socket_name(),
            options.inner().spec_disable_single_server_check()
                == self.inner().spec_disable_single_server_check(),
            options.handler() == self.handler(),
    {
        let inner = self.options_inner;
        ClientServerOptions {
            options_inner: OptionsRaw {
                socket_name: inner.socket_name,
                magic_bytes,
                disable_single_server_check: inner.disable_single_server_check,
            },
            handler: self.handler,
            _client: PhantomData,
            _server: PhantomData,
        }
    }

    /// NOT RECOMMENDED: Overwrite the default handling of panics and OS termination signals.
    ///
    /// The default implementation ensures there are no hiccups with starting new servers due to
    /// files getting left lying around. If you choose to overwrite this you accept you will
    /// either need to do this yourself or deal with the issues associated with not doing it.
    ///
    /// The hook runs a maximum of one time in a process, when a server is created.
    pub fn handlers(self, hook: Handlers) -> (options: Self)
        ensures
            options.handler() == hook,
            options.inner() == self.inner(),
    {
        ClientServerOptions {
            options_inner: self.options_inner,
            handler: hook,
            _client: PhantomData,
            _server: PhantomData,
        }
    }

    /// Allow multiple servers to run in a single process.
    ///
    /// By default only one server is created in a process, to protect against user errors;
    /// the check can be disabled here if, for instance, several servers on different sockets
    /// are to run at the same time.
    pub fn disable_single_server_check(self) -> (options: Self)
        ensures
            options.inner().spec_disable_single_server_check(),
            options.inner().spec_magic_bytes() == self.inner().spec_magic_bytes(),
            options.inner().spec_socket_name() == self.inner().spec_socket_name(),
            options.handler() == self.handler(),
    {
        proof {
            use_type_invariant(&self.options_inner);
        }
        let inner = self.options_inner;
        ClientServerOptions {
            options_inner: OptionsRaw {
                socket_name: inner.socket_name,
                magic_bytes: inner.magic_bytes,
                disable_single_server_check: true,
            },
            handler: self.handler,
            _client: PhantomData,
            _server: PhantomData,
        }
    }

    /// Create a new client-server model with the given options
    pub fn create(self) -> (model: ClientServerModel<C, S>)
        ensures
            model.options() == self,
    {
        ClientServerModel::new(self)
    }
}

/// Whether the kind of an I/O error is `AddrInUse`: what `std::io::Error::kind`
/// tells of it.
pub uninterp spec fn addr_in_use(error: std::io::Error) -> bool;

/// `std::io::Error::kind`, compared with `AddrInUse`: whether a listener
/// could not be bound because its address is taken. The kind is a property
/// of the error and of nothing else.
#[verifier::external_body]
fn is_addr_in_use(error: &std::io::Error) -> (in_use: bool)
    ensures
        in_use == addr_in_use(*error),
{
    error.kind() == std::io::ErrorKind::AddrInUse
}

/// The error of a listener that could not be bound: `SocketAlreadyExists`
/// where the address is in use, because a server is running there or one
/// left its socket file behind; else `FailedConnectingToSocket` with the
/// error.
pub open spec fn bind_error_spec(error: std::io::Error, addr_in_use: bool) -> InitError {
    if addr_in_use {
        InitError::SocketAlreadyExists
    } else {
        InitError::FailedConnectingToSocket(error)
    }
}

/// The error of a listener that could not be bound.
pub fn bind_error(error: std::io::Error, addr_in_use: bool) -> (e: InitError)
    ensures
        e == bind_error_spec(error, addr_in_use),
{
    if addr_in_use {
        InitError::SocketAlreadyExists
    } else {
        InitError::FailedConnectingToSocket(error)
    }
}

/// A model for a Client Server IPC interface. Client messages are denoted by the generic `C` and
/// server messages are denoted by the generic `S`.
///
/// The primary way to generate this is to use [`ClientServerOptions`] or a struct that implements
/// [`IpcModel`].
#[derive(Debug)]
pub struct ClientServerModel<C, S> {
    options: ClientServerOptions<C, S>,
}

impl<C, S> ClientServerModel<C, S> {
    /// The options that the model was created with.
    pub closed spec fn options(&self) -> ClientServerOptions<C, S> {
        self.options
    }

    fn new(options: ClientServerOptions<C, S>) -> (model: Self)
        ensures
            model.options() == options,
    {
        ClientServerModel { options }
    }

    /// Get a reference to the internal options
    pub fn opts(&self) -> (opts: &OptionsRaw)
        ensures
            *opts == self.options().inner(),
    {
        &self.options.options_inner
    }

    /// The address of the endpoint's socket: that of `resolution_spec` for
    /// the endpoint's name.
    pub fn address(&self) -> (name: Result<Name<'static>, InitError>)
        ensures
            name == resolution_spec(self.options().inner().spec_socket_name(), true) || name
                == resolution_spec(self.options().inner().spec_socket_name(), false),
    {
        pathbuf_to_interprocess_name(&self.options.options_inner.socket_name)
    }

    /// Make a new client, given what connecting to the endpoint's address
    /// gave: a failure is `FailedConnectingToSocket` with its error. Multiple
    /// clients can exist across threads and processes.
    pub fn client(self, connected: Result<(), std::io::Error>) -> (client: Result<
        Client<C, S>,
        InitError,
    >)
        ensures
            match connected {
                Ok(_) => client is Ok && client->Ok_0.magic()
                    == self.options().inner().spec_magic_bytes() && client->Ok_0.state()
                    == ReceiveState::Header,
                Err(e) => client is Err && client->Err_0 == InitError::FailedConnectingToSocket(e),
            },
    {
        match connected {
            Ok(_) => Ok(Client::new(self.options.options_inner)),
            Err(e) => Err(InitError::FailedConnectingToSocket(e)),
        }
    }

    /// Try to create a new server instance, given what binding a listener at
    /// the endpoint's address gave.
    ///
    /// A listener that could not be bound leaves the registry as it was, and
    /// the error is that of `bind_error`: `SocketAlreadyExists` if and only
    /// if the address is in use. With a listener bound,
    /// the registry decides as `register_spec` says: the server is refused
    /// with `ServerAlreadyRunning`, or it is created, and with it comes the
    /// hook to run now, if this process has not run one yet.
    pub fn server(self, registry: &mut ServerRegistry, bound: Result<(), std::io::Error>) -> (server:
        Result<(Server<S, C>, Option<Handlers>), InitError>)
        ensures
            bound matches Err(e) ==> {
                &&& *final(registry) == *old(registry)
                &&& server is Err
                &&& server->Err_0 == bind_error_spec(e, addr_in_use(e))
            },
            bound is Ok ==> {
                let (flags, verdict) = register_spec(
                    old(registry).server_running(),
                    old(registry).handlers_registered(),
                    self.options().inner().spec_disable_single_server_check(),
                );
                &&& (final(registry).server_running(), final(registry).handlers_registered())
                    == flags
                &&& match verdict {
                    Err(e) => server is Err && server->Err_0 == e,
                    Ok(run) => server is Ok && server->Ok_0.0.options() == self.options().inner()
                        && server->Ok_0.1 == (if run {
                        Some(self.options().handler())
                    } else {
                        None
                    }),
                }
            },
    {
        match bound {
            Err(e) => {
                let in_use = is_addr_in_use(&e);
                Err(bind_error(e, in_use))
            },
            Ok(_) => {
                let disabled = self.options.options_inner.disable_single_server_check;
                match registry.register(disabled) {
                    Err(e) => Err(e),
                    Ok(run) => {
                        let hook = if run {
                            Some(self.options.handler)
                        } else {
                            None
                        };
                        Ok((Server::new(self.options.options_inner), hook))
                    },
                }
            },
        }
    }
}

/// What a model says of its channel: the name of the endpoint, the magic
/// bytes, whether a process may hold several servers, and the hook of a new
/// server.
pub struct ModelView {
    pub socket_name: PathBuf,
    pub magic_bytes: Seq<u8>,
    pub disable_single_server_check: bool,
    pub handler: Handlers,
}

impl<C, S> View for ClientServerModel<C, S> {
    type V = ModelView;

    open spec fn view(&self) -> ModelView {
        ModelView {
            socket_name: self.options().inner().spec_socket_name(),
            magic_bytes: self.options().inner().spec_magic_bytes(),
            disable_single_server_check: self.options().inner().spec_disable_single_server_check(),
            handler: self.options().handler(),
        }
    }
}

/// What a model that may have failed to come about says of its channel, or
/// its error.
pub open spec fn model_view<C, S>(model: Result<ClientServerModel<C, S>, InitError>) -> Result<
    ModelView,
    InitError,
> {
    match model {
        Ok(m) => Ok(m@),
        Err(e) => Err(e),
    }
}

/// The client that comes of a model and of what connecting gave: the
/// model's error; else `FailedConnectingToSocket` with the error of the
/// connecting; else a client that speaks the model's magic bytes and waits
/// for a header.
pub open spec fn client_matches<C, S>(
    model: Result<ModelView, InitError>,
    connected: Result<(), std::io::Error>,
    client: Result<Client<C, S>, InitError>,
) -> bool {
    match (model, connected) {
        (Err(e), _) => client is Err && client->Err_0 == e,
        (Ok(_), Err(e)) => client is Err && client->Err_0 == InitError::FailedConnectingToSocket(e),
        (Ok(m), Ok(_)) => client is Ok && client->Ok_0.magic() == m.magic_bytes
            && client->Ok_0.state() == ReceiveState::Header,
    }
}

/// The server that comes of a model, of the registry's flags and of what
/// binding gave, and the flags afterwards.
///
/// A model that failed gives its error, and a listener that could not be
/// bound the error of `bind_error`, which is `SocketAlreadyExists` if and
/// only if the address is in use; both leave the flags as they were. With a listener bound, the registry decides as `register_spec`
/// says: the server is refused with `ServerAlreadyRunning`, or it is created
/// with the model's options, and with it comes the model's hook to run now,
/// if this process has not run one yet.
pub open spec fn server_matches<C, S>(
    model: Result<ModelView, InitError>,
    before: (bool, bool),
    bound: Result<(), std::io::Error>,
    after: (bool, bool),
    server: Result<(Server<S, C>, Option<Handlers>), InitError>,
) -> bool {
    match (model, bound) {
        (Err(e), _) => server is Err && server->Err_0 == e && after == before,
        (Ok(_), Err(e)) => server is Err && after == before && server->Err_0 == bind_error_spec(
            e,
            addr_in_use(e),
        ),
        (Ok(m), Ok(_)) => {
            let (flags, verdict) = register_spec(
                before.0,
                before.1,
                m.disable_single_server_check,
            );
            &&& after == flags
            &&& match verdict {
                Err(e) => server is Err && server->Err_0 == e,
                Ok(run) => {
                    &&& server is Ok
                    &&& server->Ok_0.0.options().spec_socket_name() == m.socket_name
                    &&& server->Ok_0.0.options().spec_magic_bytes() == m.magic_bytes
                    &&& server->Ok_0.0.options().spec_disable_single_server_check()
                        == m.disable_single_server_check
                    &&& server->Ok_0.1 == (if run {
                        Some(m.handler)
                    } else {
                        None
                    })
                },
            }
        },
    }
}

/// The client of a model that may have failed to come about: the model's
/// error, or else what `ClientServerModel::client` gives.
pub fn client_of<C, S>(
    model: Result<ClientServerModel<C, S>, InitError>,
    connected: Result<(), std::io::Error>,
) -> (client: Result<Client<C, S>, InitError>)
    ensures
        client_matches(model_view(model), connected, client),
{
    match model {
        Ok(model) => model.client(connected),
        Err(e) => Err(e),
    }
}

/// The server of a model that may have failed to come about: the model's
/// error, with the registry as it was, or else what
/// `ClientServerModel::server` gives.
pub fn server_of<C, S>(
    model: Result<ClientServerModel<C, S>, InitError>,
    registry: &mut ServerRegistry,
    bound: Result<(), std::io::Error>,
) -> (server: Result<(Server<S, C>, Option<Handlers>), InitError>)
    ensures
        server_matches(
            model_view(model),
            (old(registry).server_running(), old(registry).handlers_registered()),
            bound,
            (final(registry).server_running(), final(registry).handlers_registered()),
            server,
        ),
        model is Err || bound is Err ==> *final(registry) == *old(registry),
{
    match model {
        Ok(model) => model.server(registry, bound),
        Err(e) => Err(e),
    }
}

/// What a user's model type says of its channel.
pub trait IpcModel {
    /// What clients send.
    type ClientMsg;

    /// What the server sends.
    type ServerMsg;

    /// The model of the type, as contracts speak of it. It depends on
    /// nothing but the type: that is what lets a client and a server, in two
    /// processes, agree on their channel.
    spec fn spec_model() -> Result<ModelView, InitError>;

    /// Generate a client/server model. See [`ClientServerOptions`] on how to create a new model.
    ///
    /// This function needs to be pure (have no side effects) to be sound. The client and the
    /// server need to agree on what the model looks like in order to communicate: every call
    /// gives the model of the type.
    fn model() -> (model: Result<ClientServerModel<Self::ClientMsg, Self::ServerMsg>, InitError>)
        ensures
            model_view(model) == Self::spec_model(),
    ;

    /// Make a new client, errors if unable to connect to server: the error
    /// of the model, or else what `ClientServerModel::client` gives for the
    /// model of the type.
    ///
    /// Multiple clients can exist at the same time.
    fn client(connected: Result<(), std::io::Error>) -> (client: Result<
        Client<Self::ClientMsg, Self::ServerMsg>,
        InitError,
    >) where Self: Sized
        ensures
            client_matches(Self::spec_model(), connected, client),
    {
        client_of(Self::model(), connected)
    }

    /// Try to create a new server instance: the error of the model, or else
    /// what `ClientServerModel::server` gives for the model of the type.
    ///
    /// Needs to be created before clients.
    fn server(registry: &mut ServerRegistry, bound: Result<(), std::io::Error>) -> (server: Result<
        (Server<Self::ServerMsg, Self::ClientMsg>, Option<Handlers>),
        InitError,
    >) where Self: Sized
        ensures
            server_matches(
                Self::spec_model(),
                (old(registry).server_running(), old(registry).handlers_registered()),
                bound,
                (final(registry).server_running(), final(registry).handlers_registered()),
                server,
            ),
    {
        server_of(Self::model(), registry, bound)
    }
}

} // verus!
