//! The failures of the daemon, one type for each part of it.

use crate::config::{ConfigError, ConfigFailure};
use crate::ctl_messages::OpcodeError;
use crate::json::{DocumentError, Problem};
use crate::login::UserId;
use vstd::prelude::*;

verus! {

/// `nix::errno::Errno`: the error number of a system call. It is carried
/// as it is.
#[verifier::external_type_specification]
#[verifier::external_body]
pub struct ExErrno(nix::errno::Errno);

/// The number of an open file or socket.
pub type RawFd = i32;

/// What can go wrong with the user directory.
#[derive(Debug)]
#[allow(inconsistent_fields)]
pub enum UserError {
    /// The file could not be opened.
    FileOpenError { path: String, err: std::io::Error },
    /// The metadata of the file could not be read.
    MetadataError { path: String, err: std::io::Error },
    /// The file can be reached by more than its owner, or not by its owner,
    /// or has a special bit set: the permissions of owner, group and
    /// others, as found and as asked, and the special bits found (4 for
    /// set-user-id, 2 for set-group-id, 1 for the sticky bit).
    IncorrectPermissions { path: String, got: [u8; 3], expected: [u8; 3], special: u8 },
    /// The file holds no user directory.
    FileParseError { path: String, err: DocumentError },
    /// The directory lacks one of the reserved users.
    ReservedUserError { path: String, id: UserId },
}

/// A `UserError` in plain values. An error that was handed in from outside
/// stays in it as it is.
pub enum UserFailure {
    FileOpen { path: Seq<char>, err: std::io::Error },
    Metadata { path: Seq<char>, err: std::io::Error },
    IncorrectPermissions { path: Seq<char>, got: Seq<u8>, expected: Seq<u8>, special: u8 },
    FileParse { path: Seq<char>, problem: Problem },
    ReservedUser { path: Seq<char>, id: UserId },
}

impl View for UserError {
    type V = UserFailure;

    open spec fn view(&self) -> UserFailure {
        match *self {
            UserError::FileOpenError { path, err } => UserFailure::FileOpen { path: path@, err },
            UserError::MetadataError { path, err } => UserFailure::Metadata { path: path@, err },
            UserError::IncorrectPermissions { path, got, expected, special } => {
                UserFailure::IncorrectPermissions {
                    path: path@,
                    got: got@,
                    expected: expected@,
                    special,
                }
            },
            UserError::FileParseError { path, err } => UserFailure::FileParse {
                path: path@,
                problem: err@,
            },
            UserError::ReservedUserError { path, id } => UserFailure::ReservedUser {
                path: path@,
                id,
            },
        }
    }
}

/// What can go wrong while the TLS context is built.
#[derive(Debug)]
#[allow(inconsistent_fields)]
pub enum SSLError {
    /// A file of certificates could not be opened.
    CertOpenError { path: String, err: std::io::Error },
    /// A file of certificates could not be read as PEM.
    CertParseError { path: String, err: std::io::Error },
    /// The file of the server's key could not be opened.
    KeyOpenError { path: String, err: std::io::Error },
    /// The file of the server's key holds no key.
    NoKeysFound { path: String },
    /// The file of the server's key could not be read as PEM.
    KeyParseError { path: String, err: std::io::Error },
    /// A certificate of a user could not be made a trust anchor.
    CertAddError { err: webpki::Error },
    /// The server configuration could not be built.
    ConfigError { err: rustls::Error },
}

/// An `SSLError` in plain values. An error that was handed in with a file
/// stays in it as it is; one that the reading of PEM or the building of the
/// context gave is left out.
pub enum SslFailure {
    CertOpen { path: Seq<char>, err: std::io::Error },
    CertParse { path: Seq<char> },
    KeyOpen { path: Seq<char>, err: std::io::Error },
    NoKeysFound { path: Seq<char> },
    KeyParse { path: Seq<char> },
    CertAdd,
    Config,
}

impl View for SSLError {
    type V = SslFailure;

    open spec fn view(&self) -> SslFailure {
        match *self {
            SSLError::CertOpenError { path, err } => SslFailure::CertOpen { path: path@, err },
            SSLError::CertParseError { path, .. } => SslFailure::CertParse { path: path@ },
            SSLError::KeyOpenError { path, err } => SslFailure::KeyOpen { path: path@, err },
            SSLError::NoKeysFound { path } => SslFailure::NoKeysFound { path: path@ },
            SSLError::KeyParseError { path, .. } => SslFailure::KeyParse { path: path@ },
            SSLError::CertAddError { .. } => SslFailure::CertAdd,
            SSLError::ConfigError { .. } => SslFailure::Config,
        }
    }
}

/// What can go wrong in the daemon. `what` names the channel on which it
/// went wrong.
#[derive(Debug)]
#[allow(inconsistent_fields)]
pub enum ServerError {
    /// The configuration could not be loaded.
    ConfigParseError { path: String, err: ConfigError },
    /// The user directory could not be loaded.
    UsersParseError { path: String, err: UserError },
    /// The TLS context could not be built.
    SSLConfigError { err: SSLError },
    /// The service manager handed over no descriptors.
    ListenFdsFailure { err: std::io::Error },
    /// Waiting for the descriptors failed.
    SelectError { err: nix::errno::Errno },
    /// The socket of the control channel is in an error state.
    CtlSocketError { fd: RawFd, err: std::io::Error },
    /// A descriptor woke up on an error and holds none.
    FdError { what: &'static str, fd: RawFd },
    /// A connection could not be accepted.
    StreamAcceptError { what: &'static str, err: std::io::Error },
    /// The peer closed the connection before it sent anything.
    EmptyStream { what: &'static str },
    /// Reading from the connection failed.
    StreamReadError { what: &'static str, err: std::io::Error },
    /// Writing to the connection failed.
    StreamWriteError { what: &'static str, err: std::io::Error },
    /// The first byte of a message is no opcode.
    UnknownOpcode { what: &'static str, err: OpcodeError },
    /// The length of a reload payload did not come whole: it has two bytes.
    IncompleteLength { what: &'static str, got: usize },
    /// The payload of a reload message is not as long as was announced.
    IncorrectConfigSize { what: &'static str, got: usize, expected: usize },
    /// The new configuration of a reload message could not be taken.
    ReloadError { what: &'static str, err: ConfigError },
    /// Something was reported that the connection was not waiting for.
    UnexpectedEvent { what: &'static str },
    /// A configuration was handed in as read again from its source, but
    /// from another file than the one it was first read from.
    WrongSource { what: &'static str, got: String, expected: String },
}

/// A `ServerError` in plain values. An error that was handed in from
/// outside stays in it as it is.
#[allow(inconsistent_fields)]
pub enum ServerFailure {
    ConfigParse { path: Seq<char>, cause: ConfigFailure },
    UsersParse { path: Seq<char>, cause: UserFailure },
    SslConfig { cause: SslFailure },
    ListenFds { err: std::io::Error },
    Select { err: nix::errno::Errno },
    CtlSocket { fd: RawFd, err: std::io::Error },
    Fd { what: Seq<char>, fd: RawFd },
    StreamAccept { what: Seq<char>, err: std::io::Error },
    EmptyStream { what: Seq<char> },
    StreamRead { what: Seq<char>, err: std::io::Error },
    StreamWrite { what: Seq<char>, err: std::io::Error },
    UnknownOpcode { what: Seq<char>, raw: u8 },
    IncompleteLength { what: Seq<char>, got: usize },
    IncorrectConfigSize { what: Seq<char>, got: usize, expected: usize },
    Reload { what: Seq<char>, cause: ConfigFailure },
    UnexpectedEvent { what: Seq<char> },
    WrongSource { what: Seq<char>, got: Seq<char>, expected: Seq<char> },
}

impl View for ServerError {
    type V = ServerFailure;

    open spec fn view(&self) -> ServerFailure {
        match *self {
            ServerError::ConfigParseError { path, err } => ServerFailure::ConfigParse {
                path: path@,
                cause: err@,
            },
            ServerError::UsersParseError { path, err } => ServerFailure::UsersParse {
                path: path@,
                cause: err@,
            },
            ServerError::SSLConfigError { err } => ServerFailure::SslConfig { cause: err@ },
            ServerError::ListenFdsFailure { err } => ServerFailure::ListenFds { err },
            ServerError::SelectError { err } => ServerFailure::Select { err },
            ServerError::CtlSocketError { fd, err } => ServerFailure::CtlSocket { fd, err },
            ServerError::FdError { what, fd } => ServerFailure::Fd { what: what@, fd },
            ServerError::StreamAcceptError { what, err } => ServerFailure::StreamAccept {
                what: what@,
                err,
            },
            ServerError::EmptyStream { what } => ServerFailure::EmptyStream { what: what@ },
            ServerError::StreamReadError { what, err } => ServerFailure::StreamRead {
                what: what@,
                err,
            },
            ServerError::StreamWriteError { what, err } => ServerFailure::StreamWrite {
                what: what@,
                err,
            },
            ServerError::UnknownOpcode { what, err } => match err {
                OpcodeError::UnknownValue { raw } => ServerFailure::UnknownOpcode {
                    what: what@,
                    raw,
                },
            },
            ServerError::IncompleteLength { what, got } => ServerFailure::IncompleteLength {
                what: what@,
                got,
            },
            ServerError::IncorrectConfigSize {
                what,
                got,
                expected,
            } => ServerFailure::IncorrectConfigSize { what: what@, got, expected },
            ServerError::ReloadError { what, err } => ServerFailure::Reload {
                what: what@,
                cause: err@,
            },
            ServerError::UnexpectedEvent { what } => ServerFailure::UnexpectedEvent { what: what@ },
            ServerError::WrongSource { what, got, expected } => ServerFailure::WrongSource {
                what: what@,
                got: got@,
                expected: expected@,
            },
        }
    }
}

/// What can go wrong in the controller.
#[derive(Debug)]
#[allow(inconsistent_fields)]
pub enum CtlError {
    /// The socket could not be made.
    SocketCreateError { err: nix::errno::Errno },
    /// The socket of the daemon could not be connected to.
    SocketConnectError { path: String, err: std::io::Error },
    /// The message could not be written to the daemon.
    SocketWriteError { err: std::io::Error },
    /// The message could not be flushed to the daemon.
    SocketFlushError { err: std::io::Error },
    /// The answer of the daemon could not be read.
    SocketReadError { err: std::io::Error },
    /// The file with the new configuration could not be read.
    FileReadError { path: String, err: std::io::Error },
    /// The new configuration is too long for one message.
    PayloadTooLong { len: usize },
}

/// A `CtlError` in plain values. The error that was handed in from outside
/// stays in it as it is.
#[allow(inconsistent_fields)]
pub enum CtlFailure {
    SocketCreate { err: nix::errno::Errno },
    SocketConnect { path: Seq<char>, err: std::io::Error },
    SocketWrite { err: std::io::Error },
    SocketFlush { err: std::io::Error },
    SocketRead { err: std::io::Error },
    FileRead { path: Seq<char>, err: std::io::Error },
    PayloadTooLong { len: usize },
}

impl View for CtlError {
    type V = CtlFailure;

    open spec fn view(&self) -> CtlFailure {
        match *self {
            CtlError::SocketCreateError { err } => CtlFailure::SocketCreate { err },
            CtlError::SocketConnectError { path, err } => CtlFailure::SocketConnect {
                path: path@,
                err,
            },
            CtlError::SocketWriteError { err } => CtlFailure::SocketWrite { err },
            CtlError::SocketFlushError { err } => CtlFailure::SocketFlush { err },
            CtlError::SocketReadError { err } => CtlFailure::SocketRead { err },
            CtlError::FileReadError { path, err } => CtlFailure::FileRead { path: path@, err },
            CtlError::PayloadTooLong { len } => CtlFailure::PayloadTooLong { len },
        }
    }
}

} // verus!
