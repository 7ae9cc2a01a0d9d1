//! Errors returned over the bus.

use crate::text;
use crate::text::debug_text;
use vstd::prelude::*;

verus! {

/// Why a request over the bus is refused.
#[derive(Debug, PartialEq, Eq)]
pub enum BusError {
    /// The message has no sender.
    NoSender,
    /// An application registers without an identifier.
    EmptyAppId,
    /// A binding is registered in a scope that does not exist.
    UnknownScope { scope: String },
    /// A binding is registered without an accelerator.
    EmptyBinding,
    /// A binding of the focused application does not name the application.
    FocusedWithoutAppId,
    /// A binding names another application than the client has registered.
    AppIdMismatch { registered: String, claimed: String },
    /// A binding of the focused application comes from a client that has not registered.
    FocusedUnregistered,
    /// A global binding comes from a client without the permission.
    GlobalNotPermitted { app_id: String },
    /// A global binding comes from a client that has not registered.
    GlobalUnregistered,
}

/// The kinds of errors of the bus.
#[derive(Clone, Copy, Debug, PartialEq, Eq, Structural)]
pub enum ErrorKind {
    InvalidArgs,
    Failed,
    AccessDenied,
}

/// The model of an error.
#[verifier::ext_equal]
pub enum ErrorModel {
    NoSender,
    EmptyAppId,
    UnknownScope { scope: Seq<char> },
    EmptyBinding,
    FocusedWithoutAppId,
    AppIdMismatch { registered: Seq<char>, claimed: Seq<char> },
    FocusedUnregistered,
    GlobalNotPermitted { app_id: Seq<char> },
    GlobalUnregistered,
}

impl View for BusError {
    type V = ErrorModel;

    open spec fn view(&self) -> ErrorModel {
        match self {
            BusError::NoSender => ErrorModel::NoSender,
            BusError::EmptyAppId => ErrorModel::EmptyAppId,
            BusError::UnknownScope { scope } => ErrorModel::UnknownScope { scope: scope@ },
            BusError::EmptyBinding => ErrorModel::EmptyBinding,
            BusError::FocusedWithoutAppId => ErrorModel::FocusedWithoutAppId,
            BusError::AppIdMismatch { registered, claimed } => ErrorModel::AppIdMismatch {
                registered: registered@,
                claimed: claimed@,
            },
            BusError::FocusedUnregistered => ErrorModel::FocusedUnregistered,
            BusError::GlobalNotPermitted { app_id } => ErrorModel::GlobalNotPermitted {
                app_id: app_id@,
            },
            BusError::GlobalUnregistered => ErrorModel::GlobalUnregistered,
        }
    }
}

impl BusError {
    /// The kind of the error.
    pub fn kind(&self) -> (r: ErrorKind)
        ensures
            r == match self@ {
                ErrorModel::NoSender => ErrorKind::Failed,
                ErrorModel::EmptyAppId
                | ErrorModel::UnknownScope { .. }
                | ErrorModel::EmptyBinding
                | ErrorModel::FocusedWithoutAppId => ErrorKind::InvalidArgs,
                _ => ErrorKind::AccessDenied,
            },
    {
        match self {
            BusError::NoSender => ErrorKind::Failed,
            BusError::EmptyAppId => ErrorKind::InvalidArgs,
            BusError::UnknownScope { .. } => ErrorKind::InvalidArgs,
            BusError::EmptyBinding => ErrorKind::InvalidArgs,
            BusError::FocusedWithoutAppId => ErrorKind::InvalidArgs,
            BusError::AppIdMismatch { .. } => ErrorKind::AccessDenied,
            BusError::FocusedUnregistered => ErrorKind::AccessDenied,
            BusError::GlobalNotPermitted { .. } => ErrorKind::AccessDenied,
            BusError::GlobalUnregistered => ErrorKind::AccessDenied,
        }
    }

    /// The text of the error.
    pub fn message(&self) -> (r: String)
        ensures
            r@ == message_of(self@),
    {
        match self {
            BusError::NoSender => "no sender on D-Bus message".to_owned(),
            BusError::EmptyAppId => "app_id must not be empty".to_owned(),
            BusError::UnknownScope { scope } => {
                let start: String = "scope must be app_focused or app_global, got ".to_owned();
                start.concat(debug_text(scope.as_str()).as_str())
            },
            BusError::EmptyBinding => "binding must not be empty".to_owned(),
            BusError::FocusedWithoutAppId => {
                "app_focused scope requires a non-empty app_id".to_owned()
            },
            BusError::AppIdMismatch { registered, claimed } => {
                let start: String = "app_id mismatch: caller registered as ".to_owned();
                start.concat(debug_text(registered.as_str()).as_str()).concat(
                    " but claimed ",
                ).concat(debug_text(claimed.as_str()).as_str())
            },
            BusError::FocusedUnregistered => {
                "app_focused scope requires RegisterApp on org.lunaris.App1 first".to_owned()
            },
            BusError::GlobalNotPermitted { app_id } => {
                let start: String =
                    "app_global scope requires the 'register_global_bindings' permission; ".to_owned();
                start.concat(debug_text(app_id.as_str()).as_str()).concat(" registered without it")
            },
            BusError::GlobalUnregistered => {
                "app_global scope requires RegisterApp with 'register_global_bindings' permission first".to_owned()
            },
        }
    }
}

/// The text of an error.
pub open spec fn message_of(e: ErrorModel) -> Seq<char> {
    match e {
        ErrorModel::NoSender => "no sender on D-Bus message"@,
        ErrorModel::EmptyAppId => "app_id must not be empty"@,
        ErrorModel::UnknownScope { scope } => "scope must be app_focused or app_global, got "@
            + text::debug_form(scope),
        ErrorModel::EmptyBinding => "binding must not be empty"@,
        ErrorModel::FocusedWithoutAppId => "app_focused scope requires a non-empty app_id"@,
        ErrorModel::AppIdMismatch { registered, claimed } =>
            "app_id mismatch: caller registered as "@ + text::debug_form(registered) + " but claimed "@
            + text::debug_form(claimed),
        ErrorModel::FocusedUnregistered =>
            "app_focused scope requires RegisterApp on org.lunaris.App1 first"@,
        ErrorModel::GlobalNotPermitted { app_id } =>
            "app_global scope requires the 'register_global_bindings' permission; "@ + text::debug_form(
            app_id,
        ) + " registered without it"@,
        ErrorModel::GlobalUnregistered =>
            "app_global scope requires RegisterApp with 'register_global_bindings' permission first"@,
    }
}

} // verus!
