//! Error values of the engine: the bus-level `Error` carried inside a reply,
//! the dispatch-time `MethodErr`, and the transport-level `SendError`.

use vstd::prelude::*;

verus! {

/// A bus-level error: a machine-readable error name plus a human-readable text.
///
/// A reply message of kind `Error` surfaces one of these to the waiting caller.
#[derive(Clone, Debug)]
pub struct Error {
    pub name: String,
    pub message: String,
}

/// Mathematical model of an [`Error`].
#[verifier::ext_equal]
pub struct ErrorV {
    pub name: Seq<char>,
    pub message: Seq<char>,
}

impl View for Error {
    type V = ErrorV;

    open spec fn view(&self) -> ErrorV {
        ErrorV { name: self.name@, message: self.message@ }
    }
}

/// The error name used for a locally produced failure.
pub open spec fn failed_error_name() -> Seq<char> {
    "org.freedesktop.DBus.Error.Failed"@
}

impl Error {
    /// Builds an error with an explicit name and text.
    pub fn new(name: String, message: String) -> (r: Error)
        ensures
            r@.name == name@,
            r@.message == message@,
    {
        Error { name, message }
    }

    /// Builds a generic local failure, named as such.
    pub fn new_failed(message: String) -> (r: Error)
        ensures
            r@.name == failed_error_name(),
            r@.message == message@,
    {
        Error { name: "org.freedesktop.DBus.Error.Failed".to_owned(), message }
    }

    /// The machine-readable error name.
    pub fn name(&self) -> (r: &String)
        ensures
            r@ == self@.name,
    {
        &self.name
    }

    /// The human-readable error text.
    pub fn message(&self) -> (r: &String)
        ensures
            r@ == self@.message,
    {
        &self.message
    }
}

/// The transport could not send: surfaced immediately, never retried.
#[derive(Clone, Copy, PartialEq, Eq, Structural, Debug)]
pub struct SendError;

/// The ways resolving an incoming call to a handler can fail.
///
/// Every value is converted into a protocol-level error reply and sent back;
/// resolution failures never abort the dispatch loop.
#[derive(Clone, Copy, PartialEq, Eq, Structural, Debug)]
pub enum ErrKind {
    /// No interface of the requested name is registered.
    NoSuchInterface,
    /// The interface exists but has no method of the requested name.
    NoSuchMethod,
    /// No object is attached at the requested path.
    NoSuchPath,
    /// The interface exists but has no property of the requested name.
    NoSuchProperty,
    /// The arguments of the call do not have the expected shape.
    InvalidArgs,
    /// Any other failure reported by a handler.
    Failed,
}

/// A dispatch-time resolution failure, with the name that failed to resolve.
#[derive(Clone, Debug)]
pub struct MethodErr {
    pub kind: ErrKind,
    pub detail: String,
}

/// Mathematical model of a [`MethodErr`].
#[verifier::ext_equal]
pub struct MethodErrV {
    pub kind: ErrKind,
    pub detail: Seq<char>,
}

impl View for MethodErr {
    type V = MethodErrV;

    open spec fn view(&self) -> MethodErrV {
        MethodErrV { kind: self.kind, detail: self.detail@ }
    }
}

/// The protocol-level error name that announces each resolution failure.
pub open spec fn err_kind_name(k: ErrKind) -> Seq<char> {
    match k {
        ErrKind::NoSuchInterface => "org.freedesktop.DBus.Error.UnknownInterface"@,
        ErrKind::NoSuchMethod => "org.freedesktop.DBus.Error.UnknownMethod"@,
        ErrKind::NoSuchPath => "org.freedesktop.DBus.Error.UnknownObject"@,
        ErrKind::NoSuchProperty => "org.freedesktop.DBus.Error.UnknownProperty"@,
        ErrKind::InvalidArgs => "org.freedesktop.DBus.Error.InvalidArgs"@,
        ErrKind::Failed => "org.freedesktop.DBus.Error.Failed"@,
    }
}

impl MethodErr {
    /// Builds the failure for an interface that is not registered.
    pub fn no_interface(name: &String) -> (r: MethodErr)
        ensures
            r@.kind == ErrKind::NoSuchInterface,
            r@.detail == name@,
    {
        MethodErr { kind: ErrKind::NoSuchInterface, detail: name.clone() }
    }

    /// Builds the failure for a method that the interface does not have.
    pub fn no_method(name: &String) -> (r: MethodErr)
        ensures
            r@.kind == ErrKind::NoSuchMethod,
            r@.detail == name@,
    {
        MethodErr { kind: ErrKind::NoSuchMethod, detail: name.clone() }
    }

    /// Builds the failure for a path with no object attached.
    pub fn no_path(name: &String) -> (r: MethodErr)
        ensures
            r@.kind == ErrKind::NoSuchPath,
            r@.detail == name@,
    {
        MethodErr { kind: ErrKind::NoSuchPath, detail: name.clone() }
    }

    /// Builds the failure for a property that the interface does not have.
    pub fn no_property(name: &String) -> (r: MethodErr)
        ensures
            r@.kind == ErrKind::NoSuchProperty,
            r@.detail == name@,
    {
        MethodErr { kind: ErrKind::NoSuchProperty, detail: name.clone() }
    }

    /// The protocol-level error name for this failure.
    pub fn error_name(&self) -> (r: String)
        ensures
            r@ == err_kind_name(self@.kind),
    {
        match self.kind {
            ErrKind::NoSuchInterface => "org.freedesktop.DBus.Error.UnknownInterface".to_owned(),
            ErrKind::NoSuchMethod => "org.freedesktop.DBus.Error.UnknownMethod".to_owned(),
            ErrKind::NoSuchPath => "org.freedesktop.DBus.Error.UnknownObject".to_owned(),
            ErrKind::NoSuchProperty => "org.freedesktop.DBus.Error.UnknownProperty".to_owned(),
            ErrKind::InvalidArgs => "org.freedesktop.DBus.Error.InvalidArgs".to_owned(),
            ErrKind::Failed => "org.freedesktop.DBus.Error.Failed".to_owned(),
        }
    }
}

} // verus!
