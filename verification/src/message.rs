//! The message value the engine routes: a kind, a unique outbound serial, an
//! optional reply-serial that correlates a reply with its call, addressing
//! metadata, and a typed payload.
//!
//! Byte-level encoding is the codec's business, not the engine's: a payload is
//! modeled as a sequence of typed argument values.

use vstd::prelude::*;

use crate::err::{err_kind_name, Error, ErrorV, ErrKind, MethodErr, MethodErrV};

verus! {

/// The four kinds of message the bus carries.
#[derive(Clone, Copy, PartialEq, Eq, Structural, Debug)]
pub enum MessageType {
    /// A call addressed to `(destination, path, interface, member)`.
    MethodCall,
    /// A successful reply; carries the originating call's serial.
    MethodReturn,
    /// An error reply; carries the originating call's serial and an error name.
    Error,
    /// A broadcast that signal filters route; expects no reply.
    Signal,
}

/// One typed argument of a message payload.
#[derive(Clone)]
pub enum BodyArg {
    Bool(bool),
    U32(u32),
    Str(String),
}

/// Mathematical model of a [`BodyArg`].
pub enum ArgV {
    Bool(bool),
    U32(u32),
    Str(Seq<char>),
}

impl View for BodyArg {
    type V = ArgV;

    open spec fn view(&self) -> ArgV {
        match self {
            BodyArg::Bool(b) => ArgV::Bool(*b),
            BodyArg::U32(n) => ArgV::U32(*n),
            BodyArg::Str(s) => ArgV::Str(s@),
        }
    }
}

impl DeepView for BodyArg {
    type V = ArgV;

    open spec fn deep_view(&self) -> ArgV {
        self@
    }
}

/// A message: the unit of everything the engine sends or receives.
///
/// A serial of zero means "not yet assigned"; the transport channel assigns
/// the definitive serial when the message is sent.
#[derive(Clone)]
pub struct Message {
    pub msg_type: MessageType,
    pub serial: u32,
    pub reply_serial: Option<u32>,
    pub destination: Option<String>,
    pub sender: Option<String>,
    pub path: Option<String>,
    pub interface: Option<String>,
    pub member: Option<String>,
    pub error_name: Option<String>,
    pub no_reply_expected: bool,
    pub body: Vec<BodyArg>,
}

/// Mathematical model of a [`Message`].
#[verifier::ext_equal]
pub struct MessageV {
    pub msg_type: MessageType,
    pub serial: u32,
    pub reply_serial: Option<u32>,
    pub destination: Option<Seq<char>>,
    pub sender: Option<Seq<char>>,
    pub path: Option<Seq<char>>,
    pub interface: Option<Seq<char>>,
    pub member: Option<Seq<char>>,
    pub error_name: Option<Seq<char>>,
    pub no_reply_expected: bool,
    pub body: Seq<ArgV>,
}

impl View for Message {
    type V = MessageV;

    open spec fn view(&self) -> MessageV {
        MessageV {
            msg_type: self.msg_type,
            serial: self.serial,
            reply_serial: self.reply_serial,
            destination: self.destination.deep_view(),
            sender: self.sender.deep_view(),
            path: self.path.deep_view(),
            interface: self.interface.deep_view(),
            member: self.member.deep_view(),
            error_name: self.error_name.deep_view(),
            no_reply_expected: self.no_reply_expected,
            body: self.body.deep_view(),
        }
    }
}

impl DeepView for Message {
    type V = MessageV;

    open spec fn deep_view(&self) -> MessageV {
        self@
    }
}

impl MessageV {
    /// Whether a reply is owed for this message: only an outstanding call
    /// whose sender did not waive the reply expects one.
    pub open spec fn expects_reply(self) -> bool {
        self.msg_type == MessageType::MethodCall && !self.no_reply_expected
    }
}

impl Message {
    /// Builds a call addressed to a method of an interface on an object of a
    /// destination. The serial stays unassigned until the channel sends it.
    pub fn method_call(
        destination: String,
        path: String,
        interface: String,
        member: String,
    ) -> (r: Message)
        ensures
            r@ == (MessageV {
                msg_type: MessageType::MethodCall,
                serial: 0u32,
                reply_serial: None::<u32>,
                destination: Some(destination@),
                sender: None::<Seq<char>>,
                path: Some(path@),
                interface: Some(interface@),
                member: Some(member@),
                error_name: None::<Seq<char>>,
                no_reply_expected: false,
                body: Seq::<ArgV>::empty(),
            }),
    {
        let r = Message {
            msg_type: MessageType::MethodCall,
            serial: 0,
            reply_serial: None,
            destination: Some(destination),
            sender: None,
            path: Some(path),
            interface: Some(interface),
            member: Some(member),
            error_name: None,
            no_reply_expected: false,
            body: Vec::new(),
        };
        proof {
            assert(r@.body =~= Seq::<ArgV>::empty());
        }
        r
    }

    /// Builds a signal originating from a path, interface and member.
    pub fn signal(path: String, interface: String, member: String) -> (r: Message)
        ensures
            r@ == (MessageV {
                msg_type: MessageType::Signal,
                serial: 0u32,
                reply_serial: None::<u32>,
                destination: None::<Seq<char>>,
                sender: None::<Seq<char>>,
                path: Some(path@),
                interface: Some(interface@),
                member: Some(member@),
                error_name: None::<Seq<char>>,
                no_reply_expected: true,
                body: Seq::<ArgV>::empty(),
            }),
    {
        let r = Message {
            msg_type: MessageType::Signal,
            serial: 0,
            reply_serial: None,
            destination: None,
            sender: None,
            path: Some(path),
            interface: Some(interface),
            member: Some(member),
            error_name: None,
            no_reply_expected: true,
            body: Vec::new(),
        };
        proof {
            assert(r@.body =~= Seq::<ArgV>::empty());
        }
        r
    }

    /// Builds the successful reply to this call: a `MethodReturn` whose
    /// reply-serial echoes this message's serial, with an empty payload.
    pub fn method_return(&self) -> (r: Message)
        ensures
            r@ == (MessageV {
                msg_type: MessageType::MethodReturn,
                serial: 0u32,
                reply_serial: Some(self@.serial),
                destination: self@.sender,
                sender: None::<Seq<char>>,
                path: None::<Seq<char>>,
                interface: None::<Seq<char>>,
                member: None::<Seq<char>>,
                error_name: None::<Seq<char>>,
                no_reply_expected: true,
                body: Seq::<ArgV>::empty(),
            }),
    {
        let r = Message {
            msg_type: MessageType::MethodReturn,
            serial: 0,
            reply_serial: Some(self.serial),
            destination: clone_opt_string(&self.sender),
            sender: None,
            path: None,
            interface: None,
            member: None,
            error_name: None,
            no_reply_expected: true,
            body: Vec::new(),
        };
        proof {
            assert(r@.body =~= Seq::<ArgV>::empty());
        }
        r
    }

    /// Builds the error reply to this call: an `Error` whose reply-serial
    /// echoes this message's serial, carrying the error name and one text
    /// argument.
    pub fn error_reply(&self, name: String, text: String) -> (r: Message)
        ensures
            r@ == (MessageV {
                msg_type: MessageType::Error,
                serial: 0u32,
                reply_serial: Some(self@.serial),
                destination: self@.sender,
                sender: None::<Seq<char>>,
                path: None::<Seq<char>>,
                interface: None::<Seq<char>>,
                member: None::<Seq<char>>,
                error_name: Some(name@),
                no_reply_expected: true,
                body: seq![ArgV::Str(text@)],
            }),
    {
        let mut body: Vec<BodyArg> = Vec::new();
        body.push(BodyArg::Str(text));
        proof {
            assert(body.deep_view() =~= seq![ArgV::Str(text@)]);
        }
        let r = Message {
            msg_type: MessageType::Error,
            serial: 0,
            reply_serial: Some(self.serial),
            destination: clone_opt_string(&self.sender),
            sender: None,
            path: None,
            interface: None,
            member: None,
            error_name: Some(name),
            no_reply_expected: true,
            body,
        };
        r
    }

    /// Appends one typed argument to the payload.
    pub fn append_arg(&mut self, a: BodyArg)
        ensures
            final(self)@ == (MessageV { body: old(self)@.body.push(a@), ..old(self)@ }),
    {
        let ghost prev = self@;
        self.body.push(a);
        proof {
            assert(self@.body =~= prev.body.push(self.body@.last()@));
        }
    }

    /// The serial of the call this message replies to, if it is a reply.
    pub fn get_reply_serial(&self) -> (r: Option<u32>)
        ensures
            r == self@.reply_serial,
    {
        self.reply_serial
    }

    /// Whether the sender of this message is owed a reply.
    pub fn expects_reply(&self) -> (r: bool)
        ensures
            r == self@.expects_reply(),
    {
        match self.msg_type {
            MessageType::MethodCall => !self.no_reply_expected,
            _ => false,
        }
    }
}

/// The reply owed for a message that matched nothing: a call that expects a
/// reply is answered with a standard "unknown method" error; everything else
/// is owed nothing.
pub open spec fn default_reply_spec(m: MessageV) -> Option<MessageV> {
    if m.expects_reply() {
        Some(MessageV {
            msg_type: MessageType::Error,
            serial: 0u32,
            reply_serial: Some(m.serial),
            destination: m.sender,
            sender: None,
            path: None,
            interface: None,
            member: None,
            error_name: Some(err_kind_name(ErrKind::NoSuchMethod)),
            no_reply_expected: true,
            body: seq![ArgV::Str("Path, interface, or method did not exist"@)],
        })
    } else {
        None
    }
}

/// Synthesizes the error reply owed for a message that matched nothing.
///
/// The dispatch loop never silently drops a message whose sender awaits a
/// reply.
pub fn default_reply(m: &Message) -> (r: Option<Message>)
    ensures
        match r {
            Some(reply) => default_reply_spec(m@) == Some(reply@),
            None => default_reply_spec(m@) is None,
        },
{
    if m.expects_reply() {
        Some(m.error_reply(
            "org.freedesktop.DBus.Error.UnknownMethod".to_owned(),
            "Path, interface, or method did not exist".to_owned(),
        ))
    } else {
        None
    }
}

/// The successful reply to a call, carrying a typed payload.
pub open spec fn method_return_spec(m: MessageV, body: Seq<ArgV>) -> MessageV {
    MessageV {
        msg_type: MessageType::MethodReturn,
        serial: 0u32,
        reply_serial: Some(m.serial),
        destination: m.sender,
        sender: None,
        path: None,
        interface: None,
        member: None,
        error_name: None,
        no_reply_expected: true,
        body: body,
    }
}

/// The protocol-level error reply a resolution failure converts into.
pub open spec fn method_err_reply_spec(e: MethodErrV, m: MessageV) -> MessageV {
    MessageV {
        msg_type: MessageType::Error,
        serial: 0u32,
        reply_serial: Some(m.serial),
        destination: m.sender,
        sender: None,
        path: None,
        interface: None,
        member: None,
        error_name: Some(err_kind_name(e.kind)),
        no_reply_expected: true,
        body: seq![ArgV::Str(e.detail)],
    }
}

impl MethodErr {
    /// Converts this resolution failure into the protocol-level error reply
    /// for the offending call.
    pub fn to_message(&self, m: &Message) -> (r: Message)
        ensures
            r@ == method_err_reply_spec(self@, m@),
    {
        m.error_reply(self.error_name(), self.detail.clone())
    }
}

/// Mathematical model of an optional reply.
pub open spec fn opt_msg_v(r: Option<Message>) -> Option<MessageV> {
    match r {
        Some(m) => Some(m@),
        None => None,
    }
}

/// Mathematical model of a dispatch result.
pub open spec fn dispatch_res_v(r: Result<Option<Message>, MethodErr>) -> Result<
    Option<MessageV>,
    MethodErrV,
> {
    match r {
        Ok(m) => Ok(opt_msg_v(m)),
        Err(e) => Err(e@),
    }
}

/// Reads the bus-level error a reply of kind `Error` carries.
pub open spec fn error_of_reply_spec(m: MessageV) -> ErrorV {
    crate::err::ErrorV {
        name: match m.error_name {
            Some(n) => n,
            None => err_kind_name(ErrKind::Failed),
        },
        message: if m.body.len() > 0 && m.body[0] is Str {
            m.body[0]->Str_0
        } else {
            Seq::<char>::empty()
        },
    }
}

/// Extracts the typed error a reply of kind `Error` surfaces to the caller.
pub fn error_of_reply(m: &Message) -> (r: Error)
    ensures
        r@ == error_of_reply_spec(m@),
{
    let name: String = match &m.error_name {
        Some(n) => n.clone(),
        None => "org.freedesktop.DBus.Error.Failed".to_owned(),
    };
    let text: String = if m.body.len() > 0 {
        match &m.body[0] {
            BodyArg::Str(s) => s.clone(),
            _ => String::new(),
        }
    } else {
        String::new()
    };
    Error::new(name, text)
}

impl BodyArg {
    /// Clones one typed argument, field for field.
    pub fn clone_arg(&self) -> (r: BodyArg)
        ensures
            r@ == self@,
    {
        match self {
            BodyArg::Bool(b) => BodyArg::Bool(*b),
            BodyArg::U32(n) => BodyArg::U32(*n),
            BodyArg::Str(s) => BodyArg::Str(s.clone()),
        }
    }
}

/// Clones a payload, argument for argument.
pub fn clone_body(v: &Vec<BodyArg>) -> (r: Vec<BodyArg>)
    ensures
        r.deep_view() == v.deep_view(),
{
    let mut r: Vec<BodyArg> = Vec::new();
    let n = v.len();
    let mut i: usize = 0;
    while i < n
        invariant
            n == v.len(),
            0 <= i <= n,
            r.deep_view() == v.deep_view().take(i as int),
        decreases n - i,
    {
        let ghost prevr = r.deep_view();
        let cloned = v[i].clone_arg();
        let ghost cv = cloned@;
        proof {
            assert(cv == v.deep_view()[i as int]);
        }
        r.push(cloned);
        proof {
            assert(r.deep_view() =~= prevr.push(cv));
            assert(prevr.push(cv) =~= v.deep_view().take(i as int + 1));
        }
        i = i + 1;
    }
    proof {
        assert(v.deep_view().take(n as int) =~= v.deep_view());
    }
    r
}

impl Message {
    /// Clones a message, field for field.
    pub fn clone_msg(&self) -> (r: Message)
        ensures
            r@ == self@,
    {
        let r = Message {
            msg_type: self.msg_type,
            serial: self.serial,
            reply_serial: self.reply_serial,
            destination: clone_opt_string(&self.destination),
            sender: clone_opt_string(&self.sender),
            path: clone_opt_string(&self.path),
            interface: clone_opt_string(&self.interface),
            member: clone_opt_string(&self.member),
            error_name: clone_opt_string(&self.error_name),
            no_reply_expected: self.no_reply_expected,
            body: clone_body(&self.body),
        };
        proof {
            assert(r@ =~= self@);
        }
        r
    }
}

/// Clones an optional string, field for field.
pub fn clone_opt_string(o: &Option<String>) -> (r: Option<String>)
    ensures
        r.deep_view() == o.deep_view(),
{
    match o {
        Some(s) => Some(s.clone()),
        None => None,
    }
}

} // verus!
