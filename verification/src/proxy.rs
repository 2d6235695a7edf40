//! A client-side stand-in for a remote object: a destination and an object
//! path, with typed method calls that resolve to future replies.

use vstd::prelude::*;

use crate::connection::call_with_reply_spec;
use crate::message::{ArgV, BodyArg, Message, MessageType, MessageV};
use crate::nonblock::NonblockReply;
use crate::reply::{MethodReply, ReadFn};

verus! {

/// The call message a proxy issues: a method call addressed to the proxy's
/// destination and path, carrying the given arguments.
pub open spec fn proxy_call_msg(
    destination: Seq<char>,
    path: Seq<char>,
    interface: Seq<char>,
    member: Seq<char>,
    args: Seq<ArgV>,
) -> MessageV {
    MessageV {
        msg_type: MessageType::MethodCall,
        serial: 0u32,
        reply_serial: None,
        destination: Some(destination),
        sender: None,
        path: Some(path),
        interface: Some(interface),
        member: Some(member),
        error_name: None,
        no_reply_expected: false,
        body: args,
    }
}

/// A client-side object reference: calling methods on the proxy calls methods
/// on the remote object behind `(destination, path)`.
pub struct Proxy {
    /// The bus name of the service spoken to.
    pub destination: String,
    /// The object path on that destination.
    pub path: String,
}

impl Proxy {
    /// Creates a new proxy for an object of a destination.
    pub fn new(destination: String, path: String) -> (r: Proxy)
        ensures
            r.destination@ == destination@,
            r.path@ == path@,
    {
        Proxy { destination, path }
    }

    /// Makes a method call with typed arguments and returns a future that
    /// resolves to the typed result of the eventual single reply.
    ///
    /// If the send fails, the returned future is already resolved to the send
    /// failure, and nothing stays tabled.
    pub fn method_call<C: NonblockReply>(
        &self,
        conn: &mut C,
        interface: String,
        member: String,
        args: Vec<BodyArg>,
        read: ReadFn,
    ) -> (mr: MethodReply)
        requires
            old(conn).inv(),
        ensures
            final(conn).inv(),
            final(conn).conn() == call_with_reply_spec(
                old(conn).conn(),
                proxy_call_msg(
                    self.destination@,
                    self.path@,
                    interface@,
                    member@,
                    args.deep_view(),
                ),
                read,
            ).0,
            mr@ == call_with_reply_spec(
                old(conn).conn(),
                proxy_call_msg(
                    self.destination@,
                    self.path@,
                    interface@,
                    member@,
                    args.deep_view(),
                ),
                read,
            ).1,
    {
        let ghost iv = interface@;
        let ghost mv = member@;
        let ghost target = proxy_call_msg(
            self.destination@,
            self.path@,
            iv,
            mv,
            args.deep_view(),
        );
        let mut msg = Message::method_call(
            self.destination.clone(),
            self.path.clone(),
            interface,
            member,
        );
        proof {
            assert(msg@ =~= (MessageV { body: args.deep_view().take(0), ..target }));
        }
        let n = args.len();
        let mut i: usize = 0;
        while i < n
            invariant
                n == args.len(),
                0 <= i <= n,
                target == proxy_call_msg(self.destination@, self.path@, iv, mv, args.deep_view()),
                msg@ == (MessageV { body: args.deep_view().take(i as int), ..target }),
            decreases n - i,
        {
            msg.append_arg(args[i].clone_arg());
            proof {
                assert(msg@.body =~= args.deep_view().take(i as int + 1));
                assert(msg@ =~= (MessageV { body: args.deep_view().take(i as int + 1), ..target }));
            }
            i = i + 1;
        }
        proof {
            assert(args.deep_view().take(n as int) =~= args.deep_view());
            assert(msg@ =~= target);
        }
        conn.call_with_reply(msg, read)
    }
}

} // verus!
