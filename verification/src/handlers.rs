//! Handler shapes and the per-flavor dispatch discipline.
//!
//! A method handler is registered once, as an explicit sum of four shapes
//! ordered by specificity of state access: path-exclusive, interface-
//! exclusive, shared-immutable, and registry-exclusive. Resolution attempts
//! the most specific applicable access first; the fallback order is data, not
//! ad hoc checks.
//!
//! Three dispatch disciplines implement [`Handlers`]: `()` for handlers that
//! may move across threads, [`Local`] for thread-confined handlers, and
//! [`Par`] for the thread-shared flavor, whose fast path never takes the
//! registry exclusively.

use vstd::prelude::*;

use crate::crossroads::{
    dispatch_mut_excl_spec, dispatch_mut_shared_spec, run_ref_spec, CrV, Crossroads, IfaceData,
    MsgCtx, MsgCtxV, RefCtx,
};
use crate::err::{ErrKind, MethodErr, MethodErrV};
use crate::message::{
    clone_body, dispatch_res_v, method_return_spec, opt_msg_v, ArgV, BodyArg, Message, MessageV,
};

verus! {

/// A user-written method body, as data: what it answers given the call.
#[derive(Clone, Copy, PartialEq, Eq, Structural)]
pub enum UserMethod {
    /// Succeed with an empty payload.
    ReturnEmpty,
    /// Succeed, echoing the call's own arguments back.
    EchoArgs,
    /// Report a failure of the given kind.
    Fail(ErrKind),
}

/// What a user method answers: its payload, or the failure it reports.
pub open spec fn user_method_spec(u: UserMethod, m: MessageV) -> Result<Seq<ArgV>, MethodErrV> {
    match u {
        UserMethod::ReturnEmpty => Ok(Seq::<ArgV>::empty()),
        UserMethod::EchoArgs => Ok(m.body),
        UserMethod::Fail(k) => Err(MethodErrV { kind: k, detail: Seq::<char>::empty() }),
    }
}

/// Runs a user method against the call.
pub fn run_user_method(u: UserMethod, m: &Message) -> (r: Result<Vec<BodyArg>, MethodErr>)
    ensures
        match r {
            Ok(args) => user_method_spec(u, m@) == Ok::<Seq<ArgV>, MethodErrV>(args.deep_view()),
            Err(e) => user_method_spec(u, m@) == Err::<Seq<ArgV>, MethodErrV>(e@),
        },
{
    match u {
        UserMethod::ReturnEmpty => {
            let empty: Vec<BodyArg> = Vec::new();
            proof {
                assert(empty.deep_view() =~= Seq::<ArgV>::empty());
            }
            Ok(empty)
        },
        UserMethod::EchoArgs => Ok(clone_body(&m.body)),
        UserMethod::Fail(k) => Err(MethodErr { kind: k, detail: String::new() }),
    }
}

/// Packs a user method's answer into the reply message: a failure becomes the
/// protocol-level error reply, a success the method return with its payload.
pub fn posthandler(msg: &Message, r: Result<Vec<BodyArg>, MethodErr>) -> (out: Message)
    ensures
        out@ == match dispatch_args_v(&r) {
            Ok(args) => method_return_spec(msg@, args),
            Err(e) => crate::message::method_err_reply_spec(e, msg@),
        },
{
    match r {
        Err(e) => e.to_message(msg),
        Ok(args) => {
            let ghost argsv = args.deep_view();
            let mut out = msg.method_return();
            let n = args.len();
            let mut i: usize = 0;
            while i < n
                invariant
                    n == args.len(),
                    argsv == args.deep_view(),
                    0 <= i <= n,
                    out@ == (MessageV { body: argsv.take(i as int), ..method_return_spec(
                        msg@,
                        argsv,
                    ) }),
                decreases n - i,
            {
                out.append_arg(args[i].clone_arg());
                proof {
                    assert(out@.body =~= argsv.take(i as int + 1));
                    assert(out@ =~= (MessageV { body: argsv.take(i as int + 1), ..method_return_spec(msg@, argsv) }));
                }
                i = i + 1;
            }
            proof {
                assert(argsv.take(n as int) =~= argsv);
                assert(out@ =~= method_return_spec(msg@, argsv));
            }
            out
        },
    }
}

/// Mathematical model of a handler's answer.
pub open spec fn dispatch_args_v(r: &Result<Vec<BodyArg>, MethodErr>) -> Result<
    Seq<ArgV>,
    MethodErrV,
> {
    match r {
        Ok(args) => Ok(args.deep_view()),
        Err(e) => Err(e@),
    }
}

/// A handler that needs exclusive access to the addressed object's path-local
/// data only.
#[derive(Clone, Copy, PartialEq, Eq, Structural)]
pub enum PathAction {
    /// Count one more visit in the path-local data and answer the new count.
    BumpLocal,
    /// Answer how many interface instances are attached at the path.
    CountIfaces,
}

/// A handler that needs exclusive access to the one interface instance
/// attached at the path under the registered type tag.
#[derive(Clone, Copy, PartialEq, Eq, Structural)]
pub enum IfaceAction {
    /// Count one more invocation on the instance and answer the new count.
    Increment,
    /// Answer the instance's value.
    GetValue,
    /// Store the call's first argument as the instance's value.
    SetValue,
}

/// A handler that needs only shared access to the addressed object.
#[derive(Clone, Copy, PartialEq, Eq, Structural)]
pub enum RefAction {
    /// Run a user method against the call.
    Respond(UserMethod),
    /// Answer the invocation count of the instance with this type tag.
    ReadCounter { typeid: u64 },
}

/// A handler that needs exclusive access to the entire registry, for example
/// to add or remove objects as a side effect of the call. Handlers of this
/// shape are cheaply re-creatable: invocation copies them out of the registry
/// before running them against it.
#[derive(Clone, Copy, PartialEq, Eq, Structural)]
pub enum CrAction {
    /// Count one more invocation on the tagged instance at the addressed
    /// path, touching the registry as a whole.
    BumpCounterAt { typeid: u64 },
    /// Remove the addressed object from the path tree.
    RemoveAddressedObject,
}

/// The four handler shapes, ordered by specificity of state access: the sum
/// type every discipline's method type models down to.
#[derive(Clone, Copy, PartialEq, Eq, Structural)]
pub enum MethodModel {
    /// Exclusive access to the addressed object's path-local data only.
    MutPath(PathAction),
    /// Exclusive access to the one downcast interface instance.
    MutIface(IfaceAction),
    /// Shared access to context only: the fast path for the shared flavor.
    AllRef(RefAction),
    /// Exclusive access to the entire dispatch registry.
    MutCr(CrAction),
}

/// A property read handler.
#[derive(Clone, Copy, PartialEq, Eq, Structural)]
pub enum PropGetAction {
    /// Answer the instance's value.
    GetValue,
    /// Answer the instance's invocation count.
    GetCounter,
}

/// A property write handler; its answer says whether a change-notification
/// signal should be emitted.
#[derive(Clone, Copy, PartialEq, Eq, Structural)]
pub enum PropSetAction {
    /// Store the value and ask for a change notification.
    SetValueNotify,
    /// Store the value silently.
    SetValueQuiet,
}

/// The handler shapes of one dispatch discipline: how handlers of each kind
/// are represented and read back as their models.
pub trait HandlerTypes: Sized {
    /// The registered shape of a method handler; its view says which of the
    /// four shapes it is.
    type Method: View<V = MethodModel>;

    /// The registered shape of a property read handler.
    type GetProp: View<V = PropGetAction>;

    /// The registered shape of a property write handler.
    type SetProp: View<V = PropSetAction>;

    /// The shape of an interface instance attached at a path.
    type Iface: View<V = IfaceData>;

    /// Reads which shape a method handler is.
    fn method_action(m: &Self::Method) -> (a: MethodModel)
        ensures
            a == m@,
    ;

    /// Reads a property read handler's action.
    fn getprop_action(g: &Self::GetProp) -> (a: PropGetAction)
        ensures
            a == g@,
    ;

    /// Reads a property write handler's action.
    fn setprop_action(s: &Self::SetProp) -> (a: PropSetAction)
        ensures
            a == s@,
    ;

    /// Reads an attached instance's data.
    fn iface_data(i: &Self::Iface) -> (d: IfaceData)
        ensures
            d == i@,
    ;

    /// Overwrites an attached instance's data.
    fn set_iface_data(i: &mut Self::Iface, d: IfaceData)
        ensures
            final(i)@ == d,
    ;

    /// Wraps a fresh instance.
    fn make_iface(d: IfaceData) -> (i: Self::Iface)
        ensures
            i@ == d,
    ;

    /// Wraps a user method as a shared-access handler: the default shape.
    fn make_method(u: UserMethod) -> (m: Self::Method)
        ensures
            m@ == MethodModel::AllRef(RefAction::Respond(u)),
    ;
}

/// One dispatch discipline: how its handler shapes are resolved against the
/// registry, most specific applicable access first.
pub trait Handlers: HandlerTypes {
    /// How this discipline resolves a call against the registry.
    spec fn dispatch_spec(c: CrV, ctx: MsgCtxV) -> (CrV, Result<Option<MessageV>, MethodErrV>);

    /// Runs a shared-access handler against the addressed object.
    fn call_method_ref(m: &Self::Method, ctx: &MsgCtx, refctx: &RefCtx<'_, Self>) -> (r: Option<
        Message,
    >)
        requires
            m@ is AllRef,
        ensures
            opt_msg_v(r) == run_ref_spec(m@->AllRef_0, refctx.path@, ctx@),
    ;

    /// Resolves a call with exclusive registry access, as this discipline's
    /// [`dispatch_spec`](Handlers::dispatch_spec) says.
    fn call_method_mut(cr: &mut Crossroads<Self>, ctx: &MsgCtx) -> (r: Result<
        Option<Message>,
        MethodErr,
    >)
        ensures
            final(cr)@ == Self::dispatch_spec(old(cr)@, ctx@).0,
            dispatch_res_v(r) == Self::dispatch_spec(old(cr)@, ctx@).1,
    ;
}

/// Wraps a registered method handler for diagnostic display: a handler is
/// code, so nothing more telling than a placeholder can be shown of it.
pub struct DebugMethod<H: HandlerTypes>(pub H::Method);

impl<H: HandlerTypes> DebugMethod<H> {
    /// The diagnostic placeholder.
    pub fn describe(&self) -> (r: String)
        ensures
            r@ == "..."@,
    {
        "...".to_owned()
    }
}

/// Wraps a property handler pair for diagnostic display.
pub struct DebugProp<H: HandlerTypes>(pub Option<H::GetProp>, pub Option<H::SetProp>);

impl<H: HandlerTypes> DebugProp<H> {
    /// The diagnostic placeholder.
    pub fn describe(&self) -> (r: String)
        ensures
            r@ == "..."@,
    {
        "...".to_owned()
    }
}

/// Builds a registered handler shape out of a plainer description.
pub trait MakeHandler<T> {
    /// Performs the conversion.
    fn make(self) -> T;
}

/// The method type of the `()` discipline: handlers that may move across
/// threads.
pub struct SendMethod(pub SendMethods);

/// The four shapes a `()`-discipline handler can take.
pub enum SendMethods {
    MutPath(PathAction),
    MutIface(IfaceAction),
    AllRef(RefAction),
    MutCr(CrAction),
}

/// The method type of the [`Local`] discipline: thread-confined handlers.
pub struct LocalMethod(pub LocalMethods);

/// The four shapes a [`Local`]-discipline handler can take.
pub enum LocalMethods {
    MutPath(PathAction),
    MutIface(IfaceAction),
    AllRef(RefAction),
    MutCr(CrAction),
}

/// The method type of the [`Par`] discipline: only the shapes invocable from
/// the thread-shared flavor — shared-access handlers on the fast path, and
/// registry-exclusive handlers through the deferred slow path.
pub struct ParMethod(pub ParMethods);

/// The two shapes a [`Par`]-discipline handler can take.
pub enum ParMethods {
    AllRef(RefAction),
    MutCr(CrAction),
}

impl View for SendMethod {
    type V = MethodModel;

    open spec fn view(&self) -> MethodModel {
        match self.0 {
            SendMethods::MutPath(a) => MethodModel::MutPath(a),
            SendMethods::MutIface(a) => MethodModel::MutIface(a),
            SendMethods::AllRef(a) => MethodModel::AllRef(a),
            SendMethods::MutCr(a) => MethodModel::MutCr(a),
        }
    }
}

impl View for LocalMethod {
    type V = MethodModel;

    open spec fn view(&self) -> MethodModel {
        match self.0 {
            LocalMethods::MutPath(a) => MethodModel::MutPath(a),
            LocalMethods::MutIface(a) => MethodModel::MutIface(a),
            LocalMethods::AllRef(a) => MethodModel::AllRef(a),
            LocalMethods::MutCr(a) => MethodModel::MutCr(a),
        }
    }
}

impl View for ParMethod {
    type V = MethodModel;

    open spec fn view(&self) -> MethodModel {
        match self.0 {
            ParMethods::AllRef(a) => MethodModel::AllRef(a),
            ParMethods::MutCr(a) => MethodModel::MutCr(a),
        }
    }
}

impl View for PropGetAction {
    type V = PropGetAction;

    open spec fn view(&self) -> PropGetAction {
        *self
    }
}

impl View for PropSetAction {
    type V = PropSetAction;

    open spec fn view(&self) -> PropSetAction {
        *self
    }
}

/// Specifier for mutable, thread-confined registries: allows handlers that
/// need not be shareable across threads.
#[derive(Clone, Copy, PartialEq, Eq, Structural)]
pub struct Local;

/// Specifier for parallel registries: handler invocation may come from any
/// thread, so the fast path takes no exclusive registry access.
#[derive(Clone, Copy, PartialEq, Eq, Structural)]
pub struct Par;

impl HandlerTypes for () {
    type Method = SendMethod;

    type GetProp = PropGetAction;

    type SetProp = PropSetAction;

    type Iface = IfaceData;

    fn method_action(m: &SendMethod) -> (a: MethodModel) {
        match &m.0 {
            SendMethods::MutPath(a) => MethodModel::MutPath(*a),
            SendMethods::MutIface(a) => MethodModel::MutIface(*a),
            SendMethods::AllRef(a) => MethodModel::AllRef(*a),
            SendMethods::MutCr(a) => MethodModel::MutCr(*a),
        }
    }

    fn getprop_action(g: &PropGetAction) -> (a: PropGetAction) {
        *g
    }

    fn setprop_action(s: &PropSetAction) -> (a: PropSetAction) {
        *s
    }

    fn iface_data(i: &IfaceData) -> (d: IfaceData) {
        *i
    }

    fn set_iface_data(i: &mut IfaceData, d: IfaceData) {
        *i = d;
    }

    fn make_iface(d: IfaceData) -> (i: IfaceData) {
        d
    }

    fn make_method(u: UserMethod) -> (m: SendMethod) {
        SendMethod(SendMethods::AllRef(RefAction::Respond(u)))
    }
}

impl Handlers for () {
    open spec fn dispatch_spec(c: CrV, ctx: MsgCtxV) -> (CrV, Result<Option<MessageV>, MethodErrV>) {
        dispatch_mut_excl_spec(c, ctx)
    }

    fn call_method_ref(m: &SendMethod, ctx: &MsgCtx, refctx: &RefCtx<'_, ()>) -> (r: Option<
        Message,
    >) {
        match &m.0 {
            SendMethods::AllRef(a) => crate::crossroads::run_ref::<()>(*a, ctx, refctx),
            _ => {
                proof {
                    assert(false);
                }
                None
            },
        }
    }

    fn call_method_mut(cr: &mut Crossroads<()>, ctx: &MsgCtx) -> (r: Result<
        Option<Message>,
        MethodErr,
    >) {
        crate::crossroads::dispatch_mut_excl(cr, ctx)
    }
}

impl HandlerTypes for Local {
    type Method = LocalMethod;

    type GetProp = PropGetAction;

    type SetProp = PropSetAction;

    type Iface = IfaceData;

    fn method_action(m: &LocalMethod) -> (a: MethodModel) {
        match &m.0 {
            LocalMethods::MutPath(a) => MethodModel::MutPath(*a),
            LocalMethods::MutIface(a) => MethodModel::MutIface(*a),
            LocalMethods::AllRef(a) => MethodModel::AllRef(*a),
            LocalMethods::MutCr(a) => MethodModel::MutCr(*a),
        }
    }

    fn getprop_action(g: &PropGetAction) -> (a: PropGetAction) {
        *g
    }

    fn setprop_action(s: &PropSetAction) -> (a: PropSetAction) {
        *s
    }

    fn iface_data(i: &IfaceData) -> (d: IfaceData) {
        *i
    }

    fn set_iface_data(i: &mut IfaceData, d: IfaceData) {
        *i = d;
    }

    fn make_iface(d: IfaceData) -> (i: IfaceData) {
        d
    }

    fn make_method(u: UserMethod) -> (m: LocalMethod) {
        LocalMethod(LocalMethods::AllRef(RefAction::Respond(u)))
    }
}

impl Handlers for Local {
    open spec fn dispatch_spec(c: CrV, ctx: MsgCtxV) -> (CrV, Result<Option<MessageV>, MethodErrV>) {
        dispatch_mut_excl_spec(c, ctx)
    }

    fn call_method_ref(m: &LocalMethod, ctx: &MsgCtx, refctx: &RefCtx<'_, Local>) -> (r: Option<
        Message,
    >) {
        match &m.0 {
            LocalMethods::AllRef(a) => crate::crossroads::run_ref::<Local>(*a, ctx, refctx),
            _ => {
                proof {
                    assert(false);
                }
                None
            },
        }
    }

    fn call_method_mut(cr: &mut Crossroads<Local>, ctx: &MsgCtx) -> (r: Result<
        Option<Message>,
        MethodErr,
    >) {
        crate::crossroads::dispatch_mut_excl(cr, ctx)
    }
}

impl HandlerTypes for Par {
    type Method = ParMethod;

    type GetProp = PropGetAction;

    type SetProp = PropSetAction;

    type Iface = IfaceData;

    fn method_action(m: &ParMethod) -> (a: MethodModel) {
        match &m.0 {
            ParMethods::AllRef(a) => MethodModel::AllRef(*a),
            ParMethods::MutCr(a) => MethodModel::MutCr(*a),
        }
    }

    fn getprop_action(g: &PropGetAction) -> (a: PropGetAction) {
        *g
    }

    fn setprop_action(s: &PropSetAction) -> (a: PropSetAction) {
        *s
    }

    fn iface_data(i: &IfaceData) -> (d: IfaceData) {
        *i
    }

    fn set_iface_data(i: &mut IfaceData, d: IfaceData) {
        *i = d;
    }

    fn make_iface(d: IfaceData) -> (i: IfaceData) {
        d
    }

    fn make_method(u: UserMethod) -> (m: ParMethod) {
        ParMethod(ParMethods::AllRef(RefAction::Respond(u)))
    }
}

impl Handlers for Par {
    open spec fn dispatch_spec(c: CrV, ctx: MsgCtxV) -> (CrV, Result<Option<MessageV>, MethodErrV>) {
        dispatch_mut_shared_spec(c, ctx)
    }

    fn call_method_ref(m: &ParMethod, ctx: &MsgCtx, refctx: &RefCtx<'_, Par>) -> (r: Option<
        Message,
    >) {
        match &m.0 {
            ParMethods::AllRef(a) => crate::crossroads::run_ref::<Par>(*a, ctx, refctx),
            _ => {
                proof {
                    assert(false);
                }
                None
            },
        }
    }

    fn call_method_mut(cr: &mut Crossroads<Par>, ctx: &MsgCtx) -> (r: Result<
        Option<Message>,
        MethodErr,
    >) {
        crate::crossroads::dispatch_mut_shared(cr, ctx)
    }
}

impl MakeHandler<SendMethod> for UserMethod {
    fn make(self) -> SendMethod {
        SendMethod(SendMethods::AllRef(RefAction::Respond(self)))
    }
}

impl MakeHandler<SendMethod> for RefAction {
    fn make(self) -> SendMethod {
        SendMethod(SendMethods::AllRef(self))
    }
}

impl MakeHandler<SendMethod> for PathAction {
    fn make(self) -> SendMethod {
        SendMethod(SendMethods::MutPath(self))
    }
}

impl MakeHandler<SendMethod> for IfaceAction {
    fn make(self) -> SendMethod {
        SendMethod(SendMethods::MutIface(self))
    }
}

impl MakeHandler<SendMethod> for CrAction {
    fn make(self) -> SendMethod {
        SendMethod(SendMethods::MutCr(self))
    }
}

impl MakeHandler<LocalMethod> for UserMethod {
    fn make(self) -> LocalMethod {
        LocalMethod(LocalMethods::AllRef(RefAction::Respond(self)))
    }
}

impl MakeHandler<LocalMethod> for RefAction {
    fn make(self) -> LocalMethod {
        LocalMethod(LocalMethods::AllRef(self))
    }
}

impl MakeHandler<LocalMethod> for PathAction {
    fn make(self) -> LocalMethod {
        LocalMethod(LocalMethods::MutPath(self))
    }
}

impl MakeHandler<LocalMethod> for IfaceAction {
    fn make(self) -> LocalMethod {
        LocalMethod(LocalMethods::MutIface(self))
    }
}

impl MakeHandler<LocalMethod> for CrAction {
    fn make(self) -> LocalMethod {
        LocalMethod(LocalMethods::MutCr(self))
    }
}

impl MakeHandler<ParMethod> for UserMethod {
    fn make(self) -> ParMethod {
        ParMethod(ParMethods::AllRef(RefAction::Respond(self)))
    }
}

impl MakeHandler<ParMethod> for RefAction {
    fn make(self) -> ParMethod {
        ParMethod(ParMethods::AllRef(self))
    }
}

impl MakeHandler<ParMethod> for CrAction {
    fn make(self) -> ParMethod {
        ParMethod(ParMethods::MutCr(self))
    }
}

} // verus!
