//! The handler registry and method invoker: a tree of addressable objects —
//! path → attached interface instances — plus per-interface method and
//! property tables, and the resolution that routes an incoming call to
//! exactly one handler with a deterministic fallback order.

use vstd::prelude::*;

use crate::err::{ErrKind, MethodErr, MethodErrV};
use crate::handlers::{
    CrAction, HandlerTypes, Handlers, IfaceAction, MethodModel, PathAction, PropGetAction,
    PropSetAction, RefAction, run_user_method, user_method_spec,
};
use crate::message::{
    ArgV, BodyArg, Message, MessageType, MessageV, method_err_reply_spec,
    method_return_spec,
};
use crate::search::{find_first, lemma_find_first, lemma_find_first_found};

verus! {

/// One interface instance's data, attached at a path and found by type tag.
#[derive(Clone, Copy, PartialEq, Eq, Structural)]
pub struct IfaceData {
    /// How many times a counting handler ran against this instance.
    pub counter: u64,
    /// The one settable, gettable value this instance carries.
    pub value: u64,
}

impl View for IfaceData {
    type V = IfaceData;

    open spec fn view(&self) -> IfaceData {
        *self
    }
}

impl IfaceData {
    /// An instance with both fields at zero.
    pub fn new() -> (r: IfaceData)
        ensures
            r == (IfaceData { counter: 0u64, value: 0u64 }),
    {
        IfaceData { counter: 0, value: 0 }
    }
}

/// The context of one call being dispatched: the message and the addressing
/// triple resolved out of it.
pub struct MsgCtx {
    pub message: Message,
    pub path: String,
    pub interface: String,
    pub member: String,
}

/// Mathematical model of a [`MsgCtx`].
#[verifier::ext_equal]
pub struct MsgCtxV {
    pub message: MessageV,
    pub path: Seq<char>,
    pub interface: Seq<char>,
    pub member: Seq<char>,
}

impl View for MsgCtx {
    type V = MsgCtxV;

    open spec fn view(&self) -> MsgCtxV {
        MsgCtxV {
            message: self.message@,
            path: self.path@,
            interface: self.interface@,
            member: self.member@,
        }
    }
}

/// The addressing triple a call must carry: missing pieces resolve to the
/// matching dispatch failure.
pub open spec fn ctx_of_spec(m: MessageV) -> Result<MsgCtxV, MethodErrV> {
    if m.path is None {
        Err(MethodErrV { kind: ErrKind::NoSuchPath, detail: Seq::<char>::empty() })
    } else if m.interface is None {
        Err(MethodErrV { kind: ErrKind::NoSuchInterface, detail: Seq::<char>::empty() })
    } else if m.member is None {
        Err(MethodErrV { kind: ErrKind::NoSuchMethod, detail: Seq::<char>::empty() })
    } else {
        Ok(
            MsgCtxV {
                message: m,
                path: m.path->0,
                interface: m.interface->0,
                member: m.member->0,
            },
        )
    }
}

impl MsgCtx {
    /// Resolves the addressing triple out of a call message.
    pub fn from_message(message: Message) -> (r: Result<MsgCtx, MethodErr>)
        ensures
            match r {
                Ok(ctx) => ctx_of_spec(message@) == Ok::<MsgCtxV, MethodErrV>(ctx@),
                Err(e) => ctx_of_spec(message@) == Err::<MsgCtxV, MethodErrV>(e@),
            },
    {
        let path = match &message.path {
            Some(p) => p.clone(),
            None => {
                return Err(MethodErr { kind: ErrKind::NoSuchPath, detail: String::new() });
            },
        };
        let interface = match &message.interface {
            Some(i) => i.clone(),
            None => {
                return Err(MethodErr { kind: ErrKind::NoSuchInterface, detail: String::new() });
            },
        };
        let member = match &message.member {
            Some(mb) => mb.clone(),
            None => {
                return Err(MethodErr { kind: ErrKind::NoSuchMethod, detail: String::new() });
            },
        };
        Ok(MsgCtx { message, path, interface, member })
    }
}

/// One method of an interface: its name and its registered handler.
pub struct MethodInfo<H: HandlerTypes> {
    pub name: String,
    pub handler: H::Method,
}

/// Mathematical model of a [`MethodInfo`].
#[verifier::ext_equal]
pub struct MethodInfoV {
    pub name: Seq<char>,
    pub handler: MethodModel,
}

impl<H: HandlerTypes> View for MethodInfo<H> {
    type V = MethodInfoV;

    open spec fn view(&self) -> MethodInfoV {
        MethodInfoV { name: self.name@, handler: self.handler@ }
    }
}

impl<H: HandlerTypes> DeepView for MethodInfo<H> {
    type V = MethodInfoV;

    open spec fn deep_view(&self) -> MethodInfoV {
        self@
    }
}

/// One property of an interface: its name and its optional accessors.
pub struct PropInfo<H: HandlerTypes> {
    pub name: String,
    pub get: Option<H::GetProp>,
    pub set: Option<H::SetProp>,
}

/// Mathematical model of a [`PropInfo`].
#[verifier::ext_equal]
pub struct PropInfoV {
    pub name: Seq<char>,
    pub get: Option<PropGetAction>,
    pub set: Option<PropSetAction>,
}

impl<H: HandlerTypes> View for PropInfo<H> {
    type V = PropInfoV;

    open spec fn view(&self) -> PropInfoV {
        PropInfoV {
            name: self.name@,
            get: match &self.get {
                Some(g) => Some(g@),
                None => None,
            },
            set: match &self.set {
                Some(s) => Some(s@),
                None => None,
            },
        }
    }
}

impl<H: HandlerTypes> DeepView for PropInfo<H> {
    type V = PropInfoV;

    open spec fn deep_view(&self) -> PropInfoV {
        self@
    }
}

/// One registered interface: its name, the type tag its instances carry, and
/// its method and property tables, filled once at setup time.
pub struct IfaceEntry<H: HandlerTypes> {
    pub name: String,
    pub typeid: u64,
    pub methods: Vec<MethodInfo<H>>,
    pub props: Vec<PropInfo<H>>,
}

/// Mathematical model of an [`IfaceEntry`].
#[verifier::ext_equal]
pub struct IfaceEntryV {
    pub name: Seq<char>,
    pub typeid: u64,
    pub methods: Seq<MethodInfoV>,
    pub props: Seq<PropInfoV>,
}

impl<H: HandlerTypes> View for IfaceEntry<H> {
    type V = IfaceEntryV;

    open spec fn view(&self) -> IfaceEntryV {
        IfaceEntryV {
            name: self.name@,
            typeid: self.typeid,
            methods: self.methods.deep_view(),
            props: self.props.deep_view(),
        }
    }
}

impl<H: HandlerTypes> DeepView for IfaceEntry<H> {
    type V = IfaceEntryV;

    open spec fn deep_view(&self) -> IfaceEntryV {
        self@
    }
}

/// One addressable object: its path, its path-local data, and the interface
/// instances attached to it, each under the type tag it was registered with.
pub struct PathData<H: HandlerTypes> {
    pub name: String,
    /// Path-local data: what a path-exclusive handler mutates.
    pub local: u64,
    pub ifaces: Vec<(u64, H::Iface)>,
}

/// Mathematical model of a [`PathData`].
#[verifier::ext_equal]
pub struct PathV {
    pub name: Seq<char>,
    pub local: u64,
    pub ifaces: Seq<(u64, IfaceData)>,
}

/// The model of one attached instance.
pub open spec fn iface_pair_v<H: HandlerTypes>(e: (u64, H::Iface)) -> (u64, IfaceData) {
    (e.0, e.1@)
}

impl<H: HandlerTypes> View for PathData<H> {
    type V = PathV;

    open spec fn view(&self) -> PathV {
        PathV {
            name: self.name@,
            local: self.local,
            ifaces: self.ifaces@.map_values(|e: (u64, H::Iface)| iface_pair_v::<H>(e)),
        }
    }
}

impl<H: HandlerTypes> DeepView for PathData<H> {
    type V = PathV;

    open spec fn deep_view(&self) -> PathV {
        self@
    }
}

/// The context a shared-access handler reads: the addressed object.
pub struct RefCtx<'a, H: HandlerTypes> {
    pub path: &'a PathData<H>,
}

/// The whole dispatch registry: the interface table and the path tree.
pub struct Crossroads<H: HandlerTypes> {
    pub reg: Vec<IfaceEntry<H>>,
    pub paths: Vec<PathData<H>>,
}

/// Mathematical model of a [`Crossroads`].
#[verifier::ext_equal]
pub struct CrV {
    pub reg: Seq<IfaceEntryV>,
    pub paths: Seq<PathV>,
}

impl<H: HandlerTypes> View for Crossroads<H> {
    type V = CrV;

    open spec fn view(&self) -> CrV {
        CrV { reg: self.reg.deep_view(), paths: self.paths.deep_view() }
    }
}

/// Position of the interface entry with a name.
pub open spec fn find_iface(reg: Seq<IfaceEntryV>, name: Seq<char>) -> Option<int> {
    find_first(reg, |e: IfaceEntryV| e.name == name)
}

/// Position of the method with a name.
pub open spec fn find_method(methods: Seq<MethodInfoV>, name: Seq<char>) -> Option<int> {
    find_first(methods, |e: MethodInfoV| e.name == name)
}

/// Position of the property with a name.
pub open spec fn find_prop(props: Seq<PropInfoV>, name: Seq<char>) -> Option<int> {
    find_first(props, |e: PropInfoV| e.name == name)
}

/// Position of the object at a path.
pub open spec fn find_path(paths: Seq<PathV>, name: Seq<char>) -> Option<int> {
    find_first(paths, |e: PathV| e.name == name)
}

/// Position of the attached instance with a type tag: the downcast.
pub open spec fn find_typeid(ifaces: Seq<(u64, IfaceData)>, tid: u64) -> Option<int>
    decreases ifaces.len(),
{
    if ifaces.len() == 0 {
        None
    } else if ifaces[0].0 == tid {
        Some(0int)
    } else {
        match find_typeid(ifaces.drop_first(), tid) {
            Some(i) => Some(i + 1),
            None => None,
        }
    }
}

/// What [`find_typeid`] means: the returned position carries the tag, nothing
/// before it does, and `None` means no position does.
pub proof fn lemma_find_typeid(s: Seq<(u64, IfaceData)>, tid: u64)
    ensures
        match find_typeid(s, tid) {
            Some(i) => 0 <= i < s.len() && s[i].0 == tid && forall|j: int|
                0 <= j < i ==> s[j].0 != tid,
            None => forall|j: int| 0 <= j < s.len() ==> s[j].0 != tid,
        },
    decreases s.len(),
{
    if s.len() > 0 && s[0].0 != tid {
        let t = s.drop_first();
        lemma_find_typeid(t, tid);
        assert(forall|j: int| 0 <= j < t.len() ==> t[j] == s[j + 1]);
        match find_typeid(t, tid) {
            Some(i) => {
                assert(t[i] == s[i + 1]);
                assert forall|j: int| 0 <= j < i + 1 implies s[j].0 != tid by {
                    if j > 0 {
                        assert(t[j - 1] == s[j]);
                    }
                }
            },
            None => {
                assert forall|j: int| 0 <= j < s.len() implies s[j].0 != tid by {
                    if j > 0 {
                        assert(t[j - 1] == s[j]);
                    }
                }
            },
        }
    }
}

/// A position that carries the tag, with nothing carrying it before, is what
/// [`find_typeid`] returns.
pub proof fn lemma_find_typeid_found(s: Seq<(u64, IfaceData)>, tid: u64, i: int)
    requires
        0 <= i < s.len(),
        s[i].0 == tid,
        forall|j: int| 0 <= j < i ==> s[j].0 != tid,
    ensures
        find_typeid(s, tid) == Some(i),
    decreases s.len(),
{
    if i > 0 {
        assert(forall|j: int| 0 <= j < s.drop_first().len() ==> s.drop_first()[j] == s[j + 1]);
        lemma_find_typeid_found(s.drop_first(), tid, i - 1);
    }
}

/// Saturating increment.
pub open spec fn sat_bump(n: u64) -> u64 {
    if n < u64::MAX {
        (n + 1) as u64
    } else {
        n
    }
}

/// A sequence length clamped into a message argument.
pub open spec fn len_as_u32(n: nat) -> u32 {
    if n < u32::MAX {
        n as u32
    } else {
        u32::MAX
    }
}

/// What a path-exclusive handler does to the addressed object.
pub open spec fn run_path_action_spec(a: PathAction, p: PathV, ctx: MsgCtxV) -> (
    PathV,
    Option<MessageV>,
) {
    match a {
        PathAction::BumpLocal => (
            PathV { local: sat_bump(p.local), ..p },
            Some(method_return_spec(ctx.message, seq![ArgV::U32(as_u32_arg(sat_bump(p.local)))])),
        ),
        PathAction::CountIfaces => (
            p,
            Some(method_return_spec(ctx.message, seq![ArgV::U32(len_as_u32(p.ifaces.len()))])),
        ),
    }
}

/// What an interface-exclusive handler does to the one downcast instance.
pub open spec fn run_iface_action_spec(a: IfaceAction, d: IfaceData, ctx: MsgCtxV) -> (
    IfaceData,
    Option<MessageV>,
) {
    match a {
        IfaceAction::Increment => (
            IfaceData { counter: sat_bump(d.counter), ..d },
            Some(method_return_spec(ctx.message, seq![ArgV::U32(as_u32_arg(sat_bump(d.counter)))])),
        ),
        IfaceAction::GetValue => (
            d,
            Some(method_return_spec(ctx.message, seq![ArgV::U32(as_u32_arg(d.value))])),
        ),
        IfaceAction::SetValue => {
            if ctx.message.body.len() > 0 && ctx.message.body[0] is U32 {
                (
                    IfaceData { value: ctx.message.body[0]->U32_0 as u64, ..d },
                    Some(method_return_spec(ctx.message, Seq::<ArgV>::empty())),
                )
            } else {
                (
                    d,
                    Some(
                        method_err_reply_spec(
                            MethodErrV { kind: ErrKind::InvalidArgs, detail: Seq::<char>::empty() },
                            ctx.message,
                        ),
                    ),
                )
            }
        },
    }
}

/// A counter value clamped into a message argument.
pub open spec fn as_u32_arg(n: u64) -> u32 {
    if n < u32::MAX as u64 {
        n as u32
    } else {
        u32::MAX
    }
}

/// What a shared-access handler returns, reading the addressed object only.
pub open spec fn run_ref_spec(a: RefAction, p: PathV, ctx: MsgCtxV) -> Option<MessageV> {
    match a {
        RefAction::Respond(u) => Some(
            match user_method_spec(u, ctx.message) {
                Ok(args) => method_return_spec(ctx.message, args),
                Err(e) => method_err_reply_spec(e, ctx.message),
            },
        ),
        RefAction::ReadCounter { typeid } => match find_typeid(p.ifaces, typeid) {
            Some(i) => Some(
                method_return_spec(ctx.message, seq![ArgV::U32(as_u32_arg(p.ifaces[i].1.counter))]),
            ),
            None => Some(
                method_err_reply_spec(
                    MethodErrV { kind: ErrKind::NoSuchInterface, detail: ctx.interface },
                    ctx.message,
                ),
            ),
        },
    }
}

/// What a registry-exclusive handler does with the whole registry.
pub open spec fn run_cr_action_spec(a: CrAction, c: CrV, ctx: MsgCtxV) -> (
    CrV,
    Result<Option<MessageV>, MethodErrV>,
) {
    match a {
        CrAction::BumpCounterAt { typeid } => match find_path(c.paths, ctx.path) {
            None => (c, Err(MethodErrV { kind: ErrKind::NoSuchPath, detail: ctx.path })),
            Some(pi) => {
                let p = c.paths[pi];
                match find_typeid(p.ifaces, typeid) {
                    None => (
                        c,
                        Err(MethodErrV { kind: ErrKind::NoSuchInterface, detail: ctx.interface }),
                    ),
                    Some(ii) => {
                        let d = p.ifaces[ii].1;
                        let d2 = IfaceData { counter: sat_bump(d.counter), ..d };
                        let p2 = PathV { ifaces: p.ifaces.update(ii, (p.ifaces[ii].0, d2)), ..p };
                        (
                            CrV { paths: c.paths.update(pi, p2), ..c },
                            Ok(
                                Some(
                                    method_return_spec(
                                        ctx.message,
                                        seq![ArgV::U32(as_u32_arg(d2.counter))],
                                    ),
                                ),
                            ),
                        )
                    },
                }
            },
        },
        CrAction::RemoveAddressedObject => match find_path(c.paths, ctx.path) {
            None => (c, Err(MethodErrV { kind: ErrKind::NoSuchPath, detail: ctx.path })),
            Some(pi) => (
                CrV { paths: c.paths.remove(pi), ..c },
                Ok(Some(method_return_spec(ctx.message, Seq::<ArgV>::empty()))),
            ),
        },
    }
}

/// Shared-access resolution: look the handler up and run it against the
/// addressed object without exclusive registry access. A handler needing
/// exclusive access cannot run here.
pub open spec fn dispatch_ref_spec(c: CrV, ctx: MsgCtxV) -> Result<Option<MessageV>, MethodErrV> {
    match find_iface(c.reg, ctx.interface) {
        None => Err(MethodErrV { kind: ErrKind::NoSuchInterface, detail: ctx.interface }),
        Some(ei) => match find_method(c.reg[ei].methods, ctx.member) {
            None => Err(MethodErrV { kind: ErrKind::NoSuchMethod, detail: ctx.member }),
            Some(mi) => match c.reg[ei].methods[mi].handler {
                MethodModel::AllRef(a) => match find_path(c.paths, ctx.path) {
                    None => Err(MethodErrV { kind: ErrKind::NoSuchPath, detail: ctx.path }),
                    Some(pi) => Ok(run_ref_spec(a, c.paths[pi], ctx)),
                },
                _ => Err(MethodErrV { kind: ErrKind::Failed, detail: ctx.member }),
            },
        },
    }
}

/// Exclusive-flavor resolution: interface, then method, then the variant,
/// most specific access first; shared-access handlers defer to the shared
/// path.
pub open spec fn dispatch_mut_excl_spec(c: CrV, ctx: MsgCtxV) -> (
    CrV,
    Result<Option<MessageV>, MethodErrV>,
) {
    match find_iface(c.reg, ctx.interface) {
        None => (c, Err(MethodErrV { kind: ErrKind::NoSuchInterface, detail: ctx.interface })),
        Some(ei) => match find_method(c.reg[ei].methods, ctx.member) {
            None => (c, Err(MethodErrV { kind: ErrKind::NoSuchMethod, detail: ctx.member })),
            Some(mi) => match c.reg[ei].methods[mi].handler {
                MethodModel::MutPath(a) => match find_path(c.paths, ctx.path) {
                    None => (c, Err(MethodErrV { kind: ErrKind::NoSuchPath, detail: ctx.path })),
                    Some(pi) => {
                        let (p2, out) = run_path_action_spec(a, c.paths[pi], ctx);
                        (CrV { paths: c.paths.update(pi, p2), ..c }, Ok(out))
                    },
                },
                MethodModel::MutIface(a) => match find_path(c.paths, ctx.path) {
                    None => (c, Err(MethodErrV { kind: ErrKind::NoSuchPath, detail: ctx.path })),
                    Some(pi) => {
                        let p = c.paths[pi];
                        match find_typeid(p.ifaces, c.reg[ei].typeid) {
                            None => (
                                c,
                                Err(
                                    MethodErrV {
                                        kind: ErrKind::NoSuchInterface,
                                        detail: ctx.interface,
                                    },
                                ),
                            ),
                            Some(ii) => {
                                let (d2, out) = run_iface_action_spec(a, p.ifaces[ii].1, ctx);
                                let p2 = PathV {
                                    ifaces: p.ifaces.update(ii, (p.ifaces[ii].0, d2)),
                                    ..p
                                };
                                (CrV { paths: c.paths.update(pi, p2), ..c }, Ok(out))
                            },
                        }
                    },
                },
                MethodModel::AllRef(_) => (c, dispatch_ref_spec(c, ctx)),
                MethodModel::MutCr(a) => run_cr_action_spec(a, c, ctx),
            },
        },
    }
}

/// Shared-flavor resolution: shared-access handlers run on the fast path;
/// a handler requiring exclusive registry access defers to the slower path
/// that takes the registry exclusively — invoked exactly once, never twice.
pub open spec fn dispatch_mut_shared_spec(c: CrV, ctx: MsgCtxV) -> (
    CrV,
    Result<Option<MessageV>, MethodErrV>,
) {
    match find_iface(c.reg, ctx.interface) {
        None => (c, Err(MethodErrV { kind: ErrKind::NoSuchInterface, detail: ctx.interface })),
        Some(ei) => match find_method(c.reg[ei].methods, ctx.member) {
            None => (c, Err(MethodErrV { kind: ErrKind::NoSuchMethod, detail: ctx.member })),
            Some(mi) => match c.reg[ei].methods[mi].handler {
                MethodModel::MutCr(a) => run_cr_action_spec(a, c, ctx),
                _ => (c, dispatch_ref_spec(c, ctx)),
            },
        },
    }
}

/// Mutable access to one element, in the style the registry mutates in place.
fn vec_at_mut<T>(v: &mut Vec<T>, i: usize) -> (element: &mut T)
    requires
        i < old(v).len(),
    ensures
        *element == old(v)@[i as int],
        final(v)@ == old(v)@.update(i as int, *final(element)),
{
    &mut v[i]
}

/// The reply carrying one number.
fn reply_u32(m: &Message, v: u32) -> (r: Message)
    ensures
        r@ == method_return_spec(m@, seq![ArgV::U32(v)]),
{
    let mut out = m.method_return();
    out.append_arg(BodyArg::U32(v));
    proof {
        assert(out@ =~= method_return_spec(m@, seq![ArgV::U32(v)]));
    }
    out
}

/// The reply carrying nothing.
fn reply_empty(m: &Message) -> (r: Message)
    ensures
        r@ == method_return_spec(m@, Seq::<ArgV>::empty()),
{
    let out = m.method_return();
    proof {
        assert(out@ =~= method_return_spec(m@, Seq::<ArgV>::empty()));
    }
    out
}

/// Position of the interface entry with a name.
pub fn iface_index<H: HandlerTypes>(cr: &Crossroads<H>, name: &String) -> (r: Option<usize>)
    ensures
        match r {
            Some(i) => i < cr@.reg.len() && find_iface(cr@.reg, name@) == Some(i as int),
            None => find_iface(cr@.reg, name@) is None,
        },
{
    let ghost s = cr@.reg;
    let ghost p = |e: IfaceEntryV| e.name == name@;
    let n = cr.reg.len();
    let mut i: usize = 0;
    while i < n
        invariant
            n == cr.reg.len(),
            0 <= i <= n,
            s == cr@.reg,
            p == (|e: IfaceEntryV| e.name == name@),
            forall|j: int| 0 <= j < i ==> !p(s[j]),
        decreases n - i,
    {
        if cr.reg[i].name == *name {
            proof {
                lemma_find_first_found(s, p, i as int);
            }
            return Some(i);
        }
        i = i + 1;
    }
    proof {
        lemma_find_first(s, p);
    }
    None
}

/// Position of the method with a name in an interface entry.
pub fn method_index<H: HandlerTypes>(entry: &IfaceEntry<H>, name: &String) -> (r: Option<usize>)
    ensures
        match r {
            Some(i) => i < entry@.methods.len() && find_method(entry@.methods, name@) == Some(
                i as int,
            ),
            None => find_method(entry@.methods, name@) is None,
        },
{
    let ghost s = entry@.methods;
    let ghost p = |e: MethodInfoV| e.name == name@;
    let n = entry.methods.len();
    let mut i: usize = 0;
    while i < n
        invariant
            n == entry.methods.len(),
            0 <= i <= n,
            s == entry@.methods,
            p == (|e: MethodInfoV| e.name == name@),
            forall|j: int| 0 <= j < i ==> !p(s[j]),
        decreases n - i,
    {
        if entry.methods[i].name == *name {
            proof {
                lemma_find_first_found(s, p, i as int);
            }
            return Some(i);
        }
        i = i + 1;
    }
    proof {
        lemma_find_first(s, p);
    }
    None
}

/// Position of the property with a name in an interface entry.
pub fn prop_index<H: HandlerTypes>(entry: &IfaceEntry<H>, name: &String) -> (r: Option<usize>)
    ensures
        match r {
            Some(i) => i < entry@.props.len() && find_prop(entry@.props, name@) == Some(i as int),
            None => find_prop(entry@.props, name@) is None,
        },
{
    let ghost s = entry@.props;
    let ghost p = |e: PropInfoV| e.name == name@;
    let n = entry.props.len();
    let mut i: usize = 0;
    while i < n
        invariant
            n == entry.props.len(),
            0 <= i <= n,
            s == entry@.props,
            p == (|e: PropInfoV| e.name == name@),
            forall|j: int| 0 <= j < i ==> !p(s[j]),
        decreases n - i,
    {
        if entry.props[i].name == *name {
            proof {
                lemma_find_first_found(s, p, i as int);
            }
            return Some(i);
        }
        i = i + 1;
    }
    proof {
        lemma_find_first(s, p);
    }
    None
}

/// Position of the object at a path.
pub fn path_index<H: HandlerTypes>(cr: &Crossroads<H>, name: &String) -> (r: Option<usize>)
    ensures
        match r {
            Some(i) => i < cr@.paths.len() && find_path(cr@.paths, name@) == Some(i as int),
            None => find_path(cr@.paths, name@) is None,
        },
{
    let ghost s = cr@.paths;
    let ghost p = |e: PathV| e.name == name@;
    let n = cr.paths.len();
    let mut i: usize = 0;
    while i < n
        invariant
            n == cr.paths.len(),
            0 <= i <= n,
            s == cr@.paths,
            p == (|e: PathV| e.name == name@),
            forall|j: int| 0 <= j < i ==> !p(s[j]),
        decreases n - i,
    {
        if cr.paths[i].name == *name {
            proof {
                lemma_find_first_found(s, p, i as int);
            }
            return Some(i);
        }
        i = i + 1;
    }
    proof {
        lemma_find_first(s, p);
    }
    None
}

/// Position of the attached instance with a type tag: the downcast.
pub fn typeid_index<H: HandlerTypes>(p: &PathData<H>, tid: u64) -> (r: Option<usize>)
    ensures
        match r {
            Some(i) => i < p@.ifaces.len() && find_typeid(p@.ifaces, tid) == Some(i as int),
            None => find_typeid(p@.ifaces, tid) is None,
        },
{
    let ghost s = p@.ifaces;
    proof {
        assert(s.len() == p.ifaces@.len());
    }
    let n = p.ifaces.len();
    let mut i: usize = 0;
    while i < n
        invariant
            n == p.ifaces.len(),
            0 <= i <= n,
            s == p@.ifaces,
            s.len() == n,
            forall|j: int| 0 <= j < i ==> s[j].0 != tid,
        decreases n - i,
    {
        if p.ifaces[i].0 == tid {
            proof {
                assert(s[i as int] == iface_pair_v::<H>(p.ifaces@[i as int]));
                assert(s[i as int].0 == tid);
                lemma_find_typeid_found(s, tid, i as int);
            }
            return Some(i);
        }
        proof {
            assert(s[i as int] == iface_pair_v::<H>(p.ifaces@[i as int]));
            assert(s[i as int].0 != tid);
        }
        i = i + 1;
    }
    proof {
        lemma_find_typeid(s, tid);
    }
    None
}

/// Runs a path-exclusive handler against the addressed object.
fn run_path_action<H: HandlerTypes>(p: &mut PathData<H>, a: PathAction, ctx: &MsgCtx) -> (r: Option<
    Message,
>)
    ensures
        final(p)@ == run_path_action_spec(a, old(p)@, ctx@).0,
        crate::message::opt_msg_v(r) == run_path_action_spec(a, old(p)@, ctx@).1,
{
    match a {
        PathAction::BumpLocal => {
            let bumped: u64 = if p.local < u64::MAX {
                p.local + 1
            } else {
                p.local
            };
            p.local = bumped;
            let arg: u32 = if bumped < u32::MAX as u64 {
                bumped as u32
            } else {
                u32::MAX
            };
            proof {
                assert(p@ =~= (PathV { local: bumped, ..old(p)@ }));
            }
            Some(reply_u32(&ctx.message, arg))
        },
        PathAction::CountIfaces => {
            let n = p.ifaces.len();
            let arg: u32 = if n < u32::MAX as usize {
                n as u32
            } else {
                u32::MAX
            };
            Some(reply_u32(&ctx.message, arg))
        },
    }
}

/// Runs an interface-exclusive handler against the downcast instance.
fn run_iface_action(d: IfaceData, a: IfaceAction, ctx: &MsgCtx) -> (r: (IfaceData, Option<
    Message,
>))
    ensures
        r.0 == run_iface_action_spec(a, d, ctx@).0,
        crate::message::opt_msg_v(r.1) == run_iface_action_spec(a, d, ctx@).1,
{
    match a {
        IfaceAction::Increment => {
            let bumped: u64 = if d.counter < u64::MAX {
                d.counter + 1
            } else {
                d.counter
            };
            let arg: u32 = if bumped < u32::MAX as u64 {
                bumped as u32
            } else {
                u32::MAX
            };
            (IfaceData { counter: bumped, ..d }, Some(reply_u32(&ctx.message, arg)))
        },
        IfaceAction::GetValue => {
            let arg: u32 = if d.value < u32::MAX as u64 {
                d.value as u32
            } else {
                u32::MAX
            };
            (d, Some(reply_u32(&ctx.message, arg)))
        },
        IfaceAction::SetValue => {
            if ctx.message.body.len() > 0 {
                match &ctx.message.body[0] {
                    BodyArg::U32(v) => {
                        (
                            IfaceData { value: *v as u64, ..d },
                            Some(reply_empty(&ctx.message)),
                        )
                    },
                    _ => (
                        d,
                        Some(
                            MethodErr { kind: ErrKind::InvalidArgs, detail: String::new() }
                                .to_message(&ctx.message),
                        ),
                    ),
                }
            } else {
                (
                    d,
                    Some(
                        MethodErr { kind: ErrKind::InvalidArgs, detail: String::new() }.to_message(
                            &ctx.message,
                        ),
                    ),
                )
            }
        },
    }
}

/// Runs a shared-access handler against the addressed object.
pub fn run_ref<H: HandlerTypes>(a: RefAction, ctx: &MsgCtx, refctx: &RefCtx<'_, H>) -> (r: Option<
    Message,
>)
    ensures
        crate::message::opt_msg_v(r) == run_ref_spec(a, refctx.path@, ctx@),
{
    match a {
        RefAction::Respond(u) => Some(
            crate::handlers::posthandler(&ctx.message, run_user_method(u, &ctx.message)),
        ),
        RefAction::ReadCounter { typeid } => {
            match typeid_index::<H>(refctx.path, typeid) {
                Some(ii) => {
                    let d = H::iface_data(&refctx.path.ifaces[ii].1);
                    let arg: u32 = if d.counter < u32::MAX as u64 {
                        d.counter as u32
                    } else {
                        u32::MAX
                    };
                    proof {
                        assert(refctx.path@.ifaces[ii as int].1 == d);
                    }
                    Some(reply_u32(&ctx.message, arg))
                },
                None => Some(MethodErr::no_interface(&ctx.interface).to_message(&ctx.message)),
            }
        },
    }
}

/// Runs a registry-exclusive handler with the whole registry.
fn run_cr_action<H: HandlerTypes>(cr: &mut Crossroads<H>, a: CrAction, ctx: &MsgCtx) -> (r: Result<
    Option<Message>,
    MethodErr,
>)
    ensures
        final(cr)@ == run_cr_action_spec(a, old(cr)@, ctx@).0,
        crate::message::dispatch_res_v(r) == run_cr_action_spec(a, old(cr)@, ctx@).1,
{
    match a {
        CrAction::BumpCounterAt { typeid } => {
            let pi = match path_index(cr, &ctx.path) {
                Some(i) => i,
                None => {
                    return Err(MethodErr::no_path(&ctx.path));
                },
            };
            let ii = match typeid_index::<H>(&cr.paths[pi], typeid) {
                Some(i) => i,
                None => {
                    return Err(MethodErr::no_interface(&ctx.interface));
                },
            };
            let d = H::iface_data(&cr.paths[pi].ifaces[ii].1);
            let bumped: u64 = if d.counter < u64::MAX {
                d.counter + 1
            } else {
                d.counter
            };
            let d2 = IfaceData { counter: bumped, ..d };
            let pref = vec_at_mut(&mut cr.paths, pi);
            let eref = vec_at_mut(&mut pref.ifaces, ii);
            H::set_iface_data(&mut eref.1, d2);
            let arg: u32 = if bumped < u32::MAX as u64 {
                bumped as u32
            } else {
                u32::MAX
            };
            proof {
                let oldp = old(cr)@.paths[pi as int];
                assert(cr.paths[pi as int]@.ifaces =~= oldp.ifaces.update(
                    ii as int,
                    (oldp.ifaces[ii as int].0, d2),
                ));
                assert(cr.paths[pi as int]@ =~= (PathV {
                    ifaces: oldp.ifaces.update(ii as int, (oldp.ifaces[ii as int].0, d2)),
                    ..oldp
                }));
                assert(cr@.paths =~= old(cr)@.paths.update(pi as int, cr.paths[pi as int]@));
                assert(cr@ =~= run_cr_action_spec(a, old(cr)@, ctx@).0);
            }
            Ok(Some(reply_u32(&ctx.message, arg)))
        },
        CrAction::RemoveAddressedObject => {
            let pi = match path_index(cr, &ctx.path) {
                Some(i) => i,
                None => {
                    return Err(MethodErr::no_path(&ctx.path));
                },
            };
            let _ = cr.paths.remove(pi);
            proof {
                assert(cr@.paths =~= old(cr)@.paths.remove(pi as int));
                assert(cr@ =~= run_cr_action_spec(a, old(cr)@, ctx@).0);
            }
            Ok(Some(reply_empty(&ctx.message)))
        },
    }
}

/// Shared-access resolution, never taking the registry exclusively: the fast
/// path of the thread-shared flavor.
pub fn dispatch_ref<H: HandlerTypes>(cr: &Crossroads<H>, ctx: &MsgCtx) -> (r: Result<
    Option<Message>,
    MethodErr,
>)
    ensures
        crate::message::dispatch_res_v(r) == dispatch_ref_spec(cr@, ctx@),
{
    let ei = match iface_index(cr, &ctx.interface) {
        Some(i) => i,
        None => {
            return Err(MethodErr::no_interface(&ctx.interface));
        },
    };
    let mi = match method_index(&cr.reg[ei], &ctx.member) {
        Some(i) => i,
        None => {
            return Err(MethodErr::no_method(&ctx.member));
        },
    };
    let model = H::method_action(&cr.reg[ei].methods[mi].handler);
    match model {
        MethodModel::AllRef(_) => {
            let pi = match path_index(cr, &ctx.path) {
                Some(i) => i,
                None => {
                    return Err(MethodErr::no_path(&ctx.path));
                },
            };
            let refctx = RefCtx { path: &cr.paths[pi] };
            match model {
                MethodModel::AllRef(a) => Ok(run_ref::<H>(a, ctx, &refctx)),
                _ => Err(MethodErr { kind: ErrKind::Failed, detail: ctx.member.clone() }),
            }
        },
        _ => Err(MethodErr { kind: ErrKind::Failed, detail: ctx.member.clone() }),
    }
}

/// Exclusive-flavor resolution, most specific applicable access first.
pub fn dispatch_mut_excl<H: HandlerTypes>(cr: &mut Crossroads<H>, ctx: &MsgCtx) -> (r: Result<
    Option<Message>,
    MethodErr,
>)
    ensures
        final(cr)@ == dispatch_mut_excl_spec(old(cr)@, ctx@).0,
        crate::message::dispatch_res_v(r) == dispatch_mut_excl_spec(old(cr)@, ctx@).1,
{
    let ei = match iface_index(cr, &ctx.interface) {
        Some(i) => i,
        None => {
            return Err(MethodErr::no_interface(&ctx.interface));
        },
    };
    let mi = match method_index(&cr.reg[ei], &ctx.member) {
        Some(i) => i,
        None => {
            return Err(MethodErr::no_method(&ctx.member));
        },
    };
    let model = H::method_action(&cr.reg[ei].methods[mi].handler);
    match model {
        MethodModel::MutPath(a) => {
            let pi = match path_index(cr, &ctx.path) {
                Some(i) => i,
                None => {
                    return Err(MethodErr::no_path(&ctx.path));
                },
            };
            let pref = vec_at_mut(&mut cr.paths, pi);
            let out = run_path_action(pref, a, ctx);
            proof {
                assert(cr@.paths =~= old(cr)@.paths.update(pi as int, cr.paths[pi as int]@));
                assert(cr@ =~= dispatch_mut_excl_spec(old(cr)@, ctx@).0);
            }
            Ok(out)
        },
        MethodModel::MutIface(a) => {
            let pi = match path_index(cr, &ctx.path) {
                Some(i) => i,
                None => {
                    return Err(MethodErr::no_path(&ctx.path));
                },
            };
            let tid = cr.reg[ei].typeid;
            let ii = match typeid_index::<H>(&cr.paths[pi], tid) {
                Some(i) => i,
                None => {
                    return Err(MethodErr::no_interface(&ctx.interface));
                },
            };
            let d = H::iface_data(&cr.paths[pi].ifaces[ii].1);
            let (d2, out) = run_iface_action(d, a, ctx);
            let pref = vec_at_mut(&mut cr.paths, pi);
            let eref = vec_at_mut(&mut pref.ifaces, ii);
            H::set_iface_data(&mut eref.1, d2);
            proof {
                let oldp = old(cr)@.paths[pi as int];
                assert(cr.paths[pi as int]@.ifaces =~= oldp.ifaces.update(
                    ii as int,
                    (oldp.ifaces[ii as int].0, d2),
                ));
                assert(cr.paths[pi as int]@ =~= (PathV {
                    ifaces: oldp.ifaces.update(ii as int, (oldp.ifaces[ii as int].0, d2)),
                    ..oldp
                }));
                assert(cr@.paths =~= old(cr)@.paths.update(pi as int, cr.paths[pi as int]@));
                assert(cr@ =~= dispatch_mut_excl_spec(old(cr)@, ctx@).0);
            }
            Ok(out)
        },
        MethodModel::AllRef(_) => {
            let r = dispatch_ref(cr, ctx);
            r
        },
        MethodModel::MutCr(a) => {
            let copied = a;
            run_cr_action(cr, copied, ctx)
        },
    }
}

/// Shared-flavor resolution: shared handlers on the fast path, registry-
/// exclusive handlers through the deferred slow path, exactly once.
pub fn dispatch_mut_shared<H: HandlerTypes>(cr: &mut Crossroads<H>, ctx: &MsgCtx) -> (r: Result<
    Option<Message>,
    MethodErr,
>)
    ensures
        final(cr)@ == dispatch_mut_shared_spec(old(cr)@, ctx@).0,
        crate::message::dispatch_res_v(r) == dispatch_mut_shared_spec(old(cr)@, ctx@).1,
{
    let ei = match iface_index(cr, &ctx.interface) {
        Some(i) => i,
        None => {
            return Err(MethodErr::no_interface(&ctx.interface));
        },
    };
    let mi = match method_index(&cr.reg[ei], &ctx.member) {
        Some(i) => i,
        None => {
            return Err(MethodErr::no_method(&ctx.member));
        },
    };
    let model = H::method_action(&cr.reg[ei].methods[mi].handler);
    match model {
        MethodModel::MutCr(a) => {
            let copied = a;
            run_cr_action(cr, copied, ctx)
        },
        _ => {
            let r = dispatch_ref(cr, ctx);
            r
        },
    }
}

/// What resolving a property read does: interface, then property, then its
/// read handler, then the downcast instance at the addressed path.
pub open spec fn get_prop_spec(c: CrV, ctx: MsgCtxV) -> Result<ArgV, MethodErrV> {
    match find_iface(c.reg, ctx.interface) {
        None => Err(MethodErrV { kind: ErrKind::NoSuchInterface, detail: ctx.interface }),
        Some(ei) => match find_prop(c.reg[ei].props, ctx.member) {
            None => Err(MethodErrV { kind: ErrKind::NoSuchProperty, detail: ctx.member }),
            Some(pri) => match c.reg[ei].props[pri].get {
                None => Err(MethodErrV { kind: ErrKind::NoSuchProperty, detail: ctx.member }),
                Some(g) => match find_path(c.paths, ctx.path) {
                    None => Err(MethodErrV { kind: ErrKind::NoSuchPath, detail: ctx.path }),
                    Some(pi) => match find_typeid(c.paths[pi].ifaces, c.reg[ei].typeid) {
                        None => Err(
                            MethodErrV { kind: ErrKind::NoSuchInterface, detail: ctx.interface },
                        ),
                        Some(ii) => Ok(
                            match g {
                                PropGetAction::GetValue => ArgV::U32(
                                    as_u32_arg(c.paths[pi].ifaces[ii].1.value),
                                ),
                                PropGetAction::GetCounter => ArgV::U32(
                                    as_u32_arg(c.paths[pi].ifaces[ii].1.counter),
                                ),
                            },
                        ),
                    },
                },
            },
        },
    }
}

/// What resolving a property write does: the same resolution shape, then the
/// stored value is replaced and the handler says whether to notify.
pub open spec fn set_prop_spec(c: CrV, ctx: MsgCtxV) -> (CrV, Result<bool, MethodErrV>) {
    match find_iface(c.reg, ctx.interface) {
        None => (c, Err(MethodErrV { kind: ErrKind::NoSuchInterface, detail: ctx.interface })),
        Some(ei) => match find_prop(c.reg[ei].props, ctx.member) {
            None => (c, Err(MethodErrV { kind: ErrKind::NoSuchProperty, detail: ctx.member })),
            Some(pri) => match c.reg[ei].props[pri].set {
                None => (c, Err(MethodErrV { kind: ErrKind::NoSuchProperty, detail: ctx.member })),
                Some(sa) => {
                    if !(ctx.message.body.len() > 0 && ctx.message.body[0] is U32) {
                        (
                            c,
                            Err(
                                MethodErrV {
                                    kind: ErrKind::InvalidArgs,
                                    detail: Seq::<char>::empty(),
                                },
                            ),
                        )
                    } else {
                        match find_path(c.paths, ctx.path) {
                            None => (
                                c,
                                Err(MethodErrV { kind: ErrKind::NoSuchPath, detail: ctx.path }),
                            ),
                            Some(pi) => match find_typeid(c.paths[pi].ifaces, c.reg[ei].typeid) {
                                None => (
                                    c,
                                    Err(
                                        MethodErrV {
                                            kind: ErrKind::NoSuchInterface,
                                            detail: ctx.interface,
                                        },
                                    ),
                                ),
                                Some(ii) => {
                                    let p = c.paths[pi];
                                    let d = p.ifaces[ii].1;
                                    let d2 = IfaceData {
                                        value: ctx.message.body[0]->U32_0 as u64,
                                        ..d
                                    };
                                    let p2 = PathV {
                                        ifaces: p.ifaces.update(ii, (p.ifaces[ii].0, d2)),
                                        ..p
                                    };
                                    (
                                        CrV { paths: c.paths.update(pi, p2), ..c },
                                        Ok(sa == PropSetAction::SetValueNotify),
                                    )
                                },
                            },
                        }
                    }
                },
            },
        },
    }
}

impl<H: HandlerTypes> Crossroads<H> {
    /// An empty registry: no interfaces, no objects.
    pub fn new() -> (r: Crossroads<H>)
        ensures
            r@.reg == Seq::<IfaceEntryV>::empty(),
            r@.paths == Seq::<PathV>::empty(),
    {
        let r = Crossroads { reg: Vec::new(), paths: Vec::new() };
        proof {
            assert(r@.reg =~= Seq::<IfaceEntryV>::empty());
            assert(r@.paths =~= Seq::<PathV>::empty());
        }
        r
    }

    /// Registers one interface with its method and property tables; done once
    /// at setup time.
    pub fn register(&mut self, entry: IfaceEntry<H>)
        ensures
            final(self)@ == (CrV { reg: old(self)@.reg.push(entry@), ..old(self)@ }),
    {
        let ghost prev = self@.reg;
        self.reg.push(entry);
        proof {
            assert(self@.reg =~= prev.push(self.reg@.last()@));
            assert(self@ =~= (CrV { reg: self@.reg, ..old(self)@ }));
        }
    }

    /// Attaches an object to the path tree.
    pub fn insert_path(&mut self, p: PathData<H>)
        ensures
            final(self)@ == (CrV { paths: old(self)@.paths.push(p@), ..old(self)@ }),
    {
        let ghost prev = self@.paths;
        self.paths.push(p);
        proof {
            assert(self@.paths =~= prev.push(self.paths@.last()@));
            assert(self@ =~= (CrV { paths: self@.paths, ..old(self)@ }));
        }
    }

    /// Explicitly removes the object at a path, if one is attached.
    pub fn remove_path(&mut self, name: &String) -> (removed: bool)
        ensures
            match find_path(old(self)@.paths, name@) {
                Some(i) => removed && final(self)@ == (CrV {
                    paths: old(self)@.paths.remove(i),
                    ..old(self)@
                }),
                None => !removed && final(self)@ == old(self)@,
            },
    {
        match path_index(self, name) {
            Some(pi) => {
                let _ = self.paths.remove(pi);
                proof {
                    assert(self@.paths =~= old(self)@.paths.remove(pi as int));
                    assert(self@ =~= (CrV { paths: self@.paths, ..old(self)@ }));
                }
                true
            },
            None => false,
        }
    }

    /// Resolves a property read.
    pub fn dispatch_get_prop(&self, ctx: &MsgCtx) -> (r: Result<BodyArg, MethodErr>)
        ensures
            match r {
                Ok(v) => get_prop_spec(self@, ctx@) == Ok::<ArgV, MethodErrV>(v@),
                Err(e) => get_prop_spec(self@, ctx@) == Err::<ArgV, MethodErrV>(e@),
            },
    {
        let ei = match iface_index(self, &ctx.interface) {
            Some(i) => i,
            None => {
                return Err(MethodErr::no_interface(&ctx.interface));
            },
        };
        let pri = match prop_index(&self.reg[ei], &ctx.member) {
            Some(i) => i,
            None => {
                return Err(MethodErr::no_property(&ctx.member));
            },
        };
        let g = match &self.reg[ei].props[pri].get {
            Some(g) => H::getprop_action(g),
            None => {
                return Err(MethodErr::no_property(&ctx.member));
            },
        };
        let pi = match path_index(self, &ctx.path) {
            Some(i) => i,
            None => {
                return Err(MethodErr::no_path(&ctx.path));
            },
        };
        let tid = self.reg[ei].typeid;
        let ii = match typeid_index::<H>(&self.paths[pi], tid) {
            Some(i) => i,
            None => {
                return Err(MethodErr::no_interface(&ctx.interface));
            },
        };
        let d = H::iface_data(&self.paths[pi].ifaces[ii].1);
        let raw: u64 = match g {
            PropGetAction::GetValue => d.value,
            PropGetAction::GetCounter => d.counter,
        };
        let arg: u32 = if raw < u32::MAX as u64 {
            raw as u32
        } else {
            u32::MAX
        };
        Ok(BodyArg::U32(arg))
    }

    /// Resolves a property write; the answer says whether a change
    /// notification should be emitted.
    pub fn dispatch_set_prop(&mut self, ctx: &MsgCtx) -> (r: Result<bool, MethodErr>)
        ensures
            final(self)@ == set_prop_spec(old(self)@, ctx@).0,
            match r {
                Ok(b) => set_prop_spec(old(self)@, ctx@).1 == Ok::<bool, MethodErrV>(b),
                Err(e) => set_prop_spec(old(self)@, ctx@).1 == Err::<bool, MethodErrV>(e@),
            },
    {
        let ei = match iface_index(self, &ctx.interface) {
            Some(i) => i,
            None => {
                return Err(MethodErr::no_interface(&ctx.interface));
            },
        };
        let pri = match prop_index(&self.reg[ei], &ctx.member) {
            Some(i) => i,
            None => {
                return Err(MethodErr::no_property(&ctx.member));
            },
        };
        let sa = match &self.reg[ei].props[pri].set {
            Some(s) => H::setprop_action(s),
            None => {
                return Err(MethodErr::no_property(&ctx.member));
            },
        };
        let v: u32 = if ctx.message.body.len() > 0 {
            match &ctx.message.body[0] {
                BodyArg::U32(v) => *v,
                _ => {
                    return Err(MethodErr { kind: ErrKind::InvalidArgs, detail: String::new() });
                },
            }
        } else {
            return Err(MethodErr { kind: ErrKind::InvalidArgs, detail: String::new() });
        };
        let pi = match path_index(self, &ctx.path) {
            Some(i) => i,
            None => {
                return Err(MethodErr::no_path(&ctx.path));
            },
        };
        let tid = self.reg[ei].typeid;
        let ii = match typeid_index::<H>(&self.paths[pi], tid) {
            Some(i) => i,
            None => {
                return Err(MethodErr::no_interface(&ctx.interface));
            },
        };
        let d = H::iface_data(&self.paths[pi].ifaces[ii].1);
        let d2 = IfaceData { value: v as u64, ..d };
        let pref = vec_at_mut(&mut self.paths, pi);
        let eref = vec_at_mut(&mut pref.ifaces, ii);
        H::set_iface_data(&mut eref.1, d2);
        proof {
            let oldp = old(self)@.paths[pi as int];
            assert(self.paths[pi as int]@.ifaces =~= oldp.ifaces.update(
                ii as int,
                (oldp.ifaces[ii as int].0, d2),
            ));
            assert(self.paths[pi as int]@ =~= (PathV {
                ifaces: oldp.ifaces.update(ii as int, (oldp.ifaces[ii as int].0, d2)),
                ..oldp
            }));
            assert(self@.paths =~= old(self)@.paths.update(pi as int, self.paths[pi as int]@));
            assert(self@ =~= set_prop_spec(old(self)@, ctx@).0);
        }
        Ok(
            match sa {
                PropSetAction::SetValueNotify => true,
                PropSetAction::SetValueQuiet => false,
            },
        )
    }
}

/// What handling one message does: only a call is dispatched; a resolution
/// failure is converted into a protocol-level error reply, never a crash, so
/// the dispatch loop stays healthy for subsequent calls.
pub open spec fn handle_message_spec<H: Handlers>(c: CrV, m: MessageV) -> (CrV, Option<MessageV>) {
    if m.msg_type != MessageType::MethodCall {
        (c, None)
    } else {
        match ctx_of_spec(m) {
            Err(e) => (c, Some(method_err_reply_spec(e, m))),
            Ok(ctx) => {
                let (c2, res) = H::dispatch_spec(c, ctx);
                match res {
                    Ok(out) => (c2, out),
                    Err(e) => (c2, Some(method_err_reply_spec(e, m))),
                }
            },
        }
    }
}

impl<H: Handlers> Crossroads<H> {
    /// Handles one inbound message against the registry: resolves a call to
    /// exactly one handler and returns the reply owed, converting every
    /// resolution failure into an error reply.
    pub fn handle_message(&mut self, msg: &Message) -> (r: Option<Message>)
        ensures
            final(self)@ == handle_message_spec::<H>(old(self)@, msg@).0,
            crate::message::opt_msg_v(r) == handle_message_spec::<H>(old(self)@, msg@).1,
    {
        let is_call: bool = match msg.msg_type {
            MessageType::MethodCall => true,
            _ => false,
        };
        if !is_call {
            return None;
        }
        let ctx = match MsgCtx::from_message(msg.clone_msg()) {
            Ok(ctx) => ctx,
            Err(e) => {
                return Some(e.to_message(msg));
            },
        };
        match H::call_method_mut(self, &ctx) {
            Ok(out) => out,
            Err(e) => Some(e.to_message(msg)),
        }
    }
}

} // verus!
