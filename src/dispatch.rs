//! The argument layout of one `IDispatch::Invoke`, and the order in which
//! activation contexts are tried when an object is created.
use vstd::prelude::*;
use crate::variant::Variant;

verus! {

/// `DISPATCH_METHOD`: the member is called as a method.
pub const DISPATCH_METHOD: u16 = 1;

/// `DISPATCH_PROPERTYGET`: the member is read as a property.
pub const DISPATCH_PROPERTYGET: u16 = 2;

/// `DISPATCH_PROPERTYPUT`: the member is assigned as a property.
pub const DISPATCH_PROPERTYPUT: u16 = 4;

/// `DISPID_PROPERTYPUT`: the name of the argument that holds the value
/// assigned by a property put.
pub const DISPID_PROPERTYPUT: i32 = -3;

/// `LOCALE_USER_DEFAULT`: the locale in which member names are resolved.
pub const LOCALE_USER_DEFAULT: u32 = 0x400;

/// `LOCALE_SYSTEM_DEFAULT`: the locale in which members are invoked.
pub const LOCALE_SYSTEM_DEFAULT: u32 = 0x800;

/// `CLSCTX_ALL`: in-process, in-process handler, local and remote servers.
pub const CLSCTX_ALL: u32 = 23;

/// `CLSCTX_LOCAL_SERVER`: a server in another process on this machine.
pub const CLSCTX_LOCAL_SERVER: u32 = 4;

/// `xs` in the opposite order.
pub open spec fn reversed<T>(xs: Seq<T>) -> Seq<T> {
    Seq::new(xs.len(), |i: int| xs[xs.len() - 1 - i])
}

/// The class contexts that object creation tries, first to last.
pub open spec fn activation_order() -> Seq<u32> {
    seq![CLSCTX_ALL, CLSCTX_LOCAL_SERVER]
}

/// The class context for attempt `attempt` (counting from 0) to create an
/// object, or `None` once every context has failed.
pub fn activation_context(attempt: usize) -> (r: Option<u32>)
    ensures
        attempt < activation_order().len() ==> r == Some(activation_order()[attempt as int]),
        attempt >= activation_order().len() ==> r is None,
{
    if attempt == 0 {
        Some(CLSCTX_ALL)
    } else if attempt == 1 {
        Some(CLSCTX_LOCAL_SERVER)
    } else {
        None
    }
}

/// Everything that one `IDispatch::Invoke` is handed besides the object.
///
/// `args` is `DISPPARAMS::rgvarg` as laid out in memory: named arguments
/// first, in the order of `named_args`, then the positional arguments last
/// to first.
pub struct DispatchCall {
    pub member: i32,
    pub flags: u16,
    pub lcid: u32,
    pub args: Vec<Variant>,
    pub named_args: Vec<i32>,
}

impl DispatchCall {
    /// Both counts fit the `u32` fields of `DISPPARAMS`, and every named
    /// argument has a slot in `args`.
    pub open spec fn wf(&self) -> bool {
        &&& self.args@.len() <= u32::MAX
        &&& self.named_args@.len() <= self.args@.len()
    }

    /// `DISPPARAMS::cArgs`.
    pub fn arg_count(&self) -> (r: u32)
        requires
            self.wf(),
        ensures
            r == self.args@.len(),
    {
        self.args.len() as u32
    }

    /// `DISPPARAMS::cNamedArgs`.
    pub fn named_arg_count(&self) -> (r: u32)
        requires
            self.wf(),
        ensures
            r == self.named_args@.len(),
    {
        self.named_args.len() as u32
    }
}

/// Reads property `member`, with its one parameter where it takes one.
pub fn property_get(member: i32, param: Option<Variant>) -> (r: DispatchCall)
    ensures
        r.wf(),
        r.member == member,
        r.flags == DISPATCH_PROPERTYGET,
        r.lcid == LOCALE_SYSTEM_DEFAULT,
        r.named_args@ == Seq::<i32>::empty(),
        param matches Some(p) ==> r.args@ == seq![p],
        param is None ==> r.args@ == Seq::<Variant>::empty(),
{
    let mut args: Vec<Variant> = Vec::new();
    match param {
        Some(p) => args.push(p),
        None => {},
    }
    DispatchCall {
        member,
        flags: DISPATCH_PROPERTYGET,
        lcid: LOCALE_SYSTEM_DEFAULT,
        args,
        named_args: Vec::new(),
    }
}

/// Assigns `value` to property `member`, with its one parameter where it
/// takes one.
///
/// The value is the named argument `DISPID_PROPERTYPUT`, so it occupies the
/// first slot; the parameter follows it.
pub fn property_put(member: i32, param: Option<Variant>, value: Variant) -> (r: DispatchCall)
    ensures
        r.wf(),
        r.member == member,
        r.flags == DISPATCH_PROPERTYPUT,
        r.lcid == LOCALE_SYSTEM_DEFAULT,
        r.named_args@ == seq![DISPID_PROPERTYPUT],
        param matches Some(p) ==> r.args@ == seq![value, p],
        param is None ==> r.args@ == seq![value],
{
    let mut args: Vec<Variant> = Vec::new();
    args.push(value);
    match param {
        Some(p) => args.push(p),
        None => {},
    }
    let mut named_args: Vec<i32> = Vec::new();
    named_args.push(DISPID_PROPERTYPUT);
    DispatchCall { member, flags: DISPATCH_PROPERTYPUT, lcid: LOCALE_SYSTEM_DEFAULT, args, named_args }
}

/// Calls method `member` with `args`, given first to last; `None` where
/// there are more arguments than `DISPPARAMS` can count.
pub fn method_call(member: i32, args: Vec<Variant>) -> (r: Option<DispatchCall>)
    ensures
        r is None <==> args@.len() > u32::MAX,
        r matches Some(c) ==> {
            &&& c.wf()
            &&& c.member == member
            &&& c.flags == DISPATCH_METHOD
            &&& c.lcid == LOCALE_SYSTEM_DEFAULT
            &&& c.named_args@ == Seq::<i32>::empty()
            &&& c.args@ == reversed(args@)
        },
{
    if args.len() > u32::MAX as usize {
        return None;
    }
    let mut rest = args;
    let mut wire: Vec<Variant> = Vec::new();
    while rest.len() > 0
        invariant
            rest@.len() + wire@.len() == args@.len(),
            rest@ == args@.subrange(0, rest@.len() as int),
            forall|i: int| 0 <= i < wire@.len() ==> wire@[i] == args@[args@.len() - 1 - i],
        decreases rest@.len(),
    {
        let v = rest.pop().unwrap();
        wire.push(v);
    }
    assert(wire@ =~= reversed(args@));
    Some(DispatchCall {
        member,
        flags: DISPATCH_METHOD,
        lcid: LOCALE_SYSTEM_DEFAULT,
        args: wire,
        named_args: Vec::new(),
    })
}

} // verus!
