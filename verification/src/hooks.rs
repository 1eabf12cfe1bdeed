//! Hooks: what a user of a connection wants called for the messages that are read from it.

use crate::wire::{close_model, CloseFrame, RawFrame, WireMessage, WireModel};
use std::sync::Arc;
use vstd::prelude::*;

verus! {

/// A hook and the kind of message that it is for. `T` takes texts, `B` byte strings, `C` closes,
/// and `F` raw frames.
#[derive(Debug)]
pub enum HookType<T, B, C, F> {
    Text(T),
    Binary(B),
    Ping(B),
    Pong(B),
    Close(C),
    Frame(F),
}

/// The hooks of a connection, at most one for each kind of message.
#[derive(Debug)]
pub struct ReadHooks<T, B, C, F> {
    pub on_text: Arc<Option<T>>,
    pub on_binary: Arc<Option<B>>,
    pub on_ping: Arc<Option<B>>,
    pub on_pong: Arc<Option<B>>,
    pub on_close: Arc<Option<C>>,
    pub on_frame: Arc<Option<F>>,
}

/// A hook, and what it is to be called with.
#[derive(Debug)]
pub enum HookCall<'a, T, B, C, F> {
    Text(&'a T, String),
    Bytes(&'a B, Vec<u8>),
    Close(&'a C, Option<CloseFrame>),
    Frame(&'a F, RawFrame),
}

impl<T, B, C, F> ReadHooks<T, B, C, F> {
    /// No hooks.
    pub open spec fn none(self) -> bool {
        &&& *self.on_text is None
        &&& *self.on_binary is None
        &&& *self.on_ping is None
        &&& *self.on_pong is None
        &&& *self.on_close is None
        &&& *self.on_frame is None
    }

    /// These hooks, with one set in the place of whatever was there for its kind of message.
    pub open spec fn with(self, hook: HookType<T, B, C, F>) -> Self {
        match hook {
            HookType::Text(func) => ReadHooks { on_text: Arc::new(Some(func)), ..self },
            HookType::Binary(func) => ReadHooks { on_binary: Arc::new(Some(func)), ..self },
            HookType::Ping(func) => ReadHooks { on_ping: Arc::new(Some(func)), ..self },
            HookType::Pong(func) => ReadHooks { on_pong: Arc::new(Some(func)), ..self },
            HookType::Close(func) => ReadHooks { on_close: Arc::new(Some(func)), ..self },
            HookType::Frame(func) => ReadHooks { on_frame: Arc::new(Some(func)), ..self },
        }
    }

    /// No hooks.
    pub fn new() -> (hooks: Self)
        ensures
            hooks.none(),
    {
        ReadHooks {
            on_text: Arc::new(None),
            on_binary: Arc::new(None),
            on_ping: Arc::new(None),
            on_pong: Arc::new(None),
            on_close: Arc::new(None),
            on_frame: Arc::new(None),
        }
    }

    /// Sets a hook. Another hook for the same kind of message is replaced.
    pub fn add_hook(&mut self, hook: HookType<T, B, C, F>)
        ensures
            *final(self) == old(self).with(hook),
    {
        match hook {
            HookType::Text(func) => {
                self.on_text = Arc::new(Some(func));
            },
            HookType::Binary(func) => {
                self.on_binary = Arc::new(Some(func));
            },
            HookType::Ping(func) => {
                self.on_ping = Arc::new(Some(func));
            },
            HookType::Pong(func) => {
                self.on_pong = Arc::new(Some(func));
            },
            HookType::Close(func) => {
                self.on_close = Arc::new(Some(func));
            },
            HookType::Frame(func) => {
                self.on_frame = Arc::new(Some(func));
            },
        }
    }
}

/// `Arc::clone`. Trusted: the new pointer leads to the same value.
#[verifier::external_body]
fn shared<V>(pointer: &Arc<V>) -> (other: Arc<V>)
    ensures
        other == *pointer,
{
    Arc::clone(pointer)
}

/// A copy of a byte string.
fn copied(data: &Vec<u8>) -> (copy: Vec<u8>)
    ensures
        copy@ == data@,
{
    let copy: Vec<u8> = data.clone();
    assert(copy@ =~= data@);
    copy
}

/// Whether, for bytes that came, the call is that of the given hook, if there is one.
pub open spec fn calls_with_bytes<T, B, C, F>(
    call: Option<HookCall<'_, T, B, C, F>>,
    hook: Option<B>,
    data: Seq<u8>,
) -> bool {
    match hook {
        Some(h) => call matches Some(HookCall::Bytes(func, payload)) && *func == h && payload@
            == data,
        None => call is None,
    }
}

impl<T, B, C, F> ReadHooks<T, B, C, F> {
    /// The same hooks, for someone else to call.
    pub fn share(&self) -> (hooks: Self)
        ensures
            hooks == *self,
    {
        ReadHooks {
            on_text: shared(&self.on_text),
            on_binary: shared(&self.on_binary),
            on_ping: shared(&self.on_ping),
            on_pong: shared(&self.on_pong),
            on_close: shared(&self.on_close),
            on_frame: shared(&self.on_frame),
        }
    }

    /// Whether the call is the one that a message asks for: that of the hook that is set for its
    /// kind, with its payload, or none where no hook is set.
    pub open spec fn answers(
        self,
        frame: WireModel,
        call: Option<HookCall<'_, T, B, C, F>>,
    ) -> bool {
        match frame {
            WireModel::Text(text) => match *self.on_text {
                Some(h) => call matches Some(HookCall::Text(func, payload)) && *func == h
                    && payload@ == text,
                None => call is None,
            },
            WireModel::Binary(data) => calls_with_bytes(call, *self.on_binary, data),
            WireModel::Ping(data) => calls_with_bytes(call, *self.on_ping, data),
            WireModel::Pong(data) => calls_with_bytes(call, *self.on_pong, data),
            WireModel::Close(close) => match *self.on_close {
                Some(h) => call matches Some(HookCall::Close(func, payload)) && *func == h
                    && close_model(payload) == close,
                None => call is None,
            },
            WireModel::Frame(raw) => match *self.on_frame {
                Some(h) => call matches Some(HookCall::Frame(func, payload)) && *func == h
                    && payload@ == raw,
                None => call is None,
            },
        }
    }

    /// The hook that is to be called for a message that was read, if one is set for its kind, and
    /// what it is to be called with.
    pub fn call_for(&self, frame: &WireMessage) -> (call: Option<HookCall<'_, T, B, C, F>>)
        ensures
            self.answers(frame@, call),
    {
        match frame {
            WireMessage::Text(text) => match &*self.on_text {
                Some(func) => Some(HookCall::Text(func, text.clone())),
                None => None,
            },
            WireMessage::Binary(data) => match &*self.on_binary {
                Some(func) => Some(HookCall::Bytes(func, copied(data))),
                None => None,
            },
            WireMessage::Ping(data) => match &*self.on_ping {
                Some(func) => Some(HookCall::Bytes(func, copied(data))),
                None => None,
            },
            WireMessage::Pong(data) => match &*self.on_pong {
                Some(func) => Some(HookCall::Bytes(func, copied(data))),
                None => None,
            },
            WireMessage::Close(maybe_frame) => match &*self.on_close {
                Some(func) => {
                    let payload: Option<CloseFrame> = match maybe_frame {
                        Some(close) => Some(close.clone()),
                        None => None,
                    };
                    Some(HookCall::Close(func, payload))
                },
                None => None,
            },
            WireMessage::Frame(raw) => match &*self.on_frame {
                Some(func) => Some(HookCall::Frame(func, raw.clone())),
                None => None,
            },
        }
    }
}

impl<T, B, C, F> Default for ReadHooks<T, B, C, F> {
    fn default() -> (hooks: Self)
        ensures
            hooks.none(),
    {
        Self::new()
    }
}

/// Whether two hooks are for the same kind of message.
pub open spec fn same_kind<T, B, C, F>(
    one: HookType<T, B, C, F>,
    other: HookType<T, B, C, F>,
) -> bool {
    match one {
        HookType::Text(_) => other is Text,
        HookType::Binary(_) => other is Binary,
        HookType::Ping(_) => other is Ping,
        HookType::Pong(_) => other is Pong,
        HookType::Close(_) => other is Close,
        HookType::Frame(_) => other is Frame,
    }
}

/// Of two hooks for the same kind of message the one that is set last stays; hooks for different
/// kinds do not get in each other's way.
pub proof fn law_one_hook_for_each_kind<T, B, C, F>(
    hooks: ReadHooks<T, B, C, F>,
    first: HookType<T, B, C, F>,
    second: HookType<T, B, C, F>,
)
    ensures
        same_kind(first, second) ==> hooks.with(first).with(second) == hooks.with(second),
        !same_kind(first, second) ==> hooks.with(first).with(second) == hooks.with(second).with(
            first,
        ),
{
}

/// Where no hooks are set, none is called.
pub proof fn law_no_hooks_no_calls<T, B, C, F>(
    hooks: ReadHooks<T, B, C, F>,
    frame: WireModel,
    call: Option<HookCall<'_, T, B, C, F>>,
)
    requires
        hooks.none(),
        hooks.answers(frame, call),
    ensures
        call is None,
{
}

/// Once a hook is set, each message of its kind calls that hook, with what the message carries,
/// whatever other hooks there are and whatever was set before.
pub proof fn law_set_hook_is_called<'a, T, B, C, F>(
    before: ReadHooks<T, B, C, F>,
    hook: HookType<T, B, C, F>,
    after: ReadHooks<T, B, C, F>,
    frame: WireMessage,
    call: Option<HookCall<'a, T, B, C, F>>,
)
    requires
        exists|hooks: &mut ReadHooks<T, B, C, F>|
            *hooks == before && *final(hooks) == after && #[trigger] call_ensures(
                ReadHooks::<T, B, C, F>::add_hook,
                (hooks, hook),
                (),
            ),
        call_ensures(ReadHooks::<T, B, C, F>::call_for, (&after, &frame), call),
    ensures
        hook matches HookType::Text(f) ==> (frame matches WireMessage::Text(text) ==> {
            &&& call matches Some(HookCall::Text(func, payload))
            &&& *func == f
            &&& payload@ == text@
        }),
        hook matches HookType::Binary(f) ==> (frame matches WireMessage::Binary(data) ==> {
            &&& call matches Some(HookCall::Bytes(func, payload))
            &&& *func == f
            &&& payload@ == data@
        }),
        hook matches HookType::Ping(f) ==> (frame matches WireMessage::Ping(data) ==> {
            &&& call matches Some(HookCall::Bytes(func, payload))
            &&& *func == f
            &&& payload@ == data@
        }),
        hook matches HookType::Pong(f) ==> (frame matches WireMessage::Pong(data) ==> {
            &&& call matches Some(HookCall::Bytes(func, payload))
            &&& *func == f
            &&& payload@ == data@
        }),
        hook matches HookType::Close(f) ==> (frame matches WireMessage::Close(close) ==> {
            &&& call matches Some(HookCall::Close(func, payload))
            &&& *func == f
            &&& payload is Some <==> close is Some
            &&& close matches Some(said) ==> payload->0.code == said.code && payload->0.reason@ == said.reason@
        }),
        hook matches HookType::Frame(f) ==> (frame matches WireMessage::Frame(raw) ==> {
            &&& call matches Some(HookCall::Frame(func, payload))
            &&& *func == f
            &&& payload.header == raw.header
            &&& payload.payload@ == raw.payload@
        }),
{
}

/// Setting a hook leaves the hooks for every other kind of message as they were.
pub proof fn law_setting_a_hook_touches_no_other<T, B, C, F>(
    before: ReadHooks<T, B, C, F>,
    hook: HookType<T, B, C, F>,
    after: ReadHooks<T, B, C, F>,
)
    requires
        exists|hooks: &mut ReadHooks<T, B, C, F>|
            *hooks == before && *final(hooks) == after && #[trigger] call_ensures(
                ReadHooks::<T, B, C, F>::add_hook,
                (hooks, hook),
                (),
            ),
    ensures
        !(hook is Text) ==> after.on_text == before.on_text,
        !(hook is Binary) ==> after.on_binary == before.on_binary,
        !(hook is Ping) ==> after.on_ping == before.on_ping,
        !(hook is Pong) ==> after.on_pong == before.on_pong,
        !(hook is Close) ==> after.on_close == before.on_close,
        !(hook is Frame) ==> after.on_frame == before.on_frame,
{
}

/// Which hook a message calls depends on its kind alone: the hook for that kind is called with what
/// the message carries, and where there is none, no other is called in its place.
pub proof fn law_message_calls_the_hook_of_its_kind<'a, T, B, C, F>(
    hooks: ReadHooks<T, B, C, F>,
    frame: WireMessage,
    call: Option<HookCall<'a, T, B, C, F>>,
)
    requires
        call_ensures(ReadHooks::<T, B, C, F>::call_for, (&hooks, &frame), call),
    ensures
        frame is Text && *hooks.on_text is None ==> call is None,
        frame is Binary && *hooks.on_binary is None ==> call is None,
        frame is Ping && *hooks.on_ping is None ==> call is None,
        frame is Pong && *hooks.on_pong is None ==> call is None,
        frame is Close && *hooks.on_close is None ==> call is None,
        frame is Frame && *hooks.on_frame is None ==> call is None,
        *hooks.on_text matches Some(f) ==> (frame matches WireMessage::Text(text) ==> {
            &&& call matches Some(HookCall::Text(func, payload))
            &&& *func == f
            &&& payload@ == text@
        }),
        *hooks.on_binary matches Some(f) ==> (frame matches WireMessage::Binary(data) ==> {
            &&& call matches Some(HookCall::Bytes(func, payload))
            &&& *func == f
            &&& payload@ == data@
        }),
        *hooks.on_ping matches Some(f) ==> (frame matches WireMessage::Ping(data) ==> {
            &&& call matches Some(HookCall::Bytes(func, payload))
            &&& *func == f
            &&& payload@ == data@
        }),
        *hooks.on_pong matches Some(f) ==> (frame matches WireMessage::Pong(data) ==> {
            &&& call matches Some(HookCall::Bytes(func, payload))
            &&& *func == f
            &&& payload@ == data@
        }),
        *hooks.on_close matches Some(f) ==> (frame matches WireMessage::Close(close) ==> {
            &&& call matches Some(HookCall::Close(func, payload))
            &&& *func == f
            &&& payload is Some <==> close is Some
            &&& close matches Some(said) ==> payload->0.code == said.code && payload->0.reason@ == said.reason@
        }),
        *hooks.on_frame matches Some(f) ==> (frame matches WireMessage::Frame(raw) ==> {
            &&& call matches Some(HookCall::Frame(func, payload))
            &&& *func == f
            &&& payload.header == raw.header
            &&& payload.payload@ == raw.payload@
        }),
{
}

/// There are no hooks to begin with, so that no message calls any.
pub proof fn law_no_hooks_to_begin_with<'a, T, B, C, F>(
    hooks: ReadHooks<T, B, C, F>,
    frame: WireMessage,
    call: Option<HookCall<'a, T, B, C, F>>,
)
    requires
        call_ensures(ReadHooks::<T, B, C, F>::new, (), hooks) || call_ensures(
            ReadHooks::<T, B, C, F>::default,
            (),
            hooks,
        ),
        call_ensures(ReadHooks::<T, B, C, F>::call_for, (&hooks, &frame), call),
    ensures
        call is None,
{
}

/// Shared hooks are the very hooks: the same ones are called for the same messages.
pub proof fn law_shared_hooks_are_the_same<T, B, C, F>(
    hooks: ReadHooks<T, B, C, F>,
    shared: ReadHooks<T, B, C, F>,
)
    requires
        call_ensures(ReadHooks::<T, B, C, F>::share, (&hooks,), shared),
    ensures
        *shared.on_text == *hooks.on_text,
        *shared.on_binary == *hooks.on_binary,
        *shared.on_ping == *hooks.on_ping,
        *shared.on_pong == *hooks.on_pong,
        *shared.on_close == *hooks.on_close,
        *shared.on_frame == *hooks.on_frame,
{
}

} // verus!
