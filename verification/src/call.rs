//! The calls that the rule table makes against a builder, as data.

use vstd::prelude::*;

verus! {

/// A boolean definition whose name and spelling differ between backends.
#[derive(Debug, Clone, Copy, PartialEq, Eq, Structural)]
pub enum Setting {
    NoDebug,
    LinuxFutex,
    LinuxRandom,
    GetEntropy,
    VendoredStl,
    CheckLoads,
    PageId,
    WaitOnAddress,
}

/// A definition made at the level of the compiler: a key with a text, or a
/// setting that is on or off.
#[derive(Debug, Clone, PartialEq, Eq)]
pub enum CompilerDefine {
    Text { key: String, value: String },
    Switch { setting: Setting, on: bool },
}

/// The mathematical content of a `CompilerDefine`.
pub enum CompilerDefineModel {
    Text { key: Seq<char>, value: Seq<char> },
    Switch { setting: Setting, on: bool },
}

impl View for CompilerDefine {
    type V = CompilerDefineModel;

    open spec fn view(&self) -> CompilerDefineModel {
        match self {
            CompilerDefine::Text { key, value } => CompilerDefineModel::Text {
                key: key@,
                value: value@,
            },
            CompilerDefine::Switch { setting, on } => CompilerDefineModel::Switch {
                setting: *setting,
                on: *on,
            },
        }
    }
}

/// One call of the rule table against the builder interface.
#[derive(Debug, Clone, PartialEq, Eq)]
pub enum BuilderCall {
    Define { key: String, value: String },
    FlagIfSupported { flag: String },
    CompilerDefine { define: CompilerDefine },
}

/// The mathematical content of a `BuilderCall`.
pub enum CallModel {
    Define { key: Seq<char>, value: Seq<char> },
    FlagIfSupported { flag: Seq<char> },
    CompilerDefine { define: CompilerDefineModel },
}

impl View for BuilderCall {
    type V = CallModel;

    open spec fn view(&self) -> CallModel {
        match self {
            BuilderCall::Define { key, value } => CallModel::Define { key: key@, value: value@ },
            BuilderCall::FlagIfSupported { flag } => CallModel::FlagIfSupported { flag: flag@ },
            BuilderCall::CompilerDefine { define } => CallModel::CompilerDefine { define: define@ },
        }
    }
}

/// The contents of a list of calls, call by call.
pub open spec fn calls_view(calls: Seq<BuilderCall>) -> Seq<CallModel> {
    calls.map_values(|c: BuilderCall| c@)
}

/// A call that sets `key` to `value`.
pub open spec fn define(key: Seq<char>, value: Seq<char>) -> CallModel {
    CallModel::Define { key, value }
}

/// A call that offers `flag` to the toolchain.
pub open spec fn flag(flag: Seq<char>) -> CallModel {
    CallModel::FlagIfSupported { flag }
}

/// A call that sets `key` to `value` at the level of the compiler.
pub open spec fn compiler_text(key: Seq<char>, value: Seq<char>) -> CallModel {
    CallModel::CompilerDefine { define: CompilerDefineModel::Text { key, value } }
}

/// A call that turns `setting` on or off.
pub open spec fn switch(setting: Setting, on: bool) -> CallModel {
    CallModel::CompilerDefine { define: CompilerDefineModel::Switch { setting, on } }
}

/// The text that stands for a boolean in a plain definition.
pub open spec fn on_off(on: bool) -> Seq<char> {
    if on {
        "ON"@
    } else {
        "OFF"@
    }
}

/// Appends a call that sets `key` to `value`.
pub(crate) fn push_define(calls: &mut Vec<BuilderCall>, key: &str, value: &str)
    ensures
        calls_view(final(calls)@) == calls_view(old(calls)@).push(define(key@, value@)),
{
    let call = BuilderCall::Define { key: String::from_str(key), value: String::from_str(value) };
    calls.push(call);
    assert(calls_view(calls@) =~= calls_view(old(calls)@).push(define(key@, value@)));
}

/// Appends a call that sets `key` to "ON" or "OFF".
pub(crate) fn push_toggle(calls: &mut Vec<BuilderCall>, key: &str, on: bool)
    ensures
        calls_view(final(calls)@) == calls_view(old(calls)@).push(define(key@, on_off(on))),
{
    if on {
        push_define(calls, key, "ON");
    } else {
        push_define(calls, key, "OFF");
    }
}

/// Appends a call that offers `flag` to the toolchain.
pub(crate) fn push_flag(calls: &mut Vec<BuilderCall>, text: &str)
    ensures
        calls_view(final(calls)@) == calls_view(old(calls)@).push(flag(text@)),
{
    let call = BuilderCall::FlagIfSupported { flag: String::from_str(text) };
    calls.push(call);
    assert(calls_view(calls@) =~= calls_view(old(calls)@).push(flag(text@)));
}

/// Appends a call that sets `key` to `value` at the level of the compiler.
pub(crate) fn push_compiler_text(calls: &mut Vec<BuilderCall>, key: &str, value: &str)
    ensures
        calls_view(final(calls)@) == calls_view(old(calls)@).push(compiler_text(key@, value@)),
{
    let call = BuilderCall::CompilerDefine {
        define: CompilerDefine::Text { key: String::from_str(key), value: String::from_str(value) },
    };
    calls.push(call);
    assert(calls_view(calls@) =~= calls_view(old(calls)@).push(compiler_text(key@, value@)));
}

/// Appends a call that turns `setting` on or off.
pub(crate) fn push_switch(calls: &mut Vec<BuilderCall>, setting: Setting, on: bool)
    ensures
        calls_view(final(calls)@) == calls_view(old(calls)@).push(switch(setting, on)),
{
    let call = BuilderCall::CompilerDefine { define: CompilerDefine::Switch { setting, on } };
    calls.push(call);
    assert(calls_view(calls@) =~= calls_view(old(calls)@).push(switch(setting, on)));
}

} // verus!
