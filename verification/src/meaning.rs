//! What definitions mean, and how booleans are spelled: the common ground
//! on which the records of different backends are compared.

use crate::call::{CallModel, CompilerDefineModel, Setting};
use crate::plan::{BuildPlan, DefineModel, Encoding};
use vstd::prelude::*;

verus! {

/// What a definition says, apart from how a backend spells it.
pub enum Meaning {
    Text { value: Seq<char> },
    Flag { on: bool },
}

/// A definition as the rule table meant it: a name and what it is set to.
pub struct SemanticDefine {
    pub name: Seq<char>,
    pub value: Meaning,
}

impl Setting {
    /// The name of the setting: the macro that the native sources test.
    pub open spec fn macro_key(self) -> Seq<char> {
        match self {
            Setting::NoDebug => "NDEBUG"@,
            Setting::LinuxFutex => "SNMALLOC_HAS_LINUX_FUTEX_H"@,
            Setting::LinuxRandom => "SNMALLOC_HAS_LINUX_RANDOM_H"@,
            Setting::GetEntropy => "SNMALLOC_PLATFORM_HAS_GETENTROPY"@,
            Setting::VendoredStl => "SNMALLOC_USE_SELF_VENDORED_STL"@,
            Setting::CheckLoads => "SNMALLOC_CHECK_LOADS"@,
            Setting::PageId => "SNMALLOC_PAGEID"@,
            Setting::WaitOnAddress => "SNMALLOC_USE_WAIT_ON_ADDRESS"@,
        }
    }

    /// The name of the setting: the macro that the native sources test.
    pub fn macro_name(self) -> (r: &'static str)
        ensures
            r@ == self.macro_key(),
    {
        match self {
            Setting::NoDebug => "NDEBUG",
            Setting::LinuxFutex => "SNMALLOC_HAS_LINUX_FUTEX_H",
            Setting::LinuxRandom => "SNMALLOC_HAS_LINUX_RANDOM_H",
            Setting::GetEntropy => "SNMALLOC_PLATFORM_HAS_GETENTROPY",
            Setting::VendoredStl => "SNMALLOC_USE_SELF_VENDORED_STL",
            Setting::CheckLoads => "SNMALLOC_CHECK_LOADS",
            Setting::PageId => "SNMALLOC_PAGEID",
            Setting::WaitOnAddress => "SNMALLOC_USE_WAIT_ON_ADDRESS",
        }
    }
}

/// What a plain definition means.
pub open spec fn semantic_define(key: Seq<char>, value: Seq<char>) -> SemanticDefine {
    SemanticDefine { name: key, value: Meaning::Text { value } }
}

/// What a definition at the level of the compiler means.
pub open spec fn semantic_compiler_define(define: CompilerDefineModel) -> SemanticDefine {
    match define {
        CompilerDefineModel::Text { key, value } => SemanticDefine {
            name: key,
            value: Meaning::Text { value },
        },
        CompilerDefineModel::Switch { setting, on } => SemanticDefine {
            name: setting.macro_key(),
            value: Meaning::Flag { on },
        },
    }
}

/// The definitions that a list of calls makes, in order and as they were
/// meant. Offering a flag defines nothing.
pub open spec fn semantic_defines(calls: Seq<CallModel>) -> Seq<SemanticDefine>
    decreases calls.len(),
{
    if calls.len() == 0 {
        Seq::empty()
    } else {
        let before = semantic_defines(calls.drop_last());
        match calls.last() {
            CallModel::Define { key, value } => before.push(semantic_define(key, value)),
            CallModel::FlagIfSupported { flag } => before,
            CallModel::CompilerDefine { define } => before.push(semantic_compiler_define(define)),
        }
    }
}

/// The value and the encoding of a recorded boolean.
pub struct DefineSpelling {
    pub value: Option<Seq<char>>,
    pub encoding: Encoding,
}

/// How a boolean is spelled for a recorded definition. An encoding that
/// is not one of the three spellings of a boolean records the presence or
/// the absence of the key.
pub open spec fn spelled(encoding: Encoding, on: bool) -> DefineSpelling {
    match encoding {
        Encoding::Digit => DefineSpelling {
            value: Some(
                if on {
                    "1"@
                } else {
                    "0"@
                },
            ),
            encoding,
        },
        Encoding::Word => DefineSpelling {
            value: Some(
                if on {
                    "true"@
                } else {
                    "false"@
                },
            ),
            encoding,
        },
        Encoding::OnOff => DefineSpelling {
            value: Some(
                if on {
                    "ON"@
                } else {
                    "OFF"@
                },
            ),
            encoding,
        },
        _ => DefineSpelling {
            value: None,
            encoding: if on {
                Encoding::Presence
            } else {
                Encoding::Absence
            },
        },
    }
}

/// What a recorded definition means when its key is the name that the
/// rule table used.
pub open spec fn plain_meaning(entry: DefineModel) -> SemanticDefine {
    SemanticDefine {
        name: entry.key,
        value: match entry.encoding {
            Encoding::Verbatim | Encoding::CommandLine => Meaning::Text {
                value: match entry.value {
                    Some(v) => v,
                    None => Seq::empty(),
                },
            },
            Encoding::OnOff => Meaning::Flag { on: entry.value == Some("ON"@) },
            Encoding::Digit => Meaning::Flag { on: entry.value == Some("1"@) },
            Encoding::Word => Meaning::Flag { on: entry.value == Some("true"@) },
            Encoding::Presence => Meaning::Flag { on: true },
            Encoding::Absence => Meaning::Flag { on: false },
        },
    }
}

/// Spelling a boolean and reading it back gives the boolean.
pub proof fn spelling_round_trip(key: Seq<char>, encoding: Encoding, on: bool)
    requires
        encoding != Encoding::Verbatim,
        encoding != Encoding::CommandLine,
    ensures
        plain_meaning(
            DefineModel {
                key,
                value: spelled(encoding, on).value,
                encoding: spelled(encoding, on).encoding,
            },
        ) == (SemanticDefine { name: key, value: Meaning::Flag { on } }),
{
    reveal_strlit("ON");
    reveal_strlit("OFF");
    reveal_strlit("1");
    reveal_strlit("0");
    reveal_strlit("true");
    reveal_strlit("false");
    assert("1"@[0] != "0"@[0]);
    assert("ON"@.len() != "OFF"@.len());
    assert("true"@.len() != "false"@.len());
}

/// Records a boolean under `key` in the given encoding.
pub fn record_switch(plan: &mut BuildPlan, key: &str, encoding: Encoding, on: bool)
    ensures
        final(plan)@ == old(plan)@.with_define(
            (DefineModel {
                key: key@,
                value: spelled(encoding, on).value,
                encoding: spelled(encoding, on).encoding,
            }),
        ),
{
    match encoding {
        Encoding::Digit => {
            if on {
                plan.record_define(key, Some("1"), encoding);
            } else {
                plan.record_define(key, Some("0"), encoding);
            }
        },
        Encoding::Word => {
            if on {
                plan.record_define(key, Some("true"), encoding);
            } else {
                plan.record_define(key, Some("false"), encoding);
            }
        },
        Encoding::OnOff => {
            if on {
                plan.record_define(key, Some("ON"), encoding);
            } else {
                plan.record_define(key, Some("OFF"), encoding);
            }
        },
        _ => {
            if on {
                plan.record_define(key, None, Encoding::Presence);
            } else {
                plan.record_define(key, None, Encoding::Absence);
            }
        },
    }
}

} // verus!
