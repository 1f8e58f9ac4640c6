//! Inclusion rules gated on the operating system and on feature flags, and
//! the launch arguments they filter.

use std::collections::BTreeMap;
use vstd::prelude::*;
use vstd::string::*;

use crate::os::{Os, OsSelector, ALL_BITS};
use crate::source::{lemma_texts_push, texts};
use crate::text::{has_prefix, keyed_by_text, lookup, starts_with, text_is};

verus! {

#[derive(Clone, Copy, Debug, PartialEq, Eq, Structural)]
pub enum RuleAction {
    Allow,
    Disallow,
}

impl RuleAction {
    pub open spec fn inverted(self) -> RuleAction {
        match self {
            RuleAction::Allow => RuleAction::Disallow,
            RuleAction::Disallow => RuleAction::Allow,
        }
    }

    pub fn value(self) -> (r: bool)
        ensures
            r == (self == RuleAction::Allow),
    {
        match self {
            Self::Allow => true,
            Self::Disallow => false,
        }
    }

    pub fn invert(self) -> (r: RuleAction)
        ensures
            r == self.inverted(),
    {
        match self {
            Self::Allow => Self::Disallow,
            Self::Disallow => Self::Allow,
        }
    }
}

/// The systems a rule speaks of; an absent field means "any".
#[derive(Clone, Debug, Default)]
pub struct OsDescription {
    pub name: Option<String>,
    pub version: Option<String>,
    pub arch: Option<String>,
}

pub open spec fn names_x86(arch: Option<String>) -> bool {
    arch is Some && arch->0@ == "x86"@
}

pub open spec fn names_ten(version: Option<String>) -> bool {
    version is Some && has_prefix(version->0@, "^10"@)
}

impl OsDescription {
    /// The systems this description matches.
    pub open spec fn matched_bits(self) -> u16 {
        let x86 = names_x86(self.arch);
        let ten = names_ten(self.version);
        match self.name {
            None => ALL_BITS,
            Some(n) => if n@ == "linux"@ {
                if x86 {
                    Os::Linux32.bit()
                } else {
                    Os::Linux64.bit() | Os::Linux32.bit()
                }
            } else if n@ == "windows"@ {
                if ten && x86 {
                    Os::Windows10_32.bit()
                } else if ten {
                    Os::Windows10_64.bit() | Os::Windows10_32.bit()
                } else if x86 {
                    Os::Windows32.bit() | Os::Windows10_32.bit()
                } else {
                    Os::Windows32.bit() | Os::Windows64.bit() | Os::Windows10_32.bit()
                        | Os::Windows10_64.bit()
                }
            } else if n@ == "osx"@ {
                if ten && x86 {
                    Os::OSX32.bit()
                } else if ten {
                    Os::OSX64.bit() | Os::OSX32.bit()
                } else if x86 {
                    Os::MacOS32.bit() | Os::OSX32.bit()
                } else {
                    Os::OSX32.bit() | Os::OSX64.bit() | Os::MacOS32.bit() | Os::MacOS64.bit()
                }
            } else {
                0
            },
        }
    }

    pub fn matched(&self) -> (r: OsSelector)
        ensures
            r.bits == self.matched_bits(),
    {
        let x86 = match &self.arch {
            Some(a) => text_is(a.as_str(), "x86"),
            None => false,
        };
        let ten = match &self.version {
            Some(v) => starts_with(v.as_str(), "^10"),
            None => false,
        };
        match &self.name {
            None => OsSelector::all(),
            Some(n) => if text_is(n.as_str(), "linux") {
                if x86 {
                    OsSelector::single(Os::Linux32)
                } else {
                    OsSelector::single(Os::Linux64).with(Os::Linux32)
                }
            } else if text_is(n.as_str(), "windows") {
                if ten && x86 {
                    OsSelector::single(Os::Windows10_32)
                } else if ten {
                    OsSelector::single(Os::Windows10_64).with(Os::Windows10_32)
                } else if x86 {
                    OsSelector::single(Os::Windows32).with(Os::Windows10_32)
                } else {
                    OsSelector::single(Os::Windows32).with(Os::Windows64).with(
                        Os::Windows10_32,
                    ).with(Os::Windows10_64)
                }
            } else if text_is(n.as_str(), "osx") {
                if ten && x86 {
                    OsSelector::single(Os::OSX32)
                } else if ten {
                    OsSelector::single(Os::OSX64).with(Os::OSX32)
                } else if x86 {
                    OsSelector::single(Os::MacOS32).with(Os::OSX32)
                } else {
                    OsSelector::single(Os::OSX32).with(Os::OSX64).with(Os::MacOS32).with(
                        Os::MacOS64,
                    )
                }
            } else {
                OsSelector::empty()
            },
        }
    }
}

/// Whether the caller's feature `k` is on; an absent feature is off.
pub open spec fn feature_on(features: Map<Seq<char>, bool>, k: Seq<char>) -> bool {
    features.contains_key(k) && features[k]
}

/// Whether every feature a rule names has, for the caller, the value the
/// rule asks for.
pub open spec fn features_agree(wanted: Seq<(String, bool)>, features: Map<Seq<char>, bool>) -> bool {
    forall|i: int| 0 <= i < wanted.len() ==> feature_on(features, wanted[i].0@) == wanted[i].1
}

#[derive(Clone, Debug)]
pub struct Rule {
    pub action: RuleAction,
    pub os: OsDescription,
    pub features: Vec<(String, bool)>,
}

impl Rule {
    /// What the rule evaluates to for the caller: its action when both the
    /// systems and the features match, the inverse of it otherwise.
    pub open spec fn eval(self, features: Map<Seq<char>, bool>, os: OsSelector) -> RuleAction {
        if os.meets(OsSelector { bits: self.os.matched_bits() }) && features_agree(
            self.features@,
            features,
        ) {
            self.action
        } else {
            self.action.inverted()
        }
    }

    fn calculate_action(&self, features: &BTreeMap<&str, bool>, os: OsSelector) -> (r: RuleAction)
        ensures
            r == self.eval(keyed_by_text(features@), os),
    {
        let matched = self.os.matched();
        if !os.intersects(&matched) {
            return self.action.invert();
        }
        let mut i: usize = 0;
        while i < self.features.len()
            invariant
                i <= self.features@.len(),
                os.meets(matched),
                matched.bits == self.os.matched_bits(),
                forall|j: int|
                    0 <= j < i ==> feature_on(keyed_by_text(features@), #[trigger] self.features@[j].0@)
                        == self.features@[j].1,
            decreases self.features@.len() - i,
        {
            let on = match lookup(features, self.features[i].0.as_str()) {
                Some(v) => *v,
                None => false,
            };
            if on != self.features[i].1 {
                return self.action.invert();
            }
            i += 1;
        }
        self.action
    }

    pub fn is_allowed(&self, features: &BTreeMap<&str, bool>, os: OsSelector) -> (r: bool)
        ensures
            r == (self.eval(keyed_by_text(features@), os) == RuleAction::Allow),
    {
        self.calculate_action(features, os).value()
    }
}

/// An ordered list of rules.
#[derive(Clone, Debug, Default)]
pub struct Rules(pub Vec<Rule>);

impl Rules {
    /// An item is allowed unless some rule explicitly disallows it.
    pub open spec fn allows(self, features: Map<Seq<char>, bool>, os: OsSelector) -> bool {
        !exists|i: int|
            0 <= i < self.0@.len() && #[trigger] self.0@[i].eval(features, os)
                == RuleAction::Disallow
    }

    pub fn is_allowed(&self, features: &BTreeMap<&str, bool>, os: OsSelector) -> (r: bool)
        ensures
            r == self.allows(keyed_by_text(features@), os),
    {
        let mut i: usize = 0;
        while i < self.0.len()
            invariant
                i <= self.0@.len(),
                forall|j: int|
                    0 <= j < i ==> #[trigger] self.0@[j].eval(keyed_by_text(features@), os)
                        != RuleAction::Disallow,
            decreases self.0@.len() - i,
        {
            if !self.0[i].is_allowed(features, os) {
                return false;
            }
            i += 1;
        }
        true
    }
}

/// An empty list of rules allows everything.
pub proof fn lemma_no_rules_allow(rules: Rules, features: Map<Seq<char>, bool>, os: OsSelector)
    requires
        rules.0@.len() == 0,
    ensures
        rules.allows(features, os),
{
}

/// A single rule allowing Linux, with no version, architecture or feature
/// condition, allows exactly the selections that hold a Linux system.
pub proof fn lemma_linux_rule(rules: Rules, features: Map<Seq<char>, bool>, os: OsSelector)
    requires
        rules.0@.len() == 1,
        rules.0@[0].action == RuleAction::Allow,
        rules.0@[0].os.name is Some,
        rules.0@[0].os.name->0@ == "linux"@,
        rules.0@[0].os.arch is None,
        rules.0@[0].features@.len() == 0,
    ensures
        rules.allows(features, os) == os.meets(
            OsSelector { bits: Os::Linux64.bit() | Os::Linux32.bit() },
        ),
{
    let rule = rules.0@[0];
    assert(features_agree(rule.features@, features));
    if rules.allows(features, os) {
        assert(rule.eval(features, os) != RuleAction::Disallow);
    } else {
        let i = choose|i: int|
            0 <= i < rules.0@.len() && #[trigger] rules.0@[i].eval(features, os)
                == RuleAction::Disallow;
        assert(i == 0);
    }
}

/// One launch argument: always present, or present when its rules allow.
#[derive(Clone, Debug)]
pub enum Argument {
    Plain(String),
    RuleSpecific { value: Vec<String>, rules: Rules },
}

impl Argument {
    /// The strings this argument contributes for the caller.
    pub open spec fn strings(self, features: Map<Seq<char>, bool>, os: OsSelector) -> Seq<Seq<char>> {
        match self {
            Argument::Plain(s) => seq![s@],
            Argument::RuleSpecific { value, rules } => if rules.allows(features, os) {
                texts(value@)
            } else {
                Seq::empty()
            },
        }
    }

    pub fn iter_strings(&self, features: &BTreeMap<&str, bool>, os: OsSelector) -> (r: Vec<String>)
        ensures
            texts(r@) == self.strings(keyed_by_text(features@), os),
    {
        let mut out: Vec<String> = Vec::new();
        append_strings(&mut out, self, features, os);
        proof {
            assert(texts(out@) =~= self.strings(keyed_by_text(features@), os));
        }
        out
    }
}

/// The strings a list of arguments contributes, in order.
pub open spec fn flatten_args(
    args: Seq<Argument>,
    features: Map<Seq<char>, bool>,
    os: OsSelector,
) -> Seq<Seq<char>>
    decreases args.len(),
{
    if args.len() == 0 {
        Seq::empty()
    } else {
        flatten_args(args.drop_last(), features, os) + args.last().strings(features, os)
    }
}

/// Pushes the strings `arg` contributes onto `out`.
fn append_strings(out: &mut Vec<String>, arg: &Argument, features: &BTreeMap<&str, bool>, os: OsSelector)
    ensures
        texts(final(out)@) == texts(old(out)@) + arg.strings(keyed_by_text(features@), os),
{
    match arg {
        Argument::Plain(s) => {
            out.push(s.clone());
            proof {
                assert(texts(final(out)@) =~= texts(old(out)@) + seq![s@]);
            }
        },
        Argument::RuleSpecific { value, rules } => {
            if rules.is_allowed(features, os) {
                let ghost start = out@;
                let mut i: usize = 0;
                while i < value.len()
                    invariant
                        i <= value@.len(),
                        texts(out@) == texts(start) + texts(value@.subrange(0, i as int)),
                    decreases value@.len() - i,
                {
                    let ghost prev = out@;
                    let item = value[i].clone();
                    out.push(item);
                    proof {
                        lemma_texts_push(prev, item);
                        lemma_texts_push(value@.subrange(0, i as int), value@[i as int]);
                        assert(value@.subrange(0, i + 1) =~= value@.subrange(0, i as int).push(
                            value@[i as int],
                        ));
                        assert(texts(out@) =~= texts(start) + texts(value@.subrange(0, i + 1)));
                    }
                    i += 1;
                }
                proof {
                    assert(value@.subrange(0, value@.len() as int) =~= value@);
                }
            } else {
                proof {
                    assert(texts(old(out)@) + Seq::<Seq<char>>::empty() =~= texts(old(out)@));
                }
            }
        },
    }
}

/// The strings a list of arguments contributes for the caller.
fn flat_strings(args: &Vec<Argument>, features: &BTreeMap<&str, bool>, os: OsSelector) -> (r: Vec<String>)
    ensures
        texts(r@) == flatten_args(args@, keyed_by_text(features@), os),
{
    let mut out: Vec<String> = Vec::new();
    let mut i: usize = 0;
    while i < args.len()
        invariant
            i <= args@.len(),
            texts(out@) == flatten_args(args@.subrange(0, i as int), keyed_by_text(features@), os),
        decreases args@.len() - i,
    {
        append_strings(&mut out, &args[i], features, os);
        proof {
            let f = keyed_by_text(features@);
            let next = args@.subrange(0, i + 1);
            assert(next.drop_last() =~= args@.subrange(0, i as int));
            assert(next.last() == args@[i as int]);
        }
        i += 1;
    }
    proof {
        assert(args@.subrange(0, args@.len() as int) =~= args@);
    }
    out
}

/// The launch arguments of a version, in either of the two upstream shapes.
#[derive(Clone, Debug)]
pub enum Arguments {
    Modern { game: Vec<Argument>, jvm: Vec<Argument> },
    Legacy(Vec<String>),
}

impl Arguments {
    pub open spec fn jvm_strings(self, features: Map<Seq<char>, bool>, os: OsSelector) -> Seq<
        Seq<char>,
    > {
        match self {
            Arguments::Modern { jvm, .. } => flatten_args(jvm@, features, os),
            Arguments::Legacy(_) => Seq::empty(),
        }
    }

    pub open spec fn game_strings(self, features: Map<Seq<char>, bool>, os: OsSelector) -> Seq<
        Seq<char>,
    > {
        match self {
            Arguments::Modern { game, .. } => flatten_args(game@, features, os),
            Arguments::Legacy(words) => texts(words@),
        }
    }

    pub fn iter_jvm_args(&self, features: &BTreeMap<&str, bool>, os: OsSelector) -> (r: Vec<String>)
        ensures
            texts(r@) == self.jvm_strings(keyed_by_text(features@), os),
    {
        match self {
            Self::Modern { jvm, .. } => flat_strings(jvm, features, os),
            Self::Legacy(_) => Vec::new(),
        }
    }

    pub fn iter_game_args(&self, features: &BTreeMap<&str, bool>, os: OsSelector) -> (r: Vec<String>)
        ensures
            texts(r@) == self.game_strings(keyed_by_text(features@), os),
    {
        match self {
            Self::Modern { game, .. } => flat_strings(game, features, os),
            Self::Legacy(words) => {
                let mut out: Vec<String> = Vec::new();
                let mut i: usize = 0;
                while i < words.len()
                    invariant
                        i <= words@.len(),
                        texts(out@) == texts(words@.subrange(0, i as int)),
                    decreases words@.len() - i,
                {
                    let ghost prev = out@;
                    let item = words[i].clone();
                    out.push(item);
                    proof {
                        lemma_texts_push(prev, item);
                        lemma_texts_push(words@.subrange(0, i as int), words@[i as int]);
                        assert(words@.subrange(0, i + 1) =~= words@.subrange(0, i as int).push(
                            words@[i as int],
                        ));
                    }
                    i += 1;
                }
                proof {
                    assert(words@.subrange(0, words@.len() as int) =~= words@);
                }
                out
            },
        }
    }
}

} // verus!
