//! Classification of user agent strings.
//!
//! A user agent is held against the rules of a table, in their order. The
//! first rule whose pattern matches and whose handler has an answer
//! decides: the agent is described, or it is ignored. An agent that no
//! rule answers is unrecognized.

use vstd::prelude::*;
use crate::json::{json_document, parse_json};
use crate::text::{eq_ignore_case, equals_ignoring_case, text_of};
use crate::ua::details::{decode_user_agent, user_agent_of};
use crate::ua::matcher::{
    captures, compile_set, groups_view, matching, names_view, regex_captures, regex_matches,
    set_compiles, set_patterns,
};
use crate::ua::rules::{rule_table, rules, Handler, Rule};
use crate::ua::types::{
    DistroView, ImplementationView, InstallerView, SystemView, UserAgentView,
};

pub mod details;
pub mod encode;
pub mod matcher;
pub mod rules;
pub mod types;

pub use types::{Distro, Implementation, Installer, LibC, System, UserAgent};

verus! {

/// What a user agent string was found to be.
#[derive(Debug, Clone, PartialEq, Eq)]
pub enum Outcome {
    /// An agent of a known kind, with what it says of itself.
    Structured(UserAgent),
    /// An agent whose requests are not counted.
    Ignored,
    /// An agent that no rule answers.
    Unrecognized,
}

/// The mathematical value of [`Outcome`].
pub enum OutcomeView {
    Structured(UserAgentView),
    Ignored,
    Unrecognized,
}

impl View for Outcome {
    type V = OutcomeView;

    open spec fn view(&self) -> OutcomeView {
        match self {
            Outcome::Structured(ua) => OutcomeView::Structured(ua@),
            Outcome::Ignored => OutcomeView::Ignored,
            Outcome::Unrecognized => OutcomeView::Unrecognized,
        }
    }
}

/// A user agent that no rule answers.
#[derive(Debug, Clone, PartialEq, Eq)]
pub struct UserAgentParseError {
    ua: String,
}

impl UserAgentParseError {
    /// The user agent that was not recognized.
    pub closed spec fn agent(&self) -> Seq<char> {
        self.ua@
    }

    /// The user agent that was not recognized.
    pub fn ua(&self) -> (r: &str)
        ensures
            r@ == self.agent(),
    {
        self.ua.as_str()
    }

    /// What went wrong, in words.
    pub fn description(&self) -> (r: &'static str)
        ensures
            r@ == "Unknown or invalid user agent"@,
    {
        "Unknown or invalid user agent"
    }
}

/// The names of the groups that a handler reads, in the order in which it
/// reads them.
pub open spec fn handler_groups(handler: Handler) -> Seq<&'static str> {
    match handler {
        Handler::Details => seq!["data"],
        Handler::Legacy => seq![
            "version",
            "impl_name",
            "impl_version",
            "system_name",
            "system_release",
        ],
        Handler::WithPython(_) => seq!["version", "python"],
        Handler::Versioned(_) => seq!["version"],
        Handler::Homebrew => seq!["version", "osx_version"],
        Handler::Labelled(_) => seq![],
        Handler::Ignore => seq![],
    }
}

/// The names of the groups that a handler reads.
pub fn group_names(handler: Handler) -> (names: Vec<&'static str>)
    ensures
        names@ == handler_groups(handler),
{
    let names = match handler {
        Handler::Details => vec!["data"],
        Handler::Legacy => vec![
            "version",
            "impl_name",
            "impl_version",
            "system_name",
            "system_release",
        ],
        Handler::WithPython(_) => vec!["version", "python"],
        Handler::Versioned(_) => vec!["version"],
        Handler::Homebrew => vec!["version", "osx_version"],
        Handler::Labelled(_) => Vec::new(),
        Handler::Ignore => Vec::new(),
    };
    assert(names@ =~= handler_groups(handler));
    names
}

/// A text of the older form of pip: the word `unknown`, in any case, stands
/// for nothing.
pub open spec fn without_unknown(s: Seq<char>) -> Option<Seq<char>> {
    if equals_ignoring_case(s, "unknown"@) {
        None
    } else {
        Some(s)
    }
}

/// An agent of which only the installer is known.
pub open spec fn installer_only(name: Seq<char>, version: Option<Seq<char>>) -> UserAgentView {
    UserAgentView {
        installer: Some(InstallerView { name: Some(name), version }),
        ..UserAgentView::empty()
    }
}

/// What the older form of pip describes. The runtime and the system keep
/// what is not `unknown`; the version of Python is that of the runtime
/// where the runtime is CPython, in any case of the letters.
pub open spec fn legacy_agent(
    version: Seq<char>,
    impl_name: Seq<char>,
    impl_version: Seq<char>,
    system_name: Seq<char>,
    system_release: Seq<char>,
) -> UserAgentView {
    UserAgentView {
        installer: Some(InstallerView { name: Some("pip"@), version: Some(version) }),
        python: if equals_ignoring_case(impl_name, "cpython"@) {
            Some(impl_version)
        } else {
            None
        },
        implementation: Some(
            ImplementationView {
                name: without_unknown(impl_name),
                version: without_unknown(impl_version),
            },
        ),
        system: Some(
            SystemView {
                name: without_unknown(system_name),
                release: without_unknown(system_release),
            },
        ),
        ..UserAgentView::empty()
    }
}

/// In the older form of pip, a name or a version of the runtime or of the
/// system that is the word `unknown`, in any case of its letters, is absent
/// from what the agent describes; any other is kept as it is written.
pub proof fn lemma_unknown_is_absent(
    version: Seq<char>,
    impl_name: Seq<char>,
    impl_version: Seq<char>,
    system_name: Seq<char>,
    system_release: Seq<char>,
)
    ensures
        ({
            let groups = seq![
                Some(version),
                Some(impl_name),
                Some(impl_version),
                Some(system_name),
                Some(system_release),
            ];
            let ua = legacy_agent(version, impl_name, impl_version, system_name, system_release);
            &&& answer(Handler::Legacy, groups) == OutcomeView::Structured(ua)
            &&& ua.implementation is Some
            &&& ua.system is Some
            &&& ua.implementation->0.name == if equals_ignoring_case(impl_name, "unknown"@) {
                None
            } else {
                Some(impl_name)
            }
            &&& ua.implementation->0.version == if equals_ignoring_case(impl_version, "unknown"@) {
                None
            } else {
                Some(impl_version)
            }
            &&& ua.system->0.name == if equals_ignoring_case(system_name, "unknown"@) {
                None
            } else {
                Some(system_name)
            }
            &&& ua.system->0.release == if equals_ignoring_case(system_release, "unknown"@) {
                None
            } else {
                Some(system_release)
            }
        }),
{
    let groups = seq![
        Some(version),
        Some(impl_name),
        Some(impl_version),
        Some(system_name),
        Some(system_release),
    ];
    assert(handler_groups(Handler::Legacy).len() == 5);
    assert(!exists|i: int| 0 <= i < groups.len() && #[trigger] groups[i] is None);
}

/// What Homebrew describes: itself, on OS X of the given version.
pub open spec fn homebrew_agent(version: Seq<char>, osx_version: Seq<char>) -> UserAgentView {
    UserAgentView {
        installer: Some(InstallerView { name: Some("Homebrew"@), version: Some(version) }),
        distro: Some(
            DistroView { name: Some("OS X"@), version: Some(osx_version), id: None, libc: None },
        ),
        ..UserAgentView::empty()
    }
}

/// The answer of a handler to the groups of a match. `Unrecognized` is the
/// answer of a handler that declines, for a group that it reads and that
/// is missing, or for a record that does not decode.
pub open spec fn answer(handler: Handler, groups: Seq<Option<Seq<char>>>) -> OutcomeView {
    if groups.len() != handler_groups(handler).len() || exists|i: int|
        0 <= i < groups.len() && #[trigger] groups[i] is None {
        OutcomeView::Unrecognized
    } else {
        match handler {
            Handler::Details => match json_document(groups[0]->0) {
                Some(document) => match user_agent_of(document) {
                    Some(ua) => OutcomeView::Structured(ua),
                    None => OutcomeView::Unrecognized,
                },
                None => OutcomeView::Unrecognized,
            },
            Handler::Legacy => OutcomeView::Structured(
                legacy_agent(
                    groups[0]->0,
                    groups[1]->0,
                    groups[2]->0,
                    groups[3]->0,
                    groups[4]->0,
                ),
            ),
            Handler::WithPython(name) => OutcomeView::Structured(
                UserAgentView {
                    python: Some(groups[1]->0),
                    ..installer_only(name@, Some(groups[0]->0))
                },
            ),
            Handler::Versioned(name) => OutcomeView::Structured(
                installer_only(name@, Some(groups[0]->0)),
            ),
            Handler::Homebrew => OutcomeView::Structured(
                homebrew_agent(groups[0]->0, groups[1]->0),
            ),
            Handler::Labelled(label) => OutcomeView::Structured(installer_only(label@, None)),
            Handler::Ignore => OutcomeView::Ignored,
        }
    }
}

/// What one rule makes of `input`: the answer of its handler to the groups
/// of the match, where its pattern matches; `Unrecognized` where it does
/// not.
pub open spec fn rule_answer(rule: Rule, input: Seq<char>) -> OutcomeView {
    if regex_matches(rule.pattern@, input) {
        match regex_captures(rule.pattern@, input, names_view(handler_groups(rule.handler))) {
            Some(groups) => answer(rule.handler, groups),
            None => OutcomeView::Unrecognized,
        }
    } else {
        OutcomeView::Unrecognized
    }
}

/// What the rules from position `from` on make of `input`: the answer of the
/// first rule whose pattern matches and whose handler does not decline.
pub open spec fn classification_from(table: Seq<Rule>, input: Seq<char>, from: int) -> OutcomeView
    decreases table.len() - from,
{
    if from < 0 || from >= table.len() {
        OutcomeView::Unrecognized
    } else {
        match rule_answer(table[from], input) {
            OutcomeView::Unrecognized => classification_from(table, input, from + 1),
            decided => decided,
        }
    }
}

/// What the table of rules makes of a user agent.
pub open spec fn classification(input: Seq<char>) -> OutcomeView {
    classification_from(rule_table(), input, 0)
}

/// The patterns of a table of rules, in their order.
pub open spec fn table_patterns(table: Seq<Rule>) -> Seq<Seq<char>> {
    table.map_values(|rule: Rule| rule.pattern@)
}

/// Whether the patterns of the table make a set.
pub open spec fn table_compiles() -> bool {
    set_compiles(table_patterns(rule_table()))
}

/// Rules whose patterns do not match are passed over.
pub proof fn lemma_skip_rules(table: Seq<Rule>, input: Seq<char>, from: int, to: int)
    requires
        0 <= from <= to <= table.len(),
        forall|i: int| from <= i < to ==> !regex_matches(#[trigger] table[i].pattern@, input),
    ensures
        classification_from(table, input, from) == classification_from(table, input, to),
    decreases to - from,
{
    if from < to {
        lemma_skip_rules(table, input, from + 1, to);
    }
}

/// An owned copy of a text, where it is not the word `unknown`.
fn keep_known(s: &String) -> (r: Option<String>)
    ensures
        text_of(r) == without_unknown(s@),
{
    if eq_ignore_case(s.as_str(), "unknown") {
        None
    } else {
        Some(s.clone())
    }
}

/// The agent of which only the installer is known.
fn installer_agent(name: &str, version: Option<String>) -> (r: UserAgent)
    ensures
        r@ == installer_only(name@, text_of(version)),
{
    UserAgent {
        installer: Some(Installer { name: Some(name.to_owned()), version }),
        python: None,
        implementation: None,
        distro: None,
        system: None,
        cpu: None,
        openssl_version: None,
        setuptools_version: None,
    }
}

/// The texts of the groups of a match, where none is missing.
fn present_groups(groups: &Vec<Option<String>>) -> (r: Option<Vec<String>>)
    ensures
        match r {
            Some(texts) => texts@.len() == groups@.len() && forall|i: int|
                0 <= i < groups@.len() ==> #[trigger] groups_view(groups@)[i] == Some(
                    texts@[i]@,
                ),
            None => exists|i: int|
                0 <= i < groups@.len() && #[trigger] groups_view(groups@)[i] is None,
        },
{
    let mut texts: Vec<String> = Vec::new();
    let mut i: usize = 0;
    while i < groups.len()
        invariant
            i <= groups@.len(),
            texts@.len() == i,
            forall|j: int|
                0 <= j < i ==> #[trigger] groups_view(groups@)[j] == Some(texts@[j]@),
        decreases groups@.len() - i,
    {
        match &groups[i] {
            Some(text) => {
                texts.push(text.clone());
            },
            None => {
                assert(groups_view(groups@)[i as int] is None);
                return None;
            },
        }
        i += 1;
    }
    Some(texts)
}

/// The answer of a handler to the groups of a match.
///
/// A handler declines, with `Unrecognized`, where a group that it reads is
/// missing, and the handler of the self-describing form also where the
/// record does not decode.
pub fn apply(handler: Handler, groups: &Vec<Option<String>>) -> (r: Outcome)
    ensures
        r@ == answer(handler, groups_view(groups@)),
{
    let names = group_names(handler);
    if groups.len() != names.len() {
        return Outcome::Unrecognized;
    }
    let texts = match present_groups(groups) {
        Some(texts) => texts,
        None => {
            return Outcome::Unrecognized;
        },
    };
    match handler {
        Handler::Details => {
            match parse_json(texts[0].as_str()) {
                Some(document) => match decode_user_agent(&document) {
                    Some(ua) => Outcome::Structured(ua),
                    None => Outcome::Unrecognized,
                },
                None => Outcome::Unrecognized,
            }
        },
        Handler::Legacy => {
            let python = if eq_ignore_case(texts[1].as_str(), "cpython") {
                Some(texts[2].clone())
            } else {
                None
            };
            Outcome::Structured(
                UserAgent {
                    installer: Some(
                        Installer { name: Some("pip".to_owned()), version: Some(texts[0].clone()) },
                    ),
                    python,
                    implementation: Some(
                        Implementation {
                            name: keep_known(&texts[1]),
                            version: keep_known(&texts[2]),
                        },
                    ),
                    distro: None,
                    system: Some(
                        System { name: keep_known(&texts[3]), release: keep_known(&texts[4]) },
                    ),
                    cpu: None,
                    openssl_version: None,
                    setuptools_version: None,
                },
            )
        },
        Handler::WithPython(name) => {
            let mut ua = installer_agent(name, Some(texts[0].clone()));
            ua.python = Some(texts[1].clone());
            Outcome::Structured(ua)
        },
        Handler::Versioned(name) => Outcome::Structured(
            installer_agent(name, Some(texts[0].clone())),
        ),
        Handler::Homebrew => {
            let mut ua = installer_agent("Homebrew", Some(texts[0].clone()));
            ua.distro = Some(
                Distro {
                    name: Some("OS X".to_owned()),
                    version: Some(texts[1].clone()),
                    id: None,
                    libc: None,
                },
            );
            Outcome::Structured(ua)
        },
        Handler::Labelled(label) => Outcome::Structured(installer_agent(label, None)),
        Handler::Ignore => Outcome::Ignored,
    }
}

/// The table of rules with its patterns made ready for matching.
pub struct UserAgentParser {
    set: regex::RegexSet,
    table: Vec<Rule>,
}

impl UserAgentParser {
    /// The table is the table of rules, and the set holds its patterns in
    /// their order.
    #[verifier::type_invariant]
    spec fn ready(&self) -> bool {
        self.table@ == rule_table() && set_patterns(self.set) == table_patterns(rule_table())
    }

    /// Makes the table ready; `None` where its patterns make no set.
    pub fn new() -> (r: Option<UserAgentParser>)
        ensures
            r is Some == table_compiles(),
    {
        let table = rules();
        let mut patterns: Vec<&'static str> = Vec::new();
        let mut i: usize = 0;
        while i < table.len()
            invariant
                i <= table@.len(),
                patterns@.len() == i,
                forall|j: int| 0 <= j < i ==> (#[trigger] patterns@[j])@ == table@[j].pattern@,
            decreases table@.len() - i,
        {
            patterns.push(table[i].pattern);
            i += 1;
        }
        assert(names_view(patterns@) =~= table_patterns(table@));
        match compile_set(&patterns) {
            Some(set) => Some(UserAgentParser { set, table }),
            None => None,
        }
    }

    /// Classifies a user agent by the table of rules.
    ///
    /// The result is that of the first rule, in the order of the table,
    /// whose pattern matches the agent and whose handler does not decline;
    /// an agent that no rule answers is `Unrecognized`.
    pub fn classify(&self, input: &str) -> (r: Outcome)
        ensures
            r@ == classification(input@),
    {
        proof {
            use_type_invariant(self);
        }
        let found = matching(&self.set, input);
        let ghost table = rule_table();
        let mut next: usize = 0;
        let mut k: usize = 0;
        while k < found.len()
            invariant
                k <= found@.len(),
                next <= table.len(),
                table == rule_table(),
                self.table@ == table,
                set_patterns(self.set) == table_patterns(table),
                classification(input@) == classification_from(table, input@, next as int),
                forall|i: int, j: int|
                    0 <= i < j < found@.len() ==> #[trigger] found@[i] < #[trigger] found@[j],
                forall|j: int|
                    0 <= j < found@.len() ==> (#[trigger] found@[j]) < table.len()
                        && regex_matches(table_patterns(table)[found@[j] as int], input@),
                forall|i: int|
                    next <= i < table.len() && regex_matches(
                        #[trigger] table_patterns(table)[i],
                        input@,
                    ) ==> exists|j: int| k <= j < found@.len() && found@[j] == i,
            decreases found@.len() - k,
        {
            let index = found[k];
            proof {
                assert forall|i: int| next <= i < index implies !regex_matches(
                    #[trigger] table[i].pattern@,
                    input@,
                ) by {
                    assert(table_patterns(table)[i] == table[i].pattern@);
                    if regex_matches(table_patterns(table)[i], input@) {
                        let j = choose|j: int| k <= j < found@.len() && found@[j] == i;
                        if j > k {
                            assert(found@[k as int] < found@[j]);
                        }
                    }
                }
                if next <= index {
                    lemma_skip_rules(table, input@, next as int, index as int);
                }
            }
            if index >= next {
                let rule = self.table[index];
                let names = group_names(rule.handler);
                proof {
                    assert(table_patterns(table)[index as int] == table[index as int].pattern@);
                    assert(regex_matches(rule.pattern@, input@));
                }
                match captures(rule.pattern, input, &names) {
                    Some(groups) => {
                        let outcome = apply(rule.handler, &groups);
                        match outcome {
                            Outcome::Unrecognized => {},
                            decided => {
                                return decided;
                            },
                        }
                    },
                    None => {},
                }
                next = index + 1;
            }
            proof {
                assert forall|i: int|
                    next <= i < table.len() && regex_matches(
                        #[trigger] table_patterns(table)[i],
                        input@,
                    ) implies exists|j: int| k + 1 <= j < found@.len() && found@[j] == i by {
                    let j = choose|j: int| k <= j < found@.len() && found@[j] == i;
                    assert(j != k);
                }
            }
            k += 1;
        }
        proof {
            assert forall|i: int| next <= i < table.len() implies !regex_matches(
                #[trigger] table[i].pattern@,
                input@,
            ) by {
                assert(table_patterns(table)[i] == table[i].pattern@);
            }
            lemma_skip_rules(table, input@, next as int, table.len() as int);
        }
        Outcome::Unrecognized
    }

    /// Classifies a user agent: what it describes, nothing for an agent
    /// that is ignored, and an error that holds the agent where no rule
    /// answers it.
    pub fn parse(&self, input: &str) -> (r: Result<Option<UserAgent>, UserAgentParseError>)
        ensures
            match r {
                Ok(Some(ua)) => classification(input@) == OutcomeView::Structured(ua@),
                Ok(None) => classification(input@) == OutcomeView::Ignored,
                Err(e) => classification(input@) == OutcomeView::Unrecognized && e.agent()
                    == input@,
            },
    {
        match self.classify(input) {
            Outcome::Structured(ua) => Ok(Some(ua)),
            Outcome::Ignored => Ok(None),
            Outcome::Unrecognized => Err(UserAgentParseError { ua: input.to_owned() }),
        }
    }
}

/// Classifies a user agent by a table that is made ready for this one call.
///
/// Where the patterns of the table make a set, the result is what the
/// table makes of the agent: what it describes, nothing for an agent that
/// is ignored, and an error that holds the agent where no rule answers it.
/// Where they make none, the result is that error.
pub fn parse(input: &str) -> (r: Result<Option<UserAgent>, UserAgentParseError>)
    ensures
        match r {
            Ok(Some(ua)) => table_compiles() && classification(input@) == OutcomeView::Structured(
                ua@,
            ),
            Ok(None) => table_compiles() && classification(input@) == OutcomeView::Ignored,
            Err(e) => e.agent() == input@ && (!table_compiles() || classification(input@)
                == OutcomeView::Unrecognized),
        },
{
    match UserAgentParser::new() {
        Some(parser) => parser.parse(input),
        None => Err(UserAgentParseError { ua: input.to_owned() }),
    }
}

} // verus!
