//! The table of classification rules: which pattern is answered by which
//! handler. The order of the table is the order of precedence.

use vstd::prelude::*;

verus! {

/// What to make of a user agent that a pattern has matched.
#[derive(Debug, Clone, Copy)]
pub enum Handler {
    /// The agent carries a JSON record of itself in the group `data`.
    Details,
    /// The older form of pip: the installer's version, then the runtime and
    /// the system, each as a name and a version.
    Legacy,
    /// An installer of the given name that runs on urllib: the groups
    /// `version` and `python`.
    WithPython(&'static str),
    /// An installer of the given name with its version in the group
    /// `version`.
    Versioned(&'static str),
    /// Homebrew: the groups `version` and `osx_version`.
    Homebrew,
    /// A class of agents that goes by a fixed label and gives no version.
    Labelled(&'static str),
    /// Traffic that is counted as no request at all.
    Ignore,
}

/// One rule of the table.
#[derive(Debug, Clone, Copy)]
pub struct Rule {
    pub pattern: &'static str,
    pub handler: Handler,
}

/// The rules in their order of precedence. The rules that ignore an agent
/// come last, so that a more specific rule wins where two overlap.
pub open spec fn rule_table() -> Seq<Rule> {
    seq![
        Rule { pattern: r"^pip/(?P<version>\S+)\s+(?P<data>.+)$", handler: Handler::Details },
        Rule { pattern: r"^pip/(?P<version>\S+) (?P<impl_name>\S+)/(?P<impl_version>\S+) (?P<system_name>\S+)/(?P<system_release>\S+)$", handler: Handler::Legacy },
        Rule { pattern: r"^Python-urllib/(?P<python>\d\.\d) distribute/(?P<version>\S+)$", handler: Handler::WithPython("distribute") },
        Rule { pattern: r"^Python-urllib/(?P<python>\d\.\d) setuptools/(?P<version>\S+)$", handler: Handler::WithPython("setuptools") },
        Rule { pattern: r"^setuptools/(?P<version>\S+) Python-urllib/(?P<python>\d\.\d)$", handler: Handler::WithPython("setuptools") },
        Rule { pattern: r"pex/(?P<version>\S+)$", handler: Handler::Versioned("pex") },
        Rule { pattern: r"^conda/(?P<version>\S+)(?: .+)?$", handler: Handler::Versioned("conda") },
        Rule { pattern: r"^Bazel/(?:release\s+)?(?P<version>.+)$", handler: Handler::Versioned("Bazel") },
        Rule { pattern: r"^bandersnatch/(?P<version>\S+) \(.+\)$", handler: Handler::Versioned("bandersnatch") },
        Rule { pattern: r"devpi-server/(?P<version>\S+) \(.+\)$", handler: Handler::Versioned("devpi") },
        Rule { pattern: r"^z3c\.pypimirror/(?P<version>\S+)$", handler: Handler::Versioned("z3c.pypimirror") },
        Rule { pattern: r"^Artifactory/(?P<version>\S+)$", handler: Handler::Versioned("Artifactory") },
        Rule { pattern: r"^Nexus/(?P<version>\S+)", handler: Handler::Versioned("Nexus") },
        Rule { pattern: r"^pep381client(?:-proxy)?/(?P<version>\S+)$", handler: Handler::Versioned("pep381client") },
        Rule { pattern: r"^Homebrew/(?P<version>\S+) \(Macintosh; Intel (?:Mac OS X|macOS) (?P<osx_version>[^)]+)\)(?: .+)?$", handler: Handler::Homebrew },
        Rule { pattern: r"^fetch libfetch/\S+$", handler: Handler::Labelled("OS") },
        Rule { pattern: r"^libfetch/\S+$", handler: Handler::Labelled("OS") },
        Rule { pattern: r"^OpenBSD ftp$", handler: Handler::Labelled("OS") },
        Rule { pattern: r"^MacPorts/?", handler: Handler::Labelled("OS") },
        Rule { pattern: r"^NetBSD-ftp/", handler: Handler::Labelled("OS") },
        Rule { pattern: r"^slapt-get", handler: Handler::Labelled("OS") },
        Rule { pattern: r"^pypi-install/", handler: Handler::Labelled("OS") },
        Rule { pattern: r"^slackrepo$", handler: Handler::Labelled("OS") },
        Rule { pattern: r"^PTXdist", handler: Handler::Labelled("OS") },
        Rule { pattern: r"^GARstow/", handler: Handler::Labelled("OS") },
        Rule { pattern: r"^xbps/", handler: Handler::Labelled("OS") },
        Rule { pattern: r"^Python-urllib/\d+\.\d+$", handler: Handler::Labelled("Browser") },
        Rule { pattern: r"^python-requests/\S+(?: .+)?$", handler: Handler::Labelled("Browser") },
        Rule { pattern: r"(?i)Mozilla", handler: Handler::Labelled("Browser") },
        Rule { pattern: r"(?i)Safari", handler: Handler::Labelled("Browser") },
        Rule { pattern: r"(?i)wget", handler: Handler::Labelled("Browser") },
        Rule { pattern: r"(?i)curl", handler: Handler::Labelled("Browser") },
        Rule { pattern: r"(?i)Opera", handler: Handler::Labelled("Browser") },
        Rule { pattern: r"(?i)aria2", handler: Handler::Labelled("Browser") },
        Rule { pattern: r"(?i)AndroidDownloadManager", handler: Handler::Labelled("Browser") },
        Rule { pattern: r"(?i)com\.apple\.WebKit\.Networking/", handler: Handler::Labelled("Browser") },
        Rule { pattern: r"(?i)FDM \S+", handler: Handler::Labelled("Browser") },
        Rule { pattern: r"(?i)URL/Emacs", handler: Handler::Labelled("Browser") },
        Rule { pattern: r"(?i)Firefox/", handler: Handler::Labelled("Browser") },
        Rule { pattern: r"(?i)UCWEB", handler: Handler::Labelled("Browser") },
        Rule { pattern: r"(?i)Links", handler: Handler::Labelled("Browser") },
        Rule { pattern: r"(?i)^okhttp", handler: Handler::Labelled("Browser") },
        Rule { pattern: r"(?i)^Apache-HttpClient", handler: Handler::Labelled("Browser") },
        Rule { pattern: r"^excon/", handler: Handler::Labelled("Browser") },
        Rule { pattern: r"^Datadog Agent/", handler: Handler::Ignore },
        Rule { pattern: r"^\(null\)$", handler: Handler::Ignore },
        Rule { pattern: r"^WordPress/", handler: Handler::Ignore },
        Rule { pattern: r"^Chef (?:Client|Knife)/", handler: Handler::Ignore },
        Rule { pattern: r"^Ruby$", handler: Handler::Ignore },
        Rule { pattern: r"^Slackbot-LinkExpanding", handler: Handler::Ignore },
        Rule { pattern: r"^TextualInlineMedia/", handler: Handler::Ignore },
        Rule { pattern: r"^WeeChat/", handler: Handler::Ignore },
        Rule { pattern: r"^Download Master$", handler: Handler::Ignore },
        Rule { pattern: r"^Java/", handler: Handler::Ignore },
        Rule { pattern: r"^Go \d\.\d package http$", handler: Handler::Ignore },
        Rule { pattern: r"^Go-http-client/", handler: Handler::Ignore },
        Rule { pattern: r"^GNU Guile$", handler: Handler::Ignore },
        Rule { pattern: r"^github-olee$", handler: Handler::Ignore },
        Rule { pattern: r"^YisouSpider$", handler: Handler::Ignore },
        Rule { pattern: r"^Apache Ant/", handler: Handler::Ignore },
        Rule { pattern: r"^Salt/", handler: Handler::Ignore },
        Rule { pattern: r"^ansible-httpget$", handler: Handler::Ignore },
        Rule { pattern: r"^ltx71 - \(http://ltx71.com/\)", handler: Handler::Ignore },
        Rule { pattern: r"^Scrapy/", handler: Handler::Ignore },
        Rule { pattern: r"^spectool/", handler: Handler::Ignore },
        Rule { pattern: r"Nutch", handler: Handler::Ignore },
        Rule { pattern: r"^AWSBrewLinkChecker/", handler: Handler::Ignore },
        Rule { pattern: r"^Y!J-ASR/", handler: Handler::Ignore },
        Rule { pattern: r"^NSIS_Inetc \(Mozilla\)$", handler: Handler::Ignore },
        Rule { pattern: r"^Debian uscan", handler: Handler::Ignore },
        Rule { pattern: r"^Pingdom\.com_bot_version_\d+\.\d+_\(https?://www.pingdom.com/\)$", handler: Handler::Ignore },
        Rule { pattern: r"^MauiBot \(crawler\.feedback\+dc@gmail\.com\)$", handler: Handler::Ignore },
        Rule { pattern: r"^smartiproxy", handler: Handler::Ignore },
        Rule { pattern: r"^Apache-Maven/", handler: Handler::Ignore },
    ]
}

/// The number of rules in the table.
pub const RULE_COUNT: usize = 74;

/// The table of rules.
pub fn rules() -> (table: Vec<Rule>)
    ensures
        table@ == rule_table(),
{
    let table = vec![
        Rule { pattern: r"^pip/(?P<version>\S+)\s+(?P<data>.+)$", handler: Handler::Details },
        Rule { pattern: r"^pip/(?P<version>\S+) (?P<impl_name>\S+)/(?P<impl_version>\S+) (?P<system_name>\S+)/(?P<system_release>\S+)$", handler: Handler::Legacy },
        Rule { pattern: r"^Python-urllib/(?P<python>\d\.\d) distribute/(?P<version>\S+)$", handler: Handler::WithPython("distribute") },
        Rule { pattern: r"^Python-urllib/(?P<python>\d\.\d) setuptools/(?P<version>\S+)$", handler: Handler::WithPython("setuptools") },
        Rule { pattern: r"^setuptools/(?P<version>\S+) Python-urllib/(?P<python>\d\.\d)$", handler: Handler::WithPython("setuptools") },
        Rule { pattern: r"pex/(?P<version>\S+)$", handler: Handler::Versioned("pex") },
        Rule { pattern: r"^conda/(?P<version>\S+)(?: .+)?$", handler: Handler::Versioned("conda") },
        Rule { pattern: r"^Bazel/(?:release\s+)?(?P<version>.+)$", handler: Handler::Versioned("Bazel") },
        Rule { pattern: r"^bandersnatch/(?P<version>\S+) \(.+\)$", handler: Handler::Versioned("bandersnatch") },
        Rule { pattern: r"devpi-server/(?P<version>\S+) \(.+\)$", handler: Handler::Versioned("devpi") },
        Rule { pattern: r"^z3c\.pypimirror/(?P<version>\S+)$", handler: Handler::Versioned("z3c.pypimirror") },
        Rule { pattern: r"^Artifactory/(?P<version>\S+)$", handler: Handler::Versioned("Artifactory") },
        Rule { pattern: r"^Nexus/(?P<version>\S+)", handler: Handler::Versioned("Nexus") },
        Rule { pattern: r"^pep381client(?:-proxy)?/(?P<version>\S+)$", handler: Handler::Versioned("pep381client") },
        Rule { pattern: r"^Homebrew/(?P<version>\S+) \(Macintosh; Intel (?:Mac OS X|macOS) (?P<osx_version>[^)]+)\)(?: .+)?$", handler: Handler::Homebrew },
        Rule { pattern: r"^fetch libfetch/\S+$", handler: Handler::Labelled("OS") },
        Rule { pattern: r"^libfetch/\S+$", handler: Handler::Labelled("OS") },
        Rule { pattern: r"^OpenBSD ftp$", handler: Handler::Labelled("OS") },
        Rule { pattern: r"^MacPorts/?", handler: Handler::Labelled("OS") },
        Rule { pattern: r"^NetBSD-ftp/", handler: Handler::Labelled("OS") },
        Rule { pattern: r"^slapt-get", handler: Handler::Labelled("OS") },
        Rule { pattern: r"^pypi-install/", handler: Handler::Labelled("OS") },
        Rule { pattern: r"^slackrepo$", handler: Handler::Labelled("OS") },
        Rule { pattern: r"^PTXdist", handler: Handler::Labelled("OS") },
        Rule { pattern: r"^GARstow/", handler: Handler::Labelled("OS") },
        Rule { pattern: r"^xbps/", handler: Handler::Labelled("OS") },
        Rule { pattern: r"^Python-urllib/\d+\.\d+$", handler: Handler::Labelled("Browser") },
        Rule { pattern: r"^python-requests/\S+(?: .+)?$", handler: Handler::Labelled("Browser") },
        Rule { pattern: r"(?i)Mozilla", handler: Handler::Labelled("Browser") },
        Rule { pattern: r"(?i)Safari", handler: Handler::Labelled("Browser") },
        Rule { pattern: r"(?i)wget", handler: Handler::Labelled("Browser") },
        Rule { pattern: r"(?i)curl", handler: Handler::Labelled("Browser") },
        Rule { pattern: r"(?i)Opera", handler: Handler::Labelled("Browser") },
        Rule { pattern: r"(?i)aria2", handler: Handler::Labelled("Browser") },
        Rule { pattern: r"(?i)AndroidDownloadManager", handler: Handler::Labelled("Browser") },
        Rule { pattern: r"(?i)com\.apple\.WebKit\.Networking/", handler: Handler::Labelled("Browser") },
        Rule { pattern: r"(?i)FDM \S+", handler: Handler::Labelled("Browser") },
        Rule { pattern: r"(?i)URL/Emacs", handler: Handler::Labelled("Browser") },
        Rule { pattern: r"(?i)Firefox/", handler: Handler::Labelled("Browser") },
        Rule { pattern: r"(?i)UCWEB", handler: Handler::Labelled("Browser") },
        Rule { pattern: r"(?i)Links", handler: Handler::Labelled("Browser") },
        Rule { pattern: r"(?i)^okhttp", handler: Handler::Labelled("Browser") },
        Rule { pattern: r"(?i)^Apache-HttpClient", handler: Handler::Labelled("Browser") },
        Rule { pattern: r"^excon/", handler: Handler::Labelled("Browser") },
        Rule { pattern: r"^Datadog Agent/", handler: Handler::Ignore },
        Rule { pattern: r"^\(null\)$", handler: Handler::Ignore },
        Rule { pattern: r"^WordPress/", handler: Handler::Ignore },
        Rule { pattern: r"^Chef (?:Client|Knife)/", handler: Handler::Ignore },
        Rule { pattern: r"^Ruby$", handler: Handler::Ignore },
        Rule { pattern: r"^Slackbot-LinkExpanding", handler: Handler::Ignore },
        Rule { pattern: r"^TextualInlineMedia/", handler: Handler::Ignore },
        Rule { pattern: r"^WeeChat/", handler: Handler::Ignore },
        Rule { pattern: r"^Download Master$", handler: Handler::Ignore },
        Rule { pattern: r"^Java/", handler: Handler::Ignore },
        Rule { pattern: r"^Go \d\.\d package http$", handler: Handler::Ignore },
        Rule { pattern: r"^Go-http-client/", handler: Handler::Ignore },
        Rule { pattern: r"^GNU Guile$", handler: Handler::Ignore },
        Rule { pattern: r"^github-olee$", handler: Handler::Ignore },
        Rule { pattern: r"^YisouSpider$", handler: Handler::Ignore },
        Rule { pattern: r"^Apache Ant/", handler: Handler::Ignore },
        Rule { pattern: r"^Salt/", handler: Handler::Ignore },
        Rule { pattern: r"^ansible-httpget$", handler: Handler::Ignore },
        Rule { pattern: r"^ltx71 - \(http://ltx71.com/\)", handler: Handler::Ignore },
        Rule { pattern: r"^Scrapy/", handler: Handler::Ignore },
        Rule { pattern: r"^spectool/", handler: Handler::Ignore },
        Rule { pattern: r"Nutch", handler: Handler::Ignore },
        Rule { pattern: r"^AWSBrewLinkChecker/", handler: Handler::Ignore },
        Rule { pattern: r"^Y!J-ASR/", handler: Handler::Ignore },
        Rule { pattern: r"^NSIS_Inetc \(Mozilla\)$", handler: Handler::Ignore },
        Rule { pattern: r"^Debian uscan", handler: Handler::Ignore },
        Rule { pattern: r"^Pingdom\.com_bot_version_\d+\.\d+_\(https?://www.pingdom.com/\)$", handler: Handler::Ignore },
        Rule { pattern: r"^MauiBot \(crawler\.feedback\+dc@gmail\.com\)$", handler: Handler::Ignore },
        Rule { pattern: r"^smartiproxy", handler: Handler::Ignore },
        Rule { pattern: r"^Apache-Maven/", handler: Handler::Ignore },
    ];
    assert(table@ =~= rule_table());
    table
}

} // verus!
