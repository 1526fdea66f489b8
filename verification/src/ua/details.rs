//! The self-describing form of a user agent: a JSON record that names each
//! fact by its field.
//!
//! A record is an object, whose members go by name and whose other members
//! are passed over, or an array that holds one element for each field, in
//! the order of the fields. A field that is missing or `null` is absent.

use vstd::prelude::*;
use crate::json::{field, is_record, Json, JsonValue};
use crate::ua::types::{
    Distro, DistroView, Implementation, ImplementationView, Installer, InstallerView, LibC,
    LibCView, System, SystemView, UserAgent, UserAgentView,
};

verus! {

/// The value of an optional reference to a document.
pub open spec fn value_at(v: Option<&Json>) -> Option<JsonValue> {
    match v {
        Some(j) => Some(j@),
        None => None,
    }
}

/// A field that is missing or `null`.
pub open spec fn is_absent(v: Option<JsonValue>) -> bool {
    v is None || v == Some(JsonValue::Null)
}

/// An optional text: nothing where the field is absent, the string where it
/// is one; any other value is refused.
pub open spec fn optional_text(v: Option<JsonValue>) -> Option<Option<Seq<char>>> {
    match v {
        None => Some(None),
        Some(JsonValue::Null) => Some(None),
        Some(JsonValue::Text(s)) => Some(Some(s)),
        Some(_) => None,
    }
}

/// A record of two optional texts, named `first` and `second`.
pub open spec fn text_pair(r: JsonValue, first: Seq<char>, second: Seq<char>) -> Option<
    (Option<Seq<char>>, Option<Seq<char>>),
> {
    if is_record(r, 2) && optional_text(field(r, first, 0, 2)) is Some && optional_text(
        field(r, second, 1, 2),
    ) is Some {
        Some((optional_text(field(r, first, 0, 2))->0, optional_text(field(r, second, 1, 2))->0))
    } else {
        None
    }
}

/// An optional record of two optional texts.
pub open spec fn optional_text_pair(
    v: Option<JsonValue>,
    first: Seq<char>,
    second: Seq<char>,
) -> Option<Option<(Option<Seq<char>>, Option<Seq<char>>)>> {
    if is_absent(v) {
        Some(None)
    } else {
        match text_pair(v->0, first, second) {
            Some(pair) => Some(Some(pair)),
            None => None,
        }
    }
}

/// The installer that a field holds.
pub open spec fn installer_of(v: Option<JsonValue>) -> Option<Option<InstallerView>> {
    match optional_text_pair(v, "name"@, "version"@) {
        None => None,
        Some(None) => Some(None),
        Some(Some((name, version))) => Some(Some(InstallerView { name, version })),
    }
}

/// The implementation that a field holds.
pub open spec fn implementation_of(v: Option<JsonValue>) -> Option<Option<ImplementationView>> {
    match optional_text_pair(v, "name"@, "version"@) {
        None => None,
        Some(None) => Some(None),
        Some(Some((name, version))) => Some(Some(ImplementationView { name, version })),
    }
}

/// The C library that a field holds.
pub open spec fn libc_of(v: Option<JsonValue>) -> Option<Option<LibCView>> {
    match optional_text_pair(v, "lib"@, "version"@) {
        None => None,
        Some(None) => Some(None),
        Some(Some((lib, version))) => Some(Some(LibCView { lib, version })),
    }
}

/// The system that a field holds.
pub open spec fn system_of(v: Option<JsonValue>) -> Option<Option<SystemView>> {
    match optional_text_pair(v, "name"@, "release"@) {
        None => None,
        Some(None) => Some(None),
        Some(Some((name, release))) => Some(Some(SystemView { name, release })),
    }
}

/// The distribution that a field holds: a record of `name`, `version`, `id`
/// and `libc`.
pub open spec fn distro_of(v: Option<JsonValue>) -> Option<Option<DistroView>> {
    if is_absent(v) {
        Some(None)
    } else {
        let r = v->0;
        let name = optional_text(field(r, "name"@, 0, 4));
        let version = optional_text(field(r, "version"@, 1, 4));
        let id = optional_text(field(r, "id"@, 2, 4));
        let libc = libc_of(field(r, "libc"@, 3, 4));
        if is_record(r, 4) && name is Some && version is Some && id is Some && libc is Some {
            Some(Some(DistroView { name: name->0, version: version->0, id: id->0, libc: libc->0 }))
        } else {
            None
        }
    }
}

/// The user agent that a document describes: a record of `installer`,
/// `python`, `implementation`, `distro`, `system`, `cpu`, `openssl_version`
/// and `setuptools_version`, each of its own shape. `None` where the
/// document is no such record.
pub open spec fn user_agent_of(r: JsonValue) -> Option<UserAgentView> {
    let installer = installer_of(field(r, "installer"@, 0, 8));
    let python = optional_text(field(r, "python"@, 1, 8));
    let implementation = implementation_of(field(r, "implementation"@, 2, 8));
    let distro = distro_of(field(r, "distro"@, 3, 8));
    let system = system_of(field(r, "system"@, 4, 8));
    let cpu = optional_text(field(r, "cpu"@, 5, 8));
    let openssl_version = optional_text(field(r, "openssl_version"@, 6, 8));
    let setuptools_version = optional_text(field(r, "setuptools_version"@, 7, 8));
    if is_record(r, 8) && installer is Some && python is Some && implementation is Some
        && distro is Some && system is Some && cpu is Some && openssl_version is Some
        && setuptools_version is Some {
        Some(
            UserAgentView {
                installer: installer->0,
                python: python->0,
                implementation: implementation->0,
                distro: distro->0,
                system: system->0,
                cpu: cpu->0,
                openssl_version: openssl_version->0,
                setuptools_version: setuptools_version->0,
            },
        )
    } else {
        None
    }
}

/// The characters of an optional text that may have been refused.
pub open spec fn read_text_view(r: Option<Option<String>>) -> Option<Option<Seq<char>>> {
    match r {
        None => None,
        Some(None) => Some(None),
        Some(Some(s)) => Some(Some(s@)),
    }
}

/// Whether a field is missing or `null`.
fn absent(v: Option<&Json>) -> (r: bool)
    ensures
        r == is_absent(value_at(v)),
{
    match v {
        None => true,
        Some(Json::Null) => true,
        Some(_) => false,
    }
}

/// Reads an optional text.
fn read_optional_text(v: Option<&Json>) -> (r: Option<Option<String>>)
    ensures
        read_text_view(r) == optional_text(value_at(v)),
{
    match v {
        None => Some(None),
        Some(Json::Null) => Some(None),
        Some(Json::Text(s)) => Some(Some(s.clone())),
        Some(_) => None,
    }
}

/// The characters of a pair of optional texts.
pub open spec fn pair_view(p: (Option<String>, Option<String>)) -> (
    Option<Seq<char>>,
    Option<Seq<char>>,
) {
    (crate::text::text_of(p.0), crate::text::text_of(p.1))
}

/// Reads an optional record of two optional texts.
fn read_optional_text_pair(v: Option<&Json>, first: &str, second: &str) -> (r: Option<
    Option<(Option<String>, Option<String>)>,
>)
    ensures
        match r {
            None => optional_text_pair(value_at(v), first@, second@) is None,
            Some(None) => optional_text_pair(value_at(v), first@, second@) == Some(
                None::<(Option<Seq<char>>, Option<Seq<char>>)>,
            ),
            Some(Some(p)) => optional_text_pair(value_at(v), first@, second@) == Some(
                Some(pair_view(p)),
            ),
        },
{
    if absent(v) {
        return Some(None);
    }
    let record = match v {
        Some(j) => j,
        None => {
            return Some(None);
        },
    };
    if !record.is_record(2) {
        return None;
    }
    let a = match read_optional_text(record.field(first, 0, 2)) {
        Some(a) => a,
        None => {
            return None;
        },
    };
    let b = match read_optional_text(record.field(second, 1, 2)) {
        Some(b) => b,
        None => {
            return None;
        },
    };
    Some(Some((a, b)))
}

/// Reads the distribution that a field holds.
fn read_distro(v: Option<&Json>) -> (r: Option<Option<Distro>>)
    ensures
        match r {
            None => distro_of(value_at(v)) is None,
            Some(None) => distro_of(value_at(v)) == Some(None::<DistroView>),
            Some(Some(d)) => distro_of(value_at(v)) == Some(Some(d@)),
        },
{
    if absent(v) {
        return Some(None);
    }
    let record = match v {
        Some(j) => j,
        None => {
            return Some(None);
        },
    };
    if !record.is_record(4) {
        return None;
    }
    let name = match read_optional_text(record.field("name", 0, 4)) {
        Some(x) => x,
        None => {
            return None;
        },
    };
    let version = match read_optional_text(record.field("version", 1, 4)) {
        Some(x) => x,
        None => {
            return None;
        },
    };
    let id = match read_optional_text(record.field("id", 2, 4)) {
        Some(x) => x,
        None => {
            return None;
        },
    };
    let libc = match read_optional_text_pair(record.field("libc", 3, 4), "lib", "version") {
        Some(Some((lib, version))) => Some(LibC { lib, version }),
        Some(None) => None,
        None => {
            return None;
        },
    };
    Some(Some(Distro { name, version, id, libc }))
}

/// Decodes the user agent that a document describes.
///
/// It succeeds exactly where the document is a record whose fields have
/// the shapes of a user agent; every field that the record leaves out, or
/// gives as `null`, is absent from the result.
pub fn decode_user_agent(document: &Json) -> (r: Option<UserAgent>)
    ensures
        match r {
            Some(ua) => user_agent_of(document@) == Some(ua@),
            None => user_agent_of(document@) is None,
        },
{
    if !document.is_record(8) {
        return None;
    }
    let installer = match read_optional_text_pair(
        document.field("installer", 0, 8),
        "name",
        "version",
    ) {
        Some(Some((name, version))) => Some(Installer { name, version }),
        Some(None) => None,
        None => {
            return None;
        },
    };
    let python = match read_optional_text(document.field("python", 1, 8)) {
        Some(x) => x,
        None => {
            return None;
        },
    };
    let implementation = match read_optional_text_pair(
        document.field("implementation", 2, 8),
        "name",
        "version",
    ) {
        Some(Some((name, version))) => Some(Implementation { name, version }),
        Some(None) => None,
        None => {
            return None;
        },
    };
    let distro = match read_distro(document.field("distro", 3, 8)) {
        Some(x) => x,
        None => {
            return None;
        },
    };
    let system = match read_optional_text_pair(document.field("system", 4, 8), "name", "release") {
        Some(Some((name, release))) => Some(System { name, release }),
        Some(None) => None,
        None => {
            return None;
        },
    };
    let cpu = match read_optional_text(document.field("cpu", 5, 8)) {
        Some(x) => x,
        None => {
            return None;
        },
    };
    let openssl_version = match read_optional_text(document.field("openssl_version", 6, 8)) {
        Some(x) => x,
        None => {
            return None;
        },
    };
    let setuptools_version = match read_optional_text(document.field("setuptools_version", 7, 8)) {
        Some(x) => x,
        None => {
            return None;
        },
    };
    Some(
        UserAgent {
            installer,
            python,
            implementation,
            distro,
            system,
            cpu,
            openssl_version,
            setuptools_version,
        },
    )
}

} // verus!
