//! A user agent written as JSON: an object that names every field, with
//! `null` for a field that is absent.

use vstd::prelude::*;
use crate::json::{
    lemma_written, lemma_written_first, optional_json_text, pair_json, push_optional_text,
    push_pair,
};
use crate::text::text_of;
use crate::ua::types::{
    Distro, DistroView, Implementation, ImplementationView, Installer, InstallerView, LibC,
    LibCView, System, SystemView, UserAgent, UserAgentView,
};

verus! {

/// The value of an optional [`Installer`].
pub open spec fn view_of_installer(v: Option<Installer>) -> Option<InstallerView> {
    match v {
        Some(x) => Some(x@),
        None => None,
    }
}

/// The value of an optional [`Implementation`].
pub open spec fn view_of_implementation(v: Option<Implementation>) -> Option<ImplementationView> {
    match v {
        Some(x) => Some(x@),
        None => None,
    }
}

/// The value of an optional [`LibC`].
pub open spec fn view_of_libc(v: Option<LibC>) -> Option<LibCView> {
    match v {
        Some(x) => Some(x@),
        None => None,
    }
}

/// The value of an optional [`Distro`].
pub open spec fn view_of_distro(v: Option<Distro>) -> Option<DistroView> {
    match v {
        Some(x) => Some(x@),
        None => None,
    }
}

/// The value of an optional [`System`].
pub open spec fn view_of_system(v: Option<System>) -> Option<SystemView> {
    match v {
        Some(x) => Some(x@),
        None => None,
    }
}

/// The JSON of an optional installer.
pub open spec fn installer_json(v: Option<InstallerView>) -> Seq<char> {
    match v {
        Some(x) => pair_json("\"name\":"@, x.name, "\"version\":"@, x.version),
        None => "null"@,
    }
}

/// The JSON of an optional implementation.
pub open spec fn implementation_json(v: Option<ImplementationView>) -> Seq<char> {
    match v {
        Some(x) => pair_json("\"name\":"@, x.name, "\"version\":"@, x.version),
        None => "null"@,
    }
}

/// The JSON of an optional C library.
pub open spec fn libc_json(v: Option<LibCView>) -> Seq<char> {
    match v {
        Some(x) => pair_json("\"lib\":"@, x.lib, "\"version\":"@, x.version),
        None => "null"@,
    }
}

/// The JSON of an optional system.
pub open spec fn system_json(v: Option<SystemView>) -> Seq<char> {
    match v {
        Some(x) => pair_json("\"name\":"@, x.name, "\"release\":"@, x.release),
        None => "null"@,
    }
}

/// The JSON of an optional distribution.
pub open spec fn distro_json(v: Option<DistroView>) -> Seq<char> {
    match v {
        Some(d) => "{\"name\":"@ + optional_json_text(d.name) + ",\"version\":"@
            + optional_json_text(d.version) + ",\"id\":"@ + optional_json_text(d.id)
            + ",\"libc\":"@ + libc_json(d.libc) + "}"@,
        None => "null"@,
    }
}

/// The JSON of a user agent.
pub open spec fn user_agent_json(ua: UserAgentView) -> Seq<char> {
    "{\"installer\":"@ + installer_json(ua.installer) + ",\"python\":"@ + optional_json_text(
        ua.python,
    ) + ",\"implementation\":"@ + implementation_json(ua.implementation) + ",\"distro\":"@
        + distro_json(ua.distro) + ",\"system\":"@ + system_json(ua.system) + ",\"cpu\":"@
        + optional_json_text(ua.cpu) + ",\"openssl_version\":"@ + optional_json_text(
        ua.openssl_version,
    ) + ",\"setuptools_version\":"@ + optional_json_text(ua.setuptools_version) + "}"@
}

/// Appends the JSON of an optional installer.
fn push_installer(out: &mut String, v: &Option<Installer>)
    ensures
        final(out)@ == old(out)@ + installer_json(view_of_installer(*v)),
{
    match v {
        Some(x) => push_pair(out, "\"name\":", &x.name, "\"version\":", &x.version),
        None => out.append("null"),
    }
}

/// Appends the JSON of an optional implementation.
fn push_implementation(out: &mut String, v: &Option<Implementation>)
    ensures
        final(out)@ == old(out)@ + implementation_json(view_of_implementation(*v)),
{
    match v {
        Some(x) => push_pair(out, "\"name\":", &x.name, "\"version\":", &x.version),
        None => out.append("null"),
    }
}

/// Appends the JSON of an optional C library.
fn push_libc(out: &mut String, v: &Option<LibC>)
    ensures
        final(out)@ == old(out)@ + libc_json(view_of_libc(*v)),
{
    match v {
        Some(x) => push_pair(out, "\"lib\":", &x.lib, "\"version\":", &x.version),
        None => out.append("null"),
    }
}

/// Appends the JSON of an optional system.
fn push_system(out: &mut String, v: &Option<System>)
    ensures
        final(out)@ == old(out)@ + system_json(view_of_system(*v)),
{
    match v {
        Some(x) => push_pair(out, "\"name\":", &x.name, "\"release\":", &x.release),
        None => out.append("null"),
    }
}

/// Appends the JSON of an optional distribution.
fn push_distro(out: &mut String, v: &Option<Distro>)
    ensures
        final(out)@ == old(out)@ + distro_json(view_of_distro(*v)),
{
    let ghost start = out@;
    match v {
        Some(d) => {
            let ghost v0 = optional_json_text(text_of(d.name));
            let ghost v1 = optional_json_text(text_of(d.version));
            let ghost v2 = optional_json_text(text_of(d.id));
            let ghost v3 = libc_json(view_of_libc(d.libc));
            out.append("{\"name\":");
            push_optional_text(out, &d.name);
            proof {
                lemma_written_first(start, "{\"name\":"@, v0);
            }
            let ghost done0 = "{\"name\":"@ + v0;
            out.append(",\"version\":");
            push_optional_text(out, &d.version);
            proof {
                lemma_written(start, done0, ",\"version\":"@, v1);
            }
            let ghost done1 = done0 + ",\"version\":"@ + v1;
            out.append(",\"id\":");
            push_optional_text(out, &d.id);
            proof {
                lemma_written(start, done1, ",\"id\":"@, v2);
            }
            let ghost done2 = done1 + ",\"id\":"@ + v2;
            out.append(",\"libc\":");
            push_libc(out, &d.libc);
            proof {
                lemma_written(start, done2, ",\"libc\":"@, v3);
            }
            let ghost done3 = done2 + ",\"libc\":"@ + v3;
            out.append("}");
            proof {
                lemma_written_first(start, done3, "}"@);
            }
        },
        None => out.append("null"),
    }
}

/// Appends the JSON of a user agent to `out`.
pub fn push_user_agent(out: &mut String, ua: &UserAgent)
    ensures
        final(out)@ == old(out)@ + user_agent_json(ua@),
{
    let ghost start = out@;
    let ghost v0 = installer_json(view_of_installer(ua.installer));
    let ghost v1 = optional_json_text(text_of(ua.python));
    let ghost v2 = implementation_json(view_of_implementation(ua.implementation));
    let ghost v3 = distro_json(view_of_distro(ua.distro));
    let ghost v4 = system_json(view_of_system(ua.system));
    let ghost v5 = optional_json_text(text_of(ua.cpu));
    let ghost v6 = optional_json_text(text_of(ua.openssl_version));
    let ghost v7 = optional_json_text(text_of(ua.setuptools_version));
    out.append("{\"installer\":");
    push_installer(out, &ua.installer);
    proof {
        lemma_written_first(start, "{\"installer\":"@, v0);
    }
    let ghost done0 = "{\"installer\":"@ + v0;
    out.append(",\"python\":");
    push_optional_text(out, &ua.python);
    proof {
        lemma_written(start, done0, ",\"python\":"@, v1);
    }
    let ghost done1 = done0 + ",\"python\":"@ + v1;
    out.append(",\"implementation\":");
    push_implementation(out, &ua.implementation);
    proof {
        lemma_written(start, done1, ",\"implementation\":"@, v2);
    }
    let ghost done2 = done1 + ",\"implementation\":"@ + v2;
    out.append(",\"distro\":");
    push_distro(out, &ua.distro);
    proof {
        lemma_written(start, done2, ",\"distro\":"@, v3);
    }
    let ghost done3 = done2 + ",\"distro\":"@ + v3;
    out.append(",\"system\":");
    push_system(out, &ua.system);
    proof {
        lemma_written(start, done3, ",\"system\":"@, v4);
    }
    let ghost done4 = done3 + ",\"system\":"@ + v4;
    out.append(",\"cpu\":");
    push_optional_text(out, &ua.cpu);
    proof {
        lemma_written(start, done4, ",\"cpu\":"@, v5);
    }
    let ghost done5 = done4 + ",\"cpu\":"@ + v5;
    out.append(",\"openssl_version\":");
    push_optional_text(out, &ua.openssl_version);
    proof {
        lemma_written(start, done5, ",\"openssl_version\":"@, v6);
    }
    let ghost done6 = done5 + ",\"openssl_version\":"@ + v6;
    out.append(",\"setuptools_version\":");
    push_optional_text(out, &ua.setuptools_version);
    proof {
        lemma_written(start, done6, ",\"setuptools_version\":"@, v7);
    }
    let ghost done7 = done6 + ",\"setuptools_version\":"@ + v7;
    out.append("}");
    proof {
        lemma_written_first(start, done7, "}"@);
    }
}

impl UserAgent {
    /// This user agent written as JSON.
    pub fn to_json(&self) -> (r: String)
        ensures
            r@ == user_agent_json(self@),
    {
        let mut out = String::new();
        push_user_agent(&mut out, self);
        assert(out@ =~= user_agent_json(self@));
        out
    }
}

} // verus!
