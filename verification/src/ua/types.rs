//! What a user agent string describes.

use vstd::prelude::*;
use crate::text::text_of;

verus! {

/// What fetched the package.
#[derive(Debug, Clone, PartialEq, Eq)]
pub struct Installer {
    pub name: Option<String>,
    pub version: Option<String>,
}

/// The mathematical value of [`Installer`].
pub struct InstallerView {
    pub name: Option<Seq<char>>,
    pub version: Option<Seq<char>>,
}

impl View for Installer {
    type V = InstallerView;

    open spec fn view(&self) -> InstallerView {
        InstallerView {
            name: text_of(self.name),
            version: text_of(self.version),
        }
    }
}

impl InstallerView {
    /// The value with every field absent.
    pub open spec fn empty() -> InstallerView {
        InstallerView {
            name: None,
            version: None,
        }
    }
}

/// The language runtime.
#[derive(Debug, Clone, PartialEq, Eq)]
pub struct Implementation {
    pub name: Option<String>,
    pub version: Option<String>,
}

/// The mathematical value of [`Implementation`].
pub struct ImplementationView {
    pub name: Option<Seq<char>>,
    pub version: Option<Seq<char>>,
}

impl View for Implementation {
    type V = ImplementationView;

    open spec fn view(&self) -> ImplementationView {
        ImplementationView {
            name: text_of(self.name),
            version: text_of(self.version),
        }
    }
}

impl ImplementationView {
    /// The value with every field absent.
    pub open spec fn empty() -> ImplementationView {
        ImplementationView {
            name: None,
            version: None,
        }
    }
}

/// The C library of a distribution.
#[derive(Debug, Clone, PartialEq, Eq)]
pub struct LibC {
    pub lib: Option<String>,
    pub version: Option<String>,
}

/// The mathematical value of [`LibC`].
pub struct LibCView {
    pub lib: Option<Seq<char>>,
    pub version: Option<Seq<char>>,
}

impl View for LibC {
    type V = LibCView;

    open spec fn view(&self) -> LibCView {
        LibCView {
            lib: text_of(self.lib),
            version: text_of(self.version),
        }
    }
}

impl LibCView {
    /// The value with every field absent.
    pub open spec fn empty() -> LibCView {
        LibCView {
            lib: None,
            version: None,
        }
    }
}

/// The operating system distribution.
#[derive(Debug, Clone, PartialEq, Eq)]
pub struct Distro {
    pub name: Option<String>,
    pub version: Option<String>,
    pub id: Option<String>,
    pub libc: Option<LibC>,
}

/// The mathematical value of [`Distro`].
pub struct DistroView {
    pub name: Option<Seq<char>>,
    pub version: Option<Seq<char>>,
    pub id: Option<Seq<char>>,
    pub libc: Option<LibCView>,
}

impl View for Distro {
    type V = DistroView;

    open spec fn view(&self) -> DistroView {
        DistroView {
            name: text_of(self.name),
            version: text_of(self.version),
            id: text_of(self.id),
            libc: match self.libc {
                Some(v) => Some(v@),
                None => None,
            },
        }
    }
}

impl DistroView {
    /// The value with every field absent.
    pub open spec fn empty() -> DistroView {
        DistroView {
            name: None,
            version: None,
            id: None,
            libc: None,
        }
    }
}

/// The operating system kernel.
#[derive(Debug, Clone, PartialEq, Eq)]
pub struct System {
    pub name: Option<String>,
    pub release: Option<String>,
}

/// The mathematical value of [`System`].
pub struct SystemView {
    pub name: Option<Seq<char>>,
    pub release: Option<Seq<char>>,
}

impl View for System {
    type V = SystemView;

    open spec fn view(&self) -> SystemView {
        SystemView {
            name: text_of(self.name),
            release: text_of(self.release),
        }
    }
}

impl SystemView {
    /// The value with every field absent.
    pub open spec fn empty() -> SystemView {
        SystemView {
            name: None,
            release: None,
        }
    }
}

/// What a client said of itself. Every field may be absent.
#[derive(Debug, Clone, PartialEq, Eq)]
pub struct UserAgent {
    pub installer: Option<Installer>,
    pub python: Option<String>,
    pub implementation: Option<Implementation>,
    pub distro: Option<Distro>,
    pub system: Option<System>,
    pub cpu: Option<String>,
    pub openssl_version: Option<String>,
    pub setuptools_version: Option<String>,
}

/// The mathematical value of [`UserAgent`].
pub struct UserAgentView {
    pub installer: Option<InstallerView>,
    pub python: Option<Seq<char>>,
    pub implementation: Option<ImplementationView>,
    pub distro: Option<DistroView>,
    pub system: Option<SystemView>,
    pub cpu: Option<Seq<char>>,
    pub openssl_version: Option<Seq<char>>,
    pub setuptools_version: Option<Seq<char>>,
}

impl View for UserAgent {
    type V = UserAgentView;

    open spec fn view(&self) -> UserAgentView {
        UserAgentView {
            installer: match self.installer {
                Some(v) => Some(v@),
                None => None,
            },
            python: text_of(self.python),
            implementation: match self.implementation {
                Some(v) => Some(v@),
                None => None,
            },
            distro: match self.distro {
                Some(v) => Some(v@),
                None => None,
            },
            system: match self.system {
                Some(v) => Some(v@),
                None => None,
            },
            cpu: text_of(self.cpu),
            openssl_version: text_of(self.openssl_version),
            setuptools_version: text_of(self.setuptools_version),
        }
    }
}

impl UserAgentView {
    /// The value with every field absent.
    pub open spec fn empty() -> UserAgentView {
        UserAgentView {
            installer: None,
            python: None,
            implementation: None,
            distro: None,
            system: None,
            cpu: None,
            openssl_version: None,
            setuptools_version: None,
        }
    }
}

impl Default for Installer {
    /// Every field absent.
    fn default() -> (r: Installer)
        ensures
            r@ == InstallerView::empty(),
    {
        Installer { name: None, version: None }
    }
}

impl Default for Implementation {
    /// Every field absent.
    fn default() -> (r: Implementation)
        ensures
            r@ == ImplementationView::empty(),
    {
        Implementation { name: None, version: None }
    }
}

impl Default for Distro {
    /// Every field absent.
    fn default() -> (r: Distro)
        ensures
            r@ == DistroView::empty(),
    {
        Distro { name: None, version: None, id: None, libc: None }
    }
}

impl Default for System {
    /// Every field absent.
    fn default() -> (r: System)
        ensures
            r@ == SystemView::empty(),
    {
        System { name: None, release: None }
    }
}

impl Default for UserAgent {
    /// Every field absent.
    fn default() -> (r: UserAgent)
        ensures
            r@ == UserAgentView::empty(),
    {
        UserAgent { installer: None, python: None, implementation: None, distro: None, system: None, cpu: None, openssl_version: None, setuptools_version: None }
    }
}

} // verus!
