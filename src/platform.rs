//! Target platforms and the startup features that each of them offers.
use vstd::prelude::*;

verus! {

/// The operating system the program runs on.
#[derive(Clone, Copy, Debug, PartialEq, Eq, Structural)]
pub enum TargetOs {
    Linux,
    Macos,
    Windows,
    Ios,
    Android,
    Other,
}

/// The operating system that a standard target name denotes.
pub open spec fn os_of_name(name: Seq<char>) -> TargetOs {
    if name == "linux"@ {
        TargetOs::Linux
    } else if name == "macos"@ {
        TargetOs::Macos
    } else if name == "windows"@ {
        TargetOs::Windows
    } else if name == "ios"@ {
        TargetOs::Ios
    } else if name == "android"@ {
        TargetOs::Android
    } else {
        TargetOs::Other
    }
}

/// The three desktop systems.
pub open spec fn is_desktop_os(os: TargetOs) -> bool {
    os is Linux || os is Macos || os is Windows
}

impl TargetOs {
    /// The system named by `name`, in the spelling of Rust's target names
    /// (`"linux"`, `"macos"`, `"windows"`, `"ios"`, `"android"`); any other
    /// name gives `Other`.
    pub fn from_name(name: &str) -> (r: TargetOs)
        ensures
            r == os_of_name(name@),
    {
        let n: String = name.to_owned();
        if n == "linux".to_owned() {
            TargetOs::Linux
        } else if n == "macos".to_owned() {
            TargetOs::Macos
        } else if n == "windows".to_owned() {
            TargetOs::Windows
        } else if n == "ios".to_owned() {
            TargetOs::Ios
        } else if n == "android".to_owned() {
            TargetOs::Android
        } else {
            TargetOs::Other
        }
    }

    /// Whether this is one of the desktop systems.
    pub fn is_desktop(&self) -> (r: bool)
        ensures
            r == is_desktop_os(*self),
    {
        match self {
            TargetOs::Linux | TargetOs::Macos | TargetOs::Windows => true,
            _ => false,
        }
    }
}

/// The platform-dependent startup features, resolved once.
#[derive(Clone, Copy, Debug, PartialEq, Eq, Structural)]
pub struct PlatformCapabilities {
    /// Whether a launch with the minimized flag starts with the window minimized.
    pub supports_minimized_launch: bool,
    /// Whether the program can register itself to start at login.
    pub supports_autostart: bool,
}

impl PlatformCapabilities {
    /// The features of `os`: both on the desktop systems, neither elsewhere.
    pub fn for_os(os: TargetOs) -> (r: PlatformCapabilities)
        ensures
            r.supports_minimized_launch == is_desktop_os(os),
            r.supports_autostart == is_desktop_os(os),
    {
        let desktop = os.is_desktop();
        PlatformCapabilities { supports_minimized_launch: desktop, supports_autostart: desktop }
    }
}

} // verus!
