//! Platforms the application runs on, and the transport that reaches the
//! local presence service on each of them.

use vstd::prelude::*;
use crate::text::same_text;

verus! {

/// Application id under which the presence is published. Both transports
/// register with the same id, one as a number and one as its decimal text.
pub const CLIENT_ID: u64 = 995819278672601099;

/// Operating system family, as far as the application's behaviour depends on it.
#[derive(Clone, Copy, Debug, PartialEq, Eq, Structural)]
pub enum Platform {
    Windows,
    MacOs,
    Other,
}

/// Mechanism used to reach the local presence service.
#[derive(Clone, Copy, Debug, PartialEq, Eq, Structural)]
pub enum Transport {
    /// Named pipe, used on Windows.
    NamedPipe,
    /// Unix domain socket, used everywhere else.
    UnixSocket,
}

impl Platform {
    /// The platform that an operating system's name stands for: `"windows"`
    /// and `"macos"` are told apart, every other name is [`Platform::Other`].
    pub open spec fn of_os(os: Seq<char>) -> Platform {
        if os == "windows"@ {
            Platform::Windows
        } else if os == "macos"@ {
            Platform::MacOs
        } else {
            Platform::Other
        }
    }

    /// Tells the platform from the name of the operating system that the
    /// program was built for.
    pub fn from_os(os: &str) -> (platform: Platform)
        ensures
            platform == Platform::of_os(os@),
    {
        if same_text(os, "windows") {
            Platform::Windows
        } else if same_text(os, "macos") {
            Platform::MacOs
        } else {
            Platform::Other
        }
    }
}

impl Transport {
    /// The transport that serves `platform`.
    pub open spec fn of(platform: Platform) -> Transport {
        if platform == Platform::Windows {
            Transport::NamedPipe
        } else {
            Transport::UnixSocket
        }
    }

    /// Selects the transport by platform: the named pipe on Windows, the
    /// socket on every other platform.
    pub fn for_platform(platform: Platform) -> (transport: Transport)
        ensures
            transport == Transport::of(platform),
            transport == Transport::NamedPipe <==> platform == Platform::Windows,
    {
        match platform {
            Platform::Windows => Transport::NamedPipe,
            Platform::MacOs => Transport::UnixSocket,
            Platform::Other => Transport::UnixSocket,
        }
    }
}

} // verus!
