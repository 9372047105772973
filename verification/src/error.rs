//! The errors of the plugin and the messages they display.
use vstd::prelude::*;
use vstd::string::*;

verus! {

/// Everything that can go wrong in the plugin.
#[derive(Debug, Clone)]
pub enum Error {
    /// An I/O failure, with the operating system's message.
    Io(String),
    /// A Windows API failure, with its message.
    Windows(String),
    /// The configured COM server GUID is not of the form
    /// `XXXXXXXX-XXXX-XXXX-XXXX-XXXXXXXXXXXX`.
    InvalidComGuid(String),
    /// The COM activator was registered twice.
    ComAlreadyRegistered,
    /// The main thread could not be reached.
    MainThread,
    /// The Notification Listener needs an MSIX-packaged app on Windows 10+.
    ListenerNotAvailable,
}

/// Shorthand for results of the plugin.
pub type Result<T> = core::result::Result<T, Error>;

/// The message that an error displays.
pub open spec fn error_message(e: Error) -> Seq<char> {
    match e {
        Error::Io(m) => m@,
        Error::Windows(m) => "Windows API error: "@ + m@,
        Error::InvalidComGuid(g) => "Invalid COM server GUID: '"@ + g@
            + "'. Expected format: XXXXXXXX-XXXX-XXXX-XXXX-XXXXXXXXXXXX"@,
        Error::ComAlreadyRegistered => "COM activator already registered"@,
        Error::MainThread => "Failed to dispatch to the main thread"@,
        Error::ListenerNotAvailable =>
            "Notification Listener is not available (requires MSIX packaging on Windows 10+)"@,
    }
}

impl Error {
    /// The message this error displays.
    pub fn message(&self) -> (r: String)
        ensures
            r@ == error_message(*self),
    {
        match self {
            Error::Io(m) => m.clone(),
            Error::Windows(m) => {
                let mut s = String::from_str("Windows API error: ");
                s.append(m.as_str());
                s
            },
            Error::InvalidComGuid(g) => {
                let mut s = String::from_str("Invalid COM server GUID: '");
                s.append(g.as_str());
                s.append("'. Expected format: XXXXXXXX-XXXX-XXXX-XXXX-XXXXXXXXXXXX");
                s
            },
            Error::ComAlreadyRegistered => String::from_str("COM activator already registered"),
            Error::MainThread => String::from_str("Failed to dispatch to the main thread"),
            Error::ListenerNotAvailable => String::from_str(
                "Notification Listener is not available (requires MSIX packaging on Windows 10+)",
            ),
        }
    }
}

} // verus!
