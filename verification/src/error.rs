use vstd::prelude::*;

verus! {

/// Errors reported by hosts, renderers and the runtime.
#[derive(Clone, Debug, PartialEq, Eq)]
pub enum Error {
    Message(String),
    Platform(String),
    Render(String),
}

impl Error {
    pub fn message(message: &str) -> (e: Self)
        ensures
            e matches Error::Message(m) && m@ == message@,
    {
        Error::Message(String::from_str(message))
    }

    pub fn platform(message: &str) -> (e: Self)
        ensures
            e matches Error::Platform(m) && m@ == message@,
    {
        Error::Platform(String::from_str(message))
    }

    pub fn render(message: &str) -> (e: Self)
        ensures
            e matches Error::Render(m) && m@ == message@,
    {
        Error::Render(String::from_str(message))
    }

    /// The text shown for this error: the message, prefixed by the error's category for
    /// platform and render errors.
    pub open spec fn spec_display(&self) -> Seq<char> {
        match self {
            Error::Message(m) => m@,
            Error::Platform(m) => "platform error: "@ + m@,
            Error::Render(m) => "render error: "@ + m@,
        }
    }

    pub fn to_display_string(&self) -> (s: String)
        ensures
            s@ == self.spec_display(),
    {
        match self {
            Error::Message(m) => m.clone(),
            Error::Platform(m) => {
                let s = String::from_str("platform error: ");
                s.concat(m.as_str())
            },
            Error::Render(m) => {
                let s = String::from_str("render error: ");
                s.concat(m.as_str())
            },
        }
    }
}

impl From<String> for Error {
    /// A plain message.
    fn from(value: String) -> (e: Self) {
        Error::Message(value)
    }
}

impl vstd::std_specs::convert::FromSpecImpl<String> for Error {
    open spec fn obeys_from_spec() -> bool {
        true
    }

    open spec fn from_spec(value: String) -> Self {
        Error::Message(value)
    }
}

impl From<&str> for Error {
    /// A plain message.
    fn from(value: &str) -> (e: Self)
        ensures
            e matches Error::Message(m) && m@ == value@,
    {
        Error::message(value)
    }
}

impl vstd::std_specs::convert::FromSpecImpl<&str> for Error {
    /// Two strings with the same characters are not known to be equal in specifications, so
    /// the conversion is described by the `ensures` of `from` alone.
    open spec fn obeys_from_spec() -> bool {
        false
    }

    open spec fn from_spec(value: &str) -> Self {
        Error::Message(choose|m: String| #[trigger] m@ == value@)
    }
}

} // verus!
