//! The failures that the sessions and the codec report.

use vstd::prelude::*;
use vstd::string::*;
use crate::codec::push_format_name;
use crate::codec::spec_format_name;
use crate::text::push_decimal;
use crate::text::spec_decimal;

verus! {

/// The part of the system that an error speaks of.
#[derive(Clone, Copy, Debug, PartialEq, Eq, Structural)]
pub enum Component {
    Finder,
    Receiver,
    Sender,
}

/// What could not be brought up when a session was created.
#[derive(Clone, Copy, Debug, PartialEq, Eq, Structural)]
pub enum InitStage {
    /// The transport runtime did not start.
    Runtime,
    /// The runtime runs, but gave no handle for the component.
    Handle(Component),
}

/// Every failure of the core.
#[derive(Clone, Copy, Debug, PartialEq, Eq, Structural)]
pub enum NdiError {
    /// The transport is not available. Fatal to the session that was asked for.
    InitError(InitStage),
    /// An operation on a session that was closed.
    NotInitialized(Component),
    /// Discovery reported sources, none of them under the wanted name.
    SourceNotFound,
    /// Discovery reported no source at all before its time ran out.
    DiscoveryTimeout,
    /// A FourCC code whose layout is unknown, so that no size can be given.
    UnsupportedFormat(u32),
    /// A buffer or a row whose length is not the one that the geometry asks for.
    BufferSizeMismatch { expected: u128, actual: u128 },
}

impl Component {
    /// The component's name as it opens a sentence.
    pub open spec fn spec_title(self) -> Seq<char> {
        match self {
            Component::Finder => "Finder"@,
            Component::Receiver => "Receiver"@,
            Component::Sender => "Sender"@,
        }
    }

    /// The component's name inside a sentence.
    pub open spec fn spec_noun(self) -> Seq<char> {
        match self {
            Component::Finder => "finder"@,
            Component::Receiver => "receiver"@,
            Component::Sender => "sender"@,
        }
    }

    pub fn title(self) -> (text: &'static str)
        ensures
            text@ == self.spec_title(),
    {
        match self {
            Component::Finder => "Finder",
            Component::Receiver => "Receiver",
            Component::Sender => "Sender",
        }
    }

    pub fn noun(self) -> (text: &'static str)
        ensures
            text@ == self.spec_noun(),
    {
        match self {
            Component::Finder => "finder",
            Component::Receiver => "receiver",
            Component::Sender => "sender",
        }
    }
}

impl NdiError {
    /// The text that describes the error to a person.
    pub open spec fn spec_message(self) -> Seq<char> {
        match self {
            NdiError::InitError(InitStage::Runtime) =>
                "Failed to initialize NDI runtime. Make sure the NDI SDK is installed on your system."@,
            NdiError::InitError(InitStage::Handle(c)) => "Failed to create NDI "@ + c.spec_noun(),
            NdiError::NotInitialized(c) => c.spec_title() + " is not initialized"@,
            NdiError::SourceNotFound => "Source not found"@,
            NdiError::DiscoveryTimeout => "Timeout while searching for sources"@,
            NdiError::UnsupportedFormat(code) => "Unsupported pixel format: "@ + spec_format_name(
                code,
            ),
            NdiError::BufferSizeMismatch { expected, actual } => "Buffer size mismatch: expected "@
                + spec_decimal(expected as nat) + " bytes, got "@ + spec_decimal(actual as nat),
        }
    }

    pub fn message(&self) -> (text: String)
        ensures
            text@ == self.spec_message(),
    {
        match *self {
            NdiError::InitError(InitStage::Runtime) => String::from_str(
                "Failed to initialize NDI runtime. Make sure the NDI SDK is installed on your system.",
            ),
            NdiError::InitError(InitStage::Handle(c)) => {
                let mut text = String::from_str("Failed to create NDI ");
                text.append(c.noun());
                text
            },
            NdiError::NotInitialized(c) => {
                let mut text = String::from_str(c.title());
                text.append(" is not initialized");
                text
            },
            NdiError::SourceNotFound => String::from_str("Source not found"),
            NdiError::DiscoveryTimeout => String::from_str("Timeout while searching for sources"),
            NdiError::UnsupportedFormat(code) => {
                let mut text = String::from_str("Unsupported pixel format: ");
                push_format_name(&mut text, code);
                text
            },
            NdiError::BufferSizeMismatch { expected, actual } => {
                let mut text = String::from_str("Buffer size mismatch: expected ");
                push_decimal(&mut text, expected);
                text.append(" bytes, got ");
                push_decimal(&mut text, actual);
                text
            },
        }
    }
}

} // verus!
