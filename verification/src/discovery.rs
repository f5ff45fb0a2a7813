//! Discovery of sources: the snapshot that a scan of the network yields.

use vstd::prelude::*;
use vstd::string::*;
use crate::engine::spec_timeout;
use crate::engine::Runtime;
use crate::engine::DEFAULT_TIMEOUT_MS;
use crate::error::Component;
use crate::error::InitStage;
use crate::error::NdiError;

verus! {

/// A named endpoint that offers a stream. A source is a value of one scan:
/// the next scan yields new ones.
#[derive(Debug, PartialEq, Eq)]
pub struct NdiSource {
    pub name: String,
    pub address: Option<String>,
}

impl NdiSource {
    /// How a source is shown: its name between quotes, after the type's name.
    pub open spec fn spec_repr(name: Seq<char>) -> Seq<char> {
        "NdiSource(name='"@ + name + "')"@
    }

    /// A source known by its name alone.
    pub fn new(name: String) -> (source: NdiSource)
        ensures
            source == (NdiSource { name, address: None }),
    {
        NdiSource { name, address: None }
    }

    /// A source with the address at which it was seen.
    pub fn with_address(name: String, address: String) -> (source: NdiSource)
        ensures
            source == (NdiSource { name, address: Some(address) }),
    {
        NdiSource { name, address: Some(address) }
    }

    pub fn repr(&self) -> (text: String)
        ensures
            text@ == NdiSource::spec_repr(self.name@),
    {
        let mut text = String::from_str("NdiSource(name='");
        text.append(self.name.as_str());
        text.append("')");
        text
    }
}

/// The snapshot of a scan that reported these names: a source for each, in
/// the order of the report, known by its name alone.
pub open spec fn spec_snapshot(names: Seq<String>) -> Seq<NdiSource> {
    Seq::new(names.len(), |i: int| NdiSource { name: names[i], address: None })
}

/// Where a discovery session stands: open or closed.
pub struct FinderView {
    pub open: bool,
}

impl FinderView {
    /// The milliseconds that a scan is to wait: the caller's, or the default.
    pub open spec fn scan_timeout(self, timeout_ms: Option<u32>) -> Result<u32, NdiError> {
        if self.open {
            Ok(spec_timeout(timeout_ms))
        } else {
            Err(NdiError::NotInitialized(Component::Finder))
        }
    }

    /// The snapshot of one scan, which reported `names` or ran out of time. A
    /// scan that ran out of time is no failure: its snapshot is empty.
    pub open spec fn find_sources(self, names: Option<Seq<String>>) -> Result<
        Seq<NdiSource>,
        NdiError,
    > {
        if !self.open {
            Err(NdiError::NotInitialized(Component::Finder))
        } else {
            match names {
                Some(reported) => Ok(spec_snapshot(reported)),
                None => Ok(Seq::empty()),
            }
        }
    }

    pub open spec fn close(self) -> FinderView {
        FinderView { open: false }
    }
}

/// A discovery session. It owns the transport's handle from its creation until
/// it is closed, and gives the handle up exactly then.
#[derive(Debug)]
pub struct NdiFinder<H> {
    finder: Option<H>,
}

impl<H> View for NdiFinder<H> {
    type V = FinderView;

    closed spec fn view(&self) -> FinderView {
        FinderView { open: self.finder is Some }
    }
}

impl<H> NdiFinder<H> {
    /// The handle that the session owns while it is open.
    pub closed spec fn spec_handle(&self) -> Option<H> {
        self.finder
    }

    /// Opens a discovery session over the handle that the transport gave. The
    /// runtime must run, and there must be a handle.
    pub fn new(runtime: &Runtime, handle: Option<H>) -> (result: Result<NdiFinder<H>, NdiError>)
        ensures
            if !runtime.spec_is_started() {
                result == Err::<NdiFinder<H>, NdiError>(NdiError::InitError(InitStage::Runtime))
            } else if handle is None {
                result == Err::<NdiFinder<H>, NdiError>(
                    NdiError::InitError(InitStage::Handle(Component::Finder)),
                )
            } else {
                result matches Ok(finder) && finder@.open && finder.spec_handle() == handle
            },
    {
        if !runtime.is_started() {
            return Err(NdiError::InitError(InitStage::Runtime));
        }
        match handle {
            None => Err(NdiError::InitError(InitStage::Handle(Component::Finder))),
            Some(h) => Ok(NdiFinder { finder: Some(h) }),
        }
    }

    pub fn is_open(&self) -> (open: bool)
        ensures
            open == self@.open,
    {
        self.finder.is_some()
    }

    /// The handle, for the host to scan with. A closed session has none.
    pub fn handle(&self) -> (handle: Option<&H>)
        ensures
            handle is Some == self@.open,
            handle matches Some(h) ==> self.spec_handle() == Some(*h),
    {
        self.finder.as_ref()
    }

    /// The handle, for the host to change. The session stays as it is.
    pub fn handle_mut(&mut self) -> (handle: Option<&mut H>)
        ensures
            handle is Some == old(self)@.open,
            final(self)@ == old(self)@,
            handle matches Some(h) ==> old(self).spec_handle() == Some(*h),
            handle matches Some(h) ==> final(self).spec_handle() == Some(*final(h)),
    {
        self.finder.as_mut()
    }

    /// The milliseconds that a scan is to wait: the caller's, or the default.
    /// A closed session scans nothing.
    pub fn scan_timeout(&self, timeout_ms: Option<u32>) -> (result: Result<u32, NdiError>)
        ensures
            result == self@.scan_timeout(timeout_ms),
    {
        if self.finder.is_none() {
            return Err(NdiError::NotInitialized(Component::Finder));
        }
        match timeout_ms {
            Some(t) => Ok(t),
            None => Ok(DEFAULT_TIMEOUT_MS),
        }
    }

    /// The snapshot of one scan. `names` holds the names that the scan
    /// reported, or nothing where its time ran out. A scan that ran out of time
    /// is no failure: its snapshot is empty.
    pub fn find_sources(&self, names: Option<Vec<String>>) -> (result: Result<
        Vec<NdiSource>,
        NdiError,
    >)
        ensures
            match self@.find_sources(
                match names {
                    Some(reported) => Some(reported@),
                    None => None,
                },
            ) {
                Ok(snapshot) => result matches Ok(sources) && sources@ == snapshot,
                Err(e) => result == Err::<Vec<NdiSource>, NdiError>(e),
            },
            result matches Ok(sources) ==> match names {
                Some(reported) => sources@.len() == reported@.len() && forall|i: int|
                    0 <= i < reported@.len() ==> (#[trigger] sources@[i]).name@ == reported@[i]@,
                None => sources@.len() == 0,
            },
    {
        if self.finder.is_none() {
            return Err(NdiError::NotInitialized(Component::Finder));
        }
        let mut sources: Vec<NdiSource> = Vec::new();
        match names {
            None => {},
            Some(reported) => {
                let mut i: usize = 0;
                while i < reported.len()
                    invariant
                        i <= reported.len(),
                        sources@.len() == i,
                        forall|j: int|
                            0 <= j < i ==> (#[trigger] sources@[j]) == (NdiSource {
                                name: reported@[j],
                                address: None,
                            }),
                    decreases reported.len() - i,
                {
                    sources.push(NdiSource::new(reported[i].clone()));
                    i += 1;
                }
            },
        }
        Ok(sources)
    }

    /// Closes the session and gives up the handle. Closing a closed session
    /// changes nothing.
    pub fn close(&mut self)
        ensures
            final(self)@ == old(self)@.close(),
            final(self).spec_handle() is None,
    {
        self.finder = None;
    }
}

} // verus!
