//! One error for applications that drive both the NGX and the Streamline path.

use crate::nvsdk_ngx::DlssError;
use crate::streamline::error::StreamlineError;
use vstd::prelude::*;

verus! {

/// An error of either path. The two are independent entry points, so their errors stay apart.
#[derive(Debug, PartialEq, Eq)]
pub enum Error {
    /// An error from the NGX (Super Resolution / Ray Reconstruction) path.
    Dlss(DlssError),
    /// An error from the Streamline (Frame Generation) path.
    Streamline(StreamlineError),
}

impl From<DlssError> for Error {
    fn from(e: DlssError) -> (r: Error) {
        Error::Dlss(e)
    }
}

impl vstd::std_specs::convert::FromSpecImpl<DlssError> for Error {
    open spec fn obeys_from_spec() -> bool {
        true
    }

    open spec fn from_spec(e: DlssError) -> Error {
        Error::Dlss(e)
    }
}

impl From<StreamlineError> for Error {
    fn from(e: StreamlineError) -> (r: Error) {
        Error::Streamline(e)
    }
}

impl vstd::std_specs::convert::FromSpecImpl<StreamlineError> for Error {
    open spec fn obeys_from_spec() -> bool {
        true
    }

    open spec fn from_spec(e: StreamlineError) -> Error {
        Error::Streamline(e)
    }
}

impl Error {
    /// What the error says to a reader: what the error of its path says.
    pub open spec fn text(self) -> Seq<char> {
        match self {
            Error::Dlss(e) => e.spec_message(),
            Error::Streamline(e) => e@.message(),
        }
    }

    /// The error's description, for logs and error reports.
    pub fn message(&self) -> (r: String)
        ensures
            r@ == self.text(),
    {
        match self {
            Error::Dlss(e) => e.message(),
            Error::Streamline(e) => e.message(),
        }
    }
}

/// Converting an error of either path changes nothing of what it says.
pub proof fn conversion_keeps_the_message(dlss: DlssError, streamline: StreamlineError)
    ensures
        <Error as vstd::std_specs::convert::FromSpec<DlssError>>::from_spec(dlss).text()
            == dlss.spec_message(),
        <Error as vstd::std_specs::convert::FromSpec<StreamlineError>>::from_spec(
            streamline,
        ).text() == streamline@.message(),
{
}

} // verus!
