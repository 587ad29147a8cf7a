//! What a conversion hands back: the input itself, a buffer, or a stream; and the errors
//! that abort one.

use vstd::prelude::*;

verus! {

/// The result of a conversion, with exactly one kind of payload.
#[derive(Debug)]
pub enum ConversionOutput<'a, S> {
    /// No stage altered a byte: this is the input that was passed in, not a copy of it.
    Unchanged(&'a [u8]),
    /// The converted content, held in memory.
    Materialized(Vec<u8>),
    /// The converted content as the stream that a driver handed over.
    Streamed(S),
}

/// The mathematical value of a `ConversionOutput`.
pub ghost enum OutputView<S> {
    /// The input, unchanged.
    Unchanged(Seq<u8>),
    /// The converted content.
    Materialized(Seq<u8>),
    /// The stream of a driver.
    Streamed(S),
}

/// A lazy source of the bytes of a conversion's result.
#[derive(Debug)]
pub enum Reader<'r, 'a, S> {
    /// The input itself, to be read as it is.
    Input(&'a [u8]),
    /// The stream of the driver that produced the result.
    Driver(&'r mut S),
}

/// Why a conversion was aborted. An abort concerns one path only and leaves no partial output.
#[derive(Clone, Debug, PartialEq, Eq)]
pub enum Error {
    /// The attributes of the path could not be resolved.
    AttributeResolutionFailed,
    /// The driver's program could not be started.
    DriverUnavailable,
    /// Piping data to or from the driver failed.
    DriverIo,
    /// Normalizing the line endings of the file at `path` could not be undone.
    RoundTripMismatch {
        /// The path of the file that was being converted.
        path: String,
    },
    /// No identifier could be obtained for keyword expansion.
    ObjectLookupFailed,
}

/// The mathematical value of an `Error`.
pub ghost enum Failure {
    /// The attributes of the path could not be resolved.
    AttributeResolutionFailed,
    /// The driver's program could not be started.
    DriverUnavailable,
    /// Piping data to or from the driver failed.
    DriverIo,
    /// Normalizing the line endings of the file at this path could not be undone.
    RoundTripMismatch(Seq<char>),
    /// No identifier could be obtained for keyword expansion.
    ObjectLookupFailed,
}

impl<'a, S> View for ConversionOutput<'a, S> {
    type V = OutputView<S>;

    open spec fn view(&self) -> OutputView<S> {
        match *self {
            ConversionOutput::Unchanged(bytes) => OutputView::Unchanged(bytes@),
            ConversionOutput::Materialized(bytes) => OutputView::Materialized(bytes@),
            ConversionOutput::Streamed(stream) => OutputView::Streamed(stream),
        }
    }
}

impl View for Error {
    type V = Failure;

    open spec fn view(&self) -> Failure {
        match *self {
            Error::AttributeResolutionFailed => Failure::AttributeResolutionFailed,
            Error::DriverUnavailable => Failure::DriverUnavailable,
            Error::DriverIo => Failure::DriverIo,
            Error::RoundTripMismatch { path } => Failure::RoundTripMismatch(path@),
            Error::ObjectLookupFailed => Failure::ObjectLookupFailed,
        }
    }
}

/// The mathematical value of what a conversion returned.
pub open spec fn outcome_view<'a, S>(res: Result<ConversionOutput<'a, S>, Error>) -> Result<
    OutputView<S>,
    Failure,
> {
    match res {
        Ok(output) => Ok(output@),
        Err(error) => Err(error@),
    }
}

impl<S> OutputView<S> {
    /// Whether a stage altered the content.
    pub open spec fn changed(&self) -> bool {
        !(self is Unchanged)
    }

    /// The bytes of a result that is held in memory or is the input itself.
    pub open spec fn bytes(&self) -> Option<Seq<u8>> {
        match *self {
            OutputView::Unchanged(bytes) => Some(bytes),
            OutputView::Materialized(bytes) => Some(bytes),
            OutputView::Streamed(_) => None,
        }
    }
}

impl<'a, S> ConversionOutput<'a, S> {
    /// Tells whether any stage altered the content. Unaltered content is always handed back as
    /// the input itself.
    pub fn is_changed(&self) -> (changed: bool)
        ensures
            changed == self@.changed(),
            !changed <==> self is Unchanged,
    {
        match self {
            ConversionOutput::Unchanged(_) => false,
            _ => true,
        }
    }

    /// Yields the result as a lazy byte source where it is the unchanged input or a driver's
    /// stream, and nothing where it was materialized.
    pub fn as_read<'r>(&'r mut self) -> (reader: Option<Reader<'r, 'a, S>>)
        ensures
            reader is Some <==> !(*old(self) is Materialized),
            *old(self) matches ConversionOutput::Unchanged(bytes) ==> reader == Some(
                Reader::<S>::Input(bytes),
            ) && *final(self) == *old(self),
            *old(self) matches ConversionOutput::Streamed(stream) ==> (reader matches Some(
                Reader::Driver(handle),
            ) && *handle == stream && *final(self) == ConversionOutput::<S>::Streamed(*final(handle))),
            *old(self) is Materialized ==> *final(self) == *old(self),
    {
        match self {
            ConversionOutput::Unchanged(bytes) => Some(Reader::Input(*bytes)),
            ConversionOutput::Materialized(_) => None,
            ConversionOutput::Streamed(stream) => Some(Reader::Driver(stream)),
        }
    }

    /// Yields the result as a buffer where it was materialized, and nothing otherwise.
    pub fn as_bytes(&self) -> (bytes: Option<&[u8]>)
        ensures
            bytes is Some <==> self is Materialized,
            self matches ConversionOutput::Materialized(buffer) ==> (bytes matches Some(slice)
                && slice@ == buffer@),
    {
        match self {
            ConversionOutput::Materialized(buffer) => Some(buffer.as_slice()),
            _ => None,
        }
    }
}

} // verus!
