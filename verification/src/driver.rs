//! Driver stages: external transform programs that a path selects by the name of its filter
//! attribute. The library decides when a driver runs and what its answer means; running the
//! program is the caller's part.

use vstd::prelude::*;
use crate::bytes::bytes_equal;

verus! {

/// The direction of a conversion.
#[derive(Clone, Copy, Debug, PartialEq, Eq, Structural)]
pub enum Direction {
    /// From the worktree form to the form stored in the repository.
    Clean,
    /// From the stored form to the worktree form.
    Smudge,
}

/// A configured external transform, bound to the name of a filter attribute.
#[derive(Clone, Debug, PartialEq, Eq)]
pub struct Driver {
    /// The value of the filter attribute that selects this driver.
    pub name: String,
    /// The program to run when cleaning, if the driver has one.
    pub clean: Option<String>,
    /// The program to run when smudging, if the driver has one.
    pub smudge: Option<String>,
}

/// What a driver hands back: the whole result in memory, or a live stream of it.
#[derive(Debug)]
pub enum DriverPayload<S> {
    /// The output was captured into memory.
    Buffer(Vec<u8>),
    /// The output can be read lazily from the stream.
    Stream(S),
}

/// The answer of a driver that ran.
#[derive(Debug)]
pub struct DriverOutput<S> {
    /// Whether the driver altered the content.
    pub changed: bool,
    /// The transformed content.
    pub payload: DriverPayload<S>,
}

/// Why a driver gave no output.
#[derive(Clone, Copy, Debug, PartialEq, Eq, Structural)]
pub enum DriverError {
    /// The program could not be started.
    Unavailable,
    /// The program refused the content, which passes through as it is.
    Declined,
    /// Data could not be piped to or from the program.
    Io,
}

/// What the driver stage of one conversion came to.
#[derive(Debug)]
pub enum DriverStep<S> {
    /// No driver is active for the path.
    Inactive,
    /// The driver declined or left the content as it was.
    NoEffect,
    /// The driver handed back other content than it was given, in memory.
    Buffer(Vec<u8>),
    /// The driver reports altered content and handed back a stream of it.
    Stream(S),
    /// The driver could not be started.
    Unavailable,
    /// Talking to the driver failed.
    Io,
}

impl Driver {
    /// Whether the driver has a program for `direction`.
    pub open spec fn supports(&self, direction: Direction) -> bool {
        match direction {
            Direction::Clean => self.clean is Some,
            Direction::Smudge => self.smudge is Some,
        }
    }

    /// Whether the driver is the one that the attribute value `name` asks for in `direction`.
    pub open spec fn answers(&self, name: Seq<char>, direction: Direction) -> bool {
        self.name@ == name && self.supports(direction)
    }

    /// Tells whether the driver has a program for `direction`.
    pub fn has_program(&self, direction: Direction) -> (b: bool)
        ensures
            b == self.supports(direction),
    {
        match direction {
            Direction::Clean => self.clean.is_some(),
            Direction::Smudge => self.smudge.is_some(),
        }
    }
}

/// The first of the first `n` drivers that answers to `name` in `direction`.
pub open spec fn first_answering(
    drivers: Seq<Driver>,
    name: Seq<char>,
    direction: Direction,
    n: int,
) -> Option<usize>
    decreases n,
{
    if n <= 0 {
        None
    } else {
        match first_answering(drivers, name, direction, n - 1) {
            Some(i) => Some(i),
            None => if drivers[n - 1].answers(name, direction) {
                Some((n - 1) as usize)
            } else {
                None
            },
        }
    }
}

/// The driver that `name` selects among `drivers` for `direction`: the first that answers.
pub open spec fn selected(drivers: Seq<Driver>, name: Seq<char>, direction: Direction) -> Option<
    usize,
> {
    first_answering(drivers, name, direction, drivers.len() as int)
}

/// What `first_answering` finds is the least index whose driver answers, and it finds one
/// as soon as any of the drivers looked at answers.
proof fn lemma_first_answering(drivers: Seq<Driver>, name: Seq<char>, direction: Direction, n: int)
    requires
        0 <= n <= drivers.len() <= usize::MAX,
    ensures
        match first_answering(drivers, name, direction, n) {
            Some(i) => i < n && drivers[i as int].answers(name, direction) && forall|j: int|
                0 <= j < i ==> !(#[trigger] drivers[j]).answers(name, direction),
            None => forall|j: int| 0 <= j < n ==> !(#[trigger] drivers[j]).answers(name, direction),
        },
    decreases n,
{
    if n > 0 {
        lemma_first_answering(drivers, name, direction, n - 1);
    }
}

/// The selected driver is the first in the configured order that has the name asked for and
/// a program for the direction; none is selected exactly when no driver is of that kind.
pub proof fn law_first_driver_wins(drivers: Seq<Driver>, name: Seq<char>, direction: Direction)
    requires
        drivers.len() <= usize::MAX,
    ensures
        match selected(drivers, name, direction) {
            Some(i) => i < drivers.len() && drivers[i as int].answers(name, direction) && forall|j: int|
                0 <= j < i ==> !(#[trigger] drivers[j]).answers(name, direction),
            None => forall|j: int|
                0 <= j < drivers.len() ==> !(#[trigger] drivers[j]).answers(name, direction),
        },
{
    lemma_first_answering(drivers, name, direction, drivers.len() as int);
}

/// Selects the driver that the attribute value `name` names: the first configured driver of
/// that name with a program for `direction`. Without one the driver stage is inactive.
pub fn select(drivers: &Vec<Driver>, name: &String, direction: Direction) -> (handle: Option<usize>)
    ensures
        handle == selected(drivers@, name@, direction),
        handle matches Some(i) ==> i < drivers.len() && drivers[i as int].answers(name@, direction),
{
    let mut i: usize = 0;
    while i < drivers.len()
        invariant
            i <= drivers.len(),
            first_answering(drivers@, name@, direction, i as int) is None,
        decreases drivers.len() - i,
    {
        let driver = &drivers[i];
        if driver.name == *name && driver.has_program(direction) {
            proof {
                lemma_found_stays(drivers@, name@, direction, i + 1, drivers.len() as int);
            }
            return Some(i);
        }
        i += 1;
    }
    None
}

/// Once a driver is found among the first `n`, looking at more drivers changes nothing.
proof fn lemma_found_stays(
    drivers: Seq<Driver>,
    name: Seq<char>,
    direction: Direction,
    n: int,
    m: int,
)
    requires
        0 <= n <= m,
        first_answering(drivers, name, direction, n) is Some,
    ensures
        first_answering(drivers, name, direction, m) == first_answering(drivers, name, direction, n),
    decreases m - n,
{
    if n < m {
        lemma_found_stays(drivers, name, direction, n, m - 1);
    }
}

/// What the answer `result` of a driver means for a conversion that gave it `content`.
///
/// A driver that declined, or that reports no change, had no effect; nor had one that hands
/// back in memory the very bytes it was given. The content of a stream cannot be looked at:
/// the driver's word is taken for it. A stream is accepted only where `allow_stream` said
/// that the conversion can hand one on; one that comes back although the output had to be
/// captured breaks the exchange with the driver.
pub open spec fn step_of<S>(
    result: Result<DriverOutput<S>, DriverError>,
    content: Seq<u8>,
    allow_stream: bool,
) -> DriverStep<S> {
    match result {
        Err(DriverError::Unavailable) => DriverStep::Unavailable,
        Err(DriverError::Declined) => DriverStep::NoEffect,
        Err(DriverError::Io) => DriverStep::Io,
        Ok(output) => if !output.changed {
            DriverStep::NoEffect
        } else {
            match output.payload {
                DriverPayload::Buffer(bytes) => if bytes@ == content {
                    DriverStep::NoEffect
                } else {
                    DriverStep::Buffer(bytes)
                },
                DriverPayload::Stream(stream) => if allow_stream {
                    DriverStep::Stream(stream)
                } else {
                    DriverStep::Io
                },
            }
        },
    }
}

/// Classifies the answer of a driver that was asked to run on `content`.
pub fn driver_step<S>(
    result: Result<DriverOutput<S>, DriverError>,
    content: &[u8],
    allow_stream: bool,
) -> (step: DriverStep<S>)
    ensures
        step == step_of(result, content@, allow_stream),
{
    match result {
        Err(DriverError::Unavailable) => DriverStep::Unavailable,
        Err(DriverError::Declined) => DriverStep::NoEffect,
        Err(DriverError::Io) => DriverStep::Io,
        Ok(output) => {
            if !output.changed {
                DriverStep::NoEffect
            } else {
                match output.payload {
                    DriverPayload::Buffer(bytes) => {
                        if bytes_equal(bytes.as_slice(), content) {
                            DriverStep::NoEffect
                        } else {
                            DriverStep::Buffer(bytes)
                        }
                    },
                    DriverPayload::Stream(stream) => {
                        if allow_stream {
                            DriverStep::Stream(stream)
                        } else {
                            DriverStep::Io
                        }
                    },
                }
            }
        },
    }
}

} // verus!
