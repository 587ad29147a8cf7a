//! The decisions of the directory stack that follows a path through the worktree: which
//! per-directory stacks read a directory that is entered, and how the directory that leads to
//! an entry is created when something else is in its way.

use vstd::prelude::*;

verus! {

/// Whether patterns are matched with regard to case.
#[derive(Clone, Copy, Debug, PartialEq, Eq, Structural)]
pub enum Case {
    /// The case of letters matters.
    Sensitive,
    /// Upper and lower case are the same.
    Fold,
}

/// A stack of per-directory rule files.
#[derive(Clone, Copy, Debug, PartialEq, Eq, Structural)]
pub enum StackKind {
    /// The attribute files.
    Attributes,
    /// The ignore files.
    Ignore,
}

/// What a cache is used for, which decides the stacks it keeps.
#[derive(Clone, Copy, Debug, PartialEq, Eq, Structural)]
pub enum State {
    /// Files are checked out: directories are created and attributes are read.
    CreateDirectoryAndAttributesStack {
        /// Whether a file or link that stands where a directory must be is removed.
        unlink_on_collision: bool,
    },
    /// Files are added: attributes and ignore rules are read.
    AttributesAndIgnoreStack,
    /// Files are listed: ignore rules are read.
    IgnoreStack,
}

/// The delegate of the directory stack: it is told of every directory that is entered or
/// left and of every component that is pushed.
#[derive(Clone, Copy, Debug, PartialEq, Eq, Structural)]
pub struct StackDelegate {
    /// What the cache is used for.
    pub state: State,
    /// Whether the path that is looked up is a directory.
    pub is_dir: bool,
    /// How the rule files match names.
    pub case: Case,
}

/// The outside work that creating a directory waits for.
#[derive(Clone, Copy, Debug, PartialEq, Eq, Structural)]
pub enum Action {
    /// Create the directory.
    CreateDirectory,
    /// Look at what stands where the directory should be, without following links.
    Inspect,
    /// Remove the symbolic link that is in the way.
    RemoveSymlink,
    /// Remove the file that is in the way.
    RemoveFile,
}

/// How far the creation of a leading directory has come. `E` is the error of the file system.
#[derive(Debug)]
pub enum Creation<E> {
    /// The directory is being created.
    Creating,
    /// Something stood in the way, which gave this error, and is being looked at.
    Inspecting(E),
    /// A symbolic link in the way is being removed.
    RemovingSymlink,
    /// A file in the way is being removed.
    RemovingFile,
    /// The way is clear and the directory is being created once more.
    Recreating,
    /// Nothing is left to do.
    Done(Result<(), E>),
}

/// What the file system answered to an action.
#[derive(Debug)]
pub enum Event<E> {
    /// The action succeeded.
    Succeeded,
    /// The action failed; `already_exists` tells whether something stood in the way.
    Failed {
        /// Whether the error says that the path exists already.
        already_exists: bool,
        /// The error itself.
        error: E,
    },
    /// What stands at the path.
    Found {
        /// Whether it is a directory.
        is_dir: bool,
        /// Whether it is a symbolic link.
        is_symlink: bool,
    },
}

/// The stacks that a cache in `state` keeps, in the order in which they are told of a
/// directory: attributes before ignore rules.
pub open spec fn stacks_of(state: State) -> Seq<StackKind> {
    match state {
        State::CreateDirectoryAndAttributesStack { .. } => seq![StackKind::Attributes],
        State::AttributesAndIgnoreStack => seq![StackKind::Attributes, StackKind::Ignore],
        State::IgnoreStack => seq![StackKind::Ignore],
    }
}

/// The stack that is told of a directory next, when `told` stacks were told already and
/// `failed` says whether the last of them failed: the stacks are told in their order, and
/// none is told once one has failed or all have been told.
pub open spec fn next_stack(state: State, told: int, failed: bool) -> Option<StackKind> {
    if !failed && 0 <= told < stacks_of(state).len() {
        Some(stacks_of(state)[told])
    } else {
        None
    }
}

impl<E> Creation<E> {
    /// The outside work that this state waits for; none once the creation is done.
    pub open spec fn pending(self) -> Option<Action> {
        match self {
            Creation::Creating => Some(Action::CreateDirectory),
            Creation::Inspecting(_) => Some(Action::Inspect),
            Creation::RemovingSymlink => Some(Action::RemoveSymlink),
            Creation::RemovingFile => Some(Action::RemoveFile),
            Creation::Recreating => Some(Action::CreateDirectory),
            Creation::Done(_) => None,
        }
    }

    /// Whether `event` can be the answer to the work that this state waits for.
    pub open spec fn answered_by(self, event: Event<E>) -> bool {
        match self {
            Creation::Inspecting(_) => !(event is Succeeded),
            Creation::Done(_) => false,
            _ => !(event is Found),
        }
    }

    /// An upper bound on the outside calls that are still to come.
    pub open spec fn calls_left(self) -> nat {
        match self {
            Creation::Creating => 4,
            Creation::Inspecting(_) => 3,
            Creation::RemovingSymlink => 2,
            Creation::RemovingFile => 2,
            Creation::Recreating => 1,
            Creation::Done(_) => 0,
        }
    }

    /// The state that follows this one when the file system answers `event`.
    ///
    /// A directory that was created is done. If the first attempt finds the path taken, what
    /// is there is looked at: a directory will do; anything else is removed where
    /// `unlink_on_collision` allows it, a link as a link and a file as a file, and the
    /// directory is created once more; where it does not, the error of the first attempt
    /// stands. Any other error ends the creation. The second attempt is final. An event
    /// that is no answer to the pending work changes nothing.
    pub open spec fn after(self, event: Event<E>, unlink_on_collision: bool) -> Creation<E> {
        match self {
            Creation::Creating => match event {
                Event::Succeeded => Creation::Done(Ok(())),
                Event::Failed { already_exists, error } => if already_exists {
                    Creation::Inspecting(error)
                } else {
                    Creation::Done(Err(error))
                },
                Event::Found { .. } => self,
            },
            Creation::Inspecting(collision) => match event {
                Event::Found { is_dir, is_symlink } => if is_dir {
                    Creation::Done(Ok(()))
                } else if unlink_on_collision {
                    if is_symlink {
                        Creation::RemovingSymlink
                    } else {
                        Creation::RemovingFile
                    }
                } else {
                    Creation::Done(Err(collision))
                },
                Event::Failed { error, .. } => Creation::Done(Err(error)),
                Event::Succeeded => self,
            },
            Creation::RemovingSymlink => match event {
                Event::Succeeded => Creation::Recreating,
                Event::Failed { error, .. } => Creation::Done(Err(error)),
                Event::Found { .. } => self,
            },
            Creation::RemovingFile => match event {
                Event::Succeeded => Creation::Recreating,
                Event::Failed { error, .. } => Creation::Done(Err(error)),
                Event::Found { .. } => self,
            },
            Creation::Recreating => match event {
                Event::Succeeded => Creation::Done(Ok(())),
                Event::Failed { error, .. } => Creation::Done(Err(error)),
                Event::Found { .. } => self,
            },
            Creation::Done(_) => self,
        }
    }

    /// Tells the outside work to do next, or `None` once the creation is done.
    pub fn action(&self) -> (action: Option<Action>)
        ensures
            action == self.pending(),
    {
        match self {
            Creation::Creating => Some(Action::CreateDirectory),
            Creation::Inspecting(_) => Some(Action::Inspect),
            Creation::RemovingSymlink => Some(Action::RemoveSymlink),
            Creation::RemovingFile => Some(Action::RemoveFile),
            Creation::Recreating => Some(Action::CreateDirectory),
            Creation::Done(_) => None,
        }
    }

    /// Takes the answer of the file system to the pending work and moves on.
    pub fn advance(self, event: Event<E>, unlink_on_collision: bool) -> (next: Creation<E>)
        ensures
            next == self.after(event, unlink_on_collision),
    {
        match self {
            Creation::Creating => match event {
                Event::Succeeded => Creation::Done(Ok(())),
                Event::Failed { already_exists, error } => {
                    if already_exists {
                        Creation::Inspecting(error)
                    } else {
                        Creation::Done(Err(error))
                    }
                },
                Event::Found { .. } => Creation::Creating,
            },
            Creation::Inspecting(collision) => match event {
                Event::Found { is_dir, is_symlink } => {
                    if is_dir {
                        Creation::Done(Ok(()))
                    } else if unlink_on_collision {
                        if is_symlink {
                            Creation::RemovingSymlink
                        } else {
                            Creation::RemovingFile
                        }
                    } else {
                        Creation::Done(Err(collision))
                    }
                },
                Event::Failed { error, .. } => Creation::Done(Err(error)),
                Event::Succeeded => Creation::Inspecting(collision),
            },
            Creation::RemovingSymlink => match event {
                Event::Succeeded => Creation::Recreating,
                Event::Failed { error, .. } => Creation::Done(Err(error)),
                Event::Found { .. } => Creation::RemovingSymlink,
            },
            Creation::RemovingFile => match event {
                Event::Succeeded => Creation::Recreating,
                Event::Failed { error, .. } => Creation::Done(Err(error)),
                Event::Found { .. } => Creation::RemovingFile,
            },
            Creation::Recreating => match event {
                Event::Succeeded => Creation::Done(Ok(())),
                Event::Failed { error, .. } => Creation::Done(Err(error)),
                Event::Found { .. } => Creation::Recreating,
            },
            Creation::Done(result) => Creation::Done(result),
        }
    }
}

/// Begins the creation of the directory that a pushed component stands for.
///
/// The last component of a path that is no directory is the entry itself: nothing is created
/// for it. Every other component is a directory to create.
pub fn create_leading_directory<E>(is_last_component: bool, is_dir: bool) -> (start: Creation<E>)
    ensures
        start == (if is_last_component && !is_dir {
            Creation::<E>::Done(Ok(()))
        } else {
            Creation::<E>::Creating
        }),
{
    if is_last_component && !is_dir {
        Creation::Done(Ok(()))
    } else {
        Creation::Creating
    }
}

impl StackDelegate {
    /// Whether a removal of what is in the way of a directory is allowed; only a checkout
    /// configured for it removes anything.
    pub open spec fn unlinks_on_collision(&self) -> bool {
        self.state matches State::CreateDirectoryAndAttributesStack { unlink_on_collision }
            && unlink_on_collision
    }

    /// Tells the stacks that must read the directory that was entered, in their order.
    pub fn push_directory(&self) -> (stacks: Vec<StackKind>)
        ensures
            stacks@ == stacks_of(self.state),
    {
        let mut stacks: Vec<StackKind> = Vec::new();
        match self.state {
            State::CreateDirectoryAndAttributesStack { .. } => {
                stacks.push(StackKind::Attributes);
            },
            State::AttributesAndIgnoreStack => {
                stacks.push(StackKind::Attributes);
                stacks.push(StackKind::Ignore);
            },
            State::IgnoreStack => {
                stacks.push(StackKind::Ignore);
            },
        }
        assert(stacks@ =~= stacks_of(self.state));
        stacks
    }

    /// Tells the stack that must read the entered directory next, after `told` stacks have
    /// read it and the last of them `failed` or not. A failure ends the round: the stacks
    /// after it are not told.
    pub fn next_to_push(&self, told: usize, failed: bool) -> (next: Option<StackKind>)
        ensures
            next == next_stack(self.state, told as int, failed),
    {
        if failed {
            return None;
        }
        match self.state {
            State::CreateDirectoryAndAttributesStack { .. } => if told == 0 {
                Some(StackKind::Attributes)
            } else {
                None
            },
            State::AttributesAndIgnoreStack => if told == 0 {
                Some(StackKind::Attributes)
            } else if told == 1 {
                Some(StackKind::Ignore)
            } else {
                None
            },
            State::IgnoreStack => if told == 0 {
                Some(StackKind::Ignore)
            } else {
                None
            },
        }
    }

    /// Takes note of a pushed component: a checkout begins to create the directory that
    /// leads to the entry; every other use of the cache has nothing to do.
    pub fn push<E>(&self, is_last_component: bool) -> (start: Creation<E>)
        ensures
            start == (if self.state is CreateDirectoryAndAttributesStack && !(is_last_component
                && !self.is_dir) {
                Creation::<E>::Creating
            } else {
                Creation::<E>::Done(Ok(()))
            }),
    {
        match self.state {
            State::CreateDirectoryAndAttributesStack { .. } => create_leading_directory(
                is_last_component,
                self.is_dir,
            ),
            _ => Creation::Done(Ok(())),
        }
    }

    /// Tells the stacks that must forget the directory that was left, in their order.
    pub fn pop_directory(&self) -> (stacks: Vec<StackKind>)
        ensures
            stacks@ == stacks_of(self.state),
    {
        self.push_directory()
    }

    /// Tells whether what is in the way of a directory may be removed.
    pub fn unlink_on_collision(&self) -> (allowed: bool)
        ensures
            allowed == self.unlinks_on_collision(),
    {
        match self.state {
            State::CreateDirectoryAndAttributesStack { unlink_on_collision } => unlink_on_collision,
            _ => false,
        }
    }
}

/// Every answer of the file system brings the creation of a directory closer to its end: at
/// most four outside calls are made, and an answer to the last of them ends it.
pub proof fn law_creation_ends<E>(state: Creation<E>, event: Event<E>, unlink_on_collision: bool)
    requires
        state.answered_by(event),
    ensures
        state.after(event, unlink_on_collision).calls_left() < state.calls_left(),
        state.calls_left() == 1 ==> state.after(event, unlink_on_collision) is Done,
        state.pending() is None <==> state is Done,
{
}

/// Nothing is ever removed unless the removal was allowed: without it the creation never
/// waits for a file or a link to go.
pub proof fn law_no_removal_unless_allowed<E>(state: Creation<E>, event: Event<E>)
    requires
        !(state is RemovingSymlink),
        !(state is RemovingFile),
    ensures
        !(state.after(event, false) is RemovingSymlink),
        !(state.after(event, false) is RemovingFile),
{
}

} // verus!
