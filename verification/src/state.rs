//! The borrow state of a value whose aliasing rules are checked while the
//! program runs: any number of readers, or one writer, never both.

use vstd::prelude::*;

verus! {

/// How a value is currently lent out.
///
/// `Shared(n)` stands for `n` outstanding readers and is only meaningful for
/// `n >= 1`; see [`BorrowState::wf`].
#[derive(Clone, Copy, Debug, PartialEq, Eq, Structural)]
pub enum BorrowState {
    /// Nobody holds an access.
    Unborrowed,
    /// This many readers hold a shared access.
    Shared(usize),
    /// One writer holds the exclusive access.
    Exclusive,
}

/// Why an access was refused.
#[derive(Clone, Copy, Debug, PartialEq, Eq, Structural)]
pub enum AccessError {
    /// The access asked for conflicts with one that is still outstanding.
    AlreadyBorrowed,
    /// The operation needs an access that is not held.
    NotHeld,
    /// The number of readers cannot be counted any higher.
    TooManyReaders,
}

impl AccessError {
    /// The text of [`AccessError::message`].
    pub open spec fn message_text(self) -> Seq<char> {
        match self {
            AccessError::AlreadyBorrowed => "already borrowed"@,
            AccessError::NotHeld => "access not held"@,
            AccessError::TooManyReaders => "too many readers"@,
        }
    }

    /// A short description of the refusal.
    pub fn message(self) -> (text: String)
        ensures
            text@ == self.message_text(),
    {
        match self {
            AccessError::AlreadyBorrowed => String::from_str("already borrowed"),
            AccessError::NotHeld => String::from_str("access not held"),
            AccessError::TooManyReaders => String::from_str("too many readers"),
        }
    }
}

impl BorrowState {
    /// A shared state counts at least one reader.
    pub open spec fn wf(self) -> bool {
        self matches BorrowState::Shared(n) ==> n >= 1
    }

    /// The number of outstanding readers.
    pub open spec fn readers(self) -> nat {
        match self {
            BorrowState::Shared(n) => n as nat,
            _ => 0,
        }
    }

    /// Whether a writer is outstanding.
    pub open spec fn has_writer(self) -> bool {
        self is Exclusive
    }

    /// The state after one more reader asks for access, or the refusal.
    pub open spec fn after_shared(self) -> Result<BorrowState, AccessError> {
        match self {
            BorrowState::Unborrowed => Ok(BorrowState::Shared(1)),
            BorrowState::Shared(n) => if n < usize::MAX {
                Ok(BorrowState::Shared((n + 1) as usize))
            } else {
                Err(AccessError::TooManyReaders)
            },
            BorrowState::Exclusive => Err(AccessError::AlreadyBorrowed),
        }
    }

    /// The state after a writer asks for access, or the refusal.
    pub open spec fn after_exclusive(self) -> Result<BorrowState, AccessError> {
        match self {
            BorrowState::Unborrowed => Ok(BorrowState::Exclusive),
            _ => Err(AccessError::AlreadyBorrowed),
        }
    }

    /// The state after one outstanding access is given back, or the refusal
    /// when there is none.
    pub open spec fn after_release(self) -> Result<BorrowState, AccessError> {
        match self {
            BorrowState::Unborrowed => Err(AccessError::NotHeld),
            BorrowState::Shared(n) => if n <= 1 {
                Ok(BorrowState::Unborrowed)
            } else {
                Ok(BorrowState::Shared((n - 1) as usize))
            },
            BorrowState::Exclusive => Ok(BorrowState::Unborrowed),
        }
    }

    /// Admits one more reader unless a writer is outstanding.
    pub fn acquire_shared(self) -> (r: Result<BorrowState, AccessError>)
        ensures
            r == self.after_shared(),
    {
        match self {
            BorrowState::Unborrowed => Ok(BorrowState::Shared(1)),
            BorrowState::Shared(n) => {
                if n < usize::MAX {
                    Ok(BorrowState::Shared(n + 1))
                } else {
                    Err(AccessError::TooManyReaders)
                }
            },
            BorrowState::Exclusive => Err(AccessError::AlreadyBorrowed),
        }
    }

    /// Admits a writer only when nobody holds an access.
    pub fn acquire_exclusive(self) -> (r: Result<BorrowState, AccessError>)
        ensures
            r == self.after_exclusive(),
    {
        match self {
            BorrowState::Unborrowed => Ok(BorrowState::Exclusive),
            _ => Err(AccessError::AlreadyBorrowed),
        }
    }

    /// Gives one outstanding access back: a reader leaves, or the writer does.
    pub fn release(self) -> (r: Result<BorrowState, AccessError>)
        ensures
            r == self.after_release(),
    {
        match self {
            BorrowState::Unborrowed => Err(AccessError::NotHeld),
            BorrowState::Shared(n) => {
                if n <= 1 {
                    Ok(BorrowState::Unborrowed)
                } else {
                    Ok(BorrowState::Shared(n - 1))
                }
            },
            BorrowState::Exclusive => Ok(BorrowState::Unborrowed),
        }
    }
}

/// Every transition out of a well-formed state ends in a well-formed state.
pub proof fn lemma_transitions_preserve_wf(s: BorrowState)
    requires
        s.wf(),
    ensures
        s.after_shared() matches Ok(next) ==> next.wf(),
        s.after_exclusive() matches Ok(next) ==> next.wf(),
        s.after_release() matches Ok(next) ==> next.wf(),
{
}

/// Readers and a writer are never outstanding together.
pub proof fn lemma_readers_exclude_writer(s: BorrowState)
    ensures
        !(s.readers() > 0 && s.has_writer()),
{
}

/// While any access is outstanding, a writer is refused with
/// [`AccessError::AlreadyBorrowed`].
pub proof fn lemma_outstanding_access_blocks_writer(s: BorrowState)
    requires
        s.wf(),
        s != BorrowState::Unborrowed,
    ensures
        s.after_exclusive() matches Err(AccessError::AlreadyBorrowed),
{
}

/// After a reader was admitted, a writer is refused with
/// [`AccessError::AlreadyBorrowed`].
pub proof fn lemma_reader_then_writer_refused(s: BorrowState)
    requires
        s.wf(),
    ensures
        s.after_shared() matches Ok(lent) ==> lent.after_exclusive() matches Err(
            AccessError::AlreadyBorrowed,
        ),
{
}

/// After a writer was admitted, a second writer is refused with
/// [`AccessError::AlreadyBorrowed`], and so is a reader.
pub proof fn lemma_writer_then_any_refused(s: BorrowState)
    ensures
        s.after_exclusive() matches Ok(lent) ==> {
            &&& lent.after_exclusive() matches Err(AccessError::AlreadyBorrowed)
            &&& lent.after_shared() matches Err(AccessError::AlreadyBorrowed)
        },
{
}

/// Giving back an access that was just admitted restores the state.
pub proof fn lemma_release_undoes_acquire(s: BorrowState)
    requires
        s.wf(),
    ensures
        s.after_shared() matches Ok(lent) ==> lent.after_release() matches Ok(back) && back == s,
        s.after_exclusive() matches Ok(lent) ==> lent.after_release() matches Ok(back) && back
            == s,
{
}

} // verus!
