//! A text cell whose aliasing rules are checked while the program runs.

use crate::state::{AccessError, BorrowState};
use vstd::prelude::*;

verus! {

/// A string together with the record of who currently has access to it: a
/// count of outstanding readers and a flag for an outstanding writer.
///
/// Access is asked for with [`TextCell::try_borrow`] and
/// [`TextCell::try_borrow_mut`] and given back with [`TextCell::release`].
/// A request that conflicts with an outstanding access is refused and leaves
/// the cell as it was.
pub struct TextCell {
    value: String,
    readers: usize,
    writer: bool,
}

/// How a request for a transition ends: when it is `wanted` the reply is
/// `Ok` and the new state is in force; when it is refused the reply carries
/// the refusal and the state stays as it was `before`.
pub open spec fn settles(
    wanted: Result<BorrowState, AccessError>,
    reply: Result<(), AccessError>,
    before: BorrowState,
    after: BorrowState,
) -> bool {
    match wanted {
        Ok(next) => reply is Ok && after == next,
        Err(e) => reply matches Err(refusal) && refusal == e && after == before,
    }
}

impl TextCell {
    /// The text held by the cell.
    pub closed spec fn text(&self) -> Seq<char> {
        self.value@
    }

    /// How the cell is currently lent out.
    pub closed spec fn state(&self) -> BorrowState {
        if self.writer {
            BorrowState::Exclusive
        } else if self.readers == 0 {
            BorrowState::Unborrowed
        } else {
            BorrowState::Shared(self.readers)
        }
    }

    /// The state of a cell is always well-formed.
    pub proof fn lemma_state_wf(&self)
        ensures
            self.state().wf(),
    {
    }

    /// Wraps `value` in a cell that nobody has borrowed yet.
    pub fn new(value: String) -> (cell: TextCell)
        ensures
            cell.text() == value@,
            cell.state() == BorrowState::Unborrowed,
    {
        TextCell { value, readers: 0, writer: false }
    }

    /// Reports how the cell is currently lent out.
    pub fn borrow_state(&self) -> (s: BorrowState)
        ensures
            s == self.state(),
    {
        if self.writer {
            BorrowState::Exclusive
        } else if self.readers == 0 {
            BorrowState::Unborrowed
        } else {
            BorrowState::Shared(self.readers)
        }
    }

    fn store(&mut self, next: BorrowState)
        requires
            next.wf(),
        ensures
            final(self).state() == next,
            final(self).text() == old(self).text(),
    {
        match next {
            BorrowState::Unborrowed => {
                self.readers = 0;
                self.writer = false;
            },
            BorrowState::Shared(n) => {
                self.readers = n;
                self.writer = false;
            },
            BorrowState::Exclusive => {
                self.readers = 0;
                self.writer = true;
            },
        }
    }

    /// Asks for a shared access.
    pub fn try_borrow(&mut self) -> (r: Result<(), AccessError>)
        ensures
            final(self).text() == old(self).text(),
            settles(old(self).state().after_shared(), r, old(self).state(), final(self).state()),
    {
        let next = self.borrow_state().acquire_shared()?;
        self.store(next);
        Ok(())
    }

    /// Asks for the exclusive access.
    pub fn try_borrow_mut(&mut self) -> (r: Result<(), AccessError>)
        ensures
            final(self).text() == old(self).text(),
            settles(old(self).state().after_exclusive(), r, old(self).state(), final(self).state()),
    {
        let next = self.borrow_state().acquire_exclusive()?;
        self.store(next);
        Ok(())
    }

    /// Gives one outstanding access back.
    pub fn release(&mut self) -> (r: Result<(), AccessError>)
        ensures
            final(self).text() == old(self).text(),
            settles(old(self).state().after_release(), r, old(self).state(), final(self).state()),
    {
        let next = self.borrow_state().release()?;
        self.store(next);
        Ok(())
    }

    /// Copies the text out; allowed while any access is held.
    pub fn read(&self) -> (r: Result<String, AccessError>)
        ensures
            match r {
                Ok(copy) => self.state() != BorrowState::Unborrowed && copy@ == self.text(),
                Err(e) => self.state() == BorrowState::Unborrowed && e == AccessError::NotHeld,
            },
    {
        match self.borrow_state() {
            BorrowState::Unborrowed => Err(AccessError::NotHeld),
            _ => Ok(self.value.clone()),
        }
    }

    /// Appends `s` to the text; allowed only while the exclusive access is
    /// held.
    pub fn push_str(&mut self, s: &str) -> (r: Result<(), AccessError>)
        ensures
            final(self).state() == old(self).state(),
            match r {
                Ok(_) => old(self).state() == BorrowState::Exclusive && final(self).text() == old(
                    self,
                ).text() + s@,
                Err(e) => old(self).state() != BorrowState::Exclusive && e == AccessError::NotHeld
                    && final(self).text() == old(self).text(),
            },
    {
        match self.borrow_state() {
            BorrowState::Exclusive => {
                self.value.append(s);
                Ok(())
            },
            _ => Err(AccessError::NotHeld),
        }
    }

    /// Appends `s` under an exclusive access that is taken for this call
    /// alone and given back before it returns.
    ///
    /// Succeeds exactly when nobody holds an access; either way the cell is
    /// lent out afterwards as it was before.
    pub fn append_scoped(&mut self, s: &str) -> (r: Result<(), AccessError>)
        ensures
            final(self).state() == old(self).state(),
            match r {
                Ok(_) => old(self).state() == BorrowState::Unborrowed && final(self).text() == old(
                    self,
                ).text() + s@,
                Err(e) => old(self).state() != BorrowState::Unborrowed && e
                    == AccessError::AlreadyBorrowed && final(self).text() == old(self).text(),
            },
    {
        self.try_borrow_mut()?;
        self.push_str(s)?;
        self.release()
    }

    /// Copies the text out under a shared access that is taken for this call
    /// alone and given back before it returns.
    ///
    /// Succeeds exactly when one more reader can be admitted; either way the
    /// cell is lent out afterwards as it was before.
    pub fn read_scoped(&mut self) -> (r: Result<String, AccessError>)
        ensures
            final(self).state() == old(self).state(),
            final(self).text() == old(self).text(),
            match r {
                Ok(copy) => old(self).state().after_shared() is Ok && copy@ == old(self).text(),
                Err(e) => old(self).state().after_shared() matches Err(refusal) && refusal == e,
            },
    {
        self.try_borrow()?;
        let copy = self.read()?;
        self.release()?;
        Ok(copy)
    }
}

/// Puts `"hi"` in a cell, appends `" there"` under an exclusive access, gives
/// that access back, and then reads the text under a shared access.
pub fn refcell_ok() -> (out: String)
    ensures
        out@ == "hi there"@,
{
    let mut cell = TextCell::new(String::from_str("hi"));
    cell.append_scoped(" there").unwrap();
    let out = cell.read_scoped().unwrap();
    proof {
        reveal_strlit("hi");
        reveal_strlit(" there");
        reveal_strlit("hi there");
        assert(out@ =~= "hi there"@);
    }
    out
}

} // verus!
