//! The event poller: a host readiness-polling context plus the dispatch
//! table that maps integer tokens to logical event kinds.
//!
//! A token is allocated as the table length at the moment of registration,
//! so tokens are dense, stable and never reassigned. Slot 0 is reserved and
//! empty. The monitor's event loop looks a ready token up with `dispatch`;
//! a token nobody registered is ignored.

use vstd::prelude::*;

verus! {

/// The logical event kinds the monitor reacts to: the guest-raised exit
/// event and host stdin readability.
#[derive(Clone, Copy, Debug, PartialEq, Eq, Structural)]
pub enum EpollDispatch {
    Exit,
    Stdin,
}

/// Relies on epoll::create: makes a new epoll file descriptor
/// (epoll_create1 with close-on-exec); the descriptor is non-negative.
#[verifier::external_body]
fn epoll_create() -> (r: Result<i32, std::io::Error>)
    ensures
        r matches Ok(fd) ==> fd >= 0,
{
    epoll::create(true)
}

/// Relies on epoll::ctl: adds `fd` to the epoll interest list of `epfd`
/// for read readiness, with `token` as the event's data word.
#[verifier::external_body]
fn epoll_add_read(epfd: i32, fd: i32, token: u64) -> (r: Result<(), std::io::Error>)
{
    epoll::ctl(
        epfd,
        epoll::ControlOptions::EPOLL_CTL_ADD,
        fd,
        epoll::Event::new(epoll::Events::EPOLLIN, token),
    )
}

/// The readiness context: the polling descriptor and the dispatch table.
pub struct EpollContext {
    raw_fd: i32,
    dispatch_table: Vec<Option<EpollDispatch>>,
}

impl EpollContext {
    /// The dispatch table: one slot per allocated token.
    pub closed spec fn table(self) -> Seq<Option<EpollDispatch>> {
        self.dispatch_table@
    }

    /// The polling descriptor, for the host wait call.
    pub closed spec fn spec_raw_fd(self) -> i32 {
        self.raw_fd
    }

    /// A fresh context: a new polling descriptor and a table holding only
    /// the reserved empty slot 0.
    pub fn new() -> (r: Result<EpollContext, std::io::Error>)
        ensures
            r matches Ok(ctx) ==> {
                &&& ctx.table() == seq![None::<EpollDispatch>]
                &&& ctx.spec_raw_fd() >= 0
            },
    {
        let raw_fd = match epoll_create() {
            Ok(fd) => fd,
            Err(e) => {
                return Err(e);
            },
        };
        let mut dispatch_table: Vec<Option<EpollDispatch>> = Vec::new();
        dispatch_table.push(None);
        proof {
            assert(dispatch_table@ =~= seq![None::<EpollDispatch>]);
        }
        Ok(EpollContext { raw_fd, dispatch_table })
    }

    /// Subscribes host stdin for read readiness under a fresh token bound
    /// to `Stdin`. On success the token is the old table length and the
    /// table grows by that one slot; on failure the context is unchanged.
    pub fn add_stdin(&mut self) -> (r: Result<(), std::io::Error>)
        ensures
            match r {
                Ok(()) => final(self).table() == old(self).table().push(Some(EpollDispatch::Stdin))
                    && final(self).spec_raw_fd() == old(self).spec_raw_fd(),
                Err(_) => *final(self) == *old(self),
            },
    {
        // Host stdin is file descriptor 0.
        self.add_event(0, EpollDispatch::Stdin)
    }

    /// Subscribes the readable descriptor `fd` under a fresh token bound to
    /// `token`. On success the token is the old table length and the table
    /// grows by that one slot; on failure the context is unchanged.
    pub fn add_event(&mut self, fd: i32, token: EpollDispatch) -> (r: Result<
        (),
        std::io::Error,
    >)
        ensures
            match r {
                Ok(()) => final(self).table() == old(self).table().push(Some(token))
                    && final(self).spec_raw_fd() == old(self).spec_raw_fd(),
                Err(_) => *final(self) == *old(self),
            },
    {
        let dispatch_index = self.dispatch_table.len() as u64;
        match epoll_add_read(self.raw_fd, fd, dispatch_index) {
            Ok(()) => {
                self.dispatch_table.push(Some(token));
                Ok(())
            },
            Err(e) => Err(e),
        }
    }

    /// Looks a ready token up: the kind supplied at its registration, or
    /// `None` for the reserved slot and for tokens never allocated.
    pub fn dispatch(&self, token: u64) -> (r: Option<EpollDispatch>)
        ensures
            r == (if 0 <= token < self.table().len() {
                self.table()[token as int]
            } else {
                None::<EpollDispatch>
            }),
    {
        if token < self.dispatch_table.len() as u64 {
            self.dispatch_table[token as usize]
        } else {
            None
        }
    }

    /// The polling descriptor, for the host wait call.
    pub fn as_raw_fd(&self) -> (r: i32)
        ensures
            r == self.spec_raw_fd(),
    {
        self.raw_fd
    }
}

/// The dispatch table of a fresh context followed by the registrations
/// `kinds`, in order: the reserved empty slot, then one slot per
/// registration holding its kind.
pub open spec fn table_after(kinds: Seq<EpollDispatch>) -> Seq<Option<EpollDispatch>> {
    seq![None::<EpollDispatch>] + kinds.map_values(|k: EpollDispatch| Some(k))
}

/// Token bookkeeping law: after a fresh context and any sequence of
/// successful registrations, the table holds one slot per registration plus
/// the reserved slot 0, which stays empty, and each token from 1 on maps to
/// the kind supplied when it was allocated. `new` establishes the empty
/// case, and each successful `add_stdin` or `add_event` extends the table
/// by exactly its one new slot, as their contracts state.
pub proof fn lemma_dispatch_table_shape(kinds: Seq<EpollDispatch>)
    ensures
        table_after(Seq::empty()) == seq![None::<EpollDispatch>],
        table_after(kinds).len() == kinds.len() + 1,
        table_after(kinds)[0] is None,
        forall|t: int| 1 <= t <= kinds.len() ==> table_after(kinds)[t] == Some(kinds[t - 1]),
        forall|k: EpollDispatch|
            #[trigger] table_after(kinds.push(k)) == table_after(kinds).push(Some(k)),
{
    assert(table_after(Seq::empty()) =~= seq![None::<EpollDispatch>]);
    assert forall|k: EpollDispatch|
        #[trigger] table_after(kinds.push(k)) == table_after(kinds).push(Some(k)) by {
        assert(table_after(kinds.push(k)) =~= table_after(kinds).push(Some(k)));
    }
}

} // verus!
