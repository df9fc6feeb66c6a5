//! The session manager: one record per logical client session, each
//! independently routing calls through the dispatcher. Sessions share
//! nothing mutable; the registry they consult is frozen.

use vstd::prelude::*;
use crate::dispatch::{ToolCallRequest, ToolAction, DispatchError, dispatch_begin, action_ok};
use crate::registry::{Registry, registry_spec, spec_lookup};

verus! {

/// One live session: its identity and how many of its calls are in
/// flight.
#[derive(Clone, Copy, PartialEq, Eq, Structural)]
pub struct SessionRecord {
    pub id: u64,
    pub active_calls: u64,
}

/// Whether some live session carries this identity.
pub open spec fn has_session(s: Seq<SessionRecord>, sid: u64) -> bool {
    exists|i: int| 0 <= i < s.len() && s[i].id == sid
}

/// A counter bumped by one, held at its ceiling.
pub open spec fn bump(c: u64) -> u64 {
    if c < u64::MAX {
        (c + 1) as u64
    } else {
        c
    }
}

/// A counter dropped by one, held at zero.
pub open spec fn drop_one(c: u64) -> u64 {
    if c > 0 {
        (c - 1) as u64
    } else {
        c
    }
}

/// The session manager: the frozen registry, the next identity to hand
/// out, and the live sessions.
pub struct SessionManager {
    pub registry: Registry,
    pub next_id: u64,
    pub sessions: Vec<SessionRecord>,
}

impl SessionManager {
    /// Well-formedness: the registry is the startup registry, session
    /// identities are unique, and all sit below the next identity.
    pub open spec fn wf(self) -> bool {
        &&& self.registry@ == registry_spec()
        &&& forall|i: int, j: int|
            0 <= i < j < self.sessions@.len() ==> self.sessions@[i].id != self.sessions@[j].id
        &&& forall|i: int| 0 <= i < self.sessions@.len() ==> (#[trigger] self.sessions@[i]).id
            < self.next_id
    }

    /// A fresh manager with the startup registry and no sessions.
    pub fn new() -> (r: SessionManager)
        ensures
            r.wf(),
            r.sessions@ == Seq::<SessionRecord>::empty(),
            r.next_id == 0,
    {
        SessionManager { registry: Registry::new(), next_id: 0, sessions: Vec::new() }
    }

    /// Opens a new session: hands out a fresh identity no live session
    /// shares.
    pub fn open(&mut self) -> (sid: u64)
        requires
            old(self).wf(),
            old(self).next_id < u64::MAX,
        ensures
            final(self).wf(),
            sid == old(self).next_id,
            final(self).next_id == old(self).next_id + 1,
            final(self).sessions@ == old(self).sessions@.push(
                SessionRecord { id: sid, active_calls: 0 },
            ),
            final(self).registry@ == old(self).registry@,
    {
        let sid = self.next_id;
        self.next_id = self.next_id + 1;
        self.sessions.push(SessionRecord { id: sid, active_calls: 0 });
        sid
    }

    fn find_session(&self, sid: u64) -> (r: Option<usize>)
        ensures
            match r {
                Option::Some(i) => i < self.sessions@.len() && self.sessions@[i as int].id == sid,
                Option::None => !has_session(self.sessions@, sid),
            },
    {
        let n = self.sessions.len();
        let mut i: usize = 0;
        while i < n
            invariant
                i <= n,
                n == self.sessions@.len(),
                forall|k: int| 0 <= k < i ==> (#[trigger] self.sessions@[k]).id != sid,
            decreases n - i,
        {
            if self.sessions[i].id == sid {
                return Some(i);
            }
            i = i + 1;
        }
        None
    }

    /// Routes one call on a session. An unknown session or an unknown
    /// tool is a protocol error and leaves the manager exactly as it
    /// was; a dispatched call bumps the session's in-flight count and
    /// carries the dispatcher's full obligation for its result.
    pub fn route(&mut self, sid: u64, req: &ToolCallRequest) -> (r: Result<
        ToolAction,
        DispatchError,
    >)
        requires
            old(self).wf(),
        ensures
            final(self).wf(),
            final(self).registry@ == old(self).registry@,
            final(self).next_id == old(self).next_id,
            !has_session(old(self).sessions@, sid) ==> ((r matches Err(
                DispatchError::UnknownSession,
            )) && final(self).sessions@ == old(self).sessions@),
            has_session(old(self).sessions@, sid) ==> {
                &&& ((spec_lookup(old(self).registry@, req.tool_name@) is None) <==> (r matches Err(
                    DispatchError::UnknownTool,
                )))
                &&& (r matches Err(e) ==> e == DispatchError::UnknownTool)
                &&& (r matches Ok(a) ==> action_ok(req.tool_name@, a, req.arguments@))
                &&& (r is Err ==> final(self).sessions@ == old(self).sessions@)
                &&& (r is Ok ==> exists|i: int|
                    0 <= i < old(self).sessions@.len() && old(self).sessions@[i].id == sid
                        && final(self).sessions@ == old(self).sessions@.update(
                        i,
                        SessionRecord {
                            id: sid,
                            active_calls: bump(old(self).sessions@[i].active_calls),
                        },
                    ))
            },
    {
        let i = match self.find_session(sid) {
            Some(i) => i,
            None => {
                return Err(DispatchError::UnknownSession);
            },
        };
        let r = dispatch_begin(&self.registry, req);
        match r {
            Ok(a) => {
                let c = self.sessions[i].active_calls;
                let c2 = if c < u64::MAX {
                    c + 1
                } else {
                    c
                };
                self.sessions.set(i, SessionRecord { id: sid, active_calls: c2 });
                proof {
                    assert(final(self).sessions@ == old(self).sessions@.update(
                        i as int,
                        SessionRecord {
                            id: sid,
                            active_calls: bump(old(self).sessions@[i as int].active_calls),
                        },
                    ));
                }
                Ok(a)
            },
            Err(e) => Err(e),
        }
    }

    /// Marks one of a session's in-flight calls as complete, dropping its
    /// count by one. An unknown session leaves the manager unchanged.
    pub fn finish(&mut self, sid: u64) -> (r: bool)
        requires
            old(self).wf(),
        ensures
            final(self).wf(),
            final(self).registry@ == old(self).registry@,
            final(self).next_id == old(self).next_id,
            r == has_session(old(self).sessions@, sid),
            !has_session(old(self).sessions@, sid) ==> final(self).sessions@
                == old(self).sessions@,
            has_session(old(self).sessions@, sid) ==> exists|i: int|
                0 <= i < old(self).sessions@.len() && old(self).sessions@[i].id == sid
                    && final(self).sessions@ == old(self).sessions@.update(
                    i,
                    SessionRecord {
                        id: sid,
                        active_calls: drop_one(old(self).sessions@[i].active_calls),
                    },
                ),
    {
        let i = match self.find_session(sid) {
            Some(i) => i,
            None => {
                return false;
            },
        };
        let c = self.sessions[i].active_calls;
        let c2 = if c > 0 {
            c - 1
        } else {
            c
        };
        self.sessions.set(i, SessionRecord { id: sid, active_calls: c2 });
        proof {
            assert(final(self).sessions@ == old(self).sessions@.update(
                i as int,
                SessionRecord {
                    id: sid,
                    active_calls: drop_one(old(self).sessions@[i as int].active_calls),
                },
            ));
        }
        true
    }

    /// Ends a session: its record is removed; every other session is
    /// untouched, in order.
    pub fn close(&mut self, sid: u64) -> (r: bool)
        requires
            old(self).wf(),
        ensures
            final(self).wf(),
            final(self).registry@ == old(self).registry@,
            final(self).next_id == old(self).next_id,
            r == has_session(old(self).sessions@, sid),
            !has_session(old(self).sessions@, sid) ==> final(self).sessions@
                == old(self).sessions@,
            has_session(old(self).sessions@, sid) ==> exists|i: int|
                0 <= i < old(self).sessions@.len() && old(self).sessions@[i].id == sid
                    && final(self).sessions@ == old(self).sessions@.remove(i),
    {
        let i = match self.find_session(sid) {
            Some(i) => i,
            None => {
                return false;
            },
        };
        self.sessions.remove(i);
        proof {
            assert(final(self).sessions@ == old(self).sessions@.remove(i as int));
        }
        true
    }
}

} // verus!
