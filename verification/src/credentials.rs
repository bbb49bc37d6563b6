//! Credentials of the peer of a Unix domain socket, as FreeBSD-like kernels hand them over in
//! ancillary data.
//!
//! The kernel reports the credentials in one of two records. [`cmsgcred_packed`] carries the
//! process ID and a fixed array of sixteen group slots; [`sockcred_packed`] carries the
//! effective group ID and a group array of whatever length the kernel reported.
//! [`Credentials`] is a borrowed view of either record, and [`Groups`] is a cursor over the
//! supplementary groups of such a view.

use core::num::TryFromIntError;
use libc::{c_int, c_short, gid_t, pid_t, uid_t};
use to_method::To;
use vstd::prelude::*;

verus! {

/// Number of group slots in a [`cmsgcred_packed`] record.
pub const CMGROUP_MAX: usize = 16;

/// The record with which the kernel describes the sending process.
#[allow(non_camel_case_types)]
#[derive(Copy, Clone, Debug, PartialEq, Eq)]
pub struct cmsgcred_packed {
    pub cmcred_pid: pid_t,
    pub cmcred_uid: uid_t,
    pub cmcred_euid: uid_t,
    pub cmcred_gid: gid_t,
    pub cmcred_ngroups: c_short,
    pub __pad0: c_short,
    pub cmcred_groups: [gid_t; 16],
}

/// The record with which the kernel describes the credentials of a socket.
///
/// `sc_groups` holds the whole trailing group array of the record.
#[allow(non_camel_case_types)]
#[derive(Clone, Debug, PartialEq, Eq)]
pub struct sockcred_packed {
    pub sc_uid: uid_t,
    pub sc_euid: uid_t,
    pub sc_gid: gid_t,
    pub sc_egid: gid_t,
    pub sc_ngroups: c_int,
    pub sc_groups: Vec<gid_t>,
}

impl cmsgcred_packed {
    /// The group count is not negative. A count above [`CMGROUP_MAX`] is well formed: the
    /// surplus is ignored.
    pub open spec fn well_formed(&self) -> bool {
        self.cmcred_ngroups >= 0
    }

    /// Number of group slots that are in use.
    pub open spec fn group_count(&self) -> int {
        if self.cmcred_ngroups < CMGROUP_MAX {
            self.cmcred_ngroups as int
        } else {
            CMGROUP_MAX as int
        }
    }

    /// Whether the record is well formed.
    pub fn is_well_formed(&self) -> (r: bool)
        ensures
            r == self.well_formed(),
    {
        self.cmcred_ngroups >= 0
    }
}

impl sockcred_packed {
    /// The group count is not negative and the group array holds at least that many entries.
    pub open spec fn well_formed(&self) -> bool {
        0 <= self.sc_ngroups <= self.sc_groups@.len()
    }

    /// Number of entries of the group array that are in use.
    pub open spec fn group_count(&self) -> int {
        self.sc_ngroups as int
    }

    /// Whether the record is well formed.
    pub fn is_well_formed(&self) -> (r: bool)
        ensures
            r == self.well_formed(),
    {
        match int_try_to_usize(self.sc_ngroups) {
            Ok(count) => count <= self.sc_groups.len(),
            Err(_) => false,
        }
    }
}

/// `To::to` of `to_method`, from `c_short` to `c_int`. It is `Into::into`, which for these two
/// types keeps the number.
#[verifier::external_body]
fn short_to_int(n: c_short) -> (r: c_int)
    ensures
        r == n,
{
    n.to::<c_int>()
}

/// `To::try_to` of `to_method`, from `c_int` to `usize`. It is `TryInto::try_into`, which for
/// these two types gives the number back if it is not negative and fails otherwise.
#[verifier::external_body]
fn int_try_to_usize(n: c_int) -> (r: Result<usize, TryFromIntError>)
    ensures
        n >= 0 ==> r is Ok && r.unwrap() == n,
        n < 0 ==> r is Err,
{
    n.try_to::<usize>()
}

/// A borrowed view of the credentials that arrived with one message.
#[derive(Copy, Clone, Debug, PartialEq, Eq)]
pub enum Credentials<'a> {
    Cmsgcred(&'a cmsgcred_packed),
    Sockcred(&'a sockcred_packed),
}

impl<'a> Credentials<'a> {
    /// The record that the view borrows is well formed.
    pub open spec fn well_formed(&self) -> bool {
        match self {
            Credentials::Cmsgcred(c) => c.well_formed(),
            Credentials::Sockcred(c) => c.well_formed(),
        }
    }

    /// The whole group array of the record, used or not.
    pub open spec fn group_slots(&self) -> Seq<gid_t> {
        match self {
            Credentials::Cmsgcred(c) => c.cmcred_groups@,
            Credentials::Sockcred(c) => c.sc_groups@,
        }
    }

    /// Number of supplementary groups that the record reports, capped at [`CMGROUP_MAX`] where
    /// the array is the fixed one.
    pub open spec fn group_count(&self) -> int {
        match self {
            Credentials::Cmsgcred(c) => c.group_count(),
            Credentials::Sockcred(c) => c.group_count(),
        }
    }

    /// The supplementary groups of the peer, in the order of the record.
    pub open spec fn group_ids(&self) -> Seq<gid_t> {
        self.group_slots().take(self.group_count())
    }

    /// Whether the record that the view borrows is well formed.
    pub fn is_well_formed(&self) -> (r: bool)
        ensures
            r == self.well_formed(),
    {
        match self {
            Credentials::Cmsgcred(c) => c.is_well_formed(),
            Credentials::Sockcred(c) => c.is_well_formed(),
        }
    }

    /// Effective user ID of the peer. Both records carry it.
    pub fn euid(self) -> (r: Option<uid_t>)
        ensures
            r == Some(
                match self {
                    Credentials::Cmsgcred(c) => c.cmcred_euid,
                    Credentials::Sockcred(c) => c.sc_euid,
                },
            ),
    {
        Some(
            match self {
                Credentials::Cmsgcred(c) => c.cmcred_euid,
                Credentials::Sockcred(c) => c.sc_euid,
            },
        )
    }

    /// Real user ID of the peer. Both records carry it.
    pub fn ruid(self) -> (r: Option<uid_t>)
        ensures
            r == Some(
                match self {
                    Credentials::Cmsgcred(c) => c.cmcred_uid,
                    Credentials::Sockcred(c) => c.sc_uid,
                },
            ),
    {
        Some(
            match self {
                Credentials::Cmsgcred(c) => c.cmcred_uid,
                Credentials::Sockcred(c) => c.sc_uid,
            },
        )
    }

    /// Effective group ID of the peer, which only a [`sockcred_packed`] record carries.
    pub fn egid(self) -> (r: Option<gid_t>)
        ensures
            r == match self {
                Credentials::Cmsgcred(_) => None,
                Credentials::Sockcred(c) => Some(c.sc_egid),
            },
    {
        match self {
            Credentials::Cmsgcred(_) => None,
            Credentials::Sockcred(c) => Some(c.sc_egid),
        }
    }

    /// Real group ID of the peer. Both records carry it.
    pub fn rgid(self) -> (r: Option<gid_t>)
        ensures
            r == Some(
                match self {
                    Credentials::Cmsgcred(c) => c.cmcred_gid,
                    Credentials::Sockcred(c) => c.sc_gid,
                },
            ),
    {
        Some(
            match self {
                Credentials::Cmsgcred(c) => c.cmcred_gid,
                Credentials::Sockcred(c) => c.sc_gid,
            },
        )
    }

    /// Process ID of the peer, which only a [`cmsgcred_packed`] record carries.
    pub fn pid(self) -> (r: Option<pid_t>)
        ensures
            r == match self {
                Credentials::Cmsgcred(c) => Some(c.cmcred_pid),
                Credentials::Sockcred(_) => None,
            },
    {
        match self {
            Credentials::Cmsgcred(c) => Some(c.cmcred_pid),
            Credentials::Sockcred(_) => None,
        }
    }

    /// The group array of the record.
    fn gids(&self) -> (slots: &'a [gid_t])
        ensures
            slots@ == self.group_slots(),
    {
        match self {
            Credentials::Cmsgcred(c) => c.cmcred_groups.as_slice(),
            Credentials::Sockcred(c) => c.sc_groups.as_slice(),
        }
    }

    /// A cursor over the supplementary groups of the peer.
    ///
    /// A [`cmsgcred_packed`] record that reports more than [`CMGROUP_MAX`] groups yields the
    /// sixteen that its array holds.
    pub fn groups(&self) -> (groups: Groups<'a>)
        requires
            self.well_formed(),
        ensures
            groups@ == self.group_ids(),
            groups@.len() == self.group_count(),
            self is Cmsgcred ==> groups@.len() <= CMGROUP_MAX,
    {
        let n_groups: c_int = match self {
            Credentials::Cmsgcred(c) => {
                let capped: c_short = if c.cmcred_ngroups < CMGROUP_MAX as c_short {
                    c.cmcred_ngroups
                } else {
                    CMGROUP_MAX as c_short
                };
                short_to_int(capped)
            },
            Credentials::Sockcred(c) => c.sc_ngroups,
        };
        let end: usize = int_try_to_usize(n_groups).unwrap();
        Groups { gids: self.gids(), cur: 0, end }
    }
}

/// A cursor over the supplementary groups in a credentials record.
///
/// It borrows the group array and walks it from the first group to one past the last.
#[derive(Debug)]
pub struct Groups<'a> {
    gids: &'a [gid_t],
    cur: usize,
    end: usize,
}

impl<'a> Clone for Groups<'a> {
    /// A second cursor at the same place.
    fn clone(&self) -> (r: Self)
        ensures
            r@ == self@,
    {
        proof {
            use_type_invariant(self);
        }
        Groups { gids: self.gids, cur: self.cur, end: self.end }
    }
}

impl<'a> Groups<'a> {
    #[verifier::type_invariant]
    spec fn in_bounds(&self) -> bool {
        self.cur <= self.end <= self.gids@.len()
    }

    /// The groups that are still to come, in order.
    pub closed spec fn view(&self) -> Seq<gid_t> {
        self.gids@.subrange(self.cur as int, self.end as int)
    }

    /// Hands out the next group and steps past it, or reports that none is left.
    ///
    /// Once the cursor is exhausted it stays exhausted.
    pub fn next(&mut self) -> (r: Option<gid_t>)
        ensures
            old(self)@.len() == 0 ==> r is None && final(self)@ == old(self)@,
            old(self)@.len() > 0 ==> r == Some(old(self)@.first()) && final(self)@ == old(
                self,
            )@.drop_first(),
            r is Some ==> final(self)@.len() == old(self)@.len() - 1,
    {
        proof {
            use_type_invariant(&*self);
        }
        if self.cur >= self.end {
            return None;
        }
        let gid: gid_t = self.gids[self.cur];
        self.cur = self.cur + 1;
        Some(gid)
    }

    /// Bounds on the number of groups left: both are the exact number.
    pub fn size_hint(&self) -> (r: (usize, Option<usize>))
        ensures
            r.0 == self@.len(),
            r.1 == Some(r.0),
    {
        (self.len(), Some(self.len()))
    }

    /// Number of groups left.
    pub fn len(&self) -> (r: usize)
        ensures
            r == self@.len(),
    {
        proof {
            use_type_invariant(self);
        }
        self.end - self.cur
    }
}

} // verus!
