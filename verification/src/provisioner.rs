//! The shared-data-directory contract.
//!
//! The daemon keeps one data directory per user, shared between the
//! greeter and that user, at a fixed path derived from the username
//! alone.  Ensuring the directory is idempotent: it is created only if
//! absent, and every call for the same user yields the same path.  This
//! module states that contract and verifies it over a record of which
//! directories exist.

use vstd::prelude::*;

use vstd::string::StringExecFns;

verus! {

/// The path of the data directory shared with `user`: a fixed root with
/// the username appended.
pub open spec fn shared_dir_path(user: Seq<char>) -> Seq<char> {
    "/var/lib/lightdm-data/"@ + user
}

/// Builds the shared-directory path for `username`.
pub fn shared_data_dir_path(username: &str) -> (r: String)
    ensures
        r@ == shared_dir_path(username@),
{
    let mut r: String = "/var/lib/lightdm-data/".to_owned();
    r.append(username);
    r
}

/// The record of which users' shared directories exist.
#[derive(Debug)]
pub struct DirProvisioner {
    /// The users whose directory was created, each listed once.
    pub created: Vec<String>,
}

/// Well-formedness: no user is recorded twice.
pub open spec fn prov_inv(p: DirProvisioner) -> bool {
    forall|i: int, j: int|
        0 <= i < j < p.created@.len() ==> p.created@[i]@ != p.created@[j]@
}

/// The directory of `user` exists.
pub open spec fn has_dir(p: DirProvisioner, user: Seq<char>) -> bool {
    exists|i: int| 0 <= i < p.created@.len() && #[trigger] p.created@[i]@ == user
}

/// What `ensure` does: the returned path is the fixed one of the user,
/// the directory is created exactly when it was absent, and afterwards it
/// exists while every other user's record is untouched.
pub open spec fn ensure_post(
    pre: DirProvisioner,
    post: DirProvisioner,
    user: Seq<char>,
    path: Seq<char>,
    created: bool,
) -> bool {
    &&& path == shared_dir_path(user)
    &&& created == !has_dir(pre, user)
    &&& forall|u: Seq<char>| #[trigger] has_dir(post, u) <==> (has_dir(pre, u) || u == user)
}

impl DirProvisioner {
    /// A provisioner with no directory created yet.
    pub fn new() -> (p: DirProvisioner)
        ensures
            prov_inv(p),
            forall|u: Seq<char>| !has_dir(p, u),
    {
        DirProvisioner { created: Vec::new() }
    }

    /// Ensures the shared directory of `username` exists.  Returns its
    /// path and whether it was created by this call.
    pub fn ensure(&mut self, username: &str) -> (r: (String, bool))
        requires
            prov_inv(*old(self)),
        ensures
            prov_inv(*final(self)),
            ensure_post(*old(self), *final(self), username@, r.0@, r.1),
    {
        let path = shared_data_dir_path(username);
        let uname: String = username.to_owned();
        let mut i: usize = 0;
        while i < self.created.len()
            invariant
                *self == *old(self),
                prov_inv(*old(self)),
                uname@ == username@,
                path@ == shared_dir_path(username@),
                0 <= i <= self.created@.len(),
                forall|j: int| 0 <= j < i ==> self.created@[j]@ != username@,
            decreases self.created@.len() - i,
        {
            if self.created[i] == uname {
                proof {
                    assert(self.created@[i as int]@ == username@);
                    assert(has_dir(*self, username@));
                    assert forall|u: Seq<char>| #[trigger] has_dir(*self, u) <==> (has_dir(
                        *old(self),
                        u,
                    ) || u == username@) by {
                        if u == username@ {
                            assert(has_dir(*self, u));
                        }
                    }
                }
                return (path, false);
            }
            i = i + 1;
        }
        let ghost pre = self.created@;
        proof {
            assert(!has_dir(*self, username@)) by {
                if has_dir(*self, username@) {
                    let j = choose|j: int|
                        0 <= j < self.created@.len() && self.created@[j]@ == username@;
                }
            };
        }
        self.created.push(uname);
        proof {
            assert forall|u: Seq<char>| #[trigger] has_dir(*self, u) implies (has_dir(
                *old(self),
                u,
            ) || u == username@) by {
                let j = choose|j: int|
                    0 <= j < self.created@.len() && self.created@[j]@ == u;
                if j < pre.len() {
                    assert(pre[j]@ == u);
                }
            }
            assert forall|u: Seq<char>| has_dir(*old(self), u) || u == username@ implies (
            #[trigger] has_dir(*self, u)) by {
                if has_dir(*old(self), u) {
                    let j = choose|j: int| 0 <= j < pre.len() && pre[j]@ == u;
                    assert(self.created@[j]@ == u);
                } else {
                    assert(self.created@[pre.len() as int]@ == u);
                }
            }
            assert forall|k: int, l: int|
                0 <= k < l < self.created@.len() implies self.created@[k]@ != self.created@[l]@ by {
                if l < pre.len() {
                    assert(pre[k]@ != pre[l]@);
                } else {
                    assert(self.created@[l]@ == username@);
                    assert(self.created@[k]@ == pre[k]@);
                }
            }
        }
        (path, true)
    }
}

} // verus!
