use vstd::prelude::*;
use crate::errors::PkgError;
use crate::text::{count_char, first_index_of, lemma_count_push, lemma_first_index_at};

verus! {

/// The identity of a package: the owner and repository parts of an
/// `<owner>/<repo>` argument.
#[derive(Debug, Clone)]
pub struct PackageRef {
    pub owner: String,
    pub repo: String,
}

/// A reference argument is valid exactly when it contains one slash.
pub open spec fn valid_ref(s: Seq<char>) -> bool {
    count_char(s, '/') == 1
}

/// The canonical source location of a package.
pub open spec fn url_spec(owner: Seq<char>, repo: Seq<char>) -> Seq<char> {
    "https://github.com/"@ + owner + "/"@ + repo
}

/// The directory that holds a package inside the store root. It depends on
/// the repo name alone, never on the owner.
pub open spec fn local_dir_spec(root: Seq<char>, repo: Seq<char>) -> Seq<char> {
    root + "/"@ + repo
}

/// Two references that share a repo name occupy the same directory under
/// any store root, whatever their owners: distinct owners collide.
pub proof fn lemma_local_dir_ignores_owner(a: PackageRef, b: PackageRef, root: Seq<char>)
    requires
        a.repo@ == b.repo@,
    ensures
        local_dir_spec(root, a.repo@) == local_dir_spec(root, b.repo@),
{
}

impl PackageRef {
    /// Parse an `<owner>/<repo>` argument. It is accepted exactly when it
    /// contains one `/`; the owner and the repo are the parts before and
    /// after it. Anything else is an invalid reference.
    pub fn parse(arg: &str) -> (r: Result<PackageRef, PkgError>)
        ensures
            r is Ok <==> valid_ref(arg@),
            r is Ok ==> r->Ok_0.owner@ == arg@.take(first_index_of(arg@, '/') as int),
            r is Ok ==> r->Ok_0.repo@ == arg@.skip(first_index_of(arg@, '/') as int + 1),
            r is Err ==> r->Err_0 == PkgError::InvalidReference,
    {
        let n = arg.unicode_len();
        let mut slashes: usize = 0;
        let mut idx: usize = 0;
        let mut i: usize = 0;
        proof {
            assert(arg@.take(0) =~= Seq::<char>::empty());
        }
        while i < n
            invariant
                0 <= i <= n,
                n == arg@.len(),
                slashes <= i,
                slashes == count_char(arg@.take(i as int), '/'),
                slashes == 0 ==> forall|j: int| 0 <= j < i ==> arg@[j] != '/',
                slashes > 0 ==> (idx < i && arg@[idx as int] == '/' && forall|j: int|
                    0 <= j < idx ==> arg@[j] != '/'),
            decreases n - i,
        {
            let c = arg.get_char(i);
            proof {
                assert(arg@.take(i as int + 1) =~= arg@.take(i as int).push(arg@[i as int]));
                lemma_count_push(arg@.take(i as int), '/', arg@[i as int]);
            }
            if c == '/' {
                if slashes == 0 {
                    idx = i;
                }
                slashes = slashes + 1;
            }
            i += 1;
        }
        proof {
            assert(arg@.take(n as int) =~= arg@);
        }
        if slashes != 1 {
            Err(PkgError::InvalidReference)
        } else {
            proof {
                lemma_first_index_at(arg@, '/', idx as int);
            }
            let owner = String::from_str(arg.substring_char(0, idx));
            let repo = String::from_str(arg.substring_char(idx + 1, n));
            proof {
                assert(owner@ =~= arg@.take(idx as int));
                assert(repo@ =~= arg@.skip(idx as int + 1));
            }
            Ok(PackageRef { owner, repo })
        }
    }

    /// The source location the package is cloned from.
    pub fn source_url(&self) -> (u: String)
        ensures
            u@ == url_spec(self.owner@, self.repo@),
    {
        let u = String::from_str("https://github.com/");
        let u = u.concat(self.owner.as_str());
        let u = u.concat("/");
        let u = u.concat(self.repo.as_str());
        proof {
            assert(u@ =~= url_spec(self.owner@, self.repo@));
        }
        u
    }

    /// The package's directory under the store root.
    pub fn local_dir(&self, root: &str) -> (p: String)
        ensures
            p@ == local_dir_spec(root@, self.repo@),
    {
        let p = String::from_str(root);
        let p = p.concat("/");
        let p = p.concat(self.repo.as_str());
        proof {
            assert(p@ =~= local_dir_spec(root@, self.repo@));
        }
        p
    }
}

/// The store root, relative to the operator's home directory.
pub fn store_relative_path() -> (s: String)
    ensures
        s@ == ".flash/packages"@,
{
    String::from_str(".flash/packages")
}

/// The name of the config file at the root of a cloned source tree.
pub fn config_file_name() -> (s: String)
    ensures
        s@ == "config.flash"@,
{
    String::from_str("config.flash")
}

} // verus!
