use vstd::prelude::*;

verus! {

/// The outcome of removing a package by name.
#[derive(Clone, Copy, Debug, PartialEq, Eq, Structural)]
pub enum RemoveOutcome {
    /// The package was installed and its directory was removed.
    Removed,
    /// The package was not installed; nothing was done.
    NotInstalled,
}

/// Is the name `n` one of the entries of `s`?
pub open spec fn store_has(s: Seq<Seq<char>>, n: Seq<char>) -> bool {
    exists|i: int| 0 <= i < s.len() && s[i] == n
}

/// Appending one name to a listing makes exactly that name present on top
/// of the ones already there.
proof fn lemma_store_has_push(s: Seq<Seq<char>>, x: Seq<char>, n: Seq<char>)
    ensures
        store_has(s.push(x), n) <==> (store_has(s, n) || n == x),
{
    if store_has(s.push(x), n) {
        let k = choose|k: int| 0 <= k < s.push(x).len() && s.push(x)[k] == n;
        if k < s.len() {
            assert(s[k] == n);
        }
    }
    if store_has(s, n) {
        let k = choose|k: int| 0 <= k < s.len() && s[k] == n;
        assert(s.push(x)[k] == n);
    }
    assert(s.push(x)[s.len() as int] == x);
}

/// A model of the on-disk store of installed packages: the directory names
/// under the store root, each one package. The surrounding binary reads the
/// directory into this model and mirrors every change back to disk.
pub struct PackageStore {
    names: Vec<String>,
}

impl View for PackageStore {
    type V = Seq<Seq<char>>;

    closed spec fn view(&self) -> Seq<Seq<char>> {
        self.names.deep_view()
    }
}

impl PackageStore {
    /// No name occurs twice: directory names are unique.
    pub closed spec fn wf(&self) -> bool {
        forall|i: int, j: int| 0 <= i < j < self@.len() ==> self@[i] != self@[j]
    }

    /// An empty store.
    pub fn new() -> (s: Self)
        ensures
            s@ == Seq::<Seq<char>>::empty(),
            s.wf(),
    {
        let s = PackageStore { names: Vec::new() };
        proof {
            assert(s@ =~= Seq::<Seq<char>>::empty());
        }
        s
    }

    /// Build the store model from the directory names the binary listed.
    /// A repeated name counts once.
    pub fn from_names(names: &Vec<String>) -> (s: Self)
        ensures
            s.wf(),
            forall|n: Seq<char>| store_has(s@, n) <==> store_has(names.deep_view(), n),
    {
        let mut s = PackageStore::new();
        let mut i: usize = 0;
        while i < names.len()
            invariant
                0 <= i <= names.len(),
                s.wf(),
                forall|n: Seq<char>|
                    store_has(s@, n) <==> store_has(names.deep_view().take(i as int), n),
            decreases names.len() - i,
        {
            let name = &names[i];
            let ghost s_pre = s@;
            let had = s.contains(name);
            if !had {
                s.add(name.clone());
            }
            proof {
                let pre = names.deep_view().take(i as int);
                let now = names.deep_view().take(i as int + 1);
                let x = names.deep_view()[i as int];
                assert(now =~= pre.push(x));
                assert(name@ == x);
                assert forall|n: Seq<char>|
                    store_has(s@, n) <==> store_has(now, n) by {
                    lemma_store_has_push(pre, x, n);
                    if !had {
                        lemma_store_has_push(s_pre, x, n);
                    }
                }
            }
            i += 1;
        }
        proof {
            assert(names.deep_view().take(names.len() as int) =~= names.deep_view());
        }
        s
    }

    /// How many packages are installed.
    pub fn count(&self) -> (n: usize)
        ensures
            n == self@.len(),
    {
        self.names.len()
    }

    /// The installed names, in listing order.
    pub fn names(&self) -> (r: &Vec<String>)
        ensures
            r.deep_view() == self@,
    {
        &self.names
    }

    /// Is a package of this name installed?
    pub fn contains(&self, name: &String) -> (r: bool)
        ensures
            r == store_has(self@, name@),
    {
        let mut i: usize = 0;
        while i < self.names.len()
            invariant
                0 <= i <= self.names.len(),
                forall|j: int| 0 <= j < i ==> self@[j] != name@,
            decreases self.names.len() - i,
        {
            if self.names[i].eq(name) {
                assert(self@[i as int] == name@);
                return true;
            }
            i += 1;
        }
        false
    }

    /// Record a package as installed.
    pub fn add(&mut self, name: String)
        requires
            old(self).wf(),
            !store_has(old(self)@, name@),
        ensures
            final(self).wf(),
            final(self)@ == old(self)@.push(name@),
    {
        self.names.push(name);
        proof {
            assert(self@ =~= old(self)@.push(name@));
        }
    }

    /// Remove a package by name and say whether it was installed at all.
    /// Removing an absent package is not an error: it reports
    /// `NotInstalled` and changes nothing.
    pub fn remove(&mut self, name: &String) -> (r: RemoveOutcome)
        requires
            old(self).wf(),
        ensures
            final(self).wf(),
            (r == RemoveOutcome::Removed) <==> store_has(old(self)@, name@),
            (r == RemoveOutcome::NotInstalled) <==> !store_has(old(self)@, name@),
            !store_has(final(self)@, name@),
            forall|m: Seq<char>|
                m != name@ ==> (store_has(final(self)@, m) <==> store_has(old(self)@, m)),
            r == RemoveOutcome::NotInstalled ==> final(self)@ == old(self)@,
    {
        let mut i: usize = 0;
        while i < self.names.len()
            invariant
                0 <= i <= self.names.len(),
                self@ == old(self)@,
                self.wf(),
                forall|j: int| 0 <= j < i ==> self@[j] != name@,
            decreases self.names.len() - i,
        {
            if self.names[i].eq(name) {
                let ghost pre = old(self)@;
                assert(pre[i as int] == name@);
                assert(store_has(pre, name@));
                self.names.remove(i);
                proof {
                    assert(self@ =~= pre.remove(i as int));
                    assert forall|m: Seq<char>| m != name@ implies (store_has(self@, m)
                        <==> store_has(pre, m)) by {
                        if store_has(self@, m) {
                            let k = choose|k: int| 0 <= k < self@.len() && self@[k] == m;
                            if k < i {
                                assert(pre[k] == m);
                            } else {
                                assert(pre[k + 1] == m);
                            }
                        }
                        if store_has(pre, m) {
                            let k = choose|k: int| 0 <= k < pre.len() && pre[k] == m;
                            if k < i {
                                assert(self@[k] == m);
                            } else {
                                assert(k != i);
                                assert(self@[k - 1] == m);
                            }
                        }
                    }
                    assert(!store_has(self@, name@)) by {
                        if store_has(self@, name@) {
                            let k = choose|k: int| 0 <= k < self@.len() && self@[k] == name@;
                            if k < i {
                                assert(pre[k] == name@);
                            } else {
                                assert(pre[k + 1] == name@);
                            }
                        }
                    }
                }
                return RemoveOutcome::Removed;
            }
            i += 1;
        }
        RemoveOutcome::NotInstalled
    }
}

/// Round trip: recording an install and then removing that name leaves the
/// store holding exactly the other packages, and never the name itself.
pub proof fn lemma_install_then_remove(
    pre: Seq<Seq<char>>,
    mid: Seq<Seq<char>>,
    post: Seq<Seq<char>>,
    name: Seq<char>,
)
    requires
        mid == pre.push(name),
        !store_has(post, name),
        forall|m: Seq<char>| m != name ==> (store_has(post, m) <==> store_has(mid, m)),
    ensures
        forall|m: Seq<char>| store_has(post, m) <==> (store_has(pre, m) && m != name),
{
    assert forall|m: Seq<char>| store_has(post, m) implies (store_has(pre, m) && m != name) by {
        assert(store_has(mid, m));
        let k = choose|k: int| 0 <= k < mid.len() && mid[k] == m;
        assert(k < pre.len());
        assert(pre[k] == m);
    }
    assert forall|m: Seq<char>| store_has(pre, m) && m != name implies store_has(post, m) by {
        let k = choose|k: int| 0 <= k < pre.len() && pre[k] == m;
        assert(mid[k] == m);
    }
}

/// Installing a package makes it present in the store.
pub proof fn lemma_present_after_add(pre: Seq<Seq<char>>, name: Seq<char>)
    ensures
        store_has(pre.push(name), name),
{
    assert(pre.push(name)[pre.len() as int] == name);
}

} // verus!
