use vstd::prelude::*;

verus! {

/// The reported outcome of updating one package.
#[derive(Clone, Copy, Debug, PartialEq, Eq, Structural)]
pub enum UpdateStatus {
    /// The package was installed and its pull succeeded.
    Updated,
    /// The package was installed but its pull failed.
    PullFailed,
    /// No package of that name is installed.
    NotInstalled,
}

/// The status an update reports, given whether the package is installed
/// and, if it is, whether the pull succeeded.
pub open spec fn update_status_spec(installed: bool, pull_ok: bool) -> UpdateStatus {
    if !installed {
        UpdateStatus::NotInstalled
    } else if pull_ok {
        UpdateStatus::Updated
    } else {
        UpdateStatus::PullFailed
    }
}

/// Map the outcome of one update to the status reported for it. An absent
/// package is a reported outcome, never a fatal error.
pub fn update_outcome(installed: bool, pull_ok: bool) -> (r: UpdateStatus)
    ensures
        r == update_status_spec(installed, pull_ok),
{
    if !installed {
        UpdateStatus::NotInstalled
    } else if pull_ok {
        UpdateStatus::Updated
    } else {
        UpdateStatus::PullFailed
    }
}

/// The bookkeeping of `update-all`: the installed packages are walked in
/// order and one status is recorded per package. Recording a failure
/// advances the batch exactly as recording a success does, so one
/// package's failed pull never stops the others.
pub struct UpdateBatch {
    names: Vec<String>,
    statuses: Vec<UpdateStatus>,
}

impl UpdateBatch {
    /// The names the batch walks, in order.
    pub closed spec fn names_view(&self) -> Seq<Seq<char>> {
        self.names.deep_view()
    }

    /// The statuses recorded so far, one per finished package.
    pub closed spec fn statuses_view(&self) -> Seq<UpdateStatus> {
        self.statuses@
    }

    /// The batch never records more statuses than it has packages.
    pub open spec fn wf(&self) -> bool {
        self.statuses_view().len() <= self.names_view().len()
    }

    /// Is every package done?
    pub open spec fn spec_finished(&self) -> bool {
        self.statuses_view().len() == self.names_view().len()
    }

    /// Start a batch over the given package names.
    pub fn new(names: Vec<String>) -> (b: Self)
        ensures
            b.wf(),
            b.names_view() == names.deep_view(),
            b.statuses_view() == Seq::<UpdateStatus>::empty(),
    {
        let b = UpdateBatch { names, statuses: Vec::new() };
        proof {
            assert(b.statuses_view() =~= Seq::<UpdateStatus>::empty());
        }
        b
    }

    /// The package the batch will pull next, or nothing if it is finished.
    pub fn next_name(&self) -> (r: Option<&String>)
        requires
            self.wf(),
        ensures
            match r {
                Some(n) => !self.spec_finished() && n@ == self.names_view()[self.statuses_view().len() as int],
                None => self.spec_finished(),
            },
    {
        if self.statuses.len() < self.names.len() {
            Some(&self.names[self.statuses.len()])
        } else {
            None
        }
    }

    /// Record the outcome of pulling the current package and move to the
    /// next one. The batch advances whether or not the pull succeeded, and
    /// every status already recorded stays exactly as it was.
    pub fn record(&mut self, pull_ok: bool)
        requires
            old(self).wf(),
            !old(self).spec_finished(),
        ensures
            final(self).wf(),
            final(self).names_view() == old(self).names_view(),
            final(self).statuses_view() == old(self).statuses_view().push(
                update_status_spec(true, pull_ok),
            ),
    {
        let status = update_outcome(true, pull_ok);
        self.statuses.push(status);
    }

    /// Is the batch finished?
    pub fn is_finished(&self) -> (r: bool)
        ensures
            r == self.spec_finished(),
    {
        self.statuses.len() == self.names.len()
    }

    /// The statuses recorded so far, in the order of the names.
    pub fn statuses(&self) -> (r: &Vec<UpdateStatus>)
        ensures
            r@ == self.statuses_view(),
    {
        &self.statuses
    }

    /// The names the batch walks.
    pub fn names(&self) -> (r: &Vec<String>)
        ensures
            r.deep_view() == self.names_view(),
    {
        &self.names
    }
}

/// Failure isolation: recording any one package's outcome neither changes
/// a status already recorded nor shortens the rest of the batch.
pub proof fn lemma_record_isolated(recorded: Seq<UpdateStatus>, pull_ok: bool)
    ensures
        recorded.push(update_status_spec(true, pull_ok)).len() == recorded.len() + 1,
        forall|i: int|
            0 <= i < recorded.len() ==> recorded.push(update_status_spec(true, pull_ok))[i]
                == recorded[i],
{
}

} // verus!
