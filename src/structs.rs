//! The canonical records handed to callers, whatever the provider.

use vstd::prelude::*;

verus! {

/// One pull request (a merge request on GitLab), in provider-neutral form.
pub struct PullRequest {
    /// The provider's own number for it: GitHub's `number`, GitLab's `iid`.
    pub id: u64,
    pub title: String,
    pub base: Option<String>,
    pub head: Option<String>,
    pub author: String,
    /// As the provider wrote it, not reparsed.
    pub updated_at: String,
    pub url: String,
}

/// One page of results, with the total the provider reported for the whole
/// query (not the length of this page).
pub struct PaginationResult<T> {
    pub total: u64,
    pub result: Vec<T>,
}

impl<T> PaginationResult<T> {
    pub fn new(result: Vec<T>, total: u64) -> (r: Self)
        ensures
            r.total == total,
            r.result@ == result@,
    {
        PaginationResult { total: total, result: result }
    }

    /// The same page with `f` applied to each item, in order; the total is
    /// kept.
    pub fn map<R, F>(&self, f: F) -> (r: PaginationResult<R>)
        where
            F: Fn(&T) -> R,
        requires
            forall|i: int| 0 <= i < self.result@.len() ==> f.requires((&self.result@[i],)),
        ensures
            r.total == self.total,
            r.result@.len() == self.result@.len(),
            forall|i: int| 0 <= i < self.result@.len() ==> f.ensures((&self.result@[i],), #[trigger] r.result@[i]),
    {
        let mut out: Vec<R> = Vec::new();
        let mut i: usize = 0;
        while i < self.result.len()
            invariant
                i <= self.result@.len(),
                out@.len() == i,
                forall|j: int| 0 <= j < self.result@.len() ==> f.requires((&self.result@[j],)),
                forall|j: int| 0 <= j < i ==> f.ensures((&self.result@[j],), #[trigger] out@[j]),
            decreases self.result.len() - i,
        {
            let item = f(&self.result[i]);
            out.push(item);
            i = i + 1;
        }
        PaginationResult { total: self.total, result: out }
    }
}

} // verus!
