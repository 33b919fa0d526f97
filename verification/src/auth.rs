//! The authenticated actor of one management call and its scopes.

use vstd::prelude::*;

verus! {

/// An authenticated actor: its identity, the scopes it holds and, when it is
/// restricted to some workflow runs, those runs.
#[derive(Clone, Debug)]
pub struct AuthContext {
    pub actor_id: String,
    pub scopes: Vec<String>,
    pub runs: Option<Vec<String>>,
}

/// Whether one held scope entry grants `scope`: the entry names it exactly, or
/// the entry ends in `*` and `scope` starts with what precedes the `*`.
pub open spec fn entry_grants(entry: Seq<char>, scope: Seq<char>) -> bool {
    entry == scope || (entry.len() > 0 && entry.last() == '*' && entry.len() - 1 <= scope.len()
        && scope.subrange(0, entry.len() - 1) == entry.subrange(0, entry.len() - 1))
}

/// Whether the actor holds a scope entry that grants `scope`.
pub open spec fn spec_can(actor: AuthContext, scope: Seq<char>) -> bool {
    exists|i: int| 0 <= i < actor.scopes@.len() && entry_grants(#[trigger] actor.scopes@[i]@, scope)
}

/// Whether the actor may act on `run_id`.
pub open spec fn spec_can_run(actor: AuthContext, run_id: Seq<char>) -> bool {
    match actor.runs {
        None => true,
        Some(runs) => exists|i: int| 0 <= i < runs@.len() && #[trigger] runs@[i]@ == run_id,
    }
}

fn entry_grants_exec(entry: &str, scope: &str) -> (r: bool)
    ensures
        r == entry_grants(entry@, scope@),
{
    if entry.to_owned() == scope.to_owned() {
        return true;
    }
    let n = entry.unicode_len();
    if n == 0 || entry.get_char(n - 1) != '*' || n - 1 > scope.unicode_len() {
        return false;
    }
    let mut i: usize = 0;
    while i < n - 1
        invariant
            n == entry@.len(),
            n >= 1,
            n - 1 <= scope@.len(),
            i <= n - 1,
            forall|j: int| 0 <= j < i ==> entry@[j] == scope@[j],
        decreases n - 1 - i,
    {
        if entry.get_char(i) != scope.get_char(i) {
            assert(scope@.subrange(0, n - 1)[i as int] != entry@.subrange(0, n - 1)[i as int]);
            return false;
        }
        i = i + 1;
    }
    assert(scope@.subrange(0, n - 1) =~= entry@.subrange(0, n - 1));
    true
}

impl AuthContext {
    /// Whether the actor holds a scope that grants `scope`.
    pub fn can(&self, scope: &str) -> (r: bool)
        ensures
            r == spec_can(*self, scope@),
    {
        let mut i: usize = 0;
        while i < self.scopes.len()
            invariant
                i <= self.scopes@.len(),
                forall|j: int| 0 <= j < i ==> !entry_grants(#[trigger] self.scopes@[j]@, scope@),
            decreases self.scopes@.len() - i,
        {
            if entry_grants_exec(self.scopes[i].as_str(), scope) {
                return true;
            }
            i = i + 1;
        }
        false
    }

    /// Whether the actor may act on `run_id`.
    pub fn can_run(&self, run_id: &str) -> (r: bool)
        ensures
            r == spec_can_run(*self, run_id@),
    {
        match &self.runs {
            None => true,
            Some(runs) => {
                let mut i: usize = 0;
                while i < runs.len()
                    invariant
                        self.runs == Some(*runs),
                        i <= runs@.len(),
                        forall|j: int| 0 <= j < i ==> #[trigger] runs@[j]@ != run_id@,
                    decreases runs@.len() - i,
                {
                    let candidate: &String = &runs[i];
                    let wanted: String = run_id.to_owned();
                    if *candidate == wanted {
                        assert(candidate@ == run_id@);
                        assert(self.runs->0@[i as int]@ == run_id@);
                        return true;
                    }
                    i = i + 1;
                }
                false
            },
        }
    }
}

} // verus!
