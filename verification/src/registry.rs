//! The whitelist registry: the tokens the bank accepts.

use vstd::prelude::*;
use crate::identity::Identity;

verus! {

/// Appending a token that a list does not hold adds that token to the set of the listed
/// tokens, and lists nothing twice that was not listed twice before.
proof fn lemma_push_new(tokens: Seq<Identity>, mint: Identity)
    requires
        !tokens.contains(mint),
    ensures
        tokens.push(mint).to_set() == tokens.to_set().insert(mint),
        tokens.no_duplicates() ==> tokens.push(mint).no_duplicates(),
{
    let after = tokens.push(mint);
    assert forall|t: Identity| after.contains(t) == (t == mint || tokens.contains(t)) by {
        if t == mint {
            assert(after[tokens.len() as int] == mint);
        }
        if tokens.contains(t) {
            let i = choose|i: int| 0 <= i < tokens.len() && tokens[i] == t;
            assert(after[i] == t);
        }
        if after.contains(t) && t != mint {
            let i = choose|i: int| 0 <= i < after.len() && after[i] == t;
            assert(tokens[i] == t);
        }
    }
    assert(after.to_set() =~= tokens.to_set().insert(mint));
    if tokens.no_duplicates() {
        assert forall|i: int, j: int|
            0 <= i < after.len() && 0 <= j < after.len() && i != j implies after[i]
            != after[j] by {
            if i < tokens.len() {
                assert(tokens.contains(after[i]));
            }
            if j < tokens.len() {
                assert(tokens.contains(after[j]));
            }
        }
    }
}

/// The bank's whitelist. Tokens are added and never removed, and only membership counts:
/// the order of the list carries no meaning.
#[derive(Clone, Debug, PartialEq, Eq)]
pub struct Bank {
    /// The accepted tokens.
    pub whitelist_tokens: Vec<Identity>,
}

impl View for Bank {
    type V = Set<Identity>;

    /// The set of accepted tokens.
    open spec fn view(&self) -> Set<Identity> {
        self.whitelist_tokens@.to_set()
    }
}

impl Bank {
    /// The registry is well formed: no token is listed twice.
    pub open spec fn wf(&self) -> bool {
        self.whitelist_tokens@.no_duplicates()
    }

    /// A registry that accepts no token.
    pub fn new() -> (bank: Bank)
        ensures
            bank.whitelist_tokens@ == Seq::<Identity>::empty(),
            bank@ == Set::<Identity>::empty(),
            bank.wf(),
    {
        Bank { whitelist_tokens: Vec::new() }
    }

    /// Puts `mint` on the whitelist. The whitelist is a set: a token that is on it already
    /// is not listed a second time.
    pub fn add_token(&mut self, mint: Identity)
        ensures
            final(self)@ == old(self)@.insert(mint),
            final(self).whitelist_tokens@ == if old(self)@.contains(mint) {
                old(self).whitelist_tokens@
            } else {
                old(self).whitelist_tokens@.push(mint)
            },
            old(self).wf() ==> final(self).wf(),
    {
        if !self.is_token_whitelisted(mint) {
            proof {
                lemma_push_new(self.whitelist_tokens@, mint);
            }
            self.whitelist_tokens.push(mint);
        }
    }

    /// Whether `mint` is on the whitelist.
    pub fn is_token_whitelisted(&self, mint: Identity) -> (listed: bool)
        ensures
            listed == self@.contains(mint),
    {
        let mut i: usize = 0;
        while i < self.whitelist_tokens.len()
            invariant
                i <= self.whitelist_tokens@.len(),
                forall|j: int| 0 <= j < i ==> self.whitelist_tokens@[j] != mint,
            decreases self.whitelist_tokens@.len() - i,
        {
            if self.whitelist_tokens[i] == mint {
                return true;
            }
            i += 1;
        }
        false
    }
}

} // verus!
