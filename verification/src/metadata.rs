use vstd::prelude::*;
use crate::token::Token;
use crate::scope::ScopeStack;

verus! {

/// The mutable parse context threaded by reference through the whole call
/// tree: the read-only token stream, the cursor into it, and the scope stack.
pub struct ParserMetadata {
    pub tokens: Vec<Token>,
    pub index: usize,
    pub var_mem: ScopeStack,
}

impl ParserMetadata {
    /// The cursor invariant: the index stays in `[0, tokens.len()]`, where
    /// `tokens.len()` means "no more tokens". Every cursor operation
    /// preserves it.
    pub open spec fn wf(&self) -> bool {
        self.index <= self.tokens@.len()
    }

    pub fn new(tokens: Vec<Token>) -> (m: ParserMetadata)
        ensures
            m.tokens@ == tokens@,
            m.index == 0,
            m.var_mem.frames@.len() == 0,
            m.wf(),
    {
        ParserMetadata { tokens, index: 0, var_mem: ScopeStack::new() }
    }

    /// Reads the cursor.
    pub fn get_index(&self) -> (i: usize)
        ensures
            i == self.index,
    {
        self.index
    }

    /// The length of the token stream.
    pub fn token_count(&self) -> (n: usize)
        ensures
            n == self.tokens@.len(),
    {
        self.tokens.len()
    }

    /// Writes the cursor directly; callers that try an alternative production
    /// after a failure use it to restore a saved position.
    pub fn set_index(&mut self, i: usize)
        requires
            i <= old(self).tokens@.len(),
        ensures
            final(self).index == i,
            final(self).tokens == old(self).tokens,
            final(self).var_mem == old(self).var_mem,
            final(self).wf(),
    {
        self.index = i;
    }

    /// Moves the cursor forward one position.
    pub fn increment_index(&mut self)
        requires
            old(self).index < old(self).tokens@.len(),
        ensures
            final(self).index == old(self).index + 1,
            final(self).tokens == old(self).tokens,
            final(self).var_mem == old(self).var_mem,
            final(self).wf(),
    {
        let n = self.tokens.len();
        proof {
            assert(self.index < n);
        }
        self.index = self.index + 1;
    }

    /// The token at absolute position `i`, or none when `i` is past the end.
    /// Reading past the end never fails: the caller interprets the `None`
    /// contextually.
    pub fn get_token_at(&self, i: usize) -> (t: Option<&Token>)
        ensures
            match t {
                Some(tok) => i < self.tokens@.len() && *tok == self.tokens@[i as int],
                None => i >= self.tokens@.len(),
            },
    {
        if i < self.tokens.len() {
            Some(&self.tokens[i])
        } else {
            None
        }
    }

    /// The token at the cursor, or none at end of input.
    pub fn get_current_token(&self) -> (t: Option<&Token>)
        ensures
            match t {
                Some(tok) => self.index < self.tokens@.len()
                    && *tok == self.tokens@[self.index as int],
                None => self.index >= self.tokens@.len(),
            },
    {
        self.get_token_at(self.index)
    }
}

} // verus!
