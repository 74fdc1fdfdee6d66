use vstd::prelude::*;

verus! {

/// Holds when `frame` declares `name`.
pub open spec fn frame_has_name(frame: Seq<Vec<char>>, name: Seq<char>) -> bool {
    exists|j: int| 0 <= j < frame.len() && frame[j]@ == name
}

/// Holds when some frame of the stack declares `name`: the name is visible.
pub open spec fn name_visible(frames: Seq<Vec<Vec<char>>>, name: Seq<char>) -> bool {
    exists|i: int| 0 <= i < frames.len() && frame_has_name(frames[i]@, name)
}

/// A stack of name-visibility frames, one frame per lexical nesting level.
/// A block pushes a frame on entry and pops it on exit, so names declared
/// inside the block are invisible once it ends. Lookups search the frames
/// innermost-to-outermost.
pub struct ScopeStack {
    pub frames: Vec<Vec<Vec<char>>>,
}

impl ScopeStack {
    pub fn new() -> (s: ScopeStack)
        ensures
            s.frames@.len() == 0,
    {
        ScopeStack { frames: Vec::new() }
    }

    /// The number of frames currently on the stack.
    pub fn depth(&self) -> (n: usize)
        ensures
            n == self.frames@.len(),
    {
        self.frames.len()
    }

    /// Creates a new, empty, innermost visibility frame.
    pub fn push_scope(&mut self)
        ensures
            final(self).frames@.len() == old(self).frames@.len() + 1,
            final(self).frames@.drop_last() == old(self).frames@,
            final(self).frames@.last()@.len() == 0,
    {
        let frame: Vec<Vec<char>> = Vec::new();
        self.frames.push(frame);
        proof {
            assert(self.frames@.drop_last() =~= old(self).frames@);
        }
    }

    /// Discards the innermost frame, making every name it declared invisible.
    pub fn pop_scope(&mut self)
        requires
            old(self).frames@.len() > 0,
        ensures
            final(self).frames@ == old(self).frames@.drop_last(),
    {
        let _ = self.frames.pop();
    }

    /// Declares `name` in the innermost frame.
    pub fn add_variable(&mut self, name: Vec<char>)
        requires
            old(self).frames@.len() > 0,
        ensures
            final(self).frames@.len() == old(self).frames@.len(),
            final(self).frames@.drop_last() == old(self).frames@.drop_last(),
            final(self).frames@.last()@ == old(self).frames@.last()@.push(name),
            name_visible(final(self).frames@, name@),
    {
        let mut frame = self.frames.pop().unwrap();
        frame.push(name);
        self.frames.push(frame);
        proof {
            assert(self.frames@.drop_last() =~= old(self).frames@.drop_last());
            let top = self.frames@.len() - 1;
            assert(self.frames@[top]@.last()@ == name@);
            assert(frame_has_name(self.frames@[top]@, name@));
        }
    }

    /// Looks `name` up, innermost frame first.
    pub fn variable_exists(&self, name: &Vec<char>) -> (r: bool)
        ensures
            r == name_visible(self.frames@, name@),
    {
        let mut i: usize = self.frames.len();
        while i > 0
            invariant
                i <= self.frames@.len(),
                forall|k: int| i <= k < self.frames@.len()
                    ==> !frame_has_name(self.frames@[k]@, name@),
            decreases i,
    {
            i = i - 1;
            let frame = &self.frames[i];
            let mut j: usize = 0;
            while j < frame.len()
                invariant
                    i < self.frames@.len(),
                    j <= frame@.len(),
                    frame == self.frames@[i as int],
                    forall|l: int| 0 <= l < j ==> frame@[l]@ != name@,
                decreases frame@.len() - j,
            {
                if crate::token::words_equal(&frame[j], name) {
                    proof {
                        assert(frame_has_name(self.frames@[i as int]@, name@));
                    }
                    return true;
                }
                j = j + 1;
            }
            proof {
                assert(!frame_has_name(self.frames@[i as int]@, name@));
            }
        }
        false
    }
}

/// Entering a scope hides nothing: a name visible on the stack stays
/// visible after a new frame is pushed.
pub proof fn lemma_visibility_monotonic(
    frames: Seq<Vec<Vec<char>>>,
    inner: Vec<Vec<char>>,
    name: Seq<char>,
)
    ensures
        name_visible(frames, name) ==> name_visible(frames.push(inner), name),
{
    if name_visible(frames, name) {
        let i = choose|i: int| 0 <= i < frames.len() && frame_has_name(frames[i]@, name);
        assert(frames.push(inner)[i] == frames[i]);
        assert(frame_has_name(frames.push(inner)[i]@, name));
    }
}

/// Scope isolation: whatever names the innermost frame of a block came to
/// declare, popping that frame restores exactly the visibility that held
/// before it was pushed. In particular a name that was not visible before a
/// block is not visible to lookups performed after the block's scope has been
/// popped.
pub proof fn lemma_scope_isolation(frames: Seq<Vec<Vec<char>>>, inner: Vec<Vec<char>>, name: Seq<char>)
    ensures
        name_visible(frames.push(inner).drop_last(), name) == name_visible(frames, name),
{
    assert(frames.push(inner).drop_last() =~= frames);
}

} // verus!
