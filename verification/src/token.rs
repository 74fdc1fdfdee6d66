use vstd::prelude::*;

verus! {

/// One lexical unit handed over by the tokenizer: the lexeme as a sequence of
/// characters, plus the position it was read from in the source. Tokens are
/// produced once before parsing begins and are read-only for the whole parse.
#[derive(Debug)]
pub struct Token {
    pub word: Vec<char>,
    pub pos: usize,
}

impl Token {
    pub fn new(word: Vec<char>, pos: usize) -> (t: Token)
        ensures
            t.word@ == word@,
            t.pos == pos,
    {
        Token { word, pos }
    }
}

/// Copies a lexeme, so that a caller can keep the characters of the current
/// token while the cursor moves on.
pub(crate) fn copy_word(w: &Vec<char>) -> (r: Vec<char>)
    ensures
        r@ == w@,
{
    let mut r: Vec<char> = Vec::new();
    let mut i: usize = 0;
    while i < w.len()
        invariant
            i <= w@.len(),
            r@ == w@.subrange(0, i as int),
        decreases w@.len() - i,
    {
        r.push(w[i]);
        i = i + 1;
    }
    proof {
        assert(r@ =~= w@);
    }
    r
}

/// Copies the characters of `w` from position `from` (inclusive) to `to`
/// (exclusive); the interpolation scanner uses it to strip delimiters.
pub(crate) fn sub_word(w: &Vec<char>, from: usize, to: usize) -> (r: Vec<char>)
    requires
        from <= to <= w@.len(),
    ensures
        r@ == w@.subrange(from as int, to as int),
{
    let mut r: Vec<char> = Vec::new();
    let mut i: usize = from;
    while i < to
        invariant
            from <= i <= to <= w@.len(),
            r@ == w@.subrange(from as int, i as int),
        decreases to - i,
    {
        r.push(w[i]);
        i = i + 1;
    }
    proof {
        assert(r@ =~= w@.subrange(from as int, to as int));
    }
    r
}

/// Decides whether two lexemes hold the same characters.
pub(crate) fn words_equal(a: &Vec<char>, b: &Vec<char>) -> (r: bool)
    ensures
        r <==> a@ == b@,
{
    if a.len() != b.len() {
        return false;
    }
    let mut i: usize = 0;
    while i < a.len()
        invariant
            i <= a@.len(),
            a@.len() == b@.len(),
            forall|j: int| 0 <= j < i ==> a@[j] == b@[j],
        decreases a@.len() - i,
    {
        if a[i] != b[i] {
            return false;
        }
        i = i + 1;
    }
    proof {
        assert(a@ =~= b@);
    }
    true
}

} // verus!
