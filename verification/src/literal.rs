use vstd::prelude::*;
use crate::diagnostic::{ErrorDetails, ErrorKind};
use crate::expr::Expr;
use crate::metadata::ParserMetadata;
use crate::scope::name_visible;
use crate::token::{copy_word, sub_word, Token};
use crate::types::{Type, Typed};

verus! {

pub open spec fn is_digit(c: char) -> bool {
    '0' <= c && c <= '9'
}

/// The lexeme of a number literal: one or more digits.
pub open spec fn is_number_word(w: Seq<char>) -> bool {
    w.len() > 0 && forall|i: int| 0 <= i < w.len() ==> is_digit(w[i])
}

pub open spec fn is_true_word(w: Seq<char>) -> bool {
    w == seq!['t', 'r', 'u', 'e']
}

pub open spec fn is_false_word(w: Seq<char>) -> bool {
    w == seq!['f', 'a', 'l', 's', 'e']
}

/// The lexeme of a boolean literal.
pub open spec fn is_bool_word(w: Seq<char>) -> bool {
    is_true_word(w) || is_false_word(w)
}

pub open spec fn is_ident_char(c: char) -> bool {
    ('a' <= c && c <= 'z') || ('A' <= c && c <= 'Z') || c == '_'
}

/// The lexeme of a name: letters and underscores.
pub open spec fn is_ident_word(w: Seq<char>) -> bool {
    w.len() > 0 && forall|i: int| 0 <= i < w.len() ==> is_ident_char(w[i])
}

/// A lexeme that both starts and ends with the delimiter: a whole literal in
/// one token, with no interpolation.
pub open spec fn is_wrapped_word(w: Seq<char>, letter: char) -> bool {
    w.len() >= 2 && w[0] == letter && w[w.len() - 1] == letter
}

/// The content of a delimiter-wrapped lexeme, both delimiters stripped.
pub open spec fn inner_of(w: Seq<char>) -> Seq<char> {
    w.subrange(1, w.len() - 1)
}

pub(crate) fn word_is_true(w: &Vec<char>) -> (r: bool)
    ensures
        r == is_true_word(w@),
{
    let r = w.len() == 4 && w[0] == 't' && w[1] == 'r' && w[2] == 'u' && w[3] == 'e';
    proof {
        if r {
            assert(w@ =~= seq!['t', 'r', 'u', 'e']);
        }
    }
    r
}

pub(crate) fn word_is_false(w: &Vec<char>) -> (r: bool)
    ensures
        r == is_false_word(w@),
{
    let r = w.len() == 5 && w[0] == 'f' && w[1] == 'a' && w[2] == 'l' && w[3] == 's' && w[4]
        == 'e';
    proof {
        if r {
            assert(w@ =~= seq!['f', 'a', 'l', 's', 'e']);
        }
    }
    r
}

pub(crate) fn word_is_number(w: &Vec<char>) -> (r: bool)
    ensures
        r == is_number_word(w@),
{
    if w.len() == 0 {
        return false;
    }
    let mut i: usize = 0;
    while i < w.len()
        invariant
            i <= w@.len(),
            forall|j: int| 0 <= j < i ==> is_digit(w@[j]),
        decreases w@.len() - i,
    {
        let c = w[i];
        if !('0' <= c && c <= '9') {
            return false;
        }
        i = i + 1;
    }
    true
}

pub(crate) fn word_is_ident(w: &Vec<char>) -> (r: bool)
    ensures
        r == is_ident_word(w@),
{
    if w.len() == 0 {
        return false;
    }
    let mut i: usize = 0;
    while i < w.len()
        invariant
            i <= w@.len(),
            forall|j: int| 0 <= j < i ==> is_ident_char(w@[j]),
        decreases w@.len() - i,
    {
        let c = w[i];
        if !(('a' <= c && c <= 'z') || ('A' <= c && c <= 'Z') || c == '_') {
            return false;
        }
        i = i + 1;
    }
    true
}

/// A boolean literal: `true` or `false`.
#[derive(Debug)]
pub struct BoolLit {
    pub value: bool,
}

impl Typed for BoolLit {
    open spec fn resolved_type(&self) -> Type {
        Type::Bool
    }

    fn get_type(&self) -> (t: Type) {
        Type::Bool
    }
}

impl BoolLit {
    pub fn new() -> (b: BoolLit)
        ensures
            b.value == false,
    {
        BoolLit { value: false }
    }

    pub fn parse(&mut self, meta: &mut ParserMetadata) -> (r: Result<(), ErrorDetails>)
        requires
            old(meta).wf(),
        ensures
            final(meta).wf(),
            final(meta).tokens == old(meta).tokens,
            final(meta).var_mem == old(meta).var_mem,
            r matches Ok(()) ==> old(meta).index < old(meta).tokens@.len()
                && is_bool_word(old(meta).tokens@[old(meta).index as int].word@)
                && final(self).value == is_true_word(
                old(meta).tokens@[old(meta).index as int].word@)
                && final(meta).index == old(meta).index + 1,
            r matches Err(e) ==> final(meta).index == old(meta).index && (e.kind
                is UnexpectedToken || e.kind is EndOfInput) && (old(meta).index < old(
            meta).tokens@.len() ==> !is_bool_word(
                old(meta).tokens@[old(meta).index as int].word@)),
    {
        match meta.get_current_token() {
            None => Err(ErrorDetails::new(ErrorKind::EndOfInput, None)),
            Some(tok) => {
                let t = word_is_true(&tok.word);
                let f = word_is_false(&tok.word);
                let pos = tok.pos;
                if t || f {
                    self.value = t;
                    meta.increment_index();
                    Ok(())
                } else {
                    Err(ErrorDetails::new(ErrorKind::UnexpectedToken, Some(pos)))
                }
            },
        }
    }
}

/// A number literal; the node keeps the digits of its lexeme.
#[derive(Debug)]
pub struct NumberLit {
    pub word: Vec<char>,
}

impl Typed for NumberLit {
    open spec fn resolved_type(&self) -> Type {
        Type::Num
    }

    fn get_type(&self) -> (t: Type) {
        Type::Num
    }
}

impl NumberLit {
    pub fn new() -> (n: NumberLit)
        ensures
            n.word@.len() == 0,
    {
        NumberLit { word: Vec::new() }
    }

    pub fn parse(&mut self, meta: &mut ParserMetadata) -> (r: Result<(), ErrorDetails>)
        requires
            old(meta).wf(),
        ensures
            final(meta).wf(),
            final(meta).tokens == old(meta).tokens,
            final(meta).var_mem == old(meta).var_mem,
            r matches Ok(()) ==> old(meta).index < old(meta).tokens@.len()
                && is_number_word(old(meta).tokens@[old(meta).index as int].word@)
                && final(self).word@ == old(meta).tokens@[old(meta).index as int].word@
                && final(meta).index == old(meta).index + 1,
            r matches Err(e) ==> final(meta).index == old(meta).index && (e.kind
                is UnexpectedToken || e.kind is EndOfInput) && (old(meta).index < old(
            meta).tokens@.len() ==> !is_number_word(
                old(meta).tokens@[old(meta).index as int].word@)),
    {
        match meta.get_current_token() {
            None => Err(ErrorDetails::new(ErrorKind::EndOfInput, None)),
            Some(tok) => {
                let pos = tok.pos;
                if word_is_number(&tok.word) {
                    let w = copy_word(&tok.word);
                    self.word = w;
                    meta.increment_index();
                    Ok(())
                } else {
                    Err(ErrorDetails::new(ErrorKind::UnexpectedToken, Some(pos)))
                }
            },
        }
    }
}

/// A reference to a declared name. At this stage of the language, variables
/// hold text, so the node resolves to `Type::Text`. Parsing performs the name
/// lookup against the scope stack, innermost frame first; an undeclared name
/// is an `UnexpectedToken` failure.
#[derive(Debug)]
pub struct Variable {
    pub name: Vec<char>,
}

impl Typed for Variable {
    open spec fn resolved_type(&self) -> Type {
        Type::Text
    }

    fn get_type(&self) -> (t: Type) {
        Type::Text
    }
}

impl Variable {
    pub fn new() -> (v: Variable)
        ensures
            v.name@.len() == 0,
    {
        Variable { name: Vec::new() }
    }

    pub fn parse(&mut self, meta: &mut ParserMetadata) -> (r: Result<(), ErrorDetails>)
        requires
            old(meta).wf(),
        ensures
            final(meta).wf(),
            final(meta).tokens == old(meta).tokens,
            final(meta).var_mem == old(meta).var_mem,
            r matches Ok(()) ==> old(meta).index < old(meta).tokens@.len()
                && is_ident_word(old(meta).tokens@[old(meta).index as int].word@)
                && final(self).name@ == old(meta).tokens@[old(meta).index as int].word@
                && name_visible(old(meta).var_mem.frames@, final(self).name@)
                && final(meta).index == old(meta).index + 1,
            r matches Err(e) ==> final(meta).index == old(meta).index && (e.kind
                is UnexpectedToken || e.kind is EndOfInput) && (old(meta).index < old(
            meta).tokens@.len() ==> !is_ident_word(
                old(meta).tokens@[old(meta).index as int].word@,
            ) || !name_visible(
                old(meta).var_mem.frames@,
                old(meta).tokens@[old(meta).index as int].word@,
            )),
    {
        match meta.get_current_token() {
            None => Err(ErrorDetails::new(ErrorKind::EndOfInput, None)),
            Some(tok) => {
                let pos = tok.pos;
                if !word_is_ident(&tok.word) {
                    return Err(ErrorDetails::new(ErrorKind::UnexpectedToken, Some(pos)));
                }
                let w = copy_word(&tok.word);
                if !meta.var_mem.variable_exists(&w) {
                    return Err(ErrorDetails::new(ErrorKind::UnexpectedToken, Some(pos)));
                }
                self.name = w;
                meta.increment_index();
                Ok(())
            },
        }
    }
}

pub(crate) fn is_left_brace(w: &Vec<char>) -> (r: bool)
    ensures
        r == (w@ == seq!['{']),
{
    let r = w.len() == 1 && w[0] == '{';
    proof {
        if r {
            assert(w@ =~= seq!['{']);
        }
    }
    r
}

pub(crate) fn is_right_brace(w: &Vec<char>) -> (r: bool)
    ensures
        r == (w@ == seq!['}']),
{
    let r = w.len() == 1 && w[0] == '}';
    proof {
        if r {
            assert(w@ =~= seq!['}']);
        }
    }
    r
}

/// A lexeme that starts with the delimiter: the opening token of a literal.
pub open spec fn starts_with_letter(w: Seq<char>, letter: char) -> bool {
    w.len() >= 1 && w[0] == letter
}

/// A lexeme that ends with the delimiter: the token that terminates a literal.
pub open spec fn ends_with_letter(w: Seq<char>, letter: char) -> bool {
    w.len() >= 1 && w[w.len() - 1] == letter
}

/// The token shape of a literal holding exactly one interpolated name: an
/// opening token, `{`, a declared name, `}`, and a terminating token. The
/// scanner owes such input the two-segment, one-expression result.
pub open spec fn single_interpolation_shape(
    toks: Seq<Token>,
    i: int,
    frames: Seq<Vec<Vec<char>>>,
    letter: char,
) -> bool {
    &&& 0 <= i
    &&& i + 4 < toks.len()
    &&& starts_with_letter(toks[i].word@, letter)
    &&& !is_wrapped_word(toks[i].word@, letter)
    &&& toks[i + 1].word@ == seq!['{']
    &&& is_ident_word(toks[i + 2].word@)
    &&& !is_bool_word(toks[i + 2].word@)
    &&& name_visible(frames, toks[i + 2].word@)
    &&& toks[i + 3].word@ == seq!['}']
    &&& ends_with_letter(toks[i + 4].word@, letter)
    &&& toks[i + 4].word@ != seq!['{']
}

/// A text literal that may embed sub-expressions ("interpolation"): it owns
/// two parallel sequences, raw-text segments and embedded expressions, such
/// that rendering downstream alternates segment, expression, segment, ...,
/// segment. On every successful parse `strings.len() == interps.len() + 1`.
#[derive(Debug)]
pub struct TextLit {
    pub strings: Vec<Vec<char>>,
    pub interps: Vec<Expr>,
}

impl Typed for TextLit {
    open spec fn resolved_type(&self) -> Type {
        Type::Text
    }

    fn get_type(&self) -> (t: Type) {
        Type::Text
    }
}

impl TextLit {
    pub fn new() -> (t: TextLit)
        ensures
            t.strings@.len() == 0,
            t.interps@.len() == 0,
    {
        TextLit { strings: Vec::new(), interps: Vec::new() }
    }

    pub fn parse(&mut self, meta: &mut ParserMetadata) -> (r: Result<(), ErrorDetails>)
        requires
            old(meta).wf(),
        ensures
            final(meta).wf(),
            final(meta).tokens == old(meta).tokens,
            final(meta).var_mem == old(meta).var_mem,
            r matches Ok(()) ==> final(self).strings@.len() == final(self).interps@.len() + 1
                && old(meta).index < final(meta).index <= final(meta).tokens@.len() && (
            forall|i: int|
                0 <= i < final(self).interps@.len() ==> crate::expr::expr_wf(
                    #[trigger] final(self).interps@[i],
                )),
            old(meta).index < old(meta).tokens@.len() && is_wrapped_word(
                old(meta).tokens@[old(meta).index as int].word@,
                '"',
            ) ==> (r matches Ok(()) && final(self).strings@.len() == 1 && final(
            self).interps@.len() == 0 && final(self).strings@[0]@ == inner_of(
                old(meta).tokens@[old(meta).index as int].word@,
            ) && final(meta).index == old(meta).index + 1),
            old(meta).index >= old(meta).tokens@.len() ==> (r matches Err(e) && e.kind
                is EndOfInput),
            old(meta).index < old(meta).tokens@.len() && !starts_with_letter(
                old(meta).tokens@[old(meta).index as int].word@,
                '"',
            ) ==> (r matches Err(e) && e.kind is UnexpectedToken && final(meta).index == old(
            meta).index),
            single_interpolation_shape(
                old(meta).tokens@,
                old(meta).index as int,
                old(meta).var_mem.frames@,
                '"',
            ) ==> (r matches Ok(()) && final(self).strings@.len() == 2 && final(
            self).interps@.len() == 1 && final(self).strings@[0]@ == old(meta).tokens@[old(
                meta,
            ).index as int].word@.subrange(
                1,
                old(meta).tokens@[old(meta).index as int].word@.len() as int,
            ) && final(self).strings@[1]@ == old(meta).tokens@[old(
                meta,
            ).index + 4].word@.subrange(
                0,
                old(meta).tokens@[old(meta).index + 4].word@.len() - 1,
            ) && final(self).interps@[0] is Var && final(self).interps@[0]->Var_0.name@ == old(
                meta,
            ).tokens@[old(meta).index + 2].word@ && final(meta).index == old(meta).index + 5),
            r matches Err(e) ==> crate::diagnostic::valid_mismatch_error(e),
        decreases meta.tokens@.len() - meta.index, 1int,
    {
        match parse_interpolated_region(meta, '"') {
            Ok(p) => {
                let (strings, interps) = p;
                self.strings = strings;
                self.interps = interps;
                Ok(())
            },
            Err(e) => Err(e),
        }
    }
}

/// Parses a delimited literal, starting at the cursor, into alternating
/// raw-text segments and embedded expressions.
///
/// Fast path, tried before the general scan: a literal that is exactly one
/// token starting and ending with the delimiter becomes a single raw-text
/// segment holding its inner content, delimiters stripped, with no embedded
/// expressions.
///
/// General path: the first token must start with the delimiter; it opens the
/// first segment (opening delimiter stripped). Then, one token at a time: a
/// `{` token switches to interpolation and a `}` token switches back, neither
/// ever stored as text; inside an interpolation, one full expression
/// production is parsed and appended, which opens a fresh raw-text segment;
/// any other raw token appends its characters to the current segment, and one
/// ending with the delimiter terminates the literal (closing delimiter
/// stripped). Exhausting the tokens before a terminating delimiter is an
/// `UnterminatedLiteral` failure.
///
/// Every production leaves the cursor exactly one past the last token it
/// consumed, so the position after a nested expression parse needs no
/// compensation.
#[verifier::loop_isolation(false)]
pub fn parse_interpolated_region(meta: &mut ParserMetadata, letter: char) -> (r: Result<
    (Vec<Vec<char>>, Vec<Expr>),
    ErrorDetails,
>)
    requires
        old(meta).wf(),
    ensures
        final(meta).wf(),
        final(meta).tokens == old(meta).tokens,
        final(meta).var_mem == old(meta).var_mem,
        r matches Ok(p) ==> p.0@.len() == p.1@.len() + 1 && old(meta).index < final(
        meta).index <= final(meta).tokens@.len() && (forall|i: int|
            0 <= i < p.1@.len() ==> crate::expr::expr_wf(#[trigger] p.1@[i])),
        r matches Ok(p) ==> ends_with_letter(
            old(meta).tokens@[final(meta).index - 1].word@,
            letter,
        ),
        r matches Ok(p) ==> (!is_wrapped_word(
            old(meta).tokens@[old(meta).index as int].word@,
            letter,
        ) ==> p.0@[0]@.len() >= old(meta).tokens@[old(meta).index as int].word@.len() - 1
            && p.0@[0]@.subrange(
            0,
            old(meta).tokens@[old(meta).index as int].word@.len() - 1,
        ) == old(meta).tokens@[old(meta).index as int].word@.subrange(
            1,
            old(meta).tokens@[old(meta).index as int].word@.len() as int,
        )),
        old(meta).index < old(meta).tokens@.len() && is_wrapped_word(
            old(meta).tokens@[old(meta).index as int].word@,
            letter,
        ) ==> (r matches Ok(p) && p.0@.len() == 1 && p.1@.len() == 0 && p.0@[0]@ == inner_of(
            old(meta).tokens@[old(meta).index as int].word@,
        ) && final(meta).index == old(meta).index + 1),
        old(meta).index >= old(meta).tokens@.len() ==> (r matches Err(e) && e.kind is EndOfInput),
        old(meta).index < old(meta).tokens@.len() && !starts_with_letter(
            old(meta).tokens@[old(meta).index as int].word@,
            letter,
        ) ==> (r matches Err(e) && e.kind is UnexpectedToken && final(meta).index == old(
        meta).index),
        old(meta).index < old(meta).tokens@.len() && starts_with_letter(
            old(meta).tokens@[old(meta).index as int].word@,
            letter,
        ) && !is_wrapped_word(old(meta).tokens@[old(meta).index as int].word@, letter) && (
        forall|j: int|
            old(meta).index < j < old(meta).tokens@.len()
                ==> !ends_with_letter(#[trigger] old(meta).tokens@[j].word@, letter)
                && old(meta).tokens@[j].word@ != seq!['{']) ==> (r matches Err(e) && e.kind
            is UnterminatedLiteral && e.position == Some(
            old(meta).tokens@[old(meta).tokens@.len() - 1].pos,
        )),
        single_interpolation_shape(
            old(meta).tokens@,
            old(meta).index as int,
            old(meta).var_mem.frames@,
            letter,
        ) ==> (r matches Ok(p) && p.0@.len() == 2 && p.1@.len() == 1 && p.0@[0]@ == old(
            meta,
        ).tokens@[old(meta).index as int].word@.subrange(
            1,
            old(meta).tokens@[old(meta).index as int].word@.len() as int,
        ) && p.0@[1]@ == old(meta).tokens@[old(meta).index + 4].word@.subrange(
            0,
            old(meta).tokens@[old(meta).index + 4].word@.len() - 1,
        ) && p.1@[0] is Var && p.1@[0]->Var_0.name@ == old(meta).tokens@[old(
            meta,
        ).index + 2].word@ && final(meta).index == old(meta).index + 5),
        r matches Ok(p) && (forall|j: int|
            old(meta).index < j < old(meta).tokens@.len() ==> (#[trigger] old(
                meta,
            ).tokens@[j]).word@ != seq!['{']) ==> (forall|j: int|
            old(meta).index < j < final(meta).index - 1 ==> !ends_with_letter(
                (#[trigger] old(meta).tokens@[j]).word@,
                letter,
            )),
        r matches Err(e) ==> crate::diagnostic::valid_mismatch_error(e),
    decreases meta.tokens@.len() - meta.index, 0int,
{
    let start = meta.get_index();
    let mut first_word: Vec<char> = Vec::new();
    let mut first_pos: usize = 0;
    let mut has_first = false;
    match meta.get_token_at(start) {
        None => {},
        Some(tok) => {
            has_first = true;
            first_word = copy_word(&tok.word);
            first_pos = tok.pos;
        },
    }
    if !has_first {
        return Err(ErrorDetails::new(ErrorKind::EndOfInput, None));
    }
    let flen = first_word.len();
    let wrapped = flen >= 2 && first_word[0] == letter && first_word[flen - 1] == letter;
    let starts = flen >= 1 && first_word[0] == letter;
    let mut strings: Vec<Vec<char>> = Vec::new();
    let mut interps: Vec<Expr> = Vec::new();
    if wrapped {
        // the whole literal is this one token: strip the delimiter from both ends
        let inner = sub_word(&first_word, 1, flen - 1);
        strings.push(inner);
        meta.increment_index();
        return Ok((strings, interps));
    }
    if !starts {
        return Err(ErrorDetails::new(ErrorKind::UnexpectedToken, Some(first_pos)));
    }
    // open the first segment, without the opening delimiter
    let opened = sub_word(&first_word, 1, flen);
    strings.push(opened);
    meta.increment_index();
    proof {
        assert(strings@[0]@.subrange(0, flen as int - 1) =~= first_word@.subrange(
            1,
            flen as int,
        ));
    }
    let mut is_interp = false;
    loop
        invariant
            meta.wf(),
            meta.tokens == old(meta).tokens,
            meta.var_mem == old(meta).var_mem,
            strings@.len() == interps@.len() + 1,
            old(meta).index < meta.index,
            strings@[0]@.len() >= flen - 1,
            strings@[0]@.subrange(0, flen as int - 1) == first_word@.subrange(1, flen as int),
            (forall|j: int|
                old(meta).index < j < old(meta).tokens@.len() ==> (#[trigger] old(
                    meta,
                ).tokens@[j]).word@ != seq!['{']) ==> !is_interp && (forall|j: int|
                old(meta).index < j < meta.index ==> !ends_with_letter(
                    (#[trigger] old(meta).tokens@[j]).word@,
                    letter,
                )),
            single_interpolation_shape(
                old(meta).tokens@,
                old(meta).index as int,
                old(meta).var_mem.frames@,
                letter,
            ) ==> strings@[0]@ == first_word@.subrange(1, flen as int),
            single_interpolation_shape(
                old(meta).tokens@,
                old(meta).index as int,
                old(meta).var_mem.frames@,
                letter,
            ) ==> ((meta.index == old(meta).index + 1 && !is_interp && strings@.len() == 1
                && interps@.len() == 0) || (meta.index == old(meta).index + 2 && is_interp
                && strings@.len() == 1 && interps@.len() == 0) || (meta.index == old(
            meta).index + 3 && is_interp && strings@.len() == 2 && strings@[1]@.len() == 0
                && interps@.len() == 1 && interps@[0] is Var && interps@[0]->Var_0.name@
                == old(meta).tokens@[old(meta).index + 2].word@) || (meta.index == old(
            meta).index + 4 && !is_interp && strings@.len() == 2 && strings@[1]@.len() == 0
                && interps@.len() == 1 && interps@[0] is Var && interps@[0]->Var_0.name@
                == old(meta).tokens@[old(meta).index + 2].word@)),
            forall|i: int| 0 <= i < interps@.len() ==> crate::expr::expr_wf(
                #[trigger] interps@[i],
            ),
        decreases meta.tokens@.len() - meta.index,
    {
        let idx = meta.get_index();
        let count = meta.token_count();
        if idx >= count {
            // scanning stopped where the input ended: anchor there
            let mut anchor: Option<usize> = None;
            match meta.get_token_at(count - 1) {
                None => {},
                Some(tok) => {
                    anchor = Some(tok.pos);
                },
            }
            return Err(ErrorDetails::new(ErrorKind::UnterminatedLiteral, anchor));
        }
        let mut word: Vec<char> = Vec::new();
        match meta.get_token_at(idx) {
            None => {},
            Some(tok) => {
                word = copy_word(&tok.word);
            },
        }
        if is_interp {
            if is_right_brace(&word) {
                proof {
                    // a name token can never be the closing brace
                    if is_ident_word(word@) {
                        assert(is_ident_char(word@[0]));
                    }
                }
                is_interp = false;
                meta.increment_index();
            } else {
                let mut expr = Expr::new();
                match expr.parse(meta) {
                    Err(e) => {
                        return Err(e);
                    },
                    Ok(()) => {},
                }
                interps.push(expr);
                // the segment that follows the interpolation starts empty
                let fresh: Vec<char> = Vec::new();
                strings.push(fresh);
            }
        } else if is_left_brace(&word) {
            is_interp = true;
            meta.increment_index();
        } else {
            let wl = word.len();
            let terminated = wl >= 1 && word[wl - 1] == letter;
            let upto = if terminated {
                wl - 1
            } else {
                wl
            };
            let mut lastseg = strings.pop().unwrap();
            let ghost strings0 = strings@;
            let ghost lastseg0 = lastseg@;
            let mut j: usize = 0;
            while j < upto
                invariant
                    j <= upto,
                    upto <= word@.len(),
                    lastseg@ == lastseg0 + word@.subrange(0, j as int),
                decreases upto - j,
            {
                lastseg.push(word[j]);
                j = j + 1;
                proof {
                    assert(lastseg@ =~= lastseg0 + word@.subrange(0, j as int));
                }
            }
            strings.push(lastseg);
            proof {
                assert(strings@.last()@ == lastseg0 + word@.subrange(0, upto as int));
                if lastseg0.len() == 0 {
                    assert(lastseg0 + word@.subrange(0, upto as int) =~= word@.subrange(
                        0,
                        upto as int,
                    ));
                }
                if strings0.len() == 0 {
                    assert(strings@[0]@.subrange(0, flen as int - 1) =~= first_word@.subrange(
                        1,
                        flen as int,
                    ));
                } else {
                    assert(strings@[0] == strings0[0]);
                }
            }
            meta.increment_index();
            if terminated {
                return Ok((strings, interps));
            }
        }
    }
}

} // verus!
