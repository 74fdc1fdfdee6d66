use vstd::prelude::*;
use crate::binop::Neq;
use crate::diagnostic::{valid_mismatch_error, ErrorDetails, ErrorKind};
use crate::literal::{word_is_false, word_is_ident, word_is_number, word_is_true};
use crate::literal::{is_bool_word, is_digit, is_ident_char, is_ident_word, is_number_word, is_true_word};
use crate::literal::{inner_of, is_wrapped_word, starts_with_letter};
use crate::literal::{BoolLit, NumberLit, TextLit, Variable};
use crate::metadata::ParserMetadata;
use crate::scope::name_visible;
use crate::types::{Type, Typed};

verus! {

/// The expression node family: a closed set of variants unified behind one
/// indirection so that expressions nest arbitrarily. Each variant owns its
/// sub-nodes by value; the grammar is acyclic by construction.
#[derive(Debug)]
pub enum Expr {
    Bool(BoolLit),
    Number(NumberLit),
    Text(TextLit),
    Var(Variable),
    Neq(Neq),
    /// The empty node a production starts from before parsing populates it;
    /// doubles as the void literal.
    Void,
}

/// Well-formedness of a whole parsed expression tree: every operator
/// application in it relates operands of one type, and every text literal in
/// it alternates raw segments and embedded expressions, holding exactly one
/// segment more than expressions. Every successful parse returns a
/// well-formed tree.
pub open spec fn expr_wf(e: Expr) -> bool
    decreases e,
{
    match e {
        Expr::Neq(n) => (*n.left).resolved_type() == (*n.right).resolved_type() && expr_wf(
            *n.left,
        ) && expr_wf(*n.right),
        Expr::Text(t) => t.strings@.len() == t.interps@.len() + 1 && (forall|i: int|
            0 <= i < t.interps@.len() ==> expr_wf(#[trigger] t.interps@[i])),
        _ => true,
    }
}

/// A single-token operand: a literal in one token, or a declared name.
pub open spec fn simple_operand_word(w: Seq<char>, frames: Seq<Vec<Vec<char>>>) -> bool {
    ||| is_bool_word(w)
    ||| is_number_word(w)
    ||| is_wrapped_word(w, '"')
    ||| (is_ident_word(w) && !is_bool_word(w) && name_visible(frames, w))
}

/// The type a single-token operand resolves to, fixed by the lexeme alone:
/// text literals and variables both resolve to text.
pub open spec fn simple_operand_type(w: Seq<char>) -> Type {
    if is_bool_word(w) {
        Type::Bool
    } else if is_number_word(w) {
        Type::Num
    } else {
        Type::Text
    }
}

impl Typed for Expr {
    open spec fn resolved_type(&self) -> Type {
        match self {
            Expr::Bool(_) => Type::Bool,
            Expr::Number(_) => Type::Num,
            Expr::Text(_) => Type::Text,
            Expr::Var(_) => Type::Text,
            Expr::Neq(_) => Type::Bool,
            Expr::Void => Type::Void,
        }
    }

    fn get_type(&self) -> (t: Type) {
        match self {
            Expr::Bool(_) => Type::Bool,
            Expr::Number(_) => Type::Num,
            Expr::Text(_) => Type::Text,
            Expr::Var(_) => Type::Text,
            Expr::Neq(_) => Type::Bool,
            Expr::Void => Type::Void,
        }
    }
}

impl Expr {
    pub fn new() -> (e: Expr)
        ensures
            e == Expr::Void,
    {
        Expr::Void
    }

    /// Parses one full expression. The binary-operator production is tried
    /// first; when it fails for a syntactic reason the saved cursor position
    /// is restored and a single-operand expression is parsed instead. A type
    /// mismatch is a semantic failure of an already-recognized operator
    /// application and propagates unchanged.
    pub fn parse(&mut self, meta: &mut ParserMetadata) -> (r: Result<(), ErrorDetails>)
        requires
            old(meta).wf(),
        ensures
            final(meta).wf(),
            final(meta).tokens == old(meta).tokens,
            final(meta).var_mem == old(meta).var_mem,
            r matches Ok(()) ==> old(meta).index < final(meta).index <= final(
            meta).tokens@.len() && expr_wf(*final(self)),
            r matches Err(e) ==> valid_mismatch_error(e),
            old(meta).index + 1 == old(meta).tokens@.len() && is_number_word(
                old(meta).tokens@[old(meta).index as int].word@,
            ) ==> (r matches Ok(()) && (*final(self)) is Number && final(meta).index == final(
            meta).tokens@.len()),
            old(meta).index + 1 == old(meta).tokens@.len() && is_wrapped_word(
                old(meta).tokens@[old(meta).index as int].word@,
                '"',
            ) ==> (r matches Ok(()) && (*final(self)) is Text && final(meta).index == final(
            meta).tokens@.len()),
            old(meta).index < old(meta).tokens@.len() && is_ident_word(
                old(meta).tokens@[old(meta).index as int].word@,
            ) && !is_bool_word(old(meta).tokens@[old(meta).index as int].word@)
                && name_visible(
                old(meta).var_mem.frames@,
                old(meta).tokens@[old(meta).index as int].word@,
            ) && (old(meta).index + 1 >= old(meta).tokens@.len() || old(meta).tokens@[old(
                meta,
            ).index + 1].word@ != seq!['!', '=']) ==> (r matches Ok(()) && (*final(self))
                is Var && (*final(self))->Var_0.name@ == old(meta).tokens@[old(
                meta,
            ).index as int].word@ && final(meta).index == old(meta).index + 1),
            old(meta).index + 1 == old(meta).tokens@.len() && simple_operand_word(
                old(meta).tokens@[old(meta).index as int].word@,
                old(meta).var_mem.frames@,
            ) ==> (r matches Ok(()) && (*final(self)).resolved_type() == simple_operand_type(
                old(meta).tokens@[old(meta).index as int].word@,
            ) && final(meta).index == final(meta).tokens@.len()),
            old(meta).index + 3 == old(meta).tokens@.len() && simple_operand_word(
                old(meta).tokens@[old(meta).index as int].word@,
                old(meta).var_mem.frames@,
            ) && old(meta).tokens@[old(meta).index + 1].word@ == seq!['!', '=']
                && simple_operand_word(
                old(meta).tokens@[old(meta).index + 2].word@,
                old(meta).var_mem.frames@,
            ) && simple_operand_type(old(meta).tokens@[old(meta).index as int].word@)
                == simple_operand_type(old(meta).tokens@[old(meta).index + 2].word@) ==> (r
            matches Ok(()) && (*final(self)) is Neq && (*final(self)).resolved_type()
                == Type::Bool && final(meta).index == final(meta).tokens@.len()),
            old(meta).index + 3 == old(meta).tokens@.len() && simple_operand_word(
                old(meta).tokens@[old(meta).index as int].word@,
                old(meta).var_mem.frames@,
            ) && old(meta).tokens@[old(meta).index + 1].word@ == seq!['!', '=']
                && simple_operand_word(
                old(meta).tokens@[old(meta).index + 2].word@,
                old(meta).var_mem.frames@,
            ) && simple_operand_type(old(meta).tokens@[old(meta).index as int].word@)
                != simple_operand_type(old(meta).tokens@[old(meta).index + 2].word@) ==> (r
            matches Err(e) && e.kind == ErrorKind::TypeMismatch(
                simple_operand_type(old(meta).tokens@[old(meta).index as int].word@),
                simple_operand_type(old(meta).tokens@[old(meta).index + 2].word@),
            ) && e.position == Some(old(meta).tokens@[old(meta).index + 1].pos)),
        decreases meta.tokens@.len() - meta.index, 4int,
    {
        proof {
            let toks = old(meta).tokens@;
            if old(meta).index < toks.len() {
                let cw = toks[old(meta).index as int].word@;
                if is_ident_word(cw) {
                    assert(is_ident_char(cw[0]));
                }
                if is_number_word(cw) {
                    assert(is_digit(cw[0]));
                }
            }
        }
        let start = meta.get_index();
        let mut neq = Neq::new();
        match neq.parse(meta) {
            Ok(()) => {
                *self = Expr::Neq(neq);
                Ok(())
            },
            Err(e) => {
                let semantic = match e.kind {
                    ErrorKind::TypeMismatch(_, _) => true,
                    _ => false,
                };
                if semantic {
                    return Err(e);
                }
                meta.set_index(start);
                parse_left_expr(meta, self)
            },
        }
    }
}

/// Shared left-operand parsing: recognizes one single-operand expression by
/// dispatching on the current token to whichever concrete production matches
/// it, without consuming any operator that may follow. Binary operators call
/// it for their left side; `Expr::parse` falls back to it when no operator
/// application is recognized.
pub fn parse_left_expr(meta: &mut ParserMetadata, left: &mut Expr) -> (r: Result<
    (),
    ErrorDetails,
>)
    requires
        old(meta).wf(),
    ensures
        final(meta).wf(),
        final(meta).tokens == old(meta).tokens,
        final(meta).var_mem == old(meta).var_mem,
        r matches Ok(()) ==> old(meta).index < final(meta).index <= final(meta).tokens@.len()
            && expr_wf(*final(left)),
        r matches Err(e) ==> valid_mismatch_error(e),
        old(meta).index >= old(meta).tokens@.len() ==> (r matches Err(e) && e.kind
            is EndOfInput),
        old(meta).index < old(meta).tokens@.len() && is_bool_word(
            old(meta).tokens@[old(meta).index as int].word@,
        ) ==> (r matches Ok(()) && (*final(left)) is Bool && (*final(left))->Bool_0.value
            == is_true_word(old(meta).tokens@[old(meta).index as int].word@) && final(
        meta).index == old(meta).index + 1),
        old(meta).index < old(meta).tokens@.len() && is_number_word(
            old(meta).tokens@[old(meta).index as int].word@,
        ) ==> (r matches Ok(()) && (*final(left)) is Number && (*final(left))->Number_0.word@
            == old(meta).tokens@[old(meta).index as int].word@ && final(meta).index == old(
        meta).index + 1),
        old(meta).index < old(meta).tokens@.len() && is_wrapped_word(
            old(meta).tokens@[old(meta).index as int].word@,
            '"',
        ) ==> (r matches Ok(()) && (*final(left)) is Text && (*final(
        left))->Text_0.strings@.len() == 1 && (*final(left))->Text_0.strings@[0]@ == inner_of(
            old(meta).tokens@[old(meta).index as int].word@,
        ) && (*final(left))->Text_0.interps@.len() == 0 && final(meta).index == old(
        meta).index + 1),
        old(meta).index < old(meta).tokens@.len() && is_ident_word(
            old(meta).tokens@[old(meta).index as int].word@,
        ) && !is_bool_word(old(meta).tokens@[old(meta).index as int].word@) && name_visible(
            old(meta).var_mem.frames@,
            old(meta).tokens@[old(meta).index as int].word@,
        ) ==> (r matches Ok(()) && (*final(left)) is Var && (*final(left))->Var_0.name@ == old(
        meta).tokens@[old(meta).index as int].word@ && final(meta).index == old(
        meta).index + 1),
        old(meta).index < old(meta).tokens@.len() && !is_bool_word(
            old(meta).tokens@[old(meta).index as int].word@,
        ) && !is_number_word(old(meta).tokens@[old(meta).index as int].word@)
            && !starts_with_letter(old(meta).tokens@[old(meta).index as int].word@, '"')
            && !is_ident_word(old(meta).tokens@[old(meta).index as int].word@) ==> (r matches
        Err(e) && e.kind is UnexpectedToken && e.position == Some(
            old(meta).tokens@[old(meta).index as int].pos,
        )),
    decreases meta.tokens@.len() - meta.index, 2int,
{
    let mut has_token = false;
    let mut is_b = false;
    let mut is_n = false;
    let mut is_t = false;
    let mut is_v = false;
    let mut pos: usize = 0;
    match meta.get_current_token() {
        None => {},
        Some(tok) => {
            has_token = true;
            pos = tok.pos;
            is_b = word_is_true(&tok.word) || word_is_false(&tok.word);
            is_n = word_is_number(&tok.word);
            is_t = tok.word.len() >= 1 && tok.word[0] == '"';
            is_v = word_is_ident(&tok.word);
        },
    }
    if !has_token {
        return Err(ErrorDetails::new(ErrorKind::EndOfInput, None));
    }
    if is_b {
        let mut lit = BoolLit::new();
        match lit.parse(meta) {
            Err(e) => Err(e),
            Ok(()) => {
                *left = Expr::Bool(lit);
                Ok(())
            },
        }
    } else if is_n {
        let mut lit = NumberLit::new();
        match lit.parse(meta) {
            Err(e) => Err(e),
            Ok(()) => {
                *left = Expr::Number(lit);
                Ok(())
            },
        }
    } else if is_t {
        let mut lit = TextLit::new();
        match lit.parse(meta) {
            Err(e) => Err(e),
            Ok(()) => {
                *left = Expr::Text(lit);
                Ok(())
            },
        }
    } else if is_v {
        let mut var = Variable::new();
        match var.parse(meta) {
            Err(e) => Err(e),
            Ok(()) => {
                *left = Expr::Var(var);
                Ok(())
            },
        }
    } else {
        Err(ErrorDetails::new(ErrorKind::UnexpectedToken, Some(pos)))
    }
}

} // verus!
