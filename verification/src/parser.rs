//! The parser: from tokens to operations.

use vstd::prelude::*;
use vstd::string::*;
use crate::diagnostic::{Diagnostic, DiagnosticModel, diagnostics_of, error_at, push_diagnostic};
use crate::lexer::{Token, TokenKind, tokens_of};
use crate::lexer_model::TokenShape;
pub use crate::ops::{Op, OpKind};
use crate::ops::{OpModel, OpShape, op_models, op_shape, placed_names, push_op};
use crate::parser_model::{
    Parsed, ParsedItems, all_names, closer, first_non_value, joined, names_in, parse_at,
    parse_block_at, parse_bracket_at, parse_from, parse_items, single_token_shape,
};
use crate::span::Span;

verus! {

/// The mathematical form of an optional operation.
pub open spec fn optional_op(op: Option<Op>) -> Option<OpModel> {
    match op {
        Some(op) => Some(op@),
        None => None,
    }
}

/// The span from the start of `start` to the end of `end`, and `start` itself where
/// `end` starts before it or the length does not fit.
pub fn join(start: Span, end: Span) -> (r: Span)
    ensures
        r == joined(start, end),
{
    if start.offset <= end.offset && end.length <= usize::MAX - (end.offset - start.offset) {
        Span::from_to(start, end)
    } else {
        start
    }
}

/// What the operation written as a single token does, for the tokens that are
/// operations by themselves.
fn single_token_kind(kind: &TokenKind) -> (r: Option<OpKind>)
    ensures
        match r {
            Some(k) => single_token_shape(kind@) == Some(op_shape(k)),
            None => single_token_shape(kind@) is None,
        },
{
    match kind {
        TokenKind::BoolLiteral(v) => Some(OpKind::PushBool(*v)),
        TokenKind::IntLiteral(v) => Some(OpKind::PushInt(*v)),
        TokenKind::Plus => Some(OpKind::Plus),
        TokenKind::Minus => Some(OpKind::Minus),
        TokenKind::Star => Some(OpKind::Multiply),
        TokenKind::Slash => Some(OpKind::Divide),
        TokenKind::Percent => Some(OpKind::Modulo),
        TokenKind::OpenAngle => Some(OpKind::LessThan),
        TokenKind::OpenAngleEquals => Some(OpKind::LessThanEquals),
        TokenKind::CloseAngle => Some(OpKind::GreaterThan),
        TokenKind::CloseAngleEquals => Some(OpKind::GreaterThanEquals),
        TokenKind::Equals => Some(OpKind::Equals),
        TokenKind::Bang => Some(OpKind::Not),
        TokenKind::Dot => Some(OpKind::Identity),
        TokenKind::AndKeyword => Some(OpKind::And),
        TokenKind::OrKeyword => Some(OpKind::Or),
        TokenKind::DupKeyword => Some(OpKind::Dup),
        TokenKind::OverKeyword => Some(OpKind::Over),
        TokenKind::PopKeyword => Some(OpKind::Pop),
        TokenKind::SwapKeyword => Some(OpKind::Swap),
        TokenKind::RotKeyword => Some(OpKind::Rot),
        TokenKind::PrintKeyword => Some(OpKind::Print),
        TokenKind::ConcatKeyword => Some(OpKind::Concat),
        TokenKind::PushKeyword => Some(OpKind::Push),
        TokenKind::HeadKeyword => Some(OpKind::Head),
        TokenKind::TailKeyword => Some(OpKind::Tail),
        TokenKind::DoKeyword => Some(OpKind::Do),
        TokenKind::FilterKeyword => Some(OpKind::Filter),
        TokenKind::FoldKeyword => Some(OpKind::Fold),
        TokenKind::ForeachKeyword => Some(OpKind::Foreach),
        TokenKind::LenKeyword => Some(OpKind::Len),
        TokenKind::MapKeyword => Some(OpKind::MapEach),
        TokenKind::TripleQuestion => Some(OpKind::DumpStack),
        TokenKind::Identifier(name) => Some(OpKind::Identifier(name.clone())),
        _ => None,
    }
}

/// Whether `kind` is the bracket that closes a list, for `square`, or a block.
fn is_closer(kind: &TokenKind, square: bool) -> (r: bool)
    ensures
        r == (kind@ == closer(square)),
{
    match kind {
        TokenKind::CloseSquare => square,
        TokenKind::CloseParenthesis => !square,
        _ => false,
    }
}

/// Whether `kind` is the word `else`.
fn is_else(kind: &TokenKind) -> (r: bool)
    ensures
        r == (kind@ == TokenShape::Identifier("else"@)),
{
    match kind {
        TokenKind::Identifier(name) => {
            let word = String::from_str("else");
            name.eq(&word)
        },
        _ => false,
    }
}

/// Whether `ops` are all references to names.
fn only_names(ops: &Vec<Op>) -> (r: bool)
    ensures
        r == all_names(op_models(ops@), ops@.len()),
{
    let mut k: usize = 0;
    while k < ops.len()
        invariant
            k <= ops.len(),
            all_names(op_models(ops@), k as nat),
        decreases ops.len() - k,
    {
        match &ops[k].kind {
            OpKind::Identifier(_) => {},
            _ => {
                assert(!(op_models(ops@)[k as int].kind is Identifier));
                assert(!all_names(op_models(ops@), (k + 1) as nat));
                proof {
                    if all_names(op_models(ops@), ops@.len()) {
                        lemma_all_names_prefix(op_models(ops@), (k + 1) as nat, ops@.len() as nat);
                    }
                }
                return false;
            },
        }
        k += 1;
    }
    true
}

/// Where the first `n` of `ops` are all names, so are the first `k` of them.
proof fn lemma_all_names_prefix(ops: Seq<OpModel>, k: nat, n: nat)
    requires
        k <= n <= ops.len(),
        all_names(ops, n),
    ensures
        all_names(ops, k),
    decreases n,
{
    if k < n {
        lemma_all_names_prefix(ops, k, (n - 1) as nat);
    }
}

/// The names that `ops`, all references to names, refer to, each with its place.
fn names_with_places(ops: &Vec<Op>) -> (r: Vec<(String, Span)>)
    ensures
        placed_names(r@) == names_in(op_models(ops@)),
{
    let mut names: Vec<(String, Span)> = Vec::new();
    let mut k: usize = 0;
    while k < ops.len()
        invariant
            k <= ops.len(),
            names@.len() == k,
            forall|j: int|
                0 <= j < k ==> (names@[j].0@, names@[j].1) == names_in(op_models(ops@))[j],
        decreases ops.len() - k,
    {
        let name = match &ops[k].kind {
            OpKind::Identifier(name) => name.clone(),
            _ => String::new(),
        };
        names.push((name, ops[k].span));
        k += 1;
    }
    assert(placed_names(names@) =~= names_in(op_models(ops@)));
    names
}

/// The position of the first of `ops` that may not stand in a list.
fn find_non_value(ops: &Vec<Op>) -> (r: Option<usize>)
    ensures
        match first_non_value(op_models(ops@), 0) {
            Some(k) => r == Some(k as usize) && k < ops@.len(),
            None => r is None,
        },
{
    let mut k: usize = 0;
    while k < ops.len()
        invariant
            k <= ops.len(),
            first_non_value(op_models(ops@), 0) == first_non_value(op_models(ops@), k as nat),
        decreases ops.len() - k,
    {
        match &ops[k].kind {
            OpKind::PushBool(_) => {},
            OpKind::PushInt(_) => {},
            OpKind::PushList(_) => {},
            OpKind::PushBlock(_) => {},
            OpKind::Identifier(_) => {},
            _ => {
                return Some(k);
            },
        }
        k += 1;
    }
    None
}

/// The parser: it turns tokens into operations and collects the errors it finds.
pub struct Parser {
    pub cursor: usize,
    pub diagnostics: Vec<Diagnostic>,
}

/// Whether `r`, with the parser `after`, is what `wanted` says.
pub open spec fn parsed_as(r: Option<Op>, after: Parser, wanted: Parsed) -> bool {
    &&& optional_op(r) == wanted.op
    &&& after.cursor == wanted.next
    &&& diagnostics_of(after.diagnostics@) == wanted.diagnostics
}

impl Parser {
    /// A parser at the first token, with no diagnostics.
    pub fn new() -> (r: Parser)
        ensures
            r.cursor == 0,
            diagnostics_of(r.diagnostics@) == Seq::<DiagnosticModel>::empty(),
    {
        let r = Parser { cursor: 0, diagnostics: Vec::new() };
        assert(diagnostics_of(r.diagnostics@) =~= Seq::<DiagnosticModel>::empty());
        r
    }

    /// Reports `message` at `span`.
    fn report(&mut self, message: &str, span: Span)
        ensures
            final(self).cursor == old(self).cursor,
            diagnostics_of(final(self).diagnostics@) == diagnostics_of(old(self).diagnostics@).push(
                error_at(message@, span),
            ),
    {
        push_diagnostic(
            &mut self.diagnostics,
            Diagnostic::report_error(String::from_str(message), span),
        );
    }

    /// The operations of a program, from the parser's position on. Parsing ends at
    /// the end of the tokens and after the first error.
    pub fn parse(&mut self, tokens: &Vec<Token>) -> (ops: Vec<Op>)
        ensures
            (ParsedItems {
                items: Some(op_models(ops@)),
                next: final(self).cursor as nat,
                diagnostics: diagnostics_of(final(self).diagnostics@),
            }) == parse_from(
                tokens_of(tokens@),
                old(self).cursor as nat,
                Seq::empty(),
                diagnostics_of(old(self).diagnostics@),
            ),
    {
        let ghost ts = tokens_of(tokens@);
        let ghost first = self.cursor as nat;
        let ghost given = diagnostics_of(self.diagnostics@);
        let mut ops: Vec<Op> = Vec::new();
        assert(op_models(ops@) =~= Seq::<OpModel>::empty());
        loop
            invariant_except_break
                parse_from(ts, first, Seq::empty(), given) == parse_from(
                    ts,
                    self.cursor as nat,
                    op_models(ops@),
                    diagnostics_of(self.diagnostics@),
                ),
            invariant
                ts == tokens_of(tokens@),
            ensures
                (ParsedItems {
                    items: Some(op_models(ops@)),
                    next: self.cursor as nat,
                    diagnostics: diagnostics_of(self.diagnostics@),
                }) == parse_from(ts, first, Seq::empty(), given),
            decreases tokens@.len() - self.cursor,
        {
            match self.parse_op(tokens) {
                Some(op) => {
                    push_op(&mut ops, op);
                },
                None => {
                    break;
                },
            }
        }
        ops
    }

    /// The operation that starts at the parser's position; `None` at the end of the
    /// tokens and after an error.
    pub fn parse_op(&mut self, tokens: &Vec<Token>) -> (r: Option<Op>)
        ensures
            parsed_as(
                r,
                *final(self),
                parse_at(
                    tokens_of(tokens@),
                    old(self).cursor as nat,
                    diagnostics_of(old(self).diagnostics@),
                ),
            ),
            old(self).cursor < tokens@.len() ==> old(self).cursor < final(self).cursor
                <= tokens@.len(),
            old(self).cursor >= tokens@.len() ==> r is None,
        decreases tokens@.len() - old(self).cursor, 0nat,
    {
        if self.cursor >= tokens.len() {
            return None;
        }
        let start: usize = self.cursor;
        let span: Span = tokens[start].span;
        self.cursor = start + 1;
        match &tokens[start].kind {
            TokenKind::OpenParenthesis => self.parse_block(span, tokens),
            TokenKind::CloseParenthesis => {
                self.report("unexpected token ')'", span);
                None
            },
            TokenKind::CloseSquare => {
                self.report("unexpected token ']'", span);
                None
            },
            TokenKind::ChoiceKeyword => {
                self.report("unexpected token 'choice'", span);
                None
            },
            TokenKind::Error(_) => None,
            TokenKind::OpenSquare => self.parse_bracket(span, tokens),
            TokenKind::FnKeyword => self.parse_definition(span, tokens),
            TokenKind::IfKeyword => self.parse_if(span, tokens),
            _ => match single_token_kind(&tokens[start].kind) {
                Some(kind) => Some(Op { kind, span }),
                None => None,
            },
        }
    }

    /// The definition of a function, whose `fn`, with the span `span`, stands just
    /// before the parser's position.
    fn parse_definition(&mut self, span: Span, tokens: &Vec<Token>) -> (r: Option<Op>)
        requires
            1 <= old(self).cursor <= tokens@.len(),
            tokens@[old(self).cursor - 1]@ == (crate::lexer_model::TokenModel { kind: TokenShape::FnKeyword, span }),
        ensures
            parsed_as(
                r,
                *final(self),
                parse_at(
                    tokens_of(tokens@),
                    (old(self).cursor - 1) as nat,
                    diagnostics_of(old(self).diagnostics@),
                ),
            ),
            old(self).cursor <= final(self).cursor <= tokens@.len(),
        decreases tokens@.len() - old(self).cursor, 3nat,
    {
        let (name, name_span) = match self.expect_identifier(tokens, span) {
            Some(found) => found,
            None => {
                return None;
            },
        };
        let open = match self.expect_token(tokens, span) {
            Some(found) => found,
            None => {
                return None;
            },
        };
        match self.parse_block_parts(open, tokens) {
            Some((body, block_span)) => Some(
                Op { kind: OpKind::DefineFunction { name, body }, span: join(name_span, block_span) },
            ),
            None => None,
        }
    }

    /// An `if`, whose keyword, with the span `span`, stands just before the parser's
    /// position.
    fn parse_if(&mut self, span: Span, tokens: &Vec<Token>) -> (r: Option<Op>)
        requires
            1 <= old(self).cursor <= tokens@.len(),
            tokens@[old(self).cursor - 1]@ == (crate::lexer_model::TokenModel { kind: TokenShape::IfKeyword, span }),
        ensures
            parsed_as(
                r,
                *final(self),
                parse_at(
                    tokens_of(tokens@),
                    (old(self).cursor - 1) as nat,
                    diagnostics_of(old(self).diagnostics@),
                ),
            ),
            old(self).cursor <= final(self).cursor <= tokens@.len(),
        decreases tokens@.len() - old(self).cursor, 3nat,
    {
        let open = match self.expect_token(tokens, span) {
            Some(found) => found,
            None => {
                return None;
            },
        };
        let (body, body_span) = match self.parse_block_parts(open, tokens) {
            Some(found) => found,
            None => {
                return None;
            },
        };
        if self.cursor < tokens.len() && is_else(&tokens[self.cursor].kind) {
            self.cursor = self.cursor + 1;
            let else_open = match self.expect_token(tokens, span) {
                Some(found) => found,
                None => {
                    return None;
                },
            };
            match self.parse_block_parts(else_open, tokens) {
                Some((else_body, else_span)) => Some(
                    Op {
                        kind: OpKind::If { body, else_body: Some(else_body) },
                        span: join(span, else_span),
                    },
                ),
                None => None,
            }
        } else {
            Some(Op { kind: OpKind::If { body, else_body: None }, span: join(span, body_span) })
        }
    }

    /// The name at the parser's position, with its place; reports at `span` where
    /// there is none.
    fn expect_identifier(&mut self, tokens: &Vec<Token>, span: Span) -> (r: Option<
        (String, Span),
    >)
        ensures
            old(self).cursor >= tokens@.len() ==> r is None && final(self).cursor == old(self).cursor && diagnostics_of(final(self).diagnostics@) == diagnostics_of(
                old(self).diagnostics@,
            ).push(error_at("Expected identifier but got nothing"@, span)),
            old(self).cursor < tokens@.len() ==> final(self).cursor == old(self).cursor + 1,
            old(self).cursor < tokens@.len() && tokens@[old(self).cursor as int].kind is Identifier
                ==> final(self).diagnostics == old(self).diagnostics && match r {
                Some((name, place)) => tokens@[old(self).cursor as int]@.kind
                    == TokenShape::Identifier(name@) && place == tokens@[old(self).cursor as int].span,
                None => false,
            },
            old(self).cursor < tokens@.len() && !(tokens@[old(self).cursor as int].kind
                is Identifier) ==> r is None && diagnostics_of(final(self).diagnostics@)
                == diagnostics_of(old(self).diagnostics@).push(
                error_at("Expected identifier"@, span),
            ),
    {
        if self.cursor >= tokens.len() {
            self.report("Expected identifier but got nothing", span);
            return None;
        }
        let at: usize = self.cursor;
        self.cursor = at + 1;
        match &tokens[at].kind {
            TokenKind::Identifier(name) => Some((name.clone(), tokens[at].span)),
            _ => {
                self.report("Expected identifier", span);
                None
            },
        }
    }

    /// The place of the `(` at the parser's position; reports at `span` where there
    /// is none.
    fn expect_token(&mut self, tokens: &Vec<Token>, span: Span) -> (r: Option<Span>)
        ensures
            old(self).cursor >= tokens@.len() ==> r is None && final(self).cursor == old(self).cursor && diagnostics_of(final(self).diagnostics@) == diagnostics_of(
                old(self).diagnostics@,
            ).push(error_at("Expected '(' but got nothing"@, span)),
            old(self).cursor < tokens@.len() ==> final(self).cursor == old(self).cursor + 1,
            old(self).cursor < tokens@.len() && tokens@[old(self).cursor as int].kind
                is OpenParenthesis ==> r == Some(tokens@[old(self).cursor as int].span) && final(self).diagnostics == old(self).diagnostics,
            old(self).cursor < tokens@.len() && !(tokens@[old(self).cursor as int].kind
                is OpenParenthesis) ==> r is None && diagnostics_of(final(self).diagnostics@)
                == diagnostics_of(old(self).diagnostics@).push(error_at("Expected '('"@, span)),
    {
        if self.cursor >= tokens.len() {
            self.report("Expected '(' but got nothing", span);
            return None;
        }
        let at: usize = self.cursor;
        self.cursor = at + 1;
        match &tokens[at].kind {
            TokenKind::OpenParenthesis => Some(tokens[at].span),
            _ => {
                self.report("Expected '('", span);
                None
            },
        }
    }

    /// The operations from the parser's position on up to the closing bracket, a
    /// square one for `square`, or the end of the tokens; `None` after an error.
    fn parse_between(&mut self, tokens: &Vec<Token>, square: bool) -> (r: Option<Vec<Op>>)
        requires
            old(self).cursor <= tokens@.len(),
        ensures
            (ParsedItems {
                items: match r {
                    Some(ops) => Some(op_models(ops@)),
                    None => None,
                },
                next: final(self).cursor as nat,
                diagnostics: diagnostics_of(final(self).diagnostics@),
            }) == parse_items(
                tokens_of(tokens@),
                old(self).cursor as nat,
                square,
                Seq::empty(),
                diagnostics_of(old(self).diagnostics@),
            ),
            old(self).cursor <= final(self).cursor <= tokens@.len(),
        decreases tokens@.len() - old(self).cursor, 1nat,
    {
        let ghost ts = tokens_of(tokens@);
        let ghost first = self.cursor as nat;
        let ghost given = diagnostics_of(self.diagnostics@);
        let mut ops: Vec<Op> = Vec::new();
        assert(op_models(ops@) =~= Seq::<OpModel>::empty());
        while self.cursor < tokens.len() && !is_closer(&tokens[self.cursor].kind, square)
            invariant
                ts == tokens_of(tokens@),
                first == old(self).cursor,
                given == diagnostics_of(old(self).diagnostics@),
                first <= self.cursor <= tokens@.len(),
                parse_items(ts, first, square, Seq::empty(), given) == parse_items(
                    ts,
                    self.cursor as nat,
                    square,
                    op_models(ops@),
                    diagnostics_of(self.diagnostics@),
                ),
            decreases tokens@.len() - self.cursor,
        {
            match self.parse_op(tokens) {
                Some(op) => {
                    push_op(&mut ops, op);
                },
                None => {
                    return None;
                },
            }
        }
        Some(ops)
    }

    /// The body of a block whose `(`, with the span `open`, stands just before the
    /// parser's position, and the span of the whole block.
    fn parse_block_parts(&mut self, open: Span, tokens: &Vec<Token>) -> (r: Option<(Vec<Op>, Span)>)
        requires
            old(self).cursor <= tokens@.len(),
        ensures
            ({
                let wanted = parse_block_at(
                    tokens_of(tokens@),
                    old(self).cursor as nat,
                    open,
                    diagnostics_of(old(self).diagnostics@),
                );
                &&& final(self).cursor == wanted.next
                &&& diagnostics_of(final(self).diagnostics@) == wanted.diagnostics
                &&& match r {
                    Some((ops, span)) => wanted.op == Some(
                        OpModel { kind: OpShape::PushBlock(op_models(ops@)), span },
                    ),
                    None => wanted.op is None,
                }
            }),
            old(self).cursor <= final(self).cursor <= tokens@.len(),
            r is Some ==> old(self).cursor < final(self).cursor,
        decreases tokens@.len() - old(self).cursor, 2nat,
    {
        let ops = match self.parse_between(tokens, false) {
            Some(ops) => ops,
            None => {
                return None;
            },
        };
        if self.cursor >= tokens.len() {
            let last = if ops.len() > 0 {
                ops[ops.len() - 1].span
            } else {
                open
            };
            self.report("Block missing closing ')'", join(open, last));
            return None;
        }
        let close: Span = tokens[self.cursor].span;
        self.cursor = self.cursor + 1;
        Some((ops, join(open, close)))
    }

    /// The block whose `(`, with the span `open`, stands just before the parser's
    /// position.
    fn parse_block(&mut self, open: Span, tokens: &Vec<Token>) -> (r: Option<Op>)
        requires
            old(self).cursor <= tokens@.len(),
        ensures
            parsed_as(
                r,
                *final(self),
                parse_block_at(
                    tokens_of(tokens@),
                    old(self).cursor as nat,
                    open,
                    diagnostics_of(old(self).diagnostics@),
                ),
            ),
            old(self).cursor <= final(self).cursor <= tokens@.len(),
        decreases tokens@.len() - old(self).cursor, 3nat,
    {
        match self.parse_block_parts(open, tokens) {
            Some((ops, span)) => Some(Op { kind: OpKind::PushBlock(ops), span }),
            None => None,
        }
    }

    /// The list or binding whose `[`, with the span `open`, stands just before the
    /// parser's position.
    fn parse_bracket(&mut self, open: Span, tokens: &Vec<Token>) -> (r: Option<Op>)
        requires
            old(self).cursor <= tokens@.len(),
        ensures
            parsed_as(
                r,
                *final(self),
                parse_bracket_at(
                    tokens_of(tokens@),
                    old(self).cursor as nat,
                    open,
                    diagnostics_of(old(self).diagnostics@),
                ),
            ),
            old(self).cursor <= final(self).cursor <= tokens@.len(),
        decreases tokens@.len() - old(self).cursor, 3nat,
    {
        let elements = match self.parse_between(tokens, true) {
            Some(ops) => ops,
            None => {
                return None;
            },
        };
        if self.cursor >= tokens.len() {
            let last = if elements.len() > 0 {
                elements[elements.len() - 1].span
            } else {
                open
            };
            self.report("List missing closing ']'", join(open, last));
            return None;
        }
        let close: Span = tokens[self.cursor].span;
        self.cursor = self.cursor + 1;
        let is_binding = elements.len() > 0 && only_names(&elements) && self.cursor < tokens.len()
            && match &tokens[self.cursor].kind {
            TokenKind::OpenParenthesis => true,
            _ => false,
        };
        if is_binding {
            let block_open: Span = tokens[self.cursor].span;
            self.cursor = self.cursor + 1;
            match self.parse_block_parts(block_open, tokens) {
                Some((body, block_span)) => Some(
                    Op {
                        kind: OpKind::Binding { bindings: names_with_places(&elements), body },
                        span: join(open, block_span),
                    },
                ),
                None => None,
            }
        } else {
            match find_non_value(&elements) {
                Some(k) => {
                    self.report("Only values can stand in a list", elements[k].span);
                    None
                },
                None => Some(Op { kind: OpKind::PushList(elements), span: join(open, close) }),
            }
        }
    }
}

} // verus!
