//! The parser only adds to what it has emitted: an expression leaves the
//! instructions that stood before it where they were.
use vstd::prelude::*;
use crate::compiler::grammar::{Failure, Parsed, ParserView};
use crate::compiler::rules::{infix_of, precedence_of, prefix_of, InfixRule, Precendence, PrefixRule};
use crate::compiler::scanner::scan_progress;
use crate::compiler::token::TokenType;
use crate::instructions::define::DefinitionScope;
use crate::instructions::instructions::InstructionView;

verus! {

/// Whether the chunk being compiled into has a length that can be counted.
pub open spec fn countable(p: ParserView) -> bool {
    p.chunks.last().code.len() <= usize::MAX
}

/// Whether `q` has as many chunks as `p`.
pub open spec fn level(p: ParserView, q: ParserView) -> bool {
    q.chunks.len() == p.chunks.len()
}

/// Whether the chunk being compiled into in `q` starts with the first
/// `base` instructions of that chunk in `p`.
pub open spec fn keeps(p: ParserView, q: ParserView, base: int) -> bool {
    &&& base <= p.chunks.last().code.len()
    &&& base <= q.chunks.last().code.len()
    &&& q.chunks.last().code.subrange(0, base) == p.chunks.last().code.subrange(0, base)
}

/// Whether `q` has grown out of `p`: the chunk being compiled into in `q`
/// starts with that chunk in `p`.
pub open spec fn grown(p: ParserView, q: ParserView) -> bool {
    keeps(p, q, p.chunks.last().code.len() as int)
}

/// Whether a step from `p` to `q` only added to the chunk, as far as the
/// chunk's length can be counted; and left the number of chunks alone.
pub open spec fn added(p: ParserView, r: Parsed) -> bool {
    match r {
        Ok(q) => level(p, q) && (countable(q) ==> grown(p, q)),
        Err(_) => true,
    }
}

/// Proves that growing is transitive.
pub proof fn grown_twice(p: ParserView, q: ParserView, r: ParserView)
    requires
        grown(p, q),
        grown(q, r),
    ensures
        grown(p, r),
{
    let n = p.chunks.last().code.len() as int;
    let m = q.chunks.last().code.len() as int;
    let a = p.chunks.last().code;
    let b = q.chunks.last().code;
    let c = r.chunks.last().code;
    assert(a.subrange(0, n) =~= a);
    assert(b.subrange(0, m) =~= b);
    assert(c.subrange(0, n) =~= c.subrange(0, m).subrange(0, n));
}

/// Proves that a state has grown out of itself, and out of any state with
/// the same chunks.
pub proof fn grown_from_same(p: ParserView, q: ParserView)
    requires
        q.chunks == p.chunks,
    ensures
        level(p, q),
        grown(p, q),
{
}

/// Proves that emitting adds to the chunk.
pub proof fn emitted_adds(p: ParserView, instruction: InstructionView)
    requires
        p.chunks.len() >= 1,
    ensures
        level(p, p.emitted(instruction)),
        grown(p, p.emitted(instruction)),
        p.emitted(instruction).chunks.last().code == p.chunks.last().code.push(instruction),
{
    let q = p.emitted(instruction);
    let a = p.chunks.last().code;
    assert(q.chunks.last().code == a.push(instruction));
    assert(a.push(instruction).subrange(0, a.len() as int) =~= a);
    assert(a.subrange(0, a.len() as int) =~= a);
}

/// Proves that taking a token leaves the chunks alone.
pub proof fn advanced_adds(p: ParserView)
    ensures
        p.advanced() is Ok ==> p.advanced()->Ok_0.chunks == p.chunks,
{
}

/// Proves that consuming a token leaves the chunks alone.
pub proof fn consumed_adds(p: ParserView, kind: TokenType)
    ensures
        p.consumed(kind) is Ok ==> p.consumed(kind)->Ok_0.chunks == p.chunks,
{
}

/// Proves that a literal adds to the chunk.
pub proof fn literal_adds(p: ParserView)
    requires
        p.chunks.len() >= 1,
    ensures
        added(p, p.literal()),
        added(p, p.number()),
        added(p, p.this()),
{
    if p.literal() is Ok {
        let value = crate::compiler::grammar::literal_value(p.previous->Some_0)->Some_0;
        emitted_adds(p, InstructionView::Constant(value));
    }
    if p.number() is Ok {
        let q = ParserView { used: (p.used + 1) as usize, ..p };
        emitted_adds(
            q,
            InstructionView::Constant(
                crate::values::values::ValueView::Number(p.numbers[p.used as int]),
            ),
        );
    }
    if p.this() is Ok {
        emitted_adds(p, InstructionView::This);
    }
}

/// Proves that the instructions of a binary operator add to the chunk.
pub proof fn operated_adds(p: ParserView, kind: TokenType)
    requires
        p.chunks.len() >= 1,
    ensures
        added(p, p.operated(kind)),
{
    if p.operated(kind) is Ok {
        let (op, negated) = crate::compiler::grammar::binary_operator(kind)->Some_0;
        let p1 = p.emitted(InstructionView::Binary(op));
        emitted_adds(p, InstructionView::Binary(op));
        if negated {
            emitted_adds(
                p1,
                InstructionView::Unary(crate::instructions::instructions::UnaryOp::Bang),
            );
            grown_twice(
                p,
                p1,
                p1.emitted(InstructionView::Unary(crate::instructions::instructions::UnaryOp::Bang)),
            );
        }
    }
}

/// Proves that the end of a call adds to the chunk.
pub proof fn call_closed_adds(p: ParserView, count: usize)
    requires
        p.chunks.len() >= 1,
    ensures
        added(p, p.call_closed(count)),
{
    if p.call_closed(count) is Ok {
        let p1 = p.consumed(TokenType::RIGHT_PAREN)->Ok_0;
        consumed_adds(p, TokenType::RIGHT_PAREN);
        grown_from_same(p, p1);
        let i = InstructionView::Call(count, p1.line as usize, p1.snippet());
        emitted_adds(p1, i);
        grown_twice(p, p1, p1.emitted(i));
    }
}

/// Proves that two steps that add, one after the other, add.
pub proof fn added_then(p: ParserView, q: ParserView, r: ParserView)
    requires
        level(p, q),
        countable(q) ==> grown(p, q),
        level(q, r),
        countable(r) ==> grown(q, r),
    ensures
        level(p, r),
        countable(r) ==> grown(p, r),
{
    if countable(r) {
        grown_twice(p, q, r);
    }
}

/// An expression adds to the chunk: the instructions that stood in the
/// chunk before it stand there after it, in their places.
pub proof fn parse_expr_adds(p: ParserView, prec: Precendence)
    requires
        p.chunks.len() >= 1,
    ensures
        added(p, p.parse_expr(prec)),
    decreases p.measure(), 1int,
{
    if p.parse_expr(prec) is Ok {
        let p1 = p.advanced()->Ok_0;
        let can_assign = prec.level() <= Precendence::Assignment.level();
        let rule = prefix_of(p.current.token_type)->Some_0;
        scan_progress(p.src, p.pos, p.line);
        advanced_adds(p);
        grown_from_same(p, p1);
        let p2 = p1.prefix(rule, can_assign)->Ok_0;
        prefix_adds(p1, rule, can_assign);
        let p3 = p2.infix_loop(prec, can_assign)->Ok_0;
        infix_loop_adds(p2, prec, can_assign);
        added_then(p1, p2, p3);
        added_then(p, p1, p3);
    }
}

/// The infix operators of an expression add to the chunk.
pub proof fn infix_loop_adds(p: ParserView, prec: Precendence, can_assign: bool)
    requires
        p.chunks.len() >= 1,
    ensures
        added(p, p.infix_loop(prec, can_assign)),
    decreases p.measure(), 0int,
{
    if p.infix_loop(prec, can_assign) is Ok {
        if prec.level() > precedence_of(p.current.token_type).level() {
            grown_from_same(p, p);
        } else {
            let p1 = p.advanced()->Ok_0;
            let rule = infix_of(p.current.token_type)->Some_0;
            scan_progress(p.src, p.pos, p.line);
            advanced_adds(p);
            grown_from_same(p, p1);
            let p2 = p1.infix(rule, can_assign)->Ok_0;
            infix_adds(p1, rule, can_assign);
            let p3 = p2.infix_loop(prec, can_assign)->Ok_0;
            infix_loop_adds(p2, prec, can_assign);
            added_then(p1, p2, p3);
            added_then(p, p1, p3);
        }
    }
}

/// The handler of a token that starts an expression adds to the chunk.
pub proof fn prefix_adds(p: ParserView, rule: PrefixRule, can_assign: bool)
    requires
        p.chunks.len() >= 1,
    ensures
        added(p, p.prefix(rule, can_assign)),
    decreases p.measure(), 9int,
{
    match rule {
        PrefixRule::Grouping => grouping_adds(p),
        PrefixRule::Unary => unary_adds(p),
        PrefixRule::Variable => var_adds(p, can_assign),
        PrefixRule::Literal => literal_adds(p),
        PrefixRule::Number => literal_adds(p),
        PrefixRule::This => literal_adds(p),
    }
}

/// The handler of a token that continues an expression adds to the chunk.
pub proof fn infix_adds(p: ParserView, rule: InfixRule, can_assign: bool)
    requires
        p.chunks.len() >= 1,
    ensures
        added(p, p.infix(rule, can_assign)),
    decreases p.measure(), 9int,
{
    match rule {
        InfixRule::Call => call_adds(p),
        InfixRule::Dot => dot_adds(p, can_assign),
        InfixRule::Binary => binary_adds(p),
        InfixRule::And => short_circuit_adds(p, Precendence::And, true),
        InfixRule::Or => short_circuit_adds(p, Precendence::Or, false),
    }
}

/// An expression adds to the chunk.
pub proof fn expression_adds(p: ParserView)
    requires
        p.chunks.len() >= 1,
    ensures
        added(p, p.expression()),
    decreases p.measure(), 2int,
{
    parse_expr_adds(p, Precendence::Assignment);
}

/// A parenthesized expression adds to the chunk.
pub proof fn grouping_adds(p: ParserView)
    requires
        p.chunks.len() >= 1,
    ensures
        added(p, p.grouping()),
    decreases p.measure(), 8int,
{
    if p.grouping() is Ok {
        let p1 = p.expression()->Ok_0;
        expression_adds(p);
        let p2 = p1.consumed(TokenType::RIGHT_PAREN)->Ok_0;
        consumed_adds(p1, TokenType::RIGHT_PAREN);
        grown_from_same(p1, p2);
        added_then(p, p1, p2);
    }
}

/// A unary operator and its operand add to the chunk.
pub proof fn unary_adds(p: ParserView)
    requires
        p.chunks.len() >= 1,
    ensures
        added(p, p.unary()),
    decreases p.measure(), 8int,
{
    if p.unary() is Ok {
        let op = crate::compiler::grammar::unary_operator(p.previous->Some_0.token_type)->Some_0;
        let p1 = p.parse_expr(Precendence::Unary)->Ok_0;
        parse_expr_adds(p, Precendence::Unary);
        emitted_adds(p1, InstructionView::Unary(op));
        added_then(p, p1, p1.emitted(InstructionView::Unary(op)));
    }
}

/// A binary operator and its right operand add to the chunk.
pub proof fn binary_adds(p: ParserView)
    requires
        p.chunks.len() >= 1,
    ensures
        added(p, p.binary()),
    decreases p.measure(), 8int,
{
    if p.binary() is Ok {
        let token = p.previous->Some_0;
        let next = Precendence::at_level((precedence_of(token.token_type).level() + 1) as u8)->Some_0;
        let p1 = p.parse_expr(next)->Ok_0;
        parse_expr_adds(p, next);
        operated_adds(p1, token.token_type);
        added_then(p, p1, p1.operated(token.token_type)->Ok_0);
    }
}

/// Proves what exchanging a jump at the end with a placeholder does to a
/// sequence of instructions that holds, after `before`, the placeholder
/// and the drop.
pub proof fn exchange_places_jump(
    before: Seq<InstructionView>,
    operand: Seq<InstructionView>,
    jump: InstructionView,
)
    requires
        before.len() + 2 <= operand.len(),
        operand.subrange(0, before.len() + 2 as int) == before.push(InstructionView::NoOp).push(
            InstructionView::Pop,
        ),
    ensures
        ({
            let pushed = operand.push(jump);
            let after = pushed.update(before.len() as int, pushed[operand.len() as int]).update(
                operand.len() as int,
                pushed[before.len() as int],
            );
            &&& after.len() == operand.len() + 1
            &&& after.subrange(0, before.len() as int) == before
            &&& after[before.len() as int] == jump
            &&& after[before.len() + 1 as int] == InstructionView::Pop
            &&& after.subrange(before.len() + 2 as int, operand.len() as int) == operand.subrange(
                before.len() + 2 as int,
                operand.len() as int,
            )
            &&& after[operand.len() as int] == InstructionView::NoOp
        }),
{
    let n = before.len() as int;
    let head = operand.subrange(0, n + 2);
    let pushed = operand.push(jump);
    let after = pushed.update(n, pushed[operand.len() as int]).update(
        operand.len() as int,
        pushed[n],
    );
    assert(operand[n] == head[n]);
    assert(operand[n + 1] == head[n + 1]);
    assert forall|i: int| 0 <= i < n implies after[i] == before[i] by {
        assert(operand[i] == head[i]);
    }
    assert(after.subrange(0, n) =~= before);
    assert(after.subrange(n + 2, operand.len() as int) =~= operand.subrange(
        n + 2,
        operand.len() as int,
    ));
}

/// Proves what patching a jump into the place `origin` does to the chunk.
pub proof fn patched_code(p: ParserView, origin: usize, jump: InstructionView)
    requires
        p.chunks.len() >= 1,
        p.patched(origin, jump) is Ok,
        p.chunks.last().code.len() < usize::MAX,
    ensures
        ({
            let code = p.chunks.last().code;
            let pushed = code.push(jump);
            &&& level(p, p.patched(origin, jump)->Ok_0)
            &&& origin <= code.len()
            &&& p.patched(origin, jump)->Ok_0.chunks.last().code == pushed.update(
                origin as int,
                pushed[code.len() as int],
            ).update(code.len() as int, pushed[origin as int])
        }),
{
    emitted_adds(p, jump);
}

/// Short-circuit, in full. Where `and` or `or` compiles and the chunk's
/// length can be counted, the instructions that stood in the chunk stand
/// there still; after them stands the jump, then the instruction that
/// drops the left operand, then all that the right operand emitted; and
/// the jump leads to the place after the right operand, where a
/// placeholder stands.
#[verifier::rlimit(50)]
pub proof fn short_circuit_skips_operand(p: ParserView, prec: Precendence, continue_condition: bool)
    requires
        p.chunks.len() >= 1,
        p.short_circuit(prec, continue_condition) is Ok,
        countable(p.short_circuit(prec, continue_condition)->Ok_0),
    ensures
        ({
            let before = p.chunks.last().code;
            let operand = p.emitted(InstructionView::NoOp).emitted(InstructionView::Pop).parse_expr(
                prec,
            )->Ok_0.chunks.last().code;
            let after = p.short_circuit(prec, continue_condition)->Ok_0.chunks.last().code;
            &&& after.len() == operand.len() + 1
            &&& before.len() + 2 <= operand.len()
            &&& after.subrange(0, before.len() as int) == before
            &&& after[before.len() as int] == InstructionView::Jump(
                operand.len() as usize,
                continue_condition,
            )
            &&& after[before.len() + 1 as int] == InstructionView::Pop
            &&& after.subrange(before.len() + 2 as int, operand.len() as int) == operand.subrange(
                before.len() + 2 as int,
                operand.len() as int,
            )
            &&& after[operand.len() as int] == InstructionView::NoOp
        }),
    decreases p.measure(), 6int,
{
    let p0 = p.emitted(InstructionView::NoOp);
    let p1 = p0.emitted(InstructionView::Pop);
    emitted_adds(p, InstructionView::NoOp);
    emitted_adds(p0, InstructionView::Pop);
    let operand = p1.parse_expr(prec);
    assert(operand is Ok);
    let p2 = operand->Ok_0;
    parse_expr_adds(p1, prec);
    let jump = InstructionView::Jump(p2.here(), continue_condition);
    assert(p.short_circuit(prec, continue_condition) == p2.patched(p.here(), jump));
    let q = p2.patched(p.here(), jump)->Ok_0;
    let a = p.chunks.last().code;
    let b = p1.chunks.last().code;
    let c = p2.chunks.last().code;
    emitted_adds(p2, jump);
    assert(q.chunks.last().code.len() == c.len() + 1);
    assert(c.len() < usize::MAX);
    patched_code(p2, p.here(), jump);
    assert(grown(p1, p2));
    assert(b == a.push(InstructionView::NoOp).push(InstructionView::Pop));
    assert(b.subrange(0, b.len() as int) =~= b);
    assert(p.here() == a.len());
    assert(p2.here() == c.len());
    exchange_places_jump(a, c, jump);
}

/// `and` and `or` add to the chunk.
pub proof fn short_circuit_adds(p: ParserView, prec: Precendence, continue_condition: bool)
    requires
        p.chunks.len() >= 1,
    ensures
        added(p, p.short_circuit(prec, continue_condition)),
    decreases p.measure(), 7int,
{
    if p.short_circuit(prec, continue_condition) is Ok {
        let p0 = p.emitted(InstructionView::NoOp);
        let p1 = p0.emitted(InstructionView::Pop);
        emitted_adds(p, InstructionView::NoOp);
        emitted_adds(p0, InstructionView::Pop);
        let p2 = p1.parse_expr(prec)->Ok_0;
        parse_expr_adds(p1, prec);
        let jump = InstructionView::Jump(p2.here(), continue_condition);
        let q = p2.patched(p.here(), jump)->Ok_0;
        emitted_adds(p2, jump);
        assert(level(p2, q));
        if countable(q) {
            short_circuit_skips_operand(p, prec, continue_condition);
            let a = p.chunks.last().code;
            assert(a.subrange(0, a.len() as int) =~= a);
        }
    }
}

/// What follows the name of a variable adds to the chunk.
pub proof fn accessed_adds(
    p: ParserView,
    name: Seq<u8>,
    scope: DefinitionScope,
    is_const: bool,
    can_assign: bool,
)
    requires
        p.chunks.len() >= 1,
    ensures
        added(p, p.accessed(name, scope, is_const, can_assign)),
    decreases p.measure(), 7int,
{
    if p.accessed(name, scope, is_const, can_assign) is Ok {
        if p.check(TokenType::EQUAL) {
            let p1 = p.advanced()->Ok_0;
            scan_progress(p.src, p.pos, p.line);
            advanced_adds(p);
            grown_from_same(p, p1);
            let p2 = p1.expression()->Ok_0;
            expression_adds(p1);
            let i = InstructionView::Override(name, scope);
            emitted_adds(p2, i);
            added_then(p1, p2, p2.emitted(i));
            added_then(p, p1, p2.emitted(i));
        } else {
            emitted_adds(p, InstructionView::Resolve(name, scope));
        }
    }
}

/// A variable adds to the chunk.
pub proof fn var_adds(p: ParserView, can_assign: bool)
    requires
        p.chunks.len() >= 1,
    ensures
        added(p, p.var(can_assign)),
    decreases p.measure(), 8int,
{
    if p.var(can_assign) is Ok {
        let token = p.previous->Some_0;
        let found = p.compiler.resolved(token.literal);
        let p1 = p.with_compiler(found.compiler);
        grown_from_same(p, p1);
        accessed_adds(
            p1,
            token.literal,
            found.scope->Some_0,
            p.compiler.is_const(token.literal),
            can_assign,
        );
        added_then(
            p,
            p1,
            p1.accessed(
                token.literal,
                found.scope->Some_0,
                p.compiler.is_const(token.literal),
                can_assign,
            )->Ok_0,
        );
    }
}

/// The arguments of a call add to the chunk.
pub proof fn arguments_adds(p: ParserView, count: usize)
    requires
        p.chunks.len() >= 1,
    ensures
        p.arguments(count) is Ok ==> added(
            p,
            Ok::<ParserView, Failure>(p.arguments(count)->Ok_0.0),
        ),
    decreases p.measure(), 3int,
{
    if p.arguments(count) is Ok {
        let p1 = p.expression()->Ok_0;
        expression_adds(p);
        if p1.check(TokenType::COMMA) {
            let p2 = p1.advanced()->Ok_0;
            scan_progress(p1.src, p1.pos, p1.line);
            advanced_adds(p1);
            grown_from_same(p1, p2);
            arguments_adds(p2, (count + 1) as usize);
            let p3 = p2.arguments((count + 1) as usize)->Ok_0.0;
            added_then(p1, p2, p3);
            added_then(p, p1, p3);
        }
    }
}

/// A call adds to the chunk.
pub proof fn call_adds(p: ParserView)
    requires
        p.chunks.len() >= 1,
    ensures
        added(p, p.call()),
    decreases p.measure(), 8int,
{
    if p.call() is Ok {
        if p.check(TokenType::RIGHT_PAREN) {
            call_closed_adds(p, 0);
        } else {
            let (p1, count) = p.arguments(0)->Ok_0;
            arguments_adds(p, 0);
            call_closed_adds(p1, count);
            added_then(p, p1, p1.call_closed(count)->Ok_0);
        }
    }
}

/// A property adds to the chunk.
pub proof fn dot_adds(p: ParserView, can_assign: bool)
    requires
        p.chunks.len() >= 1,
    ensures
        added(p, p.dot(can_assign)),
    decreases p.measure(), 8int,
{
    if p.dot(can_assign) is Ok {
        let p1 = p.consumed(TokenType::IDENTIFIER)->Ok_0;
        scan_progress(p.src, p.pos, p.line);
        consumed_adds(p, TokenType::IDENTIFIER);
        grown_from_same(p, p1);
        let name = p.current.literal;
        if can_assign && p1.check(TokenType::EQUAL) {
            let p2 = p1.advanced()->Ok_0;
            scan_progress(p1.src, p1.pos, p1.line);
            advanced_adds(p1);
            grown_from_same(p1, p2);
            let p3 = p2.expression()->Ok_0;
            expression_adds(p2);
            let i = InstructionView::SetField(name, p3.line as usize, p3.snippet());
            emitted_adds(p3, i);
            added_then(p2, p3, p3.emitted(i));
            added_then(p1, p2, p3.emitted(i));
            added_then(p, p1, p3.emitted(i));
        } else {
            let i = InstructionView::Get(name, p1.line as usize, p1.snippet());
            emitted_adds(p1, i);
            added_then(p, p1, p1.emitted(i));
        }
    }
}

} // verus!
