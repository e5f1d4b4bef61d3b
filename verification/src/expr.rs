//! Parsing and evaluation of arithmetic expressions.
//!
//! A small standalone evaluator over exact rationals: the usual binary
//! operators with `%`, unary sign, parentheses, and integer or decimal
//! literals. It is independent of the constraint pipeline.

use crate::error::TextCadError;
use crate::rational::{
    ratio_add, ratio_div_norm, ratio_mul, ratio_neg, ratio_rem, ratio_sub, Ratio, Rational,
};
use vstd::prelude::*;
use vstd::std_specs::iter::IteratorSpec;
use vstd::string::StringExecFns;

verus! {

broadcast use vstd::string::axiom_spec_iter, vstd::string::next_postcondition;

/// Tokens produced by the lexer.
#[derive(Debug, Clone, Copy, PartialEq, Eq, Structural)]
enum Token {
    Number(Rational),
    Plus,
    Minus,
    Multiply,
    Divide,
    Modulo,
    LeftParen,
    RightParen,
    Eof,
}

/// The whitespace the lexer skips.
pub open spec fn is_space(c: char) -> bool {
    c == ' ' || c == '\t' || c == '\n' || c == '\r'
}

/// Lexer over the characters of the input.
pub struct Lexer {
    input: Vec<char>,
    position: usize,
}

impl Lexer {
    /// The characters being lexed.
    pub closed spec fn chars_view(&self) -> Seq<char> {
        self.input@
    }

    /// The current position.
    pub closed spec fn pos(&self) -> int {
        self.position as int
    }

    /// Create a lexer over the characters of `input`.
    pub fn new(input: &str) -> (r: Lexer)
        ensures
            r.chars_view() == input@,
            r.pos() == 0,
    {
        let mut chars = input.chars();
        let mut collected: Vec<char> = Vec::new();
        loop
            invariant
                chars.obeys_prophetic_iter_laws(),
                chars.decrease() is Some,
                collected@ + chars.remaining() == input@,
            ensures
                collected@ == input@,
            decreases chars.decrease()->0,
        {
            match chars.next() {
                Some(c) => {
                    collected.push(c);
                    proof {
                        assert(collected@ + chars.remaining() =~= input@);
                    }
                },
                None => {
                    proof {
                        assert(collected@ =~= input@);
                    }
                    break ;
                },
            }
        }
        Lexer { input: collected, position: 0 }
    }

    /// The character at the current position, or `None` past the end.
    pub fn current_char(&self) -> (r: Option<char>)
        ensures
            r == if self.pos() < self.chars_view().len() {
                Some(self.chars_view()[self.pos()])
            } else {
                None
            },
            self.chars_view().len() <= usize::MAX,
    {
        if self.position < self.input.len() {
            Some(self.input[self.position])
        } else {
            None
        }
    }

    /// Move one character forward.
    pub fn advance(&mut self)
        requires
            old(self).pos() < usize::MAX,
        ensures
            final(self).chars_view() == old(self).chars_view(),
            final(self).pos() == old(self).pos() + 1,
    {
        self.position = self.position + 1;
    }

    /// Skip whitespace: afterwards the current character, if any, is not
    /// whitespace, and everything skipped was.
    pub fn skip_whitespace(&mut self)
        ensures
            final(self).chars_view() == old(self).chars_view(),
            old(self).pos() <= final(self).pos(),
            forall|i: int|
                old(self).pos() <= i < final(self).pos() ==> is_space(
                    #[trigger] final(self).chars_view()[i],
                ),
            final(self).pos() < final(self).chars_view().len() ==> !is_space(
                final(self).chars_view()[final(self).pos()],
            ),
            old(self).pos() < final(self).pos() ==> final(self).pos() <= final(self).chars_view().len(),
    {
        loop
            invariant
                self.chars_view() == old(self).chars_view(),
                old(self).pos() <= self.pos() <= usize::MAX,
                old(self).pos() < self.pos() ==> self.pos() <= self.chars_view().len(),
                forall|i: int|
                    old(self).pos() <= i < self.pos() ==> is_space(
                        #[trigger] self.chars_view()[i],
                    ),
            ensures
                self.chars_view() == old(self).chars_view(),
                old(self).pos() <= self.pos(),
                forall|i: int|
                    old(self).pos() <= i < self.pos() ==> is_space(
                        #[trigger] self.chars_view()[i],
                    ),
                self.pos() < self.chars_view().len() ==> !is_space(
                    self.chars_view()[self.pos()],
                ),
                old(self).pos() < self.pos() ==> self.pos() <= self.chars_view().len(),
            decreases self.chars_view().len() - self.pos(),
        {
            match self.current_char() {
                Some(c) => {
                    if c == ' ' || c == '\t' || c == '\n' || c == '\r' {
                        self.advance();
                    } else {
                        break ;
                    }
                },
                None => {
                    break ;
                },
            }
        }
    }

    /// Read a number: digits with at most one decimal point, as an exact
    /// rational over a power-of-ten denominator. Fails when no digit is
    /// present or the literal exceeds the exact range.
    fn read_number(&mut self) -> (r: Result<Rational, TextCadError>)
        ensures
            final(self).chars_view() == old(self).chars_view(),
            old(self).pos() <= final(self).pos(),
            old(self).pos() < final(self).pos() ==> final(self).pos() <= final(self).chars_view().len(),
            r matches Ok(q) ==> q.wf() && final(self).pos() > old(self).pos(),
            r matches Err(e) ==> e is SolverError,
    {
        let mut int_part: i128 = 0;
        let mut any_int = false;
        loop
            invariant
                self.chars_view() == old(self).chars_view(),
                old(self).pos() <= self.pos(),
                any_int ==> self.pos() > old(self).pos(),
                old(self).pos() < self.pos() ==> self.pos() <= self.chars_view().len(),
                0 <= int_part <= (i64::MAX as i128) * 10 + 9,
            ensures
                self.chars_view() == old(self).chars_view(),
                old(self).pos() <= self.pos(),
                any_int ==> self.pos() > old(self).pos(),
                old(self).pos() < self.pos() ==> self.pos() <= self.chars_view().len(),
                0 <= int_part <= (i64::MAX as i128) * 10 + 9,
            decreases self.chars_view().len() - self.pos(),
        {
            match self.current_char() {
                Some(c) => {
                    if c >= '0' && c <= '9' {
                        if int_part > i64::MAX as i128 {
                            return Err(
                                TextCadError::SolverError("Invalid number: too large".to_owned()),
                            );
                        }
                        let d: i128 = (c as u32 - 48) as i128;
                        int_part = int_part * 10 + d;
                        any_int = true;
                        self.advance();
                    } else {
                        break ;
                    }
                },
                None => {
                    break ;
                },
            }
        }
        let mut frac_part: i128 = 0;
        let mut scale: i128 = 1;
        let mut any_frac = false;
        match self.current_char() {
            Some(c) => {
                if c == '.' {
                    self.advance();
                    loop
                        invariant
                            self.chars_view() == old(self).chars_view(),
                            old(self).pos() < self.pos(),
                            self.pos() <= self.chars_view().len(),
                            0 <= frac_part < scale,
                            1 <= scale <= (i64::MAX as i128) * 10,
                        ensures
                            self.chars_view() == old(self).chars_view(),
                            old(self).pos() < self.pos(),
                            self.pos() <= self.chars_view().len(),
                            0 <= frac_part < scale,
                            1 <= scale <= (i64::MAX as i128) * 10,
                        decreases self.chars_view().len() - self.pos(),
                    {
                        match self.current_char() {
                            Some(c2) => {
                                if c2 >= '0' && c2 <= '9' {
                                    if scale > i64::MAX as i128 {
                                        return Err(
                                            TextCadError::SolverError(
                                                "Invalid number: too precise".to_owned(),
                                            ),
                                        );
                                    }
                                    let d: i128 = (c2 as u32 - 48) as i128;
                                    frac_part = frac_part * 10 + d;
                                    scale = scale * 10;
                                    any_frac = true;
                                    self.advance();
                                } else {
                                    break ;
                                }
                            },
                            None => {
                                break ;
                            },
                        }
                    }
                }
            },
            None => (),
        }
        if !any_int && !any_frac {
            return Err(TextCadError::SolverError("Invalid number".to_owned()));
        }
        if int_part > i64::MAX as i128 || scale > i64::MAX as i128 {
            return Err(TextCadError::SolverError("Invalid number: too large".to_owned()));
        }
        proof {
            assert(0 <= int_part * scale <= (i64::MAX as i128) * (i64::MAX as i128))
                by (nonlinear_arith)
                requires
                    0 <= int_part <= i64::MAX as i128,
                    1 <= scale <= i64::MAX as i128,
            ;
        }
        let num: i128 = int_part * scale + frac_part;
        if num > i64::MAX as i128 {
            return Err(TextCadError::SolverError("Invalid number: too large".to_owned()));
        }
        Ok(Rational::new(num as i64, scale as i64))
    }

    /// Produce the next token, skipping whitespace first.
    fn next_token(&mut self) -> (r: Result<Token, TextCadError>)
        ensures
            final(self).chars_view() == old(self).chars_view(),
            old(self).pos() <= final(self).pos(),
            old(self).pos() < final(self).pos() ==> final(self).pos() <= final(self).chars_view().len(),
            r matches Ok(t) ==> (t != Token::Eof ==> final(self).pos() > old(self).pos()),
            r matches Ok(t) ==> (t matches Token::Number(q) ==> q.wf()),
            r matches Err(e) ==> e is SolverError,
    {
        self.skip_whitespace();
        match self.current_char() {
            None => Ok(Token::Eof),
            Some(c) => {
                if c == '+' {
                    self.advance();
                    Ok(Token::Plus)
                } else if c == '-' {
                    self.advance();
                    Ok(Token::Minus)
                } else if c == '*' {
                    self.advance();
                    Ok(Token::Multiply)
                } else if c == '/' {
                    self.advance();
                    Ok(Token::Divide)
                } else if c == '%' {
                    self.advance();
                    Ok(Token::Modulo)
                } else if c == '(' {
                    self.advance();
                    Ok(Token::LeftParen)
                } else if c == ')' {
                    self.advance();
                    Ok(Token::RightParen)
                } else if (c >= '0' && c <= '9') || c == '.' {
                    match self.read_number() {
                        Ok(q) => Ok(Token::Number(q)),
                        Err(e) => Err(e),
                    }
                } else {
                    Err(TextCadError::SolverError("Unexpected character".to_owned()))
                }
            },
        }
    }
}

/// Binary operators of the expression grammar.
#[derive(Debug, Clone, Copy, PartialEq, Eq, Structural)]
pub enum BinaryOperator {
    Add,
    Subtract,
    Multiply,
    Divide,
    Modulo,
}

/// Unary operators of the expression grammar.
#[derive(Debug, Clone, Copy, PartialEq, Eq, Structural)]
pub enum UnaryOperator {
    Negate,
    Plus,
}

/// Abstract syntax tree of an expression.
#[derive(Debug, PartialEq)]
pub enum Expr {
    /// A numeric literal.
    Number(Rational),
    /// A binary operation `left op right`.
    BinaryOp { left: Box<Expr>, op: BinaryOperator, right: Box<Expr> },
    /// A unary operation `op expr`.
    UnaryOp { op: UnaryOperator, expr: Box<Expr> },
}

/// Every literal of the expression denotes a number.
pub open spec fn numbers_wf(e: Expr) -> bool
    decreases e,
{
    match e {
        Expr::Number(q) => q.wf(),
        Expr::BinaryOp { left, op, right } => numbers_wf(*left) && numbers_wf(*right),
        Expr::UnaryOp { op, expr } => numbers_wf(*expr),
    }
}

/// The mathematical value of an expression: `None` on division or modulo by
/// zero, the exact fraction otherwise.
pub open spec fn expr_value(e: Expr) -> Option<Ratio>
    decreases e,
{
    match e {
        Expr::Number(q) => Some(q.ratio()),
        Expr::BinaryOp { left, op, right } => {
            match (expr_value(*left), expr_value(*right)) {
                (Some(a), Some(b)) => match op {
                    BinaryOperator::Add => Some(ratio_add(a, b)),
                    BinaryOperator::Subtract => Some(ratio_sub(a, b)),
                    BinaryOperator::Multiply => Some(ratio_mul(a, b)),
                    BinaryOperator::Divide => if b.n == 0 {
                        None
                    } else {
                        Some(ratio_div_norm(a, b))
                    },
                    BinaryOperator::Modulo => if b.n == 0 {
                        None
                    } else {
                        Some(ratio_rem(a, b))
                    },
                },
                _ => None,
            }
        },
        Expr::UnaryOp { op, expr } => {
            match expr_value(*expr) {
                Some(v) => match op {
                    UnaryOperator::Negate => Some(ratio_neg(v)),
                    UnaryOperator::Plus => Some(v),
                },
                None => None,
            }
        },
    }
}

impl Expr {
    /// Evaluate the expression exactly. Division or modulo by zero is an
    /// error; so is a value that leaves the exact `i64` fraction range.
    pub fn eval(&self) -> (r: Result<Rational, TextCadError>)
        requires
            numbers_wf(*self),
        ensures
            match r {
                Ok(q) => q.wf() && expr_value(*self) == Some(q.ratio()),
                Err(e) => e is SolverError,
            },
            expr_value(*self) is None ==> r is Err,
        decreases *self,
    {
        match self {
            Expr::Number(q) => Ok(*q),
            Expr::BinaryOp { left, op, right } => {
                let a = match left.eval() {
                    Ok(v) => v,
                    Err(e) => {
                        return Err(e);
                    },
                };
                let b = match right.eval() {
                    Ok(v) => v,
                    Err(e) => {
                        return Err(e);
                    },
                };
                let combined: Option<Rational> = match op {
                    BinaryOperator::Add => a.checked_add(b),
                    BinaryOperator::Subtract => a.checked_sub(b),
                    BinaryOperator::Multiply => a.checked_mul(b),
                    BinaryOperator::Divide => {
                        if b.is_zero_value() {
                            return Err(TextCadError::SolverError("Division by zero".to_owned()));
                        }
                        a.checked_div(b)
                    },
                    BinaryOperator::Modulo => {
                        if b.is_zero_value() {
                            return Err(TextCadError::SolverError("Modulo by zero".to_owned()));
                        }
                        a.checked_rem(b)
                    },
                };
                match combined {
                    Some(q) => Ok(q),
                    None => Err(
                        TextCadError::SolverError("Arithmetic range exceeded".to_owned()),
                    ),
                }
            },
            Expr::UnaryOp { op, expr } => {
                let v = match expr.eval() {
                    Ok(v) => v,
                    Err(e) => {
                        return Err(e);
                    },
                };
                match op {
                    UnaryOperator::Negate => match v.checked_neg() {
                        Some(q) => Ok(q),
                        None => Err(
                            TextCadError::SolverError("Arithmetic range exceeded".to_owned()),
                        ),
                    },
                    UnaryOperator::Plus => Ok(v),
                }
            },
        }
    }
}

} // verus!

verus! {

/// Recursive-descent parser with the usual operator precedence:
/// expression over terms over signed factors over primaries.
pub struct Parser {
    lexer: Lexer,
    current_token: Token,
}

impl Parser {
    /// The lexer never runs past its input, and a held number token denotes.
    #[verifier::type_invariant]
    spec fn inv(&self) -> bool {
        &&& 0 <= self.lexer.pos() <= self.lexer.chars_view().len()
        &&& self.current_token matches Token::Number(q) ==> q.wf()
    }

    /// What remains to be consumed: unread characters, plus one for a held
    /// token that is not yet end-of-input. Every parsing step keeps it from
    /// growing, and consuming a token shrinks it.
    spec fn fuel(&self) -> int {
        self.lexer.chars_view().len() - self.lexer.pos() + if self.current_token is Eof {
            0int
        } else {
            1int
        }
    }

    /// Create a parser over `input`; the first token is read eagerly, with a
    /// lexing failure standing in for end of input until `parse` rediscovers
    /// it.
    pub fn new(input: &str) -> (r: Parser) {
        let mut lexer = Lexer::new(input);
        let current_token = match lexer.next_token() {
            Ok(t) => t,
            Err(_) => Token::Eof,
        };
        Parser { lexer, current_token }
    }

    /// Read the next token into place.
    fn advance(&mut self) -> (r: Result<(), TextCadError>)
        ensures
            final(self).fuel() <= old(self).fuel(),
            (r is Ok && !(old(self).current_token is Eof)) ==> final(self).fuel() < old(
                self,
            ).fuel(),
            r matches Err(e) ==> e is SolverError,
    {
        proof {
            use_type_invariant(&*self);
        }
        let mut lx = Lexer { input: Vec::new(), position: 0 };
        std::mem::swap(&mut self.lexer, &mut lx);
        let res = lx.next_token();
        std::mem::swap(&mut self.lexer, &mut lx);
        match res {
            Ok(t) => {
                self.current_token = t;
                Ok(())
            },
            Err(e) => Err(e),
        }
    }

    /// Consume exactly the expected token.
    fn expect(&mut self, expected: Token) -> (r: Result<(), TextCadError>)
        ensures
            final(self).fuel() <= old(self).fuel(),
            r matches Err(e) ==> e is SolverError,
    {
        if self.current_token == expected {
            self.advance()
        } else {
            Err(TextCadError::SolverError("Unexpected token".to_owned()))
        }
    }

    /// Parse one whole expression and return its syntax tree.
    pub fn parse(&mut self) -> (r: Result<Expr, TextCadError>)
        ensures
            r matches Ok(e) ==> numbers_wf(e),
            r matches Err(e) ==> e is SolverError,
    {
        self.parse_expression()
    }

    /// Parse the whole input and evaluate it exactly.
    pub fn parse_and_eval(self) -> (r: Result<Rational, TextCadError>)
        ensures
            r matches Ok(q) ==> q.wf(),
            r matches Err(e) ==> e is SolverError,
    {
        let mut this = self;
        let parsed = match this.parse() {
            Ok(e) => e,
            Err(e) => {
                return Err(e);
            },
        };
        match this.expect(Token::Eof) {
            Ok(_) => (),
            Err(e) => {
                return Err(e);
            },
        }
        parsed.eval()
    }

    /// The current token starts another additive step.
    fn at_additive(&self) -> (r: bool)
        ensures
            r == (self.current_token is Plus || self.current_token is Minus),
    {
        matches!(self.current_token, Token::Plus | Token::Minus)
    }

    /// The current token starts another multiplicative step.
    fn at_multiplicative(&self) -> (r: bool)
        ensures
            r == (self.current_token is Multiply || self.current_token is Divide
                || self.current_token is Modulo),
    {
        matches!(self.current_token, Token::Multiply | Token::Divide | Token::Modulo)
    }

    /// expression -> term (('+' | '-') term)*
    fn parse_expression(&mut self) -> (r: Result<Expr, TextCadError>)
        ensures
            final(self).fuel() <= old(self).fuel(),
            r matches Ok(e) ==> numbers_wf(e),
            r matches Err(e) ==> e is SolverError,
        decreases self.fuel(), 3int,
    {
        proof {
            use_type_invariant(&*self);
        }
        let mut left = match self.parse_term() {
            Ok(e) => e,
            Err(e) => {
                return Err(e);
            },
        };
        while self.at_additive()
            invariant
                numbers_wf(left),
                self.fuel() <= old(self).fuel(),
            decreases self.fuel(),
        {
            proof {
                use_type_invariant(&*self);
            }
            let op = if matches!(self.current_token, Token::Plus) {
                BinaryOperator::Add
            } else {
                BinaryOperator::Subtract
            };
            match self.advance() {
                Ok(_) => (),
                Err(e) => {
                    return Err(e);
                },
            }
            proof {
                use_type_invariant(&*self);
            }
            let right = match self.parse_term() {
                Ok(e) => e,
                Err(e) => {
                    return Err(e);
                },
            };
            left = Expr::BinaryOp { left: Box::new(left), op, right: Box::new(right) };
            proof {
                use_type_invariant(&*self);
            }
        }
        Ok(left)
    }

    /// term -> factor (('*' | '/' | '%') factor)*
    fn parse_term(&mut self) -> (r: Result<Expr, TextCadError>)
        ensures
            final(self).fuel() <= old(self).fuel(),
            r matches Ok(e) ==> numbers_wf(e),
            r matches Err(e) ==> e is SolverError,
        decreases self.fuel(), 2int,
    {
        proof {
            use_type_invariant(&*self);
        }
        let mut left = match self.parse_factor() {
            Ok(e) => e,
            Err(e) => {
                return Err(e);
            },
        };
        while self.at_multiplicative()
            invariant
                numbers_wf(left),
                self.fuel() <= old(self).fuel(),
            decreases self.fuel(),
        {
            proof {
                use_type_invariant(&*self);
            }
            let op = if matches!(self.current_token, Token::Multiply) {
                BinaryOperator::Multiply
            } else if matches!(self.current_token, Token::Divide) {
                BinaryOperator::Divide
            } else {
                BinaryOperator::Modulo
            };
            match self.advance() {
                Ok(_) => (),
                Err(e) => {
                    return Err(e);
                },
            }
            proof {
                use_type_invariant(&*self);
            }
            let right = match self.parse_factor() {
                Ok(e) => e,
                Err(e) => {
                    return Err(e);
                },
            };
            left = Expr::BinaryOp { left: Box::new(left), op, right: Box::new(right) };
            proof {
                use_type_invariant(&*self);
            }
        }
        Ok(left)
    }

    /// factor -> ('+' | '-')? primary
    fn parse_factor(&mut self) -> (r: Result<Expr, TextCadError>)
        ensures
            final(self).fuel() <= old(self).fuel(),
            r matches Ok(e) ==> numbers_wf(e),
            r matches Err(e) ==> e is SolverError,
        decreases self.fuel(), 1int,
    {
        proof {
            use_type_invariant(&*self);
        }
        if matches!(self.current_token, Token::Plus) {
            match self.advance() {
                Ok(_) => (),
                Err(e) => {
                    return Err(e);
                },
            }
            proof {
                use_type_invariant(&*self);
            }
            let inner = match self.parse_primary() {
                Ok(e) => e,
                Err(e) => {
                    return Err(e);
                },
            };
            Ok(Expr::UnaryOp { op: UnaryOperator::Plus, expr: Box::new(inner) })
        } else if matches!(self.current_token, Token::Minus) {
            match self.advance() {
                Ok(_) => (),
                Err(e) => {
                    return Err(e);
                },
            }
            proof {
                use_type_invariant(&*self);
            }
            let inner = match self.parse_primary() {
                Ok(e) => e,
                Err(e) => {
                    return Err(e);
                },
            };
            Ok(Expr::UnaryOp { op: UnaryOperator::Negate, expr: Box::new(inner) })
        } else {
            self.parse_primary()
        }
    }

    /// primary -> NUMBER | '(' expression ')'
    fn parse_primary(&mut self) -> (r: Result<Expr, TextCadError>)
        ensures
            final(self).fuel() <= old(self).fuel(),
            r matches Ok(e) ==> numbers_wf(e),
            r matches Err(e) ==> e is SolverError,
        decreases self.fuel(), 0int,
    {
        proof {
            use_type_invariant(&*self);
        }
        match self.current_token {
            Token::Number(n) => {
                match self.advance() {
                    Ok(_) => (),
                    Err(e) => {
                        return Err(e);
                    },
                }
                Ok(Expr::Number(n))
            },
            Token::LeftParen => {
                match self.advance() {
                    Ok(_) => (),
                    Err(e) => {
                        return Err(e);
                    },
                }
                proof {
                    use_type_invariant(&*self);
                }
                let inner = match self.parse_expression() {
                    Ok(e) => e,
                    Err(e) => {
                        return Err(e);
                    },
                };
                match self.expect(Token::RightParen) {
                    Ok(_) => (),
                    Err(e) => {
                        return Err(e);
                    },
                }
                Ok(inner)
            },
            _ => Err(TextCadError::SolverError("Unexpected token".to_owned())),
        }
    }
}

} // verus!
