//! A printer that writes an expression tree in prefix form, every node in
//! parentheses.

use vstd::prelude::*;
use vstd::string::*;
use crate::expr::{Expr, ExprView};
use crate::token::{literal_shown, LiteralView, TokenLiteral};

verus! {

/// The printer. It holds no state.
pub struct AstPrinter;

/// The parts, each with a space before it.
pub open spec fn joined(parts: Seq<Seq<char>>) -> Seq<char>
    decreases parts.len(),
{
    if parts.len() == 0 {
        Seq::empty()
    } else {
        joined(parts.drop_last()) + " "@ + parts.last()
    }
}

/// The name and the parts in one pair of parentheses.
pub open spec fn parenthesized(name: Seq<char>, parts: Seq<Seq<char>>) -> Seq<char> {
    "("@ + name + joined(parts) + ")"@
}

/// Whether `text` is the name and the parts in parentheses.
pub open spec fn is_parenthesized(text: Seq<char>, name: Seq<char>, parts: Seq<Seq<char>>) -> bool {
    text == parenthesized(name, parts)
}

/// Whether `text` is the name and one part in parentheses.
pub open spec fn wraps_one(text: Seq<char>, name: Seq<char>, part: Seq<char>) -> bool {
    text == parenthesized(name, seq![part])
}

/// Whether `text` is the name and two parts in parentheses.
pub open spec fn wraps_two(
    text: Seq<char>,
    name: Seq<char>,
    first: Seq<char>,
    second: Seq<char>,
) -> bool {
    text == parenthesized(name, seq![first, second])
}

/// Whether `text` is the tree in prefix form: an operator's lexeme with its
/// operands, `group` with what the parentheses hold, a literal as the user
/// reads it, `nil` for the absent literal. Numbers are written by `show`.
pub open spec fn prints<G: Fn(u64) -> String>(expr: ExprView, show: G, text: Seq<char>) -> bool
    decreases expr,
{
    match expr {
        ExprView::Literal { value } => match value {
            LiteralView::Empty => text == "nil"@,
            _ => exists|shown: String| shown@ == text && #[trigger] literal_shown(value, show, shown),
        },
        ExprView::Grouping { inner } => exists|part: Seq<char>|
            prints(*inner, show, part) && #[trigger] wraps_one(text, "group"@, part),
        ExprView::Unary { operator, right } => exists|part: Seq<char>|
            prints(*right, show, part) && #[trigger] wraps_one(text, operator.lexeme, part),
        ExprView::Binary { left, operator, right } => exists|first: Seq<char>, second: Seq<char>|
            prints(*left, show, first) && prints(*right, show, second)
                && #[trigger] wraps_two(text, operator.lexeme, first, second),
    }
}

/// The number of nodes of the trees together.
pub open spec fn total_size(exprs: Seq<&Expr>) -> nat
    decreases exprs.len(),
{
    if exprs.len() == 0 {
        0
    } else {
        total_size(exprs.drop_last()) + exprs.last()@.size()
    }
}

/// Whether `parts` are the trees in prefix form, one part for each tree.
pub open spec fn all_print<G: Fn(u64) -> String>(
    exprs: Seq<&Expr>,
    show: G,
    parts: Seq<Seq<char>>,
) -> bool {
    &&& parts.len() == exprs.len()
    &&& forall|i: int| 0 <= i < exprs.len() ==> prints(exprs[i]@, show, #[trigger] parts[i])
}

/// No tree is larger than all of them together.
pub proof fn lemma_total_size(exprs: Seq<&Expr>, i: int)
    requires
        0 <= i < exprs.len(),
    ensures
        exprs[i]@.size() <= total_size(exprs),
    decreases exprs.len(),
{
    if i < exprs.len() - 1 {
        lemma_total_size(exprs.drop_last(), i);
    }
}

impl AstPrinter {
    /// The tree in prefix form; numbers are written by `show`.
    pub fn get_expr_as_str<G: Fn(u64) -> String>(&self, expr: &Expr, show: &G) -> (text: String)
        requires
            forall|bits: u64| show.requires((bits,)),
        ensures
            prints(expr@, *show, text@),
    {
        expr.print_expr(show)
    }
}

impl Expr {
    /// The tree in prefix form; numbers are written by `show`.
    pub fn print_expr<G: Fn(u64) -> String>(&self, show: &G) -> (text: String)
        requires
            forall|bits: u64| show.requires((bits,)),
        ensures
            prints(self@, *show, text@),
        decreases self@.size(), 1nat,
    {
        match self {
            Expr::Binary(expr) => {
                let exprs = vec![&expr.left, &expr.right];
                proof {
                    assert(exprs@.drop_last() =~= seq![&expr.left]);
                    assert(exprs@.drop_last().drop_last() =~= Seq::<&Expr>::empty());
                    reveal_with_fuel(total_size, 3);
                }
                let text = parenthesize(expr.operator.lexeme.as_str(), exprs, show);
                proof {
                    let parts = choose|parts: Seq<Seq<char>>|
                        all_print(exprs@, *show, parts) && #[trigger] is_parenthesized(
                            text@,
                            expr.operator.lexeme@,
                            parts,
                        );
                    assert(parts =~= seq![parts[0], parts[1]]);
                    assert(prints(exprs@[0]@, *show, parts[0]));
                    assert(prints(exprs@[1]@, *show, parts[1]));
                    assert(wraps_two(text@, expr.operator@.lexeme, parts[0], parts[1]));
                }
                text
            },
            Expr::Grouping(expr) => {
                let exprs = vec![&expr.expression];
                proof {
                    assert(exprs@.drop_last() =~= Seq::<&Expr>::empty());
                    reveal_with_fuel(total_size, 2);
                }
                let text = parenthesize("group", exprs, show);
                proof {
                    let parts = choose|parts: Seq<Seq<char>>|
                        all_print(exprs@, *show, parts) && #[trigger] is_parenthesized(
                            text@,
                            "group"@,
                            parts,
                        );
                    assert(parts =~= seq![parts[0]]);
                    assert(prints(exprs@[0]@, *show, parts[0]));
                    assert(wraps_one(text@, "group"@, parts[0]));
                }
                text
            },
            Expr::Unary(expr) => {
                let exprs = vec![&expr.right];
                proof {
                    assert(exprs@.drop_last() =~= Seq::<&Expr>::empty());
                    reveal_with_fuel(total_size, 2);
                }
                let text = parenthesize(expr.operator.lexeme.as_str(), exprs, show);
                proof {
                    let parts = choose|parts: Seq<Seq<char>>|
                        all_print(exprs@, *show, parts) && #[trigger] is_parenthesized(
                            text@,
                            expr.operator.lexeme@,
                            parts,
                        );
                    assert(parts =~= seq![parts[0]]);
                    assert(prints(exprs@[0]@, *show, parts[0]));
                    assert(wraps_one(text@, expr.operator@.lexeme, parts[0]));
                }
                text
            },
            Expr::Literal(expr) => match &expr.value {
                TokenLiteral::Empty => String::from_str("nil"),
                _ => {
                    let text = expr.value.to_text(show);
                    proof {
                        assert(literal_shown(expr.value@, *show, text));
                    }
                    text
                },
            },
        }
    }
}

/// The name and the trees in prefix form, with a space before each tree, in
/// one pair of parentheses.
pub fn parenthesize<G: Fn(u64) -> String>(name: &str, exprs: Vec<&Expr>, show: &G) -> (text: String)
    requires
        forall|bits: u64| show.requires((bits,)),
    ensures
        exists|parts: Seq<Seq<char>>|
            all_print(exprs@, *show, parts) && #[trigger] is_parenthesized(text@, name@, parts),
    decreases total_size(exprs@), 2nat,
{
    let mut result = String::new();
    result.append("(");
    result.append(name);
    let ghost mut parts: Seq<Seq<char>> = Seq::empty();
    let mut i: usize = 0;
    while i < exprs.len()
        invariant
            i <= exprs@.len(),
            parts.len() == i,
            forall|j: int| 0 <= j < i ==> prints(exprs@[j]@, *show, #[trigger] parts[j]),
            result@ == "("@ + name@ + joined(parts),
            forall|bits: u64| show.requires((bits,)),
        decreases exprs@.len() - i,
    {
        result.append(" ");
        proof {
            lemma_total_size(exprs@, i as int);
        }
        let part = exprs[i].print_expr(show);
        result.append(part.as_str());
        proof {
            let longer = parts.push(part@);
            assert(longer.drop_last() =~= parts);
            assert(result@ =~= "("@ + name@ + joined(longer));
            parts = longer;
        }
        i += 1;
    }
    result.append(")");
    proof {
        assert(all_print(exprs@, *show, parts));
        assert(is_parenthesized(result@, name@, parts));
    }
    result
}

/// Whether `show` writes each number in one way at most.
pub open spec fn writes_one_text<G: Fn(u64) -> String>(show: G) -> bool {
    forall|bits: u64, text1: String, text2: String|
        #[trigger] show.ensures((bits,), text1) && #[trigger] show.ensures((bits,), text2)
            ==> text1@ == text2@
}

/// With a `show` that writes each number in one way at most, a tree has one
/// text at most.
pub proof fn lemma_one_text<G: Fn(u64) -> String>(
    expr: ExprView,
    show: G,
    text1: Seq<char>,
    text2: Seq<char>,
)
    requires
        writes_one_text(show),
        prints(expr, show, text1),
        prints(expr, show, text2),
    ensures
        text1 == text2,
    decreases expr,
{
    match expr {
        ExprView::Literal { value } => {},
        ExprView::Grouping { inner } => {
            let part1 = choose|part: Seq<char>|
                prints(*inner, show, part) && #[trigger] wraps_one(text1, "group"@, part);
            let part2 = choose|part: Seq<char>|
                prints(*inner, show, part) && #[trigger] wraps_one(text2, "group"@, part);
            lemma_one_text(*inner, show, part1, part2);
        },
        ExprView::Unary { operator, right } => {
            let part1 = choose|part: Seq<char>|
                prints(*right, show, part) && #[trigger] wraps_one(text1, operator.lexeme, part);
            let part2 = choose|part: Seq<char>|
                prints(*right, show, part) && #[trigger] wraps_one(text2, operator.lexeme, part);
            lemma_one_text(*right, show, part1, part2);
        },
        ExprView::Binary { left, operator, right } => {
            let (first1, second1) = choose|first: Seq<char>, second: Seq<char>|
                prints(*left, show, first) && prints(*right, show, second) && #[trigger] wraps_two(
                    text1,
                    operator.lexeme,
                    first,
                    second,
                );
            let (first2, second2) = choose|first: Seq<char>, second: Seq<char>|
                prints(*left, show, first) && prints(*right, show, second) && #[trigger] wraps_two(
                    text2,
                    operator.lexeme,
                    first,
                    second,
                );
            lemma_one_text(*left, show, first1, first2);
            lemma_one_text(*right, show, second1, second2);
        },
    }
}

} // verus!
