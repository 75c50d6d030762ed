//! The three stages in a row: scan, parse, evaluate. Nothing is read or
//! written here: a run gives back what is to be shown.

use vstd::prelude::*;
use vstd::string::*;
use crate::ast_printer::{prints, AstPrinter};
use crate::error::{ErrorView, LexerError};
use crate::expr::ExprView;
use crate::grammar::parse_expression;
use crate::interpreter::{evaluates, outcome, value_shown, Interpreter, ValueView};
use crate::lexer::{lemma_scan_ends, scan, scanned};
use crate::lexical::is_number_text;
use crate::number::ArithOp;
use crate::parser::Parser;
use crate::token::{views, Token};

verus! {

/// The exit code for a text that does not scan or parse.
pub const SYNTAX_ERROR_CODE: i32 = 65;

/// The front end: it owns the evaluator.
pub struct Loxite {
    pub interpreter: Interpreter,
}

/// What a run leaves to be shown.
#[derive(Debug)]
pub struct Report {
    /// The exit code that the run asks for, if it failed before evaluation.
    pub exit_code: Option<i32>,
    /// The lines for the output stream.
    pub output: Vec<String>,
    /// The lines for the error stream.
    pub diagnostics: Vec<String>,
}

/// The line that shows the tree.
pub open spec fn tree_line(text: Seq<char>) -> Seq<char> {
    "AST: "@ + text
}

/// Whether the report is that of a text with these scanner diagnostics: the
/// syntax exit code, nothing to put out, and each diagnostic as the user
/// reads it.
pub open spec fn reports_scan_errors(errors: Seq<LexerError>, report: Report) -> bool {
    &&& report.exit_code == Some(SYNTAX_ERROR_CODE)
    &&& report.output@.len() == 0
    &&& report.diagnostics@.len() == errors.len()
    &&& forall|i: int|
        0 <= i < errors.len() ==> (#[trigger] report.diagnostics@[i])@ == errors[i]@.rendered()
}

/// Whether the report is that of a text that does not parse: the syntax exit
/// code, nothing to put out, and the parser's diagnostic.
pub open spec fn reports_parse_error(error: ErrorView, report: Report) -> bool {
    &&& report.exit_code == Some(SYNTAX_ERROR_CODE)
    &&& report.output@.len() == 0
    &&& report.diagnostics@.len() == 1
    &&& report.diagnostics@[0]@ == error.rendered()
}

/// Whether the report is that of a tree with this outcome: no exit code, the
/// line of the tree, and then the value, or on the error stream the
/// diagnostic.
pub open spec fn reports_evaluation<G: Fn(u64) -> String>(
    tree: ExprView,
    out: Result<ValueView, ErrorView>,
    show: G,
    printed: Seq<char>,
    report: Report,
) -> bool {
    &&& report.exit_code is None
    &&& prints(tree, show, printed)
    &&& report.output@.len() >= 1
    &&& report.output@[0]@ == tree_line(printed)
    &&& match out {
        Ok(value) => {
            &&& report.output@.len() == 2
            &&& value_shown(value, show, report.output@[1])
            &&& report.diagnostics@.len() == 0
        },
        Err(err) => {
            &&& report.output@.len() == 1
            &&& report.diagnostics@.len() == 1
            &&& report.diagnostics@[0]@ == err.rendered()
        },
    }
}

/// Whether the report is that of tokens and diagnostics of a scan: a text
/// with scanner diagnostics goes no further; else the tokens are parsed, and
/// a tree is printed and evaluated.
pub open spec fn reports_run<A: Fn(ArithOp, u64, u64) -> u64, G: Fn(u64) -> String>(
    tokens: Seq<Token>,
    errors: Seq<LexerError>,
    arith: A,
    show: G,
    report: Report,
) -> bool {
    if errors.len() > 0 {
        reports_scan_errors(errors, report)
    } else {
        match parse_expression(views(tokens), 0).result {
            Err(error) => reports_parse_error(error, report),
            Ok(tree) => exists|out: Result<ValueView, ErrorView>, printed: Seq<char>|
                evaluates(tree, arith, out) && #[trigger] reports_evaluation(
                    tree,
                    out,
                    show,
                    printed,
                    report,
                ),
        }
    }
}

impl Loxite {
    /// A front end with its evaluator.
    pub fn new() -> (loxite: Self)
        ensures
            loxite == (Loxite { interpreter: Interpreter {  } }),
    {
        Self { interpreter: Interpreter {  } }
    }

    /// Runs one source text through the stages. Numbers are read by
    /// `to_number`, computed by `arith` and written by `show`.
    pub fn run<F: Fn(String) -> u64, A: Fn(ArithOp, u64, u64) -> u64, G: Fn(u64) -> String>(
        &self,
        source: &String,
        to_number: &F,
        arith: &A,
        show: &G,
    ) -> (report: Report)
        requires
            source@.len() < usize::MAX,
            forall|text: String| is_number_text(text@) ==> to_number.requires((text,)),
            forall|op: ArithOp, a: u64, b: u64| arith.requires((op, a, b)),
            forall|bits: u64| show.requires((bits,)),
        ensures
            exists|tokens: Seq<Token>, errors: Seq<LexerError>|
                #[trigger] scanned(tokens, errors, source@, *to_number) && reports_run(
                    tokens,
                    errors,
                    *arith,
                    *show,
                    report,
                ),
    {
        let (tokens, errors) = scan(source, to_number);
        let ghost scanned_tokens = tokens@;
        let ghost scanned_errors = errors@;
        let mut output: Vec<String> = Vec::new();
        let mut diagnostics: Vec<String> = Vec::new();
        if errors.len() > 0 {
            let mut i: usize = 0;
            while i < errors.len()
                invariant
                    i <= errors@.len(),
                    errors@.len() == scanned_errors.len(),
                    forall|j: int| 0 <= j < errors@.len() ==> (#[trigger] errors@[j])@ == scanned_errors[j]@,
                    diagnostics@.len() == i,
                    forall|j: int|
                        0 <= j < i ==> (#[trigger] diagnostics@[j])@ == scanned_errors[j]@.rendered(),
                decreases errors@.len() - i,
            {
                let line = errors[i].render();
                diagnostics.push(line);
                i += 1;
            }
            return Report { exit_code: Some(SYNTAX_ERROR_CODE), output, diagnostics };
        }
        proof {
            lemma_scan_ends(scanned_tokens, scanned_errors, source@, *to_number);
        }
        let mut parser = Parser::new(tokens);
        let expression = match parser.parser() {
            Ok(expression) => expression,
            Err(err) => {
                diagnostics.push(err.render());
                return Report { exit_code: Some(SYNTAX_ERROR_CODE), output, diagnostics };
            },
        };
        let printed = AstPrinter.get_expr_as_str(&expression, show);
        let mut line = String::from_str("AST: ");
        line.append(printed.as_str());
        output.push(line);
        let evaluation = self.interpreter.evaluate(&expression, arith);
        match &evaluation {
            Ok(value) => {
                output.push(value.to_text(show));
            },
            Err(err) => {
                diagnostics.push(err.render());
            },
        }
        let report = Report { exit_code: None, output, diagnostics };
        proof {
            assert(reports_evaluation(
                expression@,
                outcome(evaluation),
                *show,
                printed@,
                report,
            ));
        }
        report
    }
}

} // verus!
