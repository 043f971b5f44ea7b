//! The tool that evaluates expressions.

use vstd::prelude::*;
use crate::agent_loop::{outcome_text, outcome_view};
use crate::error::{ToolError, ToolErrorView};
use crate::text::{byte_len, joined, joined3, utf8_len};
use crate::tool_args::MathCalcArgs;

verus! {

/// `sci_calc::calculate` in a new context, the value or the error written
/// out as text. Nothing is claimed of the result: the value comes from
/// floating-point functions whose precision differs from one machine to
/// the next. The crate evaluates an expression by going down its tree, one
/// level for each operator, so only expressions of a bounded length are
/// handed to it.
#[verifier::external_body]
fn evaluate(expression: &str) -> (r: Result<String, String>)
    requires
        utf8_len(expression@) <= MAX_EXPRESSION_LEN,
{
    let mut context = sci_calc::context::Context::new();
    match sci_calc::calculate(expression, &mut context) {
        Ok(value) => Ok(format!("{}", value)),
        Err(e) => Err(format!("{}", e)),
    }
}

/// The tool that evaluates expressions.
#[derive(Debug, Default)]
pub struct MathCalc;

/// The longest expression that is evaluated, in bytes. The evaluation goes
/// as deep as the expression is nested, so a longer one is refused.
pub const MAX_EXPRESSION_LEN: usize = 1000;

/// What stands for the evaluation of an expression that is too long.
pub open spec fn too_long_text() -> Seq<char> {
    "expression is longer than 1000 bytes"@
}

/// What `math_calc` gives for an expression that was evaluated.
pub open spec fn math_outcome(expression: Seq<char>, evaluated: Result<Seq<char>, Seq<char>>)
    -> Result<Seq<char>, ToolErrorView> {
    match evaluated {
        Ok(value) => Ok(expression + " = "@ + value),
        Err(e) => Err(ToolErrorView::Other("Math evaluation error: "@ + e)),
    }
}

impl MathCalc {
    /// The name of the tool.
    pub fn name() -> (r: &'static str)
        ensures
            r@ == "math_calc"@,
    {
        "math_calc"
    }

    /// What the tool gives for an expression that was evaluated: the
    /// expression with its value, or the error.
    pub fn render(expression: &str, evaluated: Result<String, String>) -> (r: Result<
        String,
        ToolError,
    >)
        ensures
            outcome_view(r) == math_outcome(expression@, outcome_text(evaluated)),
    {
        match evaluated {
            Ok(value) => Ok(joined3(expression, " = ", value.as_str())),
            Err(e) => Err(ToolError::Other(joined("Math evaluation error: ", e.as_str()))),
        }
    }

    /// Evaluates the expression of the call. An expression of more than
    /// [`MAX_EXPRESSION_LEN`] bytes is not evaluated and gives the error of
    /// one that is too long. For any other the result is what
    /// [`MathCalc::render`] makes of the expression and of what the
    /// evaluation gave, a value or an error.
    pub fn call(args: &MathCalcArgs) -> (r: Result<String, ToolError>)
        ensures
            utf8_len(args.expression@) > MAX_EXPRESSION_LEN ==> outcome_view(r) == math_outcome(
                args.expression@,
                Err(too_long_text()),
            ),
            utf8_len(args.expression@) <= MAX_EXPRESSION_LEN ==> exists|
                evaluated: Result<Seq<char>, Seq<char>>,
            |
                outcome_view(r) == #[trigger] math_outcome(args.expression@, evaluated),
    {
        if byte_len(args.expression.as_str()) > MAX_EXPRESSION_LEN {
            return Self::render(
                args.expression.as_str(),
                Err("expression is longer than 1000 bytes".to_owned()),
            );
        }
        let evaluated = evaluate(args.expression.as_str());
        let ghost given = outcome_text(evaluated);
        let r = Self::render(args.expression.as_str(), evaluated);
        assert(outcome_view(r) == math_outcome(args.expression@, given));
        r
    }
}

} // verus!
