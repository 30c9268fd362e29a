//! The expression engine: parsing and compiling are done by `fasteval`. This
//! module holds everything that is believed of that crate rather than proved,
//! and the compiled program that the rest of the library carries around.

use vstd::prelude::*;
use fasteval::{Compiler, Evaler};
use crate::error::TransformError;

verus! {

/// `fasteval::Slab`, the arena that a parsed and a compiled expression live
/// in. Nothing is known of its contents.
#[verifier::external_type_specification]
#[verifier::external_body]
pub struct ExSlab(fasteval::Slab);

/// `fasteval::Instruction`, the root of a compiled expression. Nothing is
/// known of its contents.
#[verifier::external_type_specification]
#[verifier::external_body]
pub struct ExInstruction(fasteval::Instruction);

/// `fasteval::Error`, what the engine reports when it rejects a text or fails
/// to evaluate. Nothing is known of its contents.
#[verifier::external_type_specification]
#[verifier::external_body]
pub struct ExError(fasteval::Error);

/// The names that `fasteval::Evaler::var_names` reports for the expression
/// that `fasteval::Parser::parse` makes of `text`, where it makes one: each
/// name once, in ascending order.
///
/// Reported are the variables of the expression and the functions it calls
/// that the engine does not know itself. The arguments of such a call are not
/// looked into: a name that occurs only there is not reported.
pub uninterp spec fn expression_names(text: Seq<char>) -> Seq<Seq<char>>;

/// Parses `text` with `fasteval::Parser::parse` into a fresh slab and asks
/// `fasteval::Evaler::var_names` which names the parsed expression refers to.
/// On success the result is the slab, the position of the expression's root
/// in it, and the names.
///
/// Believed: where the parser accepts the text, the names depend on the text
/// alone, so that they are `expression_names` of it. Nothing is claimed of
/// which texts the parser accepts: beside the text, that depends on how much
/// room the slab was given.
#[verifier::external_body]
fn parse_expression(text: &str) -> (r: Result<(fasteval::Slab, usize, Vec<String>), fasteval::Error>)
    ensures
        r matches Ok(parsed) ==> parsed.2.deep_view() == expression_names(text@),
{
    let mut slab = fasteval::Slab::new();
    let root = fasteval::Parser::new().parse(text, &mut slab.ps)?;
    let names = root.from(&slab.ps).var_names(&slab).into_iter().collect();
    Ok((slab, root.0, names))
}

/// Compiles the parsed expression at position `root` of `slab` with
/// `fasteval::Compiler::compile`. Nothing is claimed of the program that
/// comes back.
#[verifier::external_body]
fn compile_parsed(slab: &mut fasteval::Slab, root: usize) -> (program: fasteval::Instruction) {
    fasteval::ExpressionI(root).from(&slab.ps).compile(&slab.ps, &mut slab.cs)
}

/// Whether every name in `names` is the one variable that a transform binds,
/// `x`.
pub open spec fn only_x(names: Seq<Seq<char>>) -> bool {
    forall|i: int| 0 <= i < names.len() ==> names[i] == seq!['x']
}

/// Accepts a list of names where each is `x`, and reports `UnknownVariable`
/// for any other list.
pub fn check_names(names: &Vec<String>) -> (r: Result<(), TransformError>)
    ensures
        only_x(names.deep_view()) ==> r is Ok,
        !only_x(names.deep_view()) ==> r == Err::<(), TransformError>(TransformError::UnknownVariable),
{
    let mut i: usize = 0;
    while i < names.len()
        invariant
            i <= names.len(),
            forall|j: int| 0 <= j < i ==> names.deep_view()[j] == seq!['x'],
        decreases names.len() - i,
    {
        let name = names[i].as_str();
        assert(name@ == names.deep_view()[i as int]);
        if name.unicode_len() != 1 || name.get_char(0) != 'x' {
            assert(name@ != seq!['x']);
            return Err(TransformError::UnknownVariable);
        }
        assert(name@ =~= seq!['x']);
        i = i + 1;
    }
    Ok(())
}

/// The verdict on what the parser made of a text: `found` is `None` where
/// the parser rejected the text, and holds the names that the expression
/// refers to where it accepted it.
///
/// A rejected text is an `ExpressionSyntaxError`; an accepted one that names
/// anything other than `x` is an `UnknownVariable`.
pub fn verdict(found: Option<&Vec<String>>) -> (r: Result<(), TransformError>)
    ensures
        match found {
            None => r == Err::<(), TransformError>(TransformError::ExpressionSyntaxError),
            Some(names) => {
                &&& only_x(names.deep_view()) ==> r is Ok
                &&& !only_x(names.deep_view()) ==> r == Err::<(), TransformError>(
                    TransformError::UnknownVariable,
                )
            },
        },
{
    match found {
        None => Err(TransformError::ExpressionSyntaxError),
        Some(names) => check_names(names),
    }
}

/// An expression in one free variable, `x`, compiled once and evaluated as
/// often as needed. It is immutable and belongs to no particular vector.
pub struct CompiledExpression {
    instruction: fasteval::Instruction,
    slab: fasteval::Slab,
    source: Ghost<Seq<char>>,
}

impl CompiledExpression {
    /// The text that the program was compiled from.
    pub closed spec fn text(&self) -> Seq<char> {
        self.source@
    }

    /// Parses and compiles `text`.
    ///
    /// A text that the engine's parser rejects is an `ExpressionSyntaxError`.
    /// One that it accepts is compiled where it names nothing but `x`, and is
    /// an `UnknownVariable` where it names anything else.
    pub fn compile(text: &str) -> (r: Result<CompiledExpression, TransformError>)
        ensures
            match r {
                Ok(program) => program.text() == text@ && only_x(expression_names(text@)),
                Err(e) => e == TransformError::ExpressionSyntaxError || (e
                    == TransformError::UnknownVariable && !only_x(expression_names(text@))),
            },
    {
        let parsed = parse_expression(text);
        let found = match &parsed {
            Ok(tree) => Some(&tree.2),
            Err(_) => None,
        };
        match verdict(found) {
            Err(e) => Err(e),
            Ok(()) => match parsed {
                Ok((mut slab, root, _)) => {
                    let instruction = compile_parsed(&mut slab, root);
                    Ok(CompiledExpression { instruction, slab, source: Ghost(text@) })
                },
                Err(_) => unreached(),
            },
        }
    }

    /// The root of the compiled program.
    pub closed spec fn root(&self) -> fasteval::Instruction {
        self.instruction
    }

    /// The arena that the compiled program refers into.
    pub closed spec fn arena(&self) -> fasteval::Slab {
        self.slab
    }

    /// The root of the compiled program, for the evaluator.
    pub fn instruction(&self) -> (r: &fasteval::Instruction)
        ensures
            *r == self.root(),
    {
        &self.instruction
    }

    /// The arena that the compiled program refers into, for the evaluator.
    pub fn slab(&self) -> (r: &fasteval::Slab)
        ensures
            *r == self.arena(),
    {
        &self.slab
    }
}

} // verus!
