//! The evaluation pipeline: the four boundary operations.
//!
//! Each operation returns an [`Outcome`]; every failure — malformed script,
//! malformed context, runtime fault, unrepresentable result — is routed
//! into the `Failure` variant, and a null or empty required input where
//! "nothing to do" is a sensible reading is a successful no-op.

use vstd::prelude::*;
use vstd::utf8::{decode_utf8, valid_utf8};

use crate::codec::{bytes_to_str, context_decode_error, decode_value, encode_value};
use crate::engine::{
    engine_compile, eval_no_context, eval_with_binding, new_engine, script_parse_error,
    Capabilities, Program,
};
use crate::outcome::Outcome;

verus! {

/// The context bytes decode to a dynamic value: they are valid UTF-8 and
/// well-formed JSON representable as a dynamic value.
pub open spec fn context_decodes(context: Seq<u8>) -> bool {
    valid_utf8(context) && context_decode_error(decode_utf8(context)) is None
}

/// The failure message owed for the given undecodable context bytes.
pub open spec fn context_failure_message(context: Seq<u8>) -> Seq<char> {
    if !valid_utf8(context) {
        "context is not valid UTF-8"@
    } else {
        context_decode_error(decode_utf8(context))->Some_0
    }
}

/// The script bytes compile: they are valid UTF-8 and parse as a script.
pub open spec fn script_compiles(script: Seq<u8>) -> bool {
    valid_utf8(script) && script_parse_error(decode_utf8(script)) is None
}

/// The failure message owed for the given uncompilable script bytes.
pub open spec fn script_failure_message(script: Seq<u8>) -> Seq<char> {
    if !valid_utf8(script) {
        "script is not valid UTF-8"@
    } else {
        script_parse_error(decode_utf8(script))->Some_0
    }
}

/// Wrap the encoded result of an execution in an outcome: a successful
/// execution's JSON text becomes the success payload, a failure's message
/// becomes the error payload.
fn outcome_of(result: Result<String, String>) -> (r: Outcome<Option<String>>)
    ensures
        result matches Ok(text) ==> r == Outcome::Success(Some(text)),
        result matches Err(message) ==> r == Outcome::<Option<String>>::Failure(message),
{
    match result {
        Ok(text) => Outcome::Success(Some(text)),
        Err(message) => Outcome::Failure(message),
    }
}

/// Execute a compiled program, with the decoded context (if any) bound
/// under the name `context` in a fresh scope, and encode the result.
/// A run never yields the empty success payload: it ends in a JSON text or
/// in an error message.
fn run_program(program: &Program, context: Option<rhai::Dynamic>) -> (r: Outcome<Option<String>>)
    ensures
        r matches Outcome::Success(payload) ==> (payload matches Some(text) && text@.len() > 0),
{
    let executed = match context {
        Some(value) => eval_with_binding(&program.engine, &program.ast, "context", value),
        None => eval_no_context(&program.engine, &program.ast),
    };
    let encoded = match executed {
        Ok(value) => encode_value(&value),
        Err(message) => Err(message),
    };
    outcome_of(encoded)
}

/// Decode optional context bytes into a dynamic value.  Zero-length means
/// "no context".  Bytes that are not valid UTF-8, or that are not
/// well-formed JSON, yield the failure outcome to return as-is.
fn decode_context(context: &[u8]) -> (r: Result<Option<rhai::Dynamic>, Outcome<Option<String>>>)
    ensures
        context@.len() == 0 ==> (r matches Ok(decoded) && decoded is None),
        context@.len() > 0 && context_decodes(context@) ==> (r matches Ok(decoded)
            && decoded is Some),
        context@.len() > 0 && !context_decodes(context@) ==> (r matches Err(outcome) && (
        outcome matches Outcome::Failure(m) && m@ == context_failure_message(context@))),
{
    if context.len() == 0 {
        Ok(None)
    } else {
        match bytes_to_str(context) {
            None => Err(Outcome::Failure("context is not valid UTF-8".to_owned())),
            Some(text) => match decode_value(text) {
                Ok(value) => Ok(Some(value)),
                Err(message) => Err(Outcome::Failure(message)),
            },
        }
    }
}

/// Evaluate a compiled program against optional context bytes: decode the
/// context, run the program with it, and encode the result.
fn evaluate_program(program: &Program, context: &[u8]) -> (r: Outcome<Option<String>>)
    ensures
        r matches Outcome::Success(payload) ==> (payload matches Some(text) && text@.len() > 0),
        context@.len() > 0 && !context_decodes(context@) ==> (r matches Outcome::Failure(m) && m@
            == context_failure_message(context@)),
{
    match decode_context(context) {
        Err(outcome) => outcome,
        Ok(decoded) => run_program(program, decoded),
    }
}

/// Compile script bytes into a reusable [`Program`] handle.
///
/// The script must be UTF-8; a script that does not parse yields the
/// failure outcome carrying the parser's message, and a handle is produced
/// exactly when compilation succeeds.  The engine is built with the full
/// capability set.
pub fn compile(script: &[u8]) -> (r: Outcome<Program>)
    ensures
        r is Success <==> script_compiles(script@),
        !script_compiles(script@) ==> (r matches Outcome::Failure(m) && m@
            == script_failure_message(script@)),
{
    match bytes_to_str(script) {
        None => Outcome::Failure("script is not valid UTF-8".to_owned()),
        Some(text) => {
            let engine = new_engine(&Capabilities::all());
            match engine_compile(&engine, text) {
                Ok(ast) => Outcome::Success(Program { engine, ast }),
                Err(message) => Outcome::Failure(message),
            }
        },
    }
}

/// Release a compiled program handle.
///
/// `None` stands for the null handle: releasing it is a no-op and does not
/// fail.  Releasing a live handle drops the program and its engine
/// together, exactly once — the handle is consumed, so it cannot be used
/// or released again.
pub fn release_program(program: Option<Program>) {
    match program {
        Some(_handle) => {},
        None => {},
    }
}

/// Evaluate a compiled program against optional context bytes
/// (`context.len() == 0` means "no context").
///
/// A null handle (`None`) yields the empty success payload — "nothing to
/// evaluate" rather than an error.  With a live handle the outcome is
/// either the JSON rendering of the script's result or a failure message;
/// context bytes that are not valid UTF-8 or not well-formed JSON yield
/// the failure outcome carrying the decoder's message.
pub fn evaluate_compiled(program: Option<&Program>, context: &[u8]) -> (r: Outcome<Option<String>>)
    ensures
        program is None ==> (r matches Outcome::Success(payload) && payload is None),
        program is Some ==> (r matches Outcome::Success(payload) ==> (payload matches Some(text)
            && text@.len() > 0)),
        program is Some && context@.len() > 0 && !context_decodes(context@) ==> (r
            matches Outcome::Failure(m) && m@ == context_failure_message(context@)),
{
    match program {
        None => Outcome::Success(None),
        Some(handle) => evaluate_program(handle, context),
    }
}

/// Compile and evaluate a script in one call, against optional context
/// bytes; no reusable handle is produced.
///
/// An empty script yields the empty success payload — "nothing to do"
/// rather than an error.  Otherwise the context is decoded first (its
/// failures take precedence), then the script is compiled with a fresh
/// full-capability engine and run.
pub fn evaluate_adhoc(script: &[u8], context: &[u8]) -> (r: Outcome<Option<String>>)
    ensures
        script@.len() == 0 ==> (r matches Outcome::Success(payload) && payload is None),
        script@.len() > 0 ==> (r matches Outcome::Success(payload) ==> (payload matches Some(
            text,
        ) && text@.len() > 0)),
        script@.len() > 0 && context@.len() > 0 && !context_decodes(context@) ==> (r
            matches Outcome::Failure(m) && m@ == context_failure_message(context@)),
        script@.len() > 0 && (context@.len() == 0 || context_decodes(context@))
            && !script_compiles(script@) ==> (r matches Outcome::Failure(m) && m@
            == script_failure_message(script@)),
{
    if script.len() == 0 {
        return Outcome::Success(None);
    }
    let decoded = match decode_context(context) {
        Err(outcome) => {
            return outcome;
        },
        Ok(decoded) => decoded,
    };
    match bytes_to_str(script) {
        None => Outcome::Failure("script is not valid UTF-8".to_owned()),
        Some(text) => {
            let engine = new_engine(&Capabilities::all());
            match engine_compile(&engine, text) {
                Err(message) => Outcome::Failure(message),
                Ok(ast) => {
                    let program = Program { engine, ast };
                    run_program(&program, decoded)
                },
            }
        },
    }
}

} // verus!

