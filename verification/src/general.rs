//! Helpers around the generation collaborator: extending a prompt template
//! into a system message, and resolving the collaborator's one-retry policy.

use crate::errors::AgentError;
use crate::llm::Message;
use vstd::prelude::*;
use vstd::string::StringExecFns;

verus! {

/// Compare two string slices by their characters.
pub fn str_eq(a: &str, b: &str) -> (r: bool)
    ensures
        r == (a@ == b@),
{
    let sa: String = a.to_owned();
    let sb: String = b.to_owned();
    sa == sb
}

/// The text of the system message built from a prompt template's output and
/// the input it was applied to.
pub open spec fn extended_message_text(ai_function_text: Seq<char>, func_input: Seq<char>) -> Seq<
    char,
> {
    "Function "@ + ai_function_text
        + "\n    Instruction: You are a function printer. You ONLY print the results of functions.\n    Nothing else. No commentary. Here is the input to the function: "@
        + func_input + ".\n    Print out what the function will return."@
}

/// Wrap a prompt template's output in the fixed instruction that makes the
/// generation collaborator print only the function's result, as a `system`
/// conversation turn.
pub fn extend_ai_function<F: Fn(&str) -> &'static str>(ai_func: F, func_input: &str) -> (m:
    Message)
    requires
        call_requires(ai_func, (func_input,)),
    ensures
        m.role@ == "system"@,
        exists|t: &'static str|
            #[trigger] call_ensures(ai_func, (func_input,), t) && m.content@
                == extended_message_text(t@, func_input@),
{
    let ai_function_str = ai_func(func_input);
    let mut msg: String = String::from_str("Function ");
    msg.append(ai_function_str);
    msg.append(
        "\n    Instruction: You are a function printer. You ONLY print the results of functions.\n    Nothing else. No commentary. Here is the input to the function: ",
    );
    msg.append(func_input);
    msg.append(".\n    Print out what the function will return.");
    proof {
        assert(call_ensures(ai_func, (func_input,), ai_function_str) && msg@
            == extended_message_text(ai_function_str@, func_input@));
    }
    Message { role: String::from_str("system"), content: msg }
}

/// The context handed to the collaborator for the initial code generation.
pub open spec fn initial_code_prompt_text(code_template: Seq<char>, description: Seq<char>) -> Seq<
    char,
> {
    "CODE TEMPLATE: "@ + code_template + " \n PROJECT DESCRIPTION: "@ + description + " \n"@
}

/// Join the code template and the project description into the context for
/// the initial code generation.
pub fn initial_code_prompt(code_template: &str, project_description: &str) -> (r: String)
    ensures
        r@ == initial_code_prompt_text(code_template@, project_description@),
{
    let mut msg: String = String::from_str("CODE TEMPLATE: ");
    msg.append(code_template);
    msg.append(" \n PROJECT DESCRIPTION: ");
    msg.append(project_description);
    msg.append(" \n");
    msg
}

/// The context handed to the collaborator for endpoint extraction.
pub open spec fn extract_endpoints_prompt_text(backend_code: Seq<char>) -> Seq<char> {
    "CODE INPUT: "@ + backend_code
}

/// Prefix the built source with the marker the extraction template expects.
pub fn extract_endpoints_prompt(backend_code: &str) -> (r: String)
    ensures
        r@ == extract_endpoints_prompt_text(backend_code@),
{
    let mut msg: String = String::from_str("CODE INPUT: ");
    msg.append(backend_code);
    msg
}

/// Resolve the generation collaborator's retry policy: a failed call is
/// retried exactly once with the identical prompt; a second failure surfaces
/// as a generation error. `first` and `second` are what the two attempts
/// returned; the second is consulted only when the first failed.
pub fn generation_outcome(first: Option<String>, second: Option<String>) -> (r: Result<
    String,
    AgentError,
>)
    ensures
        (first is Some || second is Some) ==> r is Ok,
        first matches Some(s) ==> r == Ok::<String, AgentError>(s),
        first is None ==> (second matches Some(s) ==> r == Ok::<String, AgentError>(s)),
        (first is None && second is None) ==> r == Err::<String, AgentError>(
            AgentError::GenerationError,
        ),
{
    match first {
        Some(s) => Ok(s),
        None => match second {
            Some(s) => Ok(s),
            None => Err(AgentError::GenerationError),
        },
    }
}

} // verus!
