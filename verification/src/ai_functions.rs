//! Prompt templates handed to the generation collaborator. Each takes the
//! raw input text and returns the fixed template describing what the
//! collaborator must print for it.

use vstd::prelude::*;

verus! {

/// Template: turn a raw user request into a normalized project goal.
pub fn convert_user_input_to_goal(_user_request: &str) -> (r: &'static str)
    ensures
        r@
            == "Input: a user request for a website build. Output: one short goal statement a development team can act on. Print only the goal."@,
{
    "Input: a user request for a website build. Output: one short goal statement a development team can act on. Print only the goal."
}

/// Template: derive the structured project scope from the description.
pub fn print_project_scope(_project_description: &str) -> (r: &'static str)
    ensures
        r@
            == "Input: a PROJECT_DESCRIPTION for a website build. Output: a JSON object with the boolean keys requires_crud, requires_login and requires_external_urls. Print only the JSON object."@,
{
    "Input: a PROJECT_DESCRIPTION for a website build. Output: a JSON object with the boolean keys requires_crud, requires_login and requires_external_urls. Print only the JSON object."
}

/// Template: list the external URLs the described site must call.
pub fn print_site_urls(_project_description: &str) -> (r: &'static str)
    ensures
        r@
            == "Input: a PROJECT_DESCRIPTION for a website build. Output: a JSON list of the external urls the site must call. Print only the JSON list."@,
{
    "Input: a PROJECT_DESCRIPTION for a website build. Output: a JSON list of the external urls the site must call. Print only the JSON list."
}

/// Template: write the initial backend code from the code template.
pub fn print_backend_webserver_code(_project_description_and_template: &str) -> (r: &'static str)
    ensures
        r@
            == "Input: a CODE_TEMPLATE and a PROJECT_DESCRIPTION for a website backend build. Output: the template rewritten to serve the described purpose, using only the standard library and the already installed crates reqwest, serde, serde_json, tokio, actix-web, async-trait and actix-cors. Print only the code."@,
{
    "Input: a CODE_TEMPLATE and a PROJECT_DESCRIPTION for a website backend build. Output: the template rewritten to serve the described purpose, using only the standard library and the already installed crates reqwest, serde, serde_json, tokio, actix-web, async-trait and actix-cors. Print only the code."
}

/// Template: complete and improve the current backend code.
pub fn print_improved_webserrver_code(_project_description_and_template: &str) -> (r:
    &'static str)
    ensures
        r@
            == "Input: a CODE_TEMPLATE and a PROJECT_DESCRIPTION for a website backend build. Output: the code with bugs removed and every requested backend feature present, adding nothing else and using no library beyond those in the template. Print only the code."@,
{
    "Input: a CODE_TEMPLATE and a PROJECT_DESCRIPTION for a website backend build. Output: the code with bugs removed and every requested backend feature present, adding nothing else and using no library beyond those in the template. Print only the code."
}

/// Template: repair code that failed to build.
pub fn print_fixed_code(_broken_code_with_bugs: &str) -> (r: &'static str)
    ensures
        r@
            == "Input: Rust BROKEN_CODE and the ERROR_BUGS found when building it. Output: the code with the bugs removed. Print only the code."@,
{
    "Input: Rust BROKEN_CODE and the ERROR_BUGS found when building it. Output: the code with the bugs removed. Print only the code."
}

/// Template: extract the REST endpoint schema from built source.
pub fn print_rest_api_endpoints(_code_input: &str) -> (r: &'static str)
    ensures
        r@
            == "Input: Rust web server CODE_INPUT based on actix-web. Output: a JSON list describing every url endpoint, each entry with the keys route, is_dynamic, method, request_body and response. Print only the JSON list."@,
{
    "Input: Rust web server CODE_INPUT based on actix-web. Output: a JSON list describing every url endpoint, each entry with the keys route, is_dynamic, method, request_body and response. Print only the JSON list."
}

} // verus!
