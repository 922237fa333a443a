use vstd::prelude::*;

verus! {

/// Feature flags that control collaboration-mode behavior.
#[derive(Debug, Clone, Copy, PartialEq, Eq, Structural)]
pub struct CollaborationModesConfig {
    /// Enables `request_user_input` availability in Default mode.
    pub default_mode_request_user_input: bool,
}

impl Default for CollaborationModesConfig {
    fn default() -> (r: Self)
        ensures
            !r.default_mode_request_user_input,
    {
        CollaborationModesConfig { default_mode_request_user_input: false }
    }
}

/// How Default mode should ask the user a question: through the
/// `request_user_input` tool when it is available, else in plain text.
pub open spec fn asking_questions_guidance(default_mode_request_user_input: bool) -> Seq<char> {
    if default_mode_request_user_input {
        "In Default mode, strongly prefer making reasonable assumptions and executing the user's request rather than stopping to ask questions. If you absolutely must ask a question because the answer cannot be discovered from local context and a reasonable assumption would be risky, prefer using the `request_user_input` tool rather than writing a multiple choice question as a textual assistant message. Never write a multiple choice question as a textual assistant message."@
    } else {
        "In Default mode, strongly prefer making reasonable assumptions and executing the user's request rather than stopping to ask questions. If you absolutely must ask a question because the answer cannot be discovered from local context and a reasonable assumption would be risky, ask the user directly with a concise plain-text question. Never write a multiple choice question as a textual assistant message."@
    }
}

pub fn asking_questions_guidance_message(default_mode_request_user_input: bool) -> (r: String)
    ensures
        r@ == asking_questions_guidance(default_mode_request_user_input),
{
    if default_mode_request_user_input {
        "In Default mode, strongly prefer making reasonable assumptions and executing the user's request rather than stopping to ask questions. If you absolutely must ask a question because the answer cannot be discovered from local context and a reasonable assumption would be risky, prefer using the `request_user_input` tool rather than writing a multiple choice question as a textual assistant message. Never write a multiple choice question as a textual assistant message.".to_owned()
    } else {
        "In Default mode, strongly prefer making reasonable assumptions and executing the user's request rather than stopping to ask questions. If you absolutely must ask a question because the answer cannot be discovered from local context and a reasonable assumption would be risky, ask the user directly with a concise plain-text question. Never write a multiple choice question as a textual assistant message.".to_owned()
    }
}

} // verus!
