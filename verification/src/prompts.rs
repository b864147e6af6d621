//! The prompts that the local engine is given.

use vstd::prelude::*;
use vstd::string::*;
use crate::text::text_of;

verus! {

/// The line that names the conversation in a chat prompt.
pub open spec fn conversation_line(conversation_id: Option<Seq<char>>) -> Seq<char> {
    match conversation_id {
        Some(id) => "\n[Conversation ID: "@ + id + "]"@,
        None => Seq::empty(),
    }
}

/// The prompt of a chat.
pub open spec fn chat_prompt(message: Seq<char>, conversation_id: Option<Seq<char>>) -> Seq<char> {
    "You are a helpful AI assistant specializing in troubleshooting and technical support."@
        + conversation_line(conversation_id) + "\n\nUser: "@ + message + "\nAssistant: "@
}

/// The context of a log analysis, or the words that stand for none.
pub open spec fn context_line(context: Option<Seq<char>>) -> Seq<char> {
    match context {
        Some(given) => given,
        None => "No additional context provided"@,
    }
}

/// The prompt of a log analysis.
pub open spec fn log_analysis_prompt(logs: Seq<char>, context: Option<Seq<char>>) -> Seq<char> {
    "You are an expert system administrator and DevOps engineer analyzing system logs.\n\nContext: "@
        + context_line(context) + "\n\nLogs to analyze:\n"@ + logs
        + "\n\nPlease analyze these logs and provide:\n1. A summary of what's happening\n2. Any errors, warnings, or issues identified\n3. Potential root causes\n4. Specific recommendations to resolve issues\n5. Severity assessment (low/medium/high/critical)\n\nFocus on actionable insights and be specific about file names, timestamps, and error codes when available."@
}

/// The prompt of a script generation.
pub open spec fn script_prompt(
    requirement: Seq<char>,
    environment: Seq<char>,
    language: Seq<char>,
) -> Seq<char> {
    "You are an expert DevOps engineer and system administrator. Generate a script based on the following requirements:\n\nRequirement: "@
        + requirement + "\nTarget Environment: "@ + environment + "\nScript Language: "@ + language
        + "\n\nPlease provide:\n1. A complete, working script that addresses the requirement\n2. Inline comments explaining key parts of the script\n3. Error handling where appropriate\n4. Safety considerations\n5. Brief explanation of how the script works\n\nEnsure the script:\n- Is production-ready and follows best practices\n- Includes proper error handling\n- Has clear documentation\n- Is safe to run (include warnings if destructive operations are needed)\n- Is optimized for the specified environment\n\nScript:"@
}

/// The prompt of a chat about `message`, within the conversation named.
pub fn generate_chat_prompt(message: &str, conversation_id: Option<String>) -> (prompt: String)
    ensures
        prompt@ == chat_prompt(message@, text_of(conversation_id)),
{
    let mut prompt = String::from_str(
        "You are a helpful AI assistant specializing in troubleshooting and technical support.",
    );
    match conversation_id {
        Some(id) => {
            prompt.append("\n[Conversation ID: ");
            prompt.append(id.as_str());
            prompt.append("]");
            assert(prompt@ =~= "You are a helpful AI assistant specializing in troubleshooting and technical support."@
                + conversation_line(Some(id@)));
        },
        None => {
            assert(prompt@ =~= "You are a helpful AI assistant specializing in troubleshooting and technical support."@
                + conversation_line(None));
        },
    }
    prompt.append("\n\nUser: ");
    prompt.append(message);
    prompt.append("\nAssistant: ");
    prompt
}

/// The prompt of an analysis of `logs`, with the context given.
pub fn generate_log_analysis_prompt(logs: &str, context: Option<String>) -> (prompt: String)
    ensures
        prompt@ == log_analysis_prompt(logs@, text_of(context)),
{
    let mut prompt = String::from_str(
        "You are an expert system administrator and DevOps engineer analyzing system logs.\n\nContext: ",
    );
    match context {
        Some(given) => {
            prompt.append(given.as_str());
        },
        None => {
            prompt.append("No additional context provided");
        },
    }
    prompt.append("\n\nLogs to analyze:\n");
    prompt.append(logs);
    prompt.append(
        "\n\nPlease analyze these logs and provide:\n1. A summary of what's happening\n2. Any errors, warnings, or issues identified\n3. Potential root causes\n4. Specific recommendations to resolve issues\n5. Severity assessment (low/medium/high/critical)\n\nFocus on actionable insights and be specific about file names, timestamps, and error codes when available.",
    );
    prompt
}

/// The prompt of the generation of a script in `language` that meets
/// `requirement` in `environment`.
pub fn generate_script_prompt(requirement: &str, environment: &str, language: &str) -> (prompt:
    String)
    ensures
        prompt@ == script_prompt(requirement@, environment@, language@),
{
    let mut prompt = String::from_str(
        "You are an expert DevOps engineer and system administrator. Generate a script based on the following requirements:\n\nRequirement: ",
    );
    prompt.append(requirement);
    prompt.append("\nTarget Environment: ");
    prompt.append(environment);
    prompt.append("\nScript Language: ");
    prompt.append(language);
    prompt.append(
        "\n\nPlease provide:\n1. A complete, working script that addresses the requirement\n2. Inline comments explaining key parts of the script\n3. Error handling where appropriate\n4. Safety considerations\n5. Brief explanation of how the script works\n\nEnsure the script:\n- Is production-ready and follows best practices\n- Includes proper error handling\n- Has clear documentation\n- Is safe to run (include warnings if destructive operations are needed)\n- Is optimized for the specified environment\n\nScript:",
    );
    prompt
}

} // verus!
