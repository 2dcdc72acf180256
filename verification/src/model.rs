//! OpenAI model names and the Copilot chat modes they select.
use vstd::prelude::*;

use crate::error::AppError;
use crate::text::{concat, debug_quoted, has_prefix, starts_with, str_debug_repr, str_eq};

verus! {

/// The Copilot chat modes.
#[derive(Debug, Clone, Copy, PartialEq, Eq, Structural)]
pub enum CopilotModel {
    Default,
    Chat,
    Smart,
    Reasoning,
    Research,
    ComputerUse,
    Coco,
}

/// The model that an OpenAI model name selects, if any.
pub open spec fn model_of_name(name: Seq<char>) -> Option<CopilotModel> {
    if name == ""@ || name == "default"@ {
        Some(CopilotModel::Default)
    } else if name == "chat"@ {
        Some(CopilotModel::Chat)
    } else if name == "smart"@ {
        Some(CopilotModel::Smart)
    } else if name == "reasoning"@ {
        Some(CopilotModel::Reasoning)
    } else if name == "research"@ {
        Some(CopilotModel::Research)
    } else if name == "computer_use"@ || name == "computer-use"@ {
        Some(CopilotModel::ComputerUse)
    } else if name == "coco"@ {
        Some(CopilotModel::Coco)
    } else if has_prefix(name, "think-"@) || has_prefix(name, "think_"@) {
        Some(CopilotModel::Reasoning)
    } else {
        None
    }
}

/// The Copilot mode string of a model.
pub open spec fn mode_name(m: CopilotModel) -> Seq<char> {
    match m {
        CopilotModel::Default => "default"@,
        CopilotModel::Chat => "chat"@,
        CopilotModel::Smart => "smart"@,
        CopilotModel::Reasoning => "reasoning"@,
        CopilotModel::Research => "research"@,
        CopilotModel::ComputerUse => "computer_use"@,
        CopilotModel::Coco => "coco"@,
    }
}

/// The message of the error for an unknown model name.
pub open spec fn unsupported_model_message(name: Seq<char>) -> Seq<char> {
    "unsupported model "@ + str_debug_repr(name)
        + "; available: default, chat, smart, reasoning, research, computer_use"@
}

/// The model names that `GET /v1/models` lists, in order.
pub open spec fn available_model_names() -> Seq<Seq<char>> {
    seq!["smart"@, "chat"@, "reasoning"@, "coco"@]
}

impl CopilotModel {
    /// Parses an OpenAI model name.
    pub fn from_openai_name(name: &str) -> (r: Result<Self, AppError>)
        ensures
            match r {
                Ok(m) => model_of_name(name@) == Some(m),
                Err(e) => model_of_name(name@) is None && (e matches AppError::UnsupportedModel(
                    msg,
                ) && msg@ == unsupported_model_message(name@)),
            },
    {
        if str_eq(name, "") || str_eq(name, "default") {
            Ok(CopilotModel::Default)
        } else if str_eq(name, "chat") {
            Ok(CopilotModel::Chat)
        } else if str_eq(name, "smart") {
            Ok(CopilotModel::Smart)
        } else if str_eq(name, "reasoning") {
            Ok(CopilotModel::Reasoning)
        } else if str_eq(name, "research") {
            Ok(CopilotModel::Research)
        } else if str_eq(name, "computer_use") || str_eq(name, "computer-use") {
            Ok(CopilotModel::ComputerUse)
        } else if str_eq(name, "coco") {
            Ok(CopilotModel::Coco)
        } else if starts_with(name, "think-") || starts_with(name, "think_") {
            Ok(CopilotModel::Reasoning)
        } else {
            let quoted = debug_quoted(name);
            Err(unsupported_model_error(quoted.as_str()))
        }
    }

    /// The Copilot mode string.
    pub fn to_copilot_mode(&self) -> (r: &'static str)
        ensures
            r@ == mode_name(*self),
    {
        match self {
            CopilotModel::Default => "default",
            CopilotModel::Chat => "chat",
            CopilotModel::Smart => "smart",
            CopilotModel::Reasoning => "reasoning",
            CopilotModel::Research => "research",
            CopilotModel::ComputerUse => "computer_use",
            CopilotModel::Coco => "coco",
        }
    }
}

/// The error for an unknown model, given the model name as `{:?}` renders it.
pub fn unsupported_model_error(quoted_name: &str) -> (r: AppError)
    ensures
        r matches AppError::UnsupportedModel(msg) && msg@ == "unsupported model "@ + quoted_name@
            + "; available: default, chat, smart, reasoning, research, computer_use"@,
{
    let head = concat("unsupported model ", quoted_name);
    let msg = concat(
        head.as_str(),
        "; available: default, chat, smart, reasoning, research, computer_use",
    );
    AppError::UnsupportedModel(msg)
}

/// The model names listed by `GET /v1/models`.
pub fn available_models() -> (r: Vec<String>)
    ensures
        r@.map_values(|s: String| s@) == available_model_names(),
{
    let mut v: Vec<String> = Vec::new();
    v.push(String::from_str("smart"));
    v.push(String::from_str("chat"));
    v.push(String::from_str("reasoning"));
    v.push(String::from_str("coco"));
    assert(v@.map_values(|s: String| s@) =~= available_model_names());
    v
}

/// Every model's mode string is a name that selects that same model.
pub proof fn lemma_mode_name_round_trip(m: CopilotModel)
    ensures
        model_of_name(mode_name(m)) == Some(m),
{
    reveal_strlit("");
    reveal_strlit("default");
    reveal_strlit("chat");
    reveal_strlit("smart");
    reveal_strlit("reasoning");
    reveal_strlit("research");
    reveal_strlit("computer_use");
    reveal_strlit("computer-use");
    reveal_strlit("coco");
    reveal_strlit("think-");
    reveal_strlit("think_");
    let n = mode_name(m);
    assert(n.len() > 0);
    assert(n != "chat"@ ==> n.len() != 4 || n[1] != "chat"@[1]);
    assert(n != "coco"@ ==> n.len() != 4 || n[1] != "coco"@[1]);
    assert(n.len() >= 6 ==> n[0] != 't');
    assert(n.len() >= 6 ==> n.subrange(0, 6)[0] == n[0]);
}

/// Every name that `GET /v1/models` lists is accepted by `from_openai_name`.
pub proof fn lemma_available_models_accepted(i: int)
    requires
        0 <= i < available_model_names().len(),
    ensures
        model_of_name(available_model_names()[i]) is Some,
{
    reveal_strlit("smart");
    reveal_strlit("chat");
    reveal_strlit("reasoning");
    reveal_strlit("coco");
    reveal_strlit("");
    reveal_strlit("default");
    let n = available_model_names()[i];
    if i == 0 {
        lemma_mode_name_round_trip(CopilotModel::Smart);
    } else if i == 1 {
        lemma_mode_name_round_trip(CopilotModel::Chat);
    } else if i == 2 {
        lemma_mode_name_round_trip(CopilotModel::Reasoning);
    } else {
        lemma_mode_name_round_trip(CopilotModel::Coco);
    }
}

} // verus!
