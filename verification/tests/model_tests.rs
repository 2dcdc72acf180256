use copilot_proxy::error::AppError;
use copilot_proxy::model::{available_models, CopilotModel};

#[test]
fn model_names_map_to_models() {
    let cases = [
        ("", CopilotModel::Default),
        ("default", CopilotModel::Default),
        ("chat", CopilotModel::Chat),
        ("smart", CopilotModel::Smart),
        ("reasoning", CopilotModel::Reasoning),
        ("research", CopilotModel::Research),
        ("computer_use", CopilotModel::ComputerUse),
        ("computer-use", CopilotModel::ComputerUse),
        ("coco", CopilotModel::Coco),
        ("think-deeper", CopilotModel::Reasoning),
        ("think_fast", CopilotModel::Reasoning),
    ];
    for (name, expected) in cases {
        assert_eq!(CopilotModel::from_openai_name(name).unwrap(), expected, "{name}");
    }
}

#[test]
fn unknown_model_is_rejected_with_quoted_name() {
    match CopilotModel::from_openai_name("gpt-4o") {
        Err(AppError::UnsupportedModel(msg)) => assert_eq!(
            msg,
            "unsupported model \"gpt-4o\"; available: default, chat, smart, reasoning, research, computer_use"
        ),
        other => panic!("unexpected {other:?}"),
    }
}

#[test]
fn think_alone_and_case_variants_are_rejected() {
    assert!(CopilotModel::from_openai_name("think").is_err());
    assert!(CopilotModel::from_openai_name("Chat").is_err());
    assert!(CopilotModel::from_openai_name("default ").is_err());
}

#[test]
fn mode_names_round_trip() {
    let all = [
        CopilotModel::Default,
        CopilotModel::Chat,
        CopilotModel::Smart,
        CopilotModel::Reasoning,
        CopilotModel::Research,
        CopilotModel::ComputerUse,
        CopilotModel::Coco,
    ];
    for m in all {
        assert_eq!(CopilotModel::from_openai_name(m.to_copilot_mode()).unwrap(), m);
    }
    assert_eq!(CopilotModel::ComputerUse.to_copilot_mode(), "computer_use");
}

#[test]
fn available_models_are_listed_and_accepted() {
    let names = available_models();
    assert_eq!(names, vec!["smart", "chat", "reasoning", "coco"]);
    for n in &names {
        assert!(CopilotModel::from_openai_name(n).is_ok());
    }
}

#[test]
fn unsupported_model_error_message() {
    match copilot_proxy::model::unsupported_model_error("\"x\"") {
        AppError::UnsupportedModel(m) => assert_eq!(
            m,
            "unsupported model \"x\"; available: default, chat, smart, reasoning, research, computer_use"
        ),
        other => panic!("{other:?}"),
    }
}
