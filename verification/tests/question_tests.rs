use std::str::FromStr;

use llm_core::{AdditionalCodeGenerator, PromptTemplate, Question, QuestionType};

#[test]
fn test_question_type_as_str() {
    assert_eq!(QuestionType::SingleChoice.as_str(), "单选题");
    assert_eq!(QuestionType::Reading.as_str(), "阅读理解");
    assert_eq!(QuestionType::ClozeTest.as_str(), "完形填空");
}

#[test]
fn test_question_creation() {
    let question = Question::new(
        QuestionType::SingleChoice,
        "这是一个测试题目".to_string(),
        None,
    );

    assert_eq!(question.get_type(), QuestionType::SingleChoice);
    assert_eq!(question.get_stem(), "这是一个测试题目");
    assert!(!question.is_complete()); // no output yet, so not complete
}

#[test]
fn test_prompt_template() {
    let template = PromptTemplate::new(QuestionType::SingleChoice);
    let prompt = template.get_prompt();

    assert!(prompt.contains("JavaScript"));
    assert!(prompt.contains("Questions"));
}

#[test]
fn test_additional_code_generator() {
    let generator = AdditionalCodeGenerator::new(QuestionType::ClozeTest);
    let code = generator.get_code();

    assert!(code.contains("完形填空"));
    assert!(code.contains("function"));
}

#[test]
fn test_question_type_from_str() {
    assert_eq!(QuestionType::from_str("单选题"), Ok(QuestionType::SingleChoice));
    assert_eq!(QuestionType::from_str("完型填空"), Ok(QuestionType::ClozeTest));
    assert_eq!(QuestionType::from_str("多个填空题"), Ok(QuestionType::MutiTiankong));
    assert_eq!(QuestionType::from_str("nonsense"), Err(()));
}

#[test]
fn test_question_id_is_fresh_16_bytes() {
    let a = Question::new(QuestionType::Reading, "stem".to_string(), None);
    let b = Question::new(QuestionType::Reading, "stem".to_string(), None);
    assert_eq!(a.get_id().len(), 16);
    assert_eq!(b.get_id().len(), 16);
    assert_ne!(a.get_id(), b.get_id());
}

#[test]
fn test_question_summary_shape() {
    let mut q = Question::new(QuestionType::SingleChoice, "A short stem".to_string(), None);
    let summary = q.get_summary();
    assert!(summary.starts_with("[单选题] 未完成 - 无图片 - A short stem - ID: "));
    let id_part = summary.rsplit("ID: ").next().unwrap();
    assert_eq!(id_part.len(), 36);
    assert_eq!(id_part.matches('-').count(), 4);
    assert!(id_part
        .chars()
        .all(|c| c == '-' || c.is_ascii_hexdigit()));

    q.set_model_reply("answer".to_string());
    q.set_img_path(Some("shot.png".to_string()));
    let summary2 = q.get_summary();
    assert!(summary2.starts_with("[单选题] 已完成 - 有图片 - A short stem - ID: "));
}

#[test]
fn test_question_outputs() {
    let mut q = Question::new(QuestionType::Reading, "".to_string(), None);
    assert!(q.get_output().is_none());
    assert!(!q.is_complete());

    q.set_output_example_for_test();
    assert_eq!(q.get_output(), Some("This is an example output."));
    assert!(!q.is_complete()); // stem is still empty

    q.set_stem("now a stem".to_string());
    assert!(q.is_complete());

    q.set_model_reply("the reply".to_string());
    let final_output = q.get_final_output();
    assert!(final_output.starts_with("the reply\n\n"));
    assert!(final_output.contains("function"));

    let joined = q.prompt_stem();
    assert!(joined.starts_with("now a stem"));
    assert_eq!(joined.len(), "now a stem".len() + q.get_prompt().len());
}

#[test]
fn test_question_summary_clips_long_stems() {
    let long_stem: String = "x".repeat(80);
    let q = Question::new(QuestionType::Reading, long_stem, None);
    let summary = q.get_summary();
    let clipped: String = "x".repeat(50);
    assert!(summary.contains(&clipped));
    assert!(!summary.contains(&"x".repeat(51)));
}
