use ponder::ai::ollama::{EmbedModel, Message, PromptText};
use ponder::ai::prompts::{ask_prompt, reflect_prompt, SYSTEM_PROMPT};

#[test]
fn test_message_constructors() {
    let system = Message::system("You are a helpful assistant");
    assert_eq!(system.role, "system");
    assert_eq!(system.content, "You are a helpful assistant");

    let user = Message::user("Hello");
    assert_eq!(user.role, "user");
    assert_eq!(user.content, "Hello");

    let assistant = Message::assistant("Hi there!");
    assert_eq!(assistant.role, "assistant");
    assert_eq!(assistant.content, "Hi there!");
}

#[test]
fn test_reflect_prompt_structure() {
    let entry = "Today was a good day. I learned something new.";
    let messages = reflect_prompt(entry);

    assert_eq!(messages.len(), 2);
    assert_eq!(messages[0].role, "system");
    assert_eq!(messages[0].content, SYSTEM_PROMPT);
    assert_eq!(messages[1].role, "user");
    assert!(messages[1].content.contains(entry));
    assert!(messages[1].content.contains("reflect"));
}

#[test]
fn test_ask_prompt_with_context() {
    let question = "What did I learn last week?";
    let context = vec![
        "Monday: Learned about Rust".to_string(),
        "Tuesday: Practiced async programming".to_string(),
    ];
    let messages = ask_prompt(question, &context);

    assert_eq!(messages.len(), 2);
    assert_eq!(messages[0].role, "system");
    assert_eq!(messages[1].role, "user");
    assert!(messages[1].content.contains(question));
    assert!(messages[1].content.contains("Rust"));
    assert!(messages[1].content.contains("async programming"));
}

#[test]
fn test_ask_prompt_without_context() {
    let question = "What did I do today?";
    let messages = ask_prompt(question, &[]);

    assert_eq!(messages.len(), 2);
    assert!(messages[1].content.contains(question));
    assert!(messages[1].content.contains("No relevant journal entries found"));
}

#[test]
fn test_system_prompt_not_empty() {
    assert!(SYSTEM_PROMPT.contains("journal"));
    assert!(SYSTEM_PROMPT.contains("Reflect") || SYSTEM_PROMPT.contains("reflect"));
}

#[test]
fn test_reflect_prompt_includes_guidance() {
    let messages = reflect_prompt("Test entry");
    assert!(messages[1].content.contains("themes"));
    assert!(messages[1].content.contains("reflect"));
}

#[test]
fn test_ask_prompt_includes_instructions() {
    let messages = ask_prompt("test question", &["context".to_string()]);
    assert!(messages[1].content.contains("based") || messages[1].content.contains("Based"));
    assert!(messages[1].content.contains("cite") || messages[1].content.contains("Cite"));
}

#[test]
fn ask_prompt_numbers_context_entries_in_order() {
    let messages = ask_prompt("q", &["first".to_string(), "second".to_string()]);
    let content = &messages[1].content;
    let a = content.find("first").unwrap();
    let b = content.find("second").unwrap();
    assert!(a < b);
    assert!(content.contains("[Context 1]"));
    assert!(content.contains("[Context 2]"));
}

#[test]
fn model_and_prompt_wrappers_keep_their_text() {
    assert_eq!(EmbedModel::new("nomic-embed-text").as_str(), "nomic-embed-text");
    assert_eq!(PromptText::new("hello").as_str(), "hello");
}
