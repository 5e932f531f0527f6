use llama_sidecar::dto::{ChatMessageDto, ProgressUpdate, TransformedQuestion};
use llama_sidecar::jsonenc::{completion_body, embed_body};
use llama_sidecar::prompt::QuestionTransformationPrompt;
use llama_sidecar::request::{
    build_chat_prompt, chat_request, distractors_request, explanation_request, tags_request,
    transform_request, ChatMessage, InferenceRequest,
};

#[test]
fn fill_in_blank_prompt_exact() {
    let got = QuestionTransformationPrompt::fill_in_blank_to_multiple_choice(
        "水的化学式是 _____。",
        "H2O",
        2,
    );
    let expected = format!(
        "{}{}{}{}{}{}{}{}{}{}{}",
        "You are an expert exam question designer. Your task is to convert a fill-in-the-blank question into a high-quality multiple-choice question.\n\n## Original Question:\n",
        "水的化学式是 _____。",
        "\n\n## Correct Answer:\n",
        "H2O",
        "\n\n## Difficulty Level: ",
        "2",
        "\n\n## Requirements:\n1. ",
        "生成中等难度的干扰项，需要理解题目含义才能区分",
        "\n2. Generate exactly 3 distractors (wrong options)\n3. Each distractor must be:\n   - Plausible (could be a reasonable answer if not carefully considered)\n   - Grammatically consistent with the correct answer\n   - In the same category/concept as the correct answer\n   - Not obviously wrong\n\n4. Distractor design principles:\n   - **Grammar level**: Same part of speech, tense, number agreement\n   - **Semantic level**: Same concept category, related terms\n   - **Cognitive level**: Common misconceptions, frequently confused concepts\n\n5. Output format (JSON):\n{\n  \"question\": \"The multiple-choice question with [BLANK] replaced by _____\",\n  \"correct_answer\": \"",
        "H2O",
        "\",\n  \"distractors\": [\"distractor1\", \"distractor2\", \"distractor3\"],\n  \"explanation\": \"Brief explanation of why the correct answer is correct\"\n}\n\nOutput only the JSON, no other text."
    );
    assert_eq!(got, expected);
}

#[test]
fn explanation_prompt_exact() {
    let got = QuestionTransformationPrompt::generate_explanation("Why is the sky blue?", "Rayleigh scattering");
    let expected = format!(
        "{}{}{}{}{}",
        "You are an expert tutor. Provide a detailed step-by-step explanation for the following question.\n\n## Question:\n",
        "Why is the sky blue?",
        "\n\n## Answer:\n",
        "Rayleigh scattering",
        "\n\n## Please provide:\n1. **Analysis**: Break down the question and identify key concepts\n2. **Step-by-step Solution**: Show the reasoning process\n3. **Key Points**: Highlight the most important takeaways\n4. **Common Mistakes**: What errors do students typically make?\n\nBe thorough and educational. Use clear formatting with headings and bullet points."
    );
    assert_eq!(got, expected);
}

#[test]
fn knowledge_tags_prompt_exact() {
    let got = QuestionTransformationPrompt::extract_knowledge_tags("What is a derivative?");
    let expected = format!(
        "{}{}{}",
        "Analyze the following question and extract relevant knowledge tags.\n\n## Question:\n",
        "What is a derivative?",
        "\n\n## Output format:\nReturn a JSON array of tags, including:\n- Subject category (e.g., \"math\", \"physics\", \"programming\", \"english\")\n- Topic (e.g., \"calculus\", \"mechanics\", \"algorithms\", \"grammar\")\n- Specific concepts (e.g., \"derivatives\", \"newton's laws\", \"binary search\", \"verb tenses\")\n- Difficulty indicators (e.g., \"fundamental\", \"intermediate\", \"advanced\")\n\nExample output:\n[\"math\", \"calculus\", \"derivatives\", \"chain rule\", \"intermediate\"]\n\nOutput only the JSON array, no other text."
    );
    assert_eq!(got, expected);
}

#[test]
fn distractors_prompt_exact() {
    let got = QuestionTransformationPrompt::generate_distractors("2+2=?", "4", 3, 1);
    let expected = format!(
        "{}{}{}{}{}{}{}{}{}{}{}",
        "You are an expert question designer. Generate ",
        "3",
        " distractor options for a multiple-choice question.\n\n## Question:\n",
        "2+2=?",
        "\n\n## Correct Answer:\n",
        "4",
        "\n\n## Difficulty: ",
        "1",
        "\n\n## Distractor Generation Guidelines:\n1. **Plausibility**: Each distractor must seem reasonable\n2. **Consistency**: Match the format and style of the correct answer\n3. **Common Errors**: Target typical student mistakes\n4. **Variety**: Each distractor should be wrong for a different reason\n\nGenerate exactly ",
        "3",
        " unique distractors. Output as a JSON array of strings.\n\nExample:\n[\"wrong_option_1\", \"wrong_option_2\", \"wrong_option_3\"]"
    );
    assert_eq!(got, expected);
}

#[test]
fn chat_prompt_flattens_roles_in_order() {
    let messages = vec![
        ChatMessage { role: "system".to_string(), content: "Be brief.".to_string() },
        ChatMessage { role: "user".to_string(), content: "Hi".to_string() },
        ChatMessage { role: "assistant".to_string(), content: "Hello!".to_string() },
        ChatMessage { role: "tool".to_string(), content: "ignored".to_string() },
    ];
    let got = build_chat_prompt(&messages);
    let expected = "<|im_start|>system\nBe brief.\n<|im_end|>\n\
                    <|im_start|>user\nHi\n<|im_end|>\n\
                    <|im_start|>assistant\nHello!\n<|im_end|>\n\
                    <|im_start|>assistant\n";
    assert_eq!(got, expected);
}

#[test]
fn chat_request_sets_default_stops() {
    let messages = vec![ChatMessage { role: "user".to_string(), content: "Hi".to_string() }];
    let req = chat_request(&messages, 128, 7);
    assert_eq!(req.max_tokens, 128);
    assert_eq!(req.temperature, 7);
    assert_eq!(req.stop_tokens, vec!["</s>", "[/INST]"]);
    assert!(!req.stream);
}

#[test]
fn command_request_budgets() {
    let t = transform_request("q", "a", 2);
    assert_eq!((t.max_tokens, t.temperature, t.stream), (1024, 7, false));
    assert!(t.stop_tokens.is_empty());
    let dtr = distractors_request("q", "a", 3);
    assert_eq!((dtr.max_tokens, dtr.temperature), (512, 8));
    let ex = explanation_request("q", "a");
    assert_eq!((ex.max_tokens, ex.temperature), (2048, 7));
    let tg = tags_request("q");
    assert_eq!((tg.max_tokens, tg.temperature), (256, 3));
}

#[test]
fn completion_body_exact_and_valid_json() {
    let req = InferenceRequest {
        prompt: "Say \"hi\"\nplease".to_string(),
        max_tokens: 64,
        temperature: 7,
        stop_tokens: vec!["</s>".to_string(), "stop\"word".to_string()],
        stream: false,
    };
    let body = completion_body(&req);
    // the body is exactly what the sidecar's completion endpoint expects
    let v: serde_json::Value = serde_json::from_str(&body).expect("valid JSON");
    assert_eq!(v.get("prompt").and_then(|p| p.as_str()), Some("Say \"hi\"\nplease"));
    assert_eq!(v.get("n_predict").and_then(|n| n.as_u64()), Some(64));
    assert_eq!(v.get("stream").and_then(|b| b.as_bool()), Some(false));
    assert_eq!(v.get("cache_prompt").and_then(|b| b.as_bool()), Some(true));
    let stops: Vec<&str> = v.get("stop").and_then(|s| s.as_array()).expect("stop array")
        .iter().map(|x| x.as_str().expect("string")).collect();
    assert_eq!(stops, vec!["</s>", "stop\"word"]);
    assert!(body.contains("\"temperature\":0.7"));
}

#[test]
fn completion_body_exact_text() {
    let req = InferenceRequest {
        prompt: "hi".to_string(),
        max_tokens: 16,
        temperature: 8,
        stop_tokens: Vec::new(),
        stream: true,
    };
    assert_eq!(
        completion_body(&req),
        "{\"prompt\":\"hi\",\"n_predict\":16,\"temperature\":0.8,\"stop\":[],\"stream\":true,\"cache_prompt\":true}"
    );
}

#[test]
fn control_characters_are_escaped() {
    let req = InferenceRequest {
        prompt: "a\u{1}b\tc".to_string(),
        max_tokens: 1,
        temperature: 7,
        stop_tokens: Vec::new(),
        stream: false,
    };
    let body = completion_body(&req);
    assert!(body.contains("a\\u0001b\\tc"));
    let v: serde_json::Value = serde_json::from_str(&body).expect("valid JSON");
    assert_eq!(v.get("prompt").and_then(|p| p.as_str()), Some("a\u{1}b\tc"));
}

#[test]
fn embed_body_exact() {
    assert_eq!(embed_body("text to embed"), "{\"content\":\"text to embed\"}");
    let body = embed_body("数学 \"quoted\"");
    let v: serde_json::Value = serde_json::from_str(&body).expect("valid JSON");
    assert_eq!(v.get("content").and_then(|c| c.as_str()), Some("数学 \"quoted\""));
}

#[test]
fn progress_updates() {
    let p = ProgressUpdate::processing(0, 3, "first question".to_string());
    assert_eq!(p.current, 1);
    assert_eq!(p.total, 3);
    assert_eq!(p.status, "processing");
    assert_eq!(p.current_item.as_deref(), Some("first question"));
    let done = ProgressUpdate::completed(3);
    assert_eq!(done.current, 3);
    assert_eq!(done.status, "completed");
    assert!(done.current_item.is_none());
    let dto = p.to_dto();
    assert_eq!(dto.current, 1);
    assert_eq!(dto.status, "processing");
}

#[test]
fn transformed_question_to_dto() {
    let tq = TransformedQuestion {
        question: "q".to_string(),
        correct_answer: "a".to_string(),
        distractors: vec!["b".to_string(), "c".to_string()],
        explanation: "e".to_string(),
        knowledge_tags: vec!["math".to_string()],
    };
    let dto = tq.to_dto();
    assert_eq!(dto.question, "q");
    assert_eq!(dto.correct_answer, "a");
    assert_eq!(dto.distractors, vec!["b", "c"]);
    assert_eq!(dto.explanation, "e");
    assert_eq!(dto.knowledge_tags, vec!["math"]);
    let msg = ChatMessageDto { role: "user".to_string(), content: "hey".to_string() }.to_message();
    assert_eq!(msg.role, "user");
    assert_eq!(msg.content, "hey");
}

#[test]
fn backslash_is_escaped_in_bodies() {
    let body = embed_body("a\\b\"c");
    assert_eq!(body, "{\"content\":\"a\\\\b\\\"c\"}");
    let v: serde_json::Value = serde_json::from_str(&body).expect("valid JSON");
    assert_eq!(v.get("content").and_then(|c| c.as_str()), Some("a\\b\"c"));
}
