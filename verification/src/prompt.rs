//! Prompt construction for question transformation: pure text templating
//! with exact character-level contracts.

use vstd::prelude::*;
use crate::numfmt::{spec_dec, append_u32};

verus! {

/// The distractor-design instruction chosen for a difficulty grade; grades
/// outside 1 to 3 get the generic instruction.
pub open spec fn spec_difficulty_instruction(difficulty: u32) -> Seq<char> {
    if difficulty == 1 {
        "生成简单的干扰项，只改变1-2个字符"@
    } else if difficulty == 2 {
        "生成中等难度的干扰项，需要理解题目含义才能区分"@
    } else if difficulty == 3 {
        "生成高难度干扰项，语义接近正确答案，容易混淆"@
    } else {
        "生成合理的干扰项"@
    }
}

/// The prompt that converts a fill-in-the-blank question into a
/// multiple-choice question.
pub open spec fn spec_fill_in_blank_prompt(
    question: Seq<char>,
    answer: Seq<char>,
    difficulty: u32,
) -> Seq<char> {
    "You are an expert exam question designer. Your task is to convert a fill-in-the-blank question into a high-quality multiple-choice question.\n\n## Original Question:\n"@ + question
        + "\n\n## Correct Answer:\n"@ + answer
        + "\n\n## Difficulty Level: "@ + spec_dec(difficulty as nat)
        + "\n\n## Requirements:\n1. "@ + spec_difficulty_instruction(difficulty)
        + "\n2. Generate exactly 3 distractors (wrong options)\n3. Each distractor must be:\n   - Plausible (could be a reasonable answer if not carefully considered)\n   - Grammatically consistent with the correct answer\n   - In the same category/concept as the correct answer\n   - Not obviously wrong\n\n4. Distractor design principles:\n   - **Grammar level**: Same part of speech, tense, number agreement\n   - **Semantic level**: Same concept category, related terms\n   - **Cognitive level**: Common misconceptions, frequently confused concepts\n\n5. Output format (JSON):\n{\n  \"question\": \"The multiple-choice question with [BLANK] replaced by _____\",\n  \"correct_answer\": \""@ + answer
        + "\",\n  \"distractors\": [\"distractor1\", \"distractor2\", \"distractor3\"],\n  \"explanation\": \"Brief explanation of why the correct answer is correct\"\n}\n\nOutput only the JSON, no other text."@
}

/// The prompt that asks for a step-by-step explanation.
pub open spec fn spec_explanation_prompt(question: Seq<char>, answer: Seq<char>) -> Seq<char> {
    "You are an expert tutor. Provide a detailed step-by-step explanation for the following question.\n\n## Question:\n"@ + question
        + "\n\n## Answer:\n"@ + answer
        + "\n\n## Please provide:\n1. **Analysis**: Break down the question and identify key concepts\n2. **Step-by-step Solution**: Show the reasoning process\n3. **Key Points**: Highlight the most important takeaways\n4. **Common Mistakes**: What errors do students typically make?\n\nBe thorough and educational. Use clear formatting with headings and bullet points."@
}

/// The prompt that asks for knowledge tags.
pub open spec fn spec_knowledge_tags_prompt(question: Seq<char>) -> Seq<char> {
    "Analyze the following question and extract relevant knowledge tags.\n\n## Question:\n"@ + question
        + "\n\n## Output format:\nReturn a JSON array of tags, including:\n- Subject category (e.g., \"math\", \"physics\", \"programming\", \"english\")\n- Topic (e.g., \"calculus\", \"mechanics\", \"algorithms\", \"grammar\")\n- Specific concepts (e.g., \"derivatives\", \"newton's laws\", \"binary search\", \"verb tenses\")\n- Difficulty indicators (e.g., \"fundamental\", \"intermediate\", \"advanced\")\n\nExample output:\n[\"math\", \"calculus\", \"derivatives\", \"chain rule\", \"intermediate\"]\n\nOutput only the JSON array, no other text."@
}

/// The prompt that asks for `count` distractor options.
pub open spec fn spec_distractors_prompt(
    question: Seq<char>,
    correct_answer: Seq<char>,
    count: u32,
    difficulty: u32,
) -> Seq<char> {
    "You are an expert question designer. Generate "@ + spec_dec(count as nat)
        + " distractor options for a multiple-choice question.\n\n## Question:\n"@ + question
        + "\n\n## Correct Answer:\n"@ + correct_answer
        + "\n\n## Difficulty: "@ + spec_dec(difficulty as nat)
        + "\n\n## Distractor Generation Guidelines:\n1. **Plausibility**: Each distractor must seem reasonable\n2. **Consistency**: Match the format and style of the correct answer\n3. **Common Errors**: Target typical student mistakes\n4. **Variety**: Each distractor should be wrong for a different reason\n\nGenerate exactly "@ + spec_dec(count as nat)
        + " unique distractors. Output as a JSON array of strings.\n\nExample:\n[\"wrong_option_1\", \"wrong_option_2\", \"wrong_option_3\"]"@
}

/// Builders for the prompts sent to the sidecar when transforming questions.
pub struct QuestionTransformationPrompt;

impl QuestionTransformationPrompt {
    /// Builds the prompt converting a fill-in-the-blank question into a
    /// multiple-choice question at the given difficulty grade.
    pub fn fill_in_blank_to_multiple_choice(
        question: &str,
        answer: &str,
        difficulty: u32,
    ) -> (r: String)
        ensures
            r@ == spec_fill_in_blank_prompt(question@, answer@, difficulty),
    {
        let instruction: &str = if difficulty == 1 {
            "生成简单的干扰项，只改变1-2个字符"
        } else if difficulty == 2 {
            "生成中等难度的干扰项，需要理解题目含义才能区分"
        } else if difficulty == 3 {
            "生成高难度干扰项，语义接近正确答案，容易混淆"
        } else {
            "生成合理的干扰项"
        };
        let mut s = String::new();
        s.append("You are an expert exam question designer. Your task is to convert a fill-in-the-blank question into a high-quality multiple-choice question.\n\n## Original Question:\n");
        s.append(question);
        s.append("\n\n## Correct Answer:\n");
        s.append(answer);
        s.append("\n\n## Difficulty Level: ");
        append_u32(&mut s, difficulty);
        s.append("\n\n## Requirements:\n1. ");
        s.append(instruction);
        s.append("\n2. Generate exactly 3 distractors (wrong options)\n3. Each distractor must be:\n   - Plausible (could be a reasonable answer if not carefully considered)\n   - Grammatically consistent with the correct answer\n   - In the same category/concept as the correct answer\n   - Not obviously wrong\n\n4. Distractor design principles:\n   - **Grammar level**: Same part of speech, tense, number agreement\n   - **Semantic level**: Same concept category, related terms\n   - **Cognitive level**: Common misconceptions, frequently confused concepts\n\n5. Output format (JSON):\n{\n  \"question\": \"The multiple-choice question with [BLANK] replaced by _____\",\n  \"correct_answer\": \"");
        s.append(answer);
        s.append("\",\n  \"distractors\": [\"distractor1\", \"distractor2\", \"distractor3\"],\n  \"explanation\": \"Brief explanation of why the correct answer is correct\"\n}\n\nOutput only the JSON, no other text.");
        proof {
            assert(s@ =~= spec_fill_in_blank_prompt(question@, answer@, difficulty));
        }
        s
    }

    /// Builds the prompt asking for a step-by-step explanation of a question
    /// and its answer.
    pub fn generate_explanation(question: &str, answer: &str) -> (r: String)
        ensures
            r@ == spec_explanation_prompt(question@, answer@),
    {
        let mut s = String::new();
        s.append("You are an expert tutor. Provide a detailed step-by-step explanation for the following question.\n\n## Question:\n");
        s.append(question);
        s.append("\n\n## Answer:\n");
        s.append(answer);
        s.append("\n\n## Please provide:\n1. **Analysis**: Break down the question and identify key concepts\n2. **Step-by-step Solution**: Show the reasoning process\n3. **Key Points**: Highlight the most important takeaways\n4. **Common Mistakes**: What errors do students typically make?\n\nBe thorough and educational. Use clear formatting with headings and bullet points.");
        proof {
            assert(s@ =~= spec_explanation_prompt(question@, answer@));
        }
        s
    }

    /// Builds the prompt asking for knowledge tags of a question.
    pub fn extract_knowledge_tags(question: &str) -> (r: String)
        ensures
            r@ == spec_knowledge_tags_prompt(question@),
    {
        let mut s = String::new();
        s.append("Analyze the following question and extract relevant knowledge tags.\n\n## Question:\n");
        s.append(question);
        s.append("\n\n## Output format:\nReturn a JSON array of tags, including:\n- Subject category (e.g., \"math\", \"physics\", \"programming\", \"english\")\n- Topic (e.g., \"calculus\", \"mechanics\", \"algorithms\", \"grammar\")\n- Specific concepts (e.g., \"derivatives\", \"newton's laws\", \"binary search\", \"verb tenses\")\n- Difficulty indicators (e.g., \"fundamental\", \"intermediate\", \"advanced\")\n\nExample output:\n[\"math\", \"calculus\", \"derivatives\", \"chain rule\", \"intermediate\"]\n\nOutput only the JSON array, no other text.");
        proof {
            assert(s@ =~= spec_knowledge_tags_prompt(question@));
        }
        s
    }

    /// Builds the prompt asking for `count` distractor options.
    pub fn generate_distractors(
        question: &str,
        correct_answer: &str,
        count: u32,
        difficulty: u32,
    ) -> (r: String)
        ensures
            r@ == spec_distractors_prompt(question@, correct_answer@, count, difficulty),
    {
        let mut s = String::new();
        s.append("You are an expert question designer. Generate ");
        append_u32(&mut s, count);
        s.append(" distractor options for a multiple-choice question.\n\n## Question:\n");
        s.append(question);
        s.append("\n\n## Correct Answer:\n");
        s.append(correct_answer);
        s.append("\n\n## Difficulty: ");
        append_u32(&mut s, difficulty);
        s.append("\n\n## Distractor Generation Guidelines:\n1. **Plausibility**: Each distractor must seem reasonable\n2. **Consistency**: Match the format and style of the correct answer\n3. **Common Errors**: Target typical student mistakes\n4. **Variety**: Each distractor should be wrong for a different reason\n\nGenerate exactly ");
        append_u32(&mut s, count);
        s.append(" unique distractors. Output as a JSON array of strings.\n\nExample:\n[\"wrong_option_1\", \"wrong_option_2\", \"wrong_option_3\"]");
        proof {
            assert(s@ =~= spec_distractors_prompt(question@, correct_answer@, count, difficulty));
        }
        s
    }
}

} // verus!
