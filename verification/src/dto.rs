//! The plain transfer values exchanged with the embedding application, and
//! the progress reports of batch transformations.

use vstd::prelude::*;
use crate::config::{ModelSize, spec_model_size_label, model_size_label};
use crate::manager::ServerStatus;
use crate::request::ChatMessage;

verus! {

/// The server status as handed to the frontend, with the model size as a
/// textual label.
#[derive(Debug, Clone)]
pub struct ServerStatusDto {
    pub is_running: bool,
    pub server_url: String,
    pub model_path: String,
    pub port: u16,
    pub model_size: String,
    pub gpu_layers: i32,
}

impl ServerStatus {
    /// The transfer value of this status, labelling the given model size.
    pub fn to_dto(self, size: Option<ModelSize>) -> (r: ServerStatusDto)
        ensures
            r.is_running == self.is_running,
            r.server_url@ == self.server_url@,
            r.model_path@ == self.model_path@,
            r.port == self.port,
            r.model_size@ == spec_model_size_label(size),
            r.gpu_layers == self.gpu_layers,
    {
        ServerStatusDto {
            is_running: self.is_running,
            server_url: self.server_url,
            model_path: self.model_path,
            port: self.port,
            model_size: model_size_label(size),
            gpu_layers: self.gpu_layers,
        }
    }
}

/// A question transformed into multiple-choice form, as the sidecar's JSON
/// answer describes it.
#[derive(Debug, Clone)]
pub struct TransformedQuestion {
    pub question: String,
    pub correct_answer: String,
    pub distractors: Vec<String>,
    pub explanation: String,
    pub knowledge_tags: Vec<String>,
}

/// The transfer value of a transformed question.
#[derive(Debug, Clone)]
pub struct TransformedQuestionDto {
    pub question: String,
    pub correct_answer: String,
    pub distractors: Vec<String>,
    pub explanation: String,
    pub knowledge_tags: Vec<String>,
}

impl TransformedQuestion {
    /// The transfer value of this transformation, field for field.
    pub fn to_dto(self) -> (r: TransformedQuestionDto)
        ensures
            r.question@ == self.question@,
            r.correct_answer@ == self.correct_answer@,
            r.distractors.deep_view() == self.distractors.deep_view(),
            r.explanation@ == self.explanation@,
            r.knowledge_tags.deep_view() == self.knowledge_tags.deep_view(),
    {
        TransformedQuestionDto {
            question: self.question,
            correct_answer: self.correct_answer,
            distractors: self.distractors,
            explanation: self.explanation,
            knowledge_tags: self.knowledge_tags,
        }
    }
}

/// One chat turn as handed over by the frontend.
#[derive(Debug, Clone)]
pub struct ChatMessageDto {
    pub role: String,
    pub content: String,
}

impl ChatMessageDto {
    /// The chat turn this transfer value names.
    pub fn to_message(self) -> (r: ChatMessage)
        ensures
            r.role@ == self.role@,
            r.content@ == self.content@,
    {
        ChatMessage { role: self.role, content: self.content }
    }
}

/// One fill-in-the-blank question of a batch transformation.
#[derive(Debug, Clone)]
pub struct FillInBlankInput {
    pub question: String,
    pub answer: String,
    pub difficulty: u32,
}

/// One progress notification of a batch operation.
#[derive(Debug, Clone)]
pub struct ProgressUpdate {
    pub current: u32,
    pub total: u32,
    pub status: String,
    pub current_item: Option<String>,
}

/// The transfer value of a progress notification.
#[derive(Debug, Clone)]
pub struct ProgressUpdateDto {
    pub current: u32,
    pub total: u32,
    pub status: String,
    pub current_item: Option<String>,
}

impl ProgressUpdate {
    /// The notification sent while the item at `index` (counted from zero)
    /// of `total` items is being processed.
    pub fn processing(index: u32, total: u32, item: String) -> (r: ProgressUpdate)
        requires
            index < u32::MAX,
        ensures
            r.current == index + 1,
            r.total == total,
            r.status@ == "processing"@,
            r.current_item matches Some(it) && it@ == item@,
    {
        ProgressUpdate {
            current: index + 1,
            total,
            status: String::from_str("processing"),
            current_item: Some(item),
        }
    }

    /// The notification sent once all `total` items are done.
    pub fn completed(total: u32) -> (r: ProgressUpdate)
        ensures
            r.current == total,
            r.total == total,
            r.status@ == "completed"@,
            r.current_item is None,
    {
        ProgressUpdate {
            current: total,
            total,
            status: String::from_str("completed"),
            current_item: None,
        }
    }

    /// The transfer value of this notification, field for field.
    pub fn to_dto(self) -> (r: ProgressUpdateDto)
        ensures
            r.current == self.current,
            r.total == self.total,
            r.status@ == self.status@,
            match self.current_item {
                Some(it) => r.current_item matches Some(it2) && it2@ == it@,
                None => r.current_item is None,
            },
    {
        ProgressUpdateDto {
            current: self.current,
            total: self.total,
            status: self.status,
            current_item: self.current_item,
        }
    }
}

} // verus!
