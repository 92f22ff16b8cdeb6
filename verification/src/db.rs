//! The records of the history.

use crate::text::same_text;
use vstd::prelude::*;
use vstd::string::*;

verus! {

/// What a voice-to-text job leaves behind.
#[derive(Debug, PartialEq, Eq)]
pub struct VoiceToTextData {
    pub text: String,
    pub audio_path: String,
}

/// What a workflow leaves behind, by its type.
#[derive(Debug, PartialEq, Eq)]
pub enum WorkflowData {
    VoiceToText(VoiceToTextData),
}

/// The types of workflow.
#[derive(Debug, Clone, Copy, PartialEq, Eq, Structural)]
pub enum WorkflowType {
    VoiceToText,
}

/// Why a record of the history could not be read.
#[derive(Debug, Clone, Copy, PartialEq, Eq, Structural)]
pub enum WorkflowError {
    /// The record names a type of workflow that is not known.
    UnknownType,
}

impl WorkflowType {
    /// The type that `s` names.
    pub fn from_str(s: &str) -> (r: Result<WorkflowType, WorkflowError>)
        ensures
            r == (if s@ == "VoiceToText"@ {
                Ok::<WorkflowType, WorkflowError>(WorkflowType::VoiceToText)
            } else {
                Err::<WorkflowType, WorkflowError>(WorkflowError::UnknownType)
            }),
    {
        if same_text(s, "VoiceToText") {
            Ok(WorkflowType::VoiceToText)
        } else {
            Err(WorkflowError::UnknownType)
        }
    }

    /// The name of this type.
    pub fn to_str(&self) -> (r: &'static str)
        ensures
            r@ == "VoiceToText"@,
    {
        match self {
            WorkflowType::VoiceToText => "VoiceToText",
        }
    }
}

/// One record of the history.
#[derive(Debug, PartialEq, Eq)]
pub struct Workflow {
    /// The identifier of the record, once it is stored.
    pub id: Option<i64>,
    /// When the record was stored.
    pub created_at: Option<String>,
    pub workflow_type: WorkflowType,
    pub data: WorkflowData,
}

impl WorkflowData {
    /// The type of workflow that this data belongs to.
    pub fn workflow_type(&self) -> (r: WorkflowType)
        ensures
            r == WorkflowType::VoiceToText,
    {
        match self {
            WorkflowData::VoiceToText(_) => WorkflowType::VoiceToText,
        }
    }

    /// The text of the record.
    pub open spec fn spec_text(&self) -> Seq<char> {
        match self {
            WorkflowData::VoiceToText(data) => data.text@,
        }
    }

    /// The text of the record.
    pub fn text(&self) -> (r: &str)
        ensures
            r@ == self.spec_text(),
    {
        match self {
            WorkflowData::VoiceToText(data) => data.text.as_str(),
        }
    }
}

impl Workflow {
    /// A record that is not stored yet, for the text `text` of the recording
    /// at `audio_path`.
    pub fn voice_to_text(text: String, audio_path: String) -> (r: Self)
        ensures
            r.id is None,
            r.created_at is None,
            r.workflow_type == WorkflowType::VoiceToText,
            r.data == WorkflowData::VoiceToText(VoiceToTextData { text, audio_path }),
    {
        Workflow {
            id: None,
            created_at: None,
            workflow_type: WorkflowType::VoiceToText,
            data: WorkflowData::VoiceToText(VoiceToTextData { text, audio_path }),
        }
    }
}

/// Index of the first record of `workflows` from `i` on with identifier
/// `id`, or the length of `workflows` if there is none.
pub open spec fn position_of_id(workflows: Seq<Workflow>, id: i64, i: int) -> int
    decreases workflows.len() - i,
{
    if 0 <= i < workflows.len() && workflows[i].id != Some(id) {
        position_of_id(workflows, id, i + 1)
    } else {
        i
    }
}

/// The first record with identifier `id`.
pub fn find_workflow(workflows: &Vec<Workflow>, id: i64) -> (r: Option<&Workflow>)
    ensures
        match r {
            Some(w) => position_of_id(workflows@, id, 0) < workflows@.len() && *w
                == workflows@[position_of_id(workflows@, id, 0)] && w.id == Some(id),
            None => position_of_id(workflows@, id, 0) == workflows@.len() && forall|i: int|
                0 <= i < workflows@.len() ==> (#[trigger] workflows@[i]).id != Some(id),
        },
{
    let mut i: usize = 0;
    while i < workflows.len()
        invariant
            i <= workflows@.len(),
            position_of_id(workflows@, id, 0) == position_of_id(workflows@, id, i as int),
            forall|k: int| 0 <= k < i ==> (#[trigger] workflows@[k]).id != Some(id),
        decreases workflows@.len() - i,
    {
        let found = match workflows[i].id {
            Some(have) => have == id,
            None => false,
        };
        if found {
            return Some(&workflows[i]);
        }
        i += 1;
    }
    None
}

} // verus!
