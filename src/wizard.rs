use vstd::prelude::*;

use crate::text::same_text;

verus! {

/// The release-notes marker of a new record.
#[derive(Clone, Debug)]
pub struct CustomNotes {
    pub notes: String,
}

/// Where the feature creation prompts stand.
#[derive(Clone, Copy, Debug, PartialEq, Eq, Structural)]
pub enum FeatureStep {
    Name,
    Description,
    Notes,
    Complete,
}

/// Where the requirement creation prompts stand.
#[derive(Clone, Copy, Debug, PartialEq, Eq, Structural)]
pub enum RequirementStep {
    Name,
    Description,
    Complete,
}

/// A feature being put together, one prompt at a time.
#[derive(Clone, Debug)]
pub struct FeatureCreate {
    pub name: String,
    pub description: String,
    pub release_id: String,
    pub custom_fields: Option<CustomNotes>,
    pub step: FeatureStep,
}

/// A requirement being put together, one prompt at a time.
#[derive(Clone, Debug)]
pub struct RequirementCreate {
    pub name: String,
    pub description: String,
    pub custom_fields: Option<CustomNotes>,
    pub step: RequirementStep,
}

/// The view of an optional prompt label.
pub open spec fn prompt_view(p: Option<&str>) -> Option<Seq<char>> {
    match p {
        Some(t) => Some(t@),
        None => None,
    }
}

/// The view of an optional marker.
pub open spec fn notes_view(n: Option<CustomNotes>) -> Option<Seq<char>> {
    match n {
        Some(c) => Some(c.notes@),
        None => None,
    }
}

/// The marker that the answer to the notes prompt gives a feature: exactly
/// `Yes` asks for notes; any other answer says they are not required.
pub open spec fn feature_notes(answer: Seq<char>) -> Seq<char> {
    if answer == "Yes"@ {
        "Required"@
    } else {
        "Not required"@
    }
}

/// `n` is `o` with `data` committed to its current prompt, and `prompt` is
/// the label of the next one (`None` once the feature is complete).
pub open spec fn feature_advanced(
    o: FeatureCreate,
    n: FeatureCreate,
    data: Seq<char>,
    prompt: Option<Seq<char>>,
) -> bool {
    &&& n.release_id == o.release_id
    &&& match o.step {
        FeatureStep::Name => {
            &&& n.name@ == data
            &&& n.description == o.description
            &&& n.custom_fields == o.custom_fields
            &&& n.step == FeatureStep::Description
            &&& prompt == Some("Description"@)
        },
        FeatureStep::Description => {
            &&& n.name == o.name
            &&& n.description@ == data
            &&& n.custom_fields == o.custom_fields
            &&& n.step == FeatureStep::Notes
            &&& prompt == Some("Needs notes? (Yes/No)"@)
        },
        FeatureStep::Notes => {
            &&& n.name == o.name
            &&& n.description == o.description
            &&& notes_view(n.custom_fields) == Some(feature_notes(data))
            &&& n.step == FeatureStep::Complete
            &&& prompt.is_none()
        },
        FeatureStep::Complete => n == o && prompt.is_none(),
    }
}

/// `n` is `o` with `data` committed to its current prompt, and `prompt` is
/// the label of the next one (`None` once the requirement is complete).
pub open spec fn requirement_advanced(
    o: RequirementCreate,
    n: RequirementCreate,
    data: Seq<char>,
    prompt: Option<Seq<char>>,
) -> bool {
    &&& n.custom_fields == o.custom_fields
    &&& match o.step {
        RequirementStep::Name => {
            &&& n.name@ == data
            &&& n.description == o.description
            &&& n.step == RequirementStep::Description
            &&& prompt == Some("Description"@)
        },
        RequirementStep::Description => {
            &&& n.name == o.name
            &&& n.description@ == data
            &&& n.step == RequirementStep::Complete
            &&& prompt.is_none()
        },
        RequirementStep::Complete => n == o && prompt.is_none(),
    }
}

/// A feature at its first prompt, with nothing filled in.
pub open spec fn fresh_feature(f: FeatureCreate) -> bool {
    &&& f.name@.len() == 0
    &&& f.description@.len() == 0
    &&& f.release_id@.len() == 0
    &&& f.custom_fields.is_none()
    &&& f.step == FeatureStep::Name
}

/// A requirement at its first prompt, with nothing filled in.
pub open spec fn fresh_requirement(r: RequirementCreate) -> bool {
    &&& r.name@.len() == 0
    &&& r.description@.len() == 0
    &&& r.custom_fields.is_none()
    &&& r.step == RequirementStep::Name
}

impl FeatureCreate {
    /// An empty feature, at its first prompt.
    pub fn new() -> (r: FeatureCreate)
        ensures
            fresh_feature(r),
    {
        FeatureCreate {
            name: String::new(),
            description: String::new(),
            release_id: String::new(),
            custom_fields: None,
            step: FeatureStep::Name,
        }
    }

    /// Commits an answer to the current prompt. Returns the next prompt's
    /// label, or `None` once the last prompt is answered.
    pub fn advance(&mut self, data: String) -> (r: Option<&'static str>)
        ensures
            feature_advanced(*old(self), *final(self), data@, prompt_view(r)),
    {
        match self.step {
            FeatureStep::Name => {
                self.name = data;
                self.step = FeatureStep::Description;
                Some("Description")
            },
            FeatureStep::Description => {
                self.description = data;
                self.step = FeatureStep::Notes;
                Some("Needs notes? (Yes/No)")
            },
            FeatureStep::Notes => {
                let notes = if same_text(data.as_str(), "Yes") {
                    String::from_str("Required")
                } else {
                    String::from_str("Not required")
                };
                self.custom_fields = Some(CustomNotes { notes });
                self.step = FeatureStep::Complete;
                None
            },
            FeatureStep::Complete => None,
        }
    }
}

impl RequirementCreate {
    /// An empty requirement, at its first prompt.
    pub fn new() -> (r: RequirementCreate)
        ensures
            fresh_requirement(r),
    {
        RequirementCreate {
            name: String::new(),
            description: String::new(),
            custom_fields: None,
            step: RequirementStep::Name,
        }
    }

    /// Commits an answer to the current prompt. Returns the next prompt's
    /// label, or `None` once the last prompt is answered.
    pub fn advance(&mut self, data: String) -> (r: Option<&'static str>)
        ensures
            requirement_advanced(*old(self), *final(self), data@, prompt_view(r)),
    {
        match self.step {
            RequirementStep::Name => {
                self.name = data;
                self.step = RequirementStep::Description;
                Some("Description")
            },
            RequirementStep::Description => {
                self.description = data;
                self.step = RequirementStep::Complete;
                None
            },
            RequirementStep::Complete => None,
        }
    }
}

} // verus!
