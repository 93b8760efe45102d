use aha_workflow::wizard::{FeatureCreate, FeatureStep, RequirementCreate, RequirementStep};

#[test]
fn feature_wizard_completes_after_third_answer() {
    let mut f = FeatureCreate::new();
    assert_eq!(f.advance("My Feature".to_string()), Some("Description"));
    assert_eq!(f.advance("desc text".to_string()), Some("Needs notes? (Yes/No)"));
    assert_eq!(f.advance("Yes".to_string()), None);
    assert_eq!(f.name, "My Feature");
    assert_eq!(f.description, "desc text");
    assert_eq!(f.custom_fields.as_ref().map(|c| c.notes.as_str()), Some("Required"));
    assert_eq!(f.step, FeatureStep::Complete);
}

#[test]
fn feature_wizard_other_answers_mean_not_required() {
    for answer in ["No", "yes", ""] {
        let mut f = FeatureCreate::new();
        f.advance("n".to_string());
        f.advance("d".to_string());
        assert_eq!(f.advance(answer.to_string()), None);
        assert_eq!(f.custom_fields.as_ref().map(|c| c.notes.as_str()), Some("Not required"));
    }
}

#[test]
fn completed_feature_ignores_further_answers() {
    let mut f = FeatureCreate::new();
    f.advance("n".to_string());
    f.advance("d".to_string());
    f.advance("Yes".to_string());
    assert_eq!(f.advance("more".to_string()), None);
    assert_eq!(f.name, "n");
    assert_eq!(f.custom_fields.as_ref().map(|c| c.notes.as_str()), Some("Required"));
}

#[test]
fn empty_answer_still_moves_on() {
    let mut f = FeatureCreate::new();
    assert_eq!(f.advance(String::new()), Some("Description"));
    assert_eq!(f.step, FeatureStep::Description);
}

#[test]
fn requirement_wizard_has_two_prompts() {
    let mut r = RequirementCreate::new();
    assert_eq!(r.step, RequirementStep::Name);
    assert_eq!(r.advance("Req".to_string()), Some("Description"));
    assert_eq!(r.advance("Yes".to_string()), None);
    assert_eq!(r.name, "Req");
    assert_eq!(r.description, "Yes");
    assert!(r.custom_fields.is_none());
    assert_eq!(r.step, RequirementStep::Complete);
}
