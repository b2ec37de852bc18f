use codemie_gitops::output::{parse_output_mode, Action, Outcome, OutcomeIdentity, OutputMode};

#[test]
fn output_output_mode_from_str_text() {
    assert_eq!("text".parse::<OutputMode>().unwrap(), OutputMode::Text);
}

#[test]
fn output_output_mode_from_str_json() {
    assert_eq!("json".parse::<OutputMode>().unwrap(), OutputMode::Json);
}

#[test]
fn output_output_mode_from_str_unknown_errors() {
    assert!("xml".parse::<OutputMode>().is_err());
}

#[test]
fn output_action_as_str() {
    assert_eq!(Action::Valid.as_str(), "valid");
    assert_eq!(Action::Created.as_str(), "created");
    assert_eq!(Action::Updated.as_str(), "updated");
}

#[test]
fn output_outcome_new_constructs() {
    let o = Outcome::assistant(Action::Created, "my-project".into(), "my-slug".into());
    assert_eq!(o.action, Action::Created);
    assert!(matches!(o.identity, OutcomeIdentity::Assistant { .. }));
}

#[test]
fn mod_output_mode_from_str_text() {
    assert_eq!("text".parse::<OutputMode>().unwrap(), OutputMode::Text);
}

#[test]
fn mod_output_mode_from_str_json() {
    assert_eq!("json".parse::<OutputMode>().unwrap(), OutputMode::Json);
}

#[test]
fn mod_output_mode_from_str_unknown_errors() {
    assert!("xml".parse::<OutputMode>().is_err());
}

#[test]
fn mod_action_as_str() {
    assert_eq!(Action::Valid.as_str(), "valid");
    assert_eq!(Action::Created.as_str(), "created");
    assert_eq!(Action::Updated.as_str(), "updated");
}

#[test]
fn mod_outcome_new_constructs() {
    let o = Outcome::new(Action::Created, "Assistant".into(), "my-project".into(), "my-slug".into());
    assert_eq!(o.action, Action::Created);
    assert_eq!(o.kind(), "Assistant");
}

#[test]
fn saved_workflow_serializes_adoption_only_when_required() {
    let ordinary: serde_json::Value =
        serde_json::from_str(&Outcome::saved_workflow("project".into(), "flow".into(), false).to_json()).unwrap();
    assert!(ordinary.get("adoptionRequired").is_none());
    let adoption: serde_json::Value =
        serde_json::from_str(&Outcome::saved_workflow("project".into(), "flow".into(), true).to_json()).unwrap();
    assert_eq!(adoption["adoptionRequired"], true);
    assert_eq!(adoption.as_object().unwrap().len(), 5);
}

#[test]
fn outcome_json_keeps_member_order() {
    let o = Outcome::new_datasource(Action::Updated, "p".into(), "r".into());
    assert_eq!(
        o.to_json(),
        "{\"action\":\"updated\",\"kind\":\"Datasource\",\"project\":\"p\",\"repo_name\":\"r\"}"
    );
}

#[test]
fn unknown_output_mode_names_the_value() {
    let error = parse_output_mode("xml").unwrap_err();
    assert_eq!(error.message(), "unknown output mode 'xml'; expected 'text' or 'json'");
    assert_eq!(OutputMode::default(), OutputMode::Text);
}

#[test]
fn outcome_renders_adoption_note_only_when_required() {
    let mut r = codemie_gitops::render::Renderer::new(Vec::new(), Vec::new(), OutputMode::Text);
    Outcome::saved_workflow("p".into(), "f".into(), true).render(&mut r).unwrap();
    Outcome::workflow(Action::Updated, "p".into(), "f".into()).render(&mut r).unwrap();
    assert_eq!(
        String::from_utf8(r.stdout).unwrap(),
        "saved Workflow p/f (adoption required on apply)\nupdated Workflow p/f\n"
    );
}
