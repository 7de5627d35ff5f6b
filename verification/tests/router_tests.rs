use meeting_copilot::router::{Intent, StateIntentRouter};

#[test]
fn order_sensitive_classification_first_rule_wins() {
    // Matches both the question-word rule ("how") and the action-word
    // rule ("should"); the rule listed first decides.
    let router = StateIntentRouter::new();
    let intent = router.classify_intent("should we discuss how this works");
    assert_eq!(intent, Intent::FollowUpQuestion);
}

#[test]
fn action_cues_classify_as_action_item() {
    let router = StateIntentRouter::new();
    assert_eq!(router.classify_intent("we need to ship the fix by Friday"), Intent::ActionItem);
}

#[test]
fn definition_cues_classify_as_definition() {
    let router = StateIntentRouter::new();
    assert_eq!(router.classify_intent("please define the term for me"), Intent::Definition);
}

#[test]
fn nothing_matching_defaults_to_general_assistance() {
    let router = StateIntentRouter::new();
    assert_eq!(router.classify_intent("good morning everyone"), Intent::GeneralAssistance);
}

#[test]
fn classification_is_case_insensitive() {
    let router = StateIntentRouter::new();
    assert_eq!(router.classify_intent("WHAT time suits everyone"), Intent::FollowUpQuestion);
}

#[test]
fn priority_table_is_exact() {
    let router = StateIntentRouter::new();
    let d = router.route_request("we need to ship the fix", None).unwrap();
    assert_eq!(d.intent, Intent::ActionItem);
    assert_eq!(d.priority, 9);
    let d = router.route_request("good morning everyone", None).unwrap();
    assert_eq!(d.intent, Intent::GeneralAssistance);
    assert_eq!(d.priority, 5);
    let d = router.route_request("please define the term for me", None).unwrap();
    assert_eq!(d.intent, Intent::Definition);
    assert_eq!(d.priority, 8);
    let d = router.route_request("why is the build red", None).unwrap();
    assert_eq!(d.intent, Intent::FollowUpQuestion);
    assert_eq!(d.priority, 7);
}

#[test]
fn routed_prompt_is_templated_by_intent() {
    let router = StateIntentRouter::new();
    let d = router.route_request("good morning everyone", None).unwrap();
    assert_eq!(
        d.suggested_prompt,
        "Recent conversation: good morning everyone\n\nProvide helpful context or suggestions."
    );
    let d = router.route_request("we need to ship the fix", None).unwrap();
    assert_eq!(
        d.suggested_prompt,
        "Recent conversation: we need to ship the fix\n\nExtract and format any action items or next steps mentioned."
    );
}

#[test]
fn context_carries_optional_screen_text() {
    let router = StateIntentRouter::new();
    let ctx = router.build_context("hello", Some(String::from("agenda on screen")));
    assert_eq!(ctx.transcript_window, "hello");
    assert_eq!(ctx.screen_context, Some(String::from("agenda on screen")));
    assert!(ctx.speaker_context.is_none());
    assert!(ctx.meeting_metadata.is_none());

    let bare = router.build_context("hello", None);
    assert!(bare.screen_context.is_none());
}

#[test]
fn build_prompt_uses_the_intent_template() {
    let router = StateIntentRouter::new();
    let ctx = router.build_context("the budget", None);
    let p = router.build_prompt(&Intent::DraftReply, &ctx);
    assert_eq!(p, "Recent conversation: the budget\n\nSuggest a professional response or reply.");
}
