use groundhog::domain::services::AIService;

#[test]
fn test_ai_service_new() {
    let service = AIService::new();
    assert!(!service.enabled);
    assert!(!service.is_available());
}

#[test]
fn test_ai_service_with_enabled() {
    let service = AIService::new().with_enabled(true);
    assert!(service.enabled);
    assert!(service.is_available());
}

#[test]
fn test_ai_service_default() {
    let service = AIService::default();
    assert!(!service.enabled);
}

#[test]
fn test_generate_explanation_disabled() {
    let service = AIService::new();
    let result = service.generate_explanation("rust").unwrap();
    assert!(result.contains("AI service is disabled"));
    assert!(result.contains("rust"));
}

#[test]
fn test_generate_explanation_enabled() {
    let service = AIService::new().with_enabled(true);
    let result = service.generate_explanation("rust").unwrap();
    assert!(result.contains("AI-generated explanation"));
    assert!(result.contains("rust"));
    assert!(result.contains("not implemented yet"));
}

#[test]
fn explanation_texts_are_exact() {
    let off = AIService::new();
    assert_eq!(
        off.generate_explanation("lifetimes").unwrap(),
        "AI service is disabled. Topic: lifetimes"
    );
    let on = AIService::new().with_enabled(true);
    assert_eq!(
        on.generate_explanation("lifetimes").unwrap(),
        "AI-generated explanation for 'lifetimes' (not implemented yet)"
    );
    assert_eq!(on.generate_explanation("").unwrap(), "AI-generated explanation for '' (not implemented yet)");
}

#[test]
fn service_can_be_switched_off_again() {
    let service = AIService::new().with_enabled(true).with_enabled(false);
    assert!(!service.is_available());
}
