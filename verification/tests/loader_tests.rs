use preset_engine::cabin_light_setting;
use preset_engine::loader::parse_u64;
use preset_engine::presets;
use preset_engine::CatalogError;

fn two_step_text() -> String {
    let mut text = String::new();
    text.push_str("[1]\n");
    text.push_str("id=1\n");
    text.push_str("description=external power on\n");
    text.push_str("conditional=0\n");
    text.push_str("delay_after=2000\n");
    text.push_str("expected=E0\n");
    text.push_str("action=A0\n");
    text.push_str("id=2\n");
    text.push_str("description=wait for avionics\n");
    text.push_str("conditional=1\n");
    text.push_str("delay_after=0\n");
    text.push_str("expected=E1\n");
    text.push_str("action=A1\n");
    text
}

#[test]
fn loads_two_step_preset() {
    let catalog = presets(&two_step_text()).unwrap();
    assert_eq!(catalog.presets.len(), 1);
    let p = &catalog.presets[0];
    assert_eq!(p.id, 1);
    assert_eq!(p.steps.len(), 2);
    assert_eq!(p.steps[0].id, 1);
    assert_eq!(p.steps[0].description, "external power on");
    assert!(!p.steps[0].is_conditional);
    assert_eq!(p.steps[0].delay_after_ms, 2000);
    assert_eq!(p.steps[0].expected_state_code, "E0");
    assert_eq!(p.steps[0].action_code, "A0");
    assert_eq!(p.steps[1].id, 2);
    assert!(p.steps[1].is_conditional);
    assert_eq!(p.steps[1].delay_after_ms, 0);
    assert_eq!(p.steps[1].expected_state_code, "E1");
    assert_eq!(p.steps[1].action_code, "A1");
}

#[test]
fn loads_two_presets_in_order() {
    let mut text = two_step_text();
    text.push_str("[2]\n");
    text.push_str("id=1\n");
    text.push_str("description=lights\n");
    text.push_str("conditional=0\n");
    text.push_str("delay_after=500\n");
    text.push_str("expected=E2\n");
    text.push_str("action=A2\n");
    let catalog = presets(&text).unwrap();
    assert_eq!(catalog.presets.len(), 2);
    assert_eq!(catalog.presets[0].id, 1);
    assert_eq!(catalog.presets[1].id, 2);
    assert_eq!(catalog.presets[1].steps[0].delay_after_ms, 500);
}

#[test]
fn malformed_ini_is_a_syntax_error() {
    assert!(matches!(presets("[1\nid=1\n"), Err(CatalogError::Syntax)));
}

#[test]
fn non_numeric_section_name_is_rejected() {
    let text = "[alpha]\nid=1\ndescription=d\nconditional=0\ndelay_after=0\nexpected=E\naction=A\n";
    assert!(matches!(presets(text), Err(CatalogError::BadPresetName)));
}

#[test]
fn zero_section_name_is_rejected() {
    let text = "[0]\nid=1\ndescription=d\nconditional=0\ndelay_after=0\nexpected=E\naction=A\n";
    assert!(matches!(presets(text), Err(CatalogError::BadPresetName)));
}

#[test]
fn properties_before_any_section_are_rejected() {
    let text = "id=1\n[1]\nid=1\ndescription=d\nconditional=0\ndelay_after=0\nexpected=E\naction=A\n";
    assert!(matches!(presets(text), Err(CatalogError::BadPresetName)));
}

#[test]
fn empty_preset_is_rejected() {
    assert!(matches!(presets("[1]\n"), Err(CatalogError::EmptyPreset)));
}

#[test]
fn missing_step_field_is_rejected() {
    // no action line: five properties make no step
    let text = "[1]\nid=1\ndescription=d\nconditional=0\ndelay_after=0\nexpected=E\n";
    assert!(matches!(presets(text), Err(CatalogError::BadStep)));
}

#[test]
fn bad_conditional_flag_is_rejected() {
    let text = "[1]\nid=1\ndescription=d\nconditional=yes\ndelay_after=0\nexpected=E\naction=A\n";
    assert!(matches!(presets(text), Err(CatalogError::BadStep)));
}

#[test]
fn bad_delay_is_rejected() {
    let text = "[1]\nid=1\ndescription=d\nconditional=0\ndelay_after=2.5\nexpected=E\naction=A\n";
    assert!(matches!(presets(text), Err(CatalogError::BadStep)));
}

#[test]
fn duplicate_step_id_is_rejected() {
    let mut text = String::from("[1]\n");
    for _ in 0..2 {
        text.push_str("id=7\n");
        text.push_str("description=d\n");
        text.push_str("conditional=0\n");
        text.push_str("delay_after=0\n");
        text.push_str("expected=E\n");
        text.push_str("action=A\n");
    }
    assert!(matches!(presets(&text), Err(CatalogError::DuplicateStepId)));
}

#[test]
fn duplicate_preset_id_is_rejected() {
    let mut text = two_step_text();
    text.push_str(&two_step_text());
    assert!(matches!(presets(&text), Err(CatalogError::DuplicatePresetId)));
}

#[test]
fn parse_u64_exact_values() {
    assert_eq!(parse_u64("0"), Some(0));
    assert_eq!(parse_u64("123"), Some(123));
    assert_eq!(parse_u64("007"), Some(7));
    assert_eq!(parse_u64("18446744073709551615"), Some(u64::MAX));
    assert_eq!(parse_u64("18446744073709551616"), None);
    assert_eq!(parse_u64(""), None);
    assert_eq!(parse_u64("12a"), None);
    assert_eq!(parse_u64("-3"), None);
    assert_eq!(parse_u64(" 5"), None);
}

#[test]
fn cabin_light_levels_quantize() {
    let off = cabin_light_setting(0);
    assert!(!off.switch_on);
    assert_eq!(off.level, 0);
    let negative = cabin_light_setting(-20);
    assert!(!negative.switch_on);
    assert_eq!(negative.level, 0);
    let dim = cabin_light_setting(1);
    assert!(dim.switch_on);
    assert_eq!(dim.level, 50);
    let half = cabin_light_setting(50);
    assert!(half.switch_on);
    assert_eq!(half.level, 50);
    let bright = cabin_light_setting(51);
    assert!(bright.switch_on);
    assert_eq!(bright.level, 100);
    let full = cabin_light_setting(100);
    assert!(full.switch_on);
    assert_eq!(full.level, 100);
}
