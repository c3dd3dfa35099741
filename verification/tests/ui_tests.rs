use gemini::api::LanguageModel;
use gemini::ui::{ButtonType, InputIdentifier, MainFocusComponent};

#[test]
fn focus_try_from_accepts_exactly_the_tab_order() {
    assert_eq!(MainFocusComponent::try_from(0), Ok(MainFocusComponent::InputField));
    assert_eq!(MainFocusComponent::try_from(2), Ok(MainFocusComponent::ChatItemList));
    assert_eq!(MainFocusComponent::try_from(4), Ok(MainFocusComponent::ChatShow));
    assert_eq!(MainFocusComponent::try_from(5), Err(()));
    assert_eq!(MainFocusComponent::try_from(-1), Err(()));
}

#[test]
fn focus_cycles_through_all_components() {
    let mut c = MainFocusComponent::InputField;
    let mut seen = Vec::new();
    for _ in 0..5 {
        seen.push(c);
        c = c.next_component();
    }
    assert_eq!(c, MainFocusComponent::InputField);
    assert_eq!(seen.len(), 5);
    assert!(seen.contains(&MainFocusComponent::SettingButton));
}

#[test]
fn button_try_from_and_toggle() {
    assert_eq!(ButtonType::try_from(0), Ok(ButtonType::Confirm));
    assert_eq!(ButtonType::try_from(1), Ok(ButtonType::Cancel));
    assert_eq!(ButtonType::try_from(2), Err(()));
    assert_eq!(ButtonType::Confirm.next_button(), ButtonType::Cancel);
    assert_eq!(ButtonType::Cancel.next_button(), ButtonType::Confirm);
}

#[test]
fn only_confirm_presses_through() {
    assert!(ButtonType::Confirm.press());
    assert!(!ButtonType::Cancel.press());
}

#[test]
fn setting_fields_try_from_and_cycle() {
    assert_eq!(InputIdentifier::try_from(0), Ok(InputIdentifier::Model));
    assert_eq!(InputIdentifier::try_from(7), Ok(InputIdentifier::TopK));
    assert_eq!(InputIdentifier::try_from(8), Err(()));
    assert_eq!(InputIdentifier::TopK.next_input_field(), InputIdentifier::Model);
    assert_eq!(InputIdentifier::Model.next_input_field(), InputIdentifier::Key);
}

#[test]
fn language_model_names_match_the_wire() {
    assert_eq!(LanguageModel::Gemini1_0Pro.name(), "gemini-1.0-pro");
    assert_eq!(LanguageModel::Gemini1_5Pro.name(), "gemini-1.5-pro");
    assert_eq!(LanguageModel::Gemini1_5Flash.name(), "gemini-1.5-flash");
}
