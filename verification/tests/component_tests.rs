use bootstrap_ui::classes::FormControlValidation;
use bootstrap_ui::classes::option_classes;
use bootstrap_ui::form_types::AutocompleteNameType;
use bootstrap_ui::form_types::AutocompletePasswordType;
use bootstrap_ui::form_types::AutocompleteTelType;
use bootstrap_ui::form_types::FormAutocompleteType;
use bootstrap_ui::form_types::FormControlType;
use bootstrap_ui::icons::BI;
use bootstrap_ui::progress::ProgressError;
use bootstrap_ui::progress::progress_width;
use bootstrap_ui::progress::progress_width_checked;
use bootstrap_ui::soption::SOption;
use bootstrap_ui::util::ArrangeX;
use bootstrap_ui::util::ArrangeY;
use bootstrap_ui::util::Color;
use bootstrap_ui::util::Position;
use bootstrap_ui::util::TextColor;

#[test]
fn test_color_strings() {
    assert_eq!(Color::Primary.to_str(), "primary");
    assert_eq!(Color::Danger.to_str(), "danger");
    assert_eq!(Color::Link.to_str(), "link");
    assert_eq!(TextColor::White.to_str(), "white");
    assert_eq!(TextColor::Muted.to_str(), "muted");
    assert_eq!(TextColor::Primary.to_str(), "primary");
}

#[test]
fn test_position_and_arrange_strings() {
    assert_eq!(Position::Static.to_str(), "position-static");
    assert_eq!(Position::Sticky.to_str(), "position-sticky");
    assert_eq!(ArrangeX::Start0.to_str(), "start-0");
    assert_eq!(ArrangeX::End100.to_str(), "end-100");
    assert_eq!(ArrangeY::Top50.to_str(), "top-50");
    assert_eq!(ArrangeY::Bottom100.to_str(), "bottom-100");
}

#[test]
fn test_form_control_type_strings() {
    assert_eq!(FormControlType::Text.to_str(), "text");
    assert_eq!(FormControlType::TextArea { cols: None, rows: Some(4) }.to_str(), "");
    assert_eq!(FormControlType::Email { pattern: None }.to_str(), "email");
    assert_eq!(FormControlType::DateMinMax { min: None, max: None }.to_str(), "date");
    assert_eq!(FormControlType::Datetime.to_str(), "datetime-local");
    assert_eq!(FormControlType::Range { min: 0, max: 10, step: None }.to_str(), "range");
    assert_eq!(FormControlType::File { accept: vec![".png".to_string()] }.to_str(), "file");
    assert_eq!(FormControlType::Submit.to_str(), "submit");
}

#[test]
fn test_form_autocomplete_type_strings() {
    assert_eq!(FormAutocompleteType::Off.to_str(), "off");
    assert_eq!(
        FormAutocompleteType::Name { value: AutocompleteNameType::GivenName }.to_str(),
        "given-name"
    );
    assert_eq!(
        FormAutocompleteType::Password { value: AutocompletePasswordType::NewPassword }.to_str(),
        "new-password"
    );
    assert_eq!(FormAutocompleteType::OTP.to_str(), "one-time-code");
    assert_eq!(
        FormAutocompleteType::Tel { value: AutocompleteTelType::TelAreaCode }.to_str(),
        "tel-area-code"
    );
    assert_eq!(FormAutocompleteType::Webauthn.to_str(), "webauthn");
}

#[test]
fn test_validation_class_and_feedback() {
    let none = FormControlValidation::NotValidated;
    assert_eq!(none.class(), None);
    assert_eq!(none.feedback(), None);

    let valid = FormControlValidation::Valid(None);
    assert_eq!(valid.class(), Some("is-valid"));
    assert_eq!(valid.feedback(), None);

    let valid_msg = FormControlValidation::Valid(Some("Looks good".to_string()));
    assert_eq!(valid_msg.class(), Some("is-valid"));
    assert_eq!(valid_msg.feedback(), Some(&"Looks good".to_string()));

    let invalid = FormControlValidation::Invalid("Select an option".to_string());
    assert_eq!(invalid.class(), Some("is-invalid"));
    assert_eq!(invalid.feedback(), Some(&"Select an option".to_string()));
}

#[test]
fn test_option_classes() {
    let plain = SOption { title: "A".to_string(), ..Default::default() };
    assert_eq!(option_classes(&plain, false), vec!["list-group-item", "list-group-item-action"]);
    assert_eq!(
        option_classes(&plain, true),
        vec!["list-group-item", "list-group-item-action", "active"]
    );

    let selected = SOption { selected: true, ..plain.clone() };
    assert_eq!(
        option_classes(&selected, false),
        vec!["list-group-item", "list-group-item-action", "selected"]
    );

    let disabled = SOption { disabled: true, ..plain.clone() };
    assert_eq!(
        option_classes(&disabled, false),
        vec!["list-group-item", "list-group-item-action", "disabled"]
    );

    // A header is never actionable, active or disabled.
    let header = SOption { header: true, disabled: true, ..plain };
    assert_eq!(option_classes(&header, true), vec!["list-group-item", "header"]);
}

#[test]
fn test_progress_width_values() {
    assert_eq!(progress_width(25, 0, 100), 25);
    assert_eq!(progress_width(5, 0, 10), 50);
    assert_eq!(progress_width(0, 0, 100), 0);
    assert_eq!(progress_width(100, 0, 100), 100);
    assert_eq!(progress_width(0, -100, 100), 50);
    assert_eq!(progress_width(1, 0, 3), 33);
}

#[test]
fn test_progress_width_checked() {
    assert_eq!(progress_width_checked(25, 0, 100), Ok(25));
    assert_eq!(progress_width_checked(101, 0, 100), Err(ProgressError::ValueOutOfRange));
    assert_eq!(progress_width_checked(-1, 0, 100), Err(ProgressError::ValueOutOfRange));
    // The value check comes first even when the range itself is empty.
    assert_eq!(progress_width_checked(5, 10, 0), Err(ProgressError::ValueOutOfRange));
    assert_eq!(progress_width_checked(10, 10, 10), Err(ProgressError::EmptyRange));
}

#[test]
fn test_icon_raw_html() {
    let icon = BI("<i class=\"bi bi-heart\"></i>");
    assert_eq!(icon.raw_html(), "<i class=\"bi bi-heart\"></i>");
}
