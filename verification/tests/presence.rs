use presence::form::{
    ActivityButton, ActivityTypeChoice, Asset, AssetField, ButtonField, Message, PresenceForm,
};
use presence::payload::ActivityType;

fn form_with_button_one(label: &str, url: &str) -> PresenceForm {
    let mut f = PresenceForm::default();
    f.apply(Message::ChangeButtons(ButtonField::LabelOne, label.to_owned()));
    f.apply(Message::ChangeButtons(ButtonField::UrlOne, url.to_owned()));
    f
}

#[test]
fn default_form_is_all_empty() {
    let f = PresenceForm::default();
    assert_eq!(f.state, "");
    assert_eq!(f.details, "");
    assert_eq!(f.assets, Asset::default());
    assert_eq!(f.button_one, ActivityButton::default());
    assert_eq!(f.button_two, ActivityButton::default());
    assert_eq!(f.selected, ActivityTypeChoice::Playing);
    assert!(!f.expanded);
}

#[test]
fn set_title_verbatim() {
    let mut f = PresenceForm::default();
    f.apply(Message::ChangeState("Coding".to_owned()));
    assert_eq!(f.state, "Coding");
    // an empty string is a legal value and replaces the old text
    f.apply(Message::ChangeState(String::new()));
    assert_eq!(f.state, "");
}

#[test]
fn set_details_verbatim() {
    let mut f = PresenceForm::default();
    f.apply(Message::ChangeDetails("Writing".to_owned()));
    assert_eq!(f.details, "Writing");
    assert_eq!(f.state, "");
}

#[test]
fn set_each_asset_field() {
    let mut f = PresenceForm::default();
    f.apply(Message::ChangeAssets(AssetField::LargeImage, "li".to_owned()));
    f.apply(Message::ChangeAssets(AssetField::LargeText, "lt".to_owned()));
    f.apply(Message::ChangeAssets(AssetField::SmallImage, "si".to_owned()));
    f.apply(Message::ChangeAssets(AssetField::SmallText, "st".to_owned()));
    assert_eq!(f.assets.large_image, "li");
    assert_eq!(f.assets.large_text, "lt");
    assert_eq!(f.assets.small_image, "si");
    assert_eq!(f.assets.small_text, "st");
}

#[test]
fn asset_update_touches_only_its_field() {
    let mut f = PresenceForm::default();
    f.apply(Message::ChangeAssets(AssetField::LargeImage, "li".to_owned()));
    f.apply(Message::ChangeAssets(AssetField::SmallText, "st".to_owned()));
    assert_eq!(f.assets.large_image, "li");
    assert_eq!(f.assets.large_text, "");
    assert_eq!(f.assets.small_image, "");
    assert_eq!(f.assets.small_text, "st");
}

#[test]
fn set_each_button_field() {
    let mut f = PresenceForm::default();
    f.apply(Message::ChangeButtons(ButtonField::LabelOne, "l1".to_owned()));
    f.apply(Message::ChangeButtons(ButtonField::UrlOne, "u1".to_owned()));
    f.apply(Message::ChangeButtons(ButtonField::LabelTwo, "l2".to_owned()));
    f.apply(Message::ChangeButtons(ButtonField::UrlTwo, "u2".to_owned()));
    assert_eq!(f.button_one.label, "l1");
    assert_eq!(f.button_one.url, "u1");
    assert_eq!(f.button_two.label, "l2");
    assert_eq!(f.button_two.url, "u2");
}

#[test]
fn select_category_records_choice_and_closes_selector() {
    for c in [
        ActivityTypeChoice::Playing,
        ActivityTypeChoice::Listening,
        ActivityTypeChoice::Watching,
        ActivityTypeChoice::Competing,
    ] {
        let mut f = PresenceForm::default();
        f.apply(Message::Expand);
        assert!(f.expanded);
        f.apply(Message::Select(c));
        assert_eq!(f.selected, c);
        assert!(!f.expanded);
    }
}

#[test]
fn dismiss_closes_selector_and_changes_nothing_else() {
    let mut f = PresenceForm::default();
    f.apply(Message::ChangeState("kept".to_owned()));
    f.apply(Message::Expand);
    f.apply(Message::Dismiss);
    assert!(!f.expanded);
    assert_eq!(f.state, "kept");
    assert_eq!(f.selected, ActivityTypeChoice::Playing);
}

#[test]
fn double_toggle_restores_selector() {
    let mut f = PresenceForm::default();
    f.apply(Message::Expand);
    f.apply(Message::Expand);
    assert!(!f.expanded);
    f.apply(Message::Expand);
    assert!(f.expanded);
}

#[test]
fn translation_drops_button_without_url() {
    let f = form_with_button_one("Repo", "");
    let p = f.translate();
    assert!(p.buttons.is_empty());
}

#[test]
fn translation_drops_button_without_label() {
    let f = form_with_button_one("", "https://example.com");
    let p = f.translate();
    assert!(p.buttons.is_empty());
}

#[test]
fn translation_keeps_complete_button_verbatim() {
    let f = form_with_button_one("Repo", "https://example.com");
    let p = f.translate();
    assert_eq!(p.buttons.len(), 1);
    assert_eq!(p.buttons[0].label, "Repo");
    assert_eq!(p.buttons[0].url, "https://example.com");
}

#[test]
fn translation_keeps_both_buttons_in_slot_order() {
    let mut f = form_with_button_one("One", "https://one.example");
    f.apply(Message::ChangeButtons(ButtonField::LabelTwo, "Two".to_owned()));
    f.apply(Message::ChangeButtons(ButtonField::UrlTwo, "https://two.example".to_owned()));
    let p = f.translate();
    assert_eq!(p.buttons.len(), 2);
    assert_eq!(p.buttons[0].label, "One");
    assert_eq!(p.buttons[1].label, "Two");
}

#[test]
fn translation_keeps_second_slot_alone() {
    let mut f = PresenceForm::default();
    f.apply(Message::ChangeButtons(ButtonField::LabelTwo, "Two".to_owned()));
    f.apply(Message::ChangeButtons(ButtonField::UrlTwo, "https://two.example".to_owned()));
    let p = f.translate();
    assert_eq!(p.buttons.len(), 1);
    assert_eq!(p.buttons[0].label, "Two");
    assert_eq!(p.buttons[0].url, "https://two.example");
}

#[test]
fn translation_is_pure() {
    let mut f = form_with_button_one("Repo", "https://example.com");
    f.apply(Message::ChangeState("Coding".to_owned()));
    f.apply(Message::ChangeAssets(AssetField::LargeImage, "logo".to_owned()));
    f.apply(Message::Select(ActivityTypeChoice::Watching));
    let snapshot = f.clone();
    let p1 = f.translate();
    let p2 = f.translate();
    assert_eq!(p1, p2);
    assert_eq!(f, snapshot);
}

#[test]
fn category_mapping_is_total_and_bijective() {
    let choices = [
        ActivityTypeChoice::Playing,
        ActivityTypeChoice::Listening,
        ActivityTypeChoice::Watching,
        ActivityTypeChoice::Competing,
    ];
    let mapped: Vec<ActivityType> = choices.iter().map(|c| ActivityType::from(*c)).collect();
    assert_eq!(
        mapped,
        vec![
            ActivityType::Playing,
            ActivityType::Listening,
            ActivityType::Watching,
            ActivityType::Competing,
        ]
    );
    for (i, t) in mapped.iter().enumerate() {
        for (j, u) in mapped.iter().enumerate() {
            assert_eq!(i == j, t == u);
        }
    }
    for (c, t) in choices.iter().zip(mapped.iter()) {
        assert_eq!(ActivityTypeChoice::from(*t), *c);
    }
}

#[test]
fn scenario_edit_then_translate() {
    let mut f = PresenceForm::default();
    f.apply(Message::ChangeState("Coding".to_owned()));
    f.apply(Message::ChangeDetails("Writing a spec".to_owned()));
    f.apply(Message::Select(ActivityTypeChoice::Playing));
    let p = f.translate();
    assert_eq!(p.state, "Coding");
    assert_eq!(p.details, "Writing a spec");
    assert_eq!(p.activity_type, ActivityType::Playing);
    assert_eq!(p.assets, Asset::default());
    assert!(p.buttons.is_empty());
}

#[test]
fn publish_trigger_leaves_form_unchanged() {
    let mut f = form_with_button_one("Repo", "https://example.com");
    f.apply(Message::ChangeState("Coding".to_owned()));
    let snapshot = f.clone();
    f.apply(Message::Start);
    assert_eq!(f, snapshot);
}

#[test]
fn choice_names_match_display_text() {
    assert_eq!(ActivityTypeChoice::Playing.name(), "Playing");
    assert_eq!(ActivityTypeChoice::Listening.name(), "Listening");
    assert_eq!(ActivityTypeChoice::Watching.name(), "Watching");
    assert_eq!(ActivityTypeChoice::Competing.name(), "Competing");
}

#[test]
fn eligible_requires_both_fields() {
    let b = ActivityButton { label: "l".to_owned(), url: String::new() };
    assert!(!b.eligible());
    let b = ActivityButton { label: String::new(), url: "u".to_owned() };
    assert!(!b.eligible());
    let b = ActivityButton { label: "l".to_owned(), url: "u".to_owned() };
    assert!(b.eligible());
    let b = ActivityButton::default();
    assert!(!b.eligible());
}

#[test]
fn translation_copies_assets_verbatim() {
    let mut f = PresenceForm::default();
    f.apply(Message::ChangeAssets(AssetField::LargeImage, "li".to_owned()));
    f.apply(Message::ChangeAssets(AssetField::LargeText, "lt".to_owned()));
    f.apply(Message::ChangeAssets(AssetField::SmallImage, "si".to_owned()));
    f.apply(Message::ChangeAssets(AssetField::SmallText, "st".to_owned()));
    let p = f.translate();
    assert_eq!(p.assets.large_image, "li");
    assert_eq!(p.assets.large_text, "lt");
    assert_eq!(p.assets.small_image, "si");
    assert_eq!(p.assets.small_text, "st");
}
