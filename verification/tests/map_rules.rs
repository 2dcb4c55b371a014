use puzzle_up::contact::{ContactEvent, ContactPhase};
use puzzle_up::fields::{first_field_named, ConfigError, FieldValue, LevelField};
use puzzle_up::tiles::{tile_collider, TileCollider, LARGE_TILE_SIZE, SMALL_TILE_SIZE};
use puzzle_up::text::{TextInfo, TextSign, TextZone, ZoneBanner};

fn zone(body: u64, text: &str) -> TextZone {
    TextZone { body, info: TextInfo::new(text.to_string()) }
}

fn started(first: u64, second: u64) -> ContactEvent {
    ContactEvent { phase: ContactPhase::Started, first, second, flags: 1 }
}

fn stopped(first: u64, second: u64) -> ContactEvent {
    ContactEvent { phase: ContactPhase::Stopped, first, second, flags: 1 }
}

#[test]
fn tile_sizes_have_their_values() {
    assert_eq!(SMALL_TILE_SIZE, 16);
    assert_eq!(LARGE_TILE_SIZE, 64);
}

#[test]
fn small_tiles_get_small_fixed_squares() {
    for name in ["Ground", "LevelBorder", "ZoneText"] {
        let collider = tile_collider(name);
        assert_eq!(collider, TileCollider::Small);
        assert_eq!(collider.get_half_extent(), Some(8));
        assert!(collider.fixed());
    }
}

#[test]
fn doors_and_boxes_get_large_fixed_squares() {
    for name in ["Door", "Box"] {
        let collider = tile_collider(name);
        assert_eq!(collider, TileCollider::Large);
        assert_eq!(collider.get_half_extent(), Some(32));
        assert!(collider.fixed());
    }
}

#[test]
fn other_entities_get_the_default_collider() {
    for name in ["Player", "ground", "Door ", "", "TextSign"] {
        let collider = tile_collider(name);
        assert_eq!(collider, TileCollider::Default);
        assert_eq!(collider.get_half_extent(), None);
        assert!(!collider.fixed());
    }
}

#[test]
fn zone_text_is_read_from_its_fields() {
    let fields = vec![LevelField {
        identifier: "text".to_string(),
        value: FieldValue::Text(Some("Mind the gap".to_string())),
    }];
    assert_eq!(TextInfo::from_fields(&fields).unwrap().text(), "Mind the gap");
}

#[test]
fn zone_without_text_is_turned_down() {
    let fields = vec![LevelField {
        identifier: "label".to_string(),
        value: FieldValue::Text(Some("x".to_string())),
    }];
    assert_eq!(TextInfo::from_fields(&fields).err(), Some(ConfigError::MissingText));
}

#[test]
fn banner_starts_hidden() {
    let banner = ZoneBanner::new();
    assert!(!banner.is_visible());
    assert_eq!(banner.text(), "");
}

#[test]
fn entering_a_zone_shows_its_text() {
    let zones = vec![zone(5, "five"), zone(6, "six")];
    let mut banner = ZoneBanner::new();
    banner.show_zone_text(&vec![started(1, 6)], &zones);
    assert!(banner.is_visible());
    assert_eq!(banner.text(), "six");
    banner.show_zone_text(&vec![started(5, 1)], &zones);
    assert_eq!(banner.text(), "five");
}

#[test]
fn the_first_body_of_an_event_is_looked_up_first() {
    let zones = vec![zone(5, "five"), zone(6, "six")];
    let mut banner = ZoneBanner::new();
    banner.show_zone_text(&vec![started(6, 5)], &zones);
    assert_eq!(banner.text(), "six");
}

#[test]
fn the_last_zone_entered_in_a_tick_wins() {
    let zones = vec![zone(5, "five"), zone(6, "six")];
    let mut banner = ZoneBanner::new();
    banner.show_zone_text(&vec![started(1, 5), started(1, 6), started(1, 2)], &zones);
    assert_eq!(banner.text(), "six");
}

#[test]
fn other_contacts_leave_the_banner_alone() {
    let zones = vec![zone(5, "five")];
    let mut banner = ZoneBanner::new();
    banner.show_zone_text(&vec![started(1, 2), stopped(1, 5)], &zones);
    assert!(!banner.is_visible());
    assert_eq!(banner.text(), "");
    banner.show_zone_text(&vec![started(1, 5)], &zones);
    banner.hide_zone_text(&vec![stopped(1, 2), started(1, 5)], &zones);
    assert!(banner.is_visible());
    assert_eq!(banner.text(), "five");
}

#[test]
fn leaving_a_zone_hides_and_clears_the_banner() {
    let zones = vec![zone(5, "five")];
    let mut banner = ZoneBanner::new();
    banner.show_zone_text(&vec![started(1, 5)], &zones);
    banner.hide_zone_text(&vec![stopped(5, 1)], &zones);
    assert!(!banner.is_visible());
    assert_eq!(banner.text(), "");
}

fn field(identifier: &str, value: FieldValue) -> LevelField {
    LevelField { identifier: identifier.to_string(), value }
}

#[test]
fn sign_is_read_from_text_and_number_fields() {
    let fields = vec![
        field("font_size", FieldValue::Number(Some("18.5".to_string()))),
        field("color", FieldValue::Other),
        field("text", FieldValue::Text(Some("Exit".to_string()))),
    ];
    let sign = TextSign::from_fields(&fields).unwrap();
    assert_eq!(sign.text(), "Exit");
    assert_eq!(sign.font_size(), "18.5");
}

#[test]
fn sign_takes_a_font_size_given_as_text() {
    let fields = vec![
        field("text", FieldValue::Text(Some("Exit".to_string()))),
        field("font_size", FieldValue::Text(Some("24".to_string()))),
    ];
    assert_eq!(TextSign::from_fields(&fields).unwrap().font_size(), "24");
}

#[test]
fn sign_without_text_is_turned_down() {
    let fields = vec![field("font_size", FieldValue::Number(Some("18".to_string())))];
    assert_eq!(TextSign::from_fields(&fields).err(), Some(ConfigError::MissingText));
    assert_eq!(TextSign::from_fields(&vec![]).err(), Some(ConfigError::MissingText));
}

#[test]
fn sign_without_font_size_is_turned_down() {
    let fields = vec![field("text", FieldValue::Text(Some("Exit".to_string())))];
    assert_eq!(TextSign::from_fields(&fields).err(), Some(ConfigError::MissingFontSize));
}

#[test]
fn first_field_named_finds_the_first_of_its_name() {
    let fields = vec![
        field("text", FieldValue::Other),
        field("color", FieldValue::Other),
        field("color", FieldValue::Text(None)),
    ];
    assert_eq!(first_field_named(&fields, "color"), Some(1));
    assert_eq!(first_field_named(&fields, "text"), Some(0));
    assert_eq!(first_field_named(&fields, "colour"), None);
    assert_eq!(first_field_named(&vec![], "color"), None);
}

#[test]
fn zone_with_an_empty_text_field_shows_the_empty_text() {
    let fields = vec![field("text", FieldValue::Text(None))];
    assert_eq!(TextInfo::from_fields(&fields).unwrap().text(), "");
    let fields = vec![field("text", FieldValue::Number(Some("7".to_string())))];
    assert_eq!(TextInfo::from_fields(&fields).unwrap().text(), "");
}

#[test]
fn sign_reads_fields_without_text_as_the_empty_text() {
    let fields =
        vec![field("text", FieldValue::Other), field("font_size", FieldValue::Number(None))];
    let sign = TextSign::from_fields(&fields).unwrap();
    assert_eq!(sign.text(), "");
    assert_eq!(sign.font_size(), "");
}
