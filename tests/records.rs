use maple_ocr::records::{
    daily_exp, ocid_rejection_of, rejection_of, ApiErrorDetail, ApiErrorResponse, ApiRejection,
    BossSetting, Character, CharacterBasic, RegisterCharacterInput, SaveBossSettingInput,
    SearchCharacterResult,
};

fn basic() -> CharacterBasic {
    CharacterBasic {
        character_name: "hero".to_string(),
        world_name: "scania".to_string(),
        character_gender: "m".to_string(),
        character_class: "bishop".to_string(),
        character_class_level: "6".to_string(),
        character_level: 287,
        character_exp: 123456789,
        character_exp_rate: "67.432".to_string(),
        character_guild_name: None,
        character_image: "img".to_string(),
    }
}

#[test]
fn registration_builds_active_character() {
    let c = Character::from_registration(RegisterCharacterInput {
        ocid: "abc".to_string(),
        character_name: "hero".to_string(),
        character_image: "img".to_string(),
        world_name: "scania".to_string(),
        character_class: "bishop".to_string(),
        character_level: 287,
        character_exp_rate: Some("1.5".to_string()),
    });
    assert_eq!(c.id, 0);
    assert!(c.is_active);
    assert_eq!(c.ocid, "abc");
    assert_eq!(c.character_level, 287);
    assert!(c.created_at.is_empty());
}

#[test]
fn search_result_and_daily_exp_copy_fields() {
    let r = SearchCharacterResult::from_basic("abc".to_string(), basic());
    assert_eq!(r.ocid, "abc");
    assert_eq!(r.character_exp_rate, "67.432");
    let d = daily_exp("2024-01-02".to_string(), &basic());
    assert_eq!((d.level, d.exp), (287, 123456789));
}

#[test]
fn boss_setting_from_input() {
    let b = BossSetting::from_input(SaveBossSettingInput {
        character_id: 3,
        boss_id: "lotus".to_string(),
        difficulty: "hard".to_string(),
        party_size: 2,
        enabled: true,
    });
    assert_eq!((b.id, b.character_id, b.party_size, b.enabled), (0, 3, 2, true));
}

#[test]
fn rejections() {
    let named = |name: &str| ApiErrorResponse {
        error: Some(ApiErrorDetail { name: name.to_string(), message: "bad".to_string() }),
    };
    assert!(matches!(ocid_rejection_of(named("OPENAPI00004")), ApiRejection::CharacterNotFound));
    assert!(matches!(ocid_rejection_of(named("OPENAPI00007")), ApiRejection::Message(m) if m == "bad"));
    assert!(matches!(ocid_rejection_of(ApiErrorResponse { error: None }), ApiRejection::CharacterNotFound));
    assert!(matches!(rejection_of(named("OPENAPI00004")), ApiRejection::Message(m) if m == "bad"));
    assert!(matches!(rejection_of(ApiErrorResponse { error: None }), ApiRejection::Message(m) if m == "Unknown error"));
}
