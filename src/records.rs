//! Plain records exchanged with the persistence layer and the game's web
//! API, and the conversions between them.
use vstd::prelude::*;

verus! {

pub struct Settings {
    pub id: i64,
    pub api_key: String,
    pub created_at: String,
    pub updated_at: String,
}

pub struct Character {
    pub id: i64,
    pub character_name: String,
    pub character_image: String,
    pub ocid: String,
    pub world_name: String,
    pub character_class: String,
    pub character_level: i32,
    pub character_exp_rate: Option<String>,
    pub is_active: bool,
    pub created_at: String,
    pub updated_at: String,
}

pub struct BossSetting {
    pub id: i64,
    pub character_id: i64,
    pub boss_id: String,
    pub difficulty: String,
    pub party_size: i32,
    pub enabled: bool,
    pub created_at: String,
    pub updated_at: String,
}

pub struct OcidResponse {
    pub ocid: String,
}

pub struct CharacterBasic {
    pub character_name: String,
    pub world_name: String,
    pub character_gender: String,
    pub character_class: String,
    pub character_class_level: String,
    pub character_level: i32,
    pub character_exp: i64,
    pub character_exp_rate: String,
    pub character_guild_name: Option<String>,
    pub character_image: String,
}

pub struct ApiErrorResponse {
    pub error: Option<ApiErrorDetail>,
}

pub struct ApiErrorDetail {
    pub name: String,
    pub message: String,
}

pub struct CharacterListResponse {
    pub account_list: Vec<AccountInfo>,
}

pub struct AccountInfo {
    pub account_id: String,
    pub character_list: Vec<CharacterListItem>,
}

pub struct CharacterListItem {
    pub ocid: String,
    pub character_name: String,
    pub world_name: String,
    pub character_class: String,
    pub character_level: i32,
}

pub struct SearchCharacterResult {
    pub ocid: String,
    pub character_name: String,
    pub character_image: String,
    pub world_name: String,
    pub character_class: String,
    pub character_level: i32,
    pub character_exp_rate: String,
}

pub struct RegisterCharacterInput {
    pub ocid: String,
    pub character_name: String,
    pub character_image: String,
    pub world_name: String,
    pub character_class: String,
    pub character_level: i32,
    pub character_exp_rate: Option<String>,
}

pub struct DailyExpData {
    pub date: String,
    pub level: i32,
    pub exp: i64,
}

pub struct SaveBossSettingInput {
    pub character_id: i64,
    pub boss_id: String,
    pub difficulty: String,
    pub party_size: i32,
    pub enabled: bool,
}

pub struct SaveBossClearInput {
    pub character_id: i64,
    pub boss_id: String,
    pub difficulty: String,
    pub cleared_date: String,
    pub crystal_price: i64,
    pub party_size: i32,
    pub is_monthly: bool,
}

/// How the web API turned a request down.
pub enum ApiRejection {
    /// The API reported an error with this message.
    Message(String),
    /// No character has the requested name.
    CharacterNotFound,
}

/// The API's error name for an unknown character name.
pub const CHARACTER_NOT_FOUND_CODE: &'static str = "OPENAPI00004";

impl Character {
    /// A new, active character from a registration request; the store
    /// assigns the id and the timestamps.
    pub fn from_registration(input: RegisterCharacterInput) -> (r: Character)
        ensures
            r.id == 0,
            r.character_name@ == input.character_name@,
            r.character_image@ == input.character_image@,
            r.ocid@ == input.ocid@,
            r.world_name@ == input.world_name@,
            r.character_class@ == input.character_class@,
            r.character_level == input.character_level,
            r.character_exp_rate == input.character_exp_rate,
            r.is_active,
            r.created_at@.len() == 0,
            r.updated_at@.len() == 0,
    {
        Character {
            id: 0,
            character_name: input.character_name,
            character_image: input.character_image,
            ocid: input.ocid,
            world_name: input.world_name,
            character_class: input.character_class,
            character_level: input.character_level,
            character_exp_rate: input.character_exp_rate,
            is_active: true,
            created_at: String::new(),
            updated_at: String::new(),
        }
    }
}

impl BossSetting {
    /// A new boss setting from a save request; the store assigns the id and
    /// the timestamps.
    pub fn from_input(input: SaveBossSettingInput) -> (r: BossSetting)
        ensures
            r.id == 0,
            r.character_id == input.character_id,
            r.boss_id@ == input.boss_id@,
            r.difficulty@ == input.difficulty@,
            r.party_size == input.party_size,
            r.enabled == input.enabled,
            r.created_at@.len() == 0,
            r.updated_at@.len() == 0,
    {
        BossSetting {
            id: 0,
            character_id: input.character_id,
            boss_id: input.boss_id,
            difficulty: input.difficulty,
            party_size: input.party_size,
            enabled: input.enabled,
            created_at: String::new(),
            updated_at: String::new(),
        }
    }
}

impl SearchCharacterResult {
    /// The search result for the character with id `ocid`.
    pub fn from_basic(ocid: String, basic: CharacterBasic) -> (r: SearchCharacterResult)
        ensures
            r.ocid@ == ocid@,
            r.character_name@ == basic.character_name@,
            r.character_image@ == basic.character_image@,
            r.world_name@ == basic.world_name@,
            r.character_class@ == basic.character_class@,
            r.character_level == basic.character_level,
            r.character_exp_rate@ == basic.character_exp_rate@,
    {
        SearchCharacterResult {
            ocid,
            character_name: basic.character_name,
            character_image: basic.character_image,
            world_name: basic.world_name,
            character_class: basic.character_class,
            character_level: basic.character_level,
            character_exp_rate: basic.character_exp_rate,
        }
    }
}

/// A day's level and experience as the API reported them.
pub fn daily_exp(date: String, basic: &CharacterBasic) -> (r: DailyExpData)
    ensures
        r.date@ == date@,
        r.level == basic.character_level,
        r.exp == basic.character_exp,
{
    DailyExpData { date, level: basic.character_level, exp: basic.character_exp }
}

/// The rejection of a failed request: the API's message, or "Unknown error"
/// when the body held no error.
pub fn rejection_of(response: ApiErrorResponse) -> (r: ApiRejection)
    ensures
        match response.error {
            Some(e) => r matches ApiRejection::Message(m) && m@ == e.message@,
            None => r matches ApiRejection::Message(m) && m@ == "Unknown error"@,
        },
{
    match response.error {
        Some(e) => ApiRejection::Message(e.message),
        None => ApiRejection::Message(String::from_str("Unknown error")),
    }
}

/// The rejection of a failed character-id lookup: an unknown name, or a
/// missing error body, is `CharacterNotFound`; any other error keeps its
/// message.
pub fn ocid_rejection_of(response: ApiErrorResponse) -> (r: ApiRejection)
    ensures
        match response.error {
            Some(e) => if e.name@ == CHARACTER_NOT_FOUND_CODE@ {
                r is CharacterNotFound
            } else {
                r matches ApiRejection::Message(m) && m@ == e.message@
            },
            None => r is CharacterNotFound,
        },
{
    match response.error {
        Some(e) => {
            if string_eq(e.name.as_str(), CHARACTER_NOT_FOUND_CODE) {
                ApiRejection::CharacterNotFound
            } else {
                ApiRejection::Message(e.message)
            }
        },
        None => ApiRejection::CharacterNotFound,
    }
}

fn string_eq(a: &str, b: &str) -> (r: bool)
    ensures
        r == (a@ == b@),
{
    let n = a.unicode_len();
    let m = b.unicode_len();
    if n != m {
        return false;
    }
    let mut i: usize = 0;
    while i < n
        invariant
            n == a@.len(),
            m == b@.len(),
            n == m,
            i <= n,
            forall|k: int| 0 <= k < i ==> a@[k] == b@[k],
        decreases n - i,
    {
        if a.get_char(i) != b.get_char(i) {
            return false;
        }
        i += 1;
    }
    assert(a@ =~= b@);
    true
}

} // verus!
