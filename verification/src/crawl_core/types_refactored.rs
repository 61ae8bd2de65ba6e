//! Regions, languages, task priorities and statuses, task content and task
//! timing.
use vstd::prelude::*;
use vstd::string::StringSliceAdditionalSpecFns;
use vstd::utf8::encode_utf8;
use crate::web_url::{parse_url, url_parse_result};
use crate::common::{BooleanFlag, LimitValue, SessionId, TaskError, TaskErrorKind, TaskErrorView, TaskId, UrlString, new_uuid_v4, now_millis};
use crate::text_util::{
    ascii_lowercased, ascii_uppercased, is_ascii_text,
    count_words, decimal, lowercase_of, pairs_view, push_str, str_eq, to_lowercase, u64_to_string,
    word_count,
};

verus! {

/// Geographic regions for content localization and proxy selection.
#[derive(Clone, Copy, Debug, PartialEq, Eq, Structural, Hash)]
pub enum Region {
    NorthAmerica,
    Europe,
    AsiaPacific,
    China,
    Global,
}

pub open spec fn region_name(r: Region) -> Seq<char> {
    match r {
        Region::NorthAmerica => "north_america"@,
        Region::Europe => "europe"@,
        Region::AsiaPacific => "asia_pacific"@,
        Region::China => "china"@,
        Region::Global => "global"@,
    }
}

/// The region named by a lowercase name or alias, if any.
pub open spec fn region_from_name(s: Seq<char>) -> Option<Region> {
    if s == "north_america"@ || s == "northamerica"@ || s == "na"@ || s == "us"@ {
        Some(Region::NorthAmerica)
    } else if s == "europe"@ || s == "eu"@ {
        Some(Region::Europe)
    } else if s == "asia_pacific"@ || s == "asiapacific"@ || s == "ap"@ || s == "asia"@ || s == "apac"@ {
        Some(Region::AsiaPacific)
    } else if s == "china"@ || s == "cn"@ {
        Some(Region::China)
    } else if s == "global"@ || s == "international"@ {
        Some(Region::Global)
    } else {
        None
    }
}

pub open spec fn region_timezone_offset(r: Region) -> i32 {
    match r {
        Region::NorthAmerica => -8i32,
        Region::Europe => 1,
        Region::AsiaPacific => 9,
        Region::China => 8,
        Region::Global => 0,
    }
}

/// A region's name is ASCII and parses back to the region, in lower or in
/// upper case.
pub proof fn lemma_region_name_round_trip(r: Region)
    ensures
        is_ascii_text(region_name(r)),
        region_from_name(ascii_lowercased(region_name(r))) == Some(r),
        is_ascii_text(ascii_uppercased(region_name(r))),
        region_from_name(ascii_lowercased(ascii_uppercased(region_name(r)))) == Some(r),
{
    let n = region_name(r);
    reveal_strlit("north_america");
    reveal_strlit("northamerica");
    reveal_strlit("na");
    reveal_strlit("us");
    reveal_strlit("europe");
    reveal_strlit("eu");
    reveal_strlit("asia_pacific");
    reveal_strlit("asiapacific");
    reveal_strlit("ap");
    reveal_strlit("asia");
    reveal_strlit("apac");
    reveal_strlit("china");
    reveal_strlit("cn");
    reveal_strlit("global");
    reveal_strlit("international");
    match r {
        Region::NorthAmerica => { reveal_strlit("north_america"); },
        Region::Europe => { reveal_strlit("europe"); },
        Region::AsiaPacific => { reveal_strlit("asia_pacific"); },
        Region::China => { reveal_strlit("china"); },
        Region::Global => { reveal_strlit("global"); },
    }
    assert("north_america"@[0] == 'n' && "north_america"@[1] == 'o' && "north_america"@[2] == 'r');
    assert("northamerica"@[0] == 'n' && "northamerica"@[1] == 'o' && "northamerica"@[2] == 'r');
    assert("na"@[0] == 'n' && "na"@[1] == 'a');
    assert("us"@[0] == 'u' && "us"@[1] == 's');
    assert("europe"@[0] == 'e' && "europe"@[1] == 'u' && "europe"@[2] == 'r');
    assert("eu"@[0] == 'e' && "eu"@[1] == 'u');
    assert("asia_pacific"@[0] == 'a' && "asia_pacific"@[1] == 's' && "asia_pacific"@[2] == 'i');
    assert("asiapacific"@[0] == 'a' && "asiapacific"@[1] == 's' && "asiapacific"@[2] == 'i');
    assert("ap"@[0] == 'a' && "ap"@[1] == 'p');
    assert("asia"@[0] == 'a' && "asia"@[1] == 's' && "asia"@[2] == 'i');
    assert("apac"@[0] == 'a' && "apac"@[1] == 'p' && "apac"@[2] == 'a');
    assert("china"@[0] == 'c' && "china"@[1] == 'h' && "china"@[2] == 'i');
    assert("cn"@[0] == 'c' && "cn"@[1] == 'n');
    assert("global"@[0] == 'g' && "global"@[1] == 'l' && "global"@[2] == 'o');
    assert("international"@[0] == 'i' && "international"@[1] == 'n' && "international"@[2] == 't');
    assert(ascii_lowercased(n) =~= n);
    assert(ascii_lowercased(ascii_uppercased(n)) =~= n);
}

impl Region {
    pub fn as_str(&self) -> (r: &'static str)
        ensures
            r@ == region_name(*self),
    {
        match self {
            Region::NorthAmerica => "north_america",
            Region::Europe => "europe",
            Region::AsiaPacific => "asia_pacific",
            Region::China => "china",
            Region::Global => "global",
        }
    }

    /// Parses a region name or alias, ignoring case.
    pub fn from_str(s: &str) -> (r: Option<Self>)
        ensures
            r == region_from_name(lowercase_of(s@)),
            is_ascii_text(s@) ==> r == region_from_name(ascii_lowercased(s@)),
    {
        let low = to_lowercase(s);
        let l = low.as_str();
        if str_eq(l, "north_america") || str_eq(l, "northamerica") || str_eq(l, "na") || str_eq(l, "us") {
            Some(Region::NorthAmerica)
        } else if str_eq(l, "europe") || str_eq(l, "eu") {
            Some(Region::Europe)
        } else if str_eq(l, "asia_pacific") || str_eq(l, "asiapacific") || str_eq(l, "ap")
            || str_eq(l, "asia") || str_eq(l, "apac") {
            Some(Region::AsiaPacific)
        } else if str_eq(l, "china") || str_eq(l, "cn") {
            Some(Region::China)
        } else if str_eq(l, "global") || str_eq(l, "international") {
            Some(Region::Global)
        } else {
            None
        }
    }

    /// Hours from UTC of the region's reference time zone.
    pub fn timezone_offset(&self) -> (r: i32)
        ensures
            r == region_timezone_offset(*self),
    {
        match self {
            Region::NorthAmerica => -8i32,
            Region::Europe => 1,
            Region::AsiaPacific => 9,
            Region::China => 8,
            Region::Global => 0,
        }
    }
}

impl Default for Region {
    fn default() -> (r: Self)
        ensures
            r == Region::Global,
    {
        Region::Global
    }
}

/// Languages for content negotiation and filtering.
#[derive(Clone, Copy, Debug, PartialEq, Eq, Structural, Hash)]
pub enum LangType {
    English,
    ChineseSimplified,
    ChineseTraditional,
    French,
    German,
    Japanese,
    Korean,
    Spanish,
    Portuguese,
    Russian,
}

pub open spec fn lang_code(l: LangType) -> Seq<char> {
    match l {
        LangType::English => "en"@,
        LangType::ChineseSimplified => "zh-CN"@,
        LangType::ChineseTraditional => "zh-TW"@,
        LangType::French => "fr"@,
        LangType::German => "de"@,
        LangType::Japanese => "ja"@,
        LangType::Korean => "ko"@,
        LangType::Spanish => "es"@,
        LangType::Portuguese => "pt"@,
        LangType::Russian => "ru"@,
    }
}

pub open spec fn lang_variants(l: LangType) -> Seq<Seq<char>> {
    match l {
        LangType::English => seq!["en-US"@, "en-GB"@, "en-CA"@, "en"@],
        LangType::ChineseSimplified => seq!["zh-CN"@, "zh"@],
        LangType::ChineseTraditional => seq!["zh-TW"@, "zh-HK"@, "zh"@],
        LangType::French => seq!["fr-FR"@, "fr-CA"@, "fr"@],
        LangType::German => seq!["de-DE"@, "de-AT"@, "de-CH"@, "de"@],
        LangType::Japanese => seq!["ja-JP"@, "ja"@],
        LangType::Korean => seq!["ko-KR"@, "ko"@],
        LangType::Spanish => seq!["es-ES"@, "es-MX"@, "es-AR"@, "es"@],
        LangType::Portuguese => seq!["pt-BR"@, "pt-PT"@, "pt"@],
        LangType::Russian => seq!["ru-RU"@, "ru"@],
    }
}

/// The language named by a lowercase code or name, if any.
pub open spec fn lang_from_name(s: Seq<char>) -> Option<LangType> {
    if s == "en"@ || s == "english"@ {
        Some(LangType::English)
    } else if s == "zh-cn"@ || s == "zh_cn"@ || s == "chinese_simplified"@ {
        Some(LangType::ChineseSimplified)
    } else if s == "zh-tw"@ || s == "zh_tw"@ || s == "chinese_traditional"@ {
        Some(LangType::ChineseTraditional)
    } else if s == "fr"@ || s == "french"@ {
        Some(LangType::French)
    } else if s == "de"@ || s == "german"@ {
        Some(LangType::German)
    } else if s == "ja"@ || s == "japanese"@ {
        Some(LangType::Japanese)
    } else if s == "ko"@ || s == "korean"@ {
        Some(LangType::Korean)
    } else if s == "es"@ || s == "spanish"@ {
        Some(LangType::Spanish)
    } else if s == "pt"@ || s == "portuguese"@ {
        Some(LangType::Portuguese)
    } else if s == "ru"@ || s == "russian"@ {
        Some(LangType::Russian)
    } else {
        None
    }
}

/// A language's code is ASCII and parses back to the language, in lower
/// or in upper case (its code is written with an upper-case region part,
/// as in `zh-CN`).
pub proof fn lemma_lang_code_round_trip(l: LangType)
    ensures
        is_ascii_text(lang_code(l)),
        lang_from_name(ascii_lowercased(lang_code(l))) == Some(l),
        is_ascii_text(ascii_uppercased(lang_code(l))),
        lang_from_name(ascii_lowercased(ascii_uppercased(lang_code(l)))) == Some(l),
{
    let n = lang_code(l);
    reveal_strlit("en");
    reveal_strlit("english");
    reveal_strlit("zh-cn");
    reveal_strlit("zh_cn");
    reveal_strlit("chinese_simplified");
    reveal_strlit("zh-tw");
    reveal_strlit("zh_tw");
    reveal_strlit("chinese_traditional");
    reveal_strlit("fr");
    reveal_strlit("french");
    reveal_strlit("de");
    reveal_strlit("german");
    reveal_strlit("ja");
    reveal_strlit("japanese");
    reveal_strlit("ko");
    reveal_strlit("korean");
    reveal_strlit("es");
    reveal_strlit("spanish");
    reveal_strlit("pt");
    reveal_strlit("portuguese");
    reveal_strlit("ru");
    reveal_strlit("russian");
    match l {
        LangType::English => { reveal_strlit("en"); },
        LangType::ChineseSimplified => { reveal_strlit("zh-CN"); reveal_strlit("zh-cn"); },
        LangType::ChineseTraditional => { reveal_strlit("zh-TW"); reveal_strlit("zh-tw"); },
        LangType::French => { reveal_strlit("fr"); },
        LangType::German => { reveal_strlit("de"); },
        LangType::Japanese => { reveal_strlit("ja"); },
        LangType::Korean => { reveal_strlit("ko"); },
        LangType::Spanish => { reveal_strlit("es"); },
        LangType::Portuguese => { reveal_strlit("pt"); },
        LangType::Russian => { reveal_strlit("ru"); },
    }
    assert("en"@[0] == 'e' && "en"@[1] == 'n');
    assert("english"@[0] == 'e' && "english"@[1] == 'n' && "english"@[2] == 'g');
    assert("zh-cn"@[0] == 'z' && "zh-cn"@[1] == 'h' && "zh-cn"@[2] == '-' && "zh-cn"@[3] == 'c');
    assert("zh_cn"@[0] == 'z' && "zh_cn"@[1] == 'h' && "zh_cn"@[2] == '_' && "zh_cn"@[3] == 'c');
    assert("chinese_simplified"@[0] == 'c' && "chinese_simplified"@[1] == 'h' && "chinese_simplified"@[2] == 'i');
    assert("zh-tw"@[0] == 'z' && "zh-tw"@[1] == 'h' && "zh-tw"@[2] == '-' && "zh-tw"@[3] == 't');
    assert("zh_tw"@[0] == 'z' && "zh_tw"@[1] == 'h' && "zh_tw"@[2] == '_' && "zh_tw"@[3] == 't');
    assert("chinese_traditional"@[0] == 'c' && "chinese_traditional"@[1] == 'h' && "chinese_traditional"@[2] == 'i');
    assert("fr"@[0] == 'f' && "fr"@[1] == 'r');
    assert("french"@[0] == 'f' && "french"@[1] == 'r' && "french"@[2] == 'e');
    assert("de"@[0] == 'd' && "de"@[1] == 'e');
    assert("german"@[0] == 'g' && "german"@[1] == 'e' && "german"@[2] == 'r');
    assert("ja"@[0] == 'j' && "ja"@[1] == 'a');
    assert("japanese"@[0] == 'j' && "japanese"@[1] == 'a' && "japanese"@[2] == 'p');
    assert("ko"@[0] == 'k' && "ko"@[1] == 'o');
    assert("korean"@[0] == 'k' && "korean"@[1] == 'o' && "korean"@[2] == 'r');
    assert("es"@[0] == 'e' && "es"@[1] == 's');
    assert("spanish"@[0] == 's' && "spanish"@[1] == 'p' && "spanish"@[2] == 'a');
    assert("pt"@[0] == 'p' && "pt"@[1] == 't');
    assert("portuguese"@[0] == 'p' && "portuguese"@[1] == 'o' && "portuguese"@[2] == 'r');
    assert("ru"@[0] == 'r' && "ru"@[1] == 'u');
    assert("russian"@[0] == 'r' && "russian"@[1] == 'u' && "russian"@[2] == 's');
    if l == LangType::ChineseSimplified {
        assert(ascii_lowercased(n) =~= "zh-cn"@);
        assert(ascii_lowercased(ascii_uppercased(n)) =~= "zh-cn"@);
    } else if l == LangType::ChineseTraditional {
        assert(ascii_lowercased(n) =~= "zh-tw"@);
        assert(ascii_lowercased(ascii_uppercased(n)) =~= "zh-tw"@);
    } else {
        assert(ascii_lowercased(n) =~= n);
        assert(ascii_lowercased(ascii_uppercased(n)) =~= n);
    }
}

pub open spec fn lang_is_cjk(l: LangType) -> bool {
    l == LangType::ChineseSimplified || l == LangType::ChineseTraditional || l == LangType::Japanese
        || l == LangType::Korean
}

/// The text of each string in a list.
pub open spec fn static_strs_view(v: Seq<&'static str>) -> Seq<Seq<char>> {
    v.map_values(|s: &'static str| s@)
}

impl LangType {
    pub fn as_str(&self) -> (r: &'static str)
        ensures
            r@ == lang_code(*self),
    {
        match self {
            LangType::English => "en",
            LangType::ChineseSimplified => "zh-CN",
            LangType::ChineseTraditional => "zh-TW",
            LangType::French => "fr",
            LangType::German => "de",
            LangType::Japanese => "ja",
            LangType::Korean => "ko",
            LangType::Spanish => "es",
            LangType::Portuguese => "pt",
            LangType::Russian => "ru",
        }
    }

    /// The HTTP `Accept-Language` code (the same as `as_str`).
    pub fn to_http_code(&self) -> (r: &'static str)
        ensures
            r@ == lang_code(*self),
    {
        self.as_str()
    }

    /// Regional variants, most specific first.
    pub fn to_http_variants(&self) -> (r: Vec<&'static str>)
        ensures
            static_strs_view(r@) == lang_variants(*self),
    {
        let r = match self {
            LangType::English => vec!["en-US", "en-GB", "en-CA", "en"],
            LangType::ChineseSimplified => vec!["zh-CN", "zh"],
            LangType::ChineseTraditional => vec!["zh-TW", "zh-HK", "zh"],
            LangType::French => vec!["fr-FR", "fr-CA", "fr"],
            LangType::German => vec!["de-DE", "de-AT", "de-CH", "de"],
            LangType::Japanese => vec!["ja-JP", "ja"],
            LangType::Korean => vec!["ko-KR", "ko"],
            LangType::Spanish => vec!["es-ES", "es-MX", "es-AR", "es"],
            LangType::Portuguese => vec!["pt-BR", "pt-PT", "pt"],
            LangType::Russian => vec!["ru-RU", "ru"],
        };
        proof {
            assert(static_strs_view(r@) =~= lang_variants(*self));
        }
        r
    }

    pub fn is_cjk(&self) -> (r: bool)
        ensures
            r == lang_is_cjk(*self),
    {
        match self {
            LangType::ChineseSimplified | LangType::ChineseTraditional | LangType::Japanese
            | LangType::Korean => true,
            _ => false,
        }
    }

    /// None of the supported languages is written right to left.
    pub fn is_rtl(&self) -> (r: bool)
        ensures
            !r,
    {
        false
    }

    /// Parses a language code or name, ignoring case.
    pub fn from_str(s: &str) -> (r: Option<Self>)
        ensures
            r == lang_from_name(lowercase_of(s@)),
            is_ascii_text(s@) ==> r == lang_from_name(ascii_lowercased(s@)),
    {
        let low = to_lowercase(s);
        let l = low.as_str();
        if str_eq(l, "en") || str_eq(l, "english") {
            Some(LangType::English)
        } else if str_eq(l, "zh-cn") || str_eq(l, "zh_cn") || str_eq(l, "chinese_simplified") {
            Some(LangType::ChineseSimplified)
        } else if str_eq(l, "zh-tw") || str_eq(l, "zh_tw") || str_eq(l, "chinese_traditional") {
            Some(LangType::ChineseTraditional)
        } else if str_eq(l, "fr") || str_eq(l, "french") {
            Some(LangType::French)
        } else if str_eq(l, "de") || str_eq(l, "german") {
            Some(LangType::German)
        } else if str_eq(l, "ja") || str_eq(l, "japanese") {
            Some(LangType::Japanese)
        } else if str_eq(l, "ko") || str_eq(l, "korean") {
            Some(LangType::Korean)
        } else if str_eq(l, "es") || str_eq(l, "spanish") {
            Some(LangType::Spanish)
        } else if str_eq(l, "pt") || str_eq(l, "portuguese") {
            Some(LangType::Portuguese)
        } else if str_eq(l, "ru") || str_eq(l, "russian") {
            Some(LangType::Russian)
        } else {
            None
        }
    }
}

impl Default for LangType {
    fn default() -> (r: Self)
        ensures
            r == LangType::English,
    {
        LangType::English
    }
}

/// Queue priority of a task, ordered from lowest to highest.
#[derive(Clone, Copy, Debug, PartialEq, Eq, Structural, Ord, Hash)]
pub enum TaskPriority {
    Low,
    Normal,
    Medium,
    High,
    Critical,
}

/// The numeric level of a priority: 0 for the lowest, 4 for the highest.
pub open spec fn priority_level(p: TaskPriority) -> u8 {
    match p {
        TaskPriority::Low => 0,
        TaskPriority::Normal => 1,
        TaskPriority::Medium => 2,
        TaskPriority::High => 3,
        TaskPriority::Critical => 4,
    }
}

pub open spec fn priority_name(p: TaskPriority) -> Seq<char> {
    match p {
        TaskPriority::Low => "low"@,
        TaskPriority::Normal => "normal"@,
        TaskPriority::Medium => "medium"@,
        TaskPriority::High => "high"@,
        TaskPriority::Critical => "critical"@,
    }
}

pub open spec fn priority_from_name(s: Seq<char>) -> Option<TaskPriority> {
    if s == "low"@ {
        Some(TaskPriority::Low)
    } else if s == "normal"@ {
        Some(TaskPriority::Normal)
    } else if s == "medium"@ {
        Some(TaskPriority::Medium)
    } else if s == "high"@ {
        Some(TaskPriority::High)
    } else if s == "critical"@ {
        Some(TaskPriority::Critical)
    } else {
        None
    }
}

impl TaskPriority {
    pub fn as_str(&self) -> (r: &'static str)
        ensures
            r@ == priority_name(*self),
    {
        match self {
            TaskPriority::Low => "low",
            TaskPriority::Normal => "normal",
            TaskPriority::Medium => "medium",
            TaskPriority::High => "high",
            TaskPriority::Critical => "critical",
        }
    }

    /// Parses a priority name, ignoring case.
    pub fn from_str(s: &str) -> (r: Option<Self>)
        ensures
            r == priority_from_name(lowercase_of(s@)),
    {
        let low = to_lowercase(s);
        let l = low.as_str();
        if str_eq(l, "low") {
            Some(TaskPriority::Low)
        } else if str_eq(l, "normal") {
            Some(TaskPriority::Normal)
        } else if str_eq(l, "medium") {
            Some(TaskPriority::Medium)
        } else if str_eq(l, "high") {
            Some(TaskPriority::High)
        } else if str_eq(l, "critical") {
            Some(TaskPriority::Critical)
        } else {
            None
        }
    }

    /// The numeric level, which orders priorities as `Ord` does.
    pub fn priority_value(&self) -> (r: u8)
        ensures
            r == priority_level(*self),
    {
        match self {
            TaskPriority::Low => 0,
            TaskPriority::Normal => 1,
            TaskPriority::Medium => 2,
            TaskPriority::High => 3,
            TaskPriority::Critical => 4,
        }
    }
}

impl Default for TaskPriority {
    fn default() -> (r: Self)
        ensures
            r == TaskPriority::Normal,
    {
        TaskPriority::Normal
    }
}

/// Lifecycle status of a task.
#[derive(Clone, Copy, Debug, PartialEq, Eq, Structural)]
pub enum TaskStatus {
    Pending,
    InProgress,
    Completed,
    Failed,
    Retrying,
    Dead,
}

pub open spec fn status_name(s: TaskStatus) -> Seq<char> {
    match s {
        TaskStatus::Pending => "pending"@,
        TaskStatus::InProgress => "in_progress"@,
        TaskStatus::Completed => "completed"@,
        TaskStatus::Failed => "failed"@,
        TaskStatus::Retrying => "retrying"@,
        TaskStatus::Dead => "dead"@,
    }
}

pub open spec fn status_from_name(s: Seq<char>) -> Option<TaskStatus> {
    if s == "pending"@ {
        Some(TaskStatus::Pending)
    } else if s == "in_progress"@ || s == "inprogress"@ {
        Some(TaskStatus::InProgress)
    } else if s == "completed"@ {
        Some(TaskStatus::Completed)
    } else if s == "failed"@ {
        Some(TaskStatus::Failed)
    } else if s == "retrying"@ {
        Some(TaskStatus::Retrying)
    } else if s == "dead"@ {
        Some(TaskStatus::Dead)
    } else {
        None
    }
}

/// Completed and dead tasks are finished for good.
pub open spec fn status_is_terminal(s: TaskStatus) -> bool {
    s == TaskStatus::Completed || s == TaskStatus::Dead
}

/// Running and retrying tasks are active.
pub open spec fn status_is_active(s: TaskStatus) -> bool {
    s == TaskStatus::InProgress || s == TaskStatus::Retrying
}

impl TaskStatus {
    pub fn as_str(&self) -> (r: &'static str)
        ensures
            r@ == status_name(*self),
    {
        match self {
            TaskStatus::Pending => "pending",
            TaskStatus::InProgress => "in_progress",
            TaskStatus::Completed => "completed",
            TaskStatus::Failed => "failed",
            TaskStatus::Retrying => "retrying",
            TaskStatus::Dead => "dead",
        }
    }

    /// Parses a status name, ignoring case.
    pub fn from_str(s: &str) -> (r: Option<Self>)
        ensures
            r == status_from_name(lowercase_of(s@)),
    {
        let low = to_lowercase(s);
        let l = low.as_str();
        if str_eq(l, "pending") {
            Some(TaskStatus::Pending)
        } else if str_eq(l, "in_progress") || str_eq(l, "inprogress") {
            Some(TaskStatus::InProgress)
        } else if str_eq(l, "completed") {
            Some(TaskStatus::Completed)
        } else if str_eq(l, "failed") {
            Some(TaskStatus::Failed)
        } else if str_eq(l, "retrying") {
            Some(TaskStatus::Retrying)
        } else if str_eq(l, "dead") {
            Some(TaskStatus::Dead)
        } else {
            None
        }
    }

    pub fn is_terminal(&self) -> (r: bool)
        ensures
            r == status_is_terminal(*self),
    {
        match self {
            TaskStatus::Completed | TaskStatus::Dead => true,
            _ => false,
        }
    }

    pub fn is_active(&self) -> (r: bool)
        ensures
            r == status_is_active(*self),
    {
        match self {
            TaskStatus::InProgress | TaskStatus::Retrying => true,
            _ => false,
        }
    }
}

impl Default for TaskStatus {
    fn default() -> (r: Self)
        ensures
            r == TaskStatus::Pending,
    {
        TaskStatus::Pending
    }
}

/// Why a URL was not processed.
#[derive(Debug)]
pub enum SkipReason {
    AlreadyVisited,
    RobotsBlocked,
    ContentFiltered,
    LanguageNotAccepted,
    NoContent,
    ExtensionBlocked(String),
    DomainBlocked(String),
    PolicyRestriction(String),
    TechnicalError(String),
}

pub open spec fn skip_reason_name(r: SkipReason) -> Seq<char> {
    match r {
        SkipReason::AlreadyVisited => "already_visited"@,
        SkipReason::RobotsBlocked => "robots_blocked"@,
        SkipReason::ContentFiltered => "content_filtered"@,
        SkipReason::LanguageNotAccepted => "language_not_accepted"@,
        SkipReason::NoContent => "no_content"@,
        SkipReason::ExtensionBlocked(_) => "extension_blocked"@,
        SkipReason::DomainBlocked(_) => "domain_blocked"@,
        SkipReason::PolicyRestriction(_) => "policy_restriction"@,
        SkipReason::TechnicalError(_) => "technical_error"@,
    }
}

/// The text that a skip reason carries, if any.
pub open spec fn skip_reason_details(r: SkipReason) -> Option<Seq<char>> {
    match r {
        SkipReason::ExtensionBlocked(s) => Some(s@),
        SkipReason::DomainBlocked(s) => Some(s@),
        SkipReason::PolicyRestriction(s) => Some(s@),
        SkipReason::TechnicalError(s) => Some(s@),
        _ => None,
    }
}

impl SkipReason {
    pub fn as_str(&self) -> (r: &'static str)
        ensures
            r@ == skip_reason_name(*self),
    {
        match self {
            SkipReason::AlreadyVisited => "already_visited",
            SkipReason::RobotsBlocked => "robots_blocked",
            SkipReason::ContentFiltered => "content_filtered",
            SkipReason::LanguageNotAccepted => "language_not_accepted",
            SkipReason::NoContent => "no_content",
            SkipReason::ExtensionBlocked(_) => "extension_blocked",
            SkipReason::DomainBlocked(_) => "domain_blocked",
            SkipReason::PolicyRestriction(_) => "policy_restriction",
            SkipReason::TechnicalError(_) => "technical_error",
        }
    }

    pub fn details(&self) -> (r: Option<&str>)
        ensures
            r matches Some(s) ==> skip_reason_details(*self) == Some(s@),
            r is None ==> skip_reason_details(*self) is None,
    {
        match self {
            SkipReason::ExtensionBlocked(s) => Some(s.as_str()),
            SkipReason::DomainBlocked(s) => Some(s.as_str()),
            SkipReason::PolicyRestriction(s) => Some(s.as_str()),
            SkipReason::TechnicalError(s) => Some(s.as_str()),
            _ => None,
        }
    }
}

/// Abstract content of fetched task content. Times are milliseconds.
pub struct TaskContentView {
    pub text: Seq<char>,
    pub content_type: Seq<char>,
    pub content_length: u64,
    pub detected_language: Option<LangType>,
    pub word_count: u64,
    pub links: Seq<Seq<char>>,
    pub metadata: Seq<(Seq<char>, Seq<char>)>,
    pub processing_time: u64,
    pub timestamp: u64,
}

/// The content fetched for a task, with what was extracted from it.
#[derive(Debug)]
pub struct TaskContent {
    text: String,
    content_type: String,
    content_length: u64,
    detected_language: Option<LangType>,
    word_count: u64,
    links: Vec<UrlString>,
    metadata: Vec<(String, String)>,
    processing_time: u64,
    timestamp: u64,
}

pub open spec fn urls_view(v: Seq<UrlString>) -> Seq<Seq<char>> {
    v.map_values(|u: UrlString| u@)
}

impl View for TaskContent {
    type V = TaskContentView;

    closed spec fn view(&self) -> TaskContentView {
        TaskContentView {
            text: self.text@,
            content_type: self.content_type@,
            content_length: self.content_length,
            detected_language: self.detected_language,
            word_count: self.word_count,
            links: urls_view(self.links@),
            metadata: pairs_view(self.metadata@),
            processing_time: self.processing_time,
            timestamp: self.timestamp,
        }
    }
}

/// Debug rendering of an optional language, as `{:?}` prints it.
pub open spec fn lang_debug(l: Option<LangType>) -> Seq<char> {
    match l {
        None => "None"@,
        Some(LangType::English) => "Some(English)"@,
        Some(LangType::ChineseSimplified) => "Some(ChineseSimplified)"@,
        Some(LangType::ChineseTraditional) => "Some(ChineseTraditional)"@,
        Some(LangType::French) => "Some(French)"@,
        Some(LangType::German) => "Some(German)"@,
        Some(LangType::Japanese) => "Some(Japanese)"@,
        Some(LangType::Korean) => "Some(Korean)"@,
        Some(LangType::Spanish) => "Some(Spanish)"@,
        Some(LangType::Portuguese) => "Some(Portuguese)"@,
        Some(LangType::Russian) => "Some(Russian)"@,
    }
}

fn lang_debug_str(l: Option<LangType>) -> (r: &'static str)
    ensures
        r@ == lang_debug(l),
{
    match l {
        None => "None",
        Some(LangType::English) => "Some(English)",
        Some(LangType::ChineseSimplified) => "Some(ChineseSimplified)",
        Some(LangType::ChineseTraditional) => "Some(ChineseTraditional)",
        Some(LangType::French) => "Some(French)",
        Some(LangType::German) => "Some(German)",
        Some(LangType::Japanese) => "Some(Japanese)",
        Some(LangType::Korean) => "Some(Korean)",
        Some(LangType::Spanish) => "Some(Spanish)",
        Some(LangType::Portuguese) => "Some(Portuguese)",
        Some(LangType::Russian) => "Some(Russian)",
    }
}

/// The one-line summary of content used in logs.
pub open spec fn content_summary(c: TaskContentView) -> Seq<char> {
    "Content: "@ + decimal(c.content_length as nat) + " chars, "@ + decimal(c.word_count as nat)
        + " words, type: "@ + c.content_type + ", language: "@ + lang_debug(c.detected_language)
}

impl TaskContent {
    /// Content created now: its length is the text's size in bytes and its
    /// word count the number of whitespace-separated words.
    pub fn new(text: String, content_type: String) -> (r: Self)
        requires
            encode_utf8(text@).len() <= usize::MAX,
        ensures
            r@.text == text@,
            r@.content_type == content_type@,
            r@.content_length == encode_utf8(text@).len(),
            r@.word_count == word_count(text@),
            r@.detected_language is None,
            r@.links.len() == 0,
            r@.metadata.len() == 0,
            r@.processing_time == 0,
    {
        let content_length = text.as_str().len() as u64;
        let words = count_words(text.as_str());
        let r = TaskContent {
            text,
            content_type,
            content_length,
            detected_language: None,
            word_count: words,
            links: Vec::new(),
            metadata: Vec::new(),
            processing_time: 0,
            timestamp: now_millis(),
        };
        proof {
            assert(urls_view(r.links@).len() == 0);
            assert(pairs_view(r.metadata@).len() == 0);
        }
        r
    }

    pub fn with_language_detection(self, language: Option<LangType>) -> (r: Self)
        ensures
            r@ == (TaskContentView { detected_language: language, ..self@ }),
    {
        let mut this = self;
        this.detected_language = language;
        this
    }

    pub fn with_links(self, links: Vec<UrlString>) -> (r: Self)
        ensures
            r@ == (TaskContentView { links: urls_view(links@), ..self@ }),
    {
        let mut this = self;
        this.links = links;
        this
    }

    /// Replaces the metadata (name, value), in the given order.
    pub fn with_metadata(self, metadata: Vec<(String, String)>) -> (r: Self)
        ensures
            r@ == (TaskContentView { metadata: pairs_view(metadata@), ..self@ }),
    {
        let mut this = self;
        this.metadata = metadata;
        this
    }

    /// Sets the processing time, in milliseconds.
    pub fn with_processing_time(self, duration_ms: u64) -> (r: Self)
        ensures
            r@ == (TaskContentView { processing_time: duration_ms, ..self@ }),
    {
        let mut this = self;
        this.processing_time = duration_ms;
        this
    }

    pub fn text(&self) -> (r: &str)
        ensures
            r@ == self@.text,
    {
        self.text.as_str()
    }

    pub fn content_type(&self) -> (r: &str)
        ensures
            r@ == self@.content_type,
    {
        self.content_type.as_str()
    }

    pub fn content_length(&self) -> (r: u64)
        ensures
            r == self@.content_length,
    {
        self.content_length
    }

    pub fn detected_language(&self) -> (r: Option<LangType>)
        ensures
            r == self@.detected_language,
    {
        self.detected_language
    }

    pub fn word_count(&self) -> (r: u64)
        ensures
            r == self@.word_count,
    {
        self.word_count
    }

    pub fn links(&self) -> (r: &[UrlString])
        ensures
            urls_view(r@) == self@.links,
    {
        self.links.as_slice()
    }

    pub fn metadata(&self) -> (r: &Vec<(String, String)>)
        ensures
            pairs_view(r@) == self@.metadata,
    {
        &self.metadata
    }

    /// Processing time in milliseconds.
    pub fn processing_time(&self) -> (r: u64)
        ensures
            r == self@.processing_time,
    {
        self.processing_time
    }

    /// When the content was created, in milliseconds since the Unix epoch.
    pub fn timestamp(&self) -> (r: u64)
        ensures
            r == self@.timestamp,
    {
        self.timestamp
    }

    /// Whether the content has at least `min_words` words and `min_length`
    /// bytes.
    pub fn meets_quality_threshold(&self, min_words: u64, min_length: u64) -> (r: bool)
        ensures
            r == (self@.word_count >= min_words && self@.content_length >= min_length),
    {
        self.word_count >= min_words && self.content_length >= min_length
    }

    /// The summary line for logs (see `content_summary`).
    pub fn summary(&self) -> (r: String)
        ensures
            r@ == content_summary(self@),
    {
        let mut s = "Content: ".to_string();
        let a = u64_to_string(self.content_length);
        push_str(&mut s, a.as_str());
        push_str(&mut s, " chars, ");
        let b = u64_to_string(self.word_count);
        push_str(&mut s, b.as_str());
        push_str(&mut s, " words, type: ");
        push_str(&mut s, self.content_type.as_str());
        push_str(&mut s, ", language: ");
        push_str(&mut s, lang_debug_str(self.detected_language));
        proof {
            assert(s@ =~= content_summary(self@));
        }
        s
    }
}

/// Abstract content of task timing: times are milliseconds since the Unix
/// epoch, the total duration is in milliseconds.
pub struct TaskExecutionTimingView {
    pub created_at: u64,
    pub started_at: Option<u64>,
    pub completed_at: Option<u64>,
    pub last_attempt_at: Option<u64>,
    pub retry_delay_until: Option<u64>,
    pub total_duration: u64,
}

/// When a task was created, started, attempted and completed.
#[derive(Clone, Copy, Debug)]
pub struct TaskExecutionTiming {
    created_at: u64,
    started_at: Option<u64>,
    completed_at: Option<u64>,
    last_attempt_at: Option<u64>,
    retry_delay_until: Option<u64>,
    total_duration: u64,
}

impl View for TaskExecutionTiming {
    type V = TaskExecutionTimingView;

    closed spec fn view(&self) -> TaskExecutionTimingView {
        TaskExecutionTimingView {
            created_at: self.created_at,
            started_at: self.started_at,
            completed_at: self.completed_at,
            last_attempt_at: self.last_attempt_at,
            retry_delay_until: self.retry_delay_until,
            total_duration: self.total_duration,
        }
    }
}

/// Timing of a task created at `now` that has not run.
pub open spec fn fresh_timing(now: u64) -> TaskExecutionTimingView {
    TaskExecutionTimingView {
        created_at: now,
        started_at: None,
        completed_at: None,
        last_attempt_at: None,
        retry_delay_until: None,
        total_duration: 0,
    }
}

/// Ready when no retry delay is set or it has passed at `now`.
pub open spec fn timing_ready_for_retry(t: TaskExecutionTimingView, now: u64) -> bool {
    match t.retry_delay_until {
        Some(until) => now >= until,
        None => true,
    }
}

impl TaskExecutionTiming {
    /// Timing of a task created now.
    pub fn new() -> (r: Self)
        ensures
            r@ == fresh_timing(r@.created_at),
    {
        Self::new_at(now_millis())
    }

    /// Timing of a task created at `now`.
    pub fn new_at(now: u64) -> (r: Self)
        ensures
            r@ == fresh_timing(now),
    {
        TaskExecutionTiming {
            created_at: now,
            started_at: None,
            completed_at: None,
            last_attempt_at: None,
            retry_delay_until: None,
            total_duration: 0,
        }
    }

    /// Records a start (and an attempt) at `now`.
    pub fn mark_started_at(&mut self, now: u64)
        ensures
            final(self)@ == (TaskExecutionTimingView {
                started_at: Some(now),
                last_attempt_at: Some(now),
                ..old(self)@
            }),
    {
        self.started_at = Some(now);
        self.last_attempt_at = Some(now);
    }

    pub fn mark_started(&mut self)
        ensures
            final(self)@ == (TaskExecutionTimingView {
                started_at: final(self)@.started_at,
                last_attempt_at: final(self)@.started_at,
                ..old(self)@
            }),
            final(self)@.started_at is Some,
    {
        self.mark_started_at(now_millis());
    }

    /// Records completion at `now`; the total duration becomes the time
    /// since the start, when the task started no later than `now`.
    pub fn mark_completed_at(&mut self, now: u64)
        ensures
            final(self)@ == (TaskExecutionTimingView {
                completed_at: Some(now),
                total_duration: match old(self)@.started_at {
                    Some(s) => if s <= now { (now - s) as u64 } else { old(self)@.total_duration },
                    None => old(self)@.total_duration,
                },
                ..old(self)@
            }),
    {
        self.completed_at = Some(now);
        match self.started_at {
            Some(s) => {
                if s <= now {
                    self.total_duration = now - s;
                }
            },
            None => {},
        }
    }

    pub fn mark_completed(&mut self)
        ensures
            final(self)@.completed_at is Some,
            final(self)@.started_at == old(self)@.started_at,
            final(self)@.created_at == old(self)@.created_at,
    {
        self.mark_completed_at(now_millis());
    }

    /// Records an attempt at `now`.
    pub fn mark_attempt_at(&mut self, now: u64)
        ensures
            final(self)@ == (TaskExecutionTimingView { last_attempt_at: Some(now), ..old(self)@ }),
    {
        self.last_attempt_at = Some(now);
    }

    pub fn mark_attempt(&mut self)
        ensures
            final(self)@ == (TaskExecutionTimingView { last_attempt_at: final(self)@.last_attempt_at, ..old(self)@ }),
            final(self)@.last_attempt_at is Some,
    {
        self.mark_attempt_at(now_millis());
    }

    /// Sets the earliest retry time to `delay_ms` after `now`.
    pub fn set_retry_delay_at(&mut self, delay_ms: u64, now: u64)
        requires
            now + delay_ms <= u64::MAX,
        ensures
            final(self)@ == (TaskExecutionTimingView {
                retry_delay_until: Some((now + delay_ms) as u64),
                ..old(self)@
            }),
    {
        self.retry_delay_until = Some(now + delay_ms);
    }

    /// Sets the earliest retry time to `delay_ms` from now (clamped to the
    /// clock's range).
    pub fn set_retry_delay(&mut self, delay_ms: u64)
        ensures
            final(self)@ == (TaskExecutionTimingView {
                retry_delay_until: final(self)@.retry_delay_until,
                ..old(self)@
            }),
            final(self)@.retry_delay_until is Some,
    {
        let now = now_millis();
        let d = if delay_ms > u64::MAX - now { u64::MAX - now } else { delay_ms };
        self.set_retry_delay_at(d, now);
    }

    pub fn is_ready_for_retry_at(&self, now: u64) -> (r: bool)
        ensures
            r == timing_ready_for_retry(self@, now),
    {
        match self.retry_delay_until {
            Some(until) => now >= until,
            None => true,
        }
    }

    pub fn is_ready_for_retry(&self) -> (r: bool)
        ensures
            self@.retry_delay_until is None ==> r,
    {
        self.is_ready_for_retry_at(now_millis())
    }

    pub fn created_at(&self) -> (r: u64)
        ensures
            r == self@.created_at,
    {
        self.created_at
    }

    pub fn started_at(&self) -> (r: Option<u64>)
        ensures
            r == self@.started_at,
    {
        self.started_at
    }

    pub fn completed_at(&self) -> (r: Option<u64>)
        ensures
            r == self@.completed_at,
    {
        self.completed_at
    }

    pub fn last_attempt_at(&self) -> (r: Option<u64>)
        ensures
            r == self@.last_attempt_at,
    {
        self.last_attempt_at
    }

    pub fn retry_delay_until(&self) -> (r: Option<u64>)
        ensures
            r == self@.retry_delay_until,
    {
        self.retry_delay_until
    }

    /// Total duration in milliseconds.
    pub fn total_duration(&self) -> (r: u64)
        ensures
            r == self@.total_duration,
    {
        self.total_duration
    }
}

impl Default for TaskExecutionTiming {
    fn default() -> (r: Self)
        ensures
            r@ == fresh_timing(r@.created_at),
    {
        Self::new()
    }
}

/// The retry delay before attempt `attempt + 1`: the base delay multiplied
/// by the backoff factor once per earlier retry, at most the maximum.
pub open spec fn scaled_delay(base: nat, factor: nat, attempt: nat) -> nat
    decreases attempt,
{
    if attempt == 0 {
        base
    } else {
        scaled_delay(base, factor, (attempt - 1) as nat) * factor
    }
}

pub open spec fn backoff_delay(base: u64, factor: u64, max: u64, attempt: nat) -> u64 {
    let d = scaled_delay(base as nat, factor as nat, attempt);
    if d <= max { d as u64 } else { max }
}

proof fn lemma_scaled_grows(base: nat, factor: nat, a: nat, b: nat)
    requires
        factor >= 1,
        a <= b,
    ensures
        scaled_delay(base, factor, a) <= scaled_delay(base, factor, b),
    decreases b - a,
{
    if a < b {
        lemma_scaled_grows(base, factor, a, (b - 1) as nat);
        let x = scaled_delay(base, factor, (b - 1) as nat);
        assert(x <= x * factor) by (nonlinear_arith)
            requires factor >= 1;
    }
}

proof fn lemma_scaled_zero_factor(base: nat, attempt: nat)
    requires
        attempt >= 1,
    ensures
        scaled_delay(base, 0, attempt) == 0,
    decreases attempt,
{
    if attempt > 1 {
        lemma_scaled_zero_factor(base, (attempt - 1) as nat);
    }
}

/// Abstract content of a task configuration (and its builder).
pub struct TaskConfigView {
    pub default_priority: TaskPriority,
    pub max_retries: u64,
    pub retry_base_delay_ms: u64,
    pub retry_max_delay_ms: u64,
    pub retry_backoff_factor: u64,
    pub max_processing_time_secs: u64,
    pub max_content_length: u64,
    pub enable_depth_limiting: bool,
    pub max_depth: u64,
    pub accepted_languages: Seq<LangType>,
    pub preferred_region: Region,
    pub enable_auto_language_detection: bool,
    pub session_id: Seq<char>,
    pub track_execution_timing: bool,
}

/// The default settings, for a session id: normal priority, three
/// retries, a one-second base delay doubling up to thirty seconds, sixty
/// seconds of processing, 10 MiB of content, depth limited to five,
/// English accepted with automatic detection, global region, timing on.
pub open spec fn default_task_config(session_id: Seq<char>) -> TaskConfigView {
    TaskConfigView {
        default_priority: TaskPriority::Normal,
        max_retries: 3,
        retry_base_delay_ms: 1000,
        retry_max_delay_ms: 30000,
        retry_backoff_factor: 2,
        max_processing_time_secs: 60,
        max_content_length: 10485760,
        enable_depth_limiting: true,
        max_depth: 5,
        accepted_languages: seq![LangType::English],
        preferred_region: Region::Global,
        enable_auto_language_detection: true,
        session_id,
        track_execution_timing: true,
    }
}

/// How tasks are processed and retried.
#[derive(Debug)]
pub struct TaskConfig {
    default_priority: TaskPriority,
    max_retries: LimitValue,
    retry_base_delay_ms: LimitValue,
    retry_max_delay_ms: LimitValue,
    retry_backoff_factor: u64,
    max_processing_time_secs: LimitValue,
    max_content_length: LimitValue,
    enable_depth_limiting: BooleanFlag,
    max_depth: LimitValue,
    accepted_languages: Vec<LangType>,
    preferred_region: Region,
    enable_auto_language_detection: BooleanFlag,
    session_id: SessionId,
    track_execution_timing: BooleanFlag,
}

impl View for TaskConfig {
    type V = TaskConfigView;

    closed spec fn view(&self) -> TaskConfigView {
        TaskConfigView {
            default_priority: self.default_priority,
            max_retries: self.max_retries@,
            retry_base_delay_ms: self.retry_base_delay_ms@,
            retry_max_delay_ms: self.retry_max_delay_ms@,
            retry_backoff_factor: self.retry_backoff_factor,
            max_processing_time_secs: self.max_processing_time_secs@,
            max_content_length: self.max_content_length@,
            enable_depth_limiting: self.enable_depth_limiting@,
            max_depth: self.max_depth@,
            accepted_languages: self.accepted_languages@,
            preferred_region: self.preferred_region,
            enable_auto_language_detection: self.enable_auto_language_detection@,
            session_id: self.session_id@,
            track_execution_timing: self.track_execution_timing@,
        }
    }
}

impl Clone for TaskConfig {
    fn clone(&self) -> (r: Self)
        ensures
            r@ == self@,
    {
        TaskConfig {
            default_priority: self.default_priority,
            max_retries: self.max_retries,
            retry_base_delay_ms: self.retry_base_delay_ms,
            retry_max_delay_ms: self.retry_max_delay_ms,
            retry_backoff_factor: self.retry_backoff_factor,
            max_processing_time_secs: self.max_processing_time_secs,
            max_content_length: self.max_content_length,
            enable_depth_limiting: self.enable_depth_limiting,
            max_depth: self.max_depth,
            accepted_languages: self.accepted_languages.clone(),
            preferred_region: self.preferred_region,
            enable_auto_language_detection: self.enable_auto_language_detection,
            session_id: self.session_id.clone(),
            track_execution_timing: self.track_execution_timing,
        }
    }
}

impl Default for TaskConfig {
    /// The default settings (see `default_task_config`) for a fresh
    /// session id ("task_" and a random UUID).
    fn default() -> (r: Self)
        ensures
            r@ == default_task_config(r@.session_id),
    {
        let mut id = "task_".to_string();
        let u = new_uuid_v4();
        id.append(u.as_str());
        let langs = vec![LangType::English];
        assert(langs@ =~= seq![LangType::English]);
        TaskConfig {
            default_priority: TaskPriority::Normal,
            max_retries: LimitValue::new(3),
            retry_base_delay_ms: LimitValue::new(1000),
            retry_max_delay_ms: LimitValue::new(30000),
            retry_backoff_factor: 2,
            max_processing_time_secs: LimitValue::new(60),
            max_content_length: LimitValue::new(10 * 1024 * 1024),
            enable_depth_limiting: BooleanFlag::enabled(),
            max_depth: LimitValue::new(5),
            accepted_languages: langs,
            preferred_region: Region::Global,
            enable_auto_language_detection: BooleanFlag::enabled(),
            session_id: SessionId::from_string(id),
            track_execution_timing: BooleanFlag::enabled(),
        }
    }
}

impl TaskConfig {
    pub fn builder() -> (r: TaskConfigBuilder)
        ensures
            r@ == default_task_config(r@.session_id),
    {
        TaskConfigBuilder::new()
    }

    pub fn default_priority(&self) -> (r: TaskPriority)
        ensures
            r == self@.default_priority,
    {
        self.default_priority
    }

    pub fn max_retries(&self) -> (r: u64)
        ensures
            r == self@.max_retries,
    {
        self.max_retries.value()
    }

    pub fn retry_base_delay_ms(&self) -> (r: u64)
        ensures
            r == self@.retry_base_delay_ms,
    {
        self.retry_base_delay_ms.value()
    }

    pub fn retry_max_delay_ms(&self) -> (r: u64)
        ensures
            r == self@.retry_max_delay_ms,
    {
        self.retry_max_delay_ms.value()
    }

    /// The whole-number factor the retry delay grows by per retry.
    pub fn retry_backoff_multiplier(&self) -> (r: u64)
        ensures
            r == self@.retry_backoff_factor,
    {
        self.retry_backoff_factor
    }

    pub fn max_processing_time_secs(&self) -> (r: u64)
        ensures
            r == self@.max_processing_time_secs,
    {
        self.max_processing_time_secs.value()
    }

    pub fn max_content_length(&self) -> (r: u64)
        ensures
            r == self@.max_content_length,
    {
        self.max_content_length.value()
    }

    pub fn should_enable_depth_limiting(&self) -> (r: bool)
        ensures
            r == self@.enable_depth_limiting,
    {
        self.enable_depth_limiting.is_enabled()
    }

    pub fn max_depth(&self) -> (r: u64)
        ensures
            r == self@.max_depth,
    {
        self.max_depth.value()
    }

    pub fn accepted_languages(&self) -> (r: &[LangType])
        ensures
            r@ == self@.accepted_languages,
    {
        self.accepted_languages.as_slice()
    }

    pub fn preferred_region(&self) -> (r: Region)
        ensures
            r == self@.preferred_region,
    {
        self.preferred_region
    }

    pub fn should_enable_auto_language_detection(&self) -> (r: bool)
        ensures
            r == self@.enable_auto_language_detection,
    {
        self.enable_auto_language_detection.is_enabled()
    }

    pub fn session_id(&self) -> (r: &SessionId)
        ensures
            r@ == self@.session_id,
    {
        &self.session_id
    }

    pub fn should_track_execution_timing(&self) -> (r: bool)
        ensures
            r == self@.track_execution_timing,
    {
        self.track_execution_timing.is_enabled()
    }

    /// The delay in milliseconds before retry attempt `attempt + 1` (see
    /// `backoff_delay`).
    pub fn calculate_retry_delay(&self, attempt: u32) -> (r: u64)
        ensures
            r == backoff_delay(self@.retry_base_delay_ms, self@.retry_backoff_factor, self@.retry_max_delay_ms, attempt as nat),
    {
        let base = self.retry_base_delay_ms.value();
        let max = self.retry_max_delay_ms.value();
        let factor = self.retry_backoff_factor;
        if factor == 0 {
            if attempt == 0 {
                return if base <= max { base } else { max };
            }
            proof {
                lemma_scaled_zero_factor(base as nat, attempt as nat);
            }
            return 0;
        }
        let mut d: u128 = base as u128;
        let mut k: u32 = 0;
        while k < attempt && d <= max as u128
            invariant
                factor >= 1,
                k <= attempt,
                d == scaled_delay(base as nat, factor as nat, k as nat),
            decreases attempt - k,
        {
            proof {
                assert(d * factor <= u64::MAX * u64::MAX) by (nonlinear_arith)
                    requires d <= u64::MAX, factor <= u64::MAX;
            }
            d = d * (factor as u128);
            k = k + 1;
        }
        if d <= max as u128 {
            d as u64
        } else {
            proof {
                lemma_scaled_grows(base as nat, factor as nat, k as nat, attempt as nat);
            }
            max
        }
    }
}

/// Builds a task configuration from the defaults.
#[derive(Debug)]
pub struct TaskConfigBuilder {
    config: TaskConfig,
}

impl View for TaskConfigBuilder {
    type V = TaskConfigView;

    closed spec fn view(&self) -> TaskConfigView {
        self.config@
    }
}

impl TaskConfigBuilder {
    /// A builder holding the default settings.
    pub fn new() -> (r: Self)
        ensures
            r@ == default_task_config(r@.session_id),
    {
        TaskConfigBuilder { config: TaskConfig::default() }
    }

    pub fn with_priority_settings(self, default_priority: TaskPriority, max_retries: LimitValue) -> (r: Self)
        ensures
            r@ == (TaskConfigView { default_priority, max_retries: max_retries@, ..self@ }),
    {
        let mut c = self.config;
        c.default_priority = default_priority;
        c.max_retries = max_retries;
        TaskConfigBuilder { config: c }
    }

    /// Base and maximum retry delays and the whole-number backoff factor.
    pub fn with_retry_settings(self, base_delay: LimitValue, max_delay: LimitValue, backoff_multiplier: u64) -> (r: Self)
        ensures
            r@ == (TaskConfigView {
                retry_base_delay_ms: base_delay@,
                retry_max_delay_ms: max_delay@,
                retry_backoff_factor: backoff_multiplier,
                ..self@
            }),
    {
        let mut c = self.config;
        c.retry_base_delay_ms = base_delay;
        c.retry_max_delay_ms = max_delay;
        c.retry_backoff_factor = backoff_multiplier;
        TaskConfigBuilder { config: c }
    }

    pub fn with_processing_limits(self, max_time: LimitValue, max_content: LimitValue) -> (r: Self)
        ensures
            r@ == (TaskConfigView { max_processing_time_secs: max_time@, max_content_length: max_content@, ..self@ }),
    {
        let mut c = self.config;
        c.max_processing_time_secs = max_time;
        c.max_content_length = max_content;
        TaskConfigBuilder { config: c }
    }

    pub fn with_depth_limiting(self, enabled: BooleanFlag, max_depth: LimitValue) -> (r: Self)
        ensures
            r@ == (TaskConfigView { enable_depth_limiting: enabled@, max_depth: max_depth@, ..self@ }),
    {
        let mut c = self.config;
        c.enable_depth_limiting = enabled;
        c.max_depth = max_depth;
        TaskConfigBuilder { config: c }
    }

    pub fn with_language_settings(self, accepted_languages: Vec<LangType>, auto_detection: BooleanFlag) -> (r: Self)
        ensures
            r@ == (TaskConfigView {
                accepted_languages: accepted_languages@,
                enable_auto_language_detection: auto_detection@,
                ..self@
            }),
    {
        let mut c = self.config;
        c.accepted_languages = accepted_languages;
        c.enable_auto_language_detection = auto_detection;
        TaskConfigBuilder { config: c }
    }

    pub fn with_region(self, region: Region) -> (r: Self)
        ensures
            r@ == (TaskConfigView { preferred_region: region, ..self@ }),
    {
        let mut c = self.config;
        c.preferred_region = region;
        TaskConfigBuilder { config: c }
    }

    pub fn with_session_id(self, session_id: SessionId) -> (r: Self)
        ensures
            r@ == (TaskConfigView { session_id: session_id@, ..self@ }),
    {
        let mut c = self.config;
        c.session_id = session_id;
        TaskConfigBuilder { config: c }
    }

    pub fn with_timing_tracking(self, enabled: BooleanFlag) -> (r: Self)
        ensures
            r@ == (TaskConfigView { track_execution_timing: enabled@, ..self@ }),
    {
        let mut c = self.config;
        c.track_execution_timing = enabled;
        TaskConfigBuilder { config: c }
    }

    pub fn build(self) -> (r: TaskConfig)
        ensures
            r@ == self@,
    {
        self.config
    }
}

/// Abstract content of a task.
pub struct CrawlTaskView {
    pub task_id: Seq<char>,
    pub url: Seq<char>,
    pub priority: TaskPriority,
    pub status: TaskStatus,
    pub depth: u64,
    pub attempt_count: u64,
    pub retry_count: u64,
    pub timing: TaskExecutionTimingView,
    pub last_error: Option<Seq<char>>,
    pub error_history: Seq<Seq<char>>,
    pub config: TaskConfigView,
    pub user_agent: Seq<char>,
    pub session_id: Seq<char>,
    pub created_by: Seq<char>,
}

/// A unit of crawl work with its state and history.
#[derive(Debug)]
pub struct CrawlTask {
    task_id: TaskId,
    url: UrlString,
    priority: TaskPriority,
    status: TaskStatus,
    depth: u64,
    attempt_count: u64,
    retry_count: u64,
    execution_timing: TaskExecutionTiming,
    last_error: Option<String>,
    error_history: Vec<String>,
    config: TaskConfig,
    user_agent: String,
    session_id: SessionId,
    created_by: String,
}

impl View for CrawlTask {
    type V = CrawlTaskView;

    closed spec fn view(&self) -> CrawlTaskView {
        CrawlTaskView {
            task_id: self.task_id@,
            url: self.url@,
            priority: self.priority,
            status: self.status,
            depth: self.depth,
            attempt_count: self.attempt_count,
            retry_count: self.retry_count,
            timing: self.execution_timing@,
            last_error: match self.last_error {
                Some(e) => Some(e@),
                None => None,
            },
            error_history: self.error_history@.map_values(|e: String| e@),
            config: self.config@,
            user_agent: self.user_agent@,
            session_id: self.session_id@,
            created_by: self.created_by@,
        }
    }
}

impl Clone for CrawlTask {
    /// A copy with the same content.
    fn clone(&self) -> (r: Self)
        ensures
            r@ == self@,
    {
        let history = crate::text_util::clone_strings(&self.error_history);
        let r = CrawlTask {
            task_id: self.task_id.clone(),
            url: self.url.clone(),
            priority: self.priority,
            status: self.status,
            depth: self.depth,
            attempt_count: self.attempt_count,
            retry_count: self.retry_count,
            execution_timing: self.execution_timing,
            last_error: crate::text_util::clone_opt_string(&self.last_error),
            error_history: history,
            config: self.config.clone(),
            user_agent: self.user_agent.clone(),
            session_id: self.session_id.clone(),
            created_by: self.created_by.clone(),
        };
        proof {
            assert(r.error_history@.map_values(|e: String| e@) =~= self.error_history@.map_values(|e: String| e@)) by {
                assert(crate::text_util::strings_view(r.error_history@) == crate::text_util::strings_view(self.error_history@));
                assert forall|i: int| 0 <= i < r.error_history@.len() implies r.error_history@[i]@ == self.error_history@[i]@ by {
                    assert(crate::text_util::strings_view(r.error_history@)[i] == crate::text_util::strings_view(self.error_history@)[i]);
                }
            }
        }
        r
    }
}

/// The task after a failure at `now`: the error is recorded and the retry
/// count grows; it retries (after the configured backoff) while the count
/// stays below the maximum, else it is dead.
pub open spec fn failed_task_view(t: CrawlTaskView, error: Seq<char>, now: u64) -> CrawlTaskView {
    let retries = (t.retry_count + 1) as u64;
    let retry = retries < t.config.max_retries;
    CrawlTaskView {
        status: if retry { TaskStatus::Retrying } else { TaskStatus::Dead },
        retry_count: retries,
        last_error: Some(error),
        error_history: t.error_history.push(error),
        timing: TaskExecutionTimingView {
            last_attempt_at: Some(now),
            retry_delay_until: if retry {
                Some((now + backoff_delay(
                    t.config.retry_base_delay_ms,
                    t.config.retry_backoff_factor,
                    t.config.retry_max_delay_ms,
                    (retries as u32) as nat,
                )) as u64)
            } else {
                t.timing.retry_delay_until
            },
            ..t.timing
        },
        ..t
    }
}

/// The complaint `validate` has about a task, if any: an empty URL, a URL
/// that does not parse, or a depth past the limit.
pub open spec fn task_problem(t: CrawlTaskView) -> Option<Seq<char>> {
    if t.url.len() == 0 {
        Some("Empty URL"@)
    } else if url_parse_result(t.url) is Err {
        Some("Invalid URL format"@)
    } else if t.config.enable_depth_limiting && t.depth > t.config.max_depth {
        Some("Depth exceeds maximum limit"@)
    } else {
        None
    }
}

/// The one-line summary of a task.
pub open spec fn task_summary(t: CrawlTaskView) -> Seq<char> {
    "Task "@ + t.task_id + ": "@ + t.url + " ["@ + status_name(t.status) + "] depth="@
        + decimal(t.depth as nat) + " attempts="@ + decimal(t.attempt_count as nat) + " retries="@
        + decimal(t.retry_count as nat)
}

impl CrawlTask {
    /// A pending task for `url`, with a fresh id ("task_" and a random
    /// UUID), the configuration's default priority and session, depth 0,
    /// no attempts, the crawler's user agent and "system" as creator.
    pub fn new(url: UrlString, config: TaskConfig) -> (r: Self)
        ensures
            r@.url == url@,
            r@.priority == config@.default_priority,
            r@.status == TaskStatus::Pending,
            r@.depth == 0,
            r@.attempt_count == 0,
            r@.retry_count == 0,
            r@.timing == fresh_timing(r@.timing.created_at),
            r@.last_error is None,
            r@.error_history.len() == 0,
            r@.config == config@,
            r@.user_agent == "rust-web-crawler/2.0"@,
            r@.session_id == config@.session_id,
            r@.created_by == "system"@,
    {
        let mut id = "task_".to_string();
        let u = new_uuid_v4();
        id.append(u.as_str());
        let session_id = config.session_id().clone();
        let priority = config.default_priority();
        let t = CrawlTask {
            task_id: TaskId::from_string(id),
            url,
            priority,
            status: TaskStatus::Pending,
            depth: 0,
            attempt_count: 0,
            retry_count: 0,
            execution_timing: TaskExecutionTiming::new(),
            last_error: None,
            error_history: Vec::new(),
            config,
            user_agent: "rust-web-crawler/2.0".to_string(),
            session_id,
            created_by: "system".to_string(),
        };
        proof {
            assert(t@.error_history =~= Seq::<Seq<char>>::empty());
        }
        t
    }

    pub fn with_priority(self, priority: TaskPriority) -> (r: Self)
        ensures
            r@ == (CrawlTaskView { priority, ..self@ }),
    {
        CrawlTask { priority, ..self }
    }

    pub fn with_depth(self, depth: u64) -> (r: Self)
        ensures
            r@ == (CrawlTaskView { depth, ..self@ }),
    {
        CrawlTask { depth, ..self }
    }

    pub fn with_user_agent(self, user_agent: String) -> (r: Self)
        ensures
            r@ == (CrawlTaskView { user_agent: user_agent@, ..self@ }),
    {
        CrawlTask { user_agent, ..self }
    }

    pub fn with_created_by(self, created_by: String) -> (r: Self)
        ensures
            r@ == (CrawlTaskView { created_by: created_by@, ..self@ }),
    {
        CrawlTask { created_by, ..self }
    }

    /// Starts an attempt at `now`.
    pub fn mark_started_at(&mut self, now: u64)
        requires
            old(self)@.attempt_count < u64::MAX,
        ensures
            final(self)@ == (CrawlTaskView {
                status: TaskStatus::InProgress,
                attempt_count: (old(self)@.attempt_count + 1) as u64,
                timing: TaskExecutionTimingView {
                    started_at: Some(now),
                    last_attempt_at: Some(now),
                    ..old(self)@.timing
                },
                ..old(self)@
            }),
    {
        self.status = TaskStatus::InProgress;
        self.execution_timing.mark_started_at(now);
        self.attempt_count = self.attempt_count + 1;
    }

    /// Starts an attempt now.
    pub fn mark_started(&mut self)
        requires
            old(self)@.attempt_count < u64::MAX,
        ensures
            final(self)@.status == TaskStatus::InProgress,
            final(self)@.attempt_count == old(self)@.attempt_count + 1,
            final(self)@.retry_count == old(self)@.retry_count,
    {
        self.mark_started_at(now_millis());
    }

    /// Completes the task at `now`.
    pub fn mark_completed_at(&mut self, now: u64)
        ensures
            final(self)@.status == TaskStatus::Completed,
            final(self)@.timing.completed_at == Some(now),
            final(self)@.attempt_count == old(self)@.attempt_count,
            final(self)@.retry_count == old(self)@.retry_count,
    {
        self.status = TaskStatus::Completed;
        self.execution_timing.mark_completed_at(now);
    }

    /// Completes the task now.
    pub fn mark_completed(&mut self)
        ensures
            final(self)@.status == TaskStatus::Completed,
            final(self)@.attempt_count == old(self)@.attempt_count,
            final(self)@.retry_count == old(self)@.retry_count,
    {
        self.mark_completed_at(now_millis());
    }

    /// Records a failure at `now` (see `failed_task_view`).
    pub fn mark_failed_at(&mut self, error: String, now: u64)
        requires
            old(self)@.retry_count < u64::MAX,
            now + old(self)@.config.retry_max_delay_ms <= u64::MAX,
        ensures
            final(self)@ == failed_task_view(old(self)@, error@, now),
    {
        let ghost before = self@;
        self.execution_timing.mark_attempt_at(now);
        let e2 = error.clone();
        self.last_error = Some(error);
        self.error_history.push(e2);
        self.retry_count = self.retry_count + 1;
        if self.retry_count < self.config.max_retries() {
            self.status = TaskStatus::Retrying;
            #[verifier::truncate]
            let attempt = self.retry_count as u32;
            let delay = self.config.calculate_retry_delay(attempt);
            self.execution_timing.set_retry_delay_at(delay, now);
        } else {
            self.status = TaskStatus::Dead;
        }
        proof {
            assert(self@.error_history =~= before.error_history.push(error@));
        }
    }

    /// Records a failure now (see `mark_failed_at`); a clock reading too
    /// close to the end of its range for the longest delay is taken as
    /// the latest one that fits.
    pub fn mark_failed(&mut self, error: String)
        requires
            old(self)@.retry_count < u64::MAX,
        ensures
            exists|now: u64| final(self)@ == failed_task_view(old(self)@, error@, now),
    {
        let max = self.config.retry_max_delay_ms();
        let t = now_millis();
        let now = if t > u64::MAX - max { u64::MAX - max } else { t };
        self.mark_failed_at(error, now);
    }

    /// Retries are left and the task is not finished.
    pub fn can_retry(&self) -> (r: bool)
        ensures
            r == (self@.retry_count < self@.config.max_retries && !status_is_terminal(self@.status)),
    {
        self.retry_count < self.config.max_retries() && !self.status.is_terminal()
    }

    pub fn is_ready_for_retry_at(&self, now: u64) -> (r: bool)
        ensures
            r == timing_ready_for_retry(self@.timing, now),
    {
        self.execution_timing.is_ready_for_retry_at(now)
    }

    pub fn is_ready_for_retry(&self) -> (r: bool)
        ensures
            self@.timing.retry_delay_until is None ==> r,
    {
        self.execution_timing.is_ready_for_retry()
    }

    /// Checks the task (see `task_problem`); a problem is a content
    /// validation error with that message.
    pub fn validate(&self) -> (r: Result<(), TaskError>)
        ensures
            match task_problem(self@) {
                None => r is Ok,
                Some(m) => r matches Err(e) && e@.kind == TaskErrorKind::ContentValidation && e@.message == m,
            },
    {
        proof {
            reveal_strlit("Empty URL");
            reveal_strlit("Invalid URL format");
            reveal_strlit("Depth exceeds maximum limit");
        }
        let u = self.url.as_str();
        if u.unicode_len() == 0 {
            return Err(TaskError::content_validation("Empty URL"));
        }
        match parse_url(u) {
            Err(_) => {
                return Err(TaskError::content_validation("Invalid URL format"));
            },
            Ok(_) => {},
        }
        if self.config.should_enable_depth_limiting() && self.depth > self.config.max_depth() {
            return Err(TaskError::content_validation("Depth exceeds maximum limit"));
        }
        Ok(())
    }

    pub fn task_id(&self) -> (r: &TaskId)
        ensures
            r@ == self@.task_id,
    {
        &self.task_id
    }

    pub fn url(&self) -> (r: &UrlString)
        ensures
            r@ == self@.url,
    {
        &self.url
    }

    pub fn priority(&self) -> (r: TaskPriority)
        ensures
            r == self@.priority,
    {
        self.priority
    }

    pub fn status(&self) -> (r: TaskStatus)
        ensures
            r == self@.status,
    {
        self.status
    }

    pub fn depth(&self) -> (r: u64)
        ensures
            r == self@.depth,
    {
        self.depth
    }

    pub fn attempt_count(&self) -> (r: u64)
        ensures
            r == self@.attempt_count,
    {
        self.attempt_count
    }

    pub fn retry_count(&self) -> (r: u64)
        ensures
            r == self@.retry_count,
    {
        self.retry_count
    }

    pub fn execution_timing(&self) -> (r: &TaskExecutionTiming)
        ensures
            r@ == self@.timing,
    {
        &self.execution_timing
    }

    pub fn last_error(&self) -> (r: Option<&str>)
        ensures
            match r {
                Some(e) => self@.last_error == Some(e@),
                None => self@.last_error is None,
            },
    {
        match &self.last_error {
            Some(e) => Some(e.as_str()),
            None => None,
        }
    }

    pub fn error_history(&self) -> (r: &[String])
        ensures
            r@.map_values(|e: String| e@) == self@.error_history,
    {
        self.error_history.as_slice()
    }

    pub fn config(&self) -> (r: &TaskConfig)
        ensures
            r@ == self@.config,
    {
        &self.config
    }

    pub fn user_agent(&self) -> (r: &str)
        ensures
            r@ == self@.user_agent,
    {
        self.user_agent.as_str()
    }

    pub fn session_id(&self) -> (r: &SessionId)
        ensures
            r@ == self@.session_id,
    {
        &self.session_id
    }

    pub fn created_by(&self) -> (r: &str)
        ensures
            r@ == self@.created_by,
    {
        self.created_by.as_str()
    }

    /// See `task_summary`.
    pub fn summary(&self) -> (r: String)
        ensures
            r@ == task_summary(self@),
    {
        proof {
            reveal_strlit("Task ");
            reveal_strlit(": ");
            reveal_strlit(" [");
            reveal_strlit("] depth=");
            reveal_strlit(" attempts=");
            reveal_strlit(" retries=");
        }
        let mut s = "Task ".to_string();
        push_str(&mut s, self.task_id.as_str());
        push_str(&mut s, ": ");
        push_str(&mut s, self.url.as_str());
        push_str(&mut s, " [");
        push_str(&mut s, self.status.as_str());
        push_str(&mut s, "] depth=");
        let d = u64_to_string(self.depth);
        push_str(&mut s, d.as_str());
        push_str(&mut s, " attempts=");
        let a = u64_to_string(self.attempt_count);
        push_str(&mut s, a.as_str());
        push_str(&mut s, " retries=");
        let rc = u64_to_string(self.retry_count);
        push_str(&mut s, rc.as_str());
        proof {
            assert(s@ =~= task_summary(self@));
        }
        s
    }
}

/// Abstract content of a task result.
pub struct TaskResultView<T> {
    pub task_id: Seq<char>,
    pub url: Seq<char>,
    pub success: bool,
    pub content: Option<T>,
    pub error: Option<TaskErrorView>,
    pub timing: TaskExecutionTimingView,
    pub session_id: Seq<char>,
    pub timestamp: u64,
}

/// The outcome of one task. The time is milliseconds since the Unix epoch.
#[derive(Debug)]
pub struct TaskResult<T> {
    task_id: TaskId,
    url: UrlString,
    success: bool,
    content: Option<T>,
    error: Option<TaskError>,
    execution_timing: TaskExecutionTiming,
    session_id: SessionId,
    timestamp: u64,
}

impl<T> View for TaskResult<T> {
    type V = TaskResultView<T>;

    closed spec fn view(&self) -> TaskResultView<T> {
        TaskResultView {
            task_id: self.task_id@,
            url: self.url@,
            success: self.success,
            content: self.content,
            error: match self.error {
                Some(e) => Some(e@),
                None => None,
            },
            timing: self.execution_timing@,
            session_id: self.session_id@,
            timestamp: self.timestamp,
        }
    }
}

impl<T> TaskResult<T> {
    /// A successful result with its content, made now.
    pub fn success(task_id: TaskId, url: UrlString, content: T, execution_timing: TaskExecutionTiming, session_id: SessionId) -> (r: Self)
        ensures
            r@.task_id == task_id@,
            r@.url == url@,
            r@.success,
            r@.content == Some(content),
            r@.error is None,
            r@.timing == execution_timing@,
            r@.session_id == session_id@,
    {
        TaskResult {
            task_id,
            url,
            success: true,
            content: Some(content),
            error: None,
            execution_timing,
            session_id,
            timestamp: now_millis(),
        }
    }

    /// A failed result with its error, made now.
    pub fn failure(task_id: TaskId, url: UrlString, error: TaskError, execution_timing: TaskExecutionTiming, session_id: SessionId) -> (r: Self)
        ensures
            r@.task_id == task_id@,
            r@.url == url@,
            !r@.success,
            r@.content is None,
            r@.error == Some(error@),
            r@.timing == execution_timing@,
            r@.session_id == session_id@,
    {
        TaskResult {
            task_id,
            url,
            success: false,
            content: None,
            error: Some(error),
            execution_timing,
            session_id,
            timestamp: now_millis(),
        }
    }

    pub fn task_id(&self) -> (r: &TaskId)
        ensures
            r@ == self@.task_id,
    {
        &self.task_id
    }

    pub fn url(&self) -> (r: &UrlString)
        ensures
            r@ == self@.url,
    {
        &self.url
    }

    pub fn is_success(&self) -> (r: bool)
        ensures
            r == self@.success,
    {
        self.success
    }

    pub fn content(&self) -> (r: Option<&T>)
        ensures
            match r {
                Some(c) => self@.content == Some(*c),
                None => self@.content is None,
            },
    {
        match &self.content {
            Some(c) => Some(c),
            None => None,
        }
    }

    pub fn error(&self) -> (r: Option<&TaskError>)
        ensures
            match r {
                Some(e) => self@.error == Some(e@),
                None => self@.error is None,
            },
    {
        match &self.error {
            Some(e) => Some(e),
            None => None,
        }
    }

    pub fn execution_timing(&self) -> (r: &TaskExecutionTiming)
        ensures
            r@ == self@.timing,
    {
        &self.execution_timing
    }

    pub fn session_id(&self) -> (r: &SessionId)
        ensures
            r@ == self@.session_id,
    {
        &self.session_id
    }

    /// When the result was made.
    pub fn timestamp(&self) -> (r: u64)
        ensures
            r == self@.timestamp,
    {
        self.timestamp
    }
}

/// Abstract content of queue statistics. Times are milliseconds.
pub struct QueueStatisticsView {
    pub total_tasks: u64,
    pub pending_tasks: u64,
    pub in_progress_tasks: u64,
    pub completed_tasks: u64,
    pub failed_tasks: u64,
    pub retrying_tasks: u64,
    pub dead_tasks: u64,
    pub average_processing_time_ms: u64,
    pub session_id: Seq<char>,
    pub last_updated: u64,
}

/// Task counts of a queue by state, with their total. The completion rate
/// (completed over total, in percent) is a floating-point figure and is
/// computed by the caller from these counts; timing figures are not held.
#[derive(Debug)]
pub struct QueueStatistics {
    total_tasks: u64,
    pending_tasks: u64,
    in_progress_tasks: u64,
    completed_tasks: u64,
    failed_tasks: u64,
    retrying_tasks: u64,
    dead_tasks: u64,
    average_processing_time_ms: u64,
    session_id: SessionId,
    last_updated: u64,
}

impl View for QueueStatistics {
    type V = QueueStatisticsView;

    closed spec fn view(&self) -> QueueStatisticsView {
        QueueStatisticsView {
            total_tasks: self.total_tasks,
            pending_tasks: self.pending_tasks,
            in_progress_tasks: self.in_progress_tasks,
            completed_tasks: self.completed_tasks,
            failed_tasks: self.failed_tasks,
            retrying_tasks: self.retrying_tasks,
            dead_tasks: self.dead_tasks,
            average_processing_time_ms: self.average_processing_time_ms,
            session_id: self.session_id@,
            last_updated: self.last_updated,
        }
    }
}

impl QueueStatistics {
    /// Empty statistics of a session, updated now.
    pub fn new(session_id: SessionId) -> (r: Self)
        ensures
            r@.session_id == session_id@,
            r@.total_tasks == 0 && r@.pending_tasks == 0 && r@.in_progress_tasks == 0,
            r@.completed_tasks == 0 && r@.failed_tasks == 0 && r@.retrying_tasks == 0,
            r@.dead_tasks == 0 && r@.average_processing_time_ms == 0,
    {
        Self::new_at(session_id, now_millis())
    }

    /// Empty statistics of a session, updated at `now`.
    pub fn new_at(session_id: SessionId, now: u64) -> (r: Self)
        ensures
            r@ == (QueueStatisticsView {
                total_tasks: 0,
                pending_tasks: 0,
                in_progress_tasks: 0,
                completed_tasks: 0,
                failed_tasks: 0,
                retrying_tasks: 0,
                dead_tasks: 0,
                average_processing_time_ms: 0,
                session_id: session_id@,
                last_updated: now,
            }),
    {
        QueueStatistics {
            total_tasks: 0,
            pending_tasks: 0,
            in_progress_tasks: 0,
            completed_tasks: 0,
            failed_tasks: 0,
            retrying_tasks: 0,
            dead_tasks: 0,
            average_processing_time_ms: 0,
            session_id,
            last_updated: now,
        }
    }

    /// Sets the counts; the total is their sum. Updated now.
    pub fn update_counts(&mut self, pending: u64, in_progress: u64, completed: u64, failed: u64, retrying: u64, dead: u64)
        requires
            pending + in_progress + completed + failed + retrying + dead <= u64::MAX,
        ensures
            final(self)@ == (QueueStatisticsView {
                total_tasks: (pending + in_progress + completed + failed + retrying + dead) as u64,
                pending_tasks: pending,
                in_progress_tasks: in_progress,
                completed_tasks: completed,
                failed_tasks: failed,
                retrying_tasks: retrying,
                dead_tasks: dead,
                last_updated: final(self)@.last_updated,
                ..old(self)@
            }),
    {
        self.update_counts_at(pending, in_progress, completed, failed, retrying, dead, now_millis());
    }

    /// `update_counts` as of `now`.
    pub fn update_counts_at(
        &mut self,
        pending: u64,
        in_progress: u64,
        completed: u64,
        failed: u64,
        retrying: u64,
        dead: u64,
        now: u64,
    )
        requires
            pending + in_progress + completed + failed + retrying + dead <= u64::MAX,
        ensures
            final(self)@ == (QueueStatisticsView {
                total_tasks: (pending + in_progress + completed + failed + retrying + dead) as u64,
                pending_tasks: pending,
                in_progress_tasks: in_progress,
                completed_tasks: completed,
                failed_tasks: failed,
                retrying_tasks: retrying,
                dead_tasks: dead,
                last_updated: now,
                ..old(self)@
            }),
    {
        self.pending_tasks = pending;
        self.in_progress_tasks = in_progress;
        self.completed_tasks = completed;
        self.failed_tasks = failed;
        self.retrying_tasks = retrying;
        self.dead_tasks = dead;
        self.total_tasks = pending + in_progress + completed + failed + retrying + dead;
        self.last_updated = now;
    }

    pub fn total_tasks(&self) -> (r: u64)
        ensures
            r == self@.total_tasks,
    {
        self.total_tasks
    }

    pub fn pending_tasks(&self) -> (r: u64)
        ensures
            r == self@.pending_tasks,
    {
        self.pending_tasks
    }

    pub fn in_progress_tasks(&self) -> (r: u64)
        ensures
            r == self@.in_progress_tasks,
    {
        self.in_progress_tasks
    }

    pub fn completed_tasks(&self) -> (r: u64)
        ensures
            r == self@.completed_tasks,
    {
        self.completed_tasks
    }

    pub fn failed_tasks(&self) -> (r: u64)
        ensures
            r == self@.failed_tasks,
    {
        self.failed_tasks
    }

    pub fn retrying_tasks(&self) -> (r: u64)
        ensures
            r == self@.retrying_tasks,
    {
        self.retrying_tasks
    }

    pub fn dead_tasks(&self) -> (r: u64)
        ensures
            r == self@.dead_tasks,
    {
        self.dead_tasks
    }

    pub fn average_processing_time_ms(&self) -> (r: u64)
        ensures
            r == self@.average_processing_time_ms,
    {
        self.average_processing_time_ms
    }

    pub fn session_id(&self) -> (r: &SessionId)
        ensures
            r@ == self@.session_id,
    {
        &self.session_id
    }

    pub fn last_updated(&self) -> (r: u64)
        ensures
            r == self@.last_updated,
    {
        self.last_updated
    }
}

} // verus!