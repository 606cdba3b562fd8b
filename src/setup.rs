//! The choices of the interactive setup: answers typed at a menu prompt and
//! what each selects. Reading the prompt is left to the caller, who hands in
//! the answer with surrounding whitespace trimmed.
use vstd::prelude::*;
use vstd::string::StrSliceExecFns;
use crate::config::DetailLevel;

verus! {

pub open spec fn is_digit(c: char) -> bool {
    '0' <= c && c <= '9'
}

/// The value of a sequence of decimal digits.
pub open spec fn digits_value(d: Seq<char>) -> int
    decreases d.len(),
{
    if d.len() == 0 {
        0
    } else {
        digits_value(d.drop_last()) * 10 + ((d.last() as u32) as int - ('0' as u32) as int)
    }
}

/// The text after an optional leading `+`.
pub open spec fn unsigned_digits(s: Seq<char>) -> Seq<char> {
    if s.len() > 0 && s[0] == '+' {
        s.drop_first()
    } else {
        s
    }
}

/// The index that a text denotes: an optional `+` and then one or more decimal
/// digits, whose value fits in `usize`.
pub open spec fn parsed_index(s: Seq<char>) -> Option<usize> {
    let d = unsigned_digits(s);
    if d.len() > 0 && (forall|i: int| 0 <= i < d.len() ==> is_digit(#[trigger] d[i]))
        && digits_value(d) <= usize::MAX {
        Some(digits_value(d) as usize)
    } else {
        None
    }
}

/// Whether `pat` occurs in `s` as a contiguous run.
pub open spec fn has_substring(s: Seq<char>, pat: Seq<char>) -> bool {
    exists|i: int| 0 <= i && i + pat.len() <= s.len() && #[trigger] s.subrange(i, i + pat.len()) == pat
}

/// What `str::to_lowercase` makes of a text.
pub uninterp spec fn lowercase_of(s: Seq<char>) -> Seq<char>;

/// Relies on `str::parse::<usize>`: an optional `+` followed by decimal digits
/// only, whose value fits, is accepted; anything else is an error.
#[verifier::external_body]
fn parse_index(s: &str) -> (r: Option<usize>)
    ensures
        r == parsed_index(s@),
{
    s.parse::<usize>().ok()
}

/// Relies on `str::to_lowercase`: the result depends on the text alone.
#[verifier::external_body]
fn lowercase(s: &str) -> (r: String)
    ensures
        r@ == lowercase_of(s@),
{
    s.to_lowercase()
}

/// Relies on `str::contains` with a `&str` pattern: true iff the pattern occurs
/// in the text.
#[verifier::external_body]
fn contains_text(s: &str, pat: &str) -> (r: bool)
    ensures
        r == has_substring(s@, pat@),
{
    s.contains(pat)
}

/// Whether two texts hold the same characters.
fn same_text(a: &str, b: &str) -> (r: bool)
    ensures
        r == (a@ == b@),
{
    let n = a.unicode_len();
    if n != b.unicode_len() {
        return false;
    }
    let mut i: usize = 0;
    while i < n
        invariant
            n == a@.len(),
            n == b@.len(),
            i <= n,
            forall|j: int| 0 <= j < i ==> a@[j] == b@[j],
        decreases n - i,
    {
        if a.get_char(i) != b.get_char(i) {
            return false;
        }
        i = i + 1;
    }
    assert(a@ == b@);
    true
}

/// An answer at a menu prompt.
#[derive(Debug, Clone, Copy, PartialEq, Eq, Structural)]
pub enum MenuAnswer {
    /// Nothing was typed: take the default.
    Blank,
    /// A number was typed.
    Choice(usize),
    /// Something else was typed.
    Invalid,
}

pub open spec fn answer_of(s: Seq<char>) -> MenuAnswer {
    if s.len() == 0 {
        MenuAnswer::Blank
    } else {
        match parsed_index(s) {
            Some(n) => MenuAnswer::Choice(n),
            None => MenuAnswer::Invalid,
        }
    }
}

/// Classifies a trimmed answer.
pub fn read_answer(trimmed: &str) -> (r: MenuAnswer)
    ensures
        r == answer_of(trimmed@),
{
    if trimmed.is_empty() {
        MenuAnswer::Blank
    } else {
        match parse_index(trimmed) {
            Some(n) => MenuAnswer::Choice(n),
            None => MenuAnswer::Invalid,
        }
    }
}

pub open spec fn spec_detail_level_choice(answer: MenuAnswer) -> DetailLevel {
    match answer {
        MenuAnswer::Choice(0) => DetailLevel::Basic,
        MenuAnswer::Choice(2) => DetailLevel::Full,
        _ => DetailLevel::Standard,
    }
}

/// The detail level menu: 0 Basic, 1 Standard, 2 Full; Standard otherwise.
pub fn detail_level_choice(answer: MenuAnswer) -> (r: DetailLevel)
    ensures
        r == spec_detail_level_choice(answer),
{
    match answer {
        MenuAnswer::Choice(0) => DetailLevel::Basic,
        MenuAnswer::Choice(2) => DetailLevel::Full,
        _ => DetailLevel::Standard,
    }
}

/// The update period of the default rate, 100 Hz.
pub const DEFAULT_UPDATE_PERIOD_US: u64 = 10_000;

pub open spec fn spec_update_period_choice(answer: MenuAnswer) -> u64 {
    match answer {
        MenuAnswer::Choice(0) => 16_666,
        MenuAnswer::Choice(1) => 33_333,
        MenuAnswer::Choice(2) => 50_000,
        MenuAnswer::Choice(3) => 100_000,
        MenuAnswer::Choice(5) => 8_333,
        MenuAnswer::Choice(6) => 0,
        _ => DEFAULT_UPDATE_PERIOD_US,
    }
}

/// The update rate menu, as a period in whole microseconds: 0 is 60 Hz, 1 is
/// 30 Hz, 2 is 20 Hz, 3 is 10 Hz, 4 is 100 Hz, 5 is 120 Hz, and 6 is
/// unthrottled (period zero); 100 Hz otherwise.
pub fn update_period_choice(answer: MenuAnswer) -> (r: u64)
    ensures
        r == spec_update_period_choice(answer),
{
    match answer {
        MenuAnswer::Choice(0) => 16_666,
        MenuAnswer::Choice(1) => 33_333,
        MenuAnswer::Choice(2) => 50_000,
        MenuAnswer::Choice(3) => 100_000,
        MenuAnswer::Choice(5) => 8_333,
        MenuAnswer::Choice(6) => 0,
        _ => DEFAULT_UPDATE_PERIOD_US,
    }
}

/// The display mode menu: whether to run the terminal dashboard. 1 selects
/// headless mode; anything else the dashboard.
pub fn display_mode_choice(answer: MenuAnswer) -> (r: bool)
    ensures
        r == (answer != MenuAnswer::Choice(1)),
{
    match answer {
        MenuAnswer::Choice(1) => false,
        _ => true,
    }
}

/// Which input device an answer selects.
#[derive(Debug, Clone, Copy, PartialEq, Eq, Structural)]
pub enum DeviceChoice {
    /// The default device: the loopback device if there is one, else the first.
    Fallback,
    /// The device at this position in the list.
    Index(usize),
}

/// The device menu: a number below the number of devices selects that device;
/// anything else falls back to the default.
pub fn input_device_choice(answer: MenuAnswer, device_count: usize) -> (r: DeviceChoice)
    ensures
        r == (match answer {
            MenuAnswer::Choice(i) => if i < device_count {
                DeviceChoice::Index(i)
            } else {
                DeviceChoice::Fallback
            },
            _ => DeviceChoice::Fallback,
        }),
{
    match answer {
        MenuAnswer::Choice(i) => if i < device_count {
            DeviceChoice::Index(i)
        } else {
            DeviceChoice::Fallback
        },
        _ => DeviceChoice::Fallback,
    }
}

pub open spec fn is_affirmative(lowered: Seq<char>) -> bool {
    lowered.len() == 0 || lowered == "y"@ || lowered == "yes"@
}

/// Whether a lowercased answer accepts the quick setup: blank, `y` or `yes`.
pub fn is_affirmative_answer(lowered: &str) -> (r: bool)
    ensures
        r == is_affirmative(lowered@),
{
    lowered.is_empty() || same_text(lowered, "y") || same_text(lowered, "yes")
}

/// Whether a trimmed answer accepts the quick setup, in any letter case.
pub fn accepts_quick_setup(trimmed: &str) -> (r: bool)
    ensures
        r == is_affirmative(lowercase_of(trimmed@)),
{
    let lowered = lowercase(trimmed);
    is_affirmative_answer(lowered.as_str())
}

pub open spec fn names_loopback(lowered: Seq<char>) -> bool {
    has_substring(lowered, "loopback"@) || has_substring(lowered, "loop back"@)
}

/// Whether a lowercased device name marks a loopback device.
pub fn mentions_loopback(lowered: &str) -> (r: bool)
    ensures
        r == names_loopback(lowered@),
{
    contains_text(lowered, "loopback") || contains_text(lowered, "loop back")
}

/// Whether a device name marks a loopback device, in any letter case.
pub fn is_loopback_name(name: &str) -> (r: bool)
    ensures
        r == names_loopback(lowercase_of(name@)),
{
    let lowered = lowercase(name);
    mentions_loopback(lowered.as_str())
}

/// The position of the first device whose name marks it as a loopback device.
pub fn first_loopback(names: &Vec<String>) -> (r: Option<usize>)
    ensures
        match r {
            Some(i) => {
                &&& i < names@.len()
                &&& names_loopback(lowercase_of(names@[i as int]@))
                &&& forall|j: int| 0 <= j < i ==> !names_loopback(lowercase_of(#[trigger] names@[j]@))
            },
            None => forall|j: int|
                0 <= j < names@.len() ==> !names_loopback(lowercase_of(#[trigger] names@[j]@)),
        },
{
    let mut i: usize = 0;
    while i < names.len()
        invariant
            i <= names@.len(),
            forall|j: int| 0 <= j < i ==> !names_loopback(lowercase_of(#[trigger] names@[j]@)),
        decreases names@.len() - i,
    {
        if is_loopback_name(names[i].as_str()) {
            return Some(i);
        }
        i = i + 1;
    }
    None
}

/// What a setup settles besides the input device.
#[derive(Debug, Clone, Copy, PartialEq, Eq, Structural)]
pub struct SetupChoices {
    pub detail_level: DetailLevel,
    pub update_period_us: u64,
    pub show_tui: bool,
}

/// The quick setup: Standard detail, 100 Hz updates, and the dashboard.
pub fn quick_setup_choices() -> (r: SetupChoices)
    ensures
        r.detail_level == DetailLevel::Standard,
        r.update_period_us == DEFAULT_UPDATE_PERIOD_US,
        r.show_tui,
{
    SetupChoices {
        detail_level: DetailLevel::Standard,
        update_period_us: DEFAULT_UPDATE_PERIOD_US,
        show_tui: true,
    }
}

/// The custom setup, from the answers at the three menus.
pub fn custom_setup_choices(detail: MenuAnswer, rate: MenuAnswer, display: MenuAnswer) -> (r:
    SetupChoices)
    ensures
        r.detail_level == spec_detail_level_choice(detail),
        r.update_period_us == spec_update_period_choice(rate),
        r.show_tui == (display != MenuAnswer::Choice(1)),
{
    SetupChoices {
        detail_level: detail_level_choice(detail),
        update_period_us: update_period_choice(rate),
        show_tui: display_mode_choice(display),
    }
}

} // verus!
