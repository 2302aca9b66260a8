//! The rules behind the translation command: which service to ask, what to
//! say when it refuses, and how numbers and languages are shown.

use crate::text::{
    decimal, decimal_text, digit_char, digit_str, ends_in, ends_with, same_text, trim, trimmed,
};
use vstd::prelude::*;
use vstd::string::*;

verus! {

/// Digits with a comma before every group of three, counted from the right.
pub open spec fn grouped(digits: Seq<char>) -> Seq<char>
    decreases digits.len(),
{
    if digits.len() <= 3 {
        digits
    } else {
        grouped(digits.take(digits.len() - 3)) + seq![','] + digits.skip(digits.len() - 3)
    }
}

/// `num` as it is shown: in decimal, with commas between thousands.
pub open spec fn prettified(num: nat) -> Seq<char> {
    grouped(decimal_text(num))
}

/// The last three digits of a number of four digits or more.
pub open spec fn last_three(num: nat) -> Seq<char> {
    seq![digit_char(num / 100 % 10), digit_char(num / 10 % 10), digit_char(num % 10)]
}

/// A number of four digits or more is written as its thousands followed by
/// its last three digits.
proof fn lemma_decimal_thousands(num: nat)
    requires
        num >= 1000,
    ensures
        decimal_text(num) == decimal_text(num / 1000) + last_three(num),
        decimal_text(num).len() > 3,
{
    let tens = num / 10;
    let hundreds = num / 100;
    assert(tens / 10 == hundreds);
    assert(hundreds / 10 == num / 1000);
    assert(tens % 10 == num / 10 % 10);
    assert(hundreds % 10 == num / 100 % 10);
    assert(decimal_text(num) == decimal_text(tens).push(digit_char(num % 10)));
    assert(decimal_text(tens) == decimal_text(hundreds).push(digit_char(tens % 10)));
    assert(decimal_text(hundreds) == decimal_text(num / 1000).push(digit_char(hundreds % 10)));
    assert(decimal_text(num) =~= decimal_text(num / 1000) + last_three(num));
}

/// Grouping by thousands follows the number: below a thousand there is
/// nothing to group, above it the thousands are grouped and the last three
/// digits follow a comma.
pub proof fn lemma_prettified_unfolds(num: nat)
    ensures
        num < 1000 ==> prettified(num) == decimal_text(num),
        num >= 1000 ==> prettified(num) == prettified(num / 1000) + seq![','] + last_three(num),
{
    if num < 1000 {
        assert(decimal_text(num).len() <= 3) by {
            if num >= 10 {
                if num >= 100 {
                    assert(decimal_text(num / 100).len() == 1);
                }
                assert(decimal_text(num / 10).len() <= 2);
            }
        }
    } else {
        lemma_decimal_thousands(num);
        let digits = decimal_text(num);
        assert(digits.take(digits.len() - 3) =~= decimal_text(num / 1000));
        assert(digits.skip(digits.len() - 3) =~= last_three(num));
    }
}

/// Writes `num` in decimal with commas between thousands.
pub fn prettify_nums(num: u64) -> (text: String)
    ensures
        text@ == prettified(num as nat),
    decreases num,
{
    proof {
        lemma_prettified_unfolds(num as nat);
    }
    if num < 1000 {
        decimal(num)
    } else {
        let mut text = prettify_nums(num / 1000);
        text.append(",");
        text.append(digit_str(num / 100 % 10));
        text.append(digit_str(num / 10 % 10));
        text.append(digit_str(num % 10));
        proof {
            reveal_strlit(",");
            assert(text@ =~= prettified((num / 1000) as nat) + seq![','] + last_three(num as nat));
        }
        text
    }
}

/// The English name of a language that the service translates into, by its
/// code.
pub open spec fn known_language(code: Seq<char>) -> Option<Seq<char>> {
    if code == "AR"@ {
        Some("Arabic"@)
    } else if code == "BG"@ {
        Some("Bulgarian"@)
    } else if code == "CS"@ {
        Some("Czech"@)
    } else if code == "DA"@ {
        Some("Danish"@)
    } else if code == "DE"@ {
        Some("German"@)
    } else if code == "EL"@ {
        Some("Greek"@)
    } else if code == "EN"@ {
        Some("English"@)
    } else if code == "ES"@ {
        Some("Spanish"@)
    } else if code == "ET"@ {
        Some("Estonian"@)
    } else if code == "FI"@ {
        Some("Finnish"@)
    } else if code == "FR"@ {
        Some("French"@)
    } else if code == "HU"@ {
        Some("Hungarian"@)
    } else if code == "ID"@ {
        Some("Indonesian"@)
    } else if code == "IT"@ {
        Some("Italian"@)
    } else if code == "JA"@ {
        Some("Japanese"@)
    } else if code == "KO"@ {
        Some("Korean"@)
    } else if code == "LT"@ {
        Some("Lithuanian"@)
    } else if code == "LV"@ {
        Some("Latvian"@)
    } else if code == "NB"@ {
        Some("Norwegian Bokm\u{e5}l"@)
    } else if code == "NL"@ {
        Some("Dutch"@)
    } else if code == "PL"@ {
        Some("Polish"@)
    } else if code == "PT"@ {
        Some("Portuguese"@)
    } else if code == "RO"@ {
        Some("Romanian"@)
    } else if code == "RU"@ {
        Some("Russian"@)
    } else if code == "SK"@ {
        Some("Slovak"@)
    } else if code == "SL"@ {
        Some("Slovenian"@)
    } else if code == "SV"@ {
        Some("Swedish"@)
    } else if code == "TR"@ {
        Some("Turkish"@)
    } else if code == "UK"@ {
        Some("Ukrainian"@)
    } else if code == "ZH"@ {
        Some("Chinese"@)
    } else {
        None
    }
}

/// Looks a language up by its code among those known from the start.
pub fn lookup_language(code: &str) -> (name: Option<&'static str>)
    ensures
        match name {
            Some(name) => known_language(code@) == Some(name@),
            None => known_language(code@) is None,
        },
{
    if same_text(code, "AR") {
        Some("Arabic")
    } else if same_text(code, "BG") {
        Some("Bulgarian")
    } else if same_text(code, "CS") {
        Some("Czech")
    } else if same_text(code, "DA") {
        Some("Danish")
    } else if same_text(code, "DE") {
        Some("German")
    } else if same_text(code, "EL") {
        Some("Greek")
    } else if same_text(code, "EN") {
        Some("English")
    } else if same_text(code, "ES") {
        Some("Spanish")
    } else if same_text(code, "ET") {
        Some("Estonian")
    } else if same_text(code, "FI") {
        Some("Finnish")
    } else if same_text(code, "FR") {
        Some("French")
    } else if same_text(code, "HU") {
        Some("Hungarian")
    } else if same_text(code, "ID") {
        Some("Indonesian")
    } else if same_text(code, "IT") {
        Some("Italian")
    } else if same_text(code, "JA") {
        Some("Japanese")
    } else if same_text(code, "KO") {
        Some("Korean")
    } else if same_text(code, "LT") {
        Some("Lithuanian")
    } else if same_text(code, "LV") {
        Some("Latvian")
    } else if same_text(code, "NB") {
        Some("Norwegian Bokm\u{e5}l")
    } else if same_text(code, "NL") {
        Some("Dutch")
    } else if same_text(code, "PL") {
        Some("Polish")
    } else if same_text(code, "PT") {
        Some("Portuguese")
    } else if same_text(code, "RO") {
        Some("Romanian")
    } else if same_text(code, "RU") {
        Some("Russian")
    } else if same_text(code, "SK") {
        Some("Slovak")
    } else if same_text(code, "SL") {
        Some("Slovenian")
    } else if same_text(code, "SV") {
        Some("Swedish")
    } else if same_text(code, "TR") {
        Some("Turkish")
    } else if same_text(code, "UK") {
        Some("Ukrainian")
    } else if same_text(code, "ZH") {
        Some("Chinese")
    } else {
        None
    }
}

/// A language as the service lists it: its code and its name.
#[derive(Debug)]
pub struct Language {
    pub language: String,
    pub name: String,
}

/// The name that a list of languages gives for `code`. Where the list
/// names a code more than once, the last entry counts.
pub open spec fn listed_language(cache: Seq<Language>, code: Seq<char>) -> Option<Seq<char>>
    decreases cache.len(),
{
    if cache.len() == 0 {
        None
    } else if cache.last().language@ == code {
        Some(cache.last().name@)
    } else {
        listed_language(cache.drop_last(), code)
    }
}

/// How the language with the given code is shown: by the name that the
/// service's own list gives it; failing that, by the name known from the
/// start; failing that, by the code itself.
pub open spec fn language_shown(cache: Seq<Language>, code: Seq<char>) -> Seq<char> {
    match listed_language(cache, code) {
        Some(name) => name,
        None => match known_language(code) {
            Some(name) => name,
            None => code,
        },
    }
}

/// The name to show for the language with the given code, `cache` being
/// the languages that the service has listed so far.
pub fn prettify_lang(cache: &Vec<Language>, code: &str) -> (name: String)
    ensures
        name@ == language_shown(cache@, code@),
{
    let mut i: usize = cache.len();
    proof {
        assert(cache@.take(i as int) =~= cache@);
    }
    while i > 0
        invariant
            i <= cache.len(),
            listed_language(cache@.take(i as int), code@) == listed_language(cache@, code@),
        decreases i,
    {
        proof {
            assert(cache@.take(i as int).drop_last() =~= cache@.take(i - 1));
        }
        if same_text(cache[i - 1].language.as_str(), code) {
            return cache[i - 1].name.clone();
        }
        i -= 1;
    }
    match lookup_language(code) {
        Some(name) => String::from_str(name),
        None => String::from_str(code),
    }
}

/// The host that serves the holder of `key`: keys of the free plan end in
/// `:fx` and have a host of their own.
pub open spec fn api_host(key: Seq<char>) -> Seq<char> {
    if ends_in(key, ":fx"@) {
        "https://api-free.deepl.com"@
    } else {
        "https://api.deepl.com"@
    }
}

/// The host to send the requests of the holder of `key` to.
pub fn api_url(key: &str) -> (host: &'static str)
    ensures
        host@ == api_host(key@),
{
    if ends_with(key, ":fx") {
        "https://api-free.deepl.com"
    } else {
        "https://api.deepl.com"
    }
}

/// What the service is asked for.
#[derive(Clone, Copy, Debug, PartialEq, Eq, Structural)]
pub enum Endpoint {
    /// Translate a text.
    Translate,
    /// List the languages that can be translated into.
    Languages,
    /// Report how much of the quota is used.
    Usage,
}

impl Endpoint {
    /// The path of this endpoint on the service's host.
    pub open spec fn path(&self) -> Seq<char> {
        match self {
            Endpoint::Translate => "/v2/translate"@,
            Endpoint::Languages => "/v2/languages"@,
            Endpoint::Usage => "/v2/usage"@,
        }
    }
}

/// The address of `endpoint` for the holder of `key`.
pub fn endpoint_url(key: &str, endpoint: Endpoint) -> (address: String)
    ensures
        address@ == api_host(key@) + endpoint.path(),
{
    let mut address = String::from_str(api_url(key));
    match endpoint {
        Endpoint::Translate => address.append("/v2/translate"),
        Endpoint::Languages => address.append("/v2/languages"),
        Endpoint::Usage => address.append("/v2/usage"),
    }
    address
}

/// The header value that authorises the holder of `key`.
pub fn authorization(key: &str) -> (value: String)
    ensures
        value@ == "DeepL-Auth-Key "@ + key@,
{
    let mut value = String::from_str("DeepL-Auth-Key ");
    value.append(key);
    value
}

/// What the user is told when the service answers with `status` and no
/// translation can be had. A status of 200 is no refusal.
pub open spec fn refusal_text(status: u16) -> Option<Seq<char>> {
    if status == 200 {
        None
    } else if status == 403 {
        Some("Not authenticated to DeepL API"@)
    } else if status == 429 {
        Some("DeepL requests ratelimited, slow down!"@)
    } else if status == 456 {
        Some(
            "Quota exceeded, used up all of 500k characters for this month!\nConsider upgrading to **Pro** if still relying on DeepL!"@,
        )
    } else if status == 500 {
        Some("DeepL service gave an internal server error, try again later!"@)
    } else {
        Some("Unknown status code, DeepL returned with HTTP "@ + decimal_text(status as nat))
    }
}

/// Decides from the status of the service's answer whether there is a
/// translation to read, and what to tell the user if there is none.
pub fn refusal(status: u16) -> (message: Option<String>)
    ensures
        match message {
            Some(text) => refusal_text(status) == Some(text@),
            None => refusal_text(status) is None,
        },
{
    if status == 200 {
        None
    } else if status == 403 {
        Some(String::from_str("Not authenticated to DeepL API"))
    } else if status == 429 {
        Some(String::from_str("DeepL requests ratelimited, slow down!"))
    } else if status == 456 {
        Some(
            String::from_str(
                "Quota exceeded, used up all of 500k characters for this month!\nConsider upgrading to **Pro** if still relying on DeepL!",
            ),
        )
    } else if status == 500 {
        Some(String::from_str("DeepL service gave an internal server error, try again later!"))
    } else {
        let mut text = String::from_str("Unknown status code, DeepL returned with HTTP ");
        let code = decimal(status as u64);
        text.append(code.as_str());
        Some(text)
    }
}

/// What the user is told when the service could not be reached.
pub fn service_error(cause: &str) -> (text: String)
    ensures
        text@ == "**(DeepL) Service error:** "@ + cause@,
{
    let mut text = String::from_str("**(DeepL) Service error:** ");
    text.append(cause);
    text
}

/// What the user is told when the service's answer could not be read.
pub fn parsing_error(cause: &str) -> (text: String)
    ensures
        text@ == "**(Kon) Parsing error:** "@ + cause@,
{
    let mut text = String::from_str("**(Kon) Parsing error:** ");
    text.append(cause);
    text
}

/// How much of the quota is used.
#[derive(Clone, Copy, Debug, PartialEq, Eq, Structural)]
pub struct Usage {
    pub character_count: u64,
    pub character_limit: u64,
}

/// The line about the quota: characters used and characters allowed, or a
/// notice that the quota could not be checked.
pub open spec fn quota_text(usage: Option<Usage>) -> Seq<char> {
    match usage {
        Some(usage) => "-# **Quota: "@ + prettified(usage.character_count as nat) + "/"@
            + prettified(usage.character_limit as nat) + "**"@,
        None => "-# *Failed to check the quota!*"@,
    }
}

/// Writes the line about the quota.
pub fn quota_line(usage: Option<Usage>) -> (text: String)
    ensures
        text@ == quota_text(usage),
{
    match usage {
        Some(usage) => {
            let mut text = String::from_str("-# **Quota: ");
            let used = prettify_nums(usage.character_count);
            text.append(used.as_str());
            text.append("/");
            let allowed = prettify_nums(usage.character_limit);
            text.append(allowed.as_str());
            text.append("**");
            text
        },
        None => String::from_str("-# *Failed to check the quota!*"),
    }
}

/// The message that shows a translation: the language it was translated
/// from, the line about the quota, and the translated text in a block of
/// its own.
pub open spec fn translation_text(
    cache: Seq<Language>,
    source_language: Seq<char>,
    usage: Option<Usage>,
    translated: Seq<char>,
) -> Seq<char> {
    "**Translated "@ + "from "@ + language_shown(cache, source_language) + "**"@ + "\n"@ + quota_text(
        usage,
    ) + "\n"@ + "```\n"@ + translated + "\n```"@
}

/// Writes the message that shows a translation.
pub fn translation_reply(
    cache: &Vec<Language>,
    source_language: &str,
    usage: Option<Usage>,
    translated: &str,
) -> (text: String)
    ensures
        text@ == translation_text(cache@, source_language@, usage, translated@),
{
    let mut text = String::from_str("**Translated ");
    text.append("from ");
    let language = prettify_lang(cache, source_language);
    text.append(language.as_str());
    text.append("**");
    text.append("\n");
    let quota = quota_line(usage);
    text.append(quota.as_str());
    text.append("\n");
    text.append("```\n");
    text.append(translated);
    text.append("\n```");
    proof {
        assert(text@ =~= translation_text(cache@, source_language@, usage, translated@));
    }
    text
}

/// The text of a message that is worth translating: the message without
/// the blanks around it, unless nothing is left of it then.
pub fn wanted_text(message: &str) -> (wanted: Option<&str>)
    ensures
        match wanted {
            Some(text) => text@ == trimmed(message@) && text@.len() > 0,
            None => trimmed(message@).len() == 0,
        },
{
    let text = trim(message);
    if text.is_empty() {
        None
    } else {
        Some(text)
    }
}

/// What the user is told when the message holds nothing to translate.
pub fn nothing_to_translate() -> (text: &'static str)
    ensures
        text@ == "Nothing to translate!"@,
{
    "Nothing to translate!"
}

/// What to do with a text that someone wants translated.
#[derive(Debug)]
pub enum Plan {
    /// Tell the user this and do nothing else.
    Decline(String),
    /// Ask the service; `refresh_languages` tells whether its list of
    /// languages has to be fetched first.
    Ask { refresh_languages: bool },
}

/// Decides what to do with a text that someone wants translated, from the
/// key for the service and the number of languages known so far.
///
/// Without a key the request is declined. With one the service is asked,
/// after its list of languages has been fetched if none is known yet.
pub fn plan(key: &str, known_languages: usize) -> (plan: Plan)
    ensures
        key@.len() == 0 ==> plan is Decline && plan->Decline_0@
            == "Can't translate this message, see console for more info!"@,
        key@.len() > 0 ==> plan == (Plan::Ask { refresh_languages: known_languages == 0 }),
{
    if key.is_empty() {
        Plan::Decline(String::from_str("Can't translate this message, see console for more info!"))
    } else {
        Plan::Ask { refresh_languages: known_languages == 0 }
    }
}

/// What the user is told when the service sent no translation back.
pub fn nothing_translated() -> (text: &'static str)
    ensures
        text@ == "DeepL didn't send translated text back!"@,
{
    "DeepL didn't send translated text back!"
}

} // verus!
