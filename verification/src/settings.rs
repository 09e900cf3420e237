//! Settings: their defaults, and what is made of them.
use vstd::prelude::*;
use vstd::string::*;
use crate::text::number_text;
use crate::text::decimal;

verus! {

/// Settings of the program.
#[derive(Debug)]
pub struct Settings {
    pub gwmp: GwmpServerSettings,
    /// Directory of the key files.
    pub keys_dir: String,
    pub router: RouterSettings,
    /// REST API listen address (e.g., "127.0.0.1:4468").
    pub api_addr: String,
    /// LoRaWAN region (e.g., "US915", "EU868", "AU915"). Empty for the unknown region.
    pub region: String,
    /// API key for read-only endpoints (list/get gateways, metrics). If set, clients must send it
    /// in the `X-API-Key` header.
    pub read_api_key: Option<String>,
    /// API key for write endpoints (signing). If set, clients must send it in the `X-API-Key`
    /// header.
    pub write_api_key: Option<String>,
    pub log: LogSettings,
}

/// Log configuration settings.
#[derive(Debug)]
pub struct LogSettings {
    /// Log level (trace, debug, info, warn, error).
    pub level: String,
    /// Whether log output has timestamps.
    pub timestamp: bool,
}

/// Settings for the connection to the packet router.
#[derive(Debug)]
pub struct RouterSettings {
    /// URI of the packet router.
    pub uri: String,
    /// Maximum number of packets to queue.
    pub queue: u16,
}

/// Settings for the UDP server (GWMP).
#[derive(Debug)]
pub struct GwmpServerSettings {
    /// Address to listen on.
    pub addr: String,
    /// Port to listen on.
    pub port: u16,
}

/// The REST API listen address if none is set.
pub fn default_api_addr() -> (addr: String)
    ensures
        addr@ == "127.0.0.1:4468"@,
{
    "127.0.0.1:4468".to_owned()
}

/// The log level where log settings leave it out.
pub fn default_log_level() -> (level: String)
    ensures
        level@ == "info"@,
{
    "info".to_owned()
}

/// The maximum number of queued packets if none is set.
pub fn default_queue() -> (queue: u16)
    ensures
        queue == 100,
{
    100
}

/// The keys directory if none is set.
pub fn default_keys_dir() -> (dir: String)
    ensures
        dir@ == "/var/run/helium-multi-gateway/keys"@,
{
    "/var/run/helium-multi-gateway/keys".to_owned()
}

impl Default for GwmpServerSettings {
    fn default() -> (settings: Self)
        ensures
            settings.addr@ == "0.0.0.0"@,
            settings.port == 1680,
    {
        GwmpServerSettings { addr: "0.0.0.0".to_owned(), port: 1680 }
    }
}

impl Default for LogSettings {
    fn default() -> (settings: Self)
        ensures
            settings.level@ == Seq::<char>::empty(),
            !settings.timestamp,
    {
        LogSettings { level: String::new(), timestamp: false }
    }
}

/// The text of an address and a port.
pub open spec fn address_text(addr: Seq<char>, port: u16) -> Seq<char> {
    addr + ":"@ + decimal(port as nat)
}

impl GwmpServerSettings {
    /// Writes the address and the port to listen on.
    pub fn listen_addr(&self) -> (text: String)
        ensures
            text@ == address_text(self.addr@, self.port),
    {
        let mut text = self.addr.clone();
        text.append(":");
        text.append(number_text(self.port as u64).as_str());
        text
    }
}

/// Log levels.
#[derive(Clone, Copy, Debug, PartialEq, Eq, Structural)]
pub enum LogLevel {
    Trace,
    Debug,
    Info,
    Warn,
    Error,
}

/// The lower-case form of an ASCII letter; any other character as it is.
pub open spec fn ascii_lower(c: char) -> char {
    if 'A' <= c <= 'Z' {
        (c as int - 'A' as int + 'a' as int) as char
    } else {
        c
    }
}

/// Whether a text spells a word in lower case, in upper case or in a mixture of both.
pub open spec fn spells(text: Seq<char>, word: Seq<char>) -> bool {
    text.map_values(|c: char| ascii_lower(c)) == word
}

/// The level that a text names, in whatever case. Any other text stands for `Info`.
pub open spec fn level_of(text: Seq<char>) -> LogLevel {
    if spells(text, "trace"@) {
        LogLevel::Trace
    } else if spells(text, "debug"@) {
        LogLevel::Debug
    } else if spells(text, "warn"@) {
        LogLevel::Warn
    } else if spells(text, "error"@) {
        LogLevel::Error
    } else {
        LogLevel::Info
    }
}

/// Tells whether a text spells a word that is written in lower case.
fn spells_word(text: &str, word: &str) -> (same: bool)
    requires
        forall|i: int| 0 <= i < word@.len() ==> 'a' <= #[trigger] word@[i] <= 'z',
    ensures
        same == spells(text@, word@),
{
    let ghost lower = text@.map_values(|c: char| ascii_lower(c));
    let len: usize = text.unicode_len();
    if len != word.unicode_len() {
        assert(lower.len() != word@.len());
        return false;
    }
    let mut i: usize = 0;
    while i < len
        invariant
            i <= len,
            len == text@.len(),
            len == word@.len(),
            lower == text@.map_values(|c: char| ascii_lower(c)),
            forall|j: int| 0 <= j < word@.len() ==> 'a' <= #[trigger] word@[j] <= 'z',
            forall|j: int| 0 <= j < i ==> #[trigger] lower[j] == word@[j],
        decreases len - i,
    {
        let c: u32 = text.get_char(i) as u32;
        let w: u32 = word.get_char(i) as u32;
        assert('a' <= word@[i as int] <= 'z');
        let lowered: u32 = if 65 <= c && c <= 90 { c + 32 } else { c };
        assert(lower[i as int] as u32 == lowered);
        if lowered != w {
            assert(lower[i as int] != word@[i as int]);
            return false;
        }
        i += 1;
    }
    assert(lower =~= word@);
    true
}

impl LogSettings {
    /// Chooses the log level.
    pub fn log_level(&self) -> (level: LogLevel)
        ensures
            level == level_of(self.level@),
    {
        proof {
            reveal_strlit("trace");
            reveal_strlit("debug");
            reveal_strlit("warn");
            reveal_strlit("error");
        }
        let text = self.level.as_str();
        if spells_word(text, "trace") {
            LogLevel::Trace
        } else if spells_word(text, "debug") {
            LogLevel::Debug
        } else if spells_word(text, "warn") {
            LogLevel::Warn
        } else if spells_word(text, "error") {
            LogLevel::Error
        } else {
            LogLevel::Info
        }
    }
}

/// A LoRaWAN region: its number, or the default one (unknown).
#[derive(Clone, Copy, Debug, PartialEq, Eq, Structural)]
pub enum RegionChoice {
    Default,
    Region(i32),
}

/// Chooses the region. `parsed` is the number of the region that the text names, if it names one.
/// No text, or one that names no region, stands for the default region.
pub fn parse_region(region_str: &str, parsed: Option<i32>) -> (region: RegionChoice)
    ensures
        region == (match parsed {
            Some(number) => if region_str@.len() > 0 {
                RegionChoice::Region(number)
            } else {
                RegionChoice::Default
            },
            None => RegionChoice::Default,
        }),
{
    if region_str.unicode_len() == 0 {
        return RegionChoice::Default;
    }
    match parsed {
        Some(number) => RegionChoice::Region(number),
        None => RegionChoice::Default,
    }
}

/// The names of the log levels choose them in every mixture of cases.
pub proof fn law_log_level_ignores_case(a: Seq<char>, b: Seq<char>)
    requires
        a.map_values(|c: char| ascii_lower(c)) == b.map_values(|c: char| ascii_lower(c)),
    ensures
        level_of(a) == level_of(b),
{
}

/// Each log level is chosen by the five, or four, letters of its name and by nothing else, each
/// letter in either case; every other text chooses `Info`.
pub proof fn law_log_levels_are_chosen_by_their_names(text: Seq<char>)
    ensures
        ({
            let at = |i: int, lower: char, upper: char| text[i] == lower || text[i] == upper;
            let trace = text.len() == 5 && at(0, 't', 'T') && at(1, 'r', 'R') && at(2, 'a', 'A')
                && at(3, 'c', 'C') && at(4, 'e', 'E');
            let debug = text.len() == 5 && at(0, 'd', 'D') && at(1, 'e', 'E') && at(2, 'b', 'B')
                && at(3, 'u', 'U') && at(4, 'g', 'G');
            let warn = text.len() == 4 && at(0, 'w', 'W') && at(1, 'a', 'A') && at(2, 'r', 'R')
                && at(3, 'n', 'N');
            let error = text.len() == 5 && at(0, 'e', 'E') && at(1, 'r', 'R') && at(2, 'r', 'R')
                && at(3, 'o', 'O') && at(4, 'r', 'R');
            &&& level_of(text) == LogLevel::Trace <==> trace
            &&& level_of(text) == LogLevel::Debug <==> debug
            &&& level_of(text) == LogLevel::Warn <==> warn
            &&& level_of(text) == LogLevel::Error <==> error
            &&& level_of(text) == LogLevel::Info <==> !trace && !debug && !warn && !error
        }),
{
    reveal_strlit("trace");
    reveal_strlit("debug");
    reveal_strlit("warn");
    reveal_strlit("error");
    lemma_spells_each_letter(text, "trace"@);
    lemma_spells_each_letter(text, "debug"@);
    lemma_spells_each_letter(text, "warn"@);
    lemma_spells_each_letter(text, "error"@);
    let trace = "trace"@;
    let debug = "debug"@;
    let warn = "warn"@;
    let error = "error"@;
    assert(trace[0] == 't' && trace[1] == 'r' && trace[2] == 'a' && trace[3] == 'c' && trace[4]
        == 'e');
    assert(debug[0] == 'd' && debug[1] == 'e' && debug[2] == 'b' && debug[3] == 'u' && debug[4]
        == 'g');
    assert(warn[0] == 'w' && warn[1] == 'a' && warn[2] == 'r' && warn[3] == 'n');
    assert(error[0] == 'e' && error[1] == 'r' && error[2] == 'r' && error[3] == 'o' && error[4]
        == 'r');
}

proof fn lemma_spells_each_letter(text: Seq<char>, word: Seq<char>)
    ensures
        spells(text, word) <==> text.len() == word.len() && forall|i: int|
            0 <= i < word.len() ==> ascii_lower(text[i]) == #[trigger] word[i],
{
    let lower = text.map_values(|c: char| ascii_lower(c));
    if text.len() == word.len() && forall|i: int|
        0 <= i < word.len() ==> ascii_lower(text[i]) == #[trigger] word[i] {
        assert(lower =~= word);
    }
    if lower == word {
        assert forall|i: int| 0 <= i < word.len() implies ascii_lower(text[i])
            == #[trigger] word[i] by {
            assert(lower[i] == ascii_lower(text[i]));
        }
    }
}

/// An address to listen on is the address, a colon and the port in decimal.
pub proof fn law_listen_address_is_address_and_port(addr: Seq<char>, port: u16)
    ensures
        address_text(addr, port) == addr + seq![':'] + decimal(port as nat),
{
    reveal_strlit(":");
    assert(":"@ =~= seq![':']);
}

} // verus!
