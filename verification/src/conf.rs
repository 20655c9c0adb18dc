//! Configuration: the command-line settings and the payload map, which is
//! read from a JSON document.

use crate::text::{decimal, push_decimal, to_chars};
use std::collections::HashMap;
use vstd::prelude::*;
use vstd::std_specs::iter::IteratorSpec;
use vstd::string::StringExecFns;

verus! {

broadcast use vstd::std_specs::hash::group_hash_axioms;

/// The payload template registered for each port. A port without an entry
/// has no payload.
#[derive(Debug)]
pub struct Payloads {
    pub payloads: HashMap<u16, String>,
}

impl View for Payloads {
    type V = Map<u16, Seq<char>>;

    open spec fn view(&self) -> Map<u16, Seq<char>> {
        Map::new(|port: u16| self.payloads@.contains_key(port), |port: u16| self.payloads@[port]@)
    }
}

impl Payloads {
    /// A map without entries.
    pub fn new() -> (p: Payloads)
        ensures
            p@ == Map::<u16, Seq<char>>::empty(),
    {
        let p = Payloads { payloads: HashMap::new() };
        assert(p@ =~= Map::<u16, Seq<char>>::empty());
        p
    }

    /// Registers `template` for `port`, in place of what was there.
    pub fn insert(&mut self, port: u16, template: String)
        ensures
            final(self)@ == old(self)@.insert(port, template@),
    {
        self.payloads.insert(port, template);
        assert(self@ =~= old(self)@.insert(port, template@));
    }

    /// The template registered for `port`.
    pub fn get(&self, port: u16) -> (r: Option<&String>)
        ensures
            r is Some <==> self@.contains_key(port),
            r matches Some(template) ==> template@ == self@[port],
    {
        self.payloads.get(&port)
    }

    /// The ports that have a payload, each once, in no particular order.
    pub fn ports(&self) -> (ports: Vec<u16>)
        ensures
            ports@.no_duplicates(),
            forall|port: u16| ports@.contains(port) <==> self@.contains_key(port),
            ports@.len() == self@.dom().len(),
    {
        let mut ports: Vec<u16> = Vec::new();
        let ghost keys = vstd::std_specs::hash::spec_keys_iter(&self.payloads).remaining();
        for key in it: self.payloads.keys()
            invariant
                it.seq() == keys,
                keys == vstd::std_specs::hash::spec_keys_iter(&self.payloads).remaining(),
                ports@.len() == it.index(),
                forall|i: int| 0 <= i < ports@.len() ==> ports@[i] == *keys[i],
        {
            ports.push(*key);
        }
        proof {
            assert(ports@ =~= keys.unref());
            assert(self@.dom() =~= self.payloads@.dom());
            assert forall|i: int, j: int| 0 <= i < j < ports@.len() implies ports@[i]
                != ports@[j] by {
                assert(keys[i] != keys[j]);
            }
            assert forall|port: u16| ports@.contains(port) <==> self@.contains_key(port) by {
                assert(keys.unref().to_set().contains(port) <==> self.payloads@.dom().contains(
                    port,
                ));
            }
        }
        ports
    }

    /// How many ports have a payload.
    pub fn len(&self) -> (n: usize)
        ensures
            n == self@.dom().len(),
            self@.dom().finite(),
    {
        assert(self@.dom() =~= self.payloads@.dom());
        self.payloads.len()
    }
}

/// The settings that the command line gives.
#[derive(Debug)]
pub struct Args {
    /// How many address scans may be in flight at once.
    pub tasks: u64,
    /// Where findings are logged.
    pub log_file: String,
    /// Whether findings are logged to a file.
    pub file_logging: bool,
    /// Whether the operator gets notices on the console.
    pub console: bool,
    /// The time allowed for a connect, and again for send and receive, in
    /// milliseconds.
    pub timeout: u64,
    /// Where the payload map is read from.
    pub payloads_filename: String,
    /// Whether `%ip%` and `%port%` in a template stand for the target.
    pub placeholders: bool,
}

impl Default for Args {
    fn default() -> (args: Args)
        ensures
            args.tasks == 3000,
            args.log_file@ == "logs.csv"@,
            !args.file_logging,
            args.console,
            args.timeout == 700,
            args.payloads_filename@ == "payloads.json"@,
            !args.placeholders,
    {
        Args {
            tasks: 3000,
            log_file: String::from_str("logs.csv"),
            file_logging: false,
            console: true,
            timeout: 700,
            payloads_filename: String::from_str("payloads.json"),
            placeholders: false,
        }
    }
}

/// The two files that the settings name.
#[derive(Debug)]
pub struct ArgsConfig {
    pub log_file: String,
    pub payloads_filename: String,
}

/// What the scan engine reads from the settings. It is made once and handed
/// to whoever needs it.
#[derive(Clone, Copy, Debug, PartialEq, Eq, Structural)]
pub struct ScanConfig {
    pub tasks_max: u64,
    pub timeout: u64,
    pub file_logging: bool,
    pub console_logging: bool,
    pub placeholders: bool,
}

/// Splits the settings into the files to open and the engine's
/// configuration.
pub fn read_clap_conf(args: Args) -> (r: (ArgsConfig, ScanConfig))
    ensures
        r.0.log_file@ == args.log_file@,
        r.0.payloads_filename@ == args.payloads_filename@,
        r.1 == (ScanConfig {
            tasks_max: args.tasks,
            timeout: args.timeout,
            file_logging: args.file_logging,
            console_logging: args.console,
            placeholders: args.placeholders,
        }),
{
    let scan = ScanConfig {
        tasks_max: args.tasks,
        timeout: args.timeout,
        file_logging: args.file_logging,
        console_logging: args.console,
        placeholders: args.placeholders,
    };
    (ArgsConfig { log_file: args.log_file, payloads_filename: args.payloads_filename }, scan)
}

/// `serde_json::Value`, a parsed JSON document.
#[verifier::external_type_specification]
#[verifier::external_body]
pub struct ExJsonValue(serde_json::Value);

/// `serde_json::Error`, what the parser says of a text that is not JSON.
#[verifier::external_type_specification]
#[verifier::external_body]
pub struct ExJsonError(serde_json::Error);

/// Why a payload document was turned down.
#[derive(Debug)]
pub enum ConfigError {
    /// The text is not JSON.
    InvalidJson(serde_json::Error),
    /// The document is not an object.
    NotAnObject,
    /// A key that is no comment is not a port number.
    InvalidPortKey(String),
    /// The value given for this port is not a string.
    PayloadNotString(u16),
}

/// [`ConfigError`] as contracts see it.
pub enum ConfigFault {
    InvalidJson,
    NotAnObject,
    InvalidPortKey(Seq<char>),
    PayloadNotString(u16),
}

impl ConfigFault {
    /// The fault in words. Of text that is not JSON the parser has words of
    /// its own, which are not spelled out here.
    pub open spec fn text(self) -> Option<Seq<char>> {
        match self {
            ConfigFault::InvalidJson => None,
            ConfigFault::NotAnObject => Some("Payload config must be a JSON object"@),
            ConfigFault::InvalidPortKey(key) => Some("Invalid port key: '"@ + key + "'"@),
            ConfigFault::PayloadNotString(port) => Some(
                "Expected string payload for port "@ + decimal(port as nat),
            ),
        }
    }
}

impl View for ConfigError {
    type V = ConfigFault;

    open spec fn view(&self) -> ConfigFault {
        match self {
            ConfigError::InvalidJson(_) => ConfigFault::InvalidJson,
            ConfigError::NotAnObject => ConfigFault::NotAnObject,
            ConfigError::InvalidPortKey(key) => ConfigFault::InvalidPortKey(key@),
            ConfigError::PayloadNotString(port) => ConfigFault::PayloadNotString(*port),
        }
    }
}

impl ConfigError {
    /// The error in words: for text that is not JSON what the parser says of
    /// it, else what [`ConfigFault::text`] gives.
    pub fn message(&self) -> (s: String)
        ensures
            self@.text() matches Some(text) ==> s@ == text,
    {
        match self {
            ConfigError::InvalidJson(error) => error.to_string(),
            ConfigError::NotAnObject => String::from_str("Payload config must be a JSON object"),
            ConfigError::InvalidPortKey(key) => {
                let mut s = String::from_str("Invalid port key: '");
                s.append(key.as_str());
                s.append("'");
                s
            },
            ConfigError::PayloadNotString(port) => {
                let mut s = String::from_str("Expected string payload for port ");
                push_decimal(&mut s, *port as u64);
                s
            },
        }
    }
}

/// Whether `c` is one of `0` to `9`.
pub open spec fn is_digit(c: char) -> bool {
    48 <= c as u32 <= 57
}

/// The number that a run of digits spells, read as decimal.
pub open spec fn digits_value(digits: Seq<char>) -> nat
    decreases digits.len(),
{
    if digits.len() == 0 {
        0
    } else {
        (digits_value(digits.drop_last()) * 10 + (digits.last() as u32 - 48)) as nat
    }
}

/// What is left of `key` once a leading `+` is taken off.
pub open spec fn port_digits(key: Seq<char>) -> Seq<char> {
    if key.len() > 0 && key[0] == '+' {
        key.skip(1)
    } else {
        key
    }
}

/// The port that `key` spells: an optional `+`, then one or more digits,
/// leading zeros allowed, whose value fits 16 bits.
pub open spec fn parse_port_spec(key: Seq<char>) -> Option<u16> {
    let digits = port_digits(key);
    if digits.len() > 0 && (forall|i: int| 0 <= i < digits.len() ==> is_digit(#[trigger] digits[i]))
        && digits_value(digits) <= 65535 {
        Some(digits_value(digits) as u16)
    } else {
        None
    }
}

proof fn lemma_digits_value_grows(digits: Seq<char>, k: int)
    requires
        0 <= k <= digits.len(),
        forall|i: int| 0 <= i < digits.len() ==> is_digit(#[trigger] digits[i]),
    ensures
        digits_value(digits.take(k)) <= digits_value(digits),
    decreases digits.len() - k,
{
    if k == digits.len() {
        assert(digits.take(k) =~= digits);
    } else {
        lemma_digits_value_grows(digits.drop_last(), k);
        assert(digits.drop_last().take(k) =~= digits.take(k));
    }
}

/// Reads `key` as a port number.
pub fn parse_port(key: &str) -> (r: Option<u16>)
    ensures
        r == parse_port_spec(key@),
{
    let chars = to_chars(key);
    let n = chars.len();
    let start: usize = if n > 0 && chars[0] == '+' {
        1
    } else {
        0
    };
    let ghost digits = port_digits(key@);
    if start == n {
        return None;
    }
    let mut value: u32 = 0;
    let mut i: usize = start;
    proof {
        assert(digits.take(0) =~= Seq::<char>::empty());
        assert(key@.skip(0) =~= key@);
    }
    while i < n
        invariant
            start <= i <= n,
            start <= 1,
            n == key@.len(),
            chars@ == key@,
            digits == port_digits(key@),
            digits == key@.skip(start as int),
            forall|j: int| 0 <= j < i - start ==> is_digit(#[trigger] digits[j]),
            value == digits_value(digits.take(i - start)),
            value <= 65535,
        decreases n - i,
    {
        let code: u32 = chars[i] as u32;
        assert(digits[i - start] == chars@[i as int]);
        if code < 48 || code > 57 {
            assert(!is_digit(digits[i - start]));
            return None;
        }
        proof {
            assert(is_digit(digits[i - start]));
            assert(digits.take(i - start + 1).drop_last() =~= digits.take(i - start));
            assert(digits.take(i - start + 1).last() == digits[i - start]);
        }
        value = value * 10 + (code - 48);
        assert(value == digits_value(digits.take(i - start + 1)));
        if value > 65535 {
            proof {
                if forall|j: int| 0 <= j < digits.len() ==> is_digit(#[trigger] digits[j]) {
                    lemma_digits_value_grows(digits, i - start + 1);
                }
            }
            return None;
        }
        i += 1;
    }
    proof {
        assert(digits.take(n - start) =~= digits);
    }
    Some(value as u16)
}

/// Whether `key` marks a comment: it starts with an underscore.
pub open spec fn is_comment_key(key: Seq<char>) -> bool {
    key.len() > 0 && key[0] == '_'
}

/// The payload map after one more member of the document: a comment changes
/// nothing, and any other member must give a port and a string.
pub open spec fn add_member(
    map: Map<u16, Seq<char>>,
    key: Seq<char>,
    value: Option<Seq<char>>,
) -> Result<Map<u16, Seq<char>>, ConfigFault> {
    if is_comment_key(key) {
        Ok(map)
    } else {
        match parse_port_spec(key) {
            None => Err(ConfigFault::InvalidPortKey(key)),
            Some(port) => match value {
                None => Err(ConfigFault::PayloadNotString(port)),
                Some(template) => Ok(map.insert(port, template)),
            },
        }
    }
}

/// The payload map that the members of a document give, taken in order: a
/// later member replaces an earlier one for the same port, and the first
/// member at fault decides the error.
pub open spec fn collect_members(members: Seq<(Seq<char>, Option<Seq<char>>)>) -> Result<
    Map<u16, Seq<char>>,
    ConfigFault,
>
    decreases members.len(),
{
    if members.len() == 0 {
        Ok(Map::empty())
    } else {
        match collect_members(members.drop_last()) {
            Err(fault) => Err(fault),
            Ok(map) => add_member(map, members.last().0, members.last().1),
        }
    }
}

/// The members of a document as contracts see them.
pub open spec fn members_view(members: Seq<(String, Option<String>)>) -> Seq<
    (Seq<char>, Option<Seq<char>>),
> {
    Seq::new(
        members.len(),
        |i: int|
            (
                members[i].0@,
                match members[i].1 {
                    Some(text) => Some(text@),
                    None => None,
                },
            ),
    )
}

/// What a payload document comes to, as contracts see it.
pub open spec fn outcome_view(r: Result<Payloads, ConfigError>) -> Result<
    Map<u16, Seq<char>>,
    ConfigFault,
> {
    match r {
        Ok(payloads) => Ok(payloads@),
        Err(error) => Err(error@),
    }
}

proof fn lemma_collect_stops_at_fault(
    members: Seq<(Seq<char>, Option<Seq<char>>)>,
    k: int,
    fault: ConfigFault,
)
    requires
        0 <= k <= members.len(),
        collect_members(members.take(k)) == Err::<Map<u16, Seq<char>>, ConfigFault>(fault),
    ensures
        collect_members(members) == Err::<Map<u16, Seq<char>>, ConfigFault>(fault),
    decreases members.len() - k,
{
    if k == members.len() {
        assert(members.take(k) =~= members);
    } else {
        assert(members.drop_last().take(k) =~= members.take(k));
        lemma_collect_stops_at_fault(members.drop_last(), k, fault);
    }
}

/// Builds the payload map from the members of a document, each given by its
/// key and, where its value is a string, by that string.
pub fn payloads_from_members(members: &Vec<(String, Option<String>)>) -> (r: Result<
    Payloads,
    ConfigError,
>)
    ensures
        outcome_view(r) == collect_members(members_view(members@)),
{
    let ghost all = members_view(members@);
    let mut payloads = Payloads::new();
    let n = members.len();
    let mut i: usize = 0;
    proof {
        assert(all.take(0) =~= Seq::<(Seq<char>, Option<Seq<char>>)>::empty());
    }
    while i < n
        invariant
            i <= n,
            n == members@.len(),
            all == members_view(members@),
            collect_members(all.take(i as int)) == Ok::<Map<u16, Seq<char>>, ConfigFault>(
                payloads@,
            ),
        decreases n - i,
    {
        let key = &members[i].0;
        proof {
            assert(all.take(i + 1).drop_last() =~= all.take(i as int));
            assert(all.take(i + 1).last() == all[i as int]);
        }
        let chars = to_chars(key.as_str());
        if !(chars.len() > 0 && chars[0] == '_') {
            match parse_port(key.as_str()) {
                None => {
                    let error = ConfigError::InvalidPortKey(key.clone());
                    proof {
                        lemma_collect_stops_at_fault(all, i + 1, error@);
                    }
                    return Err(error);
                },
                Some(port) => match &members[i].1 {
                    None => {
                        let error = ConfigError::PayloadNotString(port);
                        proof {
                            lemma_collect_stops_at_fault(all, i + 1, error@);
                        }
                        return Err(error);
                    },
                    Some(template) => {
                        payloads.insert(port, template.clone());
                    },
                },
            }
        }
        i += 1;
    }
    proof {
        assert(all.take(n as int) =~= all);
    }
    Ok(payloads)
}

/// What `serde_json::from_slice` makes of a text: nothing where the text is
/// not JSON, else what [`json_members`] says of the document.
pub uninterp spec fn json_document(bytes: Seq<u8>) -> Option<
    Option<Seq<(Seq<char>, Option<Seq<char>>)>>,
>;

/// What a parsed document holds: nothing where it is not an object, else its
/// members in the order in which the object hands them out, each with its
/// key and, where its value is a string, that string.
pub uninterp spec fn json_members(value: serde_json::Value) -> Option<
    Seq<(Seq<char>, Option<Seq<char>>)>,
>;

/// `serde_json::from_slice` for a `Value`: parsing depends on the text alone,
/// so the outcome is the one that [`json_document`] names.
#[verifier::external_body]
fn parse_json(bytes: &[u8]) -> (r: Result<serde_json::Value, serde_json::Error>)
    ensures
        match r {
            Ok(value) => json_document(bytes@) == Some(json_members(value)),
            Err(_) => json_document(bytes@) is None,
        },
{
    serde_json::from_slice(bytes)
}

/// `Value::as_object`, with the members copied out through `Map::iter` and
/// `Value::as_str`: the result is what [`json_members`] names.
#[verifier::external_body]
fn object_members(value: &serde_json::Value) -> (r: Option<Vec<(String, Option<String>)>>)
    ensures
        match r {
            Some(members) => json_members(*value) == Some(members_view(members@)),
            None => json_members(*value) is None,
        },
{
    value.as_object().map(
        |object| object.iter().map(|(key, v)| (key.clone(), v.as_str().map(String::from))).collect(),
    )
}

/// What a payload document comes to, from what the parser makes of it.
pub open spec fn payloads_of_document(
    document: Option<Option<Seq<(Seq<char>, Option<Seq<char>>)>>>,
) -> Result<Map<u16, Seq<char>>, ConfigFault> {
    match document {
        None => Err(ConfigFault::InvalidJson),
        Some(None) => Err(ConfigFault::NotAnObject),
        Some(Some(members)) => collect_members(members),
    }
}

/// Reads the payload map from the text of a JSON document: an object whose
/// keys are port numbers and whose values are strings. Keys that start with
/// an underscore are comments.
pub fn read_payloads_json(bytes: &[u8]) -> (r: Result<Payloads, ConfigError>)
    ensures
        outcome_view(r) == payloads_of_document(json_document(bytes@)),
{
    match parse_json(bytes) {
        Err(error) => Err(ConfigError::InvalidJson(error)),
        Ok(value) => match object_members(&value) {
            None => Err(ConfigError::NotAnObject),
            Some(members) => payloads_from_members(&members),
        },
    }
}

} // verus!
