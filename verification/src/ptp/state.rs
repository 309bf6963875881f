//! Parsing the datasets of `pmc` management responses.

use vstd::prelude::*;

use crate::io::text::{
    after_last_whitespace, after_last_whitespace_chars, chars_of, contains, contains_chars,
    first_whitespace, is_whitespace, slice_chars, starts_with, starts_with_chars, string_from_chars,
    trim, trim_chars,
};

verus! {

/// The state of a PTP port (`portDS.portState`, IEEE 1588).
///
/// [`PortState::Slave`] is the authoritative sign of synchronization.
#[derive(Debug, PartialEq, Eq)]
pub enum PortState {
    /// Initial state during startup.
    Initializing,
    /// Fault detected.
    Faulty,
    /// Port is disabled.
    Disabled,
    /// Waiting for Announce messages from a master.
    Listening,
    /// Preparing to become master.
    PreMaster,
    /// Acting as a master.
    Master,
    /// Passive (not participating in synchronization actively).
    Passive,
    /// Master selected, but servo not yet locked.
    Uncalibrated,
    /// Fully synchronized to a master.
    Slave,
    /// Unknown or unrecognized state, with its text.
    Unknown(String),
}

/// Model of a [`PortState`].
pub enum PortStateView {
    Initializing,
    Faulty,
    Disabled,
    Listening,
    PreMaster,
    Master,
    Passive,
    Uncalibrated,
    Slave,
    Unknown(Seq<char>),
}

impl View for PortState {
    type V = PortStateView;

    open spec fn view(&self) -> PortStateView {
        match self {
            PortState::Initializing => PortStateView::Initializing,
            PortState::Faulty => PortStateView::Faulty,
            PortState::Disabled => PortStateView::Disabled,
            PortState::Listening => PortStateView::Listening,
            PortState::PreMaster => PortStateView::PreMaster,
            PortState::Master => PortStateView::Master,
            PortState::Passive => PortStateView::Passive,
            PortState::Uncalibrated => PortStateView::Uncalibrated,
            PortState::Slave => PortStateView::Slave,
            PortState::Unknown(s) => PortStateView::Unknown(s@),
        }
    }
}

/// The port state a `portState` text names.
pub open spec fn port_state_of(t: Seq<char>) -> PortStateView {
    if t == "INITIALIZING"@ {
        PortStateView::Initializing
    } else if t == "FAULTY"@ {
        PortStateView::Faulty
    } else if t == "DISABLED"@ {
        PortStateView::Disabled
    } else if t == "LISTENING"@ {
        PortStateView::Listening
    } else if t == "PRE_MASTER"@ {
        PortStateView::PreMaster
    } else if t == "MASTER"@ {
        PortStateView::Master
    } else if t == "PASSIVE"@ {
        PortStateView::Passive
    } else if t == "UNCALIBRATED"@ {
        PortStateView::Uncalibrated
    } else if t == "SLAVE"@ {
        PortStateView::Slave
    } else {
        PortStateView::Unknown(t)
    }
}

/// Whether two character vectors are equal.
fn chars_eq(a: &Vec<char>, b: &Vec<char>) -> (r: bool)
    ensures
        r == (a@ == b@),
{
    if a.len() != b.len() {
        return false;
    }
    let mut i: usize = 0;
    while i < a.len()
        invariant
            a@.len() == b@.len(),
            i <= a@.len(),
            forall|j: int| 0 <= j < i ==> a@[j] == b@[j],
        decreases a@.len() - i,
    {
        if a[i] != b[i] {
            return false;
        }
        i += 1;
    }
    assert(a@ =~= b@);
    true
}

/// Whether characters spell a string.
fn chars_are(a: &Vec<char>, s: &str) -> (r: bool)
    ensures
        r == (a@ == s@),
{
    let b = chars_of(s);
    chars_eq(a, &b)
}

impl PortState {
    /// Reads a `portState` text from `pmc` output.
    pub fn parse(s: &str) -> (r: PortState)
        ensures
            r@ == port_state_of(s@),
    {
        let t = chars_of(s);
        if chars_are(&t, "INITIALIZING") {
            PortState::Initializing
        } else if chars_are(&t, "FAULTY") {
            PortState::Faulty
        } else if chars_are(&t, "DISABLED") {
            PortState::Disabled
        } else if chars_are(&t, "LISTENING") {
            PortState::Listening
        } else if chars_are(&t, "PRE_MASTER") {
            PortState::PreMaster
        } else if chars_are(&t, "MASTER") {
            PortState::Master
        } else if chars_are(&t, "PASSIVE") {
            PortState::Passive
        } else if chars_are(&t, "UNCALIBRATED") {
            PortState::Uncalibrated
        } else if chars_are(&t, "SLAVE") {
            PortState::Slave
        } else {
            PortState::Unknown(s.to_owned())
        }
    }
}

impl Clone for PortState {
    fn clone(&self) -> (r: Self)
        ensures
            r == *self,
    {
        match self {
            PortState::Initializing => PortState::Initializing,
            PortState::Faulty => PortState::Faulty,
            PortState::Disabled => PortState::Disabled,
            PortState::Listening => PortState::Listening,
            PortState::PreMaster => PortState::PreMaster,
            PortState::Master => PortState::Master,
            PortState::Passive => PortState::Passive,
            PortState::Uncalibrated => PortState::Uncalibrated,
            PortState::Slave => PortState::Slave,
            PortState::Unknown(s) => PortState::Unknown(s.clone()),
        }
    }
}

impl PortState {
    /// Whether two port states are the same state (unknown states with the
    /// same text).
    pub fn same_as(&self, other: &PortState) -> (r: bool)
        ensures
            r == (self@ == other@),
    {
        let r = match self {
            PortState::Initializing => match other {
                PortState::Initializing => true,
                _ => false,
            },
            PortState::Faulty => match other {
                PortState::Faulty => true,
                _ => false,
            },
            PortState::Disabled => match other {
                PortState::Disabled => true,
                _ => false,
            },
            PortState::Listening => match other {
                PortState::Listening => true,
                _ => false,
            },
            PortState::PreMaster => match other {
                PortState::PreMaster => true,
                _ => false,
            },
            PortState::Master => match other {
                PortState::Master => true,
                _ => false,
            },
            PortState::Passive => match other {
                PortState::Passive => true,
                _ => false,
            },
            PortState::Uncalibrated => match other {
                PortState::Uncalibrated => true,
                _ => false,
            },
            PortState::Slave => match other {
                PortState::Slave => true,
                _ => false,
            },
            PortState::Unknown(a) => match other {
                PortState::Unknown(b) => *a == *b,
                _ => false,
            },
        };
        r
    }

    /// Whether this is the synchronized state, [`PortState::Slave`].
    pub fn is_slave(&self) -> (r: bool)
        ensures
            r == (self@ is Slave),
    {
        matches!(self, PortState::Slave)
    }

    /// Whether this is the master state, [`PortState::Master`].
    pub fn is_master(&self) -> (r: bool)
        ensures
            r == (self@ is Master),
    {
        matches!(self, PortState::Master)
    }
}

/// Errors of parsing the fields of one dataset block.
#[derive(Debug)]
pub enum FieldParseError {
    /// A required field was not present in the dataset block.
    MissingField(&'static str),
    /// A field was present but could not be parsed into the expected type.
    InvalidField(&'static str),
}

/// An error in parsing one dataset, with the dataset's name.
#[derive(Debug)]
pub struct DatasetParseError {
    /// Name of the dataset being parsed (e.g. `"TIME_STATUS_NP"`).
    pub dataset: &'static str,
    /// The underlying field-level parsing error.
    pub field_err: FieldParseError,
}

/// Errors of assembling a snapshot from `pmc` output.
#[derive(Debug)]
pub enum SnapshotParseError {
    /// A required dataset was not present in the `pmc` output.
    MissingDataset(&'static str),
    /// A dataset appeared more than once in the `pmc` output.
    DuplicateDataset(&'static str),
    /// A dataset was present but failed to parse.
    DatasetError(DatasetParseError),
}

/// Whether a character is an ASCII decimal digit.
pub open spec fn is_decimal_digit(c: char) -> bool {
    '0' <= c <= '9'
}

/// Whether text is one or more decimal digits.
pub open spec fn all_decimal_digits(d: Seq<char>) -> bool {
    d.len() > 0 && forall|i: int| 0 <= i < d.len() ==> is_decimal_digit(#[trigger] d[i])
}

/// The value of decimal digits, most significant first.
pub open spec fn decimal_value(d: Seq<char>) -> int
    decreases d.len(),
{
    if d.len() == 0 {
        0
    } else {
        decimal_value(d.drop_last()) * 10 + (d.last() as int - '0' as int)
    }
}

/// The integer a text denotes as a signed integer parser reads it (an
/// optional `+` or `-` and one or more decimal digits), if it is one.
pub open spec fn signed_value(t: Seq<char>) -> Option<int> {
    if t.len() > 0 && t[0] == '-' {
        if all_decimal_digits(t.drop_first()) {
            Some(-decimal_value(t.drop_first()))
        } else {
            None
        }
    } else if t.len() > 0 && t[0] == '+' {
        if all_decimal_digits(t.drop_first()) {
            Some(decimal_value(t.drop_first()))
        } else {
            None
        }
    } else if all_decimal_digits(t) {
        Some(decimal_value(t))
    } else {
        None
    }
}

/// The integer a text denotes as an unsigned integer parser reads it (an
/// optional `+` and one or more decimal digits), if it is one.
pub open spec fn unsigned_value(t: Seq<char>) -> Option<int> {
    if t.len() > 0 && t[0] == '+' {
        if all_decimal_digits(t.drop_first()) {
            Some(decimal_value(t.drop_first()))
        } else {
            None
        }
    } else if all_decimal_digits(t) {
        Some(decimal_value(t))
    } else {
        None
    }
}

/// The value of an integer text within `[min, max]`, if it is one.
pub open spec fn value_in(v: Option<int>, min: int, max: int) -> Option<int> {
    match v {
        Some(x) => if min <= x <= max {
            Some(x)
        } else {
            None
        },
        None => None,
    }
}

/// Parses decimal text as an `i8` (`<i8 as FromStr>::from_str`).
///
/// States what the standard library documents: an optional `+` or `-` sign
/// followed by decimal digits, with a value in range.
#[verifier::external_body]
fn parse_i8(t: &Vec<char>) -> (r: Option<i8>)
    ensures
        r == (match value_in(signed_value(t@), i8::MIN as int, i8::MAX as int) {
            Some(x) => Some(x as i8),
            None => None,
        }),
{
    let text: String = t.iter().collect();
    text.parse::<i8>().ok()
}

/// Parses decimal text as an `i64` (`<i64 as FromStr>::from_str`).
///
/// States what the standard library documents: an optional `+` or `-` sign
/// followed by decimal digits, with a value in range.
#[verifier::external_body]
fn parse_i64(t: &Vec<char>) -> (r: Option<i64>)
    ensures
        r == (match value_in(signed_value(t@), i64::MIN as int, i64::MAX as int) {
            Some(x) => Some(x as i64),
            None => None,
        }),
{
    let text: String = t.iter().collect();
    text.parse::<i64>().ok()
}

/// Parses decimal text as a `u8` (`<u8 as FromStr>::from_str`).
///
/// States what the standard library documents: an optional `+` sign followed
/// by decimal digits, with a value in range.
#[verifier::external_body]
fn parse_u8(t: &Vec<char>) -> (r: Option<u8>)
    ensures
        r == (match value_in(unsigned_value(t@), 0, u8::MAX as int) {
            Some(x) => Some(x as u8),
            None => None,
        }),
{
    let text: String = t.iter().collect();
    text.parse::<u8>().ok()
}

/// The key and value of a dataset line: the text before its first whitespace
/// character, and the trimmed text after it. A line without whitespace has
/// none.
pub open spec fn line_entry(line: Seq<char>) -> Option<(Seq<char>, Seq<char>)> {
    match first_whitespace(line) {
        None => None,
        Some(i) => Some((line.subrange(0, i), trim(line.subrange(i + 1, line.len() as int)))),
    }
}

/// The entries of dataset lines, in order.
pub open spec fn line_entries(lines: Seq<Seq<char>>) -> Seq<(Seq<char>, Seq<char>)>
    decreases lines.len(),
{
    if lines.len() == 0 {
        Seq::empty()
    } else {
        match line_entry(lines.last()) {
            Some(e) => line_entries(lines.drop_last()).push(e),
            None => line_entries(lines.drop_last()),
        }
    }
}

/// The value of the last entry with the given key.
pub open spec fn lookup(entries: Seq<(Seq<char>, Seq<char>)>, key: Seq<char>) -> Option<Seq<char>>
    decreases entries.len(),
{
    if entries.len() == 0 {
        None
    } else if entries.last().0 == key {
        Some(entries.last().1)
    } else {
        lookup(entries.drop_last(), key)
    }
}

/// The key-value entries of a dataset block; a later entry for a key hides
/// earlier ones.
pub struct FieldMap {
    entries: Vec<(Vec<char>, Vec<char>)>,
}

/// The models of key-value entries.
pub open spec fn entries_view(v: Seq<(Vec<char>, Vec<char>)>) -> Seq<(Seq<char>, Seq<char>)> {
    Seq::new(v.len(), |i: int| (v[i].0@, v[i].1@))
}

/// The models of lines.
pub open spec fn lines_view(lines: Seq<String>) -> Seq<Seq<char>> {
    Seq::new(lines.len(), |i: int| lines[i]@)
}

impl View for FieldMap {
    type V = Seq<(Seq<char>, Seq<char>)>;

    closed spec fn view(&self) -> Seq<(Seq<char>, Seq<char>)> {
        entries_view(self.entries@)
    }
}

impl FieldMap {
    /// The value of the last entry with the given key.
    pub fn get_chars(&self, key: &str) -> (r: Option<Vec<char>>)
        ensures
            match lookup(self@, key@) {
                Some(v) => r matches Some(x) && x@ == v,
                None => r is None,
            },
    {
        let k = chars_of(key);
        let mut i: usize = self.entries.len();
        assert(self@.subrange(0, i as int) =~= self@);
        while i > 0
            invariant
                i <= self.entries@.len(),
                lookup(self@, key@) == lookup(self@.subrange(0, i as int), key@),
                k@ == key@,
            decreases i,
        {
            let ghost prefix = self@.subrange(0, i as int);
            assert(prefix.drop_last() =~= self@.subrange(0, i - 1));
            assert(prefix.last() == (self.entries@[i - 1].0@, self.entries@[i - 1].1@));
            if chars_eq(&self.entries[i - 1].0, &k) {
                return Some(slice_chars(&self.entries[i - 1].1, 0, self.entries[i - 1].1.len()));
            }
            i -= 1;
        }
        None
    }

    /// The value of the last entry with the given key, as a string.
    pub fn get(&self, key: &str) -> (r: Option<String>)
        ensures
            match lookup(self@, key@) {
                Some(v) => r matches Some(x) && x@ == v,
                None => r is None,
            },
    {
        match self.get_chars(key) {
            Some(v) => Some(string_from_chars(&v)),
            None => None,
        }
    }
}

/// The key-value entries of dataset lines: each line is split into a key and
/// a value at its first whitespace character, the value trimmed; lines without
/// whitespace are skipped.
pub fn to_map(lines: &[String]) -> (r: FieldMap)
    ensures
        r@ == line_entries(lines_view(lines@)),
{
    let mut entries: Vec<(Vec<char>, Vec<char>)> = Vec::new();
    let mut i: usize = 0;
    while i < lines.len()
        invariant
            i <= lines@.len(),
            entries_view(entries@) == line_entries(lines_view(lines@).subrange(0, i as int)),
        decreases lines@.len() - i,
    {
        let ghost before = lines_view(lines@).subrange(0, i as int);
        let ghost after = lines_view(lines@).subrange(0, i + 1);
        assert(after.drop_last() =~= before);
        let line = chars_of(lines[i].as_str());
        assert(after.last() == line@);
        let mut k: usize = 0;
        while k < line.len() && !is_whitespace(line[k])
            invariant
                k <= line@.len(),
                forall|j: int| 0 <= j < k ==> !crate::io::text::unicode_white_space(line@[j]),
            decreases line@.len() - k,
        {
            k += 1;
        }
        proof {
            lemma_first_whitespace(line@, k as int);
        }
        if k < line.len() {
            let key = slice_chars(&line, 0, k);
            let rest = slice_chars(&line, k + 1, line.len());
            let value = trim_chars(&rest);
            entries.push((key, value));
            assert(entries_view(entries@) =~= line_entries(after));
        } else {
            assert(entries_view(entries@) =~= line_entries(after));
        }
        i += 1;
    }
    assert(lines_view(lines@).subrange(0, i as int) =~= lines_view(lines@));
    FieldMap { entries }
}


/// The first whitespace position of text whose first `k` characters are not
/// whitespace and whose `k`-th is, or that has none.
proof fn lemma_first_whitespace(s: Seq<char>, k: int)
    requires
        0 <= k <= s.len(),
        forall|j: int| 0 <= j < k ==> !crate::io::text::unicode_white_space(s[j]),
        k < s.len() ==> crate::io::text::unicode_white_space(s[k]),
    ensures
        first_whitespace(s) == (if k < s.len() {
            Some(k)
        } else {
            None::<int>
        }),
    decreases k,
{
    if k > 0 {
        lemma_first_whitespace(s.drop_first(), k - 1);
    }
}


/// The text of a required field: missing when no entry has its name.
pub open spec fn text_field(m: Seq<(Seq<char>, Seq<char>)>, name: &'static str) -> Result<
    Seq<char>,
    FieldParseError,
> {
    match lookup(m, name@) {
        None => Err(FieldParseError::MissingField(name)),
        Some(v) => Ok(v),
    }
}

/// The value of a required integer field of the given range: missing when no
/// entry has its name, invalid when its text is not an integer in range.
pub open spec fn int_field(
    m: Seq<(Seq<char>, Seq<char>)>,
    name: &'static str,
    signed: bool,
    min: int,
    max: int,
) -> Result<int, FieldParseError> {
    match lookup(m, name@) {
        None => Err(FieldParseError::MissingField(name)),
        Some(v) => match value_in(
            if signed {
                signed_value(v)
            } else {
                unsigned_value(v)
            },
            min,
            max,
        ) {
            Some(x) => Ok(x),
            None => Err(FieldParseError::InvalidField(name)),
        },
    }
}

/// The port dataset (`PORT_DATA_SET`): configuration and state of a PTP port.
#[derive(Debug, Clone)]
pub struct PortDataSet {
    /// Unique identifier of the port.
    pub port_identity: String,
    /// Current state of the port state machine.
    pub port_state: PortState,
    /// Minimum delay request interval (log2 seconds).
    pub log_min_delay_req_interval: i8,
    /// Mean path delay to peer (nanoseconds).
    pub peer_mean_path_delay: i64,
    /// Announce message interval (log2 seconds).
    pub log_announce_interval: i8,
    /// Number of missed announces before timeout.
    pub announce_receipt_timeout: u8,
    /// Sync message interval (log2 seconds).
    pub log_sync_interval: i8,
    /// Delay mechanism in use (typically `1` = E2E, `2` = P2P).
    pub delay_mechanism: u8,
    /// Peer delay request interval (log2 seconds).
    pub log_min_pdelay_req_interval: i8,
    /// PTP version number.
    pub version_number: u8,
}

/// Model of a [`PortDataSet`].
pub struct PortDataSetView {
    pub port_identity: Seq<char>,
    pub port_state: PortStateView,
    pub log_min_delay_req_interval: int,
    pub peer_mean_path_delay: int,
    pub log_announce_interval: int,
    pub announce_receipt_timeout: int,
    pub log_sync_interval: int,
    pub delay_mechanism: int,
    pub log_min_pdelay_req_interval: int,
    pub version_number: int,
}

impl View for PortDataSet {
    type V = PortDataSetView;

    open spec fn view(&self) -> PortDataSetView {
        PortDataSetView {
            port_identity: self.port_identity@,
            port_state: self.port_state@,
            log_min_delay_req_interval: self.log_min_delay_req_interval as int,
            peer_mean_path_delay: self.peer_mean_path_delay as int,
            log_announce_interval: self.log_announce_interval as int,
            announce_receipt_timeout: self.announce_receipt_timeout as int,
            log_sync_interval: self.log_sync_interval as int,
            delay_mechanism: self.delay_mechanism as int,
            log_min_pdelay_req_interval: self.log_min_pdelay_req_interval as int,
            version_number: self.version_number as int,
        }
    }
}

/// The port dataset the entries of a block describe: each field read in
/// order, the first missing or invalid one reported.
pub open spec fn port_data_set_of(m: Seq<(Seq<char>, Seq<char>)>) -> Result<
    PortDataSetView,
    FieldParseError,
> {
    match text_field(m, "portIdentity") {
        Err(e) => Err(e),
        Ok(port_identity) => match text_field(m, "portState") {
            Err(e) => Err(e),
            Ok(state) => match int_field(m, "logMinDelayReqInterval", true, -128, 127) {
                Err(e) => Err(e),
                Ok(a) => match int_field(
                    m,
                    "peerMeanPathDelay",
                    true,
                    i64::MIN as int,
                    i64::MAX as int,
                ) {
                    Err(e) => Err(e),
                    Ok(b) => match int_field(m, "logAnnounceInterval", true, -128, 127) {
                        Err(e) => Err(e),
                        Ok(c) => match int_field(m, "announceReceiptTimeout", false, 0, 255) {
                            Err(e) => Err(e),
                            Ok(d) => match int_field(m, "logSyncInterval", true, -128, 127) {
                                Err(e) => Err(e),
                                Ok(f) => match int_field(m, "delayMechanism", false, 0, 255) {
                                    Err(e) => Err(e),
                                    Ok(g) => match int_field(
                                        m,
                                        "logMinPdelayReqInterval",
                                        true,
                                        -128,
                                        127,
                                    ) {
                                        Err(e) => Err(e),
                                        Ok(h) => match int_field(m, "versionNumber", false, 0, 255) {
                                            Err(e) => Err(e),
                                            Ok(v) => Ok(
                                                PortDataSetView {
                                                    port_identity,
                                                    port_state: port_state_of(state),
                                                    log_min_delay_req_interval: a,
                                                    peer_mean_path_delay: b,
                                                    log_announce_interval: c,
                                                    announce_receipt_timeout: d,
                                                    log_sync_interval: f,
                                                    delay_mechanism: g,
                                                    log_min_pdelay_req_interval: h,
                                                    version_number: v,
                                                },
                                            ),
                                        },
                                    },
                                },
                            },
                        },
                    },
                },
            },
        },
    }
}

/// Each field of a port dataset read from block entries is the value of the
/// entry with its own pmc key: `portIdentity` and `portState` as text,
/// `logMinDelayReqInterval`, `peerMeanPathDelay`, `logAnnounceInterval`,
/// `logSyncInterval` and `logMinPdelayReqInterval` as signed integers,
/// `announceReceiptTimeout`, `delayMechanism` and `versionNumber` as unsigned
/// ones. The dataset is read exactly when every one of these keys has an entry
/// whose text is an integer in the range of its field where one is needed.
pub proof fn lemma_port_data_set_fields(m: Seq<(Seq<char>, Seq<char>)>)
    ensures
        port_data_set_of(m) is Ok <==> ({
            &&& lookup(m, "portIdentity"@) is Some
            &&& lookup(m, "portState"@) is Some
            &&& (lookup(m, "logMinDelayReqInterval"@) matches Some(t) && value_in(
                signed_value(t),
                i8::MIN as int,
                i8::MAX as int,
            ) is Some)
            &&& (lookup(m, "peerMeanPathDelay"@) matches Some(t) && value_in(
                signed_value(t),
                i64::MIN as int,
                i64::MAX as int,
            ) is Some)
            &&& (lookup(m, "logAnnounceInterval"@) matches Some(t) && value_in(
                signed_value(t),
                i8::MIN as int,
                i8::MAX as int,
            ) is Some)
            &&& (lookup(m, "announceReceiptTimeout"@) matches Some(t) && value_in(
                unsigned_value(t),
                0,
                u8::MAX as int,
            ) is Some)
            &&& (lookup(m, "logSyncInterval"@) matches Some(t) && value_in(
                signed_value(t),
                i8::MIN as int,
                i8::MAX as int,
            ) is Some)
            &&& (lookup(m, "delayMechanism"@) matches Some(t) && value_in(
                unsigned_value(t),
                0,
                u8::MAX as int,
            ) is Some)
            &&& (lookup(m, "logMinPdelayReqInterval"@) matches Some(t) && value_in(
                signed_value(t),
                i8::MIN as int,
                i8::MAX as int,
            ) is Some)
            &&& (lookup(m, "versionNumber"@) matches Some(t) && value_in(
                unsigned_value(t),
                0,
                u8::MAX as int,
            ) is Some)
        }),
        port_data_set_of(m) matches Ok(p) ==> ({
            &&& lookup(m, "portIdentity"@) == Some(p.port_identity)
            &&& (lookup(m, "portState"@) matches Some(t) && p.port_state == port_state_of(t))
            &&& (lookup(m, "logMinDelayReqInterval"@) matches Some(t) && signed_value(t) == Some(
                p.log_min_delay_req_interval,
            ))
            &&& (lookup(m, "peerMeanPathDelay"@) matches Some(t) && signed_value(t) == Some(
                p.peer_mean_path_delay,
            ))
            &&& (lookup(m, "logAnnounceInterval"@) matches Some(t) && signed_value(t) == Some(
                p.log_announce_interval,
            ))
            &&& (lookup(m, "announceReceiptTimeout"@) matches Some(t) && unsigned_value(t) == Some(
                p.announce_receipt_timeout,
            ))
            &&& (lookup(m, "logSyncInterval"@) matches Some(t) && signed_value(t) == Some(
                p.log_sync_interval,
            ))
            &&& (lookup(m, "delayMechanism"@) matches Some(t) && unsigned_value(t) == Some(
                p.delay_mechanism,
            ))
            &&& (lookup(m, "logMinPdelayReqInterval"@) matches Some(t) && signed_value(t) == Some(
                p.log_min_pdelay_req_interval,
            ))
            &&& (lookup(m, "versionNumber"@) matches Some(t) && unsigned_value(t) == Some(
                p.version_number,
            ))
        }),
{
}

/// Reads a required text field.
fn field_text(m: &FieldMap, name: &'static str) -> (r: Result<Vec<char>, FieldParseError>)
    ensures
        match text_field(m@, name) {
            Ok(v) => r matches Ok(x) && x@ == v,
            Err(e) => r == Err::<Vec<char>, FieldParseError>(e),
        },
{
    match m.get_chars(name) {
        Some(v) => Ok(v),
        None => Err(FieldParseError::MissingField(name)),
    }
}

/// Reads a required `i8` field.
fn field_i8(m: &FieldMap, name: &'static str) -> (r: Result<i8, FieldParseError>)
    ensures
        match int_field(m@, name, true, -128, 127) {
            Ok(x) => r == Ok::<i8, FieldParseError>(x as i8),
            Err(e) => r == Err::<i8, FieldParseError>(e),
        },
{
    match m.get_chars(name) {
        None => Err(FieldParseError::MissingField(name)),
        Some(v) => match parse_i8(&v) {
            Some(x) => Ok(x),
            None => Err(FieldParseError::InvalidField(name)),
        },
    }
}

/// Reads a required `i64` field.
fn field_i64(m: &FieldMap, name: &'static str) -> (r: Result<i64, FieldParseError>)
    ensures
        match int_field(m@, name, true, i64::MIN as int, i64::MAX as int) {
            Ok(x) => r == Ok::<i64, FieldParseError>(x as i64),
            Err(e) => r == Err::<i64, FieldParseError>(e),
        },
{
    match m.get_chars(name) {
        None => Err(FieldParseError::MissingField(name)),
        Some(v) => match parse_i64(&v) {
            Some(x) => Ok(x),
            None => Err(FieldParseError::InvalidField(name)),
        },
    }
}

/// Reads a required `u8` field.
fn field_u8(m: &FieldMap, name: &'static str) -> (r: Result<u8, FieldParseError>)
    ensures
        match int_field(m@, name, false, 0, 255) {
            Ok(x) => r == Ok::<u8, FieldParseError>(x as u8),
            Err(e) => r == Err::<u8, FieldParseError>(e),
        },
{
    match m.get_chars(name) {
        None => Err(FieldParseError::MissingField(name)),
        Some(v) => match parse_u8(&v) {
            Some(x) => Ok(x),
            None => Err(FieldParseError::InvalidField(name)),
        },
    }
}

impl PortDataSet {
    /// Parses the field lines of a `PORT_DATA_SET` block.
    pub fn parse_block(lines: &[String]) -> (r: Result<PortDataSet, FieldParseError>)
        ensures
            match port_data_set_of(line_entries(lines_view(lines@))) {
                Ok(v) => r matches Ok(p) && p@ == v,
                Err(e) => r matches Err(x) && x == e,
            },
    {
        let map = to_map(lines);
        let port_identity = match field_text(&map, "portIdentity") {
            Ok(v) => string_from_chars(&v),
            Err(e) => return Err(e),
        };
        let state = match field_text(&map, "portState") {
            Ok(v) => string_from_chars(&v),
            Err(e) => return Err(e),
        };
        let port_state = PortState::parse(state.as_str());
        let log_min_delay_req_interval = match field_i8(&map, "logMinDelayReqInterval") {
            Ok(x) => x,
            Err(e) => return Err(e),
        };
        let peer_mean_path_delay = match field_i64(&map, "peerMeanPathDelay") {
            Ok(x) => x,
            Err(e) => return Err(e),
        };
        let log_announce_interval = match field_i8(&map, "logAnnounceInterval") {
            Ok(x) => x,
            Err(e) => return Err(e),
        };
        let announce_receipt_timeout = match field_u8(&map, "announceReceiptTimeout") {
            Ok(x) => x,
            Err(e) => return Err(e),
        };
        let log_sync_interval = match field_i8(&map, "logSyncInterval") {
            Ok(x) => x,
            Err(e) => return Err(e),
        };
        let delay_mechanism = match field_u8(&map, "delayMechanism") {
            Ok(x) => x,
            Err(e) => return Err(e),
        };
        let log_min_pdelay_req_interval = match field_i8(&map, "logMinPdelayReqInterval") {
            Ok(x) => x,
            Err(e) => return Err(e),
        };
        let version_number = match field_u8(&map, "versionNumber") {
            Ok(x) => x,
            Err(e) => return Err(e),
        };
        Ok(
            PortDataSet {
                port_identity,
                port_state,
                log_min_delay_req_interval,
                peer_mean_path_delay,
                log_announce_interval,
                announce_receipt_timeout,
                log_sync_interval,
                delay_mechanism,
                log_min_pdelay_req_interval,
                version_number,
            },
        )
    }
}


/// The pieces of a text between newlines (one more than there are newlines).
pub open spec fn split_newlines(s: Seq<char>) -> Seq<Seq<char>>
    decreases s.len(),
{
    if s.len() == 0 {
        seq![Seq::empty()]
    } else {
        let rest = split_newlines(s.drop_last());
        if s.last() == '\n' {
            rest.push(Seq::empty())
        } else {
            rest.update(rest.len() - 1, rest.last().push(s.last()))
        }
    }
}

/// A dataset response block of `pmc` output: the dataset name and its field
/// lines, trimmed.
pub type BlockView = (Seq<char>, Seq<Seq<char>>);

/// The blocks found so far while scanning `pmc` output, and the block being
/// filled, if any.
pub struct BlockScan {
    pub blocks: Seq<BlockView>,
    pub current: Option<BlockView>,
}

/// Scans one line of `pmc` output: blank lines and `sending:` lines are noise;
/// a line containing `RESPONSE MANAGEMENT` starts a block named by its last
/// word; any other line belongs to the open block, if there is one.
pub open spec fn scan_line(st: BlockScan, raw: Seq<char>) -> BlockScan {
    let t = trim(raw);
    if t.len() == 0 || starts_with(t, "sending:"@) {
        st
    } else if contains(t, "RESPONSE MANAGEMENT"@) {
        BlockScan {
            blocks: match st.current {
                Some(c) => st.blocks.push(c),
                None => st.blocks,
            },
            current: Some((after_last_whitespace(t), Seq::empty())),
        }
    } else {
        match st.current {
            Some(c) => BlockScan { blocks: st.blocks, current: Some((c.0, c.1.push(t))) },
            None => st,
        }
    }
}

/// Scans lines of `pmc` output in order.
pub open spec fn scan_lines(lines: Seq<Seq<char>>) -> BlockScan
    decreases lines.len(),
{
    if lines.len() == 0 {
        BlockScan { blocks: Seq::empty(), current: None }
    } else {
        scan_line(scan_lines(lines.drop_last()), lines.last())
    }
}

/// The dataset response blocks of `pmc` output, in order.
pub open spec fn pmc_blocks(text: Seq<char>) -> Seq<BlockView> {
    let st = scan_lines(split_newlines(text));
    match st.current {
        Some(c) => st.blocks.push(c),
        None => st.blocks,
    }
}

/// A dataset response block of `pmc` output.
pub struct PmcBlock {
    /// The dataset name (e.g. `"PORT_DATA_SET"`).
    pub kind: String,
    /// The block's field lines, trimmed.
    pub lines: Vec<String>,
}

/// The models of blocks.
pub open spec fn pmc_blocks_view(v: Seq<PmcBlock>) -> Seq<BlockView> {
    Seq::new(v.len(), |i: int| (v[i].kind@, lines_view(v[i].lines@)))
}

/// The model of a block.
pub open spec fn block_view(b: PmcBlock) -> BlockView {
    (b.kind@, lines_view(b.lines@))
}

/// The model of an open block, if any.
pub open spec fn open_view(c: Option<PmcBlock>) -> Option<BlockView> {
    match c {
        Some(b) => Some(block_view(b)),
        None => None,
    }
}

/// Scans one line into the blocks and the open block.
fn scan_step(blocks: &mut Vec<PmcBlock>, current: &mut Option<PmcBlock>, raw: &Vec<char>)
    ensures
        scan_line(
            BlockScan { blocks: pmc_blocks_view(old(blocks)@), current: open_view(*old(current)) },
            raw@,
        ) == (BlockScan { blocks: pmc_blocks_view(final(blocks)@), current: open_view(*final(current)) }),
{
    let t = trim_chars(raw);
    let sending = chars_of("sending:");
    let header = chars_of("RESPONSE MANAGEMENT");
    if t.len() == 0 || starts_with_chars(&t, &sending) {
        return;
    }
    if contains_chars(&t, &header) {
        let kind = after_last_whitespace_chars(&t);
        let previous = current.take();
        match previous {
            Some(c) => {
                let ghost cv = block_view(c);
                blocks.push(c);
                assert(pmc_blocks_view(blocks@) =~= pmc_blocks_view(old(blocks)@).push(cv));
            },
            None => {},
        }
        let no_lines: Vec<String> = Vec::new();
        assert(lines_view(no_lines@) =~= Seq::<Seq<char>>::empty());
        *current = Some(PmcBlock { kind: string_from_chars(&kind), lines: no_lines });
    } else {
        match current {
            Some(c) => {
                let ghost before = c.lines@;
                c.lines.push(string_from_chars(&t));
                assert(lines_view(c.lines@) =~= lines_view(before).push(trim(raw@)));
            },
            None => {},
        }
    }
}

/// Splits `pmc` output into its dataset response blocks, in order.
///
/// Lines are trimmed; blank lines and lines starting with `sending:` are
/// skipped. A line containing `RESPONSE MANAGEMENT` starts a block named by
/// its last word, and the lines after it, up to the next such line, belong to
/// that block. Lines before the first block are ignored.
pub fn parse_blocks(text: &str) -> (r: Vec<PmcBlock>)
    ensures
        pmc_blocks_view(r@) == pmc_blocks(text@),
{
    let chars = chars_of(text);
    let mut blocks: Vec<PmcBlock> = Vec::new();
    let mut current: Option<PmcBlock> = None;
    let mut piece: Vec<char> = Vec::new();
    let ghost mut done: Seq<Seq<char>> = Seq::empty();
    assert(pmc_blocks_view(blocks@) =~= Seq::<BlockView>::empty());
    assert(chars@.subrange(0, 0) =~= Seq::<char>::empty());
    assert(done.push(piece@) =~= split_newlines(chars@.subrange(0, 0)));
    let mut i: usize = 0;
    while i < chars.len()
        invariant
            i <= chars@.len(),
            chars@ == text@,
            done.push(piece@) == split_newlines(chars@.subrange(0, i as int)),
            scan_lines(done) == (BlockScan {
                blocks: pmc_blocks_view(blocks@),
                current: open_view(current),
            }),
        decreases chars@.len() - i,
    {
        let c = chars[i];
        let ghost after = chars@.subrange(0, i + 1);
        assert(after.drop_last() =~= chars@.subrange(0, i as int));
        assert(after.last() == c);
        if c == '\n' {
            scan_step(&mut blocks, &mut current, &piece);
            proof {
                assert(done.push(piece@).drop_last() =~= done);
                done = done.push(piece@);
            }
            piece = Vec::new();
            assert(done.push(piece@) =~= split_newlines(after));
        } else {
            piece.push(c);
            assert(done.push(piece@) =~= split_newlines(after));
        }
        i += 1;
    }
    scan_step(&mut blocks, &mut current, &piece);
    proof {
        assert(chars@.subrange(0, i as int) =~= chars@);
        assert(done.push(piece@).drop_last() =~= done);
    }
    match current {
        Some(c) => {
            let ghost before = pmc_blocks_view(blocks@);
            let ghost cv = block_view(c);
            blocks.push(c);
            assert(pmc_blocks_view(blocks@) =~= before.push(cv));
        },
        None => {},
    }
    blocks
}


/// The datasets a PTP snapshot is assembled from.
#[derive(Debug, Clone, Copy, PartialEq, Eq, Structural)]
pub enum Dataset {
    /// `TIME_STATUS_NP`.
    TimeStatusNp,
    /// `PORT_DATA_SET`.
    PortDataSet,
    /// `CURRENT_DATA_SET`.
    CurrentDataSet,
}

/// The name of a dataset in `pmc` output.
pub open spec fn dataset_name(d: Dataset) -> &'static str {
    match d {
        Dataset::TimeStatusNp => "TIME_STATUS_NP",
        Dataset::PortDataSet => "PORT_DATA_SET",
        Dataset::CurrentDataSet => "CURRENT_DATA_SET",
    }
}

/// The dataset a block name stands for, if it is one a snapshot uses.
pub open spec fn dataset_of(kind: Seq<char>) -> Option<Dataset> {
    if kind == "TIME_STATUS_NP"@ {
        Some(Dataset::TimeStatusNp)
    } else if kind == "PORT_DATA_SET"@ {
        Some(Dataset::PortDataSet)
    } else if kind == "CURRENT_DATA_SET"@ {
        Some(Dataset::CurrentDataSet)
    } else {
        None
    }
}

impl Dataset {
    /// The name of the dataset in `pmc` output.
    pub fn name(self) -> (r: &'static str)
        ensures
            r == dataset_name(self),
    {
        match self {
            Dataset::TimeStatusNp => "TIME_STATUS_NP",
            Dataset::PortDataSet => "PORT_DATA_SET",
            Dataset::CurrentDataSet => "CURRENT_DATA_SET",
        }
    }

    /// The dataset a block name stands for, if it is one a snapshot uses.
    pub fn from_kind(kind: &str) -> (r: Option<Dataset>)
        ensures
            r == dataset_of(kind@),
    {
        let k = chars_of(kind);
        if chars_are(&k, "TIME_STATUS_NP") {
            Some(Dataset::TimeStatusNp)
        } else if chars_are(&k, "PORT_DATA_SET") {
            Some(Dataset::PortDataSet)
        } else if chars_are(&k, "CURRENT_DATA_SET") {
            Some(Dataset::CurrentDataSet)
        } else {
            None
        }
    }

    /// The error of a dataset whose block failed to parse.
    pub fn parse_error(self, field_err: FieldParseError) -> (r: SnapshotParseError)
        ensures
            r == SnapshotParseError::DatasetError(
                DatasetParseError { dataset: dataset_name(self), field_err },
            ),
    {
        SnapshotParseError::DatasetError(DatasetParseError { dataset: self.name(), field_err })
    }
}

/// Which datasets the blocks of `pmc` output have provided so far.
///
/// Blocks are taken in order: each dataset may come once; blocks of other
/// names are ignored; at the end every dataset must have come.
#[derive(Debug, Clone, Copy)]
pub struct SnapshotAssembly {
    time_status: bool,
    port_data: bool,
    current_data: bool,
}

impl SnapshotAssembly {
    /// Whether a dataset has been provided.
    pub closed spec fn seen(self, d: Dataset) -> bool {
        match d {
            Dataset::TimeStatusNp => self.time_status,
            Dataset::PortDataSet => self.port_data,
            Dataset::CurrentDataSet => self.current_data,
        }
    }

    /// No dataset provided yet.
    pub fn new() -> (r: Self)
        ensures
            forall|d: Dataset| !r.seen(d),
    {
        SnapshotAssembly { time_status: false, port_data: false, current_data: false }
    }

    /// Takes the next block by its name: `Ok(Some(d))` when its dataset `d` is
    /// to be parsed from it, `Ok(None)` when it is to be ignored, and
    /// [`SnapshotParseError::DuplicateDataset`] when its dataset came before.
    pub fn on_block(&mut self, kind: &str) -> (r: Result<Option<Dataset>, SnapshotParseError>)
        ensures
            match dataset_of(kind@) {
                None => r == Ok::<Option<Dataset>, SnapshotParseError>(None) && *final(self)
                    == *old(self),
                Some(d) => if old(self).seen(d) {
                    r == Err::<Option<Dataset>, SnapshotParseError>(
                        SnapshotParseError::DuplicateDataset(dataset_name(d)),
                    ) && *final(self) == *old(self)
                } else {
                    &&& r == Ok::<Option<Dataset>, SnapshotParseError>(Some(d))
                    &&& final(self).seen(d)
                    &&& forall|o: Dataset| o != d ==> final(self).seen(o) == old(self).seen(o)
                },
            },
    {
        let d = match Dataset::from_kind(kind) {
            None => return Ok(None),
            Some(d) => d,
        };
        let seen = match d {
            Dataset::TimeStatusNp => self.time_status,
            Dataset::PortDataSet => self.port_data,
            Dataset::CurrentDataSet => self.current_data,
        };
        if seen {
            return Err(SnapshotParseError::DuplicateDataset(d.name()));
        }
        match d {
            Dataset::TimeStatusNp => self.time_status = true,
            Dataset::PortDataSet => self.port_data = true,
            Dataset::CurrentDataSet => self.current_data = true,
        }
        Ok(Some(d))
    }

    /// Checks that every dataset came, reporting the first missing one in the
    /// order `TIME_STATUS_NP`, `PORT_DATA_SET`, `CURRENT_DATA_SET`.
    pub fn finish(&self) -> (r: Result<(), SnapshotParseError>)
        ensures
            !self.seen(Dataset::TimeStatusNp) ==> r == Err::<(), SnapshotParseError>(
                SnapshotParseError::MissingDataset("TIME_STATUS_NP"),
            ),
            self.seen(Dataset::TimeStatusNp) && !self.seen(Dataset::PortDataSet) ==> r == Err::<
                (),
                SnapshotParseError,
            >(SnapshotParseError::MissingDataset("PORT_DATA_SET")),
            self.seen(Dataset::TimeStatusNp) && self.seen(Dataset::PortDataSet) && !self.seen(
                Dataset::CurrentDataSet,
            ) ==> r == Err::<(), SnapshotParseError>(
                SnapshotParseError::MissingDataset("CURRENT_DATA_SET"),
            ),
            r is Ok <==> (forall|d: Dataset| self.seen(d)),
    {
        if !self.time_status {
            assert(!self.seen(Dataset::TimeStatusNp));
            return Err(SnapshotParseError::MissingDataset("TIME_STATUS_NP"));
        }
        if !self.port_data {
            assert(!self.seen(Dataset::PortDataSet));
            return Err(SnapshotParseError::MissingDataset("PORT_DATA_SET"));
        }
        if !self.current_data {
            assert(!self.seen(Dataset::CurrentDataSet));
            return Err(SnapshotParseError::MissingDataset("CURRENT_DATA_SET"));
        }
        assert forall|d: Dataset| self.seen(d) by {
            match d {
                Dataset::TimeStatusNp => {},
                Dataset::PortDataSet => {},
                Dataset::CurrentDataSet => {},
            }
        }
        Ok(())
    }
}

} // verus!
