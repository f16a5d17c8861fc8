//! Domain model for one machine's status: the raw record as the
//! remote service encodes it, the decoders that validate its quirky
//! scalars (tri-state booleans, `H:M` durations), and the derivation
//! of one mutually-exclusive machine state.

use vstd::prelude::*;

use crate::text::{all_digits, digits_value, parse_digits};

verus! {

/// A boolean as the remote service encodes it on the wire: `0` is
/// false, `1` is true, and any other byte is preserved as-is so that
/// collaborators (metrics) can observe out-of-band codes without the
/// system rejecting the record outright.
#[derive(Debug, Clone, Copy, PartialEq, Eq, Structural)]
pub enum NumberBool {
    False,
    True,
    Unknown(u8),
}

/// A non-negative user identifier; `0` conventionally denotes "no
/// user".
#[derive(Debug, Clone, Copy, PartialEq, Eq, Structural)]
pub struct UserId(pub u32);

/// A remaining running time, decoded from the service's `H:M` wire
/// shape and held as whole seconds.
#[derive(Debug, Clone, Copy, PartialEq, Eq, Structural)]
pub struct RemainingTime(pub u64);

/// A malformed scalar on the wire: format drift in the status feed.
#[derive(Debug, Clone, Copy, PartialEq, Eq, Structural)]
pub enum DecodeError {
    /// An integer standing for a tri-state boolean did not fit in one
    /// byte; the offending value is carried for diagnostics.
    TriBoolOutOfRange(u64),
    /// A duration string had no `:` separator.
    MissingColon,
    /// More than two characters before the `:` of a duration.
    TooLongHours,
    /// More than two characters after the `:` of a duration.
    TooLongMinutes,
    /// The hours part of a duration was not made of decimal digits.
    BadHours,
    /// The minutes part of a duration was not made of decimal digits.
    BadMinutes,
}

/// What decoding a one-byte tri-state boolean yields: total on bytes.
pub open spec fn spec_number_bool_from_byte(v: u8) -> NumberBool {
    if v == 0 {
        NumberBool::False
    } else if v == 1 {
        NumberBool::True
    } else {
        NumberBool::Unknown(v)
    }
}

/// The byte a tri-state boolean encodes back to.
pub open spec fn spec_number_bool_to_byte(v: NumberBool) -> u8 {
    match v {
        NumberBool::False => 0,
        NumberBool::True => 1,
        NumberBool::Unknown(b) => b,
    }
}

/// What decoding a wide integer as a tri-state boolean yields: every
/// width funnels to the same byte-range check.
pub open spec fn spec_decode_number_bool(v: u64) -> Result<NumberBool, DecodeError> {
    if v <= 255 {
        Ok(spec_number_bool_from_byte(v as u8))
    } else {
        Err(DecodeError::TriBoolOutOfRange(v))
    }
}

impl From<u8> for NumberBool {
    /// `0` and `1` are the definite values; any other byte is kept as
    /// `Unknown`.
    fn from(value: u8) -> Self {
        match value {
            0 => NumberBool::False,
            1 => NumberBool::True,
            _ => NumberBool::Unknown(value),
        }
    }
}

impl vstd::std_specs::convert::FromSpecImpl<u8> for NumberBool {
    open spec fn obeys_from_spec() -> bool {
        true
    }

    open spec fn from_spec(v: u8) -> Self {
        spec_number_bool_from_byte(v)
    }
}

impl From<NumberBool> for u8 {
    /// The wire byte of a tri-state boolean: the raw code survives a
    /// round trip unchanged.
    fn from(value: NumberBool) -> Self {
        match value {
            NumberBool::False => 0,
            NumberBool::True => 1,
            NumberBool::Unknown(unknown) => unknown,
        }
    }
}

impl vstd::std_specs::convert::FromSpecImpl<NumberBool> for u8 {
    open spec fn obeys_from_spec() -> bool {
        true
    }

    open spec fn from_spec(v: NumberBool) -> Self {
        spec_number_bool_to_byte(v)
    }
}

impl NumberBool {
    /// Decodes an integer wire representation of any width into a
    /// tri-state boolean.  A value that exceeds one byte is itself a
    /// decode error; within a byte, decoding never fails.
    pub fn decode(value: u64) -> (r: Result<NumberBool, DecodeError>)
        ensures
            r == spec_decode_number_bool(value),
    {
        if value <= 255 {
            #[allow(clippy::cast_possible_truncation)]
            let byte: u8 = value as u8;
            Ok(NumberBool::from(byte))
        } else {
            Err(DecodeError::TriBoolOutOfRange(value))
        }
    }

    /// The definite boolean a tri-state value stands for, or the raw
    /// out-of-band byte when there is none.
    pub fn as_bool(self) -> (r: Result<bool, u8>)
        ensures
            self is False ==> r == Ok::<bool, u8>(false),
            self is True ==> r == Ok::<bool, u8>(true),
            forall|b: u8| self == NumberBool::Unknown(b) ==> r == Err::<bool, u8>(b),
    {
        match self {
            NumberBool::False => Ok(false),
            NumberBool::True => Ok(true),
            NumberBool::Unknown(unknown) => Err(unknown),
        }
    }
}

/// Decoding a byte as a tri-state boolean is total: `0` and `1` map to
/// the definite values and every other byte is preserved as `Unknown`.
pub proof fn lemma_number_bool_byte_total(b: u8)
    ensures
        b == 0 ==> spec_decode_number_bool(b as u64) == Ok::<NumberBool, DecodeError>(
            NumberBool::False,
        ),
        b == 1 ==> spec_decode_number_bool(b as u64) == Ok::<NumberBool, DecodeError>(
            NumberBool::True,
        ),
        b != 0 && b != 1 ==> spec_decode_number_bool(b as u64) == Ok::<NumberBool, DecodeError>(
            NumberBool::Unknown(b),
        ),
{
}

/// The raw wire byte survives a round trip through the tri-state
/// type unchanged, so metrics report exactly the code the service
/// sent.
pub proof fn lemma_number_bool_preserves_wire_byte(b: u8)
    ensures
        spec_number_bool_to_byte(spec_number_bool_from_byte(b)) == b,
{
}

/// The index of the first `:` in the sequence, or its length when
/// there is none.
pub open spec fn find_colon(s: Seq<char>) -> int
    decreases s.len(),
{
    if s.len() == 0 {
        0
    } else if s[0] == ':' {
        0
    } else {
        1 + find_colon(s.skip(1))
    }
}

/// What decoding a duration of the wire shape `H{1,2}:M{1,2}` yields,
/// in seconds.  The string splits at its first `:`; each side must be
/// one or two ASCII digits and nothing else — no sign, no whitespace;
/// there is no seconds field and no day field.
pub open spec fn spec_parse_duration(s: Seq<char>) -> Result<u64, DecodeError> {
    let i = find_colon(s);
    if i == s.len() {
        Err(DecodeError::MissingColon)
    } else {
        let hs = s.take(i);
        let ms = s.skip(i + 1);
        if hs.len() > 2 {
            Err(DecodeError::TooLongHours)
        } else if ms.len() > 2 {
            Err(DecodeError::TooLongMinutes)
        } else if hs.len() == 0 || !all_digits(hs) {
            Err(DecodeError::BadHours)
        } else if ms.len() == 0 || !all_digits(ms) {
            Err(DecodeError::BadMinutes)
        } else {
            Ok((3600 * digits_value(hs) + 60 * digits_value(ms)) as u64)
        }
    }
}

proof fn lemma_find_colon_at(s: Seq<char>, i: int)
    requires
        0 <= i <= s.len(),
        forall|j: int| 0 <= j < i ==> s[j] != ':',
        i == s.len() || s[i] == ':',
    ensures
        find_colon(s) == i,
    decreases i,
{
    if i > 0 {
        lemma_find_colon_at(s.skip(1), i - 1);
    }
}

impl RemainingTime {
    /// The decoded remaining time, as whole seconds.
    pub open spec fn spec_secs(self) -> u64 {
        self.0
    }

    /// A remaining time of exactly the given seconds.
    pub fn from_secs(secs: u64) -> (r: RemainingTime)
        ensures
            r.spec_secs() == secs,
    {
        RemainingTime(secs)
    }

    /// The held seconds, consuming the value.
    pub fn into_inner(self) -> (r: u64)
        ensures
            r == self.spec_secs(),
    {
        self.0
    }

    /// The held seconds, by reference.
    pub fn inner(&self) -> (r: &u64)
        ensures
            *r == self.spec_secs(),
    {
        &self.0
    }

    /// Decodes a duration from the exact wire shape `H{1,2}:M{1,2}` —
    /// one or two ASCII digits, a colon, one or two ASCII digits, and
    /// nothing else — into `hours * 3600 + minutes * 60` seconds.
    /// More than two characters on either side of the `:` is an
    /// explicit format error, never silently truncated; a sign or
    /// stray whitespace in a field is rejected, not tolerated.
    pub fn parse(s: &str) -> (r: Result<RemainingTime, DecodeError>)
        ensures
            (match (r, spec_parse_duration(s@)) {
                (Ok(t), Ok(secs)) => t.spec_secs() == secs,
                (Err(actual), Err(expected)) => actual == expected,
                _ => false,
            }),
    {
        let len = s.unicode_len();
        let mut i: usize = 0;
        while i < len && s.get_char(i) != ':'
            invariant
                0 <= i <= len,
                len == s@.len(),
                forall|j: int| 0 <= j < i ==> s@[j] != ':',
            decreases len - i,
        {
            i = i + 1;
        }
        proof {
            lemma_find_colon_at(s@, i as int);
        }
        if i == len {
            return Err(DecodeError::MissingColon);
        }
        let hours_part = s.substring_char(0, i);
        let minutes_part = s.substring_char(i + 1, len);
        assert(hours_part@ =~= s@.take(i as int));
        assert(minutes_part@ =~= s@.skip(i + 1));
        if i > 2 {
            return Err(DecodeError::TooLongHours);
        }
        if len - i - 1 > 2 {
            return Err(DecodeError::TooLongMinutes);
        }
        proof {
            if hours_part@.len() > 0 && all_digits(hours_part@) {
                lemma_two_digits_at_most_99(hours_part@);
            }
            if minutes_part@.len() > 0 && all_digits(minutes_part@) {
                lemma_two_digits_at_most_99(minutes_part@);
            }
        }
        let hours: u32 = match parse_digits(hours_part) {
            Some(h) => h,
            None => {
                return Err(DecodeError::BadHours);
            },
        };
        let minutes: u32 = match parse_digits(minutes_part) {
            Some(m) => m,
            None => {
                return Err(DecodeError::BadMinutes);
            },
        };
        Ok(RemainingTime(3600 * (hours as u64) + 60 * (minutes as u64)))
    }
}

/// The value of a digit string of at most two digits is at most 99.
proof fn lemma_two_digits_at_most_99(s: Seq<char>)
    requires
        all_digits(s),
        s.len() <= 2,
    ensures
        s.len() == 0 ==> digits_value(s) == 0,
        s.len() == 1 ==> digits_value(s) <= 9,
        digits_value(s) <= 99,
    decreases s.len(),
{
    if s.len() > 0 {
        let front = s.drop_last();
        assert forall|i: int| 0 <= i < front.len() implies crate::text::is_digit(
            #[trigger] front[i],
        ) by {
            assert(front[i] == s[i]);
        }
        lemma_two_digits_at_most_99(front);
        assert(s.last() == s[s.len() - 1]);
        assert(crate::text::is_digit(s.last()));
        assert(crate::text::digit_val(s.last()) <= 9);
    }
}

/// Decoding a well-shaped duration `H:M`, with one or two digits on
/// each side of the colon, yields exactly `h * 3600 + m * 60` seconds,
/// where `h` and `m` are the digit values (each at most 99).
pub proof fn lemma_duration_decode_ok(hs: Seq<char>, ms: Seq<char>)
    requires
        1 <= hs.len() <= 2,
        1 <= ms.len() <= 2,
        all_digits(hs),
        all_digits(ms),
    ensures
        digits_value(hs) <= 99,
        digits_value(ms) <= 99,
        spec_parse_duration(hs + seq![':'] + ms) == Ok::<u64, DecodeError>(
            (3600 * digits_value(hs) + 60 * digits_value(ms)) as u64,
        ),
{
    let s = hs + seq![':'] + ms;
    lemma_two_digits_at_most_99(hs);
    lemma_two_digits_at_most_99(ms);
    assert forall|j: int| 0 <= j < hs.len() implies s[j] != ':' by {
        assert(s[j] == hs[j]);
        assert(crate::text::is_digit(hs[j]));
    }
    lemma_find_colon_at(s, hs.len() as int);
    assert(s.take(hs.len() as int) =~= hs);
    assert(s.skip(hs.len() as int + 1) =~= ms);
}

/// A duration string without a colon is rejected, and a duration with
/// more than two characters before its first colon is rejected.
pub proof fn lemma_duration_decode_rejects(s: Seq<char>)
    ensures
        (forall|j: int| 0 <= j < s.len() ==> s[j] != ':') ==> spec_parse_duration(s) == Err::<
            u64,
            DecodeError,
        >(DecodeError::MissingColon),
        (find_colon(s) > 2 && find_colon(s) < s.len()) ==> spec_parse_duration(s) == Err::<
            u64,
            DecodeError,
        >(DecodeError::TooLongHours),
        (find_colon(s) <= 2 && find_colon(s) < s.len() && s.len() - find_colon(s) - 1 > 2)
            ==> spec_parse_duration(s) == Err::<u64, DecodeError>(DecodeError::TooLongMinutes),
        (find_colon(s) <= 2 && find_colon(s) < s.len() && s.len() - find_colon(s) - 1 <= 2 && (
        find_colon(s) == 0 || !all_digits(s.take(find_colon(s))))) ==> spec_parse_duration(s)
            == Err::<u64, DecodeError>(DecodeError::BadHours),
        (1 <= find_colon(s) <= 2 && find_colon(s) < s.len() && s.len() - find_colon(s) - 1 <= 2
            && all_digits(s.take(find_colon(s))) && (s.len() - find_colon(s) - 1 == 0
            || !all_digits(s.skip(find_colon(s) + 1)))) ==> spec_parse_duration(s) == Err::<
            u64,
            DecodeError,
        >(DecodeError::BadMinutes),
{
    if forall|j: int| 0 <= j < s.len() ==> s[j] != ':' {
        lemma_find_colon_at(s, s.len() as int);
    }
    lemma_find_colon_bounds(s);
    let i = find_colon(s);
    if i < s.len() {
        assert(s.take(i).len() == i);
        assert(s.skip(i + 1).len() == s.len() - i - 1);
    }
}

proof fn lemma_find_colon_bounds(s: Seq<char>)
    ensures
        0 <= find_colon(s) <= s.len(),
    decreases s.len(),
{
    if s.len() > 0 && s[0] != ':' {
        lemma_find_colon_bounds(s.skip(1));
    }
}

/// One machine's record in the status feed, with every scalar decoded
/// but no cross-field validation yet.  The unknown `controller_logic`
/// field is passed through opaquely.
#[derive(Debug, Clone, Copy, PartialEq, Eq, Structural)]
pub struct JsonMachineStatus {
    pub running: bool,
    pub starter: UserId,
    pub reserved: bool,
    pub reserver: UserId,
    pub in_maintenance: NumberBool,
    pub remaining_time: RemainingTime,
    pub gateway_offline: NumberBool,
    pub remaining_time_is_from_machine: NumberBool,
    pub controller_logic: u32,
}

/// The one mutually-exclusive state a machine is in, derived from a
/// raw record's `(running, reserved, in_maintenance)` triple.
#[derive(Debug, Clone, Copy, PartialEq, Eq, Structural)]
pub enum MachineState {
    Running { starter: UserId, remaining_time: RemainingTime, remaining_time_is_from_machine: NumberBool },
    Reserved { reserver: UserId },
    Maintenance,
    Idle,
}

/// Why a raw record admits no machine state.
#[derive(Debug, Clone, Copy, PartialEq, Eq, Structural)]
pub enum FromMachineStatusError {
    /// `in_maintenance` carried a code outside `{0, 1}`; the raw byte
    /// is surfaced for diagnostics.
    UnknownNumberBool(u8),
    /// The `(running, reserved, in_maintenance)` triple contradicts
    /// the state table (for instance, running and reserved at once).
    BadInvariant { running: bool, reserved: bool, in_maintenance: NumberBool },
}

/// The state-derivation table.  Exactly four triples succeed:
/// `(true, false, False)` is `Running`, `(false, true, False)` is
/// `Reserved`, `(false, false, True)` is `Maintenance`, and
/// `(false, false, False)` is `Idle`.  An unknown `in_maintenance`
/// code fails with that code; every other triple is contradictory.
pub open spec fn spec_derive_state(status: JsonMachineStatus) -> Result<
    MachineState,
    FromMachineStatusError,
> {
    match status.in_maintenance {
        NumberBool::Unknown(b) => Err(FromMachineStatusError::UnknownNumberBool(b)),
        NumberBool::False => if status.running && !status.reserved {
            Ok(MachineState::Running {
                starter: status.starter,
                remaining_time: status.remaining_time,
                remaining_time_is_from_machine: status.remaining_time_is_from_machine,
            })
        } else if !status.running && status.reserved {
            Ok(MachineState::Reserved { reserver: status.reserver })
        } else if !status.running && !status.reserved {
            Ok(MachineState::Idle)
        } else {
            Err(FromMachineStatusError::BadInvariant {
                running: status.running,
                reserved: status.reserved,
                in_maintenance: status.in_maintenance,
            })
        },
        NumberBool::True => if !status.running && !status.reserved {
            Ok(MachineState::Maintenance)
        } else {
            Err(FromMachineStatusError::BadInvariant {
                running: status.running,
                reserved: status.reserved,
                in_maintenance: status.in_maintenance,
            })
        },
    }
}

impl MachineState {
    /// Derives the one state a raw record is in, deciding purely on
    /// the `(running, reserved, in_maintenance)` triple.  A failure is
    /// per-record: callers must not let one malformed record block the
    /// others.
    pub fn try_from(status: &JsonMachineStatus) -> (r: Result<
        MachineState,
        FromMachineStatusError,
    >)
        ensures
            r == spec_derive_state(*status),
    {
        match (status.running, status.reserved, status.in_maintenance) {
            (_, _, NumberBool::Unknown(b)) => Err(FromMachineStatusError::UnknownNumberBool(b)),
            (true, false, NumberBool::False) => Ok(MachineState::Running {
                starter: status.starter,
                remaining_time: status.remaining_time,
                remaining_time_is_from_machine: status.remaining_time_is_from_machine,
            }),
            (false, true, NumberBool::False) => Ok(MachineState::Reserved {
                reserver: status.reserver,
            }),
            (false, false, NumberBool::True) => Ok(MachineState::Maintenance),
            (false, false, NumberBool::False) => Ok(MachineState::Idle),
            (running, reserved, in_maintenance) => Err(FromMachineStatusError::BadInvariant {
                running,
                reserved,
                in_maintenance,
            }),
        }
    }
}

/// State derivation is total and mutually exclusive: it succeeds on
/// exactly the four triples of the state table, fails with the raw
/// code whenever `in_maintenance` is unknown, and fails as
/// contradictory on every remaining triple.
pub proof fn lemma_derive_state_classification(status: JsonMachineStatus)
    ensures
        spec_derive_state(status) is Ok <==> ((status.in_maintenance == NumberBool::False && (
        status.running != status.reserved || !status.running)) || (status.in_maintenance
            == NumberBool::True && !status.running && !status.reserved)),
        spec_derive_state(status) == Ok::<MachineState, FromMachineStatusError>(
            MachineState::Idle,
        ) <==> (!status.running && !status.reserved && status.in_maintenance == NumberBool::False),
        spec_derive_state(status) == Ok::<MachineState, FromMachineStatusError>(
            MachineState::Maintenance,
        ) <==> (!status.running && !status.reserved && status.in_maintenance == NumberBool::True),
        (spec_derive_state(status) is Ok && spec_derive_state(status).unwrap() is Running) <==> (
        status.running && !status.reserved && status.in_maintenance == NumberBool::False),
        (spec_derive_state(status) is Ok && spec_derive_state(status).unwrap() is Reserved) <==> (
        !status.running && status.reserved && status.in_maintenance == NumberBool::False),
        (status.in_maintenance is Unknown) ==> spec_derive_state(status) == Err::<
            MachineState,
            FromMachineStatusError,
        >(FromMachineStatusError::UnknownNumberBool(spec_number_bool_to_byte(status.in_maintenance))),
{
}

/// A machine's validated state paired with the raw record it was
/// derived from, so collaborators that need raw numeric fields are
/// never blocked by the derivation.
#[derive(Debug, Clone, Copy, PartialEq, Eq, Structural)]
pub struct MachineStatus {
    pub state: MachineState,
    pub raw: JsonMachineStatus,
}

/// One machine's record exactly as the status feed carries it, before
/// any validation: tri-state booleans still as wire integers and the
/// remaining time still as its `H:M` string.  The transport layer
/// fills this from the feed's JSON object, field for field.
#[derive(Debug, Clone, PartialEq, Eq)]
pub struct RawMachineStatus {
    pub running: bool,
    pub starter: u32,
    pub reserved: bool,
    pub reserver: u32,
    pub in_maintenance: u64,
    pub remaining_time: String,
    pub gateway_offline: u64,
    pub remaining_time_is_from_machine: u64,
    pub controller_logic: u32,
}

/// Mathematical image of a [`RawMachineStatus`].
pub struct RawMachineStatusView {
    pub running: bool,
    pub starter: u32,
    pub reserved: bool,
    pub reserver: u32,
    pub in_maintenance: u64,
    pub remaining_time: Seq<char>,
    pub gateway_offline: u64,
    pub remaining_time_is_from_machine: u64,
    pub controller_logic: u32,
}

impl View for RawMachineStatus {
    type V = RawMachineStatusView;

    open spec fn view(&self) -> RawMachineStatusView {
        RawMachineStatusView {
            running: self.running,
            starter: self.starter,
            reserved: self.reserved,
            reserver: self.reserver,
            in_maintenance: self.in_maintenance,
            remaining_time: self.remaining_time@,
            gateway_offline: self.gateway_offline,
            remaining_time_is_from_machine: self.remaining_time_is_from_machine,
            controller_logic: self.controller_logic,
        }
    }
}

/// What decoding a raw record yields: the three tri-state fields and
/// the duration are validated in declaration order, the first
/// malformed scalar wins, and every other field is carried over
/// unchanged (`controller_logic` opaquely).
pub open spec fn spec_decode_status(raw: RawMachineStatusView) -> Result<
    JsonMachineStatus,
    DecodeError,
> {
    match spec_decode_number_bool(raw.in_maintenance) {
        Err(e) => Err(e),
        Ok(in_maintenance) => match spec_parse_duration(raw.remaining_time) {
            Err(e) => Err(e),
            Ok(secs) => match spec_decode_number_bool(raw.gateway_offline) {
                Err(e) => Err(e),
                Ok(gateway_offline) => match spec_decode_number_bool(
                    raw.remaining_time_is_from_machine,
                ) {
                    Err(e) => Err(e),
                    Ok(remaining_time_is_from_machine) => Ok(
                        JsonMachineStatus {
                            running: raw.running,
                            starter: UserId(raw.starter),
                            reserved: raw.reserved,
                            reserver: UserId(raw.reserver),
                            in_maintenance,
                            remaining_time: RemainingTime(secs),
                            gateway_offline,
                            remaining_time_is_from_machine,
                            controller_logic: raw.controller_logic,
                        },
                    ),
                },
            },
        },
    }
}

/// Validates one raw record's scalars into a decoded record, ready
/// for state derivation.
pub fn decode_machine_status(raw: &RawMachineStatus) -> (r: Result<JsonMachineStatus, DecodeError>)
    ensures
        r == spec_decode_status(raw@),
{
    let in_maintenance = match NumberBool::decode(raw.in_maintenance) {
        Err(e) => {
            return Err(e);
        },
        Ok(v) => v,
    };
    let remaining_time = match RemainingTime::parse(raw.remaining_time.as_str()) {
        Err(e) => {
            return Err(e);
        },
        Ok(v) => v,
    };
    let gateway_offline = match NumberBool::decode(raw.gateway_offline) {
        Err(e) => {
            return Err(e);
        },
        Ok(v) => v,
    };
    let remaining_time_is_from_machine = match NumberBool::decode(
        raw.remaining_time_is_from_machine,
    ) {
        Err(e) => {
            return Err(e);
        },
        Ok(v) => v,
    };
    Ok(
        JsonMachineStatus {
            running: raw.running,
            starter: UserId(raw.starter),
            reserved: raw.reserved,
            reserver: UserId(raw.reserver),
            in_maintenance,
            remaining_time,
            gateway_offline,
            remaining_time_is_from_machine,
            controller_logic: raw.controller_logic,
        },
    )
}

} // verus!
