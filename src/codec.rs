use vstd::prelude::*;
use vstd::bytes::{
    spec_u32_from_le_bytes, spec_u64_from_le_bytes, spec_u64_to_le_bytes, u32_from_le_bytes,
    u64_from_le_bytes, u64_to_le_bytes,
};
use vstd::slice::slice_subrange;

use crate::calendar::{day_in_calendar, date_time_text, Date};
use crate::codepage::{
    decode_in, decoded_text, encode_in, encoded_text, encoding_known, label_is_known, MAX_TEXT_BYTES,
};
use crate::error::DbfError;

verus! {

/// The value of a 64-bit two's complement pattern.
pub open spec fn signed64(u: u64) -> int {
    if u < 0x8000_0000_0000_0000 {
        u as int
    } else {
        u - 0x1_0000_0000_0000_0000
    }
}

/// The value of a 32-bit two's complement pattern.
pub open spec fn signed32(u: u32) -> int {
    if u < 0x8000_0000 {
        u as int
    } else {
        u - 0x1_0000_0000
    }
}

/// The 64-bit two's complement pattern of a value.
pub open spec fn pattern64(v: int) -> u64 {
    if v >= 0 {
        v as u64
    } else {
        (v + 0x1_0000_0000_0000_0000) as u64
    }
}

/// The character of a decimal digit.
pub open spec fn digit_char(d: int) -> char {
    (48 + d) as char
}

/// The decimal numeral of `n`, without leading zeros.
pub open spec fn decimal_text(n: nat) -> Seq<char>
    decreases n,
{
    if n < 10 {
        seq![digit_char(n as int)]
    } else {
        decimal_text(n / 10).push(digit_char((n % 10) as int))
    }
}

/// `n` below 10,000 as exactly four digits.
pub open spec fn four_digits(n: nat) -> Seq<char> {
    seq![
        digit_char((n / 1000) as int),
        digit_char(((n / 100) % 10) as int),
        digit_char(((n / 10) % 10) as int),
        digit_char((n % 10) as int),
    ]
}

pub open spec fn magnitude_of(v: int) -> nat {
    if v < 0 {
        (-v) as nat
    } else {
        v as nat
    }
}

/// A currency amount of `raw` ten-thousandths, as `integer.ffff`, with a
/// minus sign in front of a negative amount.
pub open spec fn currency_text(raw: int) -> Seq<char> {
    let sign = if raw < 0 { seq!['-'] } else { Seq::<char>::empty() };
    sign + decimal_text(magnitude_of(raw) / 10000) + seq!['.'] + four_digits(magnitude_of(raw) % 10000)
}

fn digit_str(d: u64) -> (r: &'static str)
    requires
        d < 10,
    ensures
        r@ == seq![digit_char(d as int)],
{
    proof {
        reveal_strlit("0");
        reveal_strlit("1");
        reveal_strlit("2");
        reveal_strlit("3");
        reveal_strlit("4");
        reveal_strlit("5");
        reveal_strlit("6");
        reveal_strlit("7");
        reveal_strlit("8");
        reveal_strlit("9");
    }
    match d {
        0 => "0",
        1 => "1",
        2 => "2",
        3 => "3",
        4 => "4",
        5 => "5",
        6 => "6",
        7 => "7",
        8 => "8",
        _ => "9",
    }
}

fn push_decimal(s: &mut String, n: u64)
    ensures
        final(s)@ == old(s)@ + decimal_text(n as nat),
    decreases n,
{
    if n >= 10 {
        push_decimal(s, n / 10);
    }
    s.append(digit_str(n % 10));
}

/// Renders `raw` ten-thousandths as a decimal amount with four places.
pub fn currency_to_text(raw: i64) -> (r: String)
    ensures
        r@ == currency_text(raw as int),
{
    let mut s = String::new();
    let magnitude: u64 = if raw < 0 {
        if raw == i64::MIN {
            0x8000_0000_0000_0000
        } else {
            (-raw) as u64
        }
    } else {
        raw as u64
    };
    if raw < 0 {
        proof {
            reveal_strlit("-");
        }
        s.append("-");
    }
    push_decimal(&mut s, magnitude / 10000);
    proof {
        reveal_strlit(".");
    }
    s.append(".");
    let fraction = magnitude % 10000;
    s.append(digit_str(fraction / 1000));
    s.append(digit_str((fraction / 100) % 10));
    s.append(digit_str((fraction / 10) % 10));
    s.append(digit_str(fraction % 10));
    assert(s@ =~= currency_text(raw as int));
    s
}

/// Width of the Currency, Date and DateTime encodings.
pub const WIDE_LEN: usize = 8;

/// Julian day number of the day numbered 0 by the date codec (0000-12-31).
pub const JULIAN_OFFSET: i64 = 1_721_426;

/// Reads an 8-byte little-endian two's complement integer.
pub fn read_i64(bytes: &[u8]) -> (r: i64)
    requires
        bytes@.len() == 8,
    ensures
        r as int == signed64(spec_u64_from_le_bytes(bytes@)),
{
    let u = u64_from_le_bytes(bytes);
    if u < 0x8000_0000_0000_0000 {
        u as i64
    } else {
        ((u - 0x8000_0000_0000_0000) as i64) + i64::MIN
    }
}

/// Writes `v` as 8 little-endian two's complement bytes.
pub fn write_i64(v: i64) -> (r: Vec<u8>)
    ensures
        r@ == spec_u64_to_le_bytes(pattern64(v as int)),
        r@.len() == 8,
{
    let u: u64 = if v >= 0 {
        v as u64
    } else {
        ((v - i64::MIN) as u64) + 0x8000_0000_0000_0000
    };
    u64_to_le_bytes(u)
}

/// Reads a 4-byte little-endian two's complement integer.
fn read_i32(bytes: &[u8]) -> (r: i64)
    requires
        bytes@.len() == 4,
    ensures
        r as int == signed32(spec_u32_from_le_bytes(bytes@)),
{
    let u = u32_from_le_bytes(bytes);
    if u < 0x8000_0000 {
        u as i64
    } else {
        (u as i64) - 0x1_0000_0000
    }
}

/// Decodes a Currency value: 8 little-endian bytes holding ten-thousandths,
/// rendered with four decimal places.
pub fn decode_currency(bytes: &[u8]) -> (r: Result<String, DbfError>)
    ensures
        bytes@.len() != WIDE_LEN ==> r == Err::<String, DbfError>(DbfError::DecodeError),
        bytes@.len() == WIDE_LEN ==> (r matches Ok(s)
            && s@ == currency_text(signed64(spec_u64_from_le_bytes(bytes@)))),
{
    if bytes.len() != WIDE_LEN {
        return Err(DbfError::DecodeError);
    }
    Ok(currency_to_text(read_i64(bytes)))
}

/// The day number that 8 date bytes hold, where it is a date of the calendar.
pub open spec fn date_of_bytes(b: Seq<u8>) -> Option<int> {
    let v = signed64(spec_u64_from_le_bytes(b));
    if b.len() == 8 && i32::MIN <= v <= i32::MAX && day_in_calendar(v) {
        Some(v)
    } else {
        None
    }
}

/// The 8 bytes that hold the day number `days`.
pub open spec fn date_bytes(days: int) -> Seq<u8> {
    spec_u64_to_le_bytes(pattern64(days))
}

/// Decodes a Date value: an 8-byte little-endian day count, day 0 being
/// 0000-12-31. A count outside the calendar is a decode error.
pub fn decode_date(bytes: &[u8]) -> (r: Result<Date, DbfError>)
    ensures
        match date_of_bytes(bytes@) {
            Some(days) => r matches Ok(d) && d@ == days,
            None => r == Err::<Date, DbfError>(DbfError::DecodeError),
        },
{
    if bytes.len() != WIDE_LEN {
        return Err(DbfError::DecodeError);
    }
    let v = read_i64(bytes);
    if v < i32::MIN as i64 || v > i32::MAX as i64 {
        return Err(DbfError::DecodeError);
    }
    match Date::from_days(v as i32) {
        Some(d) => Ok(d),
        None => Err(DbfError::DecodeError),
    }
}

/// Encodes a Date value as its 8-byte little-endian day count.
pub fn encode_date(date: &Date) -> (r: Vec<u8>)
    ensures
        r@ == date_bytes(date@),
{
    write_i64(date.days() as i64)
}

/// A date with a time of day to the second.
#[derive(Clone, Copy, Debug, PartialEq, Eq, Structural)]
pub struct DateTime {
    date: Date,
    hour: u32,
    minute: u32,
    second: u32,
}

/// A time of day as hour, minute and second.
pub open spec fn time_fields(ms: u32) -> (u32, u32, u32) {
    (
        ((ms / 3_600_000) % 24) as u32,
        ((ms / 60_000) % 60) as u32,
        ((ms / 1000) % 60) as u32,
    )
}

impl DateTime {
    #[verifier::type_invariant]
    spec fn time_in_range(&self) -> bool {
        self.hour < 24 && self.minute < 60 && self.second < 60
    }

    pub closed spec fn spec_date(&self) -> Date {
        self.date
    }

    /// Hour, minute and second.
    pub closed spec fn spec_time(&self) -> (u32, u32, u32) {
        (self.hour, self.minute, self.second)
    }

    /// The date and time given, none where the time of day is out of range.
    pub fn new(date: Date, hour: u32, minute: u32, second: u32) -> (r: Option<DateTime>)
        ensures
            r is Some <==> (hour < 24 && minute < 60 && second < 60),
            r matches Some(t) ==> t.spec_date() == date && t.spec_time() == (hour, minute, second),
    {
        if hour < 24 && minute < 60 && second < 60 {
            Some(DateTime { date, hour, minute, second })
        } else {
            None
        }
    }

    pub fn date(&self) -> (r: Date)
        ensures
            r == self.spec_date(),
    {
        self.date
    }

    /// Hour, minute and second.
    pub fn time(&self) -> (r: (u32, u32, u32))
        ensures
            r == self.spec_time(),
            r.0 < 24 && r.1 < 60 && r.2 < 60,
    {
        proof {
            use_type_invariant(self);
        }
        (self.hour, self.minute, self.second)
    }

    /// The date and time as `YYYY-MM-DD hh:mm:ss`.
    pub fn to_text(&self) -> (r: String)
        ensures
            r@ == date_time_text(
                self.spec_date()@,
                self.spec_time().0 as int,
                self.spec_time().1 as int,
                self.spec_time().2 as int,
            ),
    {
        proof {
            use_type_invariant(self);
        }
        self.date.text_with_time(self.hour, self.minute, self.second)
    }
}

/// The day number held by the first half of DateTime bytes: a Julian day
/// number, shifted to the date codec's epoch.
pub open spec fn date_time_day(b: Seq<u8>) -> int {
    signed32(spec_u32_from_le_bytes(b.subrange(0, 4))) - JULIAN_OFFSET
}

/// The milliseconds since midnight held by the second half of DateTime bytes.
pub open spec fn date_time_ms(b: Seq<u8>) -> u32 {
    spec_u32_from_le_bytes(b.subrange(4, 8))
}

/// Whether 8 DateTime bytes hold a date of the calendar.
pub open spec fn date_time_decodes(b: Seq<u8>) -> bool {
    &&& b.len() == 8
    &&& i32::MIN <= date_time_day(b) <= i32::MAX
    &&& day_in_calendar(date_time_day(b))
}

/// Decodes a DateTime value: 4 little-endian bytes of Julian day number,
/// then 4 little-endian bytes of milliseconds since midnight, whose hour,
/// minute and second are taken modulo 24, 60 and 60.
pub fn decode_date_time(bytes: &[u8]) -> (r: Result<DateTime, DbfError>)
    ensures
        date_time_decodes(bytes@) ==> (r matches Ok(t) && t.spec_date()@ == date_time_day(bytes@)
            && t.spec_time() == time_fields(date_time_ms(bytes@))),
        !date_time_decodes(bytes@) ==> r == Err::<DateTime, DbfError>(DbfError::DecodeError),
{
    if bytes.len() != WIDE_LEN {
        return Err(DbfError::DecodeError);
    }
    let half = WIDE_LEN / 2;
    let julian = read_i32(slice_subrange(bytes, 0, half));
    let days = julian - JULIAN_OFFSET;
    if days < i32::MIN as i64 || days > i32::MAX as i64 {
        return Err(DbfError::DecodeError);
    }
    let date = match Date::from_days(days as i32) {
        Some(d) => d,
        None => {
            return Err(DbfError::DecodeError);
        },
    };
    let ms = u32_from_le_bytes(slice_subrange(bytes, half, WIDE_LEN));
    let hour = (ms / 3_600_000) % 24;
    let minute = (ms / 60_000) % 60;
    let second = (ms / 1000) % 60;
    Ok(DateTime { date, hour, minute, second })
}

/// Decoding Date bytes and encoding the date again gives the same bytes,
/// and encoding a date and decoding the bytes gives the same date.
pub proof fn lemma_date_round_trip(bytes: Seq<u8>, days: int)
    requires
        bytes.len() == 8,
        i32::MIN <= days <= i32::MAX,
        day_in_calendar(days),
    ensures
        date_of_bytes(bytes) matches Some(d) ==> date_bytes(d) == bytes,
        date_of_bytes(date_bytes(days)) == Some(days),
{
    vstd::bytes::lemma_auto_spec_u64_to_from_le_bytes();
    let u = spec_u64_from_le_bytes(bytes);
    assert(pattern64(signed64(u)) == u);
    let p = pattern64(days);
    assert(signed64(p) == days);
}

/// Decodes a Character value of `size` bytes in the encoding with label
/// `codepage`. Bytes of another count than `size` are a decode error.
pub fn decode_character(bytes: &[u8], size: usize, codepage: &str) -> (r: Result<String, DbfError>)
    ensures
        r is Ok <==> bytes@.len() == size && size <= MAX_TEXT_BYTES && label_is_known(codepage@),
        r matches Ok(s) ==> s@ == decoded_text(codepage@, bytes@),
        r matches Err(e) ==> (e == DbfError::DecodeError || e == DbfError::UnknownCodepage)
            && (e == DbfError::UnknownCodepage <==> (bytes@.len() == size && size <= MAX_TEXT_BYTES
                && !label_is_known(codepage@))),
{
    if bytes.len() != size || size > MAX_TEXT_BYTES {
        return Err(DbfError::DecodeError);
    }
    if !encoding_known(codepage) {
        return Err(DbfError::UnknownCodepage);
    }
    Ok(decode_in(codepage, bytes))
}

/// Encodes a Character value into exactly `size` bytes in the encoding with
/// label `codepage`. Text with more characters than `size`, or whose
/// encoding takes another count of bytes than `size`, is an encode error.
pub fn encode_character(text: &str, size: usize, codepage: &str) -> (r: Result<Vec<u8>, DbfError>)
    ensures
        r is Ok <==> {
            &&& text@.len() <= size <= MAX_TEXT_BYTES
            &&& label_is_known(codepage@)
            &&& encoded_text(codepage@, text@).len() == size
        },
        r matches Ok(b) ==> b@ == encoded_text(codepage@, text@),
        r matches Err(e) ==> (e == DbfError::EncodeError || e == DbfError::UnknownCodepage)
            && (e == DbfError::UnknownCodepage <==> (text@.len() <= size <= MAX_TEXT_BYTES
                && !label_is_known(codepage@))),
{
    if size > MAX_TEXT_BYTES || text.unicode_len() > size {
        return Err(DbfError::EncodeError);
    }
    if !encoding_known(codepage) {
        return Err(DbfError::UnknownCodepage);
    }
    let bytes = encode_in(codepage, text);
    if bytes.len() != size {
        return Err(DbfError::EncodeError);
    }
    Ok(bytes)
}

/// A field whose stored bytes and value differ in representation: `get`
/// reads the value from the bytes and `set` writes a value into them. Each
/// implementation in this crate states its contract on inherent methods of
/// the same names.
pub trait ConversionField<T> {
    fn get(&self) -> Result<T, DbfError>;

    fn set(&mut self, value: &T) -> Result<(), DbfError>;
}

/// The stored bytes of a Character field and the label of their encoding.
pub struct RawCharField {
    bytes: Vec<u8>,
    encoding: String,
}

impl View for RawCharField {
    /// The stored bytes and the encoding label.
    type V = (Seq<u8>, Seq<char>);

    closed spec fn view(&self) -> (Seq<u8>, Seq<char>) {
        (self.bytes@, self.encoding@)
    }
}

impl RawCharField {
    pub fn new(bytes: Vec<u8>, encoding: String) -> (r: RawCharField)
        ensures
            r.spec_bytes() == bytes@,
            r.spec_encoding() == encoding@,
    {
        RawCharField { bytes, encoding }
    }

    pub open spec fn spec_bytes(&self) -> Seq<u8> {
        self@.0
    }

    pub open spec fn spec_encoding(&self) -> Seq<char> {
        self@.1
    }

    pub fn bytes(&self) -> (r: &[u8])
        ensures
            r@ == self.spec_bytes(),
    {
        self.bytes.as_slice()
    }
}

impl RawCharField {
    /// The text the bytes hold, or why they hold none.
    pub open spec fn spec_get(&self) -> Result<Seq<char>, DbfError> {
        let b = self.spec_bytes();
        if b.len() > MAX_TEXT_BYTES {
            Err(DbfError::DecodeError)
        } else if !label_is_known(self.spec_encoding()) {
            Err(DbfError::UnknownCodepage)
        } else {
            Ok(decoded_text(self.spec_encoding(), b))
        }
    }

    /// The bytes and label once `value` is written, or why it cannot be:
    /// the text must encode to as many bytes as the field holds.
    pub open spec fn spec_set(&self, value: Seq<char>) -> Result<(Seq<u8>, Seq<char>), DbfError> {
        let size = self.spec_bytes().len();
        let label = self.spec_encoding();
        if size > MAX_TEXT_BYTES || value.len() > size {
            Err(DbfError::EncodeError)
        } else if !label_is_known(label) {
            Err(DbfError::UnknownCodepage)
        } else if encoded_text(label, value).len() != size {
            Err(DbfError::EncodeError)
        } else {
            Ok((encoded_text(label, value), label))
        }
    }

    /// Decodes the stored bytes.
    pub fn get(&self) -> (r: Result<String, DbfError>)
        ensures
            match r {
                Ok(v) => self.spec_get() == Ok::<Seq<char>, DbfError>(v@),
                Err(e) => self.spec_get() == Err::<Seq<char>, DbfError>(e),
            },
    {
        assert(self.bytes@ == self.spec_bytes() && self.encoding@ == self.spec_encoding());
        decode_character(self.bytes.as_slice(), self.bytes.len(), self.encoding.as_str())
    }

    /// Encodes `value` in place of the stored bytes, keeping their count.
    pub fn set(&mut self, value: &String) -> (r: Result<(), DbfError>)
        ensures
            match old(self).spec_set(value@) {
                Ok(n) => r is Ok && final(self)@ == n,
                Err(e) => r == Err::<(), DbfError>(e) && final(self)@ == old(self)@,
            },
    {
        assert(self.bytes@ == self.spec_bytes() && self.encoding@ == self.spec_encoding());
        match encode_character(value.as_str(), self.bytes.len(), self.encoding.as_str()) {
            Ok(b) => {
                self.bytes = b;
                assert(self@ == (b@, self.encoding@));
                Ok(())
            },
            Err(e) => Err(e),
        }
    }
}

impl ConversionField<String> for RawCharField {
    fn get(&self) -> Result<String, DbfError> {
        RawCharField::get(self)
    }

    fn set(&mut self, value: &String) -> Result<(), DbfError> {
        RawCharField::set(self, value)
    }
}

/// The stored bytes of a Currency field. Its value is held as a count of
/// ten-thousandths, the exact fixed-point amount.
pub struct RawCurrencyField {
    bytes: Vec<u8>,
}

impl View for RawCurrencyField {
    type V = Seq<u8>;

    closed spec fn view(&self) -> Seq<u8> {
        self.bytes@
    }
}

impl RawCurrencyField {
    pub fn new(bytes: Vec<u8>) -> (r: RawCurrencyField)
        ensures
            r@ == bytes@,
    {
        RawCurrencyField { bytes }
    }

    pub fn bytes(&self) -> (r: &[u8])
        ensures
            r@ == self@,
    {
        self.bytes.as_slice()
    }

    /// The amount in ten-thousandths; 8 bytes are expected.
    pub fn get(&self) -> (r: Result<i64, DbfError>)
        ensures
            self@.len() != WIDE_LEN ==> r == Err::<i64, DbfError>(DbfError::DecodeError),
            self@.len() == WIDE_LEN ==> (r matches Ok(v)
                && v as int == signed64(spec_u64_from_le_bytes(self@))),
    {
        if self.bytes.len() != WIDE_LEN {
            return Err(DbfError::DecodeError);
        }
        Ok(read_i64(self.bytes.as_slice()))
    }

    /// Stores an amount in ten-thousandths as 8 bytes.
    pub fn set(&mut self, value: &i64) -> (r: Result<(), DbfError>)
        ensures
            r is Ok,
            final(self)@ == spec_u64_to_le_bytes(pattern64(*value as int)),
    {
        self.bytes = write_i64(*value);
        Ok(())
    }
}

impl ConversionField<i64> for RawCurrencyField {
    fn get(&self) -> Result<i64, DbfError> {
        RawCurrencyField::get(self)
    }

    fn set(&mut self, value: &i64) -> Result<(), DbfError> {
        RawCurrencyField::set(self, value)
    }
}

/// The stored bytes of a Date field.
pub struct RawDateField {
    bytes: Vec<u8>,
}

impl View for RawDateField {
    type V = Seq<u8>;

    closed spec fn view(&self) -> Seq<u8> {
        self.bytes@
    }
}

impl RawDateField {
    pub fn new(bytes: Vec<u8>) -> (r: RawDateField)
        ensures
            r@ == bytes@,
    {
        RawDateField { bytes }
    }

    pub fn bytes(&self) -> (r: &[u8])
        ensures
            r@ == self@,
    {
        self.bytes.as_slice()
    }

    /// The date the bytes hold.
    pub fn get(&self) -> (r: Result<Date, DbfError>)
        ensures
            match date_of_bytes(self@) {
                Some(days) => r matches Ok(d) && d@ == days,
                None => r == Err::<Date, DbfError>(DbfError::DecodeError),
            },
    {
        decode_date(self.bytes.as_slice())
    }

    /// Stores a date as its 8-byte day count.
    pub fn set(&mut self, value: &Date) -> (r: Result<(), DbfError>)
        ensures
            r is Ok,
            final(self)@ == date_bytes(value@),
    {
        self.bytes = encode_date(value);
        Ok(())
    }
}

impl ConversionField<Date> for RawDateField {
    fn get(&self) -> Result<Date, DbfError> {
        RawDateField::get(self)
    }

    fn set(&mut self, value: &Date) -> Result<(), DbfError> {
        RawDateField::set(self, value)
    }
}

} // verus!
