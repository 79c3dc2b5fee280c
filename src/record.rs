use vstd::prelude::*;
use vstd::bytes::spec_u64_from_le_bytes;
use vstd::slice::slice_subrange;

use crate::calendar::Date;
use crate::codec::{
    currency_text, date_of_bytes, date_time_day, date_time_decodes, date_time_ms, decode_character,
    decode_currency, decode_date, decode_date_time, signed64, time_fields, DateTime, WIDE_LEN,
};
use crate::codepage::{decoded_text, label_is_known, MAX_TEXT_BYTES};
use crate::error::DbfError;
use crate::field::{Field, FieldMeta};

verus! {

/// The bytes of a field within its record, none where its range does not
/// fit the record.
pub open spec fn field_range(meta: Field, record: Seq<u8>) -> Option<Seq<u8>> {
    if meta.offset + meta.size <= record.len() {
        Some(record.subrange(meta.offset as int, meta.offset + meta.size))
    } else {
        None
    }
}

/// The bytes of the field described by `meta` within `record`.
pub fn field_bytes<'a>(record: &'a [u8], meta: &Field) -> (r: Result<&'a [u8], DbfError>)
    ensures
        match field_range(*meta, record@) {
            Some(b) => r matches Ok(s) && s@ == b,
            None => r == Err::<&'a [u8], DbfError>(DbfError::BoundsError),
        },
{
    if meta.offset > record.len() || meta.size > record.len() - meta.offset {
        return Err(DbfError::BoundsError);
    }
    Ok(slice_subrange(record, meta.offset, meta.offset + meta.size))
}

/// What a Character field decodes to from its bytes.
pub open spec fn character_value(b: Seq<u8>, label: Seq<char>) -> Result<Seq<char>, DbfError> {
    if b.len() > MAX_TEXT_BYTES {
        Err(DbfError::DecodeError)
    } else if !label_is_known(label) {
        Err(DbfError::UnknownCodepage)
    } else {
        Ok(decoded_text(label, b))
    }
}

/// A Character field of a record, decoded in the record's codepage.
#[derive(Clone)]
pub struct CharField<'a> {
    pub meta: Field,
    content: String,
    codepage: &'a str,
    ready: Option<()>,
    record: &'a [u8],
}

impl<'a> CharField<'a> {
    pub closed spec fn spec_content(&self) -> Seq<char> {
        self.content@
    }

    pub closed spec fn spec_ready(&self) -> bool {
        self.ready is Some
    }

    pub closed spec fn spec_record(&self) -> Seq<u8> {
        self.record@
    }

    pub closed spec fn spec_meta(&self) -> Field {
        self.meta
    }

    pub closed spec fn spec_codepage(&self) -> Seq<char> {
        self.codepage@
    }

    /// What materializing this field gives: its text, or why it has none.
    pub open spec fn materialized(&self) -> Result<Seq<char>, DbfError> {
        match field_range(self.spec_meta(), self.spec_record()) {
            None => Err(DbfError::BoundsError),
            Some(b) => character_value(b, self.spec_codepage()),
        }
    }

    /// A field over `record`, not yet materialized.
    pub fn new(meta: Field, codepage: &'a str, record: &'a [u8]) -> (r: CharField<'a>)
        ensures
            r.spec_meta() == meta,
            r.spec_record() == record@,
            r.spec_codepage() == codepage@,
            !r.spec_ready(),
            r.spec_content().len() == 0,
    {
        CharField { meta, content: String::new(), codepage, ready: None, record }
    }

    /// Decodes the field's bytes into its text and marks it ready. The
    /// outcome depends on the bytes alone, so a second call gives the same.
    pub fn from_record_bytes(&mut self) -> (r: Result<(), DbfError>)
        ensures
            final(self).spec_meta() == old(self).spec_meta(),
            final(self).spec_record() == old(self).spec_record(),
            final(self).spec_codepage() == old(self).spec_codepage(),
            match old(self).materialized() {
                Ok(t) => r is Ok && final(self).spec_content() == t && final(self).spec_ready(),
                Err(e) => r == Err::<(), DbfError>(e)
                    && final(self).spec_content() == old(self).spec_content()
                    && final(self).spec_ready() == old(self).spec_ready(),
            },
    {
        let bytes = match field_bytes(self.record, &self.meta) {
            Ok(b) => b,
            Err(e) => {
                return Err(e);
            },
        };
        match decode_character(bytes, self.meta.size, self.codepage) {
            Ok(text) => {
                self.content = text;
                self.ready = Some(());
                Ok(())
            },
            Err(e) => Err(e),
        }
    }

    /// The bytes backing this field.
    pub fn to_bytes(&self) -> (r: Result<&'a [u8], DbfError>)
        ensures
            match field_range(self.spec_meta(), self.spec_record()) {
                Some(b) => r matches Ok(s) && s@ == b,
                None => r == Err::<&'a [u8], DbfError>(DbfError::BoundsError),
            },
    {
        field_bytes(self.record, &self.meta)
    }

    /// Whether the field has been materialized.
    pub fn ready(&self) -> (r: bool)
        ensures
            r == self.spec_ready(),
    {
        self.ready.is_some()
    }

    /// The field's text.
    pub fn to_text(&self) -> (r: String)
        ensures
            r@ == self.spec_content(),
    {
        self.content.clone()
    }
}

/// A Currency field of a record, shown with four decimal places.
#[derive(Clone)]
pub struct CurrencyField<'a> {
    pub meta: Field,
    content: String,
    ready: Option<()>,
    record: &'a [u8],
}

impl<'a> CurrencyField<'a> {
    pub closed spec fn spec_content(&self) -> Seq<char> {
        self.content@
    }

    pub closed spec fn spec_ready(&self) -> bool {
        self.ready is Some
    }

    pub closed spec fn spec_record(&self) -> Seq<u8> {
        self.record@
    }

    pub closed spec fn spec_meta(&self) -> Field {
        self.meta
    }

    /// What materializing this field gives: its text, or why it has none.
    pub open spec fn materialized(&self) -> Result<Seq<char>, DbfError> {
        match field_range(self.spec_meta(), self.spec_record()) {
            None => Err(DbfError::BoundsError),
            Some(b) => if b.len() == WIDE_LEN {
                Ok(currency_text(signed64(spec_u64_from_le_bytes(b))))
            } else {
                Err(DbfError::DecodeError)
            },
        }
    }

    /// A field over `record`, not yet materialized.
    pub fn new(meta: Field, record: &'a [u8]) -> (r: CurrencyField<'a>)
        ensures
            r.spec_meta() == meta,
            r.spec_record() == record@,
            !r.spec_ready(),
            r.spec_content().len() == 0,
    {
        CurrencyField { meta, content: String::new(), ready: None, record }
    }

    /// Decodes the field's bytes into its text and marks it ready.
    pub fn from_record_bytes(&mut self) -> (r: Result<(), DbfError>)
        ensures
            final(self).spec_meta() == old(self).spec_meta(),
            final(self).spec_record() == old(self).spec_record(),
            match old(self).materialized() {
                Ok(t) => r is Ok && final(self).spec_content() == t && final(self).spec_ready(),
                Err(e) => r == Err::<(), DbfError>(e)
                    && final(self).spec_content() == old(self).spec_content()
                    && final(self).spec_ready() == old(self).spec_ready(),
            },
    {
        let bytes = match field_bytes(self.record, &self.meta) {
            Ok(b) => b,
            Err(e) => {
                return Err(e);
            },
        };
        match decode_currency(bytes) {
            Ok(text) => {
                self.content = text;
                self.ready = Some(());
                Ok(())
            },
            Err(e) => Err(e),
        }
    }

    /// The bytes backing this field.
    pub fn to_bytes(&self) -> (r: Result<&'a [u8], DbfError>)
        ensures
            match field_range(self.spec_meta(), self.spec_record()) {
                Some(b) => r matches Ok(s) && s@ == b,
                None => r == Err::<&'a [u8], DbfError>(DbfError::BoundsError),
            },
    {
        field_bytes(self.record, &self.meta)
    }

    /// Whether the field has been materialized.
    pub fn ready(&self) -> (r: bool)
        ensures
            r == self.spec_ready(),
    {
        self.ready.is_some()
    }

    /// The field's text.
    pub fn to_text(&self) -> (r: String)
        ensures
            r@ == self.spec_content(),
    {
        self.content.clone()
    }
}

/// A Date field of a record.
#[derive(Clone)]
pub struct DateField<'a> {
    pub meta: Field,
    content: Option<Date>,
    ready: Option<()>,
    record: &'a [u8],
}

impl<'a> DateField<'a> {
    pub closed spec fn spec_content(&self) -> Option<Date> {
        self.content
    }

    pub closed spec fn spec_ready(&self) -> bool {
        self.ready is Some
    }

    pub closed spec fn spec_record(&self) -> Seq<u8> {
        self.record@
    }

    pub closed spec fn spec_meta(&self) -> Field {
        self.meta
    }

    /// Whether `v` is what this field's bytes decode to.
    pub open spec fn decodes_to(&self, v: Date) -> bool {
        match field_range(self.spec_meta(), self.spec_record()) {
            None => false,
            Some(b) => date_of_bytes(b) == Some(v@),
        }
    }

    /// Whether this field's bytes decode to a value.
    pub open spec fn decodes(&self) -> bool {
        match field_range(self.spec_meta(), self.spec_record()) {
            None => false,
            Some(b) => date_of_bytes(b) is Some,
        }
    }

    /// A field over `record`, not yet materialized.
    pub fn new(meta: Field, record: &'a [u8]) -> (r: DateField<'a>)
        ensures
            r.spec_meta() == meta,
            r.spec_record() == record@,
            !r.spec_ready(),
            r.spec_content() is None,
    {
        DateField { meta, content: None, ready: None, record }
    }

    /// Decodes the field's bytes into its value and marks it ready. A range
    /// outside the record is a bounds error, bytes that hold no value a
    /// decode error.
    pub fn from_record_bytes(&mut self) -> (r: Result<(), DbfError>)
        ensures
            final(self).spec_meta() == old(self).spec_meta(),
            final(self).spec_record() == old(self).spec_record(),
            old(self).decodes() ==> r is Ok && final(self).spec_ready(),
            old(self).decodes() ==> (final(self).spec_content() matches Some(v) && old(self).decodes_to(v)),
            !old(self).decodes() ==> {
                &&& field_range(old(self).spec_meta(), old(self).spec_record()) is None
                    ==> r == Err::<(), DbfError>(DbfError::BoundsError)
                &&& field_range(old(self).spec_meta(), old(self).spec_record()) is Some
                    ==> r == Err::<(), DbfError>(DbfError::DecodeError)
                &&& final(self).spec_content() == old(self).spec_content()
                &&& final(self).spec_ready() == old(self).spec_ready()
            },
    {
        let bytes = match field_bytes(self.record, &self.meta) {
            Ok(b) => b,
            Err(e) => {
                return Err(e);
            },
        };
        match decode_date(bytes) {
            Ok(v) => {
                self.content = Some(v);
                self.ready = Some(());
                Ok(())
            },
            Err(e) => Err(e),
        }
    }

    /// The bytes backing this field.
    pub fn to_bytes(&self) -> (r: Result<&'a [u8], DbfError>)
        ensures
            match field_range(self.spec_meta(), self.spec_record()) {
                Some(b) => r matches Ok(s) && s@ == b,
                None => r == Err::<&'a [u8], DbfError>(DbfError::BoundsError),
            },
    {
        field_bytes(self.record, &self.meta)
    }

    /// Whether the field has been materialized.
    pub fn ready(&self) -> (r: bool)
        ensures
            r == self.spec_ready(),
    {
        self.ready.is_some()
    }

    /// The decoded value, once materialized.
    pub fn value(&self) -> (r: Option<Date>)
        ensures
            r == self.spec_content(),
    {
        self.content
    }

    /// The decoded value as text, once materialized.
    pub fn to_text(&self) -> (r: Option<String>)
        ensures
            self.spec_content() is None ==> r is None,
            self.spec_content() matches Some(v) ==> (r matches Some(t) && t@ == crate::calendar::date_text(v@)),
    {
        match &self.content {
            Some(v) => Some(v.to_text()),
            None => None,
        }
    }
}

/// A DateTime field of a record.
#[derive(Clone)]
pub struct DateTimeField<'a> {
    pub meta: Field,
    content: Option<DateTime>,
    ready: Option<()>,
    record: &'a [u8],
}

impl<'a> DateTimeField<'a> {
    pub closed spec fn spec_content(&self) -> Option<DateTime> {
        self.content
    }

    pub closed spec fn spec_ready(&self) -> bool {
        self.ready is Some
    }

    pub closed spec fn spec_record(&self) -> Seq<u8> {
        self.record@
    }

    pub closed spec fn spec_meta(&self) -> Field {
        self.meta
    }

    /// Whether `v` is what this field's bytes decode to.
    pub open spec fn decodes_to(&self, v: DateTime) -> bool {
        match field_range(self.spec_meta(), self.spec_record()) {
            None => false,
            Some(b) => date_time_decodes(b) && v.spec_date()@ == date_time_day(b) && v.spec_time() == time_fields(date_time_ms(b)),
        }
    }

    /// Whether this field's bytes decode to a value.
    pub open spec fn decodes(&self) -> bool {
        match field_range(self.spec_meta(), self.spec_record()) {
            None => false,
            Some(b) => date_time_decodes(b),
        }
    }

    /// A field over `record`, not yet materialized.
    pub fn new(meta: Field, record: &'a [u8]) -> (r: DateTimeField<'a>)
        ensures
            r.spec_meta() == meta,
            r.spec_record() == record@,
            !r.spec_ready(),
            r.spec_content() is None,
    {
        DateTimeField { meta, content: None, ready: None, record }
    }

    /// Decodes the field's bytes into its value and marks it ready. A range
    /// outside the record is a bounds error, bytes that hold no value a
    /// decode error.
    pub fn from_record_bytes(&mut self) -> (r: Result<(), DbfError>)
        ensures
            final(self).spec_meta() == old(self).spec_meta(),
            final(self).spec_record() == old(self).spec_record(),
            old(self).decodes() ==> r is Ok && final(self).spec_ready(),
            old(self).decodes() ==> (final(self).spec_content() matches Some(v) && old(self).decodes_to(v)),
            !old(self).decodes() ==> {
                &&& field_range(old(self).spec_meta(), old(self).spec_record()) is None
                    ==> r == Err::<(), DbfError>(DbfError::BoundsError)
                &&& field_range(old(self).spec_meta(), old(self).spec_record()) is Some
                    ==> r == Err::<(), DbfError>(DbfError::DecodeError)
                &&& final(self).spec_content() == old(self).spec_content()
                &&& final(self).spec_ready() == old(self).spec_ready()
            },
    {
        let bytes = match field_bytes(self.record, &self.meta) {
            Ok(b) => b,
            Err(e) => {
                return Err(e);
            },
        };
        match decode_date_time(bytes) {
            Ok(v) => {
                self.content = Some(v);
                self.ready = Some(());
                Ok(())
            },
            Err(e) => Err(e),
        }
    }

    /// The bytes backing this field.
    pub fn to_bytes(&self) -> (r: Result<&'a [u8], DbfError>)
        ensures
            match field_range(self.spec_meta(), self.spec_record()) {
                Some(b) => r matches Ok(s) && s@ == b,
                None => r == Err::<&'a [u8], DbfError>(DbfError::BoundsError),
            },
    {
        field_bytes(self.record, &self.meta)
    }

    /// Whether the field has been materialized.
    pub fn ready(&self) -> (r: bool)
        ensures
            r == self.spec_ready(),
    {
        self.ready.is_some()
    }

    /// The decoded value, once materialized.
    pub fn value(&self) -> (r: Option<DateTime>)
        ensures
            r == self.spec_content(),
    {
        self.content
    }

    /// The decoded value as text, once materialized.
    pub fn to_text(&self) -> (r: Option<String>)
        ensures
            self.spec_content() is None ==> r is None,
            self.spec_content() matches Some(v) ==> (r matches Some(t) && t@ == crate::calendar::date_time_text(v.spec_date()@, v.spec_time().0 as int, v.spec_time().1 as int, v.spec_time().2 as int)),
    {
        match &self.content {
            Some(v) => Some(v.to_text()),
            None => None,
        }
    }
}

impl<'a> FieldMeta for CharField<'a> {
    open spec fn spec_meta(&self) -> Field {
        self.spec_meta()
    }

    open spec fn spec_tag(&self) -> u8 {
        0x43u8
    }

    fn nullable(&self) -> (r: bool) {
        self.meta.nullable()
    }

    fn autoincrement(&self) -> (r: bool) {
        self.meta.autoincrement()
    }

    fn datatype_flag(&self) -> (r: u8) {
        0x43u8
    }

    fn name(&self) -> (r: &str) {
        self.meta.name()
    }

    fn rec_offset(&self) -> (r: usize) {
        self.meta.rec_offset()
    }

    fn size(&self) -> (r: usize) {
        self.meta.size()
    }

    fn precision(&self) -> (r: usize) {
        self.meta.precision()
    }

    fn next_id(&mut self) -> (r: u32) {
        self.meta.next_id
    }
}

impl<'a> FieldMeta for CurrencyField<'a> {
    open spec fn spec_meta(&self) -> Field {
        self.spec_meta()
    }

    open spec fn spec_tag(&self) -> u8 {
        0x59u8
    }

    fn nullable(&self) -> (r: bool) {
        self.meta.nullable()
    }

    fn autoincrement(&self) -> (r: bool) {
        self.meta.autoincrement()
    }

    fn datatype_flag(&self) -> (r: u8) {
        0x59u8
    }

    fn name(&self) -> (r: &str) {
        self.meta.name()
    }

    fn rec_offset(&self) -> (r: usize) {
        self.meta.rec_offset()
    }

    fn size(&self) -> (r: usize) {
        self.meta.size()
    }

    fn precision(&self) -> (r: usize) {
        self.meta.precision()
    }

    fn next_id(&mut self) -> (r: u32) {
        self.meta.next_id
    }
}

impl<'a> FieldMeta for DateField<'a> {
    open spec fn spec_meta(&self) -> Field {
        self.spec_meta()
    }

    open spec fn spec_tag(&self) -> u8 {
        0x44u8
    }

    fn nullable(&self) -> (r: bool) {
        self.meta.nullable()
    }

    fn autoincrement(&self) -> (r: bool) {
        self.meta.autoincrement()
    }

    fn datatype_flag(&self) -> (r: u8) {
        0x44u8
    }

    fn name(&self) -> (r: &str) {
        self.meta.name()
    }

    fn rec_offset(&self) -> (r: usize) {
        self.meta.rec_offset()
    }

    fn size(&self) -> (r: usize) {
        self.meta.size()
    }

    fn precision(&self) -> (r: usize) {
        self.meta.precision()
    }

    fn next_id(&mut self) -> (r: u32) {
        self.meta.next_id
    }
}

impl<'a> FieldMeta for DateTimeField<'a> {
    open spec fn spec_meta(&self) -> Field {
        self.spec_meta()
    }

    open spec fn spec_tag(&self) -> u8 {
        0x54u8
    }

    fn nullable(&self) -> (r: bool) {
        self.meta.nullable()
    }

    fn autoincrement(&self) -> (r: bool) {
        self.meta.autoincrement()
    }

    fn datatype_flag(&self) -> (r: u8) {
        0x54u8
    }

    fn name(&self) -> (r: &str) {
        self.meta.name()
    }

    fn rec_offset(&self) -> (r: usize) {
        self.meta.rec_offset()
    }

    fn size(&self) -> (r: usize) {
        self.meta.size()
    }

    fn precision(&self) -> (r: usize) {
        self.meta.precision()
    }

    fn next_id(&mut self) -> (r: u32) {
        self.meta.next_id
    }
}

/// One field of a record, by kind.
pub enum FieldValue<'a> {
    Character(CharField<'a>),
    Currency(CurrencyField<'a>),
    Date(DateField<'a>),
    DateTime(DateTimeField<'a>),
}

/// Whether `after` and result `r` are what materializing `before` gives:
/// the same kind over the same bytes, the decoded value and the ready mark
/// on success, and nothing changed on failure.
pub open spec fn materialize_post(before: FieldValue, after: FieldValue, r: Result<(), DbfError>) -> bool {
    match (before, after) {
        (FieldValue::Character(b), FieldValue::Character(a)) => {
            &&& a.spec_meta() == b.spec_meta()
            &&& a.spec_record() == b.spec_record()
            &&& a.spec_codepage() == b.spec_codepage()
            &&& match b.materialized() {
                Ok(t) => r is Ok && a.spec_content() == t && a.spec_ready(),
                Err(e) => r == Err::<(), DbfError>(e) && a.spec_content() == b.spec_content()
                    && a.spec_ready() == b.spec_ready(),
            }
        },
        (FieldValue::Currency(b), FieldValue::Currency(a)) => {
            &&& a.spec_meta() == b.spec_meta()
            &&& a.spec_record() == b.spec_record()
            &&& match b.materialized() {
                Ok(t) => r is Ok && a.spec_content() == t && a.spec_ready(),
                Err(e) => r == Err::<(), DbfError>(e) && a.spec_content() == b.spec_content()
                    && a.spec_ready() == b.spec_ready(),
            }
        },
        (FieldValue::Date(b), FieldValue::Date(a)) => {
            &&& a.spec_meta() == b.spec_meta()
            &&& a.spec_record() == b.spec_record()
            &&& b.decodes() ==> r is Ok && a.spec_ready()
            &&& b.decodes() ==> (a.spec_content() matches Some(v) && b.decodes_to(v))
            &&& !b.decodes() ==> r is Err && a.spec_content() == b.spec_content()
                && a.spec_ready() == b.spec_ready()
        },
        (FieldValue::DateTime(b), FieldValue::DateTime(a)) => {
            &&& a.spec_meta() == b.spec_meta()
            &&& a.spec_record() == b.spec_record()
            &&& b.decodes() ==> r is Ok && a.spec_ready()
            &&& b.decodes() ==> (a.spec_content() matches Some(v) && b.decodes_to(v))
            &&& !b.decodes() ==> r is Err && a.spec_content() == b.spec_content()
                && a.spec_ready() == b.spec_ready()
        },
        _ => false,
    }
}

/// Whether two materialized fields hold the same value.
pub open spec fn same_value(x: FieldValue, y: FieldValue) -> bool {
    match (x, y) {
        (FieldValue::Character(p), FieldValue::Character(q)) => p.spec_content() == q.spec_content(),
        (FieldValue::Currency(p), FieldValue::Currency(q)) => p.spec_content() == q.spec_content(),
        (FieldValue::Date(p), FieldValue::Date(q)) => match (p.spec_content(), q.spec_content()) {
            (Some(u), Some(v)) => u@ == v@,
            _ => false,
        },
        (FieldValue::DateTime(p), FieldValue::DateTime(q)) => match (p.spec_content(), q.spec_content()) {
            (Some(u), Some(v)) => u.spec_date()@ == v.spec_date()@ && u.spec_time() == v.spec_time(),
            _ => false,
        },
        _ => false,
    }
}

/// Materializing a field a second time succeeds exactly when the first
/// time did, and then leaves the same value: materialization is idempotent.
pub proof fn lemma_materialize_idempotent(
    first: FieldValue,
    once: FieldValue,
    twice: FieldValue,
    r1: Result<(), DbfError>,
    r2: Result<(), DbfError>,
)
    requires
        materialize_post(first, once, r1),
        materialize_post(once, twice, r2),
    ensures
        r1 is Ok <==> r2 is Ok,
        twice.spec_range() == first.spec_range(),
        r1 is Ok ==> same_value(once, twice),
{
}

impl<'a> FieldValue<'a> {
    pub open spec fn spec_ready(&self) -> bool {
        match self {
            FieldValue::Character(f) => f.spec_ready(),
            FieldValue::Currency(f) => f.spec_ready(),
            FieldValue::Date(f) => f.spec_ready(),
            FieldValue::DateTime(f) => f.spec_ready(),
        }
    }

    pub open spec fn spec_range(&self) -> Option<Seq<u8>> {
        match self {
            FieldValue::Character(f) => field_range(f.spec_meta(), f.spec_record()),
            FieldValue::Currency(f) => field_range(f.spec_meta(), f.spec_record()),
            FieldValue::Date(f) => field_range(f.spec_meta(), f.spec_record()),
            FieldValue::DateTime(f) => field_range(f.spec_meta(), f.spec_record()),
        }
    }

    /// Decodes this field's bytes into its value; idempotent, and
    /// independent of every other field of the record.
    pub fn materialize(&mut self) -> (r: Result<(), DbfError>)
        ensures
            materialize_post(*old(self), *final(self), r),
    {
        match self {
            FieldValue::Character(f) => f.from_record_bytes(),
            FieldValue::Currency(f) => f.from_record_bytes(),
            FieldValue::Date(f) => f.from_record_bytes(),
            FieldValue::DateTime(f) => f.from_record_bytes(),
        }
    }

    /// Whether the field has been materialized.
    pub fn ready(&self) -> (r: bool)
        ensures
            r == self.spec_ready(),
    {
        match self {
            FieldValue::Character(f) => f.ready(),
            FieldValue::Currency(f) => f.ready(),
            FieldValue::Date(f) => f.ready(),
            FieldValue::DateTime(f) => f.ready(),
        }
    }

    /// The exact bytes backing this field.
    pub fn raw_bytes(&self) -> (r: Result<&'a [u8], DbfError>)
        ensures
            match self.spec_range() {
                Some(b) => r matches Ok(s) && s@ == b,
                None => r == Err::<&'a [u8], DbfError>(DbfError::BoundsError),
            },
    {
        match self {
            FieldValue::Character(f) => f.to_bytes(),
            FieldValue::Currency(f) => f.to_bytes(),
            FieldValue::Date(f) => f.to_bytes(),
            FieldValue::DateTime(f) => f.to_bytes(),
        }
    }

    /// The field's value as text. Character and Currency fields give their
    /// (possibly still empty) text; Date and DateTime fields give none until
    /// materialized.
    pub fn to_text(&self) -> (r: Option<String>)
        ensures
            match self {
                FieldValue::Character(f) => r matches Some(t) && t@ == f.spec_content(),
                FieldValue::Currency(f) => r matches Some(t) && t@ == f.spec_content(),
                FieldValue::Date(f) => (f.spec_content() is None <==> r is None),
                FieldValue::DateTime(f) => (f.spec_content() is None <==> r is None),
            },
    {
        match self {
            FieldValue::Character(f) => Some(f.to_text()),
            FieldValue::Currency(f) => Some(f.to_text()),
            FieldValue::Date(f) => f.to_text(),
            FieldValue::DateTime(f) => f.to_text(),
        }
    }
}

/// The fields of one record, in declaration order, over one shared buffer.
pub struct Record<'a>(pub Vec<FieldValue<'a>>);

impl<'a> Record<'a> {
    /// Materializes every field in declaration order and returns one result
    /// per field, in the same order.
    pub fn load_all(&mut self) -> (r: Vec<Result<(), DbfError>>)
        ensures
            final(self).0@.len() == old(self).0@.len(),
            r@.len() == old(self).0@.len(),
            forall|i: int| 0 <= i < r@.len()
                ==> materialize_post(old(self).0@[i], final(self).0@[i], #[trigger] r@[i]),
    {
        let mut results: Vec<Result<(), DbfError>> = Vec::new();
        let mut i: usize = 0;
        while i < self.0.len()
            invariant
                i <= self.0@.len(),
                self.0@.len() == old(self).0@.len(),
                results@.len() == i,
                forall|k: int| i <= k < self.0@.len() ==> self.0@[k] == old(self).0@[k],
                forall|k: int| 0 <= k < i
                    ==> materialize_post(old(self).0@[k], self.0@[k], #[trigger] results@[k]),
            decreases self.0@.len() - i,
        {
            let r = self.0[i].materialize();
            results.push(r);
            i = i + 1;
        }
        results
    }

    /// Materializes every field and reports, as each one finishes, its index
    /// with its result. Here fields finish in declaration order.
    pub fn load_all_unordered(&mut self) -> (r: Vec<(usize, Result<(), DbfError>)>)
        ensures
            final(self).0@.len() == old(self).0@.len(),
            r@.len() == old(self).0@.len(),
            forall|i: int| 0 <= i < r@.len() ==> (#[trigger] r@[i]).0 == i
                && materialize_post(old(self).0@[i], final(self).0@[i], r@[i].1),
    {
        let mut results: Vec<(usize, Result<(), DbfError>)> = Vec::new();
        let mut i: usize = 0;
        while i < self.0.len()
            invariant
                i <= self.0@.len(),
                self.0@.len() == old(self).0@.len(),
                results@.len() == i,
                forall|k: int| i <= k < self.0@.len() ==> self.0@[k] == old(self).0@[k],
                forall|k: int| 0 <= k < i ==> (#[trigger] results@[k]).0 == k
                    && materialize_post(old(self).0@[k], self.0@[k], results@[k].1),
            decreases self.0@.len() - i,
        {
            let r = self.0[i].materialize();
            results.push((i, r));
            i = i + 1;
        }
        results
    }
}

} // verus!
