//! Reader and decoder for dBase / FoxPro table files, with an in-memory
//! table algebra (select, join, aggregate, update) over decoded rows.

pub mod calendar;
pub mod codec;
pub mod codepage;
pub mod error;
pub mod field;
pub mod header;
pub mod join;
pub mod record;
pub mod table;

pub use calendar::Date;
pub use codec::{
    decode_character, decode_currency, decode_date, decode_date_time, encode_character, encode_date,
    ConversionField, DateTime, RawCharField, RawCurrencyField, RawDateField,
};
pub use codepage::cp_mapper;
pub use error::DbfError;
pub use field::{decode_descriptor, decode_fields, Field, FieldMeta, FieldType};
pub use header::{decode_header, DBFType, Header};
pub use join::{join, JoinConditionBuilder, JoinTableIter};
pub use record::{CharField, CurrencyField, DateField, DateTimeField, FieldValue, Record};
pub use table::{InMemoryTable, RecordOps, TableIter, TableOps};
