use vstd::prelude::*;
use vstd::bytes::{spec_u32_from_le_bytes, u32_from_le_bytes};
use vstd::slice::slice_subrange;

use crate::codepage::{decode_in, decoded_text, encoding_known, label_is_known};
use crate::error::DbfError;

verus! {

/// The kinds of value a field can hold.
#[derive(Clone, Copy, Debug, PartialEq, Eq, Structural)]
pub enum FieldType {
    /// Fixed length character data
    Character,
    /// 8 byte integer divided by 10,000: four decimal places
    Currency,
    /// 8 byte day count
    Date,
    /// 4 byte Julian day and 4 byte milliseconds since midnight
    DateTime,
    /// IEEE floating point
    Double,
    /// Float / Numeric: ASCII text on disk
    Float,
    /// OLE object
    General,
    /// 32 bit integer
    Integer,
    /// 1 byte logical value
    Logical,
    /// 4 byte offset into a memo file
    Memo,
    /// ASCII text on disk, as Float
    Numeric,
    Picture,
    /// Variable length binary data
    Varbinary,
    /// Variable length character data
    Varchar,
}

/// The field kind that a type tag names, if any.
pub open spec fn field_type_of(c: char) -> Option<FieldType> {
    match c {
        'C' => Some(FieldType::Character),
        'Y' => Some(FieldType::Currency),
        'D' => Some(FieldType::Date),
        'T' => Some(FieldType::DateTime),
        'B' => Some(FieldType::Double),
        'F' => Some(FieldType::Float),
        'G' => Some(FieldType::General),
        'I' => Some(FieldType::Integer),
        'L' => Some(FieldType::Logical),
        'M' => Some(FieldType::Memo),
        'N' => Some(FieldType::Float),
        'P' => Some(FieldType::Picture),
        'Q' => Some(FieldType::Varbinary),
        'V' => Some(FieldType::Varchar),
        _ => None,
    }
}

impl FieldType {
    /// The field kind named by a type tag character.
    pub fn from_char(c: char) -> (r: Option<FieldType>)
        ensures
            r == field_type_of(c),
    {
        match c {
            'C' => Some(FieldType::Character),
            'Y' => Some(FieldType::Currency),
            'D' => Some(FieldType::Date),
            'T' => Some(FieldType::DateTime),
            'B' => Some(FieldType::Double),
            'F' => Some(FieldType::Float),
            'G' => Some(FieldType::General),
            'I' => Some(FieldType::Integer),
            'L' => Some(FieldType::Logical),
            'M' => Some(FieldType::Memo),
            'N' => Some(FieldType::Float),
            'P' => Some(FieldType::Picture),
            'Q' => Some(FieldType::Varbinary),
            'V' => Some(FieldType::Varchar),
            _ => None,
        }
    }

    /// The field kind named by the first character of `f`.
    pub fn from_flag(f: &str) -> (r: Result<FieldType, &'static str>)
        ensures
            f@.len() == 0 ==> r is Err,
            f@.len() > 0 ==> match field_type_of(f@[0]) {
                Some(t) => r == Ok::<FieldType, &'static str>(t),
                None => r is Err,
            },
    {
        if f.unicode_len() == 0 {
            return Err("Unsupported flag");
        }
        match FieldType::from_char(f.get_char(0)) {
            Some(t) => Ok(t),
            None => Err("Unsupported flag"),
        }
    }
}

/// The meta data of one field, as its descriptor gives it.
#[derive(Clone, Debug)]
pub struct Field {
    pub name: String,
    pub datatype: u8,
    pub offset: usize,
    pub size: usize,
    pub precision: usize,
    pub next_id: u32,
    pub step: u32,
    pub nullable: Option<()>,
    pub system: Option<()>,
    pub autoincrement: Option<()>,
    pub binary: Option<()>,
}

/// The meta data of a field, as a descriptor or a field value offers it.
pub trait FieldMeta {
    /// The descriptor behind this field.
    spec fn spec_meta(&self) -> Field;

    /// The type tag this field reports.
    spec fn spec_tag(&self) -> u8;

    /// The field accepts null.
    fn nullable(&self) -> (r: bool)
        ensures
            r == self.spec_meta().nullable is Some;

    /// The field is an auto-incremented number.
    fn autoincrement(&self) -> (r: bool)
        ensures
            r == self.spec_meta().autoincrement is Some;

    fn datatype_flag(&self) -> (r: u8)
        ensures
            r == self.spec_tag();

    /// The field's name.
    fn name(&self) -> (r: &str)
        ensures
            r@ == self.spec_meta().name@;

    /// Offset of the field within each record.
    fn rec_offset(&self) -> (r: usize)
        ensures
            r == self.spec_meta().offset;

    /// Size in bytes of the field.
    fn size(&self) -> (r: usize)
        ensures
            r == self.spec_meta().size;

    /// Decimal places of a Float / Numeric field.
    fn precision(&self) -> (r: usize)
        ensures
            r == self.spec_meta().precision;

    /// The next auto-incremented value.
    fn next_id(&mut self) -> (r: u32)
        ensures
            r == old(self).spec_meta().next_id,
            final(self).spec_meta() == old(self).spec_meta(),
            final(self).spec_tag() == old(self).spec_tag();

    /// How much an auto-incremented value grows after use: 1 for an
    /// autoincrement field, 0 for any other.
    fn id_step(&self) -> (r: u32)
        ensures
            r == if self.spec_meta().autoincrement is Some { 1u32 } else { 0u32 },
    {
        if self.autoincrement() {
            1
        } else {
            0
        }
    }
}

impl FieldMeta for Field {
    open spec fn spec_meta(&self) -> Field {
        *self
    }

    open spec fn spec_tag(&self) -> u8 {
        self.datatype
    }

    fn nullable(&self) -> (r: bool) {
        self.nullable.is_some()
    }

    fn autoincrement(&self) -> (r: bool) {
        self.autoincrement.is_some()
    }

    fn datatype_flag(&self) -> (r: u8) {
        self.datatype
    }

    fn name(&self) -> (r: &str) {
        self.name.as_str()
    }

    fn rec_offset(&self) -> (r: usize) {
        self.offset
    }

    fn size(&self) -> (r: usize) {
        self.size
    }

    fn precision(&self) -> (r: usize) {
        self.precision
    }

    fn next_id(&mut self) -> (r: u32) {
        self.next_id
    }
}

/// Length of one field descriptor.
pub const DESCRIPTOR_LEN: usize = 32;

/// Length of the name slot at the start of a descriptor.
pub const NAME_LEN: usize = 10;

/// First byte of the record that ends the descriptor array.
pub const DESCRIPTORS_END: u8 = 0x0D;

/// The length of `s` once its trailing zero bytes are cut off.
pub open spec fn unpadded_len(s: Seq<u8>) -> nat
    decreases s.len(),
{
    if s.len() == 0 {
        0
    } else if s.last() == 0 {
        unpadded_len(s.drop_last())
    } else {
        s.len()
    }
}

pub open spec fn flag_of(set: bool) -> Option<()> {
    if set {
        Some(())
    } else {
        None
    }
}

/// Whether `f` is what the 32 descriptor bytes `d` say, names decoded in the
/// encoding with label `label`.
pub open spec fn field_matches(f: Field, d: Seq<u8>, label: Seq<char>) -> bool {
    let slot = d.subrange(0, NAME_LEN as int);
    &&& f.name@ == decoded_text(label, slot.subrange(0, unpadded_len(slot) as int))
    &&& f.datatype == d[11]
    &&& f.offset == spec_u32_from_le_bytes(d.subrange(12, 16))
    &&& f.size == d[16]
    &&& f.precision == d[17]
    &&& f.system == flag_of(d[18] & 0x01 == 0x01)
    &&& f.nullable == flag_of(d[18] & 0x02 == 0x02)
    &&& f.binary == flag_of(d[18] & 0x04 == 0x04)
    &&& f.autoincrement == flag_of(d[18] & 0x0C == 0x0C)
    &&& f.next_id == spec_u32_from_le_bytes(d.subrange(19, 23))
    &&& f.step == d[23]
}

/// Whether the descriptor `d` names a field kind and a byte range that fits a
/// record of `record_len` bytes.
pub open spec fn descriptor_valid(d: Seq<u8>, record_len: int) -> bool {
    &&& field_type_of(d[11] as char) is Some
    &&& spec_u32_from_le_bytes(d.subrange(12, 16)) + d[16] <= record_len
}

fn unpadded_length(slot: &[u8]) -> (n: usize)
    ensures
        n == unpadded_len(slot@),
        n <= slot@.len(),
{
    let mut n: usize = slot.len();
    assert(slot@.subrange(0, n as int) =~= slot@);
    while n > 0 && slot[n - 1] == 0
        invariant
            n <= slot@.len(),
            unpadded_len(slot@.subrange(0, n as int)) == unpadded_len(slot@),
        decreases n,
    {
        assert(slot@.subrange(0, n as int).drop_last() =~= slot@.subrange(0, n - 1));
        n = n - 1;
    }
    assert(slot@.subrange(0, slot@.len() as int) =~= slot@);
    n
}

/// Decodes one 32-byte field descriptor: bytes 0 to 9 the name (zero
/// padded), byte 11 the type tag, 12 to 15 the offset in the record, 16 the
/// size, 17 the decimal places, 18 the flags, 19 to 22 the next
/// autoincrement value and 23 its step.
pub fn decode_descriptor(desc: &[u8], codepage: &str, record_len: usize) -> (r: Result<Field, DbfError>)
    requires
        desc@.len() == DESCRIPTOR_LEN,
        label_is_known(codepage@),
    ensures
        r is Ok <==> descriptor_valid(desc@, record_len as int),
        r matches Ok(f) ==> field_matches(f, desc@, codepage@),
        r matches Err(e) ==> {
            ||| e == DbfError::UnsupportedFieldType && field_type_of(desc@[11] as char) is None
            ||| e == DbfError::BoundsError && field_type_of(desc@[11] as char) is Some
        },
{
    let datatype = desc[11];
    if FieldType::from_char(datatype as char).is_none() {
        return Err(DbfError::UnsupportedFieldType);
    }
    let offset = u32_from_le_bytes(slice_subrange(desc, 12, 16)) as usize;
    let size = desc[16] as usize;
    if offset > record_len || size > record_len - offset {
        return Err(DbfError::BoundsError);
    }
    let slot = slice_subrange(desc, 0, NAME_LEN);
    let name_len = unpadded_length(slot);
    let name = decode_in(codepage, slice_subrange(slot, 0, name_len));
    let flag = desc[18];
    Ok(Field {
        name,
        datatype,
        offset,
        size,
        precision: desc[17] as usize,
        next_id: u32_from_le_bytes(slice_subrange(desc, 19, 23)),
        step: desc[23] as u32,
        system: if flag & 0x01 == 0x01 { Some(()) } else { None },
        nullable: if flag & 0x02 == 0x02 { Some(()) } else { None },
        binary: if flag & 0x04 == 0x04 { Some(()) } else { None },
        autoincrement: if flag & 0x0C == 0x0C { Some(()) } else { None },
    })
}

/// Whether the descriptor array in `area` ends at descriptor `n`: that slot
/// begins with the terminator byte and no earlier one does.
pub open spec fn ends_at(area: Seq<u8>, n: int) -> bool {
    &&& 0 <= n
    &&& n * DESCRIPTOR_LEN < area.len()
    &&& area[n * DESCRIPTOR_LEN] == DESCRIPTORS_END
    &&& forall|k: int| 0 <= k < n ==> area[#[trigger] (k * DESCRIPTOR_LEN)] != DESCRIPTORS_END
}

/// The descriptor array ends at exactly one place, the first slot that
/// begins with the terminator; an area that begins with it holds no field.
pub proof fn lemma_array_ends_once(area: Seq<u8>, n: int, m: int)
    requires
        ends_at(area, n),
        ends_at(area, m),
    ensures
        n == m,
        area.len() > 0 && area[0] == DESCRIPTORS_END ==> n == 0,
{
    if n < m {
        assert(area[n * DESCRIPTOR_LEN] != DESCRIPTORS_END);
    }
    if m < n {
        assert(area[m * DESCRIPTOR_LEN] != DESCRIPTORS_END);
    }
    if area.len() > 0 && area[0] == DESCRIPTORS_END && n > 0 {
        assert(area[0 * DESCRIPTOR_LEN] != DESCRIPTORS_END);
    }
}

/// The `k`-th 32-byte descriptor of `area`.
pub open spec fn descriptor_at(area: Seq<u8>, k: int) -> Seq<u8> {
    area.subrange(k * DESCRIPTOR_LEN, k * DESCRIPTOR_LEN + DESCRIPTOR_LEN)
}

/// Decodes the field descriptor array that follows the file header. `area`
/// starts at the first descriptor; the array ends at the first 32-byte slot
/// whose first byte is 0x0D, which yields no field. Fields keep their order
/// of declaration; an array that ends at once gives no field. Names are
/// decoded in the encoding with label `codepage`, and each field must fit a
/// record of `record_len` bytes.
pub fn decode_fields(area: &[u8], codepage: &str, record_len: usize) -> (r: Result<Vec<Field>, DbfError>)
    ensures
        r matches Ok(fields) ==> {
            &&& label_is_known(codepage@)
            &&& ends_at(area@, fields@.len() as int)
            &&& forall|k: int| 0 <= k < fields@.len()
                ==> descriptor_valid(#[trigger] descriptor_at(area@, k), record_len as int)
            &&& forall|k: int| 0 <= k < fields@.len()
                ==> field_matches(#[trigger] fields@[k], descriptor_at(area@, k), codepage@)
        },
        r matches Err(e) ==> {
            ||| e == DbfError::UnknownCodepage && !label_is_known(codepage@)
            ||| e == DbfError::MalformedDescriptor
                && forall|k: int| 0 <= k && #[trigger] (k * DESCRIPTOR_LEN) < area@.len()
                    ==> area@[k * DESCRIPTOR_LEN] != DESCRIPTORS_END
            ||| (e == DbfError::UnsupportedFieldType || e == DbfError::BoundsError)
                && exists|n: int| #![trigger descriptor_at(area@, n)] 0 <= n && n * DESCRIPTOR_LEN + DESCRIPTOR_LEN <= area@.len()
                    && area@[n * DESCRIPTOR_LEN] != DESCRIPTORS_END
                    && !descriptor_valid(descriptor_at(area@, n), record_len as int)
                    && forall|k: int| 0 <= k < n ==> area@[#[trigger] (k * DESCRIPTOR_LEN)] != DESCRIPTORS_END
        },
{
    if !encoding_known(codepage) {
        return Err(DbfError::UnknownCodepage);
    }
    let mut fields: Vec<Field> = Vec::new();
    let mut pos: usize = 0;
    loop
        invariant
            pos == fields@.len() * DESCRIPTOR_LEN,
            pos <= area@.len(),
            label_is_known(codepage@),
            forall|k: int| 0 <= k < fields@.len() ==> area@[#[trigger] (k * DESCRIPTOR_LEN)] != DESCRIPTORS_END,
            forall|k: int| 0 <= k < fields@.len()
                ==> descriptor_valid(#[trigger] descriptor_at(area@, k), record_len as int),
            forall|k: int| 0 <= k < fields@.len()
                ==> field_matches(#[trigger] fields@[k], descriptor_at(area@, k), codepage@),
        decreases area@.len() - pos,
    {
        if pos >= area.len() {
            return Err(DbfError::MalformedDescriptor);
        }
        if area[pos] == DESCRIPTORS_END {
            assert(ends_at(area@, fields@.len() as int));
            return Ok(fields);
        }
        if area.len() - pos < DESCRIPTOR_LEN {
            return Err(DbfError::MalformedDescriptor);
        }
        let desc = slice_subrange(area, pos, pos + DESCRIPTOR_LEN);
        assert(desc@ == descriptor_at(area@, fields@.len() as int));
        let field = match decode_descriptor(desc, codepage, record_len) {
            Ok(f) => f,
            Err(e) => {
                return Err(e);
            },
        };
        let ghost n = fields@.len() as int;
        assert(area@[n * DESCRIPTOR_LEN] != DESCRIPTORS_END);
        fields.push(field);
        assert(fields@[n] == field);
        pos = pos + DESCRIPTOR_LEN;
    }
}

} // verus!
