//! IPFIX (RFC 7011) wire structures: message and set headers, templates,
//! option templates and data records.
use vstd::prelude::*;
use std::collections::HashMap;
use crate::bytes::{
    be_bytes, be_value, lemma_u16_at, lemma_u32_at, read_be, read_u16, read_u32, read_u64, u16_at,
    u32_at, window,
};
use crate::error::DecodeError;
use crate::field_type::{FieldType, is_known_id};

verus! {

pub const VERSION: u16 = 10;

/// Message header: the 16 octets that open every IPFIX datagram.
#[derive(Clone, Copy, Debug, PartialEq, Eq, Structural)]
pub struct Header {
    /// Version of IPFIX to which this message conforms.
    pub version: u16,
    /// Total length of the message in octets, header and sets included.
    pub length: u16,
    /// Seconds since the UNIX epoch at which the message left the exporter.
    pub export_time: u32,
    /// Sequence counter, modulo 2^32, of the data records sent by the domain.
    pub seq_number: u32,
    /// Observation domain that metered the flows.
    pub domain_id: u32,
}

/// The message header that the first 16 octets of `s` hold.
pub open spec fn header_of(s: Seq<u8>) -> Header {
    Header {
        version: u16_at(s, 0),
        length: u16_at(s, 2),
        export_time: u32_at(s, 4),
        seq_number: u32_at(s, 8),
        domain_id: u32_at(s, 12),
    }
}

impl Header {
    pub const SIZE: usize = 16;

    pub fn read(buf: &[u8]) -> (r: Result<Header, DecodeError>)
        ensures
            buf@.len() < 16 ==> r == Err::<Header, DecodeError>(
                DecodeError::ShortBuffer { required: 16, received: buf@.len() as usize },
            ),
            buf@.len() >= 16 ==> r == Ok::<Header, DecodeError>(header_of(buf@)),
    {
        if buf.len() < Self::SIZE {
            return Err(DecodeError::ShortBuffer { required: Self::SIZE, received: buf.len() });
        }
        proof {
            lemma_u16_at(buf@, 0);
            lemma_u16_at(buf@, 2);
            lemma_u32_at(buf@, 4);
            lemma_u32_at(buf@, 8);
            lemma_u32_at(buf@, 12);
        }
        Ok(Header {
            version: read_u16(buf, 0),
            length: read_u16(buf, 2),
            export_time: read_u32(buf, 4),
            seq_number: read_u32(buf, 8),
            domain_id: read_u32(buf, 12),
        })
    }
}

/// Set header: the 4 octets that open every set of a message.
#[derive(Clone, Copy, Debug, PartialEq, Eq, Structural)]
pub struct SetHeader {
    /// Identifies the set: 2 template set, 3 option template set, 256 and above data set.
    pub id: u16,
    /// Total length of the set in octets, header, records and padding included.
    pub length: u16,
}

impl SetHeader {
    pub const SIZE: usize = 4;

    pub fn read(buf: &[u8]) -> (r: Result<SetHeader, DecodeError>)
        ensures
            buf@.len() < 4 ==> r == Err::<SetHeader, DecodeError>(
                DecodeError::ShortBuffer { required: 4, received: buf@.len() as usize },
            ),
            buf@.len() >= 4 ==> r == Ok::<SetHeader, DecodeError>(
                SetHeader { id: u16_at(buf@, 0), length: u16_at(buf@, 2) },
            ),
    {
        if buf.len() < Self::SIZE {
            return Err(DecodeError::ShortBuffer { required: Self::SIZE, received: buf.len() });
        }
        proof {
            lemma_u16_at(buf@, 0);
            lemma_u16_at(buf@, 2);
        }
        Ok(SetHeader { id: read_u16(buf, 0), length: read_u16(buf, 2) })
    }

    /// Octets of the set that follow its header.
    pub fn content_size(&self) -> (r: usize)
        requires
            self.length >= 4,
        ensures
            r == self.length - 4,
    {
        self.length as usize - Self::SIZE
    }
}

/// Template record header: template id and field count.
#[derive(Clone, Copy, Debug, PartialEq, Eq, Structural)]
pub struct TemplateHeader {
    /// Template id, 256 to 65535.
    pub id: u16,
    /// Number of fields in the template record.
    pub field_count: u16,
}

impl TemplateHeader {
    pub const SIZE: usize = 4;

    pub fn read(buf: &[u8]) -> (r: Result<TemplateHeader, DecodeError>)
        ensures
            buf@.len() < 4 ==> r == Err::<TemplateHeader, DecodeError>(
                DecodeError::ShortBuffer { required: 4, received: buf@.len() as usize },
            ),
            buf@.len() >= 4 ==> r == Ok::<TemplateHeader, DecodeError>(
                TemplateHeader { id: u16_at(buf@, 0), field_count: u16_at(buf@, 2) },
            ),
    {
        if buf.len() < Self::SIZE {
            return Err(DecodeError::ShortBuffer { required: Self::SIZE, received: buf.len() });
        }
        proof {
            lemma_u16_at(buf@, 0);
            lemma_u16_at(buf@, 2);
        }
        Ok(TemplateHeader { id: read_u16(buf, 0), field_count: read_u16(buf, 2) })
    }
}

/// Option template record header: template id, field count and scope field count.
#[derive(Clone, Copy, Debug, PartialEq, Eq, Structural)]
pub struct OptionTemplateHeader {
    /// Option template id, 256 to 65535.
    pub id: u16,
    /// Number of fields, scope fields included.
    pub field_count: u16,
    /// Number of scope fields; they come first.
    pub scope_field_count: u16,
}

impl OptionTemplateHeader {
    pub const SIZE: usize = 6;

    pub fn read(buf: &[u8]) -> (r: Result<OptionTemplateHeader, DecodeError>)
        ensures
            buf@.len() < 6 ==> r == Err::<OptionTemplateHeader, DecodeError>(
                DecodeError::ShortBuffer { required: 6, received: buf@.len() as usize },
            ),
            buf@.len() >= 6 ==> r == Ok::<OptionTemplateHeader, DecodeError>(
                OptionTemplateHeader {
                    id: u16_at(buf@, 0),
                    field_count: u16_at(buf@, 2),
                    scope_field_count: u16_at(buf@, 4),
                },
            ),
    {
        if buf.len() < Self::SIZE {
            return Err(DecodeError::ShortBuffer { required: Self::SIZE, received: buf.len() });
        }
        proof {
            lemma_u16_at(buf@, 0);
            lemma_u16_at(buf@, 2);
            lemma_u16_at(buf@, 4);
        }
        Ok(
            OptionTemplateHeader {
                id: read_u16(buf, 0),
                field_count: read_u16(buf, 2),
                scope_field_count: read_u16(buf, 4),
            },
        )
    }
}

/// Template field specifier: which information element, and how many octets it takes.
#[derive(Clone, Copy, Debug, PartialEq, Eq, Structural)]
pub struct TemplateField {
    pub id: FieldType,
    pub length: u16,
}

/// What reading a template field from the first octets of `s` gives.
pub open spec fn field_result(s: Seq<u8>) -> Result<(u16, u16), DecodeError> {
    if s.len() < 4 {
        Err(DecodeError::ShortBuffer { required: 4, received: s.len() as usize })
    } else if !is_known_id(u16_at(s, 0)) {
        Err(DecodeError::UnknownFieldId(u16_at(s, 0)))
    } else {
        Ok((u16_at(s, 0), u16_at(s, 2)))
    }
}

/// `f` is the field that the octets `s` describe.
pub open spec fn field_matches(f: TemplateField, s: Seq<u8>) -> bool {
    field_result(s) == Ok::<(u16, u16), DecodeError>((f.id.spec_id(), f.length))
}

impl TemplateField {
    pub const SIZE: usize = 4;

    pub fn read(buf: &[u8]) -> (r: Result<TemplateField, DecodeError>)
        ensures
            match r {
                Ok(f) => field_matches(f, buf@),
                Err(e) => field_result(buf@) == Err::<(u16, u16), DecodeError>(e),
            },
    {
        if buf.len() < Self::SIZE {
            return Err(DecodeError::ShortBuffer { required: Self::SIZE, received: buf.len() });
        }
        proof {
            lemma_u16_at(buf@, 0);
            lemma_u16_at(buf@, 2);
        }
        let id_num = read_u16(buf, 0);
        match FieldType::from_u16(id_num) {
            Some(id) => Ok(TemplateField { id, length: read_u16(buf, 2) }),
            None => Err(DecodeError::UnknownFieldId(id_num)),
        }
    }
}

/// The layout of a template: for each field, in order, the element id and the length.
pub open spec fn layout(fields: Seq<TemplateField>) -> Seq<(u16, u16)> {
    fields.map_values(|f: TemplateField| (f.id.spec_id(), f.length))
}

/// Octets that the first `i` fields of a layout take in a data record.
pub open spec fn field_offset(fields: Seq<(u16, u16)>, i: int) -> nat
    decreases i,
{
    if i <= 0 {
        0
    } else {
        field_offset(fields, i - 1) + fields[i - 1].1 as nat
    }
}

/// Octets that one data record of this layout takes.
pub open spec fn fields_length(fields: Seq<(u16, u16)>) -> nat {
    field_offset(fields, fields.len() as int)
}

/// The octets of `s` from `off` on.
pub open spec fn rest(s: Seq<u8>, off: int) -> Seq<u8> {
    s.subrange(off, s.len() as int)
}

/// The first error met when reading the field specifiers `i .. count` that follow
/// a template header of `start` octets at the head of `s`, if any.
pub open spec fn fields_error(s: Seq<u8>, start: int, i: int, count: int) -> Option<DecodeError>
    decreases count - i,
{
    if i >= count || start + 4 * i > s.len() {
        None
    } else {
        match field_result(rest(s, start + 4 * i)) {
            Err(e) => Some(e),
            Ok(_) => fields_error(s, start, i + 1, count),
        }
    }
}

/// `fields` are the field specifiers that follow a template header of `start` octets in `s`.
pub open spec fn fields_read(fields: Seq<TemplateField>, s: Seq<u8>, start: int) -> bool {
    forall|i: int|
        0 <= i < fields.len() ==> field_matches(#[trigger] fields[i], rest(s, start + 4 * i))
}

/// Reading field specifiers fails only for want of octets or for an unknown element.
pub proof fn lemma_fields_error_kind(s: Seq<u8>, start: int, i: int, count: int)
    ensures
        fields_error(s, start, i, count) matches Some(e) ==> (e is ShortBuffer || e is UnknownFieldId),
    decreases count - i,
{
    if i < count && start + 4 * i <= s.len() {
        lemma_fields_error_kind(s, start, i + 1, count);
    }
}

proof fn lemma_fields_error_step(s: Seq<u8>, start: int, i: int, count: int)
    requires
        0 <= start,
        0 <= i < count,
        start + 4 * i <= s.len(),
        field_result(rest(s, start + 4 * i)) is Ok,
    ensures
        fields_error(s, start, i, count) == fields_error(s, start, i + 1, count),
{
}

/// Reads `count` field specifiers from `buf`, the first at `start`. Also gives the
/// octets that a data record of those fields takes.
fn read_fields(buf: &[u8], start: usize, count: u16) -> (r: Result<(Vec<TemplateField>, usize), DecodeError>)
    requires
        start <= buf@.len(),
    ensures
        match r {
            Ok((fields, length)) => {
                &&& fields_error(buf@, start as int, 0, count as int) is None
                &&& start + 4 * count <= buf@.len()
                &&& fields@.len() == count
                &&& fields_read(fields@, buf@, start as int)
                &&& length == fields_length(layout(fields@))
            },
            Err(e) => fields_error(buf@, start as int, 0, count as int) == Some(e),
        },
{
    let n = buf.len();
    let mut fields: Vec<TemplateField> = Vec::new();
    let mut offset: usize = start;
    let mut length: usize = 0;
    let mut i: u16 = 0;
    while i < count
        invariant
            n == buf@.len(),
            start <= offset <= n,
            offset == start + 4 * i,
            i <= count,
            fields@.len() == i,
            fields_read(fields@, buf@, start as int),
            length == fields_length(layout(fields@)),
            length <= 65535 * i,
            fields_error(buf@, start as int, 0, count as int)
                == fields_error(buf@, start as int, i as int, count as int),
        decreases count - i,
    {
        let field = TemplateField::read(&buf[offset..n]);
        assert(buf@.subrange(offset as int, n as int) =~= rest(buf@, offset as int));
        match field {
            Err(e) => {
                return Err(e);
            },
            Ok(field) => {
                proof {
                    lemma_fields_error_step(buf@, start as int, i as int, count as int);
                    let l0 = layout(fields@);
                    let l1 = layout(fields@.push(field));
                    assert(l1 =~= l0.push((field.id.spec_id(), field.length)));
                    assert(field_offset(l1, i + 1) == field_offset(l0, i as int) + field.length) by {
                        lemma_field_offset_prefix(l1, l0, i as int);
                    }
                    assert(length + field.length <= 65535 * (i + 1)) by (nonlinear_arith)
                        requires
                            length <= 65535 * i,
                            field.length <= 65535,
                    ;
                }
                length = length + field.length as usize;
                fields.push(field);
                offset = offset + TemplateField::SIZE;
                i = i + 1;
            },
        }
    }
    Ok((fields, length))
}

/// The offsets within a record depend only on the fields before them.
proof fn lemma_field_offset_prefix(a: Seq<(u16, u16)>, b: Seq<(u16, u16)>, i: int)
    requires
        0 <= i <= b.len(),
        i <= a.len(),
        forall|j: int| 0 <= j < i ==> a[j] == b[j],
    ensures
        field_offset(a, i) == field_offset(b, i),
    decreases i,
{
    if i > 0 {
        lemma_field_offset_prefix(a, b, i - 1);
    }
}

/// A template: the layout of the data records of a data set.
pub struct DataSetTemplate {
    pub header: TemplateHeader,
    pub fields: Vec<TemplateField>,
    /// Octets of one data record: the sum of the field lengths.
    pub length: usize,
}

impl DataSetTemplate {
    pub const SET_ID: u16 = 2;

    /// The record length is the sum of the field lengths, and the header counts the fields.
    pub open spec fn wf(&self) -> bool {
        &&& self.fields@.len() == self.header.field_count
        &&& self.length == fields_length(layout(self.fields@))
    }

    /// Reads a template record at the head of `buf`; gives it with the octets it took.
    /// A template id below 256 is an error.
    pub fn read(buf: &[u8]) -> (r: Result<(DataSetTemplate, usize), DecodeError>)
        ensures
            buf@.len() < 4 ==> r == Err::<(DataSetTemplate, usize), DecodeError>(
                DecodeError::ShortBuffer { required: 4, received: buf@.len() as usize },
            ),
            buf@.len() >= 4 && u16_at(buf@, 0) < 256 ==> r == Err::<(DataSetTemplate, usize), DecodeError>(
                DecodeError::BadTemplateId(u16_at(buf@, 0)),
            ),
            buf@.len() >= 4 && u16_at(buf@, 0) >= 256 ==> match r {
                Ok((t, size)) => {
                    &&& fields_error(buf@, 4, 0, u16_at(buf@, 2) as int) is None
                    &&& t.wf()
                    &&& t.header == TemplateHeader { id: u16_at(buf@, 0), field_count: u16_at(buf@, 2) }
                    &&& fields_read(t.fields@, buf@, 4)
                    &&& size == 4 + 4 * t.header.field_count
                    &&& size <= buf@.len()
                },
                Err(e) => fields_error(buf@, 4, 0, u16_at(buf@, 2) as int) == Some(e),
            },
    {
        let header = TemplateHeader::read(buf)?;
        if header.id < DataSet::MIN_SET_ID {
            return Err(DecodeError::BadTemplateId(header.id));
        }
        let (fields, length) = read_fields(buf, TemplateHeader::SIZE, header.field_count)?;
        let size = TemplateHeader::SIZE + 4 * header.field_count as usize;
        Ok((DataSetTemplate { header, fields, length }, size))
    }
}

/// An option template: a template whose first fields are scope fields, and whose
/// records describe the exporter rather than traffic.
pub struct OptionDataSetTemplate {
    pub header: OptionTemplateHeader,
    pub fields: Vec<TemplateField>,
    /// Octets of one data record: the sum of the field lengths.
    pub length: usize,
}

impl OptionDataSetTemplate {
    pub const SET_ID: u16 = 3;

    /// The record length is the sum of the field lengths, and the header counts the fields.
    pub open spec fn wf(&self) -> bool {
        &&& self.fields@.len() == self.header.field_count
        &&& self.length == fields_length(layout(self.fields@))
    }

    /// Reads an option template record at the head of `buf`; gives it with the octets it took.
    /// A template id below 256 is an error.
    pub fn read(buf: &[u8]) -> (r: Result<(OptionDataSetTemplate, usize), DecodeError>)
        ensures
            buf@.len() < 6 ==> r == Err::<(OptionDataSetTemplate, usize), DecodeError>(
                DecodeError::ShortBuffer { required: 6, received: buf@.len() as usize },
            ),
            buf@.len() >= 6 && u16_at(buf@, 0) < 256 ==> r == Err::<(OptionDataSetTemplate, usize), DecodeError>(
                DecodeError::BadTemplateId(u16_at(buf@, 0)),
            ),
            buf@.len() >= 6 && u16_at(buf@, 0) >= 256 ==> match r {
                Ok((t, size)) => {
                    &&& fields_error(buf@, 6, 0, u16_at(buf@, 2) as int) is None
                    &&& t.wf()
                    &&& t.header == OptionTemplateHeader {
                        id: u16_at(buf@, 0),
                        field_count: u16_at(buf@, 2),
                        scope_field_count: u16_at(buf@, 4),
                    }
                    &&& fields_read(t.fields@, buf@, 6)
                    &&& size == 6 + 4 * t.header.field_count
                    &&& size <= buf@.len()
                },
                Err(e) => fields_error(buf@, 6, 0, u16_at(buf@, 2) as int) == Some(e),
            },
    {
        let header = OptionTemplateHeader::read(buf)?;
        if header.id < DataSet::MIN_SET_ID {
            return Err(DecodeError::BadTemplateId(header.id));
        }
        let (fields, length) = read_fields(buf, OptionTemplateHeader::SIZE, header.field_count)?;
        let size = OptionTemplateHeader::SIZE + 4 * header.field_count as usize;
        Ok((OptionDataSetTemplate { header, fields, length }, size))
    }
}

/// The value of one field of a data record, chosen by the field's length.
#[derive(Clone, Debug, PartialEq, Eq)]
pub enum FieldValue {
    U8(u8),
    U16(u16),
    U32(u32),
    U64(u64),
    U128(u128),
    /// Any other length: the octets as they stand.
    Dyn(Vec<u8>),
}

impl FieldValue {
    /// The octets that carry the value on the wire.
    pub open spec fn wire_bytes(self) -> Seq<u8> {
        match self {
            FieldValue::U8(x) => be_bytes(x as nat, 1),
            FieldValue::U16(x) => be_bytes(x as nat, 2),
            FieldValue::U32(x) => be_bytes(x as nat, 4),
            FieldValue::U64(x) => be_bytes(x as nat, 8),
            FieldValue::U128(x) => be_bytes(x as nat, 16),
            FieldValue::Dyn(d) => d@,
        }
    }
}

/// Field lengths that decode to an integer.
pub open spec fn is_integer_width(n: nat) -> bool {
    n == 1 || n == 2 || n == 4 || n == 8 || n == 16
}

/// `v` is what the field octets `b` decode to.
pub open spec fn value_decodes(v: FieldValue, b: Seq<u8>) -> bool {
    match v {
        FieldValue::U8(x) => b.len() == 1 && x as nat == be_value(b),
        FieldValue::U16(x) => b.len() == 2 && x as nat == be_value(b),
        FieldValue::U32(x) => b.len() == 4 && x as nat == be_value(b),
        FieldValue::U64(x) => b.len() == 8 && x as nat == be_value(b),
        FieldValue::U128(x) => b.len() == 16 && x as nat == be_value(b),
        FieldValue::Dyn(d) => !is_integer_width(b.len()) && d@ == b,
    }
}

/// Decodes the `len` octets of `buf` at `off`.
fn read_value(buf: &[u8], off: usize, len: u16) -> (r: FieldValue)
    requires
        off + len <= buf@.len(),
    ensures
        value_decodes(r, window(buf@, off as int, len as int)),
{
    if len == 1 {
        proof {
            reveal_with_fuel(be_value, 2);
            assert(window(buf@, off as int, 1).drop_last() =~= Seq::<u8>::empty());
        }
        FieldValue::U8(buf[off])
    } else if len == 2 {
        FieldValue::U16(read_u16(buf, off))
    } else if len == 4 {
        FieldValue::U32(read_u32(buf, off))
    } else if len == 8 {
        FieldValue::U64(read_u64(buf, off))
    } else if len == 16 {
        FieldValue::U128(read_be(buf, off, 16))
    } else {
        let n = buf.len();
        let end = off + len as usize;
        let d = vstd::slice::slice_to_vec(&buf[off..end]);
        assert(d@ =~= window(buf@, off as int, len as int));
        FieldValue::Dyn(d)
    }
}

/// The position of the last of the first `j` fields that is the element `k`, or -1.
pub open spec fn last_index(fields: Seq<(u16, u16)>, j: int, k: u16) -> int
    decreases j,
{
    if j <= 0 {
        -1
    } else if fields[j - 1].0 == k {
        j - 1
    } else {
        last_index(fields, j - 1, k)
    }
}

/// The octets of field `i` within the data record `rec`.
pub open spec fn field_bytes(fields: Seq<(u16, u16)>, i: int, rec: Seq<u8>) -> Seq<u8> {
    window(rec, field_offset(fields, i) as int, fields[i].1 as int)
}

/// `m` holds, for each element among the first `j` fields, the value of its last
/// occurrence in the record `rec`, and nothing else.
pub open spec fn decodes_prefix(
    m: Map<u16, FieldValue>,
    fields: Seq<(u16, u16)>,
    j: int,
    rec: Seq<u8>,
) -> bool {
    &&& forall|k: u16| #[trigger] m.contains_key(k) <==> last_index(fields, j, k) >= 0
    &&& forall|k: u16|
        #[trigger] m.contains_key(k) ==> value_decodes(
            m[k],
            field_bytes(fields, last_index(fields, j, k), rec),
        )
}

/// `m` is what the data record `rec` of a template with these fields decodes to:
/// one value per element, that of the element's last field when it repeats.
pub open spec fn decodes_record(m: Map<u16, FieldValue>, fields: Seq<(u16, u16)>, rec: Seq<u8>) -> bool {
    decodes_prefix(m, fields, fields.len() as int, rec)
}

pub proof fn lemma_last_index_range(fields: Seq<(u16, u16)>, j: int, k: u16)
    requires
        0 <= j,
    ensures
        last_index(fields, j, k) < j,
        last_index(fields, j, k) >= 0 ==> fields[last_index(fields, j, k)].0 == k,
    decreases j,
{
    if j > 0 {
        lemma_last_index_range(fields, j - 1, k);
    }
}

pub proof fn lemma_field_offset_mono(fields: Seq<(u16, u16)>, i: int, j: int)
    requires
        0 <= i <= j <= fields.len(),
    ensures
        field_offset(fields, i) <= field_offset(fields, j),
    decreases j,
{
    if i < j {
        lemma_field_offset_mono(fields, i, j - 1);
    }
}

/// Each field of a whole record takes the octets that the layout gives it.
pub proof fn lemma_field_bytes_len(fields: Seq<(u16, u16)>, i: int, rec: Seq<u8>)
    requires
        0 <= i < fields.len(),
        fields_length(fields) <= rec.len(),
    ensures
        field_bytes(fields, i, rec).len() == fields[i].1,
{
    lemma_field_offset_mono(fields, i + 1, fields.len() as int);
}

/// The element ids of a layout are pairwise distinct.
pub open spec fn ids_distinct(l: Seq<(u16, u16)>) -> bool {
    forall|i: int, j: int| 0 <= i < j < l.len() ==> #[trigger] l[i].0 != #[trigger] l[j].0
}

/// The octets that the values of `m` give when written back field by field,
/// for the first `j` fields of layout `l`.
pub open spec fn reencoded(m: Map<u16, FieldValue>, l: Seq<(u16, u16)>, j: int) -> Seq<u8>
    decreases j,
{
    if j <= 0 {
        Seq::empty()
    } else {
        reencoded(m, l, j - 1) + m[l[j - 1].0].wire_bytes()
    }
}

/// A value written back gives the octets it was decoded from.
pub proof fn lemma_value_round_trip(v: FieldValue, b: Seq<u8>)
    requires
        value_decodes(v, b),
    ensures
        v.wire_bytes() == b,
{
    crate::bytes::lemma_be_round_trip(b);
}

proof fn lemma_last_index_distinct(l: Seq<(u16, u16)>, j: int, i: int)
    requires
        ids_distinct(l),
        0 <= i < j <= l.len(),
    ensures
        last_index(l, j, l[i].0) == i,
    decreases j,
{
    if i < j - 1 {
        lemma_last_index_distinct(l, j - 1, i);
    }
}

/// Round trip: when a template names each element once, writing the values of a
/// decoded record back in template order gives the record's octets.
pub proof fn lemma_record_round_trip(m: Map<u16, FieldValue>, l: Seq<(u16, u16)>, rec: Seq<u8>)
    requires
        ids_distinct(l),
        rec.len() == fields_length(l),
        decodes_record(m, l, rec),
    ensures
        reencoded(m, l, l.len() as int) == rec,
{
    lemma_reencoded_prefix(m, l, rec, l.len() as int);
    assert(rec.subrange(0, fields_length(l) as int) =~= rec);
}

proof fn lemma_reencoded_prefix(m: Map<u16, FieldValue>, l: Seq<(u16, u16)>, rec: Seq<u8>, j: int)
    requires
        ids_distinct(l),
        rec.len() == fields_length(l),
        decodes_record(m, l, rec),
        0 <= j <= l.len(),
    ensures
        reencoded(m, l, j) == rec.subrange(0, field_offset(l, j) as int),
    decreases j,
{
    if j > 0 {
        lemma_reencoded_prefix(m, l, rec, j - 1);
        let k = l[j - 1].0;
        lemma_last_index_distinct(l, l.len() as int, j - 1);
        assert(m.contains_key(k));
        lemma_value_round_trip(m[k], field_bytes(l, j - 1, rec));
        lemma_field_offset_mono(l, j, l.len() as int);
        assert(reencoded(m, l, j) =~= rec.subrange(0, field_offset(l, j) as int));
    }
}

/// Sampling correction of one counter: `k` multiplied by `s` (modulo 2^64) where it
/// holds a 64-bit value and `s` is not zero.
pub open spec fn scaled(m: Map<u16, FieldValue>, k: u16, s: u64) -> Map<u16, FieldValue> {
    if s > 0 && m.contains_key(k) {
        match m[k] {
            FieldValue::U64(v) => m.insert(k, FieldValue::U64(v.wrapping_mul(s))),
            _ => m,
        }
    } else {
        m
    }
}

/// A decoded IPFIX data record: one value per information element, keyed by
/// the element's identifier.
#[derive(Debug)]
pub struct DataSet {
    pub fields: HashMap<u16, FieldValue>,
}

impl DataSet {
    pub const MIN_SET_ID: u16 = 256;

    /// Decodes one data record laid out by `field_list` from the head of `buf`;
    /// `min_size` is the record length.
    pub fn read(buf: &[u8], field_list: &Vec<TemplateField>, min_size: usize) -> (r: Result<DataSet, DecodeError>)
        requires
            min_size == fields_length(layout(field_list@)),
        ensures
            buf@.len() < min_size ==> r == Err::<DataSet, DecodeError>(
                DecodeError::ShortBuffer { required: min_size, received: buf@.len() as usize },
            ),
            buf@.len() >= min_size ==> (r matches Ok(d) && decodes_record(d.fields@, layout(field_list@), buf@)),
    {
        broadcast use vstd::std_specs::hash::group_hash_axioms;
        if buf.len() < min_size {
            return Err(DecodeError::ShortBuffer { required: min_size, received: buf.len() });
        }
        let mut fields: HashMap<u16, FieldValue> = HashMap::new();
        let mut offset: usize = 0;
        let mut i: usize = 0;
        while i < field_list.len()
            invariant
                i <= field_list@.len(),
                offset == field_offset(layout(field_list@), i as int),
                min_size == fields_length(layout(field_list@)),
                min_size <= buf@.len(),
                decodes_prefix(fields@, layout(field_list@), i as int, buf@),
            decreases field_list@.len() - i,
        {
            let field = field_list[i];
            proof {
                lemma_field_offset_mono(layout(field_list@), i + 1, field_list@.len() as int);
            }
            let value = read_value(buf, offset, field.length);
            let k = field.id.id();
            fields.insert(k, value);
            proof {
                assert forall|q: u16| #[trigger] fields@.contains_key(q) implies value_decodes(
                    fields@[q],
                    field_bytes(layout(field_list@), last_index(layout(field_list@), i + 1, q), buf@),
                ) by {
                    if q != k {
                        lemma_last_index_range(layout(field_list@), i as int, q);
                    }
                }
            }
            offset = offset + field.length as usize;
            i = i + 1;
        }
        Ok(DataSet { fields })
    }

    /// Sampling correction: multiplies the 64-bit octet and packet delta counts by
    /// `sampling`, unless it is zero.
    pub fn add_sampling(&mut self, sampling: u64)
        ensures
            final(self).fields@ == scaled(scaled(old(self).fields@, 1, sampling), 2, sampling),
    {
        broadcast use vstd::std_specs::hash::group_hash_axioms;
        if sampling > 0 {
            self.scale_counter(FieldType::OctetDeltaCount.id(), sampling);
            self.scale_counter(FieldType::PacketDeltaCount.id(), sampling);
        }
    }

    fn scale_counter(&mut self, k: u16, sampling: u64)
        requires
            sampling > 0,
        ensures
            final(self).fields@ == scaled(old(self).fields@, k, sampling),
    {
        broadcast use vstd::std_specs::hash::group_hash_axioms;
        let current = match self.fields.get(&k) {
            Some(FieldValue::U64(v)) => Some(*v),
            _ => None,
        };
        if let Some(v) = current {
            self.fields.insert(k, FieldValue::U64(v.wrapping_mul(sampling)));
        }
    }

    /// The value of `field`, if the record holds it.
    pub fn get(&self, field: FieldType) -> (r: Option<&FieldValue>)
        ensures
            match r {
                Some(v) => self.fields@.contains_key(field.spec_id()) && *v == self.fields@[field.spec_id()],
                None => !self.fields@.contains_key(field.spec_id()),
            },
    {
        broadcast use vstd::std_specs::hash::group_hash_axioms;
        self.fields.get(&field.id())
    }

    /// Number of elements the record holds.
    pub fn len(&self) -> (r: usize)
        ensures
            r == self.fields@.len(),
    {
        broadcast use vstd::std_specs::hash::group_hash_axioms;
        self.fields.len()
    }
}

} // verus!
