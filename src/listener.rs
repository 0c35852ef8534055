//! Datagram decoding: the version dispatch, the NetFlow v5 message decoder and
//! the IPFIX message decoder with its template cache.
use vstd::prelude::*;
use crate::bytes::{be_value, read_u16, u16_at};
use crate::error::DecodeError;
use crate::exporters::{installed, with_sampling, Exporter, ExporterList, ExporterModel, IpAddress};
use crate::field_type::FieldType;
use crate::flow::{Flow, Template, TemplateModel};
use crate::ipfix::{
    decodes_record, field_bytes, fields_error, fields_length, last_index, layout, rest, scaled,
    DataSet, DataSetTemplate, FieldValue, OptionDataSetTemplate, OptionTemplateHeader,
    SetHeader, TemplateField, TemplateHeader,
};
use crate::{ipfix, netflow5};

verus! {

/// The flow records that a valid NetFlow v5 datagram `s` holds, `n` of them,
/// with their counters corrected by the header's sampling interval.
pub open spec fn v5_records(s: Seq<u8>, n: int) -> Seq<Flow> {
    Seq::new(
        n as nat,
        |i: int|
            Flow::V5(
                netflow5::sampled(
                    netflow5::record_of(s.subrange(24 + 48 * i, s.len() as int)),
                    (netflow5::header_of(s).sampl % 16384) as u32,
                ),
            ),
    )
}

/// What decoding the NetFlow v5 datagram `s` gives: a short datagram, a version
/// other than 5 and a record count that disagrees with the size are errors.
pub open spec fn v5_outcome(s: Seq<u8>) -> Result<Seq<Flow>, DecodeError> {
    if s.len() < 24 {
        Err(DecodeError::ShortBuffer { required: 24, received: s.len() as usize })
    } else if netflow5::header_of(s).version != netflow5::VERSION {
        Err(DecodeError::BadVersion(netflow5::header_of(s).version))
    } else if (s.len() - 24) / 48 != netflow5::header_of(s).count {
        Err(
            DecodeError::CountMismatch {
                declared: netflow5::header_of(s).count as usize,
                received: ((s.len() - 24) / 48) as usize,
            },
        )
    } else {
        Ok(v5_records(s, netflow5::header_of(s).count as int))
    }
}

/// Decodes a NetFlow v5 datagram: a 24-octet header, then as many 48-octet
/// records as the header counts.
pub fn parse_v5_msg(buf: &[u8]) -> (r: Result<Vec<Flow>, DecodeError>)
    ensures
        match r {
            Ok(v) => v5_outcome(buf@) == Ok::<Seq<Flow>, DecodeError>(v@),
            Err(e) => v5_outcome(buf@) == Err::<Seq<Flow>, DecodeError>(e),
        },
{
    let n = buf.len();
    let header = netflow5::Header::read(buf)?;
    if header.version != netflow5::VERSION {
        return Err(DecodeError::BadVersion(header.version));
    }
    let nb_pdu = (n - netflow5::Header::SIZE) / netflow5::DataSet::SIZE;
    if nb_pdu != header.count as usize {
        return Err(DecodeError::CountMismatch { declared: header.count as usize, received: nb_pdu });
    }
    let sampling = header.sampl_interval() as u32;
    let mut pdu_list: Vec<Flow> = Vec::new();
    let mut i: usize = 0;
    while i < nb_pdu
        invariant
            n == buf@.len(),
            n >= 24,
            nb_pdu == (n - 24) / 48,
            header == netflow5::header_of(buf@),
            sampling == (header.sampl % 16384) as u32,
            i <= nb_pdu,
            pdu_list@ =~= v5_records(buf@, i as int),
        decreases nb_pdu - i,
    {
        let offset = netflow5::Header::SIZE + netflow5::DataSet::SIZE * i;
        assert(offset + 48 <= n) by (nonlinear_arith)
            requires
                offset == 24 + 48 * i,
                i < nb_pdu,
                nb_pdu == (n - 24) / 48,
                n >= 24,
        ;
        match netflow5::DataSet::read(&buf[offset..n]) {
            Ok(pdu) => {
                let mut pdu = pdu;
                pdu.add_sampling(sampling);
                pdu_list.push(Flow::V5(pdu));
            },
            Err(_) => {},
        }
        i = i + 1;
    }
    Ok(pdu_list)
}

/// Octets at the end of a set that may be alignment padding rather than a record.
pub const PADDING: usize = 4;

/// A data record that a data set yields: its octets, the layout of its template,
/// and the sampling interval of the exporter when it was decoded.
pub struct DecodedRecord {
    pub rec: Seq<u8>,
    pub layout: Seq<(u16, u16)>,
    pub sampling: u64,
}

/// `d` is the record `p` decoded, with its counters corrected for sampling.
pub open spec fn emitted_from(d: Map<u16, FieldValue>, p: DecodedRecord) -> bool {
    exists|m: Map<u16, FieldValue>|
        decodes_record(m, p.layout, p.rec) && d == scaled(scaled(m, 1, p.sampling), 2, p.sampling)
}

/// The flows `v` are the IPFIX records `out`, one for one and in order.
pub open spec fn records_match(v: Seq<Flow>, out: Seq<DecodedRecord>) -> bool {
    &&& v.len() == out.len()
    &&& forall|i: int|
        0 <= i < v.len() ==> match #[trigger] v[i] {
            Flow::Ipfix(d) => emitted_from(d.fields@, out[i]),
            _ => false,
        }
}

/// The layout that the `count` field specifiers at `start` of `r` give.
pub open spec fn layout_at(r: Seq<u8>, start: int, count: int) -> Seq<(u16, u16)> {
    Seq::new(
        count as nat,
        |i: int| (u16_at(rest(r, start + 4 * i), 0), u16_at(rest(r, start + 4 * i), 2)),
    )
}

/// The template (or option template) record at the head of `r`.
pub open spec fn template_model_at(r: Seq<u8>, option: bool) -> TemplateModel {
    if option {
        TemplateModel::Options(
            OptionTemplateHeader {
                id: u16_at(r, 0),
                field_count: u16_at(r, 2),
                scope_field_count: u16_at(r, 4),
            },
            layout_at(r, 6, u16_at(r, 2) as int),
        )
    } else {
        TemplateModel::Ordinary(
            TemplateHeader { id: u16_at(r, 0), field_count: u16_at(r, 2) },
            layout_at(r, 4, u16_at(r, 2) as int),
        )
    }
}

/// Reading the records of a template set body `b` from `pos` on, for exporter
/// `key`: each template is installed; one whose id is below 256, or that names
/// an unknown element, is dropped; a record cut short stops the datagram
/// with an error.
pub open spec fn template_set(
    key: Exporter,
    b: Seq<u8>,
    pos: int,
    m: Map<Exporter, ExporterModel>,
    option: bool,
) -> (Option<DecodeError>, Map<Exporter, ExporterModel>)
    decreases (if pos < b.len() { b.len() - pos } else { 0 }),
{
    if pos < 0 || pos + 4 >= b.len() {
        (None, m)
    } else {
        let r = rest(b, pos);
        let hsize: int = if option { 6 } else { 4 };
        if r.len() < hsize {
            (Some(DecodeError::ShortBuffer { required: hsize as usize, received: r.len() as usize }), m)
        } else {
            let count = u16_at(r, 2) as int;
            let next = pos + hsize + 4 * count;
            if u16_at(r, 0) < 256 {
                template_set(key, b, next, m, option)
            } else {
                match fields_error(r, hsize, 0, count) {
                    Some(DecodeError::UnknownFieldId(_)) => template_set(key, b, next, m, option),
                    Some(e) => (Some(e), m),
                    None => template_set(
                        key,
                        b,
                        next,
                        installed(m, key, u16_at(r, 0), template_model_at(r, option)),
                        option,
                    ),
                }
            }
        }
    }
}

/// The records of a data set body `b` from `pos` on, appended to `out`: one per
/// `fields_length(l)` octets while more than the padding remains; a record cut
/// short ends the set.
pub open spec fn data_records(
    b: Seq<u8>,
    pos: int,
    l: Seq<(u16, u16)>,
    s: u64,
    out: Seq<DecodedRecord>,
) -> Seq<DecodedRecord>
    decreases b.len() - pos,
{
    let len = fields_length(l) as int;
    if pos < 0 || len == 0 || pos + 4 >= b.len() || pos + len > b.len() {
        out
    } else {
        data_records(
            b,
            pos + len,
            l,
            s,
            out.push(DecodedRecord { rec: b.subrange(pos, pos + len), layout: l, sampling: s }),
        )
    }
}

/// The sampling interval that an option record `rec` of layout `l` announces:
/// its `samplingInterval` element, when four octets long.
pub open spec fn sampling_in(rec: Seq<u8>, l: Seq<(u16, u16)>) -> Option<u32> {
    let i = last_index(l, l.len() as int, 34);
    if i >= 0 && l[i].1 == 4 {
        Some(be_value(field_bytes(l, i, rec)) as u32)
    } else {
        None
    }
}

/// The sampling interval after the option records of `b` from `pos` on, starting from `cur`.
pub open spec fn option_records(b: Seq<u8>, pos: int, l: Seq<(u16, u16)>, cur: u32) -> u32
    decreases b.len() - pos,
{
    let len = fields_length(l) as int;
    if pos < 0 || len == 0 || pos + 4 >= b.len() || pos + len > b.len() {
        cur
    } else {
        let next = match sampling_in(b.subrange(pos, pos + len), l) {
            Some(v) => v,
            None => cur,
        };
        option_records(b, pos + len, l, next)
    }
}

/// Reading the sets of the IPFIX datagram `s` from `off` on, for exporter `key`,
/// with cache `m` and records `out` so far: gives whether it succeeded, the cache,
/// and the records.
pub open spec fn walk(
    key: Exporter,
    s: Seq<u8>,
    off: int,
    m: Map<Exporter, ExporterModel>,
    out: Seq<DecodedRecord>,
) -> (Result<(), DecodeError>, Map<Exporter, ExporterModel>, Seq<DecodedRecord>)
    decreases s.len() - off,
{
    if off < 0 || off >= s.len() {
        (Ok(()), m, out)
    } else if off + 4 > s.len() {
        (Err(DecodeError::ShortBuffer { required: 4, received: (s.len() - off) as usize }), m, out)
    } else {
        let id = u16_at(s, off);
        let len = u16_at(s, off + 2) as int;
        let body = s.subrange(off + 4, off + len);
        if len < 4 {
            (
                Err(DecodeError::LengthMismatch { declared: len as usize, received: (s.len() - off) as usize }),
                m,
                out,
            )
        } else if off + len > s.len() {
            (
                Err(DecodeError::ShortBuffer { required: len as usize, received: (s.len() - off) as usize }),
                m,
                out,
            )
        } else if id == 2 || id == 3 {
            let (e, m2) = template_set(key, body, 0, m, id == 3);
            match e {
                Some(e) => (Err(e), m2, out),
                None => walk(key, s, off + len, m2, out),
            }
        } else if id >= 256 {
            if m.contains_key(key) && m[key].templates.contains_key(id) {
                match m[key].templates[id] {
                    TemplateModel::Ordinary(_, l) => walk(
                        key,
                        s,
                        off + len,
                        m,
                        data_records(body, 0, l, m[key].sampling as u64, out),
                    ),
                    TemplateModel::Options(_, l) => walk(
                        key,
                        s,
                        off + len,
                        with_sampling(m, key, option_records(body, 0, l, m[key].sampling)),
                        out,
                    ),
                }
            } else {
                walk(key, s, off + len, m, out)
            }
        } else {
            (Err(DecodeError::BadSetId(id)), m, out)
        }
    }
}

/// Decoding the IPFIX datagram `s` from `from` against cache `m`: the records or
/// the error, and the cache afterwards. A version other than 10 is an error.
pub open spec fn ipfix_outcome(from: IpAddress, s: Seq<u8>, m: Map<Exporter, ExporterModel>) -> (
    Result<Seq<DecodedRecord>, DecodeError>,
    Map<Exporter, ExporterModel>,
) {
    if s.len() < 16 {
        (Err(DecodeError::ShortBuffer { required: 16, received: s.len() as usize }), m)
    } else if ipfix::header_of(s).version != ipfix::VERSION {
        (Err(DecodeError::BadVersion(ipfix::header_of(s).version)), m)
    } else if ipfix::header_of(s).length != s.len() {
        (
            Err(
                DecodeError::LengthMismatch {
                    declared: ipfix::header_of(s).length as usize,
                    received: s.len() as usize,
                },
            ),
            m,
        )
    } else {
        let key = Exporter { addr: from, domain_id: ipfix::header_of(s).domain_id };
        let (r, m2, out) = walk(key, s, 16, m, Seq::empty());
        match r {
            Ok(_) => (Ok(out), m2),
            Err(e) => (Err(e), m2),
        }
    }
}

proof fn lemma_rest_u16(b: Seq<u8>, pos: int, k: int)
    requires
        0 <= pos,
        0 <= k,
        pos + k + 2 <= b.len(),
    ensures
        u16_at(rest(b, pos), k) == u16_at(b, pos + k),
{
    assert(crate::bytes::window(rest(b, pos), k, 2) =~= crate::bytes::window(b, pos + k, 2));
}

/// The layout that `fields_read` describes is the one that the octets give.
proof fn lemma_layout_read(fields: Seq<TemplateField>, r: Seq<u8>, start: int, count: int)
    requires
        fields.len() == count,
        ipfix::fields_read(fields, r, start),
    ensures
        layout(fields) == layout_at(r, start, count),
{
    assert forall|i: int| 0 <= i < count implies #[trigger] layout(fields)[i] == layout_at(
        r,
        start,
        count,
    )[i] by {
        assert(ipfix::field_matches(fields[i], rest(r, start + 4 * i)));
    }
    assert(layout(fields) =~= layout_at(r, start, count));
}

/// Installs the templates (or option templates) of a template set body.
fn read_template_set(key: Exporter, body: &[u8], option: bool, exporter_list: &mut ExporterList) -> (r:
    Option<DecodeError>)
    requires
        old(exporter_list).wf(),
        body@.len() <= 65535,
    ensures
        final(exporter_list).wf(),
        (r, final(exporter_list)@) == template_set(key, body@, 0, old(exporter_list)@, option),
{
    let ghost m0 = exporter_list@;
    let n = body.len();
    let mut pos: usize = 0;
    while n > PADDING && pos < n - PADDING
        invariant
            n == body@.len(),
            n <= 65535,
            pos <= n + 6 + 4 * 65535,
            m0 == old(exporter_list)@,
            exporter_list.wf(),
            template_set(key, body@, 0, m0, option) == template_set(
                key,
                body@,
                pos as int,
                exporter_list@,
                option,
            ),
        decreases (if pos < n { n - pos } else { 0 }),
    {
        let r = &body[pos..n];
        assert(r@ =~= rest(body@, pos as int));
        proof {
            lemma_rest_u16(body@, pos as int, 2);
            ipfix::lemma_fields_error_kind(r@, 4, 0, u16_at(r@, 2) as int);
            ipfix::lemma_fields_error_kind(r@, 6, 0, u16_at(r@, 2) as int);
        }
        if option {
            match OptionDataSetTemplate::read(r) {
                Ok((t, size)) => {
                    proof {
                        lemma_layout_read(t.fields@, r@, 6, t.header.field_count as int);
                    }
                    let id = t.header.id;
                    exporter_list.install(key, id, Template::IpfixOptionDataSet(t));
                    pos = pos + size;
                },
                Err(DecodeError::BadTemplateId(_)) => {
                    let count = read_u16(body, pos + 2);
                    pos = pos + OptionTemplateHeader::SIZE + 4 * count as usize;
                },
                Err(DecodeError::UnknownFieldId(_)) => {
                    let count = read_u16(body, pos + 2);
                    pos = pos + OptionTemplateHeader::SIZE + 4 * count as usize;
                },
                Err(e) => {
                    assert(template_set(key, body@, pos as int, exporter_list@, option) == (
                        Some(e),
                        exporter_list@,
                    ));
                    return Some(e);
                },
            }
        } else {
            match DataSetTemplate::read(r) {
                Ok((t, size)) => {
                    proof {
                        lemma_layout_read(t.fields@, r@, 4, t.header.field_count as int);
                    }
                    let id = t.header.id;
                    exporter_list.install(key, id, Template::IpfixDataSet(t));
                    pos = pos + size;
                },
                Err(DecodeError::BadTemplateId(_)) => {
                    let count = read_u16(body, pos + 2);
                    pos = pos + TemplateHeader::SIZE + 4 * count as usize;
                },
                Err(DecodeError::UnknownFieldId(_)) => {
                    let count = read_u16(body, pos + 2);
                    pos = pos + TemplateHeader::SIZE + 4 * count as usize;
                },
                Err(e) => {
                    assert(template_set(key, body@, pos as int, exporter_list@, option) == (
                        Some(e),
                        exporter_list@,
                    ));
                    return Some(e);
                },
            }
        }
    }
    None
}

/// Decodes the records of a data set body whose template has these fields,
/// corrects their counters for sampling and appends them to `list`.
fn read_data_records(
    body: &[u8],
    fields: &Vec<TemplateField>,
    length: usize,
    sampling: u64,
    list: &mut Vec<Flow>,
    Ghost(out): Ghost<Seq<DecodedRecord>>,
)
    requires
        length == fields_length(layout(fields@)),
        records_match(old(list)@, out),
    ensures
        records_match(final(list)@, data_records(body@, 0, layout(fields@), sampling, out)),
{
    let ghost l = layout(fields@);
    let n = body.len();
    let mut pos: usize = 0;
    let ghost mut cur = out;
    while length > 0 && n > PADDING && pos < n - PADDING && length <= n - pos
        invariant
            n == body@.len(),
            pos <= n,
            l == layout(fields@),
            length == fields_length(l),
            data_records(body@, 0, l, sampling, out) == data_records(body@, pos as int, l, sampling, cur),
            records_match(list@, cur),
        decreases n - pos,
    {
        let rec = &body[pos..pos + length];
        match DataSet::read(rec, fields, length) {
            Ok(msg) => {
                let ghost m = msg.fields@;
                let mut msg = msg;
                msg.add_sampling(sampling);
                let ghost p = DecodedRecord { rec: rec@, layout: l, sampling };
                assert(decodes_record(m, p.layout, p.rec));
                assert(emitted_from(msg.fields@, p));
                let ghost before = list@;
                list.push(Flow::Ipfix(msg));
                proof {
                    assert(rec@ =~= body@.subrange(pos as int, pos + length));
                    let old_cur = cur;
                    cur = cur.push(p);
                    assert forall|i: int| 0 <= i < list@.len() implies match #[trigger] list@[i] {
                        Flow::Ipfix(d) => emitted_from(d.fields@, cur[i]),
                        _ => false,
                    } by {
                        if i < old_cur.len() {
                            assert(list@[i] == before[i]);
                        }
                    }
                }
            },
            Err(_) => {},
        }
        pos = pos + length;
    }
}

/// The sampling interval after the option records of a data set body whose
/// option template has these fields, starting from `current`.
fn option_set_sampling(body: &[u8], fields: &Vec<TemplateField>, length: usize, current: u32) -> (r: u32)
    requires
        length == fields_length(layout(fields@)),
    ensures
        r == option_records(body@, 0, layout(fields@), current),
{
    let ghost l = layout(fields@);
    let n = body.len();
    let mut pos: usize = 0;
    let mut sampling = current;
    while length > 0 && n > PADDING && pos < n - PADDING && length <= n - pos
        invariant
            n == body@.len(),
            pos <= n,
            l == layout(fields@),
            length == fields_length(l),
            option_records(body@, 0, l, current) == option_records(body@, pos as int, l, sampling),
        decreases n - pos,
    {
        let rec = &body[pos..pos + length];
        match DataSet::read(rec, fields, length) {
            Ok(msg) => {
                proof {
                    assert(rec@ =~= body@.subrange(pos as int, pos + length));
                    let i = last_index(l, l.len() as int, 34);
                    ipfix::lemma_last_index_range(l, l.len() as int, 34);
                    if i >= 0 {
                        ipfix::lemma_field_bytes_len(l, i, rec@);
                    }
                }
                match msg.get(FieldType::SamplingInterval) {
                    Some(FieldValue::U32(v)) => {
                        sampling = *v;
                    },
                    _ => {},
                }
            },
            Err(_) => {},
        }
        pos = pos + length;
    }
    sampling
}

/// Decodes an IPFIX datagram received from `from`: installs the templates it
/// advertises, applies the sampling interval its option records announce, and
/// gives the data records of the sets whose template is known.
pub fn parse_ipfix_msg(from: IpAddress, buf: &[u8], exporter_list: &mut ExporterList) -> (r: Result<
    Vec<Flow>,
    DecodeError,
>)
    requires
        old(exporter_list).wf(),
    ensures
        final(exporter_list).wf(),
        final(exporter_list)@ == ipfix_outcome(from, buf@, old(exporter_list)@).1,
        match r {
            Ok(v) => match ipfix_outcome(from, buf@, old(exporter_list)@).0 {
                Ok(out) => records_match(v@, out),
                Err(_) => false,
            },
            Err(e) => ipfix_outcome(from, buf@, old(exporter_list)@).0 == Err::<
                Seq<DecodedRecord>,
                DecodeError,
            >(e),
        },
{
    let ghost m0 = exporter_list@;
    let n = buf.len();
    let header = ipfix::Header::read(buf)?;
    if header.version != ipfix::VERSION {
        return Err(DecodeError::BadVersion(header.version));
    }
    if n != header.length as usize {
        return Err(DecodeError::LengthMismatch { declared: header.length as usize, received: n });
    }
    let key = Exporter { addr: from, domain_id: header.domain_id };
    let mut offset: usize = ipfix::Header::SIZE;
    let mut list: Vec<Flow> = Vec::new();
    let ghost mut out: Seq<DecodedRecord> = Seq::empty();
    while offset < n
        invariant
            n == buf@.len(),
            n <= 65535,
            16 <= offset <= n,
            ipfix::header_of(buf@).length == n,
            ipfix::header_of(buf@).version == ipfix::VERSION,
            key == (Exporter { addr: from, domain_id: ipfix::header_of(buf@).domain_id }),
            m0 == old(exporter_list)@,
            exporter_list.wf(),
            walk(key, buf@, 16, m0, Seq::empty()) == walk(key, buf@, offset as int, exporter_list@, out),
            records_match(list@, out),
        decreases n - offset,
    {
        let set = match SetHeader::read(&buf[offset..n]) {
            Ok(set) => set,
            Err(e) => {
                return Err(e);
            },
        };
        proof {
            assert(buf@.subrange(offset as int, n as int) =~= rest(buf@, offset as int));
            lemma_rest_u16(buf@, offset as int, 0);
            lemma_rest_u16(buf@, offset as int, 2);
        }
        let remaining = n - offset;
        if set.length < 4 {
            return Err(DecodeError::LengthMismatch { declared: set.length as usize, received: remaining });
        }
        if set.length as usize > remaining {
            return Err(DecodeError::ShortBuffer { required: set.length as usize, received: remaining });
        }
        let end = offset + set.length as usize;
        let body = &buf[offset + SetHeader::SIZE..end];
        assert(body@ =~= buf@.subrange(offset + 4, end as int));
        if set.id == DataSetTemplate::SET_ID || set.id == OptionDataSetTemplate::SET_ID {
            if let Some(e) = read_template_set(key, body, set.id == OptionDataSetTemplate::SET_ID, exporter_list) {
                return Err(e);
            }
        } else if set.id >= DataSet::MIN_SET_ID {
            let mut new_sampling: Option<u32> = None;
            match exporter_list.get(&key) {
                Some(infos) => {
                    match infos.template.get(&set.id) {
                        Some(Template::IpfixDataSet(t)) => {
                            read_data_records(body, &t.fields, t.length, infos.sampling as u64, &mut list, Ghost(out));
                            proof {
                                out = data_records(body@, 0, layout(t.fields@), infos.sampling as u64, out);
                            }
                        },
                        Some(Template::IpfixOptionDataSet(t)) => {
                            new_sampling = Some(option_set_sampling(body, &t.fields, t.length, infos.sampling));
                        },
                        None => {},
                    }
                },
                None => {},
            }
            if let Some(v) = new_sampling {
                exporter_list.set_sampling(&key, v);
            }
        } else {
            return Err(DecodeError::BadSetId(set.id));
        }
        offset = end;
    }
    Ok(list)
}

/// Octets that a datagram needs before its version can be read.
pub const MIN_BUF_LEN: usize = 2;

/// Decodes one datagram received from `from`, by the version in its first two
/// octets: 5 for NetFlow v5, 10 for IPFIX. Only IPFIX datagrams touch the cache.
pub fn parse_msg(from: IpAddress, buf: &[u8], exporter_list: &mut ExporterList) -> (r: Result<
    Vec<Flow>,
    DecodeError,
>)
    requires
        old(exporter_list).wf(),
    ensures
        final(exporter_list).wf(),
        buf@.len() < 2 ==> r == Err::<Vec<Flow>, DecodeError>(
            DecodeError::ShortBuffer { required: 2, received: buf@.len() as usize },
        ) && final(exporter_list)@ == old(exporter_list)@,
        buf@.len() >= 2 && u16_at(buf@, 0) == netflow5::VERSION ==> final(exporter_list)@ == old(
            exporter_list,
        )@ && match r {
            Ok(v) => v5_outcome(buf@) == Ok::<Seq<Flow>, DecodeError>(v@),
            Err(e) => v5_outcome(buf@) == Err::<Seq<Flow>, DecodeError>(e),
        },
        buf@.len() >= 2 && u16_at(buf@, 0) == ipfix::VERSION ==> {
            &&& final(exporter_list)@ == ipfix_outcome(from, buf@, old(exporter_list)@).1
            &&& match r {
                Ok(v) => match ipfix_outcome(from, buf@, old(exporter_list)@).0 {
                    Ok(out) => records_match(v@, out),
                    Err(_) => false,
                },
                Err(e) => ipfix_outcome(from, buf@, old(exporter_list)@).0 == Err::<
                    Seq<DecodedRecord>,
                    DecodeError,
                >(e),
            }
        },
        buf@.len() >= 2 && u16_at(buf@, 0) != netflow5::VERSION && u16_at(buf@, 0) != ipfix::VERSION
            ==> r == Err::<Vec<Flow>, DecodeError>(DecodeError::BadVersion(u16_at(buf@, 0)))
            && final(exporter_list)@ == old(exporter_list)@,
{
    if buf.len() < MIN_BUF_LEN {
        return Err(DecodeError::ShortBuffer { required: MIN_BUF_LEN, received: buf.len() });
    }
    proof {
        crate::bytes::lemma_be_value_bound(crate::bytes::window(buf@, 0, 2));
        reveal_with_fuel(crate::bytes::pow256, 3);
    }
    let version = read_u16(buf, 0);
    if version == netflow5::VERSION {
        parse_v5_msg(buf)
    } else if version == ipfix::VERSION {
        parse_ipfix_msg(from, buf, exporter_list)
    } else {
        Err(DecodeError::BadVersion(version))
    }
}

/// A NetFlow v5 datagram that decodes gives exactly as many records as its header counts.
pub proof fn lemma_v5_record_count(s: Seq<u8>)
    requires
        v5_outcome(s) is Ok,
    ensures
        v5_outcome(s)->Ok_0.len() == netflow5::header_of(s).count,
{
}

/// Reading option records again, from the interval they left, leaves it as it is.
pub proof fn lemma_option_records_idempotent(b: Seq<u8>, pos: int, l: Seq<(u16, u16)>, cur: u32)
    ensures
        option_records(b, pos, l, option_records(b, pos, l, cur)) == option_records(b, pos, l, cur),
{
    lemma_option_records_settles(b, pos, l, cur, option_records(b, pos, l, cur));
}

proof fn lemma_option_records_settles(b: Seq<u8>, pos: int, l: Seq<(u16, u16)>, c1: u32, c2: u32)
    ensures
        option_records(b, pos, l, c1) != c1 ==> option_records(b, pos, l, c2) == option_records(b, pos, l, c1),
        option_records(b, pos, l, c2) == c2 || option_records(b, pos, l, c2) == option_records(
            b,
            pos,
            l,
            c1,
        ),
    decreases b.len() - pos,
{
    let len = fields_length(l) as int;
    if !(pos < 0 || len == 0 || pos + 4 >= b.len() || pos + len > b.len()) {
        let rec = b.subrange(pos, pos + len);
        let n1 = match sampling_in(rec, l) {
            Some(v) => v,
            None => c1,
        };
        let n2 = match sampling_in(rec, l) {
            Some(v) => v,
            None => c2,
        };
        lemma_option_records_settles(b, pos + len, l, n1, n2);
    }
}

/// Sampling idempotence: decoding the same option data set a second time leaves
/// the cache as the first time left it.
pub proof fn lemma_option_set_idempotent(
    m: Map<Exporter, ExporterModel>,
    key: Exporter,
    b: Seq<u8>,
    l: Seq<(u16, u16)>,
)
    requires
        m.contains_key(key),
    ensures
        ({
            let m1 = with_sampling(m, key, option_records(b, 0, l, m[key].sampling));
            with_sampling(m1, key, option_records(b, 0, l, m1[key].sampling)) == m1
        }),
{
    let m1 = with_sampling(m, key, option_records(b, 0, l, m[key].sampling));
    lemma_option_records_idempotent(b, 0, l, m[key].sampling);
    assert(with_sampling(m1, key, option_records(b, 0, l, m1[key].sampling)) =~= m1);
}

/// The sets from `off` on fill the datagram `s` exactly: each declares at least
/// its 4-octet header, and the next one starts where it ends.
pub open spec fn sets_tile(s: Seq<u8>, off: int) -> bool
    decreases s.len() - off,
{
    if off >= s.len() {
        off == s.len()
    } else {
        let len = u16_at(s, off + 2) as int;
        &&& off + 4 <= s.len()
        &&& len >= 4
        &&& off + len <= s.len()
        &&& sets_tile(s, off + len)
    }
}

/// Every record that a walk adds takes the octets of its template's layout.
pub open spec fn records_sized(out: Seq<DecodedRecord>) -> bool {
    forall|i: int| 0 <= i < out.len() ==> (#[trigger] out[i]).rec.len() == fields_length(out[i].layout)
}

proof fn lemma_data_records_sized(b: Seq<u8>, pos: int, l: Seq<(u16, u16)>, s: u64, out: Seq<DecodedRecord>)
    requires
        records_sized(out),
    ensures
        records_sized(data_records(b, pos, l, s, out)),
    decreases b.len() - pos,
{
    let len = fields_length(l) as int;
    if !(pos < 0 || len == 0 || pos + 4 >= b.len() || pos + len > b.len()) {
        let next = out.push(DecodedRecord { rec: b.subrange(pos, pos + len), layout: l, sampling: s });
        assert(records_sized(next));
        lemma_data_records_sized(b, pos + len, l, s, next);
    }
}

proof fn lemma_walk(key: Exporter, s: Seq<u8>, off: int, m: Map<Exporter, ExporterModel>, out: Seq<DecodedRecord>)
    requires
        0 <= off <= s.len(),
        records_sized(out),
    ensures
        walk(key, s, off, m, out).0 is Ok ==> sets_tile(s, off),
        records_sized(walk(key, s, off, m, out).2),
    decreases s.len() - off,
{
    if off < s.len() && off + 4 <= s.len() {
        let id = u16_at(s, off);
        let len = u16_at(s, off + 2) as int;
        let body = s.subrange(off + 4, off + len);
        if len >= 4 && off + len <= s.len() {
            if id == 2 || id == 3 {
                let (e, m2) = template_set(key, body, 0, m, id == 3);
                lemma_walk(key, s, off + len, m2, out);
            } else if id >= 256 {
                if m.contains_key(key) && m[key].templates.contains_key(id) {
                    match m[key].templates[id] {
                        TemplateModel::Ordinary(_, l) => {
                            lemma_data_records_sized(body, 0, l, m[key].sampling as u64, out);
                            lemma_walk(key, s, off + len, m, data_records(body, 0, l, m[key].sampling as u64, out));
                        },
                        TemplateModel::Options(_, l) => {
                            lemma_walk(
                                key,
                                s,
                                off + len,
                                with_sampling(m, key, option_records(body, 0, l, m[key].sampling)),
                                out,
                            );
                        },
                    }
                } else {
                    lemma_walk(key, s, off + len, m, out);
                }
            }
        }
    }
}

/// An IPFIX datagram that decodes is filled exactly by its sets: their declared
/// lengths add up, with the 16-octet header, to the length the header declares.
/// Every record it gives takes the octets of its template's layout.
pub proof fn lemma_ipfix_framing(from: IpAddress, s: Seq<u8>, m: Map<Exporter, ExporterModel>)
    requires
        ipfix_outcome(from, s, m).0 is Ok,
    ensures
        ipfix::header_of(s).length == s.len(),
        sets_tile(s, 16),
        records_sized(ipfix_outcome(from, s, m).0->Ok_0),
{
    let key = Exporter { addr: from, domain_id: ipfix::header_of(s).domain_id };
    lemma_walk(key, s, 16, m, Seq::empty());
}

/// `id` names an ordinary template of exporter `key` in cache `m`.
pub open spec fn is_ordinary(m: Map<Exporter, ExporterModel>, key: Exporter, id: u16) -> bool {
    &&& m.contains_key(key)
    &&& m[key].templates.contains_key(id)
    &&& m[key].templates[id] is Ordinary
}

/// A well-framed data set at `off` of datagram `s`, for exporter `key` with cache
/// `m`, yields records if and only if its id names an ordinary template of that
/// exporter (and the set holds at least one whole record of it); the walk then
/// goes on after the set with the records it added.
pub proof fn lemma_data_set_records(
    key: Exporter,
    s: Seq<u8>,
    off: int,
    m: Map<Exporter, ExporterModel>,
    out: Seq<DecodedRecord>,
)
    requires
        0 <= off,
        off + 4 <= s.len(),
        u16_at(s, off) >= 256,
        u16_at(s, off + 2) >= 4,
        off + u16_at(s, off + 2) <= s.len(),
    ensures
        ({
            let id = u16_at(s, off);
            let len = u16_at(s, off + 2) as int;
            let body = s.subrange(off + 4, off + len);
            if is_ordinary(m, key, id) {
                let l = m[key].templates[id]->Ordinary_1;
                let added = data_records(body, 0, l, m[key].sampling as u64, out);
                &&& walk(key, s, off, m, out) == walk(key, s, off + len, m, added)
                &&& (0 < fields_length(l) <= body.len() && 4 < body.len()) ==> added.len() > out.len()
            } else {
                exists|m2: Map<Exporter, ExporterModel>|
                    walk(key, s, off, m, out) == #[trigger] walk(key, s, off + len, m2, out)
            }
        }),
{
    let id = u16_at(s, off);
    let len = u16_at(s, off + 2) as int;
    let body = s.subrange(off + 4, off + len);
    if is_ordinary(m, key, id) {
        let l = m[key].templates[id]->Ordinary_1;
        if 0 < fields_length(l) <= body.len() && 4 < body.len() {
            let first = out.push(
                DecodedRecord { rec: body.subrange(0, fields_length(l) as int), layout: l, sampling: m[key].sampling as u64 },
            );
            lemma_data_records_grow(body, fields_length(l) as int, l, m[key].sampling as u64, first);
        }
    } else if m.contains_key(key) && m[key].templates.contains_key(id) {
        let l = m[key].templates[id]->Options_1;
        let m2 = with_sampling(m, key, option_records(body, 0, l, m[key].sampling));
        assert(walk(key, s, off, m, out) == walk(key, s, off + len, m2, out));
    } else {
        assert(walk(key, s, off, m, out) == walk(key, s, off + len, m, out));
    }
}

proof fn lemma_data_records_grow(b: Seq<u8>, pos: int, l: Seq<(u16, u16)>, s: u64, out: Seq<DecodedRecord>)
    ensures
        data_records(b, pos, l, s, out).len() >= out.len(),
    decreases b.len() - pos,
{
    let len = fields_length(l) as int;
    if !(pos < 0 || len == 0 || pos + 4 >= b.len() || pos + len > b.len()) {
        lemma_data_records_grow(
            b,
            pos + len,
            l,
            s,
            out.push(DecodedRecord { rec: b.subrange(pos, pos + len), layout: l, sampling: s }),
        );
    }
}

} // verus!
