//! Decoding of the question section: length-prefixed domain-name labels
//! followed by the fixed type and class fields of each query.
//!
//! A name on the wire is a run of labels, each preceded by its length
//! byte, terminated by a zero byte. The decoder reads length bytes
//! literally; it does not interpret the message-compression form in
//! which a length byte with both top bits set denotes a back-reference,
//! so such a byte is treated as an oversized literal length and fails
//! the bounds check instead of resolving a pointer. Label lengths are
//! also not capped at the 63 bytes classic DNS allows, since the length
//! byte is read as-is.

pub mod errors;

use vstd::prelude::*;
use vstd::slice::slice_to_vec;
use vstd::string::StringExecFns;
use vstd::utf8::decode_utf8;
use vstd::utf8::valid_utf8;

use crate::dns_queries::errors::DnsQueryParseError;
use crate::utils::dns_class::DnsClass;
use crate::utils::dns_types::DnsType;
use crate::utils::read_be16;
use crate::utils::spec_be16;

verus! {

/// The labels of the name encoded in `bytes` starting at `offset`, as raw
/// byte sequences, together with the cursor just past the terminating
/// zero byte; or the first decoding error, in wire order: a read past the
/// end of the buffer, then a label that is not valid UTF-8.
pub open spec fn spec_parse_name(bytes: Seq<u8>, offset: int) -> Result<
    (Seq<Seq<u8>>, int),
    DnsQueryParseError,
>
    decreases bytes.len() - offset,
{
    if offset < 0 || offset >= bytes.len() {
        Err(DnsQueryParseError::OutOfBoundParse)
    } else if bytes[offset] == 0 {
        Ok((seq![], offset + 1))
    } else if offset + 1 + bytes[offset] > bytes.len() {
        Err(DnsQueryParseError::OutOfBoundParse)
    } else if !valid_utf8(bytes.subrange(offset + 1, offset + 1 + bytes[offset])) {
        Err(
            DnsQueryParseError::Utf8Error {
                offset: (offset + 1) as usize,
                length: bytes[offset] as usize,
            },
        )
    } else {
        match spec_parse_name(bytes, offset + 1 + bytes[offset]) {
            Ok(p) => Ok(
                (seq![bytes.subrange(offset + 1, offset + 1 + bytes[offset])] + p.0, p.1),
            ),
            Err(e) => Err(e),
        }
    }
}

/// The label character sequences joined with `'.'` between them.
pub open spec fn spec_join(labels: Seq<Seq<char>>) -> Seq<char>
    decreases labels.len(),
{
    if labels.len() == 0 {
        seq![]
    } else if labels.len() == 1 {
        labels[0]
    } else {
        labels[0] + seq!['.'] + spec_join(labels.drop_first())
    }
}

/// The dotted name formed by the given raw labels, each decoded as UTF-8.
pub open spec fn spec_name_chars(labels: Seq<Seq<u8>>) -> Seq<char> {
    spec_join(labels.map_values(|l: Seq<u8>| decode_utf8(l)))
}

/// Appending one more label to a join appends a dot and the label, except
/// to an empty join, which becomes the label itself.
pub proof fn lemma_join_push(labels: Seq<Seq<char>>, last: Seq<char>)
    ensures
        spec_join(labels.push(last)) == if labels.len() == 0 {
            last
        } else {
            spec_join(labels) + seq!['.'] + last
        },
    decreases labels.len(),
{
    if labels.len() == 0 {
        assert(labels.push(last)[0] == last);
    } else if labels.len() == 1 {
        assert(labels.push(last)[0] == labels[0]);
        assert(labels.push(last).drop_first() =~= seq![last]);
        assert(spec_join(seq![last]) == last);
    } else {
        lemma_join_push(labels.drop_first(), last);
        assert(labels.push(last).drop_first() =~= labels.drop_first().push(last));
        assert(labels.push(last)[0] == labels[0]);
        assert(labels[0] + seq!['.'] + (spec_join(labels.drop_first()) + seq!['.'] + last) =~= (
        labels[0] + seq!['.'] + spec_join(labels.drop_first())) + seq!['.'] + last);
    }
}

/// A length byte that declares more label bytes than remain in the
/// buffer makes the name decode fail with an out-of-bound error; the
/// declared bytes are never read.
pub proof fn lemma_label_overrun(bytes: Seq<u8>, offset: int)
    requires
        0 <= offset < bytes.len(),
        bytes[offset] != 0,
        offset + 1 + bytes[offset] > bytes.len(),
    ensures
        spec_parse_name(bytes, offset) == Err::<(Seq<Seq<u8>>, int), DnsQueryParseError>(
            DnsQueryParseError::OutOfBoundParse,
        ),
{
}

/// The wire encoding of a name with the given labels: each label
/// preceded by its one-byte length, the whole terminated by a zero byte.
pub open spec fn spec_encode_name(labels: Seq<Seq<u8>>) -> Seq<u8>
    decreases labels.len(),
{
    if labels.len() == 0 {
        seq![0u8]
    } else {
        seq![labels[0].len() as u8] + labels[0] + spec_encode_name(labels.drop_first())
    }
}

/// True when every label can be carried on the wire: at least one byte
/// (a zero-length label would be indistinguishable from the terminator),
/// at most 255 (the length must fit its one byte), and valid UTF-8.
pub open spec fn spec_labels_wf(labels: Seq<Seq<u8>>) -> bool {
    forall|i: int|
        0 <= i < labels.len() ==> {
            &&& 1 <= (#[trigger] labels[i]).len() <= 255
            &&& valid_utf8(labels[i])
        }
}

proof fn lemma_parse_name_of_encoding(bytes: Seq<u8>, offset: int, labels: Seq<Seq<u8>>)
    requires
        spec_labels_wf(labels),
        0 <= offset <= bytes.len(),
        bytes.subrange(offset, bytes.len() as int) == spec_encode_name(labels),
    ensures
        spec_parse_name(bytes, offset) == Ok::<(Seq<Seq<u8>>, int), DnsQueryParseError>(
            (labels, bytes.len() as int),
        ),
    decreases labels.len(),
{
    let enc = spec_encode_name(labels);
    let sub = bytes.subrange(offset, bytes.len() as int);
    assert(bytes.len() - offset == enc.len());
    assert(forall|k: int| 0 <= k < enc.len() ==> #[trigger] enc[k] == bytes[offset + k]) by {
        assert(forall|k: int| 0 <= k < enc.len() ==> #[trigger] sub[k] == bytes[offset + k]);
    }
    if labels.len() == 0 {
        assert(bytes[offset] == enc[0]);
        assert(labels =~= Seq::<Seq<u8>>::empty());
    } else {
        let l0 = labels[0];
        let rest = labels.drop_first();
        let tail = spec_encode_name(rest);
        assert(1 <= l0.len() <= 255);
        assert(enc[0] == l0.len() as u8);
        assert(bytes[offset] == enc[0]);
        assert(bytes[offset] as int == l0.len());
        assert(tail.len() >= 1);
        assert(offset + 1 + l0.len() <= bytes.len());
        assert(bytes.subrange(offset + 1, offset + 1 + l0.len()) =~= l0) by {
            assert forall|k: int| 0 <= k < l0.len() implies bytes.subrange(
                offset + 1,
                offset + 1 + l0.len(),
            )[k] == l0[k] by {
                assert(enc[1 + k] == bytes[offset + 1 + k]);
                assert(enc[1 + k] == l0[k]);
            }
        }
        assert(bytes.subrange(offset + 1 + l0.len(), bytes.len() as int) =~= tail) by {
            assert forall|k: int| 0 <= k < tail.len() implies bytes.subrange(
                offset + 1 + l0.len(),
                bytes.len() as int,
            )[k] == tail[k] by {
                assert(enc[1 + l0.len() + k] == bytes[offset + 1 + l0.len() + k]);
                assert(enc[1 + l0.len() + k] == tail[k]);
            }
        }
        assert(spec_labels_wf(rest)) by {
            assert(forall|i: int|
                0 <= i < rest.len() ==> (#[trigger] rest[i]) == labels[i + 1]);
        }
        lemma_parse_name_of_encoding(bytes, offset + 1 + l0.len(), rest);
        assert(seq![l0] + rest =~= labels);
    }
}

/// Round trip for well-formed names: a buffer holding labels, each
/// preceded by its length byte and the whole terminated by a zero byte,
/// decodes from offset 0 back to exactly those labels — hence, through
/// `parse_name`, to their dotted UTF-8 join — with the final cursor
/// equal to the total encoded length.
pub proof fn lemma_name_round_trip(labels: Seq<Seq<u8>>)
    requires
        spec_labels_wf(labels),
    ensures
        spec_parse_name(spec_encode_name(labels), 0) == Ok::<(Seq<Seq<u8>>, int),
            DnsQueryParseError,
        >((labels, spec_encode_name(labels).len() as int)),
{
    let enc = spec_encode_name(labels);
    assert(enc.subrange(0, enc.len() as int) =~= enc);
    lemma_parse_name_of_encoding(enc, 0, labels);
}

/// Relies on `String::from_utf8`: it returns a string holding exactly the
/// given bytes when they are valid UTF-8, and an error otherwise.
#[verifier::external_body]
fn bytes_to_string(v: Vec<u8>) -> (r: Option<String>)
    ensures
        r is Some <==> valid_utf8(v@),
        r matches Some(s) ==> s@ == decode_utf8(v@),
{
    match String::from_utf8(v) {
        Ok(s) => Some(s),
        Err(_) => None,
    }
}

/// Decodes the domain name starting at `offset`: reads length-prefixed
/// labels up to a zero terminator, decodes each label as UTF-8, and joins
/// them with dots. Returns the name and the cursor just past the
/// terminator. Every read is bounds-checked; a length byte that declares
/// more bytes than remain fails with an out-of-bound error.
pub fn parse_name(bytes: &[u8], offset: usize) -> (r: Result<(String, usize), DnsQueryParseError>)
    ensures
        (match spec_parse_name(bytes@, offset as int) {
            Ok(p) => {
                &&& r matches Ok(q)
                &&& q.0@ == spec_name_chars(p.0)
                &&& q.1 == p.1
            },
            Err(e) => r == Err::<(String, usize), DnsQueryParseError>(e),
        }),
        r matches Ok(q) ==> offset < q.1 <= bytes@.len(),
{
    let mut cur = offset;
    let mut name = String::new();
    let mut first = true;
    let ghost mut done: Seq<Seq<u8>> = Seq::empty();
    loop
        invariant
            offset <= cur,
            name@ == spec_name_chars(done),
            first <==> done.len() == 0,
            spec_parse_name(bytes@, offset as int) == (match spec_parse_name(bytes@, cur as int) {
                Ok(p) => Ok::<(Seq<Seq<u8>>, int), DnsQueryParseError>((done + p.0, p.1)),
                Err(e) => Err::<(Seq<Seq<u8>>, int), DnsQueryParseError>(e),
            }),
        decreases bytes@.len() - cur,
    {
        if cur >= bytes.len() {
            return Err(DnsQueryParseError::OutOfBoundParse);
        }
        let len = bytes[cur] as usize;
        if len == 0 {
            proof {
                assert(done + Seq::<Seq<u8>>::empty() =~= done);
            }
            return Ok((name, cur + 1));
        }
        if len > bytes.len() - cur - 1 {
            return Err(DnsQueryParseError::OutOfBoundParse);
        }
        let label_bytes = slice_to_vec(&bytes[cur + 1..cur + 1 + len]);
        let label = match bytes_to_string(label_bytes) {
            Some(s) => s,
            None => {
                return Err(DnsQueryParseError::Utf8Error { offset: cur + 1, length: len });
            },
        };
        if first {
            name.append(label.as_str());
        } else {
            name.append(".");
            name.append(label.as_str());
        }
        proof {
            reveal_strlit(".");
            let lbl = bytes@.subrange(cur + 1, cur + 1 + len);
            let mapped = done.map_values(|l: Seq<u8>| decode_utf8(l));
            lemma_join_push(mapped, decode_utf8(lbl));
            assert(done.push(lbl).map_values(|l: Seq<u8>| decode_utf8(l)) =~= mapped.push(
                decode_utf8(lbl),
            ));
            if done.len() == 0 {
                assert(Seq::<char>::empty() + decode_utf8(lbl) =~= decode_utf8(lbl));
            } else {
                assert(name@ =~= spec_join(mapped) + seq!['.'] + decode_utf8(lbl));
            }
            if spec_parse_name(bytes@, cur + 1 + len) is Ok {
                let p = spec_parse_name(bytes@, cur + 1 + len)->Ok_0;
                assert(done + (seq![lbl] + p.0) =~= done.push(lbl) + p.0);
            }
            done = done.push(lbl);
        }
        cur = cur + 1 + len;
        first = false;
    }
}

/// One decoded query: a dotted domain name followed by its type and
/// class codes.
#[derive(Debug)]
pub struct DnsQuery {
    pub name: String,
    pub qtype: DnsType,
    pub qclass: DnsClass,
}

/// The outcome of decoding one query at `offset`: the name's raw labels,
/// the type code, the class code and the advanced cursor; or the first
/// error. After the name, four more bytes must remain for the two fixed
/// fields, else the decode fails naming the bytes required, the offset,
/// and the bytes actually available.
pub open spec fn spec_parse_query(bytes: Seq<u8>, offset: int) -> Result<
    (Seq<Seq<u8>>, u16, u16, int),
    DnsQueryParseError,
> {
    match spec_parse_name(bytes, offset) {
        Ok(p) => {
            if p.1 + 4 > bytes.len() {
                Err(
                    DnsQueryParseError::InsufficientData {
                        required: 4,
                        offset: p.1 as usize,
                        available: (bytes.len() - p.1) as usize,
                    },
                )
            } else {
                Ok((p.0, spec_be16(bytes, p.1), spec_be16(bytes, p.1 + 2), p.1 + 4))
            }
        },
        Err(e) => Err(e),
    }
}

/// True when the decoded query `q` holds the name, type and class that
/// the raw triple `t` describes.
pub open spec fn spec_query_matches(q: DnsQuery, t: (Seq<Seq<u8>>, u16, u16)) -> bool {
    &&& q.name@ == spec_name_chars(t.0)
    &&& q.qtype.0 == t.1
    &&& q.qclass.0 == t.2
}

impl DnsQuery {
    /// Decodes one query at `*offset`: the domain name, then the 2-byte
    /// big-endian type and class codes. On success the cursor advances
    /// past the query; on any error it is left unchanged.
    pub fn from_bytes(bytes: &[u8], offset: &mut usize) -> (r: Result<DnsQuery, DnsQueryParseError>)
        ensures
            (match spec_parse_query(bytes@, *old(offset) as int) {
                Ok(t) => {
                    &&& r matches Ok(q)
                    &&& spec_query_matches(q, (t.0, t.1, t.2))
                    &&& *final(offset) == t.3
                    &&& *final(offset) <= bytes@.len()
                },
                Err(e) => r == Err::<DnsQuery, DnsQueryParseError>(e) && *final(offset) == *old(
                    offset,
                ),
            }),
    {
        let (name, name_end) = match parse_name(bytes, *offset) {
            Ok(p) => p,
            Err(e) => {
                return Err(e);
            },
        };
        if bytes.len() - name_end < 4 {
            return Err(
                DnsQueryParseError::InsufficientData {
                    required: 4,
                    offset: name_end,
                    available: bytes.len() - name_end,
                },
            );
        }
        let qtype = DnsType::new(read_be16(bytes, name_end));
        let qclass = DnsClass::new(read_be16(bytes, name_end + 2));
        *offset = name_end + 4;
        Ok(DnsQuery { name, qtype, qclass })
    }
}

/// The question section: the queries in wire order.
#[derive(Debug)]
pub struct DnsQueries {
    pub queries: Vec<DnsQuery>,
}

/// The outcome of decoding `count` queries one after another starting at
/// `offset`: the raw triples in wire order and the final cursor, or the
/// first error encountered.
pub open spec fn spec_parse_queries(bytes: Seq<u8>, offset: int, count: nat) -> Result<
    (Seq<(Seq<Seq<u8>>, u16, u16)>, int),
    DnsQueryParseError,
>
    decreases count,
{
    if count == 0 {
        Ok((seq![], offset))
    } else {
        match spec_parse_query(bytes, offset) {
            Ok(t) => {
                match spec_parse_queries(bytes, t.3, (count - 1) as nat) {
                    Ok(p) => Ok((seq![(t.0, t.1, t.2)] + p.0, p.1)),
                    Err(e) => Err(e),
                }
            },
            Err(e) => Err(e),
        }
    }
}

/// A successful decode of `count` queries yields exactly `count` raw
/// triples — never fewer and never more.
pub proof fn lemma_parse_queries_len(bytes: Seq<u8>, offset: int, count: nat)
    requires
        spec_parse_queries(bytes, offset, count) is Ok,
    ensures
        spec_parse_queries(bytes, offset, count)->Ok_0.0.len() == count,
    decreases count,
{
    if count > 0 {
        let t = spec_parse_query(bytes, offset)->Ok_0;
        lemma_parse_queries_len(bytes, t.3, (count - 1) as nat);
    }
}

impl DnsQueries {
    /// Decodes exactly `count` queries from the front of `bytes`. On
    /// success the collection holds one query per count, in wire order —
    /// never fewer and never more; any error aborts the whole decode.
    pub fn from_bytes(bytes: &[u8], count: u16) -> (r: Result<DnsQueries, DnsQueryParseError>)
        ensures
            (match spec_parse_queries(bytes@, 0, count as nat) {
                Ok(p) => {
                    &&& r matches Ok(d)
                    &&& d.queries@.len() == count
                    &&& forall|i: int|
                        0 <= i < count ==> #[trigger] spec_query_matches(d.queries@[i], p.0[i])
                },
                Err(e) => r == Err::<DnsQueries, DnsQueryParseError>(e),
            }),
    {
        let mut queries: Vec<DnsQuery> = Vec::new();
        let mut offset: usize = 0;
        let mut i: u16 = 0;
        let ghost mut done: Seq<(Seq<Seq<u8>>, u16, u16)> = Seq::empty();
        while i < count
            invariant
                i <= count,
                queries@.len() == i,
                done.len() == i,
                offset <= bytes@.len(),
                forall|j: int| 0 <= j < i ==> #[trigger] spec_query_matches(queries@[j], done[j]),
                spec_parse_queries(bytes@, 0, count as nat) == (match spec_parse_queries(
                    bytes@,
                    offset as int,
                    (count - i) as nat,
                ) {
                    Ok(p) => Ok::<(Seq<(Seq<Seq<u8>>, u16, u16)>, int), DnsQueryParseError>(
                        (done + p.0, p.1),
                    ),
                    Err(e) => Err::<(Seq<(Seq<Seq<u8>>, u16, u16)>, int), DnsQueryParseError>(e),
                }),
            decreases count - i,
        {
            let ghost offset_before = offset as int;
            let query = match DnsQuery::from_bytes(bytes, &mut offset) {
                Ok(q) => q,
                Err(e) => {
                    return Err(e);
                },
            };
            queries.push(query);
            proof {
                let t = spec_parse_query(bytes@, offset_before)->Ok_0;
                if spec_parse_queries(bytes@, t.3, (count - i - 1) as nat) is Ok {
                    let p = spec_parse_queries(bytes@, t.3, (count - i - 1) as nat)->Ok_0;
                    assert(done + (seq![(t.0, t.1, t.2)] + p.0) =~= done.push((t.0, t.1, t.2))
                        + p.0);
                }
                done = done.push((t.0, t.1, t.2));
            }
            i = i + 1;
        }
        proof {
            assert(done + Seq::<(Seq<Seq<u8>>, u16, u16)>::empty() =~= done);
        }
        Ok(DnsQueries { queries })
    }
}

} // verus!
