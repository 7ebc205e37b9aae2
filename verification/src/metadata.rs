//! Collection metadata: the ordered list of file names of one transfer, and
//! its binary record.
//!
//! The record is the 13-byte tag `CollectionV0.`, then the number of names
//! as eight little-endian bytes, then each name as its UTF-8 length in eight
//! little-endian bytes followed by its UTF-8 bytes. Names may hold any
//! character: nothing is split on whitespace.

use crate::error::{IrohError, IrohErrorView};
use vstd::bytes::{
    lemma_auto_spec_u64_to_from_le_bytes, spec_u64_from_le_bytes, spec_u64_to_le_bytes,
    u64_from_le_bytes, u64_to_le_bytes,
};
use vstd::prelude::*;
use vstd::slice::{slice_subrange, slice_to_vec};
use vstd::string::{StringExecFns, StringSliceAdditionalSpecFns};
use vstd::utf8::{
    decode_utf8, decode_utf8_encode_utf8, encode_utf8, encode_utf8_decode_utf8,
    encode_utf8_valid_utf8, valid_utf8,
};

verus! {

/// The tag that opens every metadata record: the bytes of `CollectionV0.`.
pub const HEADER: [u8; 13] = [67, 111, 108, 108, 101, 99, 116, 105, 111, 110, 86, 48, 46];

/// Length of the tag.
pub const HEADER_LEN: usize = 13;

/// Length of a length or count field.
pub const FIELD_LEN: usize = 8;

/// The tag as a byte sequence.
pub open spec fn header_tag() -> Seq<u8> {
    seq![67u8, 111u8, 108u8, 108u8, 101u8, 99u8, 116u8, 105u8, 111u8, 110u8, 86u8, 48u8, 46u8]
}

/// One name on the wire: length, then UTF-8 bytes.
pub open spec fn encode_name(name: Seq<char>) -> Seq<u8> {
    let raw = encode_utf8(name);
    spec_u64_to_le_bytes(raw.len() as u64) + raw
}

/// The names on the wire, one after the other, in order.
pub open spec fn encode_names(names: Seq<Seq<char>>) -> Seq<u8>
    decreases names.len(),
{
    if names.len() == 0 {
        Seq::empty()
    } else {
        encode_names(names.drop_last()) + encode_name(names.last())
    }
}

/// A whole record: tag, count, names.
pub open spec fn encode_spec(header: Seq<u8>, names: Seq<Seq<char>>) -> Seq<u8> {
    header + spec_u64_to_le_bytes(names.len() as u64) + encode_names(names)
}

/// True when the count and every name's length fit their eight-byte fields.
pub open spec fn encodable(names: Seq<Seq<char>>) -> bool {
    &&& names.len() <= u64::MAX
    &&& forall|i: int| 0 <= i < names.len() ==> (#[trigger] encode_utf8(names[i])).len() <= u64::MAX
}

/// Reads exactly `count` names from `bytes`, leaving nothing over.
pub open spec fn decode_names(bytes: Seq<u8>, count: nat) -> Option<Seq<Seq<char>>>
    decreases count,
{
    if count == 0 {
        if bytes.len() == 0 {
            Some(Seq::empty())
        } else {
            None
        }
    } else if bytes.len() < FIELD_LEN {
        None
    } else {
        let n = spec_u64_from_le_bytes(bytes.subrange(0, FIELD_LEN as int)) as int;
        if bytes.len() - FIELD_LEN < n {
            None
        } else {
            let raw = bytes.subrange(FIELD_LEN as int, FIELD_LEN + n);
            let rest = decode_names(
                bytes.subrange(FIELD_LEN + n, bytes.len() as int),
                (count - 1) as nat,
            );
            if valid_utf8(raw) && rest is Some {
                Some(seq![decode_utf8(raw)] + rest->0)
            } else {
                None
            }
        }
    }
}

/// The names that a record holds, or nothing when the bytes are no record:
/// wrong or missing tag, a field cut short, a name that is not UTF-8, fewer
/// names than counted, or bytes left over.
pub open spec fn decode_spec(bytes: Seq<u8>) -> Option<Seq<Seq<char>>> {
    if bytes.len() < HEADER_LEN + FIELD_LEN {
        None
    } else if bytes.subrange(0, HEADER_LEN as int) != header_tag() {
        None
    } else {
        decode_names(
            bytes.subrange(HEADER_LEN + FIELD_LEN, bytes.len() as int),
            spec_u64_from_le_bytes(
                bytes.subrange(HEADER_LEN as int, HEADER_LEN + FIELD_LEN),
            ) as nat,
        )
    }
}

/// The length rule that ties metadata to its hash sequence: one hash for
/// the metadata blob itself, then one per name.
pub open spec fn hash_sequence_length_ok(names: nat, hashes: nat) -> bool {
    names + 1 == hashes
}

/// Adding a name at the end adds its encoding at the end.
pub proof fn lemma_encode_names_push(names: Seq<Seq<char>>, name: Seq<char>)
    ensures
        encode_names(names.push(name)) == encode_names(names) + encode_name(name),
{
    assert(names.push(name).drop_last() =~= names);
}

/// The encoding of a non-empty list starts with the encoding of its first
/// name.
pub proof fn lemma_encode_names_front(names: Seq<Seq<char>>)
    requires
        names.len() > 0,
    ensures
        encode_names(names) == encode_name(names[0]) + encode_names(names.drop_first()),
    decreases names.len(),
{
    let head = encode_name(names[0]);
    let tail = names.drop_first();
    if names.len() == 1 {
        assert(names.drop_last().len() == 0);
        assert(tail.len() == 0);
        assert(encode_names(names.drop_last()) == Seq::<u8>::empty());
        assert(encode_names(tail) == Seq::<u8>::empty());
        assert(names.last() == names[0]);
        assert(encode_names(names) == Seq::<u8>::empty() + head);
        assert(Seq::<u8>::empty() + head =~= head + Seq::<u8>::empty());
    } else {
        let init = names.drop_last();
        lemma_encode_names_front(init);
        assert(init.drop_first() =~= tail.drop_last());
        assert(init[0] == names[0]);
        assert(tail.last() == names.last());
        assert(tail.len() > 0);
        assert(encode_names(tail) == encode_names(tail.drop_last()) + encode_name(tail.last()));
        assert(encode_names(names) == encode_names(init) + encode_name(names.last()));
        assert(encode_names(init) == head + encode_names(tail.drop_last()));
        assert((head + encode_names(tail.drop_last())) + encode_name(names.last()) =~= head + (
        encode_names(tail.drop_last()) + encode_name(names.last())));
    }
}

/// Reading the encoding of a list of names gives the names back.
pub proof fn lemma_decode_encode_names(names: Seq<Seq<char>>)
    requires
        encodable(names),
    ensures
        decode_names(encode_names(names), names.len()) == Some(names),
    decreases names.len(),
{
    if names.len() == 0 {
        assert(names =~= Seq::<Seq<char>>::empty());
    } else {
        let first = names[0];
        let rest = names.drop_first();
        let raw = encode_utf8(first);
        let bytes = encode_names(names);
        lemma_encode_names_front(names);
        lemma_auto_spec_u64_to_from_le_bytes();
        assert(raw.len() <= u64::MAX);
        let field = spec_u64_to_le_bytes(raw.len() as u64);
        assert(field.len() == 8);
        assert(bytes =~= field + raw + encode_names(rest));
        assert(bytes.subrange(0, FIELD_LEN as int) =~= field);
        assert(bytes.subrange(FIELD_LEN as int, FIELD_LEN + raw.len()) =~= raw);
        assert(bytes.subrange(FIELD_LEN + raw.len(), bytes.len() as int) =~= encode_names(rest));
        assert(encodable(rest)) by {
            assert forall|i: int| 0 <= i < rest.len() implies (#[trigger] encode_utf8(
                rest[i],
            )).len() <= u64::MAX by {
                assert(rest[i] == names[i + 1]);
            }
        }
        lemma_decode_encode_names(rest);
        encode_utf8_valid_utf8(first);
        encode_utf8_decode_utf8(first);
        assert(seq![first] + rest =~= names);
    }
}

/// Whatever `decode_names` reads, encoding it gives the bytes back.
pub proof fn lemma_encode_decode_names(bytes: Seq<u8>, count: nat)
    requires
        decode_names(bytes, count) is Some,
    ensures
        decode_names(bytes, count)->0.len() == count,
        encodable(decode_names(bytes, count)->0) || count > u64::MAX,
        encode_names(decode_names(bytes, count)->0) == bytes,
    decreases count,
{
    let names = decode_names(bytes, count)->0;
    if count == 0 {
        assert(bytes =~= Seq::<u8>::empty());
    } else {
        let n = spec_u64_from_le_bytes(bytes.subrange(0, FIELD_LEN as int)) as int;
        let raw = bytes.subrange(FIELD_LEN as int, FIELD_LEN + n);
        let tail = bytes.subrange(FIELD_LEN + n, bytes.len() as int);
        let rest = decode_names(tail, (count - 1) as nat)->0;
        lemma_encode_decode_names(tail, (count - 1) as nat);
        lemma_auto_spec_u64_to_from_le_bytes();
        decode_utf8_encode_utf8(raw);
        assert(names == seq![decode_utf8(raw)] + rest);
        assert(names[0] == decode_utf8(raw));
        assert(names.drop_first() =~= rest);
        lemma_encode_names_front(names);
        assert(spec_u64_to_le_bytes(n as u64) == bytes.subrange(0, FIELD_LEN as int));
        assert(encode_name(names[0]) =~= bytes.subrange(0, FIELD_LEN as int) + raw);
        assert(encode_names(names) =~= bytes);
        if count <= u64::MAX {
            assert forall|i: int| 0 <= i < names.len() implies (#[trigger] encode_utf8(
                names[i],
            )).len() <= u64::MAX by {
                if i > 0 {
                    assert(names[i] == rest[i - 1]);
                }
            }
        }
    }
}

/// Decoding what was encoded under the tag gives the names back.
pub proof fn lemma_decode_encode(names: Seq<Seq<char>>)
    requires
        encodable(names),
    ensures
        decode_spec(encode_spec(header_tag(), names)) == Some(names),
{
    let count = spec_u64_to_le_bytes(names.len() as u64);
    let bytes = encode_spec(header_tag(), names);
    lemma_auto_spec_u64_to_from_le_bytes();
    lemma_decode_encode_names(names);
    assert(count.len() == 8);
    assert(bytes.subrange(0, HEADER_LEN as int) =~= header_tag());
    assert(bytes.subrange(HEADER_LEN as int, HEADER_LEN + FIELD_LEN) =~= count);
    assert(bytes.subrange(HEADER_LEN + FIELD_LEN, bytes.len() as int) =~= encode_names(names));
}

/// Encoding what was decoded gives the bytes back: a record has one
/// reading, and one writing.
pub proof fn lemma_encode_decode(bytes: Seq<u8>)
    requires
        decode_spec(bytes) is Some,
    ensures
        encodable(decode_spec(bytes)->0),
        encode_spec(header_tag(), decode_spec(bytes)->0) == bytes,
{
    let field = bytes.subrange(HEADER_LEN as int, HEADER_LEN + FIELD_LEN);
    let count = spec_u64_from_le_bytes(field);
    let body = bytes.subrange(HEADER_LEN + FIELD_LEN, bytes.len() as int);
    lemma_encode_decode_names(body, count as nat);
    lemma_auto_spec_u64_to_from_le_bytes();
    assert(spec_u64_to_le_bytes(count) == field);
    assert(header_tag() + field + body =~= bytes);
}

/// With `n` names, a hash sequence of `n + 1` hashes fits, and one of `n`
/// or of `n + 2` does not.
pub proof fn lemma_length_invariant(n: nat)
    ensures
        hash_sequence_length_ok(n, n + 1),
        !hash_sequence_length_ok(n, n),
        !hash_sequence_length_ok(n, n + 2),
{
}

/// What can be wrong with metadata.
#[derive(Debug, Clone, Copy, PartialEq, Eq, Structural)]
pub enum MetadataError {
    /// The bytes are not a metadata record.
    InvalidMetadata,
    /// The number of names does not fit the hash sequence.
    MetadataMismatch,
}

impl MetadataError {
    /// The same failure in the session's error taxonomy, where both kinds
    /// are an `InvalidMetadata` that carries the reason.
    pub open spec fn as_iroh_error(self) -> IrohErrorView {
        match self {
            MetadataError::InvalidMetadata => IrohErrorView::InvalidMetadata(
                "bytes are not a metadata record"@,
            ),
            MetadataError::MetadataMismatch => IrohErrorView::InvalidMetadata(
                "name count does not match the hash sequence"@,
            ),
        }
    }

    /// Converts into the session's error type.
    pub fn to_iroh_error(self) -> (e: IrohError)
        ensures
            e@ == self.as_iroh_error(),
    {
        match self {
            MetadataError::InvalidMetadata => IrohError::InvalidMetadata(
                String::from_str("bytes are not a metadata record"),
            ),
            MetadataError::MetadataMismatch => IrohError::InvalidMetadata(
                String::from_str("name count does not match the hash sequence"),
            ),
        }
    }
}

/// Progress of one file.
#[derive(Debug, Clone)]
pub struct FileTransfer {
    /// Name of the file within the collection.
    pub name: String,
    /// Bytes moved so far.
    pub transferred: u64,
    /// Size of the file in bytes.
    pub total: u64,
}

/// The mathematical value of a progress record.
pub struct FileTransferView {
    pub name: Seq<char>,
    pub transferred: u64,
    pub total: u64,
}

impl View for FileTransfer {
    type V = FileTransferView;

    open spec fn view(&self) -> FileTransferView {
        FileTransferView { name: self.name@, transferred: self.transferred, total: self.total }
    }
}

impl DeepView for FileTransfer {
    type V = FileTransferView;

    open spec fn deep_view(&self) -> FileTransferView {
        self@
    }
}

impl FileTransfer {
    /// A copy of this record.
    pub fn duplicate(&self) -> (r: FileTransfer)
        ensures
            r@ == self@,
    {
        FileTransfer {
            name: self.name.clone(),
            transferred: self.transferred,
            total: self.total,
        }
    }
}

/// The ordered file names of a collection, under the format tag.
#[derive(Debug, Clone)]
pub struct CollectionMetadata {
    /// The format tag; `HEADER` in every record that was read.
    pub header: [u8; 13],
    /// File names, in transfer order.
    pub names: Vec<String>,
}

/// The mathematical value of collection metadata: the tag and the names.
pub struct MetadataView {
    pub header: Seq<u8>,
    pub names: Seq<Seq<char>>,
}

impl View for CollectionMetadata {
    type V = MetadataView;

    open spec fn view(&self) -> MetadataView {
        MetadataView { header: self.header@, names: self.names.deep_view() }
    }
}

/// `String::from_utf8`: succeeds exactly on valid UTF-8, and the string
/// then holds the characters that the bytes encode.
#[verifier::external_body]
fn string_from_utf8(bytes: Vec<u8>) -> (r: Option<String>)
    ensures
        match r {
            Some(s) => valid_utf8(bytes@) && s@ == decode_utf8(bytes@),
            None => !valid_utf8(bytes@),
        },
{
    String::from_utf8(bytes).ok()
}

impl CollectionMetadata {
    /// The names as character sequences.
    pub open spec fn names_view(&self) -> Seq<Seq<char>> {
        self.names.deep_view()
    }

    /// True when the record carries the format tag.
    pub open spec fn well_formed(&self) -> bool {
        self.header@ == header_tag()
    }

    /// Metadata for the given names, under the format tag.
    pub fn new(names: Vec<String>) -> (m: Self)
        ensures
            m.well_formed(),
            m.names == names,
            m@ == (MetadataView { header: header_tag(), names: names.deep_view() }),
    {
        let m = CollectionMetadata { header: HEADER, names };
        assert(m.header@ =~= header_tag());
        m
    }

    /// Reads a metadata record.
    ///
    /// Succeeds exactly on the byte strings that `decode_spec` reads, and
    /// then returns the names it reads, under the tag. Every other byte
    /// string is refused with `InvalidMetadata`.
    pub fn from_bytes(bytes: &[u8]) -> (r: Result<CollectionMetadata, MetadataError>)
        ensures
            match r {
                Ok(m) => m.well_formed() && decode_spec(bytes@) == Some(m.names_view())
                    && encode_spec(m.header@, m.names_view()) == bytes@ && m@ == (MetadataView {
                    header: header_tag(),
                    names: decode_spec(bytes@)->0,
                }),
                Err(e) => decode_spec(bytes@) is None && e == MetadataError::InvalidMetadata,
            },
    {
        let len = bytes.len();
        if len < HEADER_LEN + FIELD_LEN {
            return Err(MetadataError::InvalidMetadata);
        }
        let mut i: usize = 0;
        while i < HEADER_LEN
            invariant
                i <= HEADER_LEN,
                len == bytes@.len(),
                len >= HEADER_LEN + FIELD_LEN,
                forall|j: int| 0 <= j < i ==> bytes@[j] == header_tag()[j],
            decreases HEADER_LEN - i,
        {
            if bytes[i] != HEADER[i] {
                assert(bytes@.subrange(0, HEADER_LEN as int)[i as int] != header_tag()[i as int]);
                return Err(MetadataError::InvalidMetadata);
            }
            i = i + 1;
        }
        assert(bytes@.subrange(0, HEADER_LEN as int) =~= header_tag());
        let count = u64_from_le_bytes(slice_subrange(bytes, HEADER_LEN, HEADER_LEN + FIELD_LEN));
        let ghost body = bytes@.subrange(HEADER_LEN + FIELD_LEN, len as int);
        let mut names: Vec<String> = Vec::new();
        let mut pos: usize = HEADER_LEN + FIELD_LEN;
        let mut k: u64 = 0;
        assert(bytes@.subrange(pos as int, len as int) == body);
        assert(names.deep_view() =~= Seq::<Seq<char>>::empty());
        assert(Seq::<Seq<char>>::empty() + decode_names(body, count as nat)->0 =~= decode_names(
            body,
            count as nat,
        )->0);
        while k < count
            invariant
                k <= count,
                len == bytes@.len(),
                HEADER_LEN + FIELD_LEN <= pos <= len,
                body == bytes@.subrange(HEADER_LEN + FIELD_LEN, len as int),
                decode_spec(bytes@) == decode_names(body, count as nat),
                decode_names(body, count as nat) == (match decode_names(
                    bytes@.subrange(pos as int, len as int),
                    (count - k) as nat,
                ) {
                    Some(rest) => Some(names.deep_view() + rest),
                    None => None,
                }),
            decreases count - k,
        {
            let ghost tail = bytes@.subrange(pos as int, len as int);
            if len - pos < FIELD_LEN {
                return Err(MetadataError::InvalidMetadata);
            }
            let n = u64_from_le_bytes(slice_subrange(bytes, pos, pos + FIELD_LEN));
            assert(bytes@.subrange(pos as int, pos + FIELD_LEN) =~= tail.subrange(
                0,
                FIELD_LEN as int,
            ));
            if ((len - pos - FIELD_LEN) as u64) < n {
                return Err(MetadataError::InvalidMetadata);
            }
            let start = pos + FIELD_LEN;
            let end = start + n as usize;
            let raw = slice_to_vec(slice_subrange(bytes, start, end));
            assert(raw@ =~= tail.subrange(FIELD_LEN as int, FIELD_LEN + n));
            assert(bytes@.subrange(end as int, len as int) =~= tail.subrange(
                FIELD_LEN + n,
                tail.len() as int,
            ));
            match string_from_utf8(raw) {
                None => {
                    return Err(MetadataError::InvalidMetadata);
                },
                Some(name) => {
                    proof {
                        let before = names.deep_view();
                        let rest = decode_names(
                            bytes@.subrange(end as int, len as int),
                            (count - k - 1) as nat,
                        );
                        if rest is Some {
                            assert(before + (seq![name@] + rest->0) =~= before.push(name@)
                                + rest->0);
                        }
                    }
                    let ghost before = names.deep_view();
                    names.push(name);
                    assert(names.deep_view() =~= before.push(name@));
                    pos = end;
                    k = k + 1;
                },
            }
        }
        if pos != len {
            return Err(MetadataError::InvalidMetadata);
        }
        assert(bytes@.subrange(pos as int, len as int) =~= Seq::<u8>::empty());
        assert(names.deep_view() + Seq::<Seq<char>>::empty() =~= names.deep_view());
        let m = CollectionMetadata { header: HEADER, names };
        proof {
            assert(m.header@ =~= header_tag());
            lemma_encode_decode(bytes@);
        }
        Ok(m)
    }

    /// Writes the record: the header field, the count, then every name.
    pub fn to_bytes(&self) -> (out: Vec<u8>)
        ensures
            out@ == encode_spec(self@.header, self@.names),
            encodable(self.names_view()),
            self.well_formed() ==> decode_spec(out@) == Some(self.names_view()),
    {
        let mut out: Vec<u8> = Vec::new();
        let mut i: usize = 0;
        while i < HEADER_LEN
            invariant
                i <= HEADER_LEN,
                out@ == self.header@.subrange(0, i as int),
            decreases HEADER_LEN - i,
        {
            out.push(self.header[i]);
            assert(out@ =~= self.header@.subrange(0, i + 1));
            i = i + 1;
        }
        assert(out@ =~= self.header@);
        let count = u64_to_le_bytes(self.names.len() as u64);
        out.extend_from_slice(count.as_slice());
        let ghost prefix = out@;
        let ghost all = self.names_view();
        let mut k: usize = 0;
        assert(all.subrange(0, 0) =~= Seq::<Seq<char>>::empty());
        assert(prefix + encode_names(all.subrange(0, 0)) =~= prefix);
        while k < self.names.len()
            invariant
                k <= self.names.len(),
                all == self.names_view(),
                all.len() == self.names.len(),
                prefix == self.header@ + spec_u64_to_le_bytes(self.names.len() as u64),
                out@ == prefix + encode_names(all.subrange(0, k as int)),
                forall|j: int| 0 <= j < k ==> (#[trigger] encode_utf8(all[j])).len() <= u64::MAX,
            decreases self.names.len() - k,
        {
            let raw = self.names[k].as_str().as_bytes();
            let field = u64_to_le_bytes(raw.len() as u64);
            proof {
                assert(all[k as int] == self.names@[k as int]@);
                assert(raw@ == encode_utf8(all[k as int]));
                lemma_encode_names_push(all.subrange(0, k as int), all[k as int]);
                assert(all.subrange(0, k as int).push(all[k as int]) =~= all.subrange(0, k + 1));
            }
            out.extend_from_slice(field.as_slice());
            out.extend_from_slice(raw);
            assert(out@ =~= prefix + encode_names(all.subrange(0, k + 1)));
            k = k + 1;
        }
        proof {
            assert(all.subrange(0, k as int) =~= all);
            if self.well_formed() {
                lemma_decode_encode(all);
            }
        }
        out
    }

    /// Checks the length rule against a hash sequence of `n` hashes.
    pub fn validate_against_hash_sequence_length(&self, n: usize) -> (r: Result<
        (),
        MetadataError,
    >)
        ensures
            r is Ok <==> hash_sequence_length_ok(self.names@.len(), n as nat),
            r is Err ==> r->Err_0 == MetadataError::MetadataMismatch,
    {
        if n > 0 && self.names.len() == n - 1 {
            Ok(())
        } else {
            Err(MetadataError::MetadataMismatch)
        }
    }
}

} // verus!
