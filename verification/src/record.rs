//! Records as they lie in the log: reading frames off a byte buffer one
//! after the other, and laying them out again.

use vstd::prelude::*;
use vstd::utf8::encode_utf8;
use crate::cipher::{decrypted, CipherConfig, CipherView, DomainPasswordPair, UserError};
use crate::crypto::{derived_key, DerivedKey};
use crate::frame::{
    be_bytes, be_value, copy_bytes, frame_len, u32_from_be, HEADER_LEN, LEN_FIELD_AT,
};

verus! {

/// A record as plain values.
pub struct RecordView {
    pub cipher: CipherView,
    pub offset: u32,
}

/// A sealed record and the place in the log where it was found.
#[derive(Debug, Clone, PartialEq)]
pub struct Record {
    pub cypher: CipherConfig,
    pub offset: u32,
}

impl View for Record {
    type V = RecordView;

    open spec fn view(&self) -> RecordView {
        RecordView { cipher: self.cypher@, offset: self.offset }
    }
}

/// The records of a vector as plain values.
pub open spec fn record_views(records: Seq<Record>) -> Seq<RecordView> {
    records.map_values(|r: Record| r@)
}

/// Whether every record of a vector fits a frame.
pub open spec fn all_wf(records: Seq<Record>) -> bool {
    forall|i: int| 0 <= i < records.len() ==> (#[trigger] records[i]).cypher.wf()
}

/// Whether a record as plain values fits a frame.
pub open spec fn fits_frame(r: RecordView) -> bool {
    r.cipher.fits()
}

/// The running offset after a frame of `len` bytes that starts at `offset`.
/// It counts modulo 2^32.
pub open spec fn next_offset(offset: u32, len: int) -> u32 {
    ((offset as int + len) % 0x1_0000_0000) as u32
}

/// The record that the frame at the start of `bytes` holds, with the key
/// that `password` gives under the frame's salt.
pub open spec fn record_at(bytes: Seq<u8>, password: Seq<u8>, offset: u32) -> RecordView
    recommends
        frame_len(bytes) is Some,
{
    let salt = bytes.subrange(0, 22);
    RecordView {
        cipher: CipherView {
            key: derived_key(password, salt),
            salt,
            nonce: bytes.subrange(22, 34),
            ciphertext: bytes.subrange(HEADER_LEN as int, frame_len(bytes).unwrap()),
        },
        offset,
    }
}

/// The records that `bytes` holds when read frame by frame until nothing is
/// left, or `None` where some frame is cut short. Empty bytes hold the
/// empty log.
#[verifier::opaque]
pub open spec fn parse_records(bytes: Seq<u8>, password: Seq<u8>, offset: u32) -> Option<
    Seq<RecordView>,
>
    decreases bytes.len(),
{
    if bytes.len() == 0 {
        Some(Seq::empty())
    } else {
        match frame_len(bytes) {
            None => None,
            Some(n) => match parse_records(bytes.skip(n), password, next_offset(offset, n)) {
                None => None,
                Some(rest) => Some(seq![record_at(bytes, password, offset)] + rest),
            },
        }
    }
}

/// `tail` with `head` put in front of it, where there is a tail.
pub open spec fn prepend(head: Seq<RecordView>, tail: Option<Seq<RecordView>>) -> Option<
    Seq<RecordView>,
> {
    match tail {
        None => None,
        Some(t) => Some(head + t),
    }
}

/// The frames of `records` laid end to end.
pub open spec fn concat_frames(records: Seq<RecordView>) -> Seq<u8>
    decreases records.len(),
{
    if records.len() == 0 {
        Seq::empty()
    } else {
        records[0].cipher.frame() + concat_frames(records.skip(1))
    }
}

/// The largest offset among `records`, or 0 where there are none.
pub open spec fn max_offset(records: Seq<RecordView>) -> u32
    decreases records.len(),
{
    if records.len() == 0 {
        0
    } else {
        let m = max_offset(records.drop_last());
        if records.last().offset > m {
            records.last().offset
        } else {
            m
        }
    }
}

/// The frames of two runs of records laid end to end are the frames of the
/// first run followed by those of the second.
pub proof fn lemma_concat_frames_add(a: Seq<RecordView>, b: Seq<RecordView>)
    ensures
        concat_frames(a + b) == concat_frames(a) + concat_frames(b),
    decreases a.len(),
{
    if a.len() == 0 {
        assert(a + b =~= b);
        assert(concat_frames(a) + concat_frames(b) =~= concat_frames(b));
    } else {
        lemma_concat_frames_add(a.skip(1), b);
        assert((a + b).skip(1) =~= a.skip(1) + b);
        assert((a + b)[0] == a[0]);
        assert(concat_frames(a + b) =~= concat_frames(a) + concat_frames(b));
    }
}

proof fn lemma_be_bytes_of_value(b: Seq<u8>)
    requires
        b.len() == 4,
    ensures
        0 <= be_value(b) <= u32::MAX,
        be_bytes(be_value(b) as u32) == b,
{
    let b0 = b[0] as int;
    let b1 = b[1] as int;
    let b2 = b[2] as int;
    let b3 = b[3] as int;
    let v = b0 * 0x100_0000 + b1 * 0x1_0000 + b2 * 0x100 + b3;
    assert(be_value(b) == v);
    assert(0 <= v <= u32::MAX);
    assert(v / 0x100_0000 == b0);
    assert(v / 0x1_0000 == b0 * 0x100 + b1);
    assert(v / 0x100 == b0 * 0x1_0000 + b1 * 0x100 + b2);
    assert((b0 * 0x100 + b1) % 0x100 == b1);
    assert((b0 * 0x1_0000 + b1 * 0x100 + b2) % 0x100 == b2);
    assert(v % 0x100 == b3);
    let w = be_bytes(v as u32);
    assert(w[0] == b[0]);
    assert(w[1] == b[1]);
    assert(w[2] == b[2]);
    assert(w[3] == b[3]);
    assert(w =~= b);
}

/// Bytes that are not empty and do not start with a whole frame hold no
/// log.
pub proof fn lemma_parse_none(bytes: Seq<u8>, password: Seq<u8>, offset: u32)
    ensures
        bytes.len() > 0 && frame_len(bytes) is None ==> parse_records(bytes, password, offset)
            is None,
{
    reveal(parse_records);
}

/// Empty bytes hold the empty log.
pub proof fn lemma_parse_empty(bytes: Seq<u8>, password: Seq<u8>, offset: u32)
    requires
        bytes.len() == 0,
    ensures
        parse_records(bytes, password, offset) == Some(Seq::<RecordView>::empty()),
{
    reveal(parse_records);
}

/// Reading bytes that start with a whole frame gives the record of that
/// frame, then whatever the rest of the bytes gives.
pub proof fn lemma_parse_more(bytes: Seq<u8>, password: Seq<u8>, offset: u32)
    requires
        frame_len(bytes) is Some,
    ensures
        parse_records(bytes, password, offset) == prepend(
            seq![record_at(bytes, password, offset)],
            parse_records(
                bytes.skip(frame_len(bytes).unwrap()),
                password,
                next_offset(offset, frame_len(bytes).unwrap()),
            ),
        ),
{
    reveal(parse_records);
}

/// Reading bytes that are one frame and no more gives that one record.
pub proof fn lemma_parse_last(bytes: Seq<u8>, password: Seq<u8>, offset: u32)
    requires
        frame_len(bytes) is Some,
        frame_len(bytes).unwrap() >= bytes.len(),
    ensures
        parse_records(bytes, password, offset) == Some(seq![record_at(bytes, password, offset)]),
{
    let n = frame_len(bytes).unwrap();
    let first = record_at(bytes, password, offset);
    lemma_parse_more(bytes, password, offset);
    lemma_parse_empty(bytes.skip(n), password, next_offset(offset, n));
    assert(seq![first] + Seq::<RecordView>::empty() =~= seq![first]);
}

proof fn lemma_prepend_push(done: Seq<RecordView>, r: RecordView, tail: Option<Seq<RecordView>>)
    ensures
        prepend(done, prepend(seq![r], tail)) == prepend(done.push(r), tail),
{
    if tail is Some {
        assert(done + (seq![r] + tail.unwrap()) =~= done.push(r) + tail.unwrap());
    }
}

proof fn lemma_prepend_nothing(done: Seq<RecordView>)
    ensures
        prepend(done, Some(Seq::<RecordView>::empty())) == Some(done),
{
    assert(done + Seq::<RecordView>::empty() =~= done);
}

/// The plain values of a vector with one more record are those of the
/// vector, then those of the record.
pub proof fn lemma_views_push(records: Seq<Record>, r: Record)
    ensures
        record_views(records.push(r)) == record_views(records).push(r@),
{
    assert(record_views(records.push(r)) =~= record_views(records).push(r@));
}

/// The frames of a run of records with one more record at its end are the
/// frames of the run, then the frame of that record.
pub proof fn lemma_concat_frames_push(rs: Seq<RecordView>, added: RecordView)
    ensures
        concat_frames(rs.push(added)) == concat_frames(rs) + added.cipher.frame(),
{
    lemma_concat_frames_add(rs, seq![added]);
    assert(rs + seq![added] =~= rs.push(added));
    assert(seq![added].skip(1) =~= Seq::<RecordView>::empty());
    assert(concat_frames(Seq::<RecordView>::empty()) =~= Seq::<u8>::empty());
    assert(seq![added][0] == added);
    assert(concat_frames(seq![added]) =~= added.cipher.frame());
}

/// The frame at the start of a buffer, written out again, is the start of
/// that buffer.
pub proof fn lemma_frame_of_record_at(bytes: Seq<u8>, password: Seq<u8>, offset: u32)
    requires
        frame_len(bytes) is Some,
    ensures
        fits_frame(record_at(bytes, password, offset)),
        record_at(bytes, password, offset).cipher.frame() == bytes.subrange(
            0,
            frame_len(bytes).unwrap(),
        ),
        HEADER_LEN <= frame_len(bytes).unwrap() <= bytes.len(),
{
    let n = frame_len(bytes).unwrap();
    let field = bytes.subrange(LEN_FIELD_AT as int, HEADER_LEN as int);
    let r = record_at(bytes, password, offset);
    lemma_be_bytes_of_value(field);
    assert(r.cipher.ciphertext.len() == n - 38);
    assert(r.cipher.frame() =~= bytes.subrange(0, n));
}

/// What was parsed is all there is: the frames of the records read from a
/// buffer, laid end to end, are that buffer, and each record fits a frame
/// and carries the key that the password gives under its salt.
pub proof fn lemma_parsed_records(bytes: Seq<u8>, password: Seq<u8>, offset: u32)
    requires
        parse_records(bytes, password, offset) is Some,
    ensures
        concat_frames(parse_records(bytes, password, offset).unwrap()) == bytes,
        forall|i: int|
            0 <= i < parse_records(bytes, password, offset).unwrap().len() ==> {
                let r = #[trigger] parse_records(bytes, password, offset).unwrap()[i];
                fits_frame(r) && r.cipher.key == derived_key(password, r.cipher.salt)
            },
    decreases bytes.len(),
{
    let rs = parse_records(bytes, password, offset).unwrap();
    if bytes.len() == 0 {
        lemma_parse_empty(bytes, password, offset);
        assert(concat_frames(rs) =~= bytes);
    } else {
        lemma_parse_none(bytes, password, offset);
        let n = frame_len(bytes).unwrap();
        let first = record_at(bytes, password, offset);
        lemma_frame_of_record_at(bytes, password, offset);
        lemma_parse_more(bytes, password, offset);
        let rest = bytes.skip(n);
        let tail = parse_records(rest, password, next_offset(offset, n)).unwrap();
        lemma_parsed_records(rest, password, next_offset(offset, n));
        assert(rs == seq![first] + tail);
        assert(rs.skip(1) =~= tail);
        assert(bytes =~= bytes.subrange(0, n) + rest);
        assert(concat_frames(rs) =~= first.cipher.frame() + concat_frames(rs.skip(1)));
        assert forall|i: int| 0 <= i < rs.len() implies {
            let r = #[trigger] rs[i];
            fits_frame(r) && r.cipher.key == derived_key(password, r.cipher.salt)
        } by {
            if i > 0 {
                assert(rs[i] == tail[i - 1]);
            }
        }
    }
}

impl Record {
    /// Puts a sealed record and its offset together.
    pub fn new(cypher: CipherConfig, offset: u32) -> (r: Self)
        ensures
            r.cypher == cypher,
            r.offset == offset,
    {
        Record { cypher, offset }
    }

    /// A copy of the record.
    pub fn duplicate(&self) -> (r: Self)
        ensures
            r@ == self@,
    {
        let salt: Vec<u8> = copy_bytes(&self.cypher.salt, 0, self.cypher.salt.len());
        let ciphertext: Vec<u8> = copy_bytes(
            &self.cypher.ciphertext,
            0,
            self.cypher.ciphertext.len(),
        );
        proof {
            assert(salt@ =~= self.cypher.salt@);
            assert(ciphertext@ =~= self.cypher.ciphertext@);
        }
        Record {
            cypher: CipherConfig::new(self.cypher.key, salt, self.cypher.nonce, ciphertext),
            offset: self.offset,
        }
    }

    /// Reads the frame at the start of `bytes` and derives its key from the
    /// master password and the frame's salt. Returns the record, the bytes
    /// after the frame and the running offset after it, or a parse failure
    /// where the bytes do not start with a whole frame.
    pub fn read_from_bytes(bytes: Vec<u8>, master_password: &str, offset: u32) -> (r: Result<
        (Self, Vec<u8>, u32),
        UserError,
    >)
        ensures
            match r {
                Ok((record, rest, next)) => {
                    &&& frame_len(bytes@) matches Some(n)
                    &&& record@ == record_at(bytes@, encode_utf8(master_password@), offset)
                    &&& record.cypher.wf()
                    &&& rest@ == bytes@.skip(n)
                    &&& next == next_offset(offset, n)
                },
                Err(e) => frame_len(bytes@) is None && e is ParseFailure,
            },
    {
        if bytes.len() < HEADER_LEN {
            return Err(UserError::ParseFailure);
        }
        let ciphertext_len: u32 = u32_from_be(&bytes, LEN_FIELD_AT);
        if bytes.len() - HEADER_LEN < ciphertext_len as usize {
            return Err(UserError::ParseFailure);
        }
        let end: usize = HEADER_LEN + ciphertext_len as usize;
        let salt: Vec<u8> = copy_bytes(&bytes, 0, 22);
        let mut nonce: [u8; 12] = [0u8; 12];
        let mut i: usize = 0;
        while i < 12
            invariant
                i <= 12,
                bytes.len() >= HEADER_LEN,
                forall|k: int| 0 <= k < i ==> nonce@[k] == bytes@[22 + k],
            decreases 12 - i,
        {
            nonce[i] = bytes[22 + i];
            i = i + 1;
        }
        let ciphertext: Vec<u8> = copy_bytes(&bytes, HEADER_LEN, end);
        let rest: Vec<u8> = copy_bytes(&bytes, end, bytes.len());
        let derived: DerivedKey = DerivedKey::derive_key(master_password, Some(salt));
        let next: u64 = (offset as u64 + end as u64) % 0x1_0000_0000;
        let cypher = CipherConfig::new(derived.key, derived.salt, nonce, ciphertext);
        proof {
            assert(nonce@ =~= bytes@.subrange(22, 34));
            assert(rest@ =~= bytes@.skip(end as int));
        }
        Ok((Record::new(cypher, offset), rest, next as u32))
    }

    /// Reads every record of a user's file. `file` is what the file holds,
    /// or `None` where there is no such file.
    pub fn read_user(file: Option<Vec<u8>>, master_password: &str) -> (r: Result<
        Vec<Self>,
        UserError,
    >)
        ensures
            match r {
                Ok(records) => {
                    &&& file matches Some(bytes)
                    &&& parse_records(bytes@, encode_utf8(master_password@), 0) == Some(
                        record_views(records@),
                    )
                    &&& all_wf(records@)
                },
                Err(e) => match file {
                    None => e is UserNotFound,
                    Some(bytes) => parse_records(bytes@, encode_utf8(master_password@), 0) is None
                        && e is ParseFailure,
                },
            },
    {
        let mut bytes: Vec<u8> = match file {
            Some(bytes) => bytes,
            None => return Err(UserError::UserNotFound),
        };
        let ghost whole = bytes@;
        let ghost password = encode_utf8(master_password@);
        let mut data: Vec<Record> = Vec::new();
        let mut offset: u32 = 0;
        proof {
            assert(record_views(data@) =~= Seq::<RecordView>::empty());
            assert(prepend(record_views(data@), parse_records(bytes@, password, offset))
                =~= parse_records(whole, password, 0));
        }
        while bytes.len() > 0
            invariant
                file is Some,
                file.unwrap()@ == whole,
                password == encode_utf8(master_password@),
                all_wf(data@),
                prepend(record_views(data@), parse_records(bytes@, password, offset))
                    == parse_records(whole, password, 0),
            decreases bytes@.len(),
        {
            let ghost before = bytes@;
            let ghost done = record_views(data@);
            let ghost at = offset;
            let (record, rest, next) = match Record::read_from_bytes(
                bytes,
                master_password,
                offset,
            ) {
                Ok(found) => found,
                Err(_) => {
                    proof {
                        lemma_parse_none(before, password, at);
                    }
                    return Err(UserError::ParseFailure);
                },
            };
            proof {
                lemma_frame_of_record_at(before, password, at);
                lemma_views_push(data@, record);
                lemma_prepend_push(done, record@, parse_records(rest@, password, next));
                lemma_parse_more(before, password, at);
            }
            data.push(record);
            bytes = rest;
            offset = next;
        }
        proof {
            lemma_parse_empty(bytes@, password, offset);
            lemma_prepend_nothing(record_views(data@));
        }
        Ok(data)
    }

    /// Opens the record.
    pub fn data(&self) -> (r: Result<DomainPasswordPair, UserError>)
        ensures
            match r {
                Ok(pair) => decrypted(self@.cipher) == Some((pair.domain@, pair.password@)),
                Err(e) => decrypted(self@.cipher) is None && e is DecryptionFailure,
            },
    {
        self.cypher.decrypt_data()
    }
}

/// The frames of `records`, laid end to end.
pub fn serialize_all(records: &Vec<Record>) -> (buffer: Vec<u8>)
    requires
        all_wf(records@),
    ensures
        buffer@ == concat_frames(record_views(records@)),
{
    let ghost views = record_views(records@);
    let mut buffer: Vec<u8> = Vec::new();
    let mut i: usize = 0;
    proof {
        assert(views.skip(0) =~= views);
        assert(buffer@ + concat_frames(views) =~= concat_frames(views));
    }
    while i < records.len()
        invariant
            i <= records.len(),
            all_wf(records@),
            views == record_views(records@),
            buffer@ + concat_frames(views.skip(i as int)) == concat_frames(views),
        decreases records.len() - i,
    {
        let ghost prev = buffer@;
        proof {
            assert(views.skip(i as int)[0] == records@[i as int]@);
            assert(views.skip(i as int).skip(1) =~= views.skip(i + 1));
        }
        records[i].cypher.write(&mut buffer);
        proof {
            assert(buffer@ + concat_frames(views.skip(i + 1)) =~= prev + concat_frames(
                views.skip(i as int),
            ));
        }
        i = i + 1;
    }
    proof {
        assert(views.skip(i as int) =~= Seq::<RecordView>::empty());
        assert(buffer@ =~= concat_frames(views));
    }
    buffer
}

/// The largest offset among `records`, or 0 where there are none.
pub fn last_offset_of(records: &Vec<Record>) -> (offset: u32)
    ensures
        offset == max_offset(record_views(records@)),
{
    let ghost views = record_views(records@);
    let mut offset: u32 = 0;
    let mut i: usize = 0;
    proof {
        assert(views.take(0) =~= Seq::<RecordView>::empty());
    }
    while i < records.len()
        invariant
            i <= records.len(),
            views == record_views(records@),
            offset == max_offset(views.take(i as int)),
        decreases records.len() - i,
    {
        proof {
            assert(views.take(i + 1).drop_last() =~= views.take(i as int));
            assert(views.take(i + 1).last() == records@[i as int]@);
        }
        if records[i].offset > offset {
            offset = records[i].offset;
        }
        i = i + 1;
    }
    proof {
        assert(views.take(i as int) =~= views);
    }
    offset
}

} // verus!
