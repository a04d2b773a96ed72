//! A user's records as a whole: opening them under the master password,
//! and adding, removing and changing one of them. Every change first reads
//! and opens all that is stored, and touches nothing unless that succeeds.
//!
//! The engine does not touch the file itself. Each operation takes what the
//! file holds and says what is to be written.

use vstd::prelude::*;
use vstd::utf8::encode_utf8;
use crate::cipher::{decrypted, payload_bytes, CipherConfig, CipherView, UserError};
use crate::crypto::{aes_gcm_siv_open, derived_key, hash, hashed, TAG_LEN};
use crate::frame::lemma_frame_len_of_frame;
use crate::models::{CreateUserConfig, RecordOperationConfig};
use crate::record::{
    all_wf, concat_frames, last_offset_of, lemma_concat_frames_push, lemma_parse_last,
    lemma_parsed_records, lemma_views_push, max_offset, parse_records, record_views,
    serialize_all, Record, RecordView,
};

verus! {

/// The name of a user.
#[derive(Debug, Clone, PartialEq)]
pub struct Username(pub String);

/// A user: the sealed records, the data directory and the name. What the
/// records hold is only ever handed out as `ReadOnlyRecords`.
#[derive(Debug, Clone, PartialEq)]
pub struct User(pub Vec<Record>, pub String, pub Username);

/// The domains and passwords of a user, in the order of the log. It is a
/// copy: changing it changes nothing that is stored.
#[derive(Debug, Clone, PartialEq)]
pub struct ReadOnlyRecords(pub Vec<(String, String)>);

/// A vector of domain and password pairs as plain values.
pub open spec fn pairs_view(pairs: Seq<(String, String)>) -> Seq<(Seq<char>, Seq<char>)> {
    pairs.map_values(|p: (String, String)| (p.0@, p.1@))
}

/// The domain and password that a record opens to.
pub open spec fn secret_of(r: RecordView) -> (Seq<char>, Seq<char>)
    recommends
        decrypted(r.cipher) is Some,
{
    decrypted(r.cipher).unwrap()
}

/// Whether every record opens under its own key.
pub open spec fn decrypts(rs: Seq<RecordView>) -> bool {
    forall|i: int| 0 <= i < rs.len() ==> decrypted((#[trigger] rs[i]).cipher) is Some
}

/// What the records open to, in order.
pub open spec fn secrets(rs: Seq<RecordView>) -> Seq<(Seq<char>, Seq<char>)> {
    rs.map_values(|r: RecordView| secret_of(r))
}

/// Whether some pair is for `domain`.
pub open spec fn has_domain(pairs: Seq<(Seq<char>, Seq<char>)>, domain: Seq<char>) -> bool {
    exists|i: int| 0 <= i < pairs.len() && (#[trigger] pairs[i]).0 == domain
}

/// The pairs that are not for `domain`, in their order.
pub open spec fn without_domain(pairs: Seq<(Seq<char>, Seq<char>)>, domain: Seq<char>) -> Seq<
    (Seq<char>, Seq<char>),
>
    decreases pairs.len(),
{
    if pairs.len() == 0 {
        pairs
    } else if pairs.last().0 != domain {
        without_domain(pairs.drop_last(), domain).push(pairs.last())
    } else {
        without_domain(pairs.drop_last(), domain)
    }
}

/// The records that do not open to `domain`, in their order.
pub open spec fn kept(rs: Seq<RecordView>, domain: Seq<char>) -> Seq<RecordView>
    decreases rs.len(),
{
    if rs.len() == 0 {
        rs
    } else if secret_of(rs.last()).0 != domain {
        kept(rs.drop_last(), domain).push(rs.last())
    } else {
        kept(rs.drop_last(), domain)
    }
}

/// The integrity gate: the records that a file holds, where the file is
/// there, reads frame by frame to its end, and every record opens under the
/// key that the master password gives. `None` otherwise.
pub open spec fn gate(file: Option<Vec<u8>>, master_password: Seq<char>) -> Option<
    Seq<RecordView>,
> {
    match file {
        None => None,
        Some(bytes) => match parse_records(bytes@, encode_utf8(master_password), 0) {
            None => None,
            Some(rs) => if decrypts(rs) {
                Some(rs)
            } else {
                None
            },
        },
    }
}

/// Whether a sealed record fits a frame, carries the key that the master
/// password gives under its salt, and opens to the payload of `domain` and
/// `password`.
pub open spec fn sealed_for(
    c: CipherView,
    master_password: Seq<char>,
    domain: Seq<char>,
    password: Seq<char>,
) -> bool {
    &&& c.fits()
    &&& c.key == derived_key(encode_utf8(master_password), c.salt)
    &&& aes_gcm_siv_open(c.key, c.nonce, c.ciphertext) == Some(payload_bytes(domain, password))
}

/// Whether the payload of a domain and a password, once sealed, is short
/// enough for the length field of a frame.
pub open spec fn sealable(domain: Seq<char>, password: Seq<char>) -> bool {
    payload_bytes(domain, password).len() + TAG_LEN <= u32::MAX
}

/// What registering a user gives. Where the user's file is already there,
/// `AlreadyExists`; where the first record cannot be sealed,
/// `EncryptFailure`; otherwise the bytes of the new file, which are the one
/// frame of a record sealed for the domain and password.
pub open spec fn registered(
    r: Result<Vec<u8>, UserError>,
    exists: bool,
    master_password: Seq<char>,
    domain: Seq<char>,
    password: Seq<char>,
) -> bool {
    if exists {
        r matches Err(e) && e is AlreadyExists
    } else if !sealable(domain, password) {
        r matches Err(e) && e is EncryptFailure
    } else {
        r matches Ok(bytes) && {
            let parsed = parse_records(bytes@, encode_utf8(master_password), 0);
            &&& parsed matches Some(rs)
            &&& rs.len() == 1
            &&& rs[0].offset == 0
            &&& bytes@ == rs[0].cipher.frame()
            &&& sealed_for(rs[0].cipher, master_password, domain, password)
        }
    }
}

impl View for ReadOnlyRecords {
    type V = Seq<(Seq<char>, Seq<char>)>;

    open spec fn view(&self) -> Seq<(Seq<char>, Seq<char>)> {
        pairs_view(self.0@)
    }
}

proof fn lemma_pairs_push(pairs: Seq<(String, String)>, p: (String, String))
    ensures
        pairs_view(pairs.push(p)) == pairs_view(pairs).push((p.0@, p.1@)),
{
    assert(pairs_view(pairs.push(p)) =~= pairs_view(pairs).push((p.0@, p.1@)));
}

impl ReadOnlyRecords {
    /// A copy of the pairs.
    pub fn records(&self) -> (r: Vec<(String, String)>)
        ensures
            pairs_view(r@) == self@,
    {
        let mut out: Vec<(String, String)> = Vec::new();
        let mut i: usize = 0;
        proof {
            assert(pairs_view(out@) =~= pairs_view(self.0@.take(0)));
        }
        while i < self.0.len()
            invariant
                i <= self.0.len(),
                pairs_view(out@) == pairs_view(self.0@.take(i as int)),
            decreases self.0.len() - i,
        {
            let pair: (String, String) = (self.0[i].0.clone(), self.0[i].1.clone());
            proof {
                lemma_pairs_push(out@, pair);
                lemma_pairs_push(self.0@.take(i as int), self.0@[i as int]);
                assert(self.0@.take(i + 1) =~= self.0@.take(i as int).push(self.0@[i as int]));
            }
            out.push(pair);
            i = i + 1;
        }
        proof {
            assert(self.0@.take(i as int) =~= self.0@);
        }
        out
    }

    /// Puts a pair at the end.
    pub fn add_record(&mut self, domain: &String, password: &String)
        ensures
            final(self)@ == old(self)@.push((domain@, password@)),
    {
        let pair: (String, String) = (domain.clone(), password.clone());
        proof {
            lemma_pairs_push(self.0@, pair);
        }
        self.0.push(pair);
    }

    /// Whether some pair is for `domain`.
    pub fn contains_domain(&self, domain: &String) -> (r: bool)
        ensures
            r == has_domain(self@, domain@),
    {
        let mut i: usize = 0;
        while i < self.0.len()
            invariant
                i <= self.0.len(),
                forall|k: int| 0 <= k < i ==> (#[trigger] self@[k]).0 != domain@,
            decreases self.0.len() - i,
        {
            if self.0[i].0 == *domain {
                proof {
                    assert(self@[i as int].0 == domain@);
                }
                return true;
            }
            i = i + 1;
        }
        false
    }

    /// Drops every pair that is for `domain`.
    pub fn remove_record(&mut self, domain: &String)
        ensures
            final(self)@ == without_domain(old(self)@, domain@),
    {
        let ghost before = self@;
        let mut new_records: Vec<(String, String)> = Vec::new();
        let mut i: usize = 0;
        proof {
            assert(before.take(0) =~= Seq::<(Seq<char>, Seq<char>)>::empty());
            assert(pairs_view(new_records@) =~= without_domain(before.take(0), domain@));
        }
        while i < self.0.len()
            invariant
                i <= self.0.len(),
                before == self@,
                pairs_view(new_records@) == without_domain(before.take(i as int), domain@),
            decreases self.0.len() - i,
        {
            proof {
                assert(before.take(i + 1).drop_last() =~= before.take(i as int));
                assert(before.take(i + 1).last() == before[i as int]);
            }
            if self.0[i].0 != *domain {
                let pair: (String, String) = (self.0[i].0.clone(), self.0[i].1.clone());
                proof {
                    lemma_pairs_push(new_records@, pair);
                }
                new_records.push(pair);
            }
            i = i + 1;
        }
        proof {
            assert(before.take(i as int) =~= before);
        }
        self.0 = new_records;
    }
}

/// Opens every record. Returns what they hold, or `None` where one of them
/// does not open.
pub fn decrypt_all(records: &Vec<Record>) -> (r: Option<ReadOnlyRecords>)
    ensures
        match r {
            Some(ro) => decrypts(record_views(records@)) && ro@ == secrets(
                record_views(records@),
            ),
            None => !decrypts(record_views(records@)),
        },
{
    let ghost views = record_views(records@);
    let mut pairs: Vec<(String, String)> = Vec::new();
    let mut i: usize = 0;
    while i < records.len()
        invariant
            i <= records.len(),
            views == record_views(records@),
            pairs@.len() == i,
            forall|k: int| 0 <= k < i ==> decrypted((#[trigger] views[k]).cipher) is Some,
            forall|k: int|
                0 <= k < i ==> (#[trigger] pairs@[k]).0@ == secret_of(views[k]).0 && pairs@[k].1@
                    == secret_of(views[k]).1,
        decreases records.len() - i,
    {
        match records[i].cypher.decrypt_data() {
            Ok(pair) => {
                pairs.push((pair.domain, pair.password));
            },
            Err(_) => {
                proof {
                    assert(decrypted(views[i as int].cipher) is None);
                }
                return None;
            },
        }
        i = i + 1;
    }
    let ro = ReadOnlyRecords(pairs);
    proof {
        assert(ro@ =~= secrets(views));
    }
    Some(ro)
}

/// Runs the integrity gate on a file: reads every frame, derives
/// each key from the master password, and opens every record.
pub fn open_records(file: Option<Vec<u8>>, master_password: &str) -> (r: Result<
    (Vec<Record>, ReadOnlyRecords),
    UserError,
>)
    ensures
        match r {
            Ok((records, ro)) => {
                &&& gate(file, master_password@) == Some(record_views(records@))
                &&& all_wf(records@)
                &&& ro@ == secrets(record_views(records@))
            },
            Err(e) => {
                &&& gate(file, master_password@) is None
                &&& file is None ==> e is UserNotFound
                &&& file is Some ==> e is IntegrityFailure
            },
        },
{
    let records: Vec<Record> = match Record::read_user(file, master_password) {
        Ok(records) => records,
        Err(UserError::UserNotFound) => {
            return Err(UserError::UserNotFound);
        },
        Err(_) => {
            return Err(UserError::IntegrityFailure);
        },
    };
    match decrypt_all(&records) {
        Some(ro) => Ok((records, ro)),
        None => Err(UserError::IntegrityFailure),
    }
}

/// The records of `records` that `pairs` does not list under `domain`.
fn keep_others(records: &Vec<Record>, pairs: &ReadOnlyRecords, domain: &String) -> (r: Vec<Record>)
    requires
        pairs@ == secrets(record_views(records@)),
        all_wf(records@),
    ensures
        record_views(r@) == kept(record_views(records@), domain@),
        all_wf(r@),
{
    let ghost views = record_views(records@);
    let mut out: Vec<Record> = Vec::new();
    let mut i: usize = 0;
    proof {
        assert(views.take(0) =~= Seq::<RecordView>::empty());
        assert(record_views(out@) =~= kept(views.take(0), domain@));
        assert(pairs@.len() == records@.len());
    }
    while i < records.len()
        invariant
            i <= records.len(),
            views == record_views(records@),
            pairs@ == secrets(views),
            pairs.0@.len() == records@.len(),
            all_wf(records@),
            all_wf(out@),
            record_views(out@) == kept(views.take(i as int), domain@),
        decreases records.len() - i,
    {
        proof {
            assert(views.take(i + 1).drop_last() =~= views.take(i as int));
            assert(views.take(i + 1).last() == views[i as int]);
            assert(pairs@[i as int] == secret_of(views[i as int]));
            assert(pairs@[i as int].0 == pairs.0@[i as int].0@);
        }
        if pairs.0[i].0 != *domain {
            let copy: Record = records[i].duplicate();
            proof {
                lemma_views_push(out@, copy);
                assert(copy.cypher.wf()) by {
                    assert(records@[i as int].cypher.wf());
                    assert(copy@ == records@[i as int]@);
                }
            }
            out.push(copy);
        }
        i = i + 1;
    }
    proof {
        assert(views.take(i as int) =~= views);
    }
    out
}

impl CreateUserConfig {
    /// Registers the user with its first record. `exists` says whether the
    /// user's file is already there. Returns what the new file is to hold.
    pub fn create_user(&self, exists: bool) -> (r: Result<Vec<u8>, UserError>)
        ensures
            registered(r, exists, self.master_pwd@, self.domain@, self.pwd@),
    {
        let config: RecordOperationConfig = self.operation();
        User::new(&config, exists)
    }
}

impl User {
    /// The records as plain values.
    pub open spec fn records(&self) -> Seq<RecordView> {
        record_views(self.0@)
    }

    /// Whether every record fits a frame.
    pub open spec fn wf(&self) -> bool {
        all_wf(self.0@)
    }

    /// Opens an existing user: reads every record that `file` holds and
    /// opens it under the master password. `file` is what the user's file
    /// holds, or `None` where there is no such file.
    pub fn from(path: &str, username: &str, master_password: &str, file: Option<Vec<u8>>) -> (r:
        Result<(Self, ReadOnlyRecords), UserError>)
        ensures
            match r {
                Ok((user, ro)) => {
                    &&& gate(file, master_password@) == Some(user.records())
                    &&& user.wf()
                    &&& ro@ == secrets(user.records())
                    &&& user.1@ == path@
                    &&& user.2.0@ == username@
                },
                Err(e) => {
                    &&& gate(file, master_password@) is None
                    &&& file is None ==> e is UserNotFound
                    &&& file is Some ==> e is IntegrityFailure
                },
            },
    {
        match open_records(file, master_password) {
            Ok((records, ro)) => Ok(
                (User(records, path.to_owned(), Username(username.to_owned())), ro),
            ),
            Err(e) => Err(e),
        }
    }

    /// Registers a user with a first record. `exists` says whether the
    /// user's file is already there. Returns what the new file is to hold:
    /// the one frame of the first record.
    pub fn new(user: &RecordOperationConfig, exists: bool) -> (r: Result<Vec<u8>, UserError>)
        ensures
            registered(r, exists, user.master_password@, user.domain@, user.password@),
    {
        if exists {
            return Err(UserError::AlreadyExists);
        }
        let cipher: CipherConfig = match CipherConfig::encrypt_data(
            user.domain.as_str(),
            user.password.as_str(),
            user.master_password.as_str(),
        ) {
            Ok(cipher) => cipher,
            Err(_) => {
                return Err(UserError::EncryptFailure);
            },
        };
        let mut buffer: Vec<u8> = Vec::new();
        cipher.write(&mut buffer);
        proof {
            let c = cipher@;
            let password = encode_utf8(user.master_password@);
            lemma_frame_len_of_frame(c.salt, c.nonce, c.ciphertext, Seq::empty());
            assert(buffer@ =~= c.frame());
            assert(c.frame() + Seq::<u8>::empty() =~= c.frame());
            lemma_parse_last(buffer@, password, 0);
        }
        Ok(buffer)
    }

    /// The user's name.
    pub fn username(&self) -> (r: String)
        ensures
            r@ == self.2.0@,
    {
        self.2.0.clone()
    }

    /// The data directory.
    pub fn path(&self) -> (r: String)
        ensures
            r@ == self.1@,
    {
        self.1.clone()
    }

    /// The name of the user's file within the data directory.
    pub fn file_name(&self) -> (r: String)
        ensures
            r@ == hashed(self.2.0@),
    {
        hash(self.2.0.clone())
    }

    /// The largest offset among the user's records, or 0 where there are
    /// none.
    pub fn last_offset(&self) -> (r: u32)
        ensures
            r == max_offset(self.records()),
    {
        last_offset_of(&self.0)
    }

    /// Runs the integrity gate on what the user's file holds.
    /// Returns whether it passed, and what the records hold if it did.
    pub fn check_integrity(&self, file: Option<Vec<u8>>, master_password: &str) -> (r: (
        bool,
        Option<ReadOnlyRecords>,
    ))
        ensures
            r.0 == gate(file, master_password@) is Some,
            r.0 ==> (r.1 matches Some(ro) && ro@ == secrets(
                gate(file, master_password@).unwrap(),
            )),
            !r.0 ==> r.1 is None,
    {
        match open_records(file, master_password) {
            Ok((_, ro)) => (true, Some(ro)),
            Err(_) => (false, None),
        }
    }

    /// Adds a record for a domain that has none yet. `file` is what the
    /// user's file holds. Returns what the records hold afterwards, and the
    /// bytes to append to the file: the frame of the new record.
    pub fn add_record(&mut self, record: RecordOperationConfig, file: Option<Vec<u8>>) -> (r:
        Result<(ReadOnlyRecords, Vec<u8>), UserError>)
        ensures
            match gate(file, record.master_password@) {
                None => r matches Err(e) && e is IntegrityFailure && *final(self) == *old(self),
                Some(rs) => if has_domain(secrets(rs), record.domain@) {
                    r matches Err(UserError::DuplicateRecord(d)) && d@ == record.domain@
                        && *final(self) == *old(self)
                } else if !sealable(record.domain@, record.password@) {
                    r matches Err(e) && e is EncryptFailure && *final(self) == *old(self)
                } else {
                    r matches Ok((ro, appended)) && {
                        let added = final(self).records().last();
                        &&& final(self).records() == rs.push(added)
                        &&& final(self).wf()
                        &&& final(self).1 == old(self).1
                        &&& final(self).2 == old(self).2
                        &&& sealed_for(
                            added.cipher,
                            record.master_password@,
                            record.domain@,
                            record.password@,
                        )
                        &&& added.offset == max_offset(rs)
                        &&& ro@ == secrets(rs).push((record.domain@, record.password@))
                        &&& appended@ == added.cipher.frame()
                        &&& file.unwrap()@ + appended@ == concat_frames(final(self).records())
                    }
                },
            },
    {
        let ghost stored = file.unwrap()@;
        let (records, mut ro_records) = match open_records(
            file,
            record.master_password.as_str(),
        ) {
            Ok(opened) => opened,
            Err(_) => {
                return Err(UserError::IntegrityFailure);
            },
        };
        let ghost rs = record_views(records@);
        if ro_records.contains_domain(&record.domain) {
            return Err(UserError::DuplicateRecord(record.domain));
        }
        let cipher: CipherConfig = match CipherConfig::encrypt_data(
            record.domain.as_str(),
            record.password.as_str(),
            record.master_password.as_str(),
        ) {
            Ok(cipher) => cipher,
            Err(_) => {
                return Err(UserError::EncryptFailure);
            },
        };
        ro_records.add_record(&record.domain, &record.password);
        let offset: u32 = last_offset_of(&records);
        let added: Record = Record::new(cipher, offset);
        let mut buffer: Vec<u8> = Vec::new();
        added.cypher.write(&mut buffer);
        proof {
            lemma_views_push(records@, added);
            lemma_parsed_records(stored, encode_utf8(record.master_password@), 0);
            lemma_concat_frames_push(rs, added@);
            assert(buffer@ =~= added@.cipher.frame());
        }
        let mut records = records;
        records.push(added);
        self.0 = records;
        Ok((ro_records, buffer))
    }

    /// Removes the record of a domain. `file` is what the user's file
    /// holds. Returns what the records hold afterwards, and what the file
    /// is to hold: the frames of the records that stay.
    pub fn remove_record(&mut self, record: RecordOperationConfig, file: Option<Vec<u8>>) -> (r:
        Result<(ReadOnlyRecords, Vec<u8>), UserError>)
        ensures
            match gate(file, record.master_password@) {
                None => r matches Err(e) && e is IntegrityFailure && *final(self) == *old(self),
                Some(rs) => if !has_domain(secrets(rs), record.domain@) {
                    r matches Err(UserError::RecordNotFound(d)) && d@ == record.domain@
                        && *final(self) == *old(self)
                } else {
                    r matches Ok((ro, content)) && {
                        &&& final(self).records() == kept(rs, record.domain@)
                        &&& final(self).wf()
                        &&& final(self).1 == old(self).1
                        &&& final(self).2 == old(self).2
                        &&& ro@ == without_domain(secrets(rs), record.domain@)
                        &&& content@ == concat_frames(final(self).records())
                    }
                },
            },
    {
        let (records, mut ro_records) = match open_records(
            file,
            record.master_password.as_str(),
        ) {
            Ok(opened) => opened,
            Err(_) => {
                return Err(UserError::IntegrityFailure);
            },
        };
        if !ro_records.contains_domain(&record.domain) {
            return Err(UserError::RecordNotFound(record.domain));
        }
        let new_records: Vec<Record> = keep_others(&records, &ro_records, &record.domain);
        ro_records.remove_record(&record.domain);
        let buffer: Vec<u8> = serialize_all(&new_records);
        self.0 = new_records;
        Ok((ro_records, buffer))
    }

    /// Replaces the password of a domain: its record is removed and a
    /// freshly sealed one is put at the end. `file` is what the user's file
    /// holds. Returns what the records hold afterwards, and what the file
    /// is to hold: the frames of the new run of records.
    pub fn modify_record(&mut self, record: RecordOperationConfig, file: Option<Vec<u8>>) -> (r:
        Result<(ReadOnlyRecords, Vec<u8>), UserError>)
        ensures
            match gate(file, record.master_password@) {
                None => r matches Err(e) && e is IntegrityFailure && *final(self) == *old(self),
                Some(rs) => if !has_domain(secrets(rs), record.domain@) {
                    r matches Err(UserError::RecordNotFound(d)) && d@ == record.domain@
                        && *final(self) == *old(self)
                } else if !sealable(record.domain@, record.password@) {
                    r matches Err(e) && e is EncryptFailure && *final(self) == *old(self)
                } else {
                    r matches Ok((ro, content)) && {
                        let added = final(self).records().last();
                        &&& final(self).records() == kept(rs, record.domain@).push(added)
                        &&& final(self).wf()
                        &&& final(self).1 == old(self).1
                        &&& final(self).2 == old(self).2
                        &&& sealed_for(
                            added.cipher,
                            record.master_password@,
                            record.domain@,
                            record.password@,
                        )
                        &&& added.offset == max_offset(rs)
                        &&& ro@ == without_domain(secrets(rs), record.domain@).push(
                            (record.domain@, record.password@),
                        )
                        &&& content@ == concat_frames(final(self).records())
                    }
                },
            },
    {
        let (records, mut ro_records) = match open_records(
            file,
            record.master_password.as_str(),
        ) {
            Ok(opened) => opened,
            Err(_) => {
                return Err(UserError::IntegrityFailure);
            },
        };
        if !ro_records.contains_domain(&record.domain) {
            return Err(UserError::RecordNotFound(record.domain));
        }
        let cipher: CipherConfig = match CipherConfig::encrypt_data(
            record.domain.as_str(),
            record.password.as_str(),
            record.master_password.as_str(),
        ) {
            Ok(cipher) => cipher,
            Err(_) => {
                return Err(UserError::EncryptFailure);
            },
        };
        let mut new_records: Vec<Record> = keep_others(&records, &ro_records, &record.domain);
        ro_records.remove_record(&record.domain);
        ro_records.add_record(&record.domain, &record.password);
        let added: Record = Record::new(cipher, last_offset_of(&records));
        proof {
            lemma_views_push(new_records@, added);
        }
        new_records.push(added);
        let buffer: Vec<u8> = serialize_all(&new_records);
        self.0 = new_records;
        Ok((ro_records, buffer))
    }
}

} // verus!
