//! What holds between writing a log and reading it again.

use vstd::prelude::*;
use vstd::utf8::encode_utf8;
use crate::cipher::{decrypted, lemma_decrypt_of_sealed};
use crate::crypto::{derived_key, DerivedKey};
use crate::frame::lemma_frame_len_of_frame;
use crate::payload::survives_escaping;
use crate::record::{
    concat_frames, fits_frame, lemma_concat_frames_push, lemma_parse_empty, lemma_parse_more,
    lemma_parsed_records, next_offset, parse_records, record_at, RecordView,
};
use crate::user::{
    decrypts, gate, has_domain, kept, sealed_for, secret_of, secrets, without_domain,
};

verus! {

/// Whether every record fits a frame and carries the key that `password`
/// gives under its salt.
pub open spec fn keyed_by(rs: Seq<RecordView>, password: Seq<u8>) -> bool {
    forall|i: int|
        0 <= i < rs.len() ==> fits_frame(#[trigger] rs[i]) && rs[i].cipher.key == derived_key(
            password,
            rs[i].cipher.salt,
        )
}

/// Whether two runs of records hold the same sealed records, whatever their
/// offsets.
pub open spec fn same_ciphers(a: Seq<RecordView>, b: Seq<RecordView>) -> bool {
    &&& a.len() == b.len()
    &&& forall|i: int| 0 <= i < a.len() ==> (#[trigger] a[i]).cipher == b[i].cipher
}

/// Writing then reading: the frames of records, laid end to end, are read
/// back as the same sealed records; no frames are read back as no records.
pub proof fn lemma_parse_of_frames(rs: Seq<RecordView>, password: Seq<u8>, offset: u32)
    requires
        keyed_by(rs, password),
    ensures
        parse_records(concat_frames(rs), password, offset) matches Some(out) && same_ciphers(
            out,
            rs,
        ),
    decreases rs.len(),
{
    let bytes = concat_frames(rs);
    if rs.len() == 0 {
        lemma_parse_empty(bytes, password, offset);
    } else {
        let c = rs[0].cipher;
        let tail = rs.skip(1);
        let rest = concat_frames(tail);
        lemma_frame_len_of_frame(c.salt, c.nonce, c.ciphertext, rest);
        assert(bytes == c.frame() + rest);
        let n = 38 + c.ciphertext.len() as int;
        let first = record_at(bytes, password, offset);
        assert(first.cipher == c);
        assert(keyed_by(tail, password)) by {
            assert forall|i: int| 0 <= i < tail.len() implies fits_frame(#[trigger] tail[i])
                && tail[i].cipher.key == derived_key(password, tail[i].cipher.salt) by {
                assert(tail[i] == rs[i + 1]);
            }
        }
        lemma_parse_more(bytes, password, offset);
        lemma_parse_of_frames(tail, password, next_offset(offset, n));
        let after = parse_records(rest, password, next_offset(offset, n)).unwrap();
        let out = parse_records(bytes, password, offset).unwrap();
        assert(out == seq![first] + after);
        assert forall|i: int| 0 <= i < out.len() implies (#[trigger] out[i]).cipher
            == rs[i].cipher by {
            if i > 0 {
                assert(out[i] == after[i - 1]);
                assert(tail[i - 1] == rs[i]);
            }
        }
    }
}

/// Records that hold the same sealed records open alike.
pub proof fn lemma_same_ciphers_open_alike(a: Seq<RecordView>, b: Seq<RecordView>)
    requires
        same_ciphers(a, b),
    ensures
        decrypts(a) == decrypts(b),
        secrets(a) == secrets(b),
{
    assert(secrets(a) =~= secrets(b)) by {
        assert forall|i: int| 0 <= i < a.len() implies secrets(a)[i] == secrets(b)[i] by {
            assert(a[i].cipher == b[i].cipher);
        }
    }
    if decrypts(a) {
        assert forall|i: int| 0 <= i < b.len() implies decrypted((#[trigger] b[i]).cipher)
            is Some by {
            assert(a[i].cipher == b[i].cipher);
        }
    }
    if decrypts(b) {
        assert forall|i: int| 0 <= i < a.len() implies decrypted((#[trigger] a[i]).cipher)
            is Some by {
            assert(a[i].cipher == b[i].cipher);
        }
    }
}

/// What was written is what is read: a file that holds the frames of
/// records, each with the key of the master password and each
/// opening under it, is let through the integrity gate and lists what
/// those records open to.
pub proof fn lemma_reopen(file: Vec<u8>, rs: Seq<RecordView>, master_password: Seq<char>)
    requires
        file@ == concat_frames(rs),
        keyed_by(rs, encode_utf8(master_password)),
        decrypts(rs),
    ensures
        gate(Some(file), master_password) matches Some(out) && same_ciphers(out, rs) && secrets(
            out,
        ) == secrets(rs),
{
    let password = encode_utf8(master_password);
    lemma_parse_of_frames(rs, password, 0);
    let out = parse_records(file@, password, 0).unwrap();
    lemma_same_ciphers_open_alike(out, rs);
}

/// Creating then opening: a file that holds the one record sealed for a
/// domain and a password that survive escaping opens under the same master
/// password and lists exactly that pair.
pub proof fn lemma_create_then_open(
    file: Vec<u8>,
    master_password: Seq<char>,
    domain: Seq<char>,
    password: Seq<char>,
)
    requires
        parse_records(file@, encode_utf8(master_password), 0) matches Some(rs) && rs.len() == 1
            && sealed_for(rs[0].cipher, master_password, domain, password),
        survives_escaping(domain),
        survives_escaping(password),
    ensures
        gate(Some(file), master_password) matches Some(rs) && secrets(rs) == seq![
            (domain, password),
        ],
{
    let rs = parse_records(file@, encode_utf8(master_password), 0).unwrap();
    lemma_decrypt_of_sealed(rs[0].cipher, domain, password);
    assert(secrets(rs) =~= seq![(domain, password)]);
}

/// A record sealed for a domain and a password that survive escaping, put
/// behind records that open, opens too, and the list grows by that pair.
pub proof fn lemma_added_record_opens(
    rs: Seq<RecordView>,
    added: RecordView,
    master_password: Seq<char>,
    domain: Seq<char>,
    password: Seq<char>,
)
    requires
        decrypts(rs),
        sealed_for(added.cipher, master_password, domain, password),
        survives_escaping(domain),
        survives_escaping(password),
    ensures
        decrypts(rs.push(added)),
        secrets(rs.push(added)) == secrets(rs).push((domain, password)),
{
    lemma_decrypt_of_sealed(added.cipher, domain, password);
    assert(secrets(rs.push(added)) =~= secrets(rs).push((domain, password)));
    assert forall|i: int| 0 <= i < rs.push(added).len() implies decrypted(
        (#[trigger] rs.push(added)[i]).cipher,
    ) is Some by {
        if i < rs.len() {
            assert(rs.push(added)[i] == rs[i]);
        }
    }
}

/// Removing a domain from the records and then listing them gives the list
/// without that domain.
pub proof fn lemma_secrets_of_kept(rs: Seq<RecordView>, domain: Seq<char>)
    ensures
        secrets(kept(rs, domain)) == without_domain(secrets(rs), domain),
        kept(rs, domain).len() <= rs.len(),
        forall|i: int|
            0 <= i < kept(rs, domain).len() ==> rs.contains(#[trigger] kept(rs, domain)[i])
                && secret_of(kept(rs, domain)[i]).0 != domain,
    decreases rs.len(),
{
    if rs.len() == 0 {
        assert(secrets(rs) =~= Seq::<(Seq<char>, Seq<char>)>::empty());
        assert(secrets(kept(rs, domain)) =~= without_domain(secrets(rs), domain));
    } else {
        let front = rs.drop_last();
        lemma_secrets_of_kept(front, domain);
        assert(secrets(rs).drop_last() =~= secrets(front));
        assert(secrets(rs).last() == secret_of(rs.last()));
        if secret_of(rs.last()).0 != domain {
            assert(secrets(kept(front, domain).push(rs.last())) =~= secrets(kept(front, domain)).push(
                secret_of(rs.last()),
            ));
        }
        assert(secrets(kept(rs, domain)) =~= without_domain(secrets(rs), domain));
        assert forall|i: int| 0 <= i < kept(rs, domain).len() implies rs.contains(
            #[trigger] kept(rs, domain)[i],
        ) && secret_of(kept(rs, domain)[i]).0 != domain by {
            let k = kept(rs, domain);
            if i < kept(front, domain).len() {
                assert(k[i] == kept(front, domain)[i]);
                assert(front.contains(k[i]));
                let j = choose|j: int| 0 <= j < front.len() && front[j] == k[i];
                assert(rs[j] == k[i]);
            } else {
                assert(k[i] == rs.last());
                assert(rs[rs.len() - 1] == k[i]);
            }
        }
    }
}

proof fn lemma_gate_records(file: Vec<u8>, master_password: Seq<char>)
    requires
        gate(Some(file), master_password) is Some,
    ensures
        concat_frames(gate(Some(file), master_password).unwrap()) == file@,
        keyed_by(gate(Some(file), master_password).unwrap(), encode_utf8(master_password)),
        decrypts(gate(Some(file), master_password).unwrap()),
{
    lemma_parsed_records(file@, encode_utf8(master_password), 0);
}

proof fn lemma_kept_records(rs: Seq<RecordView>, domain: Seq<char>, password: Seq<u8>)
    requires
        keyed_by(rs, password),
        decrypts(rs),
    ensures
        keyed_by(kept(rs, domain), password),
        decrypts(kept(rs, domain)),
{
    lemma_secrets_of_kept(rs, domain);
    let k = kept(rs, domain);
    assert forall|i: int| 0 <= i < k.len() implies fits_frame(#[trigger] k[i]) && k[i].cipher.key
        == derived_key(password, k[i].cipher.salt) && decrypted(k[i].cipher) is Some by {
        assert(rs.contains(k[i]));
        let j = choose|j: int| 0 <= j < rs.len() && rs[j] == k[i];
        assert(fits_frame(rs[j]));
        assert(decrypted(rs[j].cipher) is Some);
    }
}

proof fn lemma_keyed_push(rs: Seq<RecordView>, added: RecordView, password: Seq<u8>)
    requires
        keyed_by(rs, password),
        fits_frame(added),
        added.cipher.key == derived_key(password, added.cipher.salt),
    ensures
        keyed_by(rs.push(added), password),
{
    assert forall|i: int| 0 <= i < rs.push(added).len() implies fits_frame(
        #[trigger] rs.push(added)[i],
    ) && rs.push(added)[i].cipher.key == derived_key(password, rs.push(added)[i].cipher.salt) by {
        if i < rs.len() {
            assert(rs.push(added)[i] == rs[i]);
        }
    }
}

/// Adding then opening: a file that opens under the master password, with
/// the frame of a record sealed for a domain and a password that survive
/// escaping put at its end, opens again and lists what it listed before,
/// then the new pair.
pub proof fn lemma_add_then_open(
    file: Vec<u8>,
    after: Vec<u8>,
    added: RecordView,
    master_password: Seq<char>,
    domain: Seq<char>,
    password: Seq<char>,
)
    requires
        gate(Some(file), master_password) is Some,
        sealed_for(added.cipher, master_password, domain, password),
        survives_escaping(domain),
        survives_escaping(password),
        after@ == file@ + added.cipher.frame(),
    ensures
        gate(Some(after), master_password) matches Some(out) && secrets(out) == secrets(
            gate(Some(file), master_password).unwrap(),
        ).push((domain, password)),
{
    let rs = gate(Some(file), master_password).unwrap();
    lemma_gate_records(file, master_password);
    lemma_added_record_opens(rs, added, master_password, domain, password);
    lemma_keyed_push(rs, added, encode_utf8(master_password));
    lemma_concat_frames_push(rs, added);
    lemma_reopen(after, rs.push(added), master_password);
}

/// Removing then opening: where a file opens under the master password,
/// the frames of the records that stay once a domain is removed open again
/// and list what was listed before without that domain. Where no record
/// stays, the file is empty and lists nothing.
pub proof fn lemma_remove_then_open(
    file: Vec<u8>,
    after: Vec<u8>,
    master_password: Seq<char>,
    domain: Seq<char>,
)
    requires
        gate(Some(file), master_password) matches Some(rs) && after@ == concat_frames(
            kept(rs, domain),
        ),
    ensures
        gate(Some(after), master_password) matches Some(out) && secrets(out) == without_domain(
            secrets(gate(Some(file), master_password).unwrap()),
            domain,
        ),
{
    let rs = gate(Some(file), master_password).unwrap();
    lemma_gate_records(file, master_password);
    lemma_kept_records(rs, domain, encode_utf8(master_password));
    lemma_secrets_of_kept(rs, domain);
    lemma_reopen(after, kept(rs, domain), master_password);
}

/// Changing then opening: where a file opens under the master password,
/// the frames of the records that stay once a domain is removed, followed
/// by the frame of a record sealed for that domain and a new password, open
/// again and list the other pairs, then the new one.
pub proof fn lemma_modify_then_open(
    file: Vec<u8>,
    after: Vec<u8>,
    added: RecordView,
    master_password: Seq<char>,
    domain: Seq<char>,
    password: Seq<char>,
)
    requires
        gate(Some(file), master_password) matches Some(rs) && after@ == concat_frames(
            kept(rs, domain).push(added),
        ),
        sealed_for(added.cipher, master_password, domain, password),
        survives_escaping(domain),
        survives_escaping(password),
    ensures
        gate(Some(after), master_password) matches Some(out) && secrets(out) == without_domain(
            secrets(gate(Some(file), master_password).unwrap()),
            domain,
        ).push((domain, password)),
{
    let rs = gate(Some(file), master_password).unwrap();
    let stay = kept(rs, domain);
    lemma_gate_records(file, master_password);
    lemma_kept_records(rs, domain, encode_utf8(master_password));
    lemma_secrets_of_kept(rs, domain);
    lemma_added_record_opens(stay, added, master_password, domain, password);
    lemma_keyed_push(stay, added, encode_utf8(master_password));
    lemma_reopen(after, stay.push(added), master_password);
}

/// Deriving twice: two keys that belong to the same password and were
/// derived under the same salt are the same 16 bytes.
pub proof fn lemma_derive_key_deterministic(a: DerivedKey, b: DerivedKey, password: Seq<char>)
    requires
        a.belongs_to(password),
        b.belongs_to(password),
        a.salt@ == b.salt@,
    ensures
        a.key@ == b.key@,
        a.key == b.key,
{
    assert(a.key@ =~= b.key@);
}

/// Whether no two pairs are for the same domain.
pub open spec fn unique_domains(pairs: Seq<(Seq<char>, Seq<char>)>) -> bool {
    forall|i: int, j: int|
        0 <= i < j < pairs.len() ==> (#[trigger] pairs[i]).0 != (#[trigger] pairs[j]).0
}

/// What is left of a list once a domain is removed holds no pair for that
/// domain, holds only pairs of the list, and keeps their order.
pub proof fn lemma_without_domain(pairs: Seq<(Seq<char>, Seq<char>)>, domain: Seq<char>)
    ensures
        !has_domain(without_domain(pairs, domain), domain),
        without_domain(pairs, domain).len() <= pairs.len(),
        !has_domain(pairs, domain) ==> without_domain(pairs, domain) == pairs,
        unique_domains(pairs) ==> unique_domains(without_domain(pairs, domain)),
        forall|i: int|
            0 <= i < without_domain(pairs, domain).len() ==> pairs.contains(
                #[trigger] without_domain(pairs, domain)[i],
            ),
    decreases pairs.len(),
{
    let left = without_domain(pairs, domain);
    if pairs.len() > 0 {
        let front = pairs.drop_last();
        let before = without_domain(front, domain);
        lemma_without_domain(front, domain);
        assert forall|i: int| 0 <= i < left.len() implies pairs.contains(#[trigger] left[i]) by {
            if i < before.len() {
                assert(left[i] == before[i]);
                let j = choose|j: int| 0 <= j < front.len() && front[j] == before[i];
                assert(pairs[j] == left[i]);
            } else {
                assert(pairs[pairs.len() - 1] == left[i]);
            }
        }
        if !has_domain(pairs, domain) {
            assert(!has_domain(front, domain)) by {
                if has_domain(front, domain) {
                    let j = choose|j: int| 0 <= j < front.len() && (#[trigger] front[j]).0 == domain;
                    assert(pairs[j].0 == domain);
                }
            }
            assert(pairs.last().0 != domain) by {
                assert(pairs[pairs.len() - 1].0 == pairs.last().0);
            }
            assert(left =~= pairs);
        }
        if unique_domains(pairs) {
            assert(unique_domains(front)) by {
                assert forall|i: int, j: int| 0 <= i < j < front.len() implies (#[trigger] front[i]).0
                    != (#[trigger] front[j]).0 by {
                    assert(pairs[i].0 != pairs[j].0);
                }
            }
            assert forall|i: int, j: int| 0 <= i < j < left.len() implies (#[trigger] left[i]).0
                != (#[trigger] left[j]).0 by {
                if j < before.len() {
                    assert(left[i] == before[i] && left[j] == before[j]);
                } else {
                    assert(left[j] == pairs.last());
                    assert(left[i] == before[i]);
                    let k = choose|k: int| 0 <= k < front.len() && front[k] == before[i];
                    assert(pairs[k].0 != pairs[pairs.len() - 1].0);
                }
            }
        }
        assert(!has_domain(left, domain)) by {
            if has_domain(left, domain) {
                let i = choose|i: int| 0 <= i < left.len() && (#[trigger] left[i]).0 == domain;
                if i < before.len() {
                    assert(before[i].0 == domain);
                }
            }
        }
    }
}

/// A list without two pairs for one domain stays so when a pair is added
/// for a domain that it does not hold: what `add_record` lists after a
/// success, and, together with the lemma before, what `modify_record` does.
pub proof fn lemma_push_keeps_domains_unique(
    pairs: Seq<(Seq<char>, Seq<char>)>,
    domain: Seq<char>,
    password: Seq<char>,
)
    requires
        unique_domains(pairs),
        !has_domain(pairs, domain),
    ensures
        unique_domains(pairs.push((domain, password))),
{
    let grown = pairs.push((domain, password));
    assert forall|i: int, j: int| 0 <= i < j < grown.len() implies (#[trigger] grown[i]).0 != (
    #[trigger] grown[j]).0 by {
        if j < pairs.len() {
            assert(grown[i] == pairs[i] && grown[j] == pairs[j]);
        } else {
            assert(grown[i] == pairs[i]);
        }
    }
}

} // verus!
