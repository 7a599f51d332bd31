//! Laws that tie the probe and the decoder together.
use vstd::prelude::*;
use crate::probe::{declared_name, probe_result, NotStruct, SerializeOp};
use crate::request::{apply_entries, decode_entries, encoded_entries, DecodeError, Request, RequestFields, WireEntry};

verus! {

/// Whether every entry of `entries` is a field under an unknown key.
pub open spec fn all_ignored<T>(entries: Seq<WireEntry<T>>) -> bool {
    forall|i: int| 0 <= i < entries.len() ==> (#[trigger] entries[i]) is Ignored
}

/// Reading two runs of entries one after the other is reading their concatenation.
proof fn lemma_apply_concat<T>(start: RequestFields<T>, s1: Seq<WireEntry<T>>, s2: Seq<WireEntry<T>>)
    ensures
        apply_entries(start, s1 + s2) == apply_entries(apply_entries(start, s1), s2),
    decreases s2.len(),
{
    if s2.len() == 0 {
        assert(s1 + s2 =~= s1);
    } else {
        lemma_apply_concat(start, s1, s2.drop_last());
        assert((s1 + s2).drop_last() =~= s1 + s2.drop_last());
        assert((s1 + s2).last() == s2.last());
    }
}

/// Entries under unknown keys leave the decoder's state unchanged.
proof fn lemma_apply_ignored<T>(start: RequestFields<T>, entries: Seq<WireEntry<T>>)
    requires
        all_ignored(entries),
    ensures
        apply_entries(start, entries) == start,
    decreases entries.len(),
{
    if entries.len() > 0 {
        assert(entries.drop_last().len() == entries.len() - 1);
        assert forall|i: int| 0 <= i < entries.drop_last().len() implies
            (#[trigger] entries.drop_last()[i]) is Ignored by {
            assert(entries.drop_last()[i] == entries[i]);
        }
        lemma_apply_ignored(start, entries.drop_last());
        assert(entries[entries.len() - 1] is Ignored);
    }
}

/// The two entries written for a payload decode back to that payload.
proof fn lemma_two_entries<T>(payload: T, name: Result<&'static str, NotStruct>, tag: String)
    ensures
        decode_entries(encoded_entries(tag, payload, name))
            == (RequestFields { given_type: Some(tag), data: Some((payload, name)) }).outcome(),
{
    let empty = RequestFields::<T>::empty();
    let s = encoded_entries(tag, payload, name);
    assert(s.drop_last() =~= seq![WireEntry::<T>::Type(tag)]);
    assert(s.drop_last().drop_last() =~= Seq::<WireEntry<T>>::empty());
    assert(apply_entries(empty, s.drop_last().drop_last()) == empty);
    assert(apply_entries(empty, s.drop_last()) == empty.step(WireEntry::Type(tag)));
    assert(apply_entries(empty, s) == empty.step(WireEntry::Type(tag)).step(s.last()));
}

/// Round trip: a record whose tag is the structural name of its payload,
/// as encoding writes it, decodes to an envelope around that payload.
pub proof fn lemma_round_trip<T>(payload: T, op: SerializeOp, tag: String)
    requires
        declared_name(op) is Some,
        tag@ == declared_name(op).unwrap()@,
    ensures
        decode_entries(encoded_entries(tag, payload, probe_result(op))) == Ok::<Request<T>, DecodeError>(Request(payload)),
{
    lemma_two_entries(payload, probe_result(op), tag);
}

/// Name stability: the structural name depends on the declared name alone,
/// never on the field values, lengths or variant of the value probed.
pub proof fn lemma_name_stability(op1: SerializeOp, op2: SerializeOp)
    requires
        declared_name(op1) == declared_name(op2),
    ensures
        probe_result(op1) == probe_result(op2),
{
}

/// Non-records are rejected: a value that encodes as no named shape has no
/// structural name, and a record carrying such a payload never decodes,
/// whatever its tag.
pub proof fn lemma_non_records_rejected<T>(op: SerializeOp, payload: T, tag: String)
    requires
        declared_name(op) is None,
    ensures
        probe_result(op) == Err::<&'static str, NotStruct>(NotStruct),
        decode_entries(encoded_entries(tag, payload, probe_result(op))) == Err::<Request<T>, DecodeError>(DecodeError::NotStruct),
{
    lemma_two_entries(payload, probe_result(op), tag);
}

/// Tamper detection: a tag other than the payload's structural name is
/// refused, citing both names.
pub proof fn lemma_tampered_tag_rejected<T>(payload: T, op: SerializeOp, tag: String)
    requires
        declared_name(op) is Some,
        tag@ != declared_name(op).unwrap()@,
    ensures
        decode_entries(encoded_entries(tag, payload, probe_result(op))) == Err::<Request<T>, DecodeError>(
            DecodeError::WrongType { expected: declared_name(op).unwrap(), got: tag },
        ),
{
    lemma_two_entries(payload, probe_result(op), tag);
}

/// Unknown fields are tolerated: a field under any other key, anywhere in the
/// record, changes nothing in the result.
pub proof fn lemma_unknown_field_ignored<T>(entries: Seq<WireEntry<T>>, i: int)
    requires
        0 <= i <= entries.len(),
    ensures
        decode_entries(entries.insert(i, WireEntry::Ignored)) == decode_entries(entries),
{
    let empty = RequestFields::<T>::empty();
    let pre = entries.subrange(0, i);
    let post = entries.subrange(i, entries.len() as int);
    let one = seq![WireEntry::<T>::Ignored];
    assert(entries.insert(i, WireEntry::Ignored) =~= pre + one + post);
    assert(entries =~= pre + post);
    lemma_apply_concat(empty, pre + one, post);
    lemma_apply_concat(empty, pre, one);
    lemma_apply_ignored(apply_entries(empty, pre), one);
    lemma_apply_concat(empty, pre, post);
}

/// Field order does not matter: the tag before the payload or after it, with
/// unknown fields around them, decodes the same.
pub proof fn lemma_field_order_irrelevant<T>(
    pre: Seq<WireEntry<T>>,
    mid: Seq<WireEntry<T>>,
    post: Seq<WireEntry<T>>,
    tag: String,
    payload: T,
    name: Result<&'static str, NotStruct>,
)
    requires
        all_ignored(pre),
        all_ignored(mid),
        all_ignored(post),
    ensures
        decode_entries(
            pre + seq![WireEntry::Type(tag)] + mid + seq![(WireEntry::Data { value: payload, name })] + post,
        ) == decode_entries(
            pre + seq![(WireEntry::Data { value: payload, name })] + mid + seq![WireEntry::Type(tag)] + post,
        ),
{
    let empty = RequestFields::<T>::empty();
    let t = seq![WireEntry::Type(tag)];
    let d = seq![(WireEntry::Data { value: payload, name })];
    lemma_apply_ignored(empty, pre);
    let at_t = apply_entries(empty, t);
    let at_d = apply_entries(empty, d);
    assert(t.drop_last() =~= Seq::<WireEntry<T>>::empty());
    assert(d.drop_last() =~= Seq::<WireEntry<T>>::empty());
    assert(apply_entries(at_t, d.drop_last()) == at_t);
    assert(apply_entries(at_d, t.drop_last()) == at_d);
    assert(apply_entries(at_t, d) == at_t.step(d.last()));
    assert(apply_entries(at_d, t) == at_d.step(t.last()));
    assert(apply_entries(empty, t.drop_last()) == empty);
    assert(apply_entries(empty, d.drop_last()) == empty);
    assert(at_t == empty.step(t.last()));
    assert(at_d == empty.step(d.last()));
    lemma_apply_concat(empty, pre, t);
    lemma_apply_concat(empty, pre + t, mid);
    lemma_apply_ignored(at_t, mid);
    lemma_apply_concat(empty, pre + t + mid, d);
    lemma_apply_concat(empty, pre + t + mid + d, post);
    lemma_apply_ignored(apply_entries(at_t, d), post);
    lemma_apply_concat(empty, pre, d);
    lemma_apply_concat(empty, pre + d, mid);
    lemma_apply_ignored(at_d, mid);
    lemma_apply_concat(empty, pre + d + mid, t);
    lemma_apply_concat(empty, pre + d + mid + t, post);
    lemma_apply_ignored(apply_entries(at_d, t), post);
    assert(apply_entries(at_t, d) == apply_entries(at_d, t));
}

} // verus!
