//! Which stored updates are opened: all that can be read, and none that would break the decoder.
use crate::update_bytes::{
    body_walk, compact_size, factor_accepted, header_known, list_walk, lists_walk, sound_encoding,
    transaction_len, transactions_walk, unblinded_walk, Walk,
};
use crate::wallet_cache::{
    decoded_update, decrypted_bytes, entries_opened, first_failure, index_refusal, opened_update,
    sealable, update_encoding, updates_after, IndexError, LoadError,
};
use vstd::bytes::{spec_u16_to_le_bytes, spec_u32_to_le_bytes, spec_u64_to_le_bytes};
use vstd::prelude::*;

verus! {

/// A number is read as it was written, wherever it stands: small ones in a byte of their own, others
/// behind a byte that tells their size, with the least byte first.
pub proof fn law_number_is_read_as_written(front: Seq<u8>, number: u64, rest: Seq<u8>)
    ensures
        ({
            let form = if number < 0xfd {
                seq![number as u8]
            } else if number <= 0xffff {
                seq![0xfdu8] + spec_u16_to_le_bytes(number as u16)
            } else if number <= 0xffff_ffff {
                seq![0xfeu8] + spec_u32_to_le_bytes(number as u32)
            } else {
                seq![0xffu8] + spec_u64_to_le_bytes(number)
            };
            compact_size(front + form + rest, front.len() as int) == Some(
                (number, (front.len() + form.len()) as int),
            )
        }),
{
    vstd::bytes::lemma_auto_spec_u16_to_from_le_bytes();
    vstd::bytes::lemma_auto_spec_u32_to_from_le_bytes();
    vstd::bytes::lemma_auto_spec_u64_to_from_le_bytes();
    let at = front.len() as int;
    if number < 0xfd {
        let all = front + seq![number as u8] + rest;
        assert(all[at] == number as u8);
    } else if number <= 0xffff {
        let tail = spec_u16_to_le_bytes(number as u16);
        let all = front + (seq![0xfdu8] + tail) + rest;
        assert(tail.len() == 2);
        assert(all[at] == 0xfd);
        assert(all.subrange(at + 1, at + 3) =~= tail);
    } else if number <= 0xffff_ffff {
        let tail = spec_u32_to_le_bytes(number as u32);
        let all = front + (seq![0xfeu8] + tail) + rest;
        assert(tail.len() == 4);
        assert(all[at] == 0xfe);
        assert(all.subrange(at + 1, at + 5) =~= tail);
    } else {
        let tail = spec_u64_to_le_bytes(number);
        let all = front + (seq![0xffu8] + tail) + rest;
        assert(tail.len() == 8);
        assert(all[at] == 0xff);
        assert(all.subrange(at + 1, at + 9) =~= tail);
    }
}

proof fn lemma_transactions_read(bytes: Seq<u8>, starts: Seq<int>)
    requires
        starts.len() > 0,
        forall|i: int|
            0 <= i < starts.len() - 1 ==> (#[trigger] transaction_len(
                bytes.subrange(starts[i], bytes.len() as int),
            ) matches Some(n) && starts[i] + n == starts[i + 1]),
    ensures
        transactions_walk(bytes, starts[0], (starts.len() - 1) as nat) == Walk::At(starts.last()),
    decreases starts.len(),
{
    if starts.len() > 1 {
        let rest = starts.drop_first();
        assert(transaction_len(bytes.subrange(starts[0], bytes.len() as int)) is Some);
        assert forall|i: int| 0 <= i < rest.len() - 1 implies (#[trigger] transaction_len(
            bytes.subrange(rest[i], bytes.len() as int),
        ) matches Some(n) && rest[i] + n == rest[i + 1]) by {
            assert(rest[i] == starts[i + 1]);
            assert(transaction_len(bytes.subrange(starts[i + 1], bytes.len() as int)) is Some);
        }
        lemma_transactions_read(bytes, rest);
        assert(rest[0] == starts[1]);
    }
}

proof fn lemma_unblinded_read(bytes: Seq<u8>, at: int, places: Seq<int>, more: nat)
    requires
        forall|i: int|
            0 <= i < places.len() ==> {
                &&& #[trigger] places[i] == at + 140 * i
                &&& places[i] + 140 <= bytes.len()
                &&& factor_accepted(bytes.subrange(places[i] + 68, places[i] + 100))
                &&& factor_accepted(bytes.subrange(places[i] + 108, places[i] + 140))
            },
    ensures
        unblinded_walk(bytes, at, places.len() + more) == unblinded_walk(
            bytes,
            at + 140 * places.len(),
            more,
        ),
    decreases places.len(),
{
    if places.len() > 0 {
        let rest = places.drop_first();
        assert(places[0] == at);
        assert forall|i: int| 0 <= i < rest.len() implies {
            &&& #[trigger] rest[i] == (at + 140) + 140 * i
            &&& rest[i] + 140 <= bytes.len()
            &&& factor_accepted(bytes.subrange(rest[i] + 68, rest[i] + 100))
            &&& factor_accepted(bytes.subrange(rest[i] + 108, rest[i] + 140))
        } by {
            assert(rest[i] == places[i + 1]);
        }
        lemma_unblinded_read(bytes, at + 140, rest, more);
        assert((places.len() + more - 1) as nat == rest.len() + more);
    }
}

proof fn lemma_walk_decides(bytes: Seq<u8>)
    requires
        header_known(bytes),
        bytes[4] >= 1 ==> bytes.len() >= 13,
    ensures
        sound_encoding(bytes) <==> !(body_walk(
            bytes,
            if bytes[4] == 0 {
                5
            } else {
                13
            },
            bytes[4],
        ) is Unsound),
{
}

/// Every stored update that can be read is opened: where an entry is decrypted to an encoding of a
/// known version in which each announced transaction is read, one behind the other from the given
/// positions, each unblinded output is there, at its place, with blinding factors that are accepted, and
/// each of the four lists has the bytes for the items that it announces, the decoder is asked, and the
/// update that it reads is the one that is opened.
pub proof fn law_readable_update_is_opened(
    sealed: Seq<u8>,
    desc: lwk_wollet::WolletDescriptor,
    bytes: Seq<u8>,
    starts: Seq<int>,
    outputs: (u64, int),
    places: Seq<int>,
    heights: (u64, int),
    forgotten: (u64, int),
    times: (u64, int),
    scripts: (u64, int),
)
    requires
        decrypted_bytes(
            sealed.subrange(0, 12),
            sealed.subrange(12, sealed.len() as int),
            desc,
        ) == Some(bytes),
        bytes.len() >= 5,
        bytes.subrange(0, 4) == seq![0x89u8, 0x61, 0xb8, 0xc8],
        bytes[4] <= 2,
        bytes[4] >= 1 ==> bytes.len() >= 13,
        starts.len() > 0,
        compact_size(
            bytes,
            if bytes[4] == 0 {
                5
            } else {
                13
            },
        ) matches Some((count, first)) && count == starts.len() - 1 && first == starts[0],
        forall|i: int|
            0 <= i < starts.len() - 1 ==> (#[trigger] transaction_len(
                bytes.subrange(starts[i], bytes.len() as int),
            ) matches Some(n) && starts[i] + n == starts[i + 1]),
        compact_size(bytes, starts.last()) == Some(outputs),
        places.len() == outputs.0,
        forall|i: int|
            0 <= i < places.len() ==> {
                &&& #[trigger] places[i] == outputs.1 + 140 * i
                &&& places[i] + 140 <= bytes.len()
                &&& factor_accepted(bytes.subrange(places[i] + 68, places[i] + 100))
                &&& factor_accepted(bytes.subrange(places[i] + 108, places[i] + 140))
            },
        compact_size(bytes, outputs.1 + 140 * outputs.0) == Some(heights),
        heights.1 + heights.0 * 36 <= bytes.len(),
        compact_size(bytes, heights.1 + heights.0 * 36) == Some(forgotten),
        forgotten.1 + forgotten.0 * 32 <= bytes.len(),
        compact_size(bytes, forgotten.1 + forgotten.0 * 32) == Some(times),
        times.1 + times.0 * 8 <= bytes.len(),
        compact_size(bytes, times.1 + times.0 * 8) == Some(scripts),
        bytes[4] == 2 ==> scripts.1 + scripts.0 * 39 <= bytes.len(),
        bytes[4] != 2 ==> scripts.1 + scripts.0 * 6 <= bytes.len(),
    ensures
        sound_encoding(bytes),
        opened_update(sealed, desc) == decoded_update(bytes),
{
    lemma_header(bytes);
    lemma_transactions_read(bytes, starts);
    lemma_unblinded_read(bytes, outputs.1, places, 0);
    lemma_walk_decides(bytes);
}

proof fn lemma_header(bytes: Seq<u8>)
    requires
        bytes.len() >= 5,
        bytes.subrange(0, 4) == seq![0x89u8, 0x61, 0xb8, 0xc8],
        bytes[4] <= 2,
    ensures
        header_known(bytes),
{
    let head = bytes.subrange(0, 4);
    assert(head[0] == bytes[0] && head[1] == bytes[1] && head[2] == bytes[2] && head[3]
        == bytes[3]);
}

/// An encoding that begins otherwise than an update of a known version is left to the decoder.
pub proof fn law_foreign_bytes_are_left_to_the_decoder(
    sealed: Seq<u8>,
    desc: lwk_wollet::WolletDescriptor,
    bytes: Seq<u8>,
)
    requires
        decrypted_bytes(
            sealed.subrange(0, 12),
            sealed.subrange(12, sealed.len() as int),
            desc,
        ) == Some(bytes),
        bytes.len() < 5 || bytes.subrange(0, 4) != seq![0x89u8, 0x61, 0xb8, 0xc8] || bytes[4] > 2,
    ensures
        opened_update(sealed, desc) == decoded_update(bytes),
{
    if header_known(bytes) {
        assert(bytes.subrange(0, 4) =~= seq![0x89u8, 0x61, 0xb8, 0xc8]);
    }
}

/// An entry that is not decrypted holds no update.
pub proof fn law_undecrypted_entry_is_not_opened(
    sealed: Seq<u8>,
    desc: lwk_wollet::WolletDescriptor,
)
    requires
        decrypted_bytes(
            sealed.subrange(0, 12),
            sealed.subrange(12, sealed.len() as int),
            desc,
        ) is None,
    ensures
        opened_update(sealed, desc) is None,
{
}

/// The decoder is never asked for an encoding with a list that announces more items than there are
/// bytes for: `lists` gives the numbers of items and the positions of the lists up to the first such
/// one, of which all before it have their bytes.
pub proof fn law_overlong_list_is_not_opened(
    sealed: Seq<u8>,
    desc: lwk_wollet::WolletDescriptor,
    bytes: Seq<u8>,
    starts: Seq<int>,
    outputs: (u64, int),
    places: Seq<int>,
    lists: Seq<(u64, int)>,
    widths: Seq<int>,
)
    requires
        decrypted_bytes(
            sealed.subrange(0, 12),
            sealed.subrange(12, sealed.len() as int),
            desc,
        ) == Some(bytes),
        bytes.len() >= 5,
        bytes.subrange(0, 4) == seq![0x89u8, 0x61, 0xb8, 0xc8],
        bytes[4] <= 2,
        bytes[4] >= 1 ==> bytes.len() >= 13,
        starts.len() > 0,
        compact_size(
            bytes,
            if bytes[4] == 0 {
                5
            } else {
                13
            },
        ) matches Some((count, first)) && count == starts.len() - 1 && first == starts[0],
        forall|i: int|
            0 <= i < starts.len() - 1 ==> (#[trigger] transaction_len(
                bytes.subrange(starts[i], bytes.len() as int),
            ) matches Some(n) && starts[i] + n == starts[i + 1]),
        compact_size(bytes, starts.last()) == Some(outputs),
        places.len() == outputs.0,
        forall|i: int|
            0 <= i < places.len() ==> {
                &&& #[trigger] places[i] == outputs.1 + 140 * i
                &&& places[i] + 140 <= bytes.len()
                &&& factor_accepted(bytes.subrange(places[i] + 68, places[i] + 100))
                &&& factor_accepted(bytes.subrange(places[i] + 108, places[i] + 140))
            },
        widths == seq![
            36int,
            32,
            8,
            if bytes[4] == 2 {
                39
            } else {
                6
            },
        ],
        1 <= lists.len() <= 4,
        compact_size(bytes, outputs.1 + 140 * outputs.0) == Some(lists[0]),
        forall|j: int|
            0 <= j < lists.len() - 1 ==> {
                &&& (#[trigger] lists[j]).1 + lists[j].0 * widths[j] <= bytes.len()
                &&& compact_size(bytes, lists[j].1 + lists[j].0 * widths[j]) == Some(lists[j + 1])
            },
        lists.last().1 + lists.last().0 * widths[lists.len() - 1] > bytes.len(),
    ensures
        opened_update(sealed, desc) is None,
{
    lemma_header(bytes);
    lemma_transactions_read(bytes, starts);
    lemma_unblinded_read(bytes, outputs.1, places, 0);
    lemma_walk_decides(bytes);
    let at = outputs.1 + 140 * outputs.0;
    assert(widths[0] == 36 && widths[1] == 32 && widths[2] == 8);
    assert(widths[3] == if bytes[4] == 2 {
        39int
    } else {
        6
    });
    assert(lists[lists.len() - 1] == lists.last());
    if lists.len() > 1 {
        let first = lists[0];
        assert(first.1 + first.0 * widths[0] <= bytes.len());
        assert(list_walk(bytes, at, 36) == Walk::At(first.1 + first.0 * 36));
    }
    if lists.len() > 2 {
        let second = lists[1];
        assert(second.1 + second.0 * widths[1] <= bytes.len());
    }
    if lists.len() > 3 {
        let third = lists[2];
        assert(third.1 + third.0 * widths[2] <= bytes.len());
    }
    assert(lists_walk(bytes, at, bytes[4]) is Unsound);
}

/// The decoder is never asked for an encoding in which a blinding factor of an unblinded output is
/// not accepted, where the outputs before it, at the given places, are read.
pub proof fn law_bad_factor_is_not_opened(
    sealed: Seq<u8>,
    desc: lwk_wollet::WolletDescriptor,
    bytes: Seq<u8>,
    starts: Seq<int>,
    outputs: (u64, int),
    places: Seq<int>,
)
    requires
        decrypted_bytes(
            sealed.subrange(0, 12),
            sealed.subrange(12, sealed.len() as int),
            desc,
        ) == Some(bytes),
        bytes.len() >= 5,
        bytes.subrange(0, 4) == seq![0x89u8, 0x61, 0xb8, 0xc8],
        bytes[4] <= 2,
        bytes[4] >= 1 ==> bytes.len() >= 13,
        starts.len() > 0,
        compact_size(
            bytes,
            if bytes[4] == 0 {
                5
            } else {
                13
            },
        ) matches Some((count, first)) && count == starts.len() - 1 && first == starts[0],
        forall|i: int|
            0 <= i < starts.len() - 1 ==> (#[trigger] transaction_len(
                bytes.subrange(starts[i], bytes.len() as int),
            ) matches Some(n) && starts[i] + n == starts[i + 1]),
        compact_size(bytes, starts.last()) == Some(outputs),
        places.len() < outputs.0,
        forall|i: int|
            0 <= i < places.len() ==> {
                &&& #[trigger] places[i] == outputs.1 + 140 * i
                &&& places[i] + 140 <= bytes.len()
                &&& factor_accepted(bytes.subrange(places[i] + 68, places[i] + 100))
                &&& factor_accepted(bytes.subrange(places[i] + 108, places[i] + 140))
            },
        ({
            let at = outputs.1 + 140 * places.len();
            ||| at + 100 <= bytes.len() && !factor_accepted(bytes.subrange(at + 68, at + 100))
            ||| at + 140 <= bytes.len() && !factor_accepted(bytes.subrange(at + 108, at + 140))
        }),
    ensures
        opened_update(sealed, desc) is None,
{
    lemma_header(bytes);
    lemma_transactions_read(bytes, starts);
    lemma_unblinded_read(bytes, outputs.1, places, (outputs.0 - places.len()) as nat);
    lemma_walk_decides(bytes);
    assert(unblinded_walk(bytes, outputs.1 + 140 * places.len(), (outputs.0 - places.len()) as nat) is Unsound);
}

/// Every update is stored that can be written in not more than two to the power of thirty-six bytes.
pub proof fn law_written_update_is_stored(update: lwk_wollet::Update)
    ensures
        sealable(update) <==> (update_encoding(update) matches Some(bytes) && bytes.len()
            <= 0x10_0000_0000),
{
}

/// What is loaded are the updates in the entries, each at the position of its entry; and where every
/// entry could be read and holds an update, nothing fails.
pub proof fn law_entries_are_loaded_in_order(
    entries: Seq<Result<Vec<u8>, String>>,
    desc: lwk_wollet::WolletDescriptor,
    updates: Seq<lwk_wollet::Update>,
    at: int,
    error: LoadError,
)
    ensures
        entries_opened(entries, desc, updates) ==> forall|i: int|
            0 <= i < updates.len() ==> ((#[trigger] entries[i]) matches Ok(sealed)
                && opened_update(sealed@, desc) == Some(updates[i])),
        (forall|i: int|
            0 <= i < entries.len() ==> ((#[trigger] entries[i]) matches Ok(sealed)
                && opened_update(sealed@, desc) is Some)) ==> !first_failure(
            entries,
            desc,
            at,
            error,
        ),
        first_failure(entries, desc, at, error) ==> 0 <= at < entries.len() && match entries[at] {
            Ok(sealed) => opened_update(sealed@, desc) is None && error is Deserialize,
            Err(said) => error matches LoadError::Entry(text) && text@ == said@,
        },
{
}

/// An index that is refused is told as it is: with the greatest index so far where it lies more than
/// one behind that, or as one that is not the first where there is none yet.
pub proof fn law_refused_index_is_told(index: u32, max: u32)
    ensures
        index > max + 1 ==> index_refusal(index, Some(max)) == Some(
            IndexError::Gap { index, max_index: max },
        ),
        index <= max + 1 ==> index_refusal(index, Some(max)) is None,
        index > 0 ==> index_refusal(index, None) == Some(IndexError::NotFirst { index }),
        index == 0 ==> index_refusal(index, None) is None,
{
}

/// An update that is put behind the end of the cache becomes its last, and no other is touched.
pub proof fn law_update_behind_the_end_is_added<U>(updates: Seq<U>, update: U, write_index: usize)
    requires
        write_index >= updates.len(),
    ensures
        updates_after(updates, update, write_index).len() == updates.len() + 1,
        updates_after(updates, update, write_index).last() == update,
        updates_after(updates, update, write_index).drop_last() == updates,
{
    assert(updates_after(updates, update, write_index).drop_last() =~= updates);
}

} // verus!
