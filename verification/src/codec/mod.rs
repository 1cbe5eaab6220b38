//! The byte format in which directories, files and data maps are persisted.
//!
//! A value is written field by field, each field in the form that [`primitives`] gives it,
//! and a list as its length and then its items. [`serialise`] writes one value into a byte
//! string of its own and [`deserialise`] reads it back, refusing bytes that hold anything
//! more or anything else.

use vstd::prelude::*;

use crate::codec::primitives::lemma_tail;
use crate::codec::primitives::lemma_u64_round_trip;
use crate::codec::primitives::parse_u64;
use crate::codec::primitives::read_u64;
use crate::codec::primitives::tail;
use crate::codec::primitives::wire_u64;
use crate::codec::primitives::write_u64;
use crate::errors::NfsError;
use crate::views::lemma_views_push;
use crate::views::views;

pub mod primitives;
pub mod records;

verus! {

/// A type whose values have a byte form.
pub trait Wire: View + Sized {
    /// Every length in the value is one that the format can write down.
    spec fn fits(value: Self::V) -> bool;

    /// The byte form of a value.
    spec fn wire(value: Self::V) -> Seq<u8>;

    /// Reads one value off the front of a byte string and gives it together with the bytes
    /// behind it, or `None` where the front holds no value.
    spec fn parse(bytes: Seq<u8>) -> Option<(Self::V, Seq<u8>)>;

    /// A value that was written is read back, and what stood behind it is left over.
    proof fn lemma_round_trip(value: Self::V, rest: Seq<u8>)
        requires
            Self::fits(value),
        ensures
            Self::parse(Self::wire(value) + rest) == Some((value, rest)),
    ;

    /// Writes the value behind what `out` holds.
    fn write(&self, out: &mut Vec<u8>)
        ensures
            final(out)@ == old(out)@ + Self::wire(self@),
            Self::fits(self@),
    ;

    /// Reads the value that stands at place `at`, and gives the place behind it.
    fn read(data: &Vec<u8>, at: usize) -> (read: Option<(Self, usize)>)
        requires
            at <= data.len(),
        ensures
            match read {
                Some((value, next)) => at <= next <= data.len() && Self::parse(
                    tail(data@, at as int),
                ) == Some((value@, tail(data@, next as int))),
                None => Self::parse(tail(data@, at as int)) is None,
            },
    ;
}

/// The byte forms of the items, one behind the other.
pub open spec fn wire_items<T: Wire>(items: Seq<T::V>) -> Seq<u8>
    decreases items.len(),
{
    if items.len() == 0 {
        Seq::empty()
    } else {
        wire_items::<T>(items.drop_last()) + T::wire(items.last())
    }
}

/// Reads `count` items off the front, one after the other.
pub open spec fn parse_items<T: Wire>(bytes: Seq<u8>, count: nat) -> Option<(Seq<T::V>, Seq<u8>)>
    decreases count,
{
    if count == 0 {
        Some((Seq::empty(), bytes))
    } else {
        match T::parse(bytes) {
            Some((first, rest)) => match parse_items::<T>(rest, (count - 1) as nat) {
                Some((others, rest)) => Some((seq![first] + others, rest)),
                None => None,
            },
            None => None,
        }
    }
}

/// A list is written as its length and then its items.
pub open spec fn wire_list<T: Wire>(items: Seq<T::V>) -> Seq<u8> {
    wire_u64(items.len() as u64) + wire_items::<T>(items)
}

/// Reads a list off the front.
pub open spec fn parse_list<T: Wire>(bytes: Seq<u8>) -> Option<(Seq<T::V>, Seq<u8>)> {
    match parse_u64(bytes) {
        Some((count, rest)) => parse_items::<T>(rest, count as nat),
        None => None,
    }
}

/// The list is no longer than the format can say, and each of its items fits.
pub open spec fn list_fits<T: Wire>(items: Seq<T::V>) -> bool {
    &&& items.len() <= u64::MAX
    &&& forall|i: int| 0 <= i < items.len() ==> T::fits(#[trigger] items[i])
}

/// The byte form of a list of items starts with the byte form of its first item.
proof fn lemma_wire_items_front<T: Wire>(items: Seq<T::V>)
    requires
        items.len() > 0,
    ensures
        wire_items::<T>(items) == T::wire(items[0]) + wire_items::<T>(items.drop_first()),
    decreases items.len(),
{
    if items.len() == 1 {
        assert(items.drop_last() =~= Seq::<T::V>::empty());
        assert(items.drop_first() =~= Seq::<T::V>::empty());
        assert(wire_items::<T>(items) =~= T::wire(items[0]) + wire_items::<T>(
            items.drop_first(),
        ));
    } else {
        lemma_wire_items_front::<T>(items.drop_last());
        assert(items.drop_last().drop_first() =~= items.drop_first().drop_last());
        assert(items.drop_first().last() == items.last());
        assert(items.drop_last()[0] == items[0]);
        assert(wire_items::<T>(items) =~= T::wire(items[0]) + wire_items::<T>(
            items.drop_first(),
        ));
    }
}

/// Items that were written are read back.
pub proof fn lemma_items_round_trip<T: Wire>(items: Seq<T::V>, rest: Seq<u8>)
    requires
        forall|i: int| 0 <= i < items.len() ==> T::fits(#[trigger] items[i]),
    ensures
        parse_items::<T>(wire_items::<T>(items) + rest, items.len()) == Some((items, rest)),
    decreases items.len(),
{
    if items.len() == 0 {
        assert(wire_items::<T>(items) + rest =~= rest);
        assert(items =~= Seq::<T::V>::empty());
    } else {
        let others = items.drop_first();
        lemma_wire_items_front::<T>(items);
        T::lemma_round_trip(items[0], wire_items::<T>(others) + rest);
        assert(wire_items::<T>(items) + rest =~= T::wire(items[0]) + (wire_items::<T>(others)
            + rest));
        assert forall|i: int| 0 <= i < others.len() implies T::fits(#[trigger] others[i]) by {
            assert(others[i] == items[i + 1]);
        }
        lemma_items_round_trip::<T>(others, rest);
        assert(seq![items[0]] + others =~= items);
    }
}

/// A list that was written is read back.
pub proof fn lemma_list_round_trip<T: Wire>(items: Seq<T::V>, rest: Seq<u8>)
    requires
        list_fits::<T>(items),
    ensures
        parse_list::<T>(wire_list::<T>(items) + rest) == Some((items, rest)),
{
    lemma_u64_round_trip(items.len() as u64, wire_items::<T>(items) + rest);
    lemma_items_round_trip::<T>(items, rest);
    assert(wire_list::<T>(items) + rest =~= wire_u64(items.len() as u64) + (wire_items::<T>(items)
        + rest));
}

/// Writes a list behind what `out` holds.
pub fn write_list<T: Wire>(items: &Vec<T>, out: &mut Vec<u8>)
    ensures
        final(out)@ == old(out)@ + wire_list::<T>(views(items@)),
        list_fits::<T>(views(items@)),
{
    write_u64(items.len() as u64, out);
    let ghost front = out@;
    let mut i: usize = 0;
    assert(views(items@).subrange(0, 0) =~= Seq::<T::V>::empty());
    assert(out@ =~= front + wire_items::<T>(views(items@).subrange(0, 0)));
    while i < items.len()
        invariant
            0 <= i <= items.len(),
            front == old(out)@ + wire_u64(items.len() as u64),
            out@ == front + wire_items::<T>(views(items@).subrange(0, i as int)),
            forall|j: int| 0 <= j < i ==> T::fits(#[trigger] views(items@)[j]),
        decreases items.len() - i,
    {
        let ghost before = out@;
        items[i].write(out);
        proof {
            let upto = views(items@).subrange(0, i + 1);
            assert(upto.drop_last() =~= views(items@).subrange(0, i as int));
            assert(upto.last() == items@[i as int]@);
            assert(out@ =~= front + wire_items::<T>(upto));
        }
        i += 1;
    }
    assert(views(items@).subrange(0, i as int) =~= views(items@));
    assert(out@ =~= old(out)@ + wire_list::<T>(views(items@)));
}

/// Reads the list that stands at place `at`, and gives the place behind it.
pub fn read_list<T: Wire>(data: &Vec<u8>, at: usize) -> (read: Option<(Vec<T>, usize)>)
    requires
        at <= data.len(),
    ensures
        match read {
            Some((items, next)) => at <= next <= data.len() && parse_list::<T>(
                tail(data@, at as int),
            ) == Some((views(items@), tail(data@, next as int))),
            None => parse_list::<T>(tail(data@, at as int)) is None,
        },
{
    let (count, start) = match read_u64(data, at) {
        Some(read) => read,
        None => { return None; },
    };
    let mut items: Vec<T> = Vec::new();
    let mut place: usize = start;
    let mut i: u64 = 0;
    assert(views(items@) =~= Seq::<T::V>::empty());
    proof {
        let whole = parse_items::<T>(tail(data@, start as int), count as nat);
        match whole {
            Some((others, rest)) => {
                assert(views(items@) + others =~= others);
            },
            None => {},
        }
    }
    while i < count
        invariant
            start <= place <= data.len(),
            0 <= i <= count,
            parse_u64(tail(data@, at as int)) == Some((count, tail(data@, start as int))),
            parse_items::<T>(tail(data@, start as int), count as nat) == match parse_items::<T>(
                tail(data@, place as int),
                (count - i) as nat,
            ) {
                Some((others, rest)) => Some((views(items@) + others, rest)),
                None => None,
            },
        decreases count - i,
    {
        match T::read(data, place) {
            Some((item, next)) => {
                proof {
                    lemma_views_push(items@, item);
                    match parse_items::<T>(tail(data@, next as int), (count - i - 1) as nat) {
                        Some((others, rest)) => {
                            assert(views(items@) + (seq![item@] + others) =~= views(items@).push(
                                item@,
                            ) + others);
                        },
                        None => {},
                    }
                }
                items.push(item);
                place = next;
                i += 1;
            },
            None => {
                assert(parse_items::<T>(tail(data@, place as int), (count - i) as nat) is None);
                return None;
            },
        }
    }
    assert(views(items@) + Seq::<T::V>::empty() =~= views(items@));
    Some((items, place))
}

/// The bytes that hold the value and nothing else.
pub open spec fn spec_serialise<T: Wire>(value: T::V) -> Seq<u8> {
    T::wire(value)
}

/// The value that the bytes hold, or `None` where they hold none or something behind it.
pub open spec fn spec_deserialise<T: Wire>(bytes: Seq<u8>) -> Option<T::V> {
    match T::parse(bytes) {
        Some((value, rest)) => if rest.len() == 0 {
            Some(value)
        } else {
            None
        },
        None => None,
    }
}

/// What was serialised is deserialised to the value it was.
pub proof fn lemma_serialise_round_trip<T: Wire>(value: T::V)
    requires
        T::fits(value),
    ensures
        spec_deserialise::<T>(spec_serialise::<T>(value)) == Some(value),
{
    T::lemma_round_trip(value, Seq::empty());
    assert(T::wire(value) + Seq::<u8>::empty() =~= T::wire(value));
}

/// The bytes that hold the value and nothing else. Every value has them, and they can be
/// read back.
pub fn serialise<T: Wire>(value: &T) -> (bytes: Vec<u8>)
    ensures
        bytes@ == spec_serialise::<T>(value@),
        spec_deserialise::<T>(bytes@) == Some(value@),
        T::fits(value@),
{
    let mut bytes: Vec<u8> = Vec::new();
    value.write(&mut bytes);
    assert(bytes@ =~= T::wire(value@));
    proof {
        lemma_serialise_round_trip::<T>(value@);
    }
    bytes
}

/// The value that the bytes hold. Fails with `SerialisationFailed` where they hold none or
/// hold something behind it.
pub fn deserialise<T: Wire>(data: &Vec<u8>) -> (value: Result<T, NfsError>)
    ensures
        match value {
            Ok(value) => spec_deserialise::<T>(data@) == Some(value@),
            Err(error) => error == NfsError::SerialisationFailed && spec_deserialise::<T>(data@)
                is None,
        },
{
    proof {
        lemma_tail(data@, 0, 0);
    }
    match T::read(data, 0) {
        Some((value, next)) => {
            if next == data.len() {
                Ok(value)
            } else {
                Err(NfsError::SerialisationFailed)
            }
        },
        None => Err(NfsError::SerialisationFailed),
    }
}

} // verus!
