//! The envelope: the bytes that stand for an object, both when it is hashed
//! and when it is stored.
//!
//! An envelope is the kind's name, one space, the payload's length in decimal,
//! one zero byte, and the payload.

use vstd::prelude::*;
use vstd::slice::slice_subrange;
use vstd::slice::slice_to_vec;
use crate::error::KitError;

verus! {

/// The four kinds of object.
#[derive(Clone, Copy, Debug, PartialEq, Eq, Structural)]
pub enum ObjectFormat {
    Commit,
    Tree,
    Tag,
    Blob,
}

/// The byte that ends the kind's name.
pub const SPACE: u8 = 32u8;

/// The byte that ends the length field.
pub const NUL: u8 = 0u8;

impl ObjectFormat {
    /// The kind's canonical name, as the bytes that an envelope starts with.
    pub open spec fn name(self) -> Seq<u8> {
        match self {
            ObjectFormat::Commit => seq![99u8, 111u8, 109u8, 109u8, 105u8, 116u8],
            ObjectFormat::Tree => seq![116u8, 114u8, 101u8, 101u8],
            ObjectFormat::Tag => seq![116u8, 97u8, 103u8],
            ObjectFormat::Blob => seq![98u8, 108u8, 111u8, 98u8],
        }
    }

    /// The kind whose canonical name is `name`, if there is one.
    pub open spec fn named(name: Seq<u8>) -> Option<ObjectFormat> {
        if name == ObjectFormat::Commit.name() {
            Some(ObjectFormat::Commit)
        } else if name == ObjectFormat::Tree.name() {
            Some(ObjectFormat::Tree)
        } else if name == ObjectFormat::Tag.name() {
            Some(ObjectFormat::Tag)
        } else if name == ObjectFormat::Blob.name() {
            Some(ObjectFormat::Blob)
        } else {
            None
        }
    }

    /// The canonical name as a vector of bytes.
    pub fn name_bytes(&self) -> (bytes: Vec<u8>)
        ensures
            bytes@ == self.name(),
    {
        let bytes = match self {
            ObjectFormat::Commit => vec![99u8, 111u8, 109u8, 109u8, 105u8, 116u8],
            ObjectFormat::Tree => vec![116u8, 114u8, 101u8, 101u8],
            ObjectFormat::Tag => vec![116u8, 97u8, 103u8],
            ObjectFormat::Blob => vec![98u8, 108u8, 111u8, 98u8],
        };
        assert(bytes@ =~= self.name());
        bytes
    }

    /// Reads a kind from the bytes `bytes[from..to]`.
    pub fn from_name(bytes: &[u8], from: usize, to: usize) -> (kind: Option<ObjectFormat>)
        requires
            from <= to <= bytes@.len(),
        ensures
            kind == ObjectFormat::named(bytes@.subrange(from as int, to as int)),
    {
        let ghost name = bytes@.subrange(from as int, to as int);
        let n: usize = to - from;
        proof {
            lemma_names();
        }
        if n == 6 && bytes[from] == 99 && bytes[from + 1] == 111 && bytes[from + 2] == 109
            && bytes[from + 3] == 109 && bytes[from + 4] == 105 && bytes[from + 5] == 116 {
            assert(name =~= ObjectFormat::Commit.name());
            Some(ObjectFormat::Commit)
        } else if n == 4 && bytes[from] == 116 && bytes[from + 1] == 114 && bytes[from + 2] == 101
            && bytes[from + 3] == 101 {
            assert(name =~= ObjectFormat::Tree.name());
            Some(ObjectFormat::Tree)
        } else if n == 3 && bytes[from] == 116 && bytes[from + 1] == 97 && bytes[from + 2] == 103 {
            assert(name =~= ObjectFormat::Tag.name());
            Some(ObjectFormat::Tag)
        } else if n == 4 && bytes[from] == 98 && bytes[from + 1] == 108 && bytes[from + 2] == 111
            && bytes[from + 3] == 98 {
            assert(name =~= ObjectFormat::Blob.name());
            Some(ObjectFormat::Blob)
        } else {
            proof {
                if n == 6 {
                    assert(name[0] == bytes@[from as int] && name[1] == bytes@[from + 1]
                        && name[2] == bytes@[from + 2] && name[3] == bytes@[from + 3]
                        && name[4] == bytes@[from + 4] && name[5] == bytes@[from + 5]);
                } else if n == 4 {
                    assert(name[0] == bytes@[from as int] && name[1] == bytes@[from + 1]
                        && name[2] == bytes@[from + 2] && name[3] == bytes@[from + 3]);
                } else if n == 3 {
                    assert(name[0] == bytes@[from as int] && name[1] == bytes@[from + 1]
                        && name[2] == bytes@[from + 2]);
                }
            }
            None
        }
    }
}

/// The four names are lowercase letters, each names its own kind, and no two
/// kinds share one.
pub proof fn lemma_names()
    ensures
        ObjectFormat::Commit.name().len() == 6,
        ObjectFormat::Tree.name().len() == 4,
        ObjectFormat::Tag.name().len() == 3,
        ObjectFormat::Blob.name().len() == 4,
        forall|kind: ObjectFormat| #[trigger] ObjectFormat::named(kind.name()) == Some(kind),
        forall|kind: ObjectFormat, other: ObjectFormat|
            kind != other ==> #[trigger] kind.name() != #[trigger] other.name(),
        forall|kind: ObjectFormat, i: int|
            0 <= i < kind.name().len() ==> 97 <= #[trigger] kind.name()[i] <= 122,
{
    assert(ObjectFormat::Tree.name()[0] == 116 && ObjectFormat::Blob.name()[0] == 98);
    assert forall|kind: ObjectFormat, i: int| 0 <= i < kind.name().len() implies 97
        <= #[trigger] kind.name()[i] <= 122 by {
        match kind {
            ObjectFormat::Commit => {
                assert(i == 0 || i == 1 || i == 2 || i == 3 || i == 4 || i == 5);
            },
            ObjectFormat::Tree => {
                assert(i == 0 || i == 1 || i == 2 || i == 3);
            },
            ObjectFormat::Tag => {
                assert(i == 0 || i == 1 || i == 2);
            },
            ObjectFormat::Blob => {
                assert(i == 0 || i == 1 || i == 2 || i == 3);
            },
        }
    }
}

/// Whether `b` is one of the ten ASCII digits.
pub open spec fn is_digit(b: u8) -> bool {
    48 <= b <= 57
}

/// Whether `s` holds ASCII digits and nothing else.
pub open spec fn all_digits(s: Seq<u8>) -> bool {
    forall|i: int| 0 <= i < s.len() ==> is_digit(#[trigger] s[i])
}

/// The decimal numeral of `n`, without leading zeros.
pub open spec fn decimal(n: nat) -> Seq<u8>
    decreases n,
{
    if n < 10 {
        seq![(48 + n) as u8]
    } else {
        decimal(n / 10).push((48 + n % 10) as u8)
    }
}

/// The number that a run of digits writes, leading zeros allowed.
pub open spec fn decimal_value(s: Seq<u8>) -> nat
    decreases s.len(),
{
    if s.len() == 0 {
        0
    } else {
        decimal_value(s.drop_last()) * 10 + (s.last() - 48) as nat
    }
}

/// The least index at or after `from` at which `s` holds `b`; the length of
/// `s` if there is none.
pub open spec fn first_index(s: Seq<u8>, b: u8, from: int) -> int
    decreases s.len() - from,
{
    if from < 0 || from >= s.len() {
        s.len() as int
    } else if s[from] == b {
        from
    } else {
        first_index(s, b, from + 1)
    }
}

/// The envelope of a payload of the given kind.
pub open spec fn spec_encode(kind: ObjectFormat, payload: Seq<u8>) -> Seq<u8> {
    kind.name() + seq![SPACE] + decimal(payload.len()) + seq![NUL] + payload
}

/// What an envelope holds, or why it is none.
///
/// The kind's name ends at the first space. The length field ends at the first
/// zero byte after that space; it is a run of one or more digits, and the
/// number it writes is the count of the bytes that follow the zero byte.
pub open spec fn spec_decode(bytes: Seq<u8>) -> Result<(ObjectFormat, Seq<u8>), KitError> {
    let x = first_index(bytes, SPACE, 0);
    if x >= bytes.len() {
        Err(KitError::MalformedObjectEnvelope)
    } else {
        match ObjectFormat::named(bytes.subrange(0, x)) {
            None => Err(KitError::UnknownObjectKind),
            Some(kind) => {
                let y = first_index(bytes, NUL, x + 1);
                let digits = bytes.subrange(x + 1, y);
                if y < bytes.len() && digits.len() > 0 && all_digits(digits) && decimal_value(
                    digits,
                ) == bytes.len() - y - 1 {
                    Ok((kind, bytes.subrange(y + 1, bytes.len() as int)))
                } else {
                    Err(KitError::MalformedObjectEnvelope)
                }
            },
        }
    }
}

/// `first_index` is where the byte first stands.
pub proof fn lemma_first_index(s: Seq<u8>, b: u8, from: int, at: int)
    requires
        0 <= from <= at <= s.len(),
        forall|i: int| from <= i < at ==> s[i] != b,
        at < s.len() ==> s[at] == b,
    ensures
        first_index(s, b, from) == at,
    decreases at - from,
{
    if from < at {
        lemma_first_index(s, b, from + 1, at);
    }
}

/// A numeral is a run of at least one digit.
pub proof fn lemma_decimal_digits(n: nat)
    ensures
        decimal(n).len() >= 1,
        all_digits(decimal(n)),
    decreases n,
{
    if n >= 10 {
        lemma_decimal_digits(n / 10);
    }
}

/// Reading a numeral gives back the number that it was written from.
pub proof fn lemma_decimal_value(n: nat)
    ensures
        decimal_value(decimal(n)) == n,
    decreases n,
{
    if n < 10 {
        assert(decimal(n).drop_last() =~= Seq::<u8>::empty());
        assert(decimal_value(decimal(n).drop_last()) == 0);
    } else {
        lemma_decimal_value(n / 10);
        assert(decimal(n).drop_last() =~= decimal(n / 10));
    }
}

/// Appends the numeral of `n` to `out`.
pub fn push_decimal(out: &mut Vec<u8>, n: usize)
    ensures
        final(out)@ == old(out)@ + decimal(n as nat),
    decreases n,
{
    if n < 10 {
        let d: u8 = 48u8 + (n as u8);
        out.push(d);
        assert(final(out)@ =~= old(out)@ + decimal(n as nat));
    } else {
        push_decimal(out, n / 10);
        let d: u8 = 48u8 + ((n % 10) as u8);
        out.push(d);
        assert(out@ =~= old(out)@ + decimal(n as nat));
    }
}

/// A longer run of digits writes no smaller a number.
pub proof fn lemma_decimal_value_prefix(s: Seq<u8>, k: int)
    requires
        0 <= k <= s.len(),
        all_digits(s),
    ensures
        decimal_value(s.subrange(0, k)) <= decimal_value(s),
    decreases s.len() - k,
{
    if k == s.len() {
        assert(s.subrange(0, k) =~= s);
    } else {
        assert(s.drop_last().subrange(0, k) =~= s.subrange(0, k));
        lemma_decimal_value_prefix(s.drop_last(), k);
        assert(is_digit(s[s.len() - 1]));
    }
}

/// The envelope of `payload` as an object of kind `kind`.
pub fn encode(kind: ObjectFormat, payload: &[u8]) -> (bytes: Vec<u8>)
    ensures
        bytes@ == spec_encode(kind, payload@),
{
    let mut out = kind.name_bytes();
    out.push(SPACE);
    push_decimal(&mut out, payload.len());
    out.push(NUL);
    out.extend_from_slice(payload);
    assert(out@ =~= spec_encode(kind, payload@));
    out
}

/// Where `b` first stands in `bytes` at or after `from`; the length of `bytes`
/// if it stands nowhere there.
pub fn find_byte(bytes: &[u8], b: u8, from: usize) -> (at: usize)
    ensures
        at == first_index(bytes@, b, from as int),
        from <= bytes@.len() ==> from <= at <= bytes@.len(),
{
    if from >= bytes.len() {
        return bytes.len();
    }
    let mut i: usize = from;
    while i < bytes.len() && bytes[i] != b
        invariant
            from <= i <= bytes@.len(),
            forall|j: int| from <= j < i ==> bytes@[j] != b,
        decreases bytes@.len() - i,
    {
        i += 1;
    }
    proof {
        lemma_first_index(bytes@, b, from as int, i as int);
    }
    i
}

/// What a length field writes, where it is a run of one or more digits and
/// writes no more than `limit`.
pub open spec fn spec_length(field: Seq<u8>, limit: nat) -> Option<nat> {
    if field.len() > 0 && all_digits(field) && decimal_value(field) <= limit {
        Some(decimal_value(field))
    } else {
        None
    }
}

/// The model of what [`parse_length`] returns.
pub open spec fn length_view(value: Option<usize>) -> Option<nat> {
    match value {
        Some(n) => Some(n as nat),
        None => None,
    }
}

/// Reads the length field `bytes[from..to]`. A field that writes more than
/// `limit` is refused, however long it is.
pub fn parse_length(bytes: &[u8], from: usize, to: usize, limit: usize) -> (value: Option<usize>)
    requires
        from <= to <= bytes@.len(),
    ensures
        length_view(value) == spec_length(bytes@.subrange(from as int, to as int), limit as nat),
{
    let ghost field = bytes@.subrange(from as int, to as int);
    if from == to {
        return None;
    }
    let mut acc: usize = 0;
    let mut i: usize = from;
    assert(field.subrange(0, 0) =~= Seq::<u8>::empty());
    while i < to
        invariant
            from <= i <= to <= bytes@.len(),
            field == bytes@.subrange(from as int, to as int),
            acc <= limit,
            acc == decimal_value(field.subrange(0, i - from)),
            forall|j: int| 0 <= j < i - from ==> is_digit(#[trigger] field[j]),
        decreases to - i,
    {
        let d: u8 = bytes[i];
        if d < 48 || d > 57 {
            assert(!is_digit(field[i - from]));
            return None;
        }
        let ghost prefix = field.subrange(0, i + 1 - from);
        assert(prefix.drop_last() =~= field.subrange(0, i - from));
        assert(prefix.last() == d);
        let next: u128 = (acc as u128) * 10 + ((d - 48) as u128);
        assert(next == decimal_value(prefix));
        if next > limit as u128 {
            proof {
                if all_digits(field) {
                    lemma_decimal_value_prefix(field, i + 1 - from);
                }
            }
            return None;
        }
        acc = next as usize;
        i += 1;
    }
    assert(field.subrange(0, i - from) =~= field);
    Some(acc)
}

/// The model of what [`decode`] returns.
pub open spec fn decoded(r: Result<(ObjectFormat, Vec<u8>), KitError>) -> Result<
    (ObjectFormat, Seq<u8>),
    KitError,
> {
    match r {
        Ok((kind, payload)) => Ok((kind, payload@)),
        Err(e) => Err(e),
    }
}

/// Takes an envelope apart into kind and payload.
///
/// Fails with `MalformedObjectEnvelope` where there is no space, no zero byte
/// after it, or a length field that is not the count of the bytes behind the
/// zero byte; with `UnknownObjectKind` where the name before the space is none
/// of the four.
pub fn decode(bytes: &[u8]) -> (r: Result<(ObjectFormat, Vec<u8>), KitError>)
    ensures
        decoded(r) == spec_decode(bytes@),
{
    let len: usize = bytes.len();
    let x: usize = find_byte(bytes, SPACE, 0);
    if x >= len {
        return Err(KitError::MalformedObjectEnvelope);
    }
    let kind = match ObjectFormat::from_name(bytes, 0, x) {
        Some(kind) => kind,
        None => {
            return Err(KitError::UnknownObjectKind);
        },
    };
    let y: usize = find_byte(bytes, NUL, x + 1);
    if y >= len {
        return Err(KitError::MalformedObjectEnvelope);
    }
    let rest: usize = len - y - 1;
    match parse_length(bytes, x + 1, y, rest) {
        Some(n) => {
            if n == rest {
                let payload = slice_to_vec(slice_subrange(bytes, y + 1, len));
                Ok((kind, payload))
            } else {
                Err(KitError::MalformedObjectEnvelope)
            }
        },
        None => Err(KitError::MalformedObjectEnvelope),
    }
}

/// Decoding an envelope gives back the kind and the payload that it was made
/// from, whatever bytes the payload holds.
pub proof fn lemma_decode_encode(kind: ObjectFormat, payload: Seq<u8>)
    ensures
        spec_decode(spec_encode(kind, payload)) == Ok::<(ObjectFormat, Seq<u8>), KitError>(
            (kind, payload),
        ),
{
    let name = kind.name();
    let digits = decimal(payload.len());
    let bytes = spec_encode(kind, payload);
    let x = name.len() as int;
    let y = x + 1 + digits.len();
    lemma_names();
    lemma_decimal_digits(payload.len());
    lemma_decimal_value(payload.len());
    assert(bytes.len() == y + 1 + payload.len());
    assert forall|i: int| 0 <= i < x implies bytes[i] != SPACE by {
        assert(bytes[i] == name[i]);
    }
    assert(bytes[x] == SPACE);
    lemma_first_index(bytes, SPACE, 0, x);
    assert(bytes.subrange(0, x) =~= name);
    assert forall|i: int| x + 1 <= i < y implies bytes[i] != NUL by {
        assert(bytes[i] == digits[i - x - 1]);
        assert(is_digit(digits[i - x - 1]));
    }
    assert(bytes[y] == NUL);
    lemma_first_index(bytes, NUL, x + 1, y);
    assert(bytes.subrange(x + 1, y) =~= digits);
    assert(bytes.subrange(y + 1, bytes.len() as int) =~= payload);
}

/// Two envelopes are the same bytes only where kind and payload are the same.
pub proof fn lemma_encode_injective(
    kind: ObjectFormat,
    payload: Seq<u8>,
    other_kind: ObjectFormat,
    other_payload: Seq<u8>,
)
    requires
        spec_encode(kind, payload) == spec_encode(other_kind, other_payload),
    ensures
        kind == other_kind,
        payload == other_payload,
{
    lemma_decode_encode(kind, payload);
    lemma_decode_encode(other_kind, other_payload);
}

} // verus!
