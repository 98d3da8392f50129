//! Identifiers of uProtocol messages.

use vstd::prelude::*;

verus! {

/// A 128 bit identifier, as its two 64 bit halves.
#[derive(Clone, Copy, Debug, PartialEq, Eq, Hash, Structural)]
pub struct UUID {
    pub msb: u64,
    pub lsb: u64,
}

impl UUID {
    /// Whether the identifier is of version 7 and of the RFC 4122 variant, as the identifiers of
    /// uProtocol messages are.
    pub open spec fn is_uprotocol_uuid(self) -> bool {
        is_version_7(self) && is_rfc4122(self)
    }
}

/// Whether the four version bits of an identifier hold 7.
pub open spec fn is_version_7(id: UUID) -> bool {
    id.msb & 0xF000 == 0x7000
}

/// Whether the two variant bits of an identifier hold binary 10.
pub open spec fn is_rfc4122(id: UUID) -> bool {
    id.lsb & 0xC000_0000_0000_0000 == 0x8000_0000_0000_0000
}

/// The 4 bit group of an identifier at an index from 0 to 31, most significant group first.
pub open spec fn nibble(id: UUID, k: int) -> u64 {
    if k < 16 {
        (id.msb >> ((60 - 4 * k) as u64)) & 0xF
    } else {
        (id.lsb >> ((124 - 4 * k) as u64)) & 0xF
    }
}

/// The byte of an identifier at an index from 0 to 15, most significant byte first.
pub open spec fn byte_at(id: UUID, i: int) -> u8 {
    if i < 8 {
        ((id.msb >> ((56 - 8 * i) as u64)) & 0xFF) as u8
    } else {
        ((id.lsb >> ((120 - 8 * i) as u64)) & 0xFF) as u8
    }
}

/// The 16 bytes of an identifier in big-endian order.
pub open spec fn uuid_bytes(id: UUID) -> Seq<u8> {
    Seq::new(16, |i: int| byte_at(id, i))
}

/// Whether the hyphenated form of an identifier has a hyphen at a position.
pub open spec fn is_hyphen_position(i: int) -> bool {
    i == 8 || i == 13 || i == 18 || i == 23
}

/// The index of the 4 bit group that stands at a position of the hyphenated form.
pub open spec fn nibble_position(i: int) -> int {
    if i < 8 {
        i
    } else if i < 13 {
        i - 1
    } else if i < 18 {
        i - 2
    } else if i < 23 {
        i - 3
    } else {
        i - 4
    }
}

/// The lower case hexadecimal digit for a number below sixteen.
pub open spec fn hex_digit(d: int) -> char {
    if d < 10 {
        (48 + d) as char
    } else {
        (87 + d) as char
    }
}

/// The number below sixteen that a hexadecimal digit of either case stands for.
pub open spec fn hex_value(c: char) -> Option<int> {
    if '0' <= c && c <= '9' {
        Some(c as int - 48)
    } else if 'a' <= c && c <= 'f' {
        Some(c as int - 87)
    } else if 'A' <= c && c <= 'F' {
        Some(c as int - 55)
    } else {
        None
    }
}

/// The hyphenated lower case form of an identifier.
pub open spec fn uuid_text(id: UUID) -> Seq<char> {
    Seq::new(
        36,
        |i: int|
            if is_hyphen_position(i) {
                '-'
            } else {
                hex_digit(nibble(id, nibble_position(i)) as int)
            },
    )
}

/// Whether a text is a hyphenated form of an identifier, in either case.
pub open spec fn spells(text: Seq<char>, id: UUID) -> bool {
    &&& text.len() == 36
    &&& forall|i: int|
        0 <= i < 36 ==> if is_hyphen_position(i) {
            #[trigger] text[i] == '-'
        } else {
            hex_value(text[i]) == Some(nibble(id, nibble_position(i)) as int)
        }
}

/// What reading a text as an identifier gives: the identifier, or the text of the error.
pub open spec fn read_uuid(text: Seq<char>) -> Result<UUID, Seq<char>> {
    if exists|id: UUID| spells(text, id) {
        classify(choose|id: UUID| spells(text, id))
    } else {
        Err("Error converting Uuid: UUIDError"@)
    }
}

/// What reading big-endian bytes as an identifier gives: the identifier, or the text of the error.
pub open spec fn read_uuid_bytes(bytes: Seq<u8>) -> Result<UUID, Seq<char>> {
    if bytes.len() == 16 {
        classify(choose|id: UUID| bytes == #[trigger] uuid_bytes(id))
    } else {
        Err("Error converting Uuid: byte vector length is not 16 bytes"@)
    }
}

/// An identifier that was read, if it has the version and variant of a uProtocol message
/// identifier; the text of the error otherwise.
pub open spec fn classify(id: UUID) -> Result<UUID, Seq<char>> {
    if !is_version_7(id) {
        Err("Error converting Uuid: not a v7 UUID"@)
    } else if !is_rfc4122(id) {
        Err("Error converting Uuid: not an RFC4122 UUID"@)
    } else {
        Ok(id)
    }
}

proof fn lemma_nibble_bound(v: u64)
    by (bit_vector)
    ensures
        v & 0xF <= 15,
{
}

proof fn lemma_nibbles_determine(x: u64, y: u64)
    by (bit_vector)
    requires
        (x >> 60) & 0xF == (y >> 60) & 0xF,
        (x >> 56) & 0xF == (y >> 56) & 0xF,
        (x >> 52) & 0xF == (y >> 52) & 0xF,
        (x >> 48) & 0xF == (y >> 48) & 0xF,
        (x >> 44) & 0xF == (y >> 44) & 0xF,
        (x >> 40) & 0xF == (y >> 40) & 0xF,
        (x >> 36) & 0xF == (y >> 36) & 0xF,
        (x >> 32) & 0xF == (y >> 32) & 0xF,
        (x >> 28) & 0xF == (y >> 28) & 0xF,
        (x >> 24) & 0xF == (y >> 24) & 0xF,
        (x >> 20) & 0xF == (y >> 20) & 0xF,
        (x >> 16) & 0xF == (y >> 16) & 0xF,
        (x >> 12) & 0xF == (y >> 12) & 0xF,
        (x >> 8) & 0xF == (y >> 8) & 0xF,
        (x >> 4) & 0xF == (y >> 4) & 0xF,
        (x >> 0) & 0xF == (y >> 0) & 0xF,
    ensures
        x == y,
{
}

proof fn lemma_bytes_determine(x: u64, y: u64)
    by (bit_vector)
    requires
        ((x >> 56) & 0xFF) as u8 == ((y >> 56) & 0xFF) as u8,
        ((x >> 48) & 0xFF) as u8 == ((y >> 48) & 0xFF) as u8,
        ((x >> 40) & 0xFF) as u8 == ((y >> 40) & 0xFF) as u8,
        ((x >> 32) & 0xFF) as u8 == ((y >> 32) & 0xFF) as u8,
        ((x >> 24) & 0xFF) as u8 == ((y >> 24) & 0xFF) as u8,
        ((x >> 16) & 0xFF) as u8 == ((y >> 16) & 0xFF) as u8,
        ((x >> 8) & 0xFF) as u8 == ((y >> 8) & 0xFF) as u8,
        ((x >> 0) & 0xFF) as u8 == ((y >> 0) & 0xFF) as u8,
    ensures
        x == y,
{
}

/// The position of the hyphenated form at which the 4 bit group with an index stands.
spec fn text_position(k: int) -> int {
    if k < 8 {
        k
    } else if k < 12 {
        k + 1
    } else if k < 16 {
        k + 2
    } else if k < 20 {
        k + 3
    } else {
        k + 4
    }
}

/// A text is a hyphenated form of at most one identifier.
pub proof fn lemma_spells_one(text: Seq<char>, a: UUID, b: UUID)
    requires
        spells(text, a),
        spells(text, b),
    ensures
        a == b,
{
    assert forall|k: int| 0 <= k < 32 implies #[trigger] nibble(a, k) == nibble(b, k) by {
        let i = text_position(k);
        assert(hex_value(text[i]) == Some(nibble(a, nibble_position(i)) as int));
        assert(hex_value(text[i]) == Some(nibble(b, nibble_position(i)) as int));
    }
    assert(nibble(a, 0) == nibble(b, 0) && nibble(a, 1) == nibble(b, 1) && nibble(a, 2) == nibble(
        b,
        2,
    ) && nibble(a, 3) == nibble(b, 3) && nibble(a, 4) == nibble(b, 4) && nibble(a, 5) == nibble(
        b,
        5,
    ) && nibble(a, 6) == nibble(b, 6) && nibble(a, 7) == nibble(b, 7) && nibble(a, 8) == nibble(
        b,
        8,
    ) && nibble(a, 9) == nibble(b, 9) && nibble(a, 10) == nibble(b, 10) && nibble(a, 11) == nibble(
        b,
        11,
    ) && nibble(a, 12) == nibble(b, 12) && nibble(a, 13) == nibble(b, 13) && nibble(a, 14)
        == nibble(b, 14) && nibble(a, 15) == nibble(b, 15));
    lemma_nibbles_determine(a.msb, b.msb);
    assert(nibble(a, 16) == nibble(b, 16) && nibble(a, 17) == nibble(b, 17) && nibble(a, 18)
        == nibble(b, 18) && nibble(a, 19) == nibble(b, 19) && nibble(a, 20) == nibble(b, 20)
        && nibble(a, 21) == nibble(b, 21) && nibble(a, 22) == nibble(b, 22) && nibble(a, 23)
        == nibble(b, 23) && nibble(a, 24) == nibble(b, 24) && nibble(a, 25) == nibble(b, 25)
        && nibble(a, 26) == nibble(b, 26) && nibble(a, 27) == nibble(b, 27) && nibble(a, 28)
        == nibble(b, 28) && nibble(a, 29) == nibble(b, 29) && nibble(a, 30) == nibble(b, 30)
        && nibble(a, 31) == nibble(b, 31));
    lemma_nibbles_determine(a.lsb, b.lsb);
}

/// Reading the hyphenated form of a uProtocol message identifier gives back the identifier.
pub proof fn lemma_uuid_text_reads_back(id: UUID)
    requires
        id.is_uprotocol_uuid(),
    ensures
        read_uuid(uuid_text(id)) == Ok::<UUID, Seq<char>>(id),
{
    let text = uuid_text(id);
    assert forall|i: int| 0 <= i < 36 implies if is_hyphen_position(i) {
        #[trigger] text[i] == '-'
    } else {
        hex_value(text[i]) == Some(nibble(id, nibble_position(i)) as int)
    } by {
        let k = nibble_position(i);
        if k < 16 {
            lemma_nibble_bound(id.msb >> ((60 - 4 * k) as u64));
        } else {
            lemma_nibble_bound(id.lsb >> ((124 - 4 * k) as u64));
        }
    }
    assert(spells(text, id));
    lemma_spells_one(text, id, choose|other: UUID| spells(text, other));
}

/// Reading the bytes of a uProtocol message identifier gives back the identifier.
pub proof fn lemma_uuid_bytes_read_back(id: UUID)
    requires
        id.is_uprotocol_uuid(),
    ensures
        read_uuid_bytes(uuid_bytes(id)) == Ok::<UUID, Seq<char>>(id),
{
    let other = choose|other: UUID| uuid_bytes(id) == #[trigger] uuid_bytes(other);
    assert(uuid_bytes(id) == uuid_bytes(other));
    assert forall|i: int| 0 <= i < 16 implies #[trigger] byte_at(id, i) == byte_at(other, i) by {
        assert(uuid_bytes(id)[i] == uuid_bytes(other)[i]);
    }
    assert(byte_at(id, 0) == byte_at(other, 0) && byte_at(id, 1) == byte_at(other, 1) && byte_at(
        id,
        2,
    ) == byte_at(other, 2) && byte_at(id, 3) == byte_at(other, 3) && byte_at(id, 4) == byte_at(
        other,
        4,
    ) && byte_at(id, 5) == byte_at(other, 5) && byte_at(id, 6) == byte_at(other, 6) && byte_at(
        id,
        7,
    ) == byte_at(other, 7));
    lemma_bytes_determine(id.msb, other.msb);
    assert(byte_at(id, 8) == byte_at(other, 8) && byte_at(id, 9) == byte_at(other, 9) && byte_at(
        id,
        10,
    ) == byte_at(other, 10) && byte_at(id, 11) == byte_at(other, 11) && byte_at(id, 12) == byte_at(
        other,
        12,
    ) && byte_at(id, 13) == byte_at(other, 13) && byte_at(id, 14) == byte_at(other, 14) && byte_at(
        id,
        15,
    ) == byte_at(other, 15));
    lemma_bytes_determine(id.lsb, other.lsb);
}

/// Calls `up_rust::UUID::from_str`. It accepts the hyphenated forms, in either case, of the
/// identifiers that have the version and variant of a uProtocol message identifier. For a
/// hyphenated form of another identifier, and for a text that is no hyphenated form, it reports
/// one of three errors, whose texts are stated.
#[verifier::external_body]
pub(crate) fn uuid_from_text(text: &str) -> (r: Result<UUID, String>)
    ensures
        match r {
            Ok(id) => read_uuid(text@) == Ok::<UUID, Seq<char>>(id),
            Err(e) => read_uuid(text@) == Err::<UUID, Seq<char>>(e@),
        },
{
    match text.parse::<up_rust::UUID>() {
        Ok(id) => Ok(UUID { msb: id.msb, lsb: id.lsb }),
        Err(e) => Err(e.to_string()),
    }
}

/// Calls `up_rust::UUID::to_hyphenated_string`, which writes the hyphenated lower case form.
#[verifier::external_body]
pub(crate) fn uuid_to_text(id: UUID) -> (text: String)
    ensures
        text@ == uuid_text(id),
{
    up_rust::UUID { msb: id.msb, lsb: id.lsb, ..Default::default() }.to_hyphenated_string()
}

/// Calls `up_rust::UUID::try_from` on a byte vector. It reads sixteen bytes as a big-endian number
/// and accepts the identifiers that have the version and variant of a uProtocol message
/// identifier. Otherwise it reports one of three errors, whose texts are stated.
#[verifier::external_body]
pub(crate) fn uuid_from_bytes(bytes: Vec<u8>) -> (r: Result<UUID, String>)
    ensures
        match r {
            Ok(id) => read_uuid_bytes(bytes@) == Ok::<UUID, Seq<char>>(id),
            Err(e) => read_uuid_bytes(bytes@) == Err::<UUID, Seq<char>>(e@),
        },
{
    match up_rust::UUID::try_from(bytes) {
        Ok(id) => Ok(UUID { msb: id.msb, lsb: id.lsb }),
        Err(e) => Err(e.to_string()),
    }
}

/// Calls the conversion of a `&up_rust::UUID` into a byte vector, which writes the sixteen bytes in
/// big-endian order.
#[verifier::external_body]
pub(crate) fn uuid_to_bytes(id: UUID) -> (bytes: Vec<u8>)
    ensures
        bytes@ == uuid_bytes(id),
{
    Vec::from(&up_rust::UUID { msb: id.msb, lsb: id.lsb, ..Default::default() })
}

} // verus!
