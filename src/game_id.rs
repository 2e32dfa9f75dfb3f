//! Game identifiers: UUIDs, held as their 128-bit value.
use vstd::prelude::*;

verus! {

/// The identifier of a game on the server: a UUID, held as its 128-bit value
/// (most significant byte first, as in its text).
#[derive(Clone, Copy, Debug, PartialEq, Eq, Structural, Hash)]
pub struct GameId {
    pub value: u128,
}

/// The lowercase hexadecimal digit for `d < 16`.
pub open spec fn hex_digit_char(d: nat) -> char {
    seq!['0', '1', '2', '3', '4', '5', '6', '7', '8', '9', 'a', 'b', 'c', 'd', 'e', 'f'][d as int]
}

/// The last `n` lowercase hexadecimal digits of `v`, most significant first.
pub open spec fn hex_text(v: nat, n: nat) -> Seq<char>
    decreases n,
{
    if n == 0 {
        Seq::empty()
    } else {
        hex_text(v / 16, (n - 1) as nat).push(hex_digit_char(v % 16))
    }
}

/// The hyphenated form of a UUID: its 32 lowercase hexadecimal digits in
/// groups of 8, 4, 4, 4 and 12, joined by `-`.
pub open spec fn hyphenated_text(v: u128) -> Seq<char> {
    let h = hex_text(v as nat, 32);
    h.subrange(0, 8) + seq!['-'] + h.subrange(8, 12) + seq!['-'] + h.subrange(12, 16) + seq!['-']
        + h.subrange(16, 20) + seq!['-'] + h.subrange(20, 32)
}

proof fn lemma_hex_text_shape(v: nat, n: nat)
    ensures
        hex_text(v, n).len() == n,
        !hex_text(v, n).contains('/'),
    decreases n,
{
    if n > 0 {
        lemma_hex_text_shape(v / 16, (n - 1) as nat);
        let d = v % 16;
        assert(hex_digit_char(d) != '/') by {
            assert(d == 0 || d == 1 || d == 2 || d == 3 || d == 4 || d == 5 || d == 6 || d == 7
                || d == 8 || d == 9 || d == 10 || d == 11 || d == 12 || d == 13 || d == 14 || d
                == 15);
        }
        let t = hex_text(v, n);
        assert forall|k: int| 0 <= k < t.len() implies t[k] != '/' by {
            if k < n - 1 {
                assert(t[k] == hex_text(v / 16, (n - 1) as nat)[k]);
            }
        }
    }
}

/// The hyphenated text of a UUID has 36 characters and no `/`.
pub proof fn lemma_hyphenated_text_shape(v: u128)
    ensures
        hyphenated_text(v).len() == 36,
        !hyphenated_text(v).contains('/'),
{
    let h = hex_text(v as nat, 32);
    lemma_hex_text_shape(v as nat, 32);
    let t = hyphenated_text(v);
    assert forall|k: int| 0 <= k < t.len() implies t[k] != '/' by {
        if k < 8 {
            assert(t[k] == h[k]);
        } else if k == 8 || k == 13 || k == 18 || k == 23 {
        } else if k < 13 {
            assert(t[k] == h[k - 1]);
        } else if k < 18 {
            assert(t[k] == h[k - 2]);
        } else if k < 23 {
            assert(t[k] == h[k - 3]);
        } else {
            assert(t[k] == h[k - 4]);
        }
    }
}

/// The value of the UUID written in `s`, in any of the forms that the uuid
/// crate reads (simple, hyphenated, braced, URN), or `None`.
pub uninterp spec fn uuid_text_value(s: Seq<char>) -> Option<u128>;

/// Relies on `uuid::Uuid::parse_str`: the UUID written in `s`, if any, which
/// depends on the text alone. Only texts of 32 (simple), 36 (hyphenated), 38
/// (braced) or 45 (URN) ASCII characters are read, and the hyphenated text of
/// a value reads back as that value.
#[verifier::external_body]
fn parse_uuid(s: &str) -> (r: Option<u128>)
    ensures
        r == uuid_text_value(s@),
        r is Some ==> uuid_text_length(s@.len()),
        forall|v: u128| s@ == #[trigger] hyphenated_text(v) ==> r == Some(v),
{
    uuid::Uuid::parse_str(s).ok().map(|u| u.as_u128())
}

/// Relies on `uuid::Uuid::hyphenated` through its `Display`: the lowercase
/// hyphenated text of the UUID with value `v`.
#[verifier::external_body]
fn format_uuid_hyphenated(v: u128) -> (r: String)
    ensures
        r@ == hyphenated_text(v),
{
    uuid::Uuid::from_u128(v).hyphenated().to_string()
}

/// The lengths of the text forms of a UUID: simple, hyphenated, braced, URN.
pub open spec fn uuid_text_length(n: nat) -> bool {
    n == 32 || n == 36 || n == 38 || n == 45
}

/// The identifier written in `s`, if `s` is a UUID.
pub open spec fn game_id_of_text(s: Seq<char>) -> Option<GameId> {
    match uuid_text_value(s) {
        Some(v) => Some(GameId { value: v }),
        None => None,
    }
}

impl GameId {
    /// Reads a game identifier from UUID text.
    pub fn parse(s: &str) -> (r: Option<GameId>)
        ensures
            r == game_id_of_text(s@),
            r is Some ==> uuid_text_length(s@.len()),
            forall|v: u128| s@ == #[trigger] hyphenated_text(v) ==> r == Some(GameId { value: v }),
    {
        match parse_uuid(s) {
            Some(v) => Some(GameId { value: v }),
            None => None,
        }
    }

    /// The hyphenated lowercase text of this identifier.
    pub fn to_hyphenated(&self) -> (r: String)
        ensures
            r@ == hyphenated_text(self.value),
    {
        format_uuid_hyphenated(self.value)
    }
}

} // verus!
