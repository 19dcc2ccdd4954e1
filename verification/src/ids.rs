//! Identifiers built on 128-bit UUID values, and their text forms.

use vstd::prelude::*;
use vstd::arithmetic::div_mod::{lemma_div_denominator, lemma_fundamental_div_mod};
use vstd::string::StringExecFns;
use crate::proto;

verus! {

/// `16^e`.
pub open spec fn pow16(e: nat) -> nat
    decreases e,
{
    if e == 0 {
        1
    } else {
        16 * pow16((e - 1) as nat)
    }
}

/// The `k`-th hexadecimal digit of `v`, counting from the most significant (`0 <= k < 32`).
pub open spec fn uuid_nibble(v: u128, k: int) -> nat {
    ((v as nat) / pow16((31 - k) as nat)) % 16
}

/// Lower-case hexadecimal digit for `n < 16`.
pub open spec fn hex_digit_lower(n: nat) -> char {
    if n < 10 {
        (n + 48) as char
    } else {
        (n + 87) as char
    }
}

/// The value of a hexadecimal digit of either case, or `-1` for any other character.
pub open spec fn hex_value(c: char) -> int {
    if '0' <= c && c <= '9' {
        c as int - 48
    } else if 'a' <= c && c <= 'f' {
        c as int - 87
    } else if 'A' <= c && c <= 'F' {
        c as int - 55
    } else {
        -1
    }
}

/// `count` lower-case hexadecimal digits of `v`, starting at digit `start`.
pub open spec fn hex_group(v: u128, start: int, count: nat) -> Seq<char> {
    Seq::new(count, |j: int| hex_digit_lower(uuid_nibble(v, start + j)))
}

/// The hyphenated lower-case text of a UUID value, e.g. `67e55044-10b1-426f-9247-bb680e5fe0c8`.
pub open spec fn uuid_text(v: u128) -> Seq<char> {
    hex_group(v, 0, 8) + seq!['-'] + hex_group(v, 8, 4) + seq!['-'] + hex_group(v, 12, 4)
        + seq!['-'] + hex_group(v, 16, 4) + seq!['-'] + hex_group(v, 20, 12)
}

/// Every character of `t` is a hexadecimal digit (of either case) spelling the
/// digits of `v` from digit `start` on.
pub open spec fn spells_digits(t: Seq<char>, v: u128, start: int) -> bool {
    forall|j: int| 0 <= j < t.len() ==> #[trigger] hex_value(t[j]) == uuid_nibble(v, start + j)
}

/// `t` is the 36-character hyphenated form of `v` (digits of either case).
pub open spec fn spells_hyphenated(t: Seq<char>, v: u128) -> bool {
    &&& t.len() == 36
    &&& t[8] == '-' && t[13] == '-' && t[18] == '-' && t[23] == '-'
    &&& spells_digits(t.subrange(0, 8), v, 0)
    &&& spells_digits(t.subrange(9, 13), v, 8)
    &&& spells_digits(t.subrange(14, 18), v, 12)
    &&& spells_digits(t.subrange(19, 23), v, 16)
    &&& spells_digits(t.subrange(24, 36), v, 20)
}

/// ASCII lower-casing of one character.
pub open spec fn ascii_lower(c: char) -> char {
    if 'A' <= c && c <= 'Z' {
        (c as int + 32) as char
    } else {
        c
    }
}

/// `p` is `urn:uuid:` in any ASCII case.
pub open spec fn is_urn_prefix(p: Seq<char>) -> bool {
    &&& p.len() == 9
    &&& ascii_lower(p[0]) == 'u' && ascii_lower(p[1]) == 'r' && ascii_lower(p[2]) == 'n'
    &&& p[3] == ':'
    &&& ascii_lower(p[4]) == 'u' && ascii_lower(p[5]) == 'u' && ascii_lower(p[6]) == 'i'
    &&& ascii_lower(p[7]) == 'd' && p[8] == ':'
}

/// `t` is one of the accepted text forms of the UUID value `v`: simple (32 digits),
/// hyphenated, braced `{..}` hyphenated, or `urn:uuid:` followed by the hyphenated form.
pub open spec fn spells_uuid(t: Seq<char>, v: u128) -> bool {
    ||| t.len() == 32 && spells_digits(t, v, 0)
    ||| spells_hyphenated(t, v)
    ||| t.len() == 38 && t[0] == '{' && t[37] == '}' && spells_hyphenated(t.subrange(1, 37), v)
    ||| t.len() == 45 && is_urn_prefix(t.take(9)) && spells_hyphenated(t.skip(9), v)
}

/// The value that `t` spells as a UUID text, if any (unique by `lemma_spelled_value_unique`).
pub open spec fn parse_uuid_text(t: Seq<char>) -> Option<u128> {
    if exists|v: u128| spells_uuid(t, v) {
        Some(choose|v: u128| spells_uuid(t, v))
    } else {
        None
    }
}

/// `uuid::Uuid::from_u128(value).to_string()`: the hyphenated lower-case text of
/// the value, most significant digit first.
#[verifier::external_body]
pub(crate) fn uuid_to_text(value: u128) -> (res: String)
    ensures
        res@ == uuid_text(value),
{
    uuid::Uuid::from_u128(value).to_string()
}

/// `uuid::Uuid::from_str` (that is, `Uuid::parse_str`), read back as a `u128`:
/// the text is accepted exactly when it spells some value in one of the forms
/// of `spells_uuid`, and then that value is returned.
#[verifier::external_body]
pub(crate) fn uuid_from_text(text: &str) -> (res: Option<u128>)
    ensures
        forall|v: u128| #[trigger] spells_uuid(text@, v) <==> res == Some(v),
{
    match <uuid::Uuid as std::str::FromStr>::from_str(text) {
        Ok(u) => Some(u.as_u128()),
        Err(_) => None,
    }
}

/// Version-4 layout: the version digit is 4 and the two variant bits are `10`.
pub open spec fn is_v4_layout(v: u128) -> bool {
    &&& uuid_nibble(v, 12) == 4
    &&& uuid_nibble(v, 16) / 4 == 2
}

/// `uuid::Uuid::new_v4().as_u128()`: a random value; the crate sets the version
/// digit to 4 and the variant bits to `10`, nothing else is known of it.
#[verifier::external_body]
pub(crate) fn random_v4_uuid() -> (res: u128)
    ensures
        is_v4_layout(res),
{
    uuid::Uuid::new_v4().as_u128()
}

/// Identifier of a component template: a UUID value.
#[derive(Clone, Copy, Debug, PartialEq, Eq, Structural, Hash, PartialOrd, Ord)]
pub struct TemplateId(pub u128);

impl TemplateId {
    /// The hyphenated text of the id, as `Display` renders it.
    pub fn to_display_string(&self) -> (res: String)
        ensures
            res@ == uuid_text(self.0),
    {
        uuid_to_text(self.0)
    }
}

/// Identifier of a grant: a UUID value.
#[derive(Clone, Copy, Debug, PartialEq, Eq, Structural, Hash, PartialOrd, Ord)]
pub struct GrantId(pub u128);

impl GrantId {
    /// The hyphenated text of the id, as `Display` renders it.
    pub fn to_display_string(&self) -> (res: String)
        ensures
            res@ == uuid_text(self.0),
    {
        uuid_to_text(self.0)
    }
}

/// Identifier of a plan: a UUID value.
#[derive(Clone, Copy, Debug, PartialEq, Eq, Structural, Hash, PartialOrd, Ord)]
pub struct PlanId(pub u128);

impl PlanId {
    /// The hyphenated text of the id, as `Display` renders it.
    pub fn to_display_string(&self) -> (res: String)
        ensures
            res@ == uuid_text(self.0),
    {
        uuid_to_text(self.0)
    }
}

/// Identifier of a project: a UUID value.
#[derive(Clone, Copy, Debug, PartialEq, Eq, Structural, Hash, PartialOrd, Ord)]
pub struct ProjectId(pub u128);

impl ProjectId {
    /// The hyphenated text of the id, as `Display` renders it.
    pub fn to_display_string(&self) -> (res: String)
        ensures
            res@ == uuid_text(self.0),
    {
        uuid_to_text(self.0)
    }
}

/// Identifier of a project policy: a UUID value.
#[derive(Clone, Copy, Debug, PartialEq, Eq, Structural, Hash, PartialOrd, Ord)]
pub struct ProjectPolicyId(pub u128);

impl ProjectPolicyId {
    /// The hyphenated text of the id, as `Display` renders it.
    pub fn to_display_string(&self) -> (res: String)
        ensures
            res@ == uuid_text(self.0),
    {
        uuid_to_text(self.0)
    }
}

/// Identifier of a token: a UUID value.
#[derive(Clone, Copy, Debug, PartialEq, Eq, Structural, Hash, PartialOrd, Ord)]
pub struct TokenId(pub u128);

impl TokenId {
    /// The hyphenated text of the id, as `Display` renders it.
    pub fn to_display_string(&self) -> (res: String)
        ensures
            res@ == uuid_text(self.0),
    {
        uuid_to_text(self.0)
    }
}

proof fn lemma_pow16_pos(e: nat)
    ensures
        pow16(e) > 0,
    decreases e,
{
    if e > 0 {
        lemma_pow16_pos((e - 1) as nat);
    }
}

/// Reading one more digit: the leading `m + 1` digits are the leading `m` digits times 16
/// plus digit `m`.
proof fn lemma_digit_prefix(v: u128, m: nat)
    requires
        m < 32,
    ensures
        (v as nat) / pow16((31 - m) as nat) == ((v as nat) / pow16((32 - m) as nat)) * 16
            + uuid_nibble(v, m as int),
{
    let c = pow16((31 - m) as nat);
    lemma_pow16_pos((31 - m) as nat);
    let x = (v as nat) / c;
    assert(pow16((32 - m) as nat) == 16 * c);
    lemma_div_denominator(v as int, c as int, 16);
    assert(c * 16 == 16 * c) by (nonlinear_arith);
    lemma_fundamental_div_mod(x as int, 16);
}

proof fn lemma_same_leading_digits(v1: u128, v2: u128, m: nat)
    requires
        m <= 32,
        forall|k: int| 0 <= k < 32 ==> uuid_nibble(v1, k) == uuid_nibble(v2, k),
    ensures
        (v1 as nat) / pow16((32 - m) as nat) == (v2 as nat) / pow16((32 - m) as nat),
    decreases m,
{
    if m == 0 {
        reveal_with_fuel(pow16, 33);
        let p = pow16(32);
        assert(p == 0x1_0000_0000_0000_0000_0000_0000_0000_0000nat);
        vstd::arithmetic::div_mod::lemma_basic_div(v1 as int, p as int);
        vstd::arithmetic::div_mod::lemma_basic_div(v2 as int, p as int);
    } else {
        let j = (m - 1) as nat;
        lemma_same_leading_digits(v1, v2, j);
        lemma_digit_prefix(v1, j);
        lemma_digit_prefix(v2, j);
        assert((32 - j) as nat == (33 - m) as nat);
        assert((31 - j) as nat == (32 - m) as nat);
        assert(uuid_nibble(v1, j as int) == uuid_nibble(v2, j as int));
    }
}

/// Two values with the same 32 hexadecimal digits are equal.
pub proof fn lemma_same_digits_same_value(v1: u128, v2: u128)
    requires
        forall|k: int| 0 <= k < 32 ==> uuid_nibble(v1, k) == uuid_nibble(v2, k),
    ensures
        v1 == v2,
{
    lemma_same_leading_digits(v1, v2, 32);
    assert(pow16(0) == 1);
    assert((v1 as nat) / 1 == v1 as nat);
    assert((v2 as nat) / 1 == v2 as nat);
}

proof fn lemma_hyphenated_digits(t: Seq<char>, v1: u128, v2: u128)
    requires
        spells_hyphenated(t, v1),
        spells_hyphenated(t, v2),
    ensures
        forall|k: int| 0 <= k < 32 ==> uuid_nibble(v1, k) == uuid_nibble(v2, k),
{
    assert forall|k: int| 0 <= k < 32 implies uuid_nibble(v1, k) == uuid_nibble(v2, k) by {
        if k < 8 {
            assert(hex_value(t.subrange(0, 8)[k]) == uuid_nibble(v1, k));
            assert(hex_value(t.subrange(0, 8)[k]) == uuid_nibble(v2, k));
        } else if k < 12 {
            assert(hex_value(t.subrange(9, 13)[k - 8]) == uuid_nibble(v1, k));
            assert(hex_value(t.subrange(9, 13)[k - 8]) == uuid_nibble(v2, k));
        } else if k < 16 {
            assert(hex_value(t.subrange(14, 18)[k - 12]) == uuid_nibble(v1, k));
            assert(hex_value(t.subrange(14, 18)[k - 12]) == uuid_nibble(v2, k));
        } else if k < 20 {
            assert(hex_value(t.subrange(19, 23)[k - 16]) == uuid_nibble(v1, k));
            assert(hex_value(t.subrange(19, 23)[k - 16]) == uuid_nibble(v2, k));
        } else {
            assert(hex_value(t.subrange(24, 36)[k - 20]) == uuid_nibble(v1, k));
            assert(hex_value(t.subrange(24, 36)[k - 20]) == uuid_nibble(v2, k));
        }
    }
}

/// A text spells at most one UUID value.
pub proof fn lemma_spelled_value_unique(t: Seq<char>, v1: u128, v2: u128)
    requires
        spells_uuid(t, v1),
        spells_uuid(t, v2),
    ensures
        v1 == v2,
{
    if t.len() == 32 {
        assert forall|k: int| 0 <= k < 32 implies uuid_nibble(v1, k) == uuid_nibble(v2, k) by {
            assert(hex_value(t[k]) == uuid_nibble(v1, k));
            assert(hex_value(t[k]) == uuid_nibble(v2, k));
        }
    } else if t.len() == 36 {
        lemma_hyphenated_digits(t, v1, v2);
    } else if t.len() == 38 {
        lemma_hyphenated_digits(t.subrange(1, 37), v1, v2);
    } else {
        lemma_hyphenated_digits(t.skip(9), v1, v2);
    }
    lemma_same_digits_same_value(v1, v2);
}

/// A text that spells `v` parses to `v`.
pub proof fn lemma_parse_uuid_text(t: Seq<char>, v: u128)
    requires
        spells_uuid(t, v),
    ensures
        parse_uuid_text(t) == Some(v),
{
    let w = choose|w: u128| spells_uuid(t, w);
    lemma_spelled_value_unique(t, v, w);
}

/// Every value reads back from its hyphenated text.
pub proof fn lemma_uuid_text_spells(v: u128)
    ensures
        spells_uuid(uuid_text(v), v),
{
    let t = uuid_text(v);
    assert forall|n: nat| n < 16 implies #[trigger] hex_value(hex_digit_lower(n)) == n by {}
    assert(t.subrange(0, 8) =~= hex_group(v, 0, 8));
    assert(t.subrange(9, 13) =~= hex_group(v, 8, 4));
    assert(t.subrange(14, 18) =~= hex_group(v, 12, 4));
    assert(t.subrange(19, 23) =~= hex_group(v, 16, 4));
    assert(t.subrange(24, 36) =~= hex_group(v, 20, 12));
    assert(spells_hyphenated(t, v));
}

/// Every value parses back from its hyphenated text.
pub proof fn lemma_uuid_text_roundtrip(v: u128)
    ensures
        parse_uuid_text(uuid_text(v)) == Some(v),
{
    lemma_uuid_text_spells(v);
    lemma_parse_uuid_text(uuid_text(v), v);
}

/// The UUID value whose high 64 bits are `high` and low 64 bits are `low`.
pub open spec fn uuid_of_halves(high: u64, low: u64) -> u128 {
    ((high as u128) << 64u128) | (low as u128)
}

/// The message form of a template id: its value split into high and low 64 bits.
pub open spec fn template_id_message(id: TemplateId) -> proto::golem::TemplateId {
    proto::golem::TemplateId {
        value: Some(proto::golem::Uuid { high_bits: (id.0 >> 64u128) as u64, low_bits: id.0 as u64 }),
    }
}

impl From<TemplateId> for proto::golem::TemplateId {
    fn from(value: TemplateId) -> (res: Self) {
        proto::golem::TemplateId {
            value: Some(proto::golem::Uuid { high_bits: (value.0 >> 64u128) as u64, low_bits: value.0 as u64 }),
        }
    }
}

impl vstd::std_specs::convert::FromSpecImpl<TemplateId> for proto::golem::TemplateId {
    open spec fn obeys_from_spec() -> bool {
        true
    }

    open spec fn from_spec(v: TemplateId) -> Self {
        template_id_message(v)
    }
}

impl TryFrom<proto::golem::TemplateId> for TemplateId {
    type Error = String;

    fn try_from(value: proto::golem::TemplateId) -> (res: Result<Self, String>)
        ensures
            match value.value {
                Some(u) => res == Ok::<TemplateId, String>(TemplateId(uuid_of_halves(u.high_bits, u.low_bits))),
                None => res matches Err(e) && e@ == "Missing field: value"@,
            },
    {
        match value.value {
            Some(u) => Ok(TemplateId(((u.high_bits as u128) << 64u128) | (u.low_bits as u128))),
            None => Err(String::from_str("Missing field: value")),
        }
    }
}

impl vstd::std_specs::convert::TryFromSpecImpl<proto::golem::TemplateId> for TemplateId {
    open spec fn obeys_try_from_spec() -> bool {
        false
    }

    open spec fn try_from_spec(v: proto::golem::TemplateId) -> Result<Self, String> {
        arbitrary()
    }
}

/// Splitting a value into its halves and joining them again gives the value back.
pub proof fn lemma_uuid_halves_roundtrip(v: u128)
    ensures
        uuid_of_halves((v >> 64u128) as u64, v as u64) == v,
{
    assert((((v >> 64u128) as u64) as u128) << 64u128 | ((v as u64) as u128) == v) by (bit_vector);
}

} // verus!
