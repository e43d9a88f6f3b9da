use vstd::prelude::*;
use crate::error::AppError;
use rand::Rng;

verus! {

/// The kinds of business code the platform issues.
#[derive(Clone, Copy, Debug, PartialEq, Eq, Structural)]
pub enum CodeType {
    Order,
    ReconciliationStatement,
}

pub open spec fn code_prefix(t: CodeType) -> Seq<char> {
    match t {
        CodeType::Order => "ODR"@,
        CodeType::ReconciliationStatement => "RS"@,
    }
}

/// The letters a code suffix is drawn from.
pub open spec fn suffix_alphabet() -> Seq<char> {
    "ABCDEFGHIJKLMNOPQRSTUVWXYZ"@
}

/// One of the letters of the suffix alphabet.
pub open spec fn is_suffix_letter(c: char) -> bool {
    exists|j: int| 0 <= j < 26 && c == #[trigger] suffix_alphabet()[j]
}

/// Four letters of the suffix alphabet.
pub open spec fn is_code_suffix(s: Seq<char>) -> bool {
    &&& s.len() == 4
    &&& forall|k: int| 0 <= k < 4 ==> is_suffix_letter(#[trigger] s[k])
}

/// `{PREFIX}-{timestamp}-{suffix}`.
pub open spec fn spec_code(t: CodeType, timestamp: Seq<char>, suffix: Seq<char>) -> Seq<char> {
    code_prefix(t) + "-"@ + timestamp + "-"@ + suffix
}

/// Writes a code from its timestamp and suffix.
pub fn format_code(code_type: CodeType, timestamp: &str, suffix: &str) -> (code: String)
    ensures
        code@ == spec_code(code_type, timestamp@, suffix@),
{
    let mut code = match code_type {
        CodeType::Order => String::from_str("ODR"),
        CodeType::ReconciliationStatement => String::from_str("RS"),
    };
    code.append("-");
    code.append(timestamp);
    code.append("-");
    code.append(suffix);
    code
}

/// A decimal digit character.
pub open spec fn is_ascii_digit(c: char) -> bool {
    '0' <= c && c <= '9'
}

/// What `%Y%m%d%H%M%S%3f` writes for a time from 1970 on: the year (four
/// digits up to 9999, after that a `+` and five or six digits), then month,
/// day, hour, minute, second and millisecond as thirteen digits.
pub open spec fn is_timestamp_text(t: Seq<char>) -> bool {
    &&& 17 <= t.len() <= 20
    &&& forall|k: int| t.len() - 13 <= k < t.len() ==> is_ascii_digit(#[trigger] t[k])
}

/// `chrono::Utc::now().format("%Y%m%d%H%M%S%3f").to_string()`: the current
/// UTC time down to the millisecond. It depends on the clock. Claimed: the
/// text has the shape `is_timestamp_text` says, since `Utc::now` never reads
/// a time before 1970 (it panics on such a clock) nor after chrono's last year.
#[verifier::external_body]
fn utc_timestamp_text() -> (s: String)
    ensures
        is_timestamp_text(s@),
{
    chrono::Utc::now().format("%Y%m%d%H%M%S%3f").to_string()
}

/// `rand::thread_rng().gen_range(0..bound)`: a uniformly drawn number.
/// Claimed: it lies below `bound`.
#[verifier::external_body]
fn random_below(bound: u32) -> (r: u32)
    requires
        bound > 0,
    ensures
        r < bound,
{
    rand::thread_rng().gen_range(0..bound)
}

/// Four uniformly drawn capital letters.
pub fn random_code_suffix() -> (s: String)
    ensures
        is_code_suffix(s@),
{
    let alphabet = "ABCDEFGHIJKLMNOPQRSTUVWXYZ";
    proof {
        reveal_strlit("ABCDEFGHIJKLMNOPQRSTUVWXYZ");
    }
    let mut s = String::new();
    let mut k: usize = 0;
    while k < 4
        invariant
            k <= 4,
            alphabet@ == suffix_alphabet(),
            alphabet@.len() == 26,
            s@.len() == k,
            forall|i: int| 0 <= i < k ==> is_suffix_letter(#[trigger] s@[i]),
        decreases 4 - k,
    {
        let j = random_below(26) as usize;
        let letter = alphabet.substring_char(j, j + 1);
        let ghost before = s@;
        s.append(letter);
        proof {
            assert(letter@.len() == 1);
            assert(s@[k as int] == suffix_alphabet()[j as int]);
            assert forall|i: int| 0 <= i < k + 1 implies is_suffix_letter(#[trigger] s@[i]) by {
                if i < k {
                    assert(s@[i] == before[i]);
                } else {
                    assert(s@[i] == suffix_alphabet()[j as int]);
                }
            }
        }
        k = k + 1;
    }
    s
}

/// A new order or reconciliation statement code: `ODR-` or `RS-`, the current
/// UTC time as `YYYYMMDDhhmmssSSS`, `-`, and four random capital letters.
/// An order code is 26 characters long (up to 29 after the year 9999), a
/// statement code one less.
pub fn generate_code(code_type: CodeType) -> (code: String)
    ensures
        exists|timestamp: Seq<char>, suffix: Seq<char>|
            is_timestamp_text(timestamp) && is_code_suffix(suffix) && code@ == #[trigger] spec_code(
                code_type,
                timestamp,
                suffix,
            ),
        code_type == CodeType::Order ==> 26 <= code@.len() <= 29,
        code_type == CodeType::ReconciliationStatement ==> 25 <= code@.len() <= 28,
{
    let timestamp = utc_timestamp_text();
    let suffix = random_code_suffix();
    let code = format_code(code_type, timestamp.as_str(), suffix.as_str());
    proof {
        reveal_strlit("ODR");
        reveal_strlit("RS");
        reveal_strlit("-");
    }
    assert(code@ == spec_code(code_type, timestamp@, suffix@));
    code
}

/// The characters a tenant hash is made of (no `l`, `o`, `0` or `1`).
pub open spec fn hash_charset() -> Seq<char> {
    "abcdefghijkmnpqrstuvwxyz23456789"@
}

/// The tenant hash made of the first eight of `bytes`: each byte picks the
/// character `hash_charset()[byte % 32]`.
pub open spec fn spec_tenant_hash(bytes: Seq<u8>) -> Seq<char> {
    Seq::new(8, |i: int| hash_charset()[(bytes[i] % 32) as int])
}

/// `uuid::Uuid::new_v4().as_bytes()`: the sixteen bytes of a random UUID.
/// Random; claimed only that there are sixteen of them.
#[verifier::external_body]
fn uuid_v4_bytes() -> (bytes: Vec<u8>)
    ensures
        bytes@.len() == 16,
{
    uuid::Uuid::new_v4().as_bytes().to_vec()
}

/// The tenant hash written by the first eight of `bytes`.
pub fn tenant_hash_from_bytes(bytes: &Vec<u8>) -> (hash: String)
    requires
        bytes@.len() >= 8,
    ensures
        hash@ == spec_tenant_hash(bytes@),
{
    let charset = "abcdefghijkmnpqrstuvwxyz23456789";
    proof {
        reveal_strlit("abcdefghijkmnpqrstuvwxyz23456789");
    }
    let mut hash = String::new();
    let mut i: usize = 0;
    while i < 8
        invariant
            i <= 8,
            bytes@.len() >= 8,
            charset@ == hash_charset(),
            charset@.len() == 32,
            hash@ =~= spec_tenant_hash(bytes@).take(i as int),
        decreases 8 - i,
    {
        let k = (bytes[i] % 32) as usize;
        let c = charset.substring_char(k, k + 1);
        hash.append(c);
        assert(hash@ =~= spec_tenant_hash(bytes@).take(i as int + 1));
        i = i + 1;
    }
    assert(spec_tenant_hash(bytes@).take(8) =~= spec_tenant_hash(bytes@));
    hash
}

/// A new hash that identifies a tenant: eight characters of `hash_charset()`,
/// drawn from a random UUID. A tenant without a name gets none:
/// `Validation("Tenant name cannot be empty")`.
pub fn generate_tenant_name_hash(name: &str) -> (r: Result<String, AppError>)
    ensures
        name@.len() == 0 ==> (r matches Err(AppError::Validation(m)) && m@ == "Tenant name cannot be empty"@),
        name@.len() > 0 ==> (r matches Ok(h) && exists|bytes: Seq<u8>| bytes.len() == 16 && h@
            == #[trigger] spec_tenant_hash(bytes)),
{
    if name.unicode_len() == 0 {
        return Err(AppError::validation("Tenant name cannot be empty"));
    }
    let bytes = uuid_v4_bytes();
    let hash = tenant_hash_from_bytes(&bytes);
    assert(hash@ == spec_tenant_hash(bytes@));
    Ok(hash)
}

} // verus!
