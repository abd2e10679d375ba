//! UUIDs between Rust and Java. On the Rust side a UUID is its 128-bit value;
//! Java's `java.util.UUID` holds it as two signed 64-bit halves.
use vstd::prelude::*;

verus! {

/// 2 to the 64th: the weight of the high half of a UUID.
pub open spec fn half_weight() -> int {
    0x1_0000_0000_0000_0000
}

/// `uuid::Uuid::from_u64_pair` followed by `Uuid::as_u128`: the UUID whose
/// high 64 bits are `high` and low 64 bits are `low`, as its 128-bit value.
#[verifier::external_body]
fn uuid_from_u64_pair(high: u64, low: u64) -> (r: u128)
    ensures
        r as int == high as int * half_weight() + low as int,
{
    ::uuid::Uuid::from_u64_pair(high, low).as_u128()
}

/// `uuid::Uuid::from_u128` followed by `Uuid::as_u64_pair`: the high and the
/// low 64 bits of the UUID with the given 128-bit value.
#[verifier::external_body]
fn uuid_as_u64_pair(value: u128) -> (r: (u64, u64))
    ensures
        r.0 as int == value as int / half_weight(),
        r.1 as int == value as int % half_weight(),
{
    ::uuid::Uuid::from_u128(value).as_u64_pair()
}

/// The UUID that a Java `UUID` with these most and least significant bits
/// stands for.
pub open spec fn uuid_from_java_spec(most_significant_bits: i64, least_significant_bits: i64) -> u128 {
    (most_significant_bits as u64 as int * half_weight() + least_significant_bits as u64 as int) as u128
}

/// The most and least significant bits of the Java `UUID` for a UUID.
pub open spec fn uuid_to_java_spec(uuid: u128) -> (i64, i64) {
    ((uuid as int / half_weight()) as u64 as i64, (uuid as int % half_weight()) as u64 as i64)
}

/// Converts the two halves of a Java `UUID` (from `getMostSignificantBits`
/// and `getLeastSignificantBits`).
pub fn java_uuid_to_rust(most_significant_bits: i64, least_significant_bits: i64) -> (r: u128)
    ensures
        r == uuid_from_java_spec(most_significant_bits, least_significant_bits),
{
    uuid_from_u64_pair(
        #[verifier::truncate] (most_significant_bits as u64),
        #[verifier::truncate] (least_significant_bits as u64),
    )
}

/// The two halves with which a Java `UUID` is constructed for a UUID.
pub fn rust_java_uuid(uuid: u128) -> (r: (i64, i64))
    ensures
        r == uuid_to_java_spec(uuid),
{
    let (high, low) = uuid_as_u64_pair(uuid);
    (#[verifier::truncate] (high as i64), #[verifier::truncate] (low as i64))
}

proof fn signed_round_trip(x: i64)
    ensures
        x as u64 as i64 == x,
{
    assert(x as u64 as i64 == x) by (bit_vector);
}

proof fn unsigned_round_trip(x: u64)
    ensures
        x as i64 as u64 == x,
{
    assert(x as i64 as u64 == x) by (bit_vector);
}

/// A UUID sent to Java and read back is the same UUID.
pub proof fn uuid_round_trip(uuid: u128)
    ensures
        uuid_from_java_spec(uuid_to_java_spec(uuid).0, uuid_to_java_spec(uuid).1) == uuid,
{
    let h = uuid as int / half_weight();
    let l = uuid as int % half_weight();
    assert(0 <= h < half_weight());
    assert(0 <= l < half_weight());
    unsigned_round_trip(h as u64);
    unsigned_round_trip(l as u64);
    assert(h * half_weight() + l == uuid as int);
}

/// The halves of a Java UUID read into Rust and sent back are the same halves.
pub proof fn java_uuid_round_trip(most_significant_bits: i64, least_significant_bits: i64)
    ensures
        uuid_to_java_spec(uuid_from_java_spec(most_significant_bits, least_significant_bits))
            == (most_significant_bits, least_significant_bits),
{
    let h = most_significant_bits as u64 as int;
    let l = least_significant_bits as u64 as int;
    let v = h * half_weight() + l;
    assert(0 <= v < half_weight() * half_weight()) by (nonlinear_arith)
        requires
            0 <= h < half_weight(),
            0 <= l < half_weight(),
            v == h * half_weight() + l,
    ;
    assert(v / half_weight() == h && v % half_weight() == l) by (nonlinear_arith)
        requires
            0 <= h < half_weight(),
            0 <= l < half_weight(),
            v == h * half_weight() + l,
    ;
    signed_round_trip(most_significant_bits);
    signed_round_trip(least_significant_bits);
}

/// The UUID of a Java `UUID` is the unsigned value of its most significant
/// half times 2^64 plus the unsigned value of its least significant half; the
/// halves sent to Java for a UUID are its high and low 64 bits, each as the
/// signed value with the same bits.
pub proof fn uuid_halves_meaning(most_significant_bits: i64, least_significant_bits: i64, uuid: u128)
    ensures
        uuid_from_java_spec(most_significant_bits, least_significant_bits) as int
            == most_significant_bits as u64 as int * 0x1_0000_0000_0000_0000
            + least_significant_bits as u64 as int,
        uuid_to_java_spec(uuid).0 as u64 as int == uuid as int / 0x1_0000_0000_0000_0000,
        uuid_to_java_spec(uuid).1 as u64 as int == uuid as int % 0x1_0000_0000_0000_0000,
{
    let h = most_significant_bits as u64 as int;
    let l = least_significant_bits as u64 as int;
    assert(0 <= h * 0x1_0000_0000_0000_0000 + l < 0x1_0000_0000_0000_0000 * 0x1_0000_0000_0000_0000)
        by (nonlinear_arith)
        requires
            0 <= h < 0x1_0000_0000_0000_0000,
            0 <= l < 0x1_0000_0000_0000_0000,
    ;
    let hi = uuid as int / 0x1_0000_0000_0000_0000;
    let lo = uuid as int % 0x1_0000_0000_0000_0000;
    unsigned_round_trip(hi as u64);
    unsigned_round_trip(lo as u64);
}

} // verus!
