//! Byte arrays between Rust and Java. Java bytes are signed; the same bits
//! are read as unsigned bytes on the Rust side and back.
use vstd::prelude::*;

verus! {

/// A copy of the bytes.
pub fn copy_bytes(data: &[u8]) -> (r: Vec<u8>)
    ensures
        r@ == data@,
{
    let mut r: Vec<u8> = Vec::new();
    let mut i: usize = 0;
    while i < data.len()
        invariant
            i <= data@.len(),
            r@ == data@.take(i as int),
        decreases data@.len() - i,
    {
        r.push(data[i]);
        i = i + 1;
        assert(r@ =~= data@.take(i as int));
    }
    assert(data@.take(data@.len() as int) =~= data@);
    r
}

/// The unsigned bytes with the same bits as the signed bytes of a Java array.
pub open spec fn unsigned_bytes(data: Seq<i8>) -> Seq<u8> {
    data.map_values(|b: i8| b as u8)
}

/// The signed (Java) bytes with the same bits as the unsigned bytes.
pub open spec fn signed_bytes(data: Seq<u8>) -> Seq<i8> {
    data.map_values(|b: u8| b as i8)
}

/// Reads the contents of a Java byte array as unsigned bytes.
pub fn java_byte_array_to_rust(java_array: &[i8]) -> (r: Vec<u8>)
    ensures
        r@ == unsigned_bytes(java_array@),
{
    let mut r: Vec<u8> = Vec::new();
    let mut i: usize = 0;
    while i < java_array.len()
        invariant
            i <= java_array@.len(),
            r@ == unsigned_bytes(java_array@.take(i as int)),
        decreases java_array@.len() - i,
    {
        r.push(java_array[i] as u8);
        i = i + 1;
        assert(r@ =~= unsigned_bytes(java_array@.take(i as int)));
    }
    assert(java_array@.take(java_array@.len() as int) =~= java_array@);
    r
}

/// The contents of a Java byte array that holds the given unsigned bytes.
pub fn rust_slice_to_java_byte_array(slice: &[u8]) -> (r: Vec<i8>)
    ensures
        r@ == signed_bytes(slice@),
{
    let mut r: Vec<i8> = Vec::new();
    let mut i: usize = 0;
    while i < slice.len()
        invariant
            i <= slice@.len(),
            r@ == signed_bytes(slice@.take(i as int)),
        decreases slice@.len() - i,
    {
        r.push(slice[i] as i8);
        i = i + 1;
        assert(r@ =~= signed_bytes(slice@.take(i as int)));
    }
    assert(slice@.take(slice@.len() as int) =~= slice@);
    r
}

/// Reading a Java byte array back after writing unsigned bytes into it gives
/// the same bytes: the conversion loses nothing.
pub proof fn byte_conversion_round_trip(data: Seq<u8>)
    ensures
        unsigned_bytes(signed_bytes(data)) == data,
{
    assert forall|i: int| 0 <= i < data.len() implies #[trigger] unsigned_bytes(
        signed_bytes(data),
    )[i] == data[i] by {
        let b = data[i];
        assert((b as i8) as u8 == b) by (bit_vector);
    }
    assert(unsigned_bytes(signed_bytes(data)) =~= data);
}

/// Writing the bytes of a Java byte array as unsigned bytes and back gives the
/// same Java bytes.
pub proof fn java_byte_round_trip(data: Seq<i8>)
    ensures
        signed_bytes(unsigned_bytes(data)) == data,
{
    assert forall|i: int| 0 <= i < data.len() implies #[trigger] signed_bytes(
        unsigned_bytes(data),
    )[i] == data[i] by {
        let b = data[i];
        assert((b as u8) as i8 == b) by (bit_vector);
    }
    assert(signed_bytes(unsigned_bytes(data)) =~= data);
}

/// Reading Java bytes as unsigned keeps their number and gives each byte the
/// unsigned value with the same bits; writing unsigned bytes into a Java
/// array likewise.
pub proof fn byte_conversion_meaning(signed: Seq<i8>, unsigned: Seq<u8>)
    ensures
        unsigned_bytes(signed).len() == signed.len(),
        forall|i: int| 0 <= i < signed.len() ==> #[trigger] unsigned_bytes(signed)[i] == signed[i] as u8,
        signed_bytes(unsigned).len() == unsigned.len(),
        forall|i: int| 0 <= i < unsigned.len() ==> #[trigger] signed_bytes(unsigned)[i] == unsigned[i] as i8,
{
}

} // verus!
