//! The byte-reinterpretation bridge.
//!
//! Typed arrays cross into raw byte payloads for bulk buffer and texture
//! upload, and back.  The encoding is per element, components in order,
//! each scalar little-endian.  Reading back an array rejects a byte run
//! whose length is not a multiple of the element's encoded width, rather
//! than silently truncating.

use crate::data::DataType;
use crate::error::CoreError;
use vstd::arithmetic::div_mod::{lemma_mod_add_multiples_vanish, lemma_mod_multiples_basic};
use vstd::prelude::*;

verus! {

/// The byte encoding of a whole array: each value's encoding, in array
/// order.
pub open spec fn spec_to_bytes<T: DataType>(s: Seq<T>) -> Seq<u8> {
    s.flat_map(|v: T| v.bytes_spec())
}

/// The values decoded from a byte run, one per chunk of the type's encoded
/// width, in order; a trailing partial chunk decodes to nothing.
pub open spec fn spec_from_bytes<T: DataType>(b: Seq<u8>) -> Seq<T>
    decreases b.len(),
{
    if T::byte_len_spec() == 0 || b.len() < T::byte_len_spec() {
        Seq::empty()
    } else {
        seq![T::decode_spec(b.take(T::byte_len_spec() as int))] + spec_from_bytes::<T>(
            b.skip(T::byte_len_spec() as int),
        )
    }
}

/// Encodes a typed array as one raw byte run.
pub fn to_byte_slice<T: DataType>(data: &Vec<T>) -> (r: Vec<u8>)
    ensures
        r@ == spec_to_bytes(data@),
{
    let ghost bf = |v: T| v.bytes_spec();
    let mut out: Vec<u8> = Vec::new();
    proof {
        assert(data@.take(0).map_values(bf) =~= Seq::<Seq<u8>>::empty());
        assert(out@ =~= data@.take(0).flat_map(bf));
    }
    let mut i: usize = 0;
    while i < data.len()
        invariant
            i <= data.len(),
            out@ == data@.take(i as int).flat_map(bf),
            bf == (|v: T| v.bytes_spec()),
        decreases data.len() - i,
    {
        let v = data[i];
        v.append_bytes(&mut out);
        proof {
            data@.lemma_flat_map_take_append(bf, i as int);
            assert(out@ =~= data@.take(i as int).flat_map(bf) + bf(data@[i as int]));
        }
        i += 1;
    }
    proof {
        assert(data@.take(data.len() as int) =~= data@);
    }
    out
}

/// Decodes a raw byte run back into a typed array.  Fails exactly when the
/// run's length is not a multiple of the type's encoded width; the error
/// carries the nearest valid length and the actual length.
pub fn from_byte_slice<T: DataType>(bytes: &[u8]) -> (r: Result<Vec<T>, CoreError>)
    ensures
        r is Ok <==> bytes@.len() as int % T::byte_len_spec() as int == 0,
        r is Ok ==> r->Ok_0@ == spec_from_bytes::<T>(bytes@),
        r is Err ==> (r->Err_0 matches CoreError::InvalidBufferLength(label, want, got)
            && label@ == "byte"@ && want == bytes@.len() as int / T::byte_len_spec() as int
            * T::byte_len_spec() as int && got == bytes@.len()),
{
    proof {
        T::lemma_byte_len_pos();
    }
    let n = bytes.len();
    let l = T::byte_len();
    if n % l != 0 {
        proof {
            vstd::arithmetic::div_mod::lemma_fundamental_div_mod(n as int, l as int);
        }
        return Err(CoreError::InvalidBufferLength("byte".to_owned(), n / l * l, n));
    }
    let mut out: Vec<T> = Vec::new();
    proof {
        assert(out@ + spec_from_bytes::<T>(bytes@.skip(0)) =~= spec_from_bytes::<T>(
            bytes@.skip(0),
        ));
        assert(bytes@.skip(0) =~= bytes@);
    }
    let mut i: usize = 0;
    while i < n
        invariant
            bytes@.len() == n,
            l == T::byte_len_spec(),
            l > 0,
            i <= n,
            i % l == 0,
            n % l == 0,
            spec_from_bytes::<T>(bytes@) == out@ + spec_from_bytes::<T>(bytes@.skip(i as int)),
        decreases n - i,
    {
        proof {
            assert(i + l <= n) by (nonlinear_arith)
                requires
                    i < n,
                    i % l == 0,
                    n % l == 0,
                    l > 0,
            ;
        }
        let v = T::decode_at(bytes, i);
        out.push(v);
        proof {
            let li = l as int;
            assert(bytes@.skip(i as int).take(li) =~= bytes@.subrange(i as int, i as int + li));
            assert(bytes@.skip(i as int).skip(li) =~= bytes@.skip(i as int + li));
            assert(out@ =~= (out@.drop_last()).push(v));
            assert(spec_from_bytes::<T>(bytes@) =~= out@ + spec_from_bytes::<T>(
                bytes@.skip(i as int + li),
            ));
            lemma_mod_add_multiples_vanish(i as int, l as int);
        }
        i += l;
    }
    proof {
        assert(bytes@.skip(n as int).len() == 0);
        assert(out@ + spec_from_bytes::<T>(bytes@.skip(n as int)) =~= out@);
    }
    Ok(out)
}

/// Law: decoding inverts encoding.  The byte run of any typed array has
/// length a multiple of the element width, and reading it back yields the
/// original array.
pub proof fn lemma_byte_round_trip<T: DataType>(s: Seq<T>)
    ensures
        spec_to_bytes::<T>(s).len() == s.len() * T::byte_len_spec(),
        spec_to_bytes::<T>(s).len() as int % T::byte_len_spec() as int == 0,
        spec_from_bytes::<T>(spec_to_bytes(s)) == s,
    decreases s.len(),
{
    T::lemma_byte_len_pos();
    let bf = |v: T| v.bytes_spec();
    if s.len() == 0 {
        assert(s.map_values(bf) =~= Seq::<Seq<u8>>::empty());
        assert(spec_to_bytes::<T>(s) =~= Seq::<u8>::empty());
        assert(spec_from_bytes::<T>(spec_to_bytes(s)) =~= s);
        assert(s.len() * T::byte_len_spec() == 0) by (nonlinear_arith)
            requires
                s.len() == 0,
        ;
        lemma_mod_multiples_basic(0, T::byte_len_spec() as int);
    } else {
        let t = s.drop_first();
        assert(s.map_values(bf).drop_first() =~= t.map_values(bf));
        assert(s.map_values(bf).first() == bf(s[0]));
        assert(spec_to_bytes::<T>(s) == bf(s[0]) + spec_to_bytes::<T>(t));
        s[0].lemma_wf();
        lemma_byte_round_trip::<T>(t);
        let b = spec_to_bytes::<T>(s);
        let li = T::byte_len_spec() as int;
        assert(b.take(li) =~= s[0].bytes_spec());
        assert(b.skip(li) =~= spec_to_bytes::<T>(t));
        assert(b.len() == s.len() * T::byte_len_spec()) by (nonlinear_arith)
            requires
                b.len() == T::byte_len_spec() + t.len() * T::byte_len_spec(),
                s.len() == t.len() + 1,
        ;
        lemma_mod_multiples_basic(s.len() as int, T::byte_len_spec() as int);
        assert(seq![s[0]] + t =~= s);
    }
}

} // verus!
