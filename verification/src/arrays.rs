//! Fixed-size arrays as vector shapes.
//!
//! A 2-, 3- or 4-element array of a scalar kind classifies exactly like
//! the named-field vector of the same arity: same rank, same storage
//! format, same flattening order and the same byte encoding.

use crate::data::{
    DataType, PrimitiveDataType, UniformTransfer, UniformType, Wide, WideData, WideKind,
};
use crate::error::CoreError;
use crate::flat::lemma_map_of_flat_map;
use crate::kind::BaseKind;
use vstd::prelude::*;

verus! {

broadcast use vstd::array::group_array_axioms;

impl<T: PrimitiveDataType> DataType for [T; 2] {
    open spec fn base_kind_spec() -> BaseKind {
        T::base_kind_spec()
    }

    open spec fn size_spec() -> u32 {
        2
    }

    open spec fn rank_spec() -> UniformType {
        UniformType::Vec2
    }

    open spec fn wide_kind_spec() -> WideKind {
        T::wide_kind_spec()
    }

    open spec fn wide_flat_spec(self) -> Seq<Wide> {
        seq![self@[0].promote_spec(), self@[1].promote_spec()]
    }

    open spec fn bytes_spec(self) -> Seq<u8> {
        self@[0].bytes_spec() + self@[1].bytes_spec()
    }

    open spec fn byte_len_spec() -> nat {
        2 * T::byte_len_spec()
    }

    open spec fn decode_spec(b: Seq<u8>) -> [T; 2] {
        let l = T::byte_len_spec() as int;
        choose|a: [T; 2]|
            #[trigger] a@ == seq![
                T::decode_spec(b.subrange(0, l)),
                T::decode_spec(b.subrange(l, 2 * l)),
            ]
    }

    proof fn lemma_byte_len_pos() {
        T::lemma_scalar_width();
    }

    proof fn lemma_wf(self) {
        let l = T::byte_len_spec() as int;
        self@[0].lemma_wf();
        self@[1].lemma_wf();
        let b = self.bytes_spec();
        assert(b.subrange(0, l) =~= self@[0].bytes_spec());
        assert(b.subrange(l, 2 * l) =~= self@[1].bytes_spec());
        let d = Self::decode_spec(b);
        assert(self@ == seq![
            T::decode_spec(b.subrange(0, l)),
            T::decode_spec(b.subrange(l, 2 * l)),
        ]) by {
            assert(self@ =~= seq![self@[0], self@[1]]);
        }
        assert(d@ =~= self@);
    }

    fn internal_format() -> u32 {
        T::internal_format_with_size(2)
    }

    fn data_type() -> u32 {
        T::data_type()
    }

    fn size() -> u32 {
        2
    }

    fn send_uniform(data: &Vec<[T; 2]>) -> (r: Result<UniformTransfer, CoreError>) {
        let ghost el = |v: [T; 2]| seq![v@[0], v@[1]];
        let mut flat: Vec<T> = Vec::new();
        proof {
            assert(data@.take(0).map_values(el) =~= Seq::<Seq<T>>::empty());
            assert(flat@ =~= data@.take(0).flat_map(el));
        }
        let mut i: usize = 0;
        while i < data.len()
            invariant
                i <= data.len(),
                flat@ == data@.take(i as int).flat_map(el),
                el == (|v: [T; 2]| seq![v@[0], v@[1]]),
            decreases data.len() - i,
        {
            let v = data[i];
            flat.push(v[0]);
            flat.push(v[1]);
            proof {
                data@.lemma_flat_map_take_append(el, i as int);
                assert(flat@ =~= data@.take(i as int).flat_map(el) + el(data@[i as int]));
            }
            i += 1;
        }
        proof {
            assert(data@.take(data.len() as int) =~= data@);
        }
        let r = T::send_uniform_with_type(&flat, UniformType::Vec2);
        proof {
            let pm = |v: T| v.promote_spec();
            let wf = |v: [T; 2]| v.wide_flat_spec();
            assert forall|j: int| 0 <= j < data@.len() implies wf(data@[j]) == el(
                data@[j],
            ).map_values(pm) by {
                assert(el(data@[j]).map_values(pm) =~= data@[j].wide_flat_spec());
            }
            lemma_map_of_flat_map(data@, el, pm, wf);
        }
        r
    }

    fn byte_len() -> usize {
        proof {
            T::lemma_scalar_width();
        }
        2 * T::byte_len()
    }

    fn append_bytes(&self, out: &mut Vec<u8>) {
        let s: &[T] = self.as_slice();
        s[0].append_bytes(out);
        s[1].append_bytes(out);
        proof {
            assert(out@ =~= old(out)@ + self.bytes_spec());
        }
    }

    fn decode_at(bytes: &[u8], i: usize) -> (r: [T; 2]) {
        proof {
            T::lemma_scalar_width();
        }
        // The call binds the slice length, whose usize bound the offset
        // arithmetic below needs.
        let n = bytes.len();
        let l = T::byte_len();
        let x = T::decode_at(bytes, i);
        let y = T::decode_at(bytes, i + l);
        let r: [T; 2] = [x, y];
        proof {
            let li = T::byte_len_spec() as int;
            let sub = bytes@.subrange(i as int, i + Self::byte_len_spec());
            assert(sub.subrange(0, li) =~= bytes@.subrange(i as int, i as int + li));
            assert(sub.subrange(li, 2 * li) =~= bytes@.subrange(i as int + li, i as int + 2 * li));
            let d = Self::decode_spec(sub);
            assert(r@ =~= seq![
                T::decode_spec(sub.subrange(0, li)),
                T::decode_spec(sub.subrange(li, 2 * li)),
            ]);
            assert(d@ =~= r@);
        }
        r
    }
}

impl<T: PrimitiveDataType> DataType for [T; 3] {
    open spec fn base_kind_spec() -> BaseKind {
        T::base_kind_spec()
    }

    open spec fn size_spec() -> u32 {
        3
    }

    open spec fn rank_spec() -> UniformType {
        UniformType::Vec3
    }

    open spec fn wide_kind_spec() -> WideKind {
        T::wide_kind_spec()
    }

    open spec fn wide_flat_spec(self) -> Seq<Wide> {
        seq![self@[0].promote_spec(), self@[1].promote_spec(), self@[2].promote_spec()]
    }

    open spec fn bytes_spec(self) -> Seq<u8> {
        self@[0].bytes_spec() + self@[1].bytes_spec() + self@[2].bytes_spec()
    }

    open spec fn byte_len_spec() -> nat {
        3 * T::byte_len_spec()
    }

    open spec fn decode_spec(b: Seq<u8>) -> [T; 3] {
        let l = T::byte_len_spec() as int;
        choose|a: [T; 3]|
            #[trigger] a@ == seq![
                T::decode_spec(b.subrange(0, l)),
                T::decode_spec(b.subrange(l, 2 * l)),
                T::decode_spec(b.subrange(2 * l, 3 * l)),
            ]
    }

    proof fn lemma_byte_len_pos() {
        T::lemma_scalar_width();
    }

    proof fn lemma_wf(self) {
        let l = T::byte_len_spec() as int;
        self@[0].lemma_wf();
        self@[1].lemma_wf();
        self@[2].lemma_wf();
        let b = self.bytes_spec();
        assert(b.subrange(0, l) =~= self@[0].bytes_spec());
        assert(b.subrange(l, 2 * l) =~= self@[1].bytes_spec());
        assert(b.subrange(2 * l, 3 * l) =~= self@[2].bytes_spec());
        let d = Self::decode_spec(b);
        assert(self@ == seq![
            T::decode_spec(b.subrange(0, l)),
            T::decode_spec(b.subrange(l, 2 * l)),
            T::decode_spec(b.subrange(2 * l, 3 * l)),
        ]) by {
            assert(self@ =~= seq![self@[0], self@[1], self@[2]]);
        }
        assert(d@ =~= self@);
    }

    fn internal_format() -> u32 {
        T::internal_format_with_size(3)
    }

    fn data_type() -> u32 {
        T::data_type()
    }

    fn size() -> u32 {
        3
    }

    fn send_uniform(data: &Vec<[T; 3]>) -> (r: Result<UniformTransfer, CoreError>) {
        let ghost el = |v: [T; 3]| seq![v@[0], v@[1], v@[2]];
        let mut flat: Vec<T> = Vec::new();
        proof {
            assert(data@.take(0).map_values(el) =~= Seq::<Seq<T>>::empty());
            assert(flat@ =~= data@.take(0).flat_map(el));
        }
        let mut i: usize = 0;
        while i < data.len()
            invariant
                i <= data.len(),
                flat@ == data@.take(i as int).flat_map(el),
                el == (|v: [T; 3]| seq![v@[0], v@[1], v@[2]]),
            decreases data.len() - i,
        {
            let v = data[i];
            flat.push(v[0]);
            flat.push(v[1]);
            flat.push(v[2]);
            proof {
                data@.lemma_flat_map_take_append(el, i as int);
                assert(flat@ =~= data@.take(i as int).flat_map(el) + el(data@[i as int]));
            }
            i += 1;
        }
        proof {
            assert(data@.take(data.len() as int) =~= data@);
        }
        let r = T::send_uniform_with_type(&flat, UniformType::Vec3);
        proof {
            let pm = |v: T| v.promote_spec();
            let wf = |v: [T; 3]| v.wide_flat_spec();
            assert forall|j: int| 0 <= j < data@.len() implies wf(data@[j]) == el(
                data@[j],
            ).map_values(pm) by {
                assert(el(data@[j]).map_values(pm) =~= data@[j].wide_flat_spec());
            }
            lemma_map_of_flat_map(data@, el, pm, wf);
        }
        r
    }

    fn byte_len() -> usize {
        proof {
            T::lemma_scalar_width();
        }
        3 * T::byte_len()
    }

    fn append_bytes(&self, out: &mut Vec<u8>) {
        let s: &[T] = self.as_slice();
        s[0].append_bytes(out);
        s[1].append_bytes(out);
        s[2].append_bytes(out);
        proof {
            assert(out@ =~= old(out)@ + self.bytes_spec());
        }
    }

    fn decode_at(bytes: &[u8], i: usize) -> (r: [T; 3]) {
        proof {
            T::lemma_scalar_width();
        }
        // The call binds the slice length, whose usize bound the offset
        // arithmetic below needs.
        let n = bytes.len();
        let l = T::byte_len();
        let x = T::decode_at(bytes, i);
        let y = T::decode_at(bytes, i + l);
        let z = T::decode_at(bytes, i + 2 * l);
        let r: [T; 3] = [x, y, z];
        proof {
            let li = T::byte_len_spec() as int;
            let sub = bytes@.subrange(i as int, i + Self::byte_len_spec());
            assert(sub.subrange(0, li) =~= bytes@.subrange(i as int, i as int + li));
            assert(sub.subrange(li, 2 * li) =~= bytes@.subrange(i as int + li, i as int + 2 * li));
            assert(sub.subrange(2 * li, 3 * li) =~= bytes@.subrange(
                i as int + 2 * li,
                i as int + 3 * li,
            ));
            let d = Self::decode_spec(sub);
            assert(r@ =~= seq![
                T::decode_spec(sub.subrange(0, li)),
                T::decode_spec(sub.subrange(li, 2 * li)),
                T::decode_spec(sub.subrange(2 * li, 3 * li)),
            ]);
            assert(d@ =~= r@);
        }
        r
    }
}

impl<T: PrimitiveDataType> DataType for [T; 4] {
    open spec fn base_kind_spec() -> BaseKind {
        T::base_kind_spec()
    }

    open spec fn size_spec() -> u32 {
        4
    }

    open spec fn rank_spec() -> UniformType {
        UniformType::Vec4
    }

    open spec fn wide_kind_spec() -> WideKind {
        T::wide_kind_spec()
    }

    open spec fn wide_flat_spec(self) -> Seq<Wide> {
        seq![
            self@[0].promote_spec(),
            self@[1].promote_spec(),
            self@[2].promote_spec(),
            self@[3].promote_spec(),
        ]
    }

    open spec fn bytes_spec(self) -> Seq<u8> {
        self@[0].bytes_spec() + self@[1].bytes_spec() + self@[2].bytes_spec() + self@[3].bytes_spec()
    }

    open spec fn byte_len_spec() -> nat {
        4 * T::byte_len_spec()
    }

    open spec fn decode_spec(b: Seq<u8>) -> [T; 4] {
        let l = T::byte_len_spec() as int;
        choose|a: [T; 4]|
            #[trigger] a@ == seq![
                T::decode_spec(b.subrange(0, l)),
                T::decode_spec(b.subrange(l, 2 * l)),
                T::decode_spec(b.subrange(2 * l, 3 * l)),
                T::decode_spec(b.subrange(3 * l, 4 * l)),
            ]
    }

    proof fn lemma_byte_len_pos() {
        T::lemma_scalar_width();
    }

    proof fn lemma_wf(self) {
        let l = T::byte_len_spec() as int;
        self@[0].lemma_wf();
        self@[1].lemma_wf();
        self@[2].lemma_wf();
        self@[3].lemma_wf();
        let b = self.bytes_spec();
        assert(b.subrange(0, l) =~= self@[0].bytes_spec());
        assert(b.subrange(l, 2 * l) =~= self@[1].bytes_spec());
        assert(b.subrange(2 * l, 3 * l) =~= self@[2].bytes_spec());
        assert(b.subrange(3 * l, 4 * l) =~= self@[3].bytes_spec());
        let d = Self::decode_spec(b);
        assert(self@ == seq![
            T::decode_spec(b.subrange(0, l)),
            T::decode_spec(b.subrange(l, 2 * l)),
            T::decode_spec(b.subrange(2 * l, 3 * l)),
            T::decode_spec(b.subrange(3 * l, 4 * l)),
        ]) by {
            assert(self@ =~= seq![self@[0], self@[1], self@[2], self@[3]]);
        }
        assert(d@ =~= self@);
    }

    fn internal_format() -> u32 {
        T::internal_format_with_size(4)
    }

    fn data_type() -> u32 {
        T::data_type()
    }

    fn size() -> u32 {
        4
    }

    fn send_uniform(data: &Vec<[T; 4]>) -> (r: Result<UniformTransfer, CoreError>) {
        let ghost el = |v: [T; 4]| seq![v@[0], v@[1], v@[2], v@[3]];
        let mut flat: Vec<T> = Vec::new();
        proof {
            assert(data@.take(0).map_values(el) =~= Seq::<Seq<T>>::empty());
            assert(flat@ =~= data@.take(0).flat_map(el));
        }
        let mut i: usize = 0;
        while i < data.len()
            invariant
                i <= data.len(),
                flat@ == data@.take(i as int).flat_map(el),
                el == (|v: [T; 4]| seq![v@[0], v@[1], v@[2], v@[3]]),
            decreases data.len() - i,
        {
            let v = data[i];
            flat.push(v[0]);
            flat.push(v[1]);
            flat.push(v[2]);
            flat.push(v[3]);
            proof {
                data@.lemma_flat_map_take_append(el, i as int);
                assert(flat@ =~= data@.take(i as int).flat_map(el) + el(data@[i as int]));
            }
            i += 1;
        }
        proof {
            assert(data@.take(data.len() as int) =~= data@);
        }
        let r = T::send_uniform_with_type(&flat, UniformType::Vec4);
        proof {
            let pm = |v: T| v.promote_spec();
            let wf = |v: [T; 4]| v.wide_flat_spec();
            assert forall|j: int| 0 <= j < data@.len() implies wf(data@[j]) == el(
                data@[j],
            ).map_values(pm) by {
                assert(el(data@[j]).map_values(pm) =~= data@[j].wide_flat_spec());
            }
            lemma_map_of_flat_map(data@, el, pm, wf);
        }
        r
    }

    fn byte_len() -> usize {
        proof {
            T::lemma_scalar_width();
        }
        4 * T::byte_len()
    }

    fn append_bytes(&self, out: &mut Vec<u8>) {
        let s: &[T] = self.as_slice();
        s[0].append_bytes(out);
        s[1].append_bytes(out);
        s[2].append_bytes(out);
        s[3].append_bytes(out);
        proof {
            assert(out@ =~= old(out)@ + self.bytes_spec());
        }
    }

    fn decode_at(bytes: &[u8], i: usize) -> (r: [T; 4]) {
        proof {
            T::lemma_scalar_width();
        }
        // The call binds the slice length, whose usize bound the offset
        // arithmetic below needs.
        let n = bytes.len();
        let l = T::byte_len();
        let x = T::decode_at(bytes, i);
        let y = T::decode_at(bytes, i + l);
        let z = T::decode_at(bytes, i + 2 * l);
        let w = T::decode_at(bytes, i + 3 * l);
        let r: [T; 4] = [x, y, z, w];
        proof {
            let li = T::byte_len_spec() as int;
            let sub = bytes@.subrange(i as int, i + Self::byte_len_spec());
            assert(sub.subrange(0, li) =~= bytes@.subrange(i as int, i as int + li));
            assert(sub.subrange(li, 2 * li) =~= bytes@.subrange(i as int + li, i as int + 2 * li));
            assert(sub.subrange(2 * li, 3 * li) =~= bytes@.subrange(
                i as int + 2 * li,
                i as int + 3 * li,
            ));
            assert(sub.subrange(3 * li, 4 * li) =~= bytes@.subrange(
                i as int + 3 * li,
                i as int + 4 * li,
            ));
            let d = Self::decode_spec(sub);
            assert(r@ =~= seq![
                T::decode_spec(sub.subrange(0, li)),
                T::decode_spec(sub.subrange(li, 2 * li)),
                T::decode_spec(sub.subrange(2 * li, 3 * li)),
                T::decode_spec(sub.subrange(3 * li, 4 * li)),
            ]);
            assert(d@ =~= r@);
        }
        r
    }
}

} // verus!
