//! Raw storage backends: an owned, explicitly sized and aligned CPU byte
//! buffer, a device-resident byte buffer, and the typed little-endian codec
//! between element slices and bytes.
//!
//! Cloning a CPU buffer is a full independent byte copy; a zero-length buffer
//! holds no bytes and is released like any other value.

use vstd::prelude::*;
use vstd::bytes::{spec_u32_to_le_bytes, spec_u32_from_le_bytes, u32_to_le_bytes, u32_from_le_bytes, lemma_auto_spec_u32_to_from_le_bytes};
use vstd::slice::slice_subrange;
use crate::dtype::DType;
use crate::error::OperationError;
use crate::shape::{Shape, numel_of};

verus! {

/// An element type that tensor storage can hold: it fixes the element width,
/// its declared [`DType`], and an exact little-endian byte encoding.
pub trait TensorDType: Sized + Copy {
    /// Little-endian byte encoding of one element.
    spec fn spec_le_bytes(self) -> Seq<u8>;

    /// Decoding of one element from its byte encoding.
    spec fn spec_from_le_bytes(b: Seq<u8>) -> Self;

    /// Width of one element in bytes.
    spec fn spec_size() -> nat;

    /// The declared data type this element carries.
    spec fn spec_dt() -> DType;

    fn size_of() -> (r: usize)
        ensures
            r == Self::spec_size(),
    ;

    fn dt() -> (r: DType)
        ensures
            r == Self::spec_dt(),
    ;

    /// Append the element's little-endian bytes to `out`.
    fn extend_le_bytes(self, out: &mut Vec<u8>)
        ensures
            final(out)@ == old(out)@ + self.spec_le_bytes(),
    ;

    /// Read one element from the bytes at `off`.
    fn read_le_at(bytes: &Vec<u8>, off: usize) -> (r: Self)
        requires
            off + Self::spec_size() <= bytes@.len(),
        ensures
            r == Self::spec_from_le_bytes(
                bytes@.subrange(off as int, off + Self::spec_size()),
            ),
    ;

    /// The element width is positive and matches the declared data type.
    proof fn lemma_size_pos()
        ensures
            Self::spec_size() >= 1,
            Self::spec_size() == Self::spec_dt().spec_size(),
    ;

    /// Encoding is `spec_size` bytes long and decodes back to the element.
    proof fn lemma_le_bytes_props(self)
        ensures
            self.spec_le_bytes().len() == Self::spec_size(),
            Self::spec_from_le_bytes(self.spec_le_bytes()) == self,
    ;
}

impl TensorDType for u32 {
    open spec fn spec_le_bytes(self) -> Seq<u8> {
        spec_u32_to_le_bytes(self)
    }

    open spec fn spec_from_le_bytes(b: Seq<u8>) -> u32 {
        spec_u32_from_le_bytes(b)
    }

    open spec fn spec_size() -> nat {
        4
    }

    open spec fn spec_dt() -> DType {
        DType::U32
    }

    fn size_of() -> (r: usize) {
        4
    }

    fn dt() -> (r: DType) {
        DType::U32
    }

    fn extend_le_bytes(self, out: &mut Vec<u8>) {
        let mut bs = u32_to_le_bytes(self);
        out.append(&mut bs);
    }

    fn read_le_at(bytes: &Vec<u8>, off: usize) -> (r: u32) {
        let n = bytes.len();
        let window = slice_subrange(bytes.as_slice(), off, off + 4);
        u32_from_le_bytes(window)
    }

    proof fn lemma_size_pos() {
    }

    proof fn lemma_le_bytes_props(self) {
        lemma_auto_spec_u32_to_from_le_bytes();
        assert(spec_u32_to_le_bytes(self).len() == 4);
        assert(spec_u32_from_le_bytes(spec_u32_to_le_bytes(self)) == self);
    }
}

impl TensorDType for i32 {
    open spec fn spec_le_bytes(self) -> Seq<u8> {
        spec_u32_to_le_bytes(self as u32)
    }

    open spec fn spec_from_le_bytes(b: Seq<u8>) -> i32 {
        spec_u32_from_le_bytes(b) as i32
    }

    open spec fn spec_size() -> nat {
        4
    }

    open spec fn spec_dt() -> DType {
        DType::I32
    }

    fn size_of() -> (r: usize) {
        4
    }

    fn dt() -> (r: DType) {
        DType::I32
    }

    fn extend_le_bytes(self, out: &mut Vec<u8>) {
        #[verifier::truncate]
        let w = self as u32;
        let mut bs = u32_to_le_bytes(w);
        out.append(&mut bs);
    }

    fn read_le_at(bytes: &Vec<u8>, off: usize) -> (r: i32) {
        let n = bytes.len();
        let window = slice_subrange(bytes.as_slice(), off, off + 4);
        let w = u32_from_le_bytes(window);
        let r = #[verifier::truncate] (w as i32);
        r
    }

    proof fn lemma_size_pos() {
    }

    proof fn lemma_le_bytes_props(self) {
        lemma_auto_spec_u32_to_from_le_bytes();
        assert(spec_u32_to_le_bytes(self as u32).len() == 4);
        assert(spec_u32_from_le_bytes(spec_u32_to_le_bytes(self as u32)) == self as u32);
        assert((self as u32) as i32 == self) by (bit_vector);
    }
}

/// Little-endian byte image of a whole element sequence, in order.
pub open spec fn bytes_of_elems<T: TensorDType>(s: Seq<T>) -> Seq<u8>
    decreases s.len(),
{
    if s.len() == 0 {
        Seq::empty()
    } else {
        s[0].spec_le_bytes() + bytes_of_elems(s.drop_first())
    }
}

/// Elements decoded from a byte image, one per `spec_size` window.
pub open spec fn elems_of_bytes<T: TensorDType>(b: Seq<u8>) -> Seq<T> {
    Seq::new(
        b.len() / T::spec_size(),
        |i: int| T::spec_from_le_bytes(b.subrange(i * T::spec_size(), (i + 1) * T::spec_size())),
    )
}

/// The byte image of `n` elements is `n` times the element width long.
pub proof fn lemma_bytes_of_elems_len<T: TensorDType>(s: Seq<T>)
    ensures
        bytes_of_elems(s).len() == s.len() * T::spec_size(),
    decreases s.len(),
{
    if s.len() == 0 {
    } else {
        s[0].lemma_le_bytes_props();
        lemma_bytes_of_elems_len::<T>(s.drop_first());
        assert(s.len() * T::spec_size() == T::spec_size() + (s.len() - 1) * T::spec_size())
            by (nonlinear_arith);
    }
}

/// Appending one element appends its bytes.
pub proof fn lemma_bytes_of_elems_snoc<T: TensorDType>(s: Seq<T>, x: T)
    ensures
        bytes_of_elems(s.push(x)) == bytes_of_elems(s) + x.spec_le_bytes(),
    decreases s.len(),
{
    reveal_with_fuel(bytes_of_elems, 3);
    if s.len() == 0 {
        assert(s.push(x).drop_first() =~= Seq::<T>::empty());
        assert(s.push(x)[0] == x);
        assert(bytes_of_elems(s.push(x)) =~= bytes_of_elems(s) + x.spec_le_bytes());
    } else {
        assert(s.push(x).drop_first() =~= s.drop_first().push(x));
        assert(s.push(x)[0] == s[0]);
        lemma_bytes_of_elems_snoc(s.drop_first(), x);
        assert(bytes_of_elems(s.push(x)) =~= bytes_of_elems(s) + x.spec_le_bytes());
    }
}

/// The bytes of element `i` sit exactly in window `i` of the byte image.
pub proof fn lemma_bytes_of_elems_window<T: TensorDType>(s: Seq<T>, i: int)
    requires
        0 <= i < s.len(),
    ensures
        bytes_of_elems(s).subrange(i * T::spec_size(), (i + 1) * T::spec_size())
            == s[i].spec_le_bytes(),
    decreases i,
{
    let n = T::spec_size() as int;
    lemma_bytes_of_elems_len::<T>(s);
    lemma_bytes_of_elems_len::<T>(s.drop_first());
    s[0].lemma_le_bytes_props();
    T::lemma_size_pos();
    assert((i + 1) * n <= s.len() * n) by (nonlinear_arith)
        requires
            i + 1 <= s.len(),
            n >= 1,
    ;
    assert(i * n >= 0) by (nonlinear_arith)
        requires
            i >= 0,
            n >= 1,
    ;
    assert(bytes_of_elems(s) == s[0].spec_le_bytes() + bytes_of_elems(s.drop_first()));
    if i == 0 {
        assert(i * T::spec_size() == 0) by (nonlinear_arith)
            requires
                i == 0,
        ;
        assert((i + 1) * T::spec_size() == T::spec_size()) by (nonlinear_arith)
            requires
                i == 0,
        ;
        assert(bytes_of_elems(s).subrange(0, n) =~= s[0].spec_le_bytes());
        assert(bytes_of_elems(s).subrange(i * T::spec_size(), (i + 1) * T::spec_size())
            == s[0].spec_le_bytes());
    } else {
        lemma_bytes_of_elems_window::<T>(s.drop_first(), i - 1);
        assert((i - 1) * n == i * n - n) by (nonlinear_arith);
        assert(i * n == (i + 1) * n - n) by (nonlinear_arith);
        assert(s.drop_first()[i - 1] == s[i]);
        assert(bytes_of_elems(s).subrange(i * n, (i + 1) * n) =~= bytes_of_elems(
            s.drop_first(),
        ).subrange((i - 1) * n, i * n));
        assert(bytes_of_elems(s.drop_first()).subrange((i - 1) * n, i * n)
            == s[i].spec_le_bytes());
        assert(bytes_of_elems(s).subrange(i * T::spec_size(), (i + 1) * T::spec_size())
            == s[i].spec_le_bytes());
    }
}

/// Law: encoding a typed slice to bytes and decoding the bytes back
/// reproduces the original elements exactly, for every element type.
pub proof fn lemma_buffer_roundtrip<T: TensorDType>(data: Seq<T>)
    ensures
        elems_of_bytes::<T>(bytes_of_elems(data)) == data,
{
    let n = T::spec_size() as int;
    T::lemma_size_pos();
    lemma_bytes_of_elems_len::<T>(data);
    assert((data.len() * n) / n == data.len()) by (nonlinear_arith)
        requires
            n >= 1,
    ;
    assert forall|i: int| 0 <= i < data.len() implies elems_of_bytes::<T>(
        bytes_of_elems(data),
    )[i] == data[i] by {
        lemma_bytes_of_elems_window::<T>(data, i);
        data[i].lemma_le_bytes_props();
    }
    assert(elems_of_bytes::<T>(bytes_of_elems(data)) =~= data);
}

/// Which ranges of a buffer a diagnostic dump should render: the head is
/// `[0, head_end)` and the tail `[tail_start, n_elems)`. A full dump has the
/// head cover everything and an empty tail; a truncated one shows at most 64
/// elements from each end.
#[derive(Clone, Copy, Debug, PartialEq, Eq, Structural)]
pub struct DumpPlan {
    pub n_elems: usize,
    pub full: bool,
    pub head_end: usize,
    pub tail_start: usize,
}

/// Data types the diagnostic dump knows how to render.
pub open spec fn dump_supported(dtype: DType) -> bool {
    dtype != DType::F16
}

/// An owned CPU byte buffer with an explicit size and alignment. The
/// alignment is recorded so that an allocation site backing this model with
/// raw memory can honor it; the byte contents are the buffer's whole state.
pub struct RawCPUBuffer {
    data: Vec<u8>,
    alignment: usize,
}

impl RawCPUBuffer {
    /// The byte contents.
    pub closed spec fn view(self) -> Seq<u8> {
        self.data@
    }

    pub closed spec fn spec_alignment(self) -> usize {
        self.alignment
    }

    /// An alignment is a positive power of two.
    pub open spec fn valid_alignment(a: usize) -> bool {
        a >= 1 && (a & ((a - 1) as usize)) == 0
    }

    pub open spec fn wf(self) -> bool {
        Self::valid_alignment(self.spec_alignment())
    }

    /// A fresh buffer of `size` zero bytes. The storage model starts zeroed;
    /// callers that fill it overwrite every byte anyway.
    pub fn uninitialized(size: usize, alignment: usize) -> (r: Self)
        requires
            Self::valid_alignment(alignment),
        ensures
            r@ == Seq::new(size as nat, |i: int| 0u8),
            r.spec_alignment() == alignment,
            r.wf(),
    {
        let mut data: Vec<u8> = Vec::new();
        let mut i: usize = 0;
        while i < size
            invariant
                i <= size,
                data@ == Seq::new(i as nat, |j: int| 0u8),
            decreases size - i,
        {
            data.push(0u8);
            proof {
                assert(data@ =~= Seq::new((i + 1) as nat, |j: int| 0u8));
            }
            i = i + 1;
        }
        RawCPUBuffer { data, alignment }
    }

    /// Typed construction: the buffer holds the little-endian byte image of
    /// `data`, whose length must match the shape's element count, and is
    /// aligned to the element width.
    pub fn from_slice<T: TensorDType>(data: &[T], shape: &Shape) -> (r: Self)
        requires
            data@.len() == numel_of(shape@),
            RawCPUBuffer::valid_alignment(T::spec_size() as usize),
        ensures
            r@ == bytes_of_elems(data@),
            r.spec_alignment() == T::spec_size(),
            r.wf(),
    {
        let mut out: Vec<u8> = Vec::new();
        let mut i: usize = 0;
        proof {
            assert(data@.take(0) =~= Seq::<T>::empty());
        }
        while i < data.len()
            invariant
                i <= data@.len(),
                out@ == bytes_of_elems(data@.take(i as int)),
            decreases data@.len() - i,
        {
            let x = *vstd::slice::slice_index_get(data, i);
            x.extend_le_bytes(&mut out);
            proof {
                lemma_bytes_of_elems_snoc::<T>(data@.take(i as int), data@[i as int]);
                assert(data@.take(i as int).push(data@[i as int]) =~= data@.take(i + 1));
            }
            i = i + 1;
        }
        proof {
            assert(data@.take(data@.len() as int) =~= data@);
        }
        RawCPUBuffer { data: out, alignment: T::size_of() }
    }

    /// Raw construction from bytes, copied verbatim.
    pub fn from_bytes(bytes: &[u8], alignment: usize) -> (r: Self)
        requires
            Self::valid_alignment(alignment),
        ensures
            r@ == bytes@,
            r.spec_alignment() == alignment,
            r.wf(),
    {
        let data = vstd::slice::slice_to_vec(bytes);
        RawCPUBuffer { data, alignment }
    }

    /// The buffer's backing storage and its recorded alignment.
    pub fn inner(&self) -> (r: (&Vec<u8>, usize))
        ensures
            r.0@ == self@,
            r.1 == self.spec_alignment(),
    {
        (&self.data, self.alignment)
    }

    /// The byte contents, read-only.
    pub fn as_bytes(&self) -> (r: &[u8])
        ensures
            r@ == self@,
    {
        self.data.as_slice()
    }

    /// Overwrite one byte in place.
    pub fn set_byte(&mut self, i: usize, v: u8)
        requires
            i < old(self)@.len(),
        ensures
            final(self)@ == old(self)@.update(i as int, v),
            final(self).spec_alignment() == old(self).spec_alignment(),
    {
        self.data.set(i, v);
    }

    /// Size of the buffer in bytes.
    pub fn n_bytes(&self) -> (r: usize)
        ensures
            r == self@.len(),
    {
        self.data.len()
    }

    /// Decode the whole buffer as elements of `T`, in order. Bytes past the
    /// last whole element window are ignored.
    pub fn read_slice<T: TensorDType>(&self) -> (r: Vec<T>)
        ensures
            r@ == elems_of_bytes::<T>(self@),
    {
        let size = T::size_of();
        proof {
            T::lemma_size_pos();
        }
        let len_bytes = self.data.len();
        let n = len_bytes / size;
        let mut out: Vec<T> = Vec::new();
        let mut i: usize = 0;
        while i < n
            invariant
                i <= n,
                len_bytes == self@.len(),
                n == len_bytes as int / size as int,
                size == T::spec_size(),
                size >= 1,
                out@.len() == i,
                forall|j: int| 0 <= j < i ==> out@[j] == elems_of_bytes::<T>(self@)[j],
            decreases n - i,
        {
            proof {
                assert((i + 1) * size as int <= n * size as int) by (nonlinear_arith)
                    requires
                        i + 1 <= n,
                        size >= 1,
                ;
                assert(n * size as int <= len_bytes as int) by (nonlinear_arith)
                    requires
                        n == len_bytes as int / size as int,
                        size >= 1,
                ;
                assert(i * size as int + size as int == (i + 1) * size as int) by (nonlinear_arith);
                assert(i * size as int >= 0) by (nonlinear_arith)
                    requires
                        i >= 0,
                        size >= 1,
                ;
                assert(i * size as int <= len_bytes as int);
            }
            let x: T = T::read_le_at(&self.data, i * size);
            out.push(x);
            i = i + 1;
        }
        proof {
            assert(out@ =~= elems_of_bytes::<T>(self@));
        }
        out
    }

    /// Decide what a typed diagnostic dump of this buffer shows. Rendering a
    /// data type with no defined byte interpretation fails instead of
    /// guessing one.
    pub fn dump_plan(&self, dtype: DType, full: bool) -> (r: Result<DumpPlan, OperationError>)
        requires
            dump_supported(dtype) ==> self@.len() as int % dtype.spec_size() as int == 0,
        ensures
            r is Ok <==> dump_supported(dtype),
            !dump_supported(dtype) ==> r == Err::<DumpPlan, OperationError>(
                OperationError::UnsupportedDType(dtype),
            ),
            r matches Ok(p) ==> {
                &&& p.n_elems == self@.len() as int / dtype.spec_size() as int
                &&& p.full == full
                &&& (full ==> p.head_end == p.n_elems && p.tail_start == p.n_elems)
                &&& (!full ==> p.head_end == min64(p.n_elems as int) && p.tail_start == p.n_elems
                    - min64(p.n_elems as int))
            },
    {
        let size = match dtype {
            DType::F32 => 4usize,
            DType::I32 => 4usize,
            DType::U32 => 4usize,
            DType::F16 => {
                return Err(OperationError::UnsupportedDType(dtype));
            },
        };
        let n = self.data.len() / size;
        if full {
            Ok(DumpPlan { n_elems: n, full, head_end: n, tail_start: n })
        } else {
            let length = if n < 64 {
                n
            } else {
                64
            };
            Ok(DumpPlan { n_elems: n, full, head_end: length, tail_start: n - length })
        }
    }

    /// Transfer to the device: the raw bytes are copied verbatim into a new
    /// device buffer; the CPU buffer is consumed.
    pub fn to_device(self) -> (r: RawGPUBuffer)
        ensures
            r@ == self@,
    {
        RawGPUBuffer { data: self.data }
    }

    /// A CPU buffer already is CPU storage.
    pub fn to_cpu(self) -> (r: Self)
        ensures
            r == self,
    {
        self
    }
}

/// How many elements a truncated dump shows from each end.
pub open spec fn min64(n: int) -> int {
    if n < 64 {
        n
    } else {
        64
    }
}

impl Clone for RawCPUBuffer {
    /// Cloning performs a full independent byte copy: the clone has equal
    /// contents and alignment, and no storage is shared, so mutating either
    /// buffer never affects the other.
    fn clone(&self) -> (r: Self)
        ensures
            r@ == self@,
            r.spec_alignment() == self.spec_alignment(),
    {
        RawCPUBuffer { data: self.data.clone(), alignment: self.alignment }
    }
}

/// An owned device-resident byte buffer, created by copying bytes from a CPU
/// buffer.
pub struct RawGPUBuffer {
    data: Vec<u8>,
}

impl RawGPUBuffer {
    pub closed spec fn view(self) -> Seq<u8> {
        self.data@
    }

    /// Device upload: the bytes are copied verbatim.
    pub fn from_bytes(bytes: &[u8]) -> (r: Self)
        ensures
            r@ == bytes@,
    {
        RawGPUBuffer { data: vstd::slice::slice_to_vec(bytes) }
    }

    pub fn n_bytes(&self) -> (r: usize)
        ensures
            r == self@.len(),
    {
        self.data.len()
    }
}

} // verus!
