//! Typed, validated views over tensor memory: the closed set of supported
//! element types, metadata snapshots, and read views over arena-resident
//! tensor bytes.

use vstd::prelude::*;

use crate::Error;

verus! {

/// The closed, exhaustive set of scalar element types this crate supports.
/// A native type tag outside this set has no local representation.
#[derive(Clone, Copy, Debug, PartialEq, Eq, Structural)]
pub enum ElementType {
    Float32,
    Int32,
    UInt8,
    Bool,
    Int16,
    Int8,
}

impl ElementType {
    /// Bytes occupied by a single element of this type.
    pub open spec fn spec_byte_size(self) -> nat {
        match self {
            ElementType::Float32 => 4,
            ElementType::Int32 => 4,
            ElementType::UInt8 => 1,
            ElementType::Bool => 1,
            ElementType::Int16 => 2,
            ElementType::Int8 => 1,
        }
    }

    /// Bytes occupied by a single element of this type.
    pub fn byte_size(self) -> (r: usize)
        ensures
            r == self.spec_byte_size(),
    {
        match self {
            ElementType::Float32 => 4,
            ElementType::Int32 => 4,
            ElementType::UInt8 => 1,
            ElementType::Bool => 1,
            ElementType::Int16 => 2,
            ElementType::Int8 => 1,
        }
    }

    /// The element type denoted by a native type tag, if any.
    pub open spec fn spec_from_tag(tag: u32) -> Option<ElementType> {
        if tag == 1 {
            Some(ElementType::Float32)
        } else if tag == 2 {
            Some(ElementType::Int32)
        } else if tag == 3 {
            Some(ElementType::UInt8)
        } else if tag == 6 {
            Some(ElementType::Bool)
        } else if tag == 7 {
            Some(ElementType::Int16)
        } else if tag == 9 {
            Some(ElementType::Int8)
        } else {
            None
        }
    }

    /// Maps a native element-type tag to an [`ElementType`]. Exactly the
    /// tags of the six supported types are accepted; every other tag is
    /// rejected with [`Error::ElementTypeUnimplemented`].
    pub fn from_tag(tag: u32) -> (r: Result<ElementType, Error>)
        ensures
            match ElementType::spec_from_tag(tag) {
                Some(e) => r == Ok::<ElementType, Error>(e),
                None => r == Err::<ElementType, Error>(Error::ElementTypeUnimplemented),
            },
    {
        if tag == 1 {
            Ok(ElementType::Float32)
        } else if tag == 2 {
            Ok(ElementType::Int32)
        } else if tag == 3 {
            Ok(ElementType::UInt8)
        } else if tag == 6 {
            Ok(ElementType::Bool)
        } else if tag == 7 {
            Ok(ElementType::Int16)
        } else if tag == 9 {
            Ok(ElementType::Int8)
        } else {
            Err(Error::ElementTypeUnimplemented)
        }
    }
}

/// The number of elements in a tensor with the given dimensions: the
/// product of all entries, one for an empty sequence.
pub open spec fn dims_product(dims: Seq<i32>) -> int
    decreases dims.len(),
{
    if dims.len() == 0 {
        1
    } else {
        dims_product(dims.drop_last()) * dims.last()
    }
}

/// A dimension sequence whose entries are all positive has a positive
/// product.
pub proof fn lemma_dims_product_pos(dims: Seq<i32>)
    requires
        forall|k: int| 0 <= k < dims.len() ==> #[trigger] dims[k] >= 1,
    ensures
        dims_product(dims) >= 1,
    decreases dims.len(),
{
    if dims.len() > 0 {
        lemma_dims_product_pos(dims.drop_last());
        assert(dims_product(dims.drop_last()) * dims.last() >= 1) by (nonlinear_arith)
            requires
                dims_product(dims.drop_last()) >= 1,
                dims.last() >= 1,
        ;
    }
}

/// With all entries positive, the product over a prefix never exceeds the
/// product over the whole dimension sequence.
pub proof fn lemma_dims_product_monotone(dims: Seq<i32>, j: int)
    requires
        0 <= j <= dims.len(),
        forall|k: int| 0 <= k < dims.len() ==> #[trigger] dims[k] >= 1,
    ensures
        dims_product(dims.take(j)) <= dims_product(dims),
    decreases dims.len() - j,
{
    if j == dims.len() {
        assert(dims.take(j) =~= dims);
    } else {
        assert(dims.take(j + 1).drop_last() =~= dims.take(j));
        assert(dims.take(j + 1).last() == dims[j]);
        assert(forall|k: int| 0 <= k < dims.take(j).len() ==> #[trigger] dims.take(j)[k] >= 1);
        lemma_dims_product_pos(dims.take(j));
        assert(dims_product(dims.take(j)) * dims[j] >= dims_product(dims.take(j)))
            by (nonlinear_arith)
            requires
                dims_product(dims.take(j)) >= 1,
                dims[j] >= 1,
        ;
        lemma_dims_product_monotone(dims, j + 1);
    }
}

/// Metadata describing a tensor: its element type and its dimensions,
/// borrowed from the descriptor it was taken from.
#[derive(Debug)]
pub struct TensorInfo<'a> {
    pub element_type: ElementType,
    pub dims: &'a [i32],
}

impl<'a> TensorInfo<'a> {
    /// Builds the metadata snapshot for a raw descriptor, given as a native
    /// element-type tag and a dimension slice. Fails with
    /// [`Error::ElementTypeUnimplemented`] exactly when the tag has no
    /// local representation.
    pub fn try_from(type_tag: u32, dims: &'a [i32]) -> (r: Result<TensorInfo<'a>, Error>)
        ensures
            match ElementType::spec_from_tag(type_tag) {
                Some(e) => r matches Ok(info) && info.element_type == e && info.dims@ == dims@,
                None => r == Err::<TensorInfo<'a>, Error>(Error::ElementTypeUnimplemented),
            },
    {
        match ElementType::from_tag(type_tag) {
            Ok(element_type) => Ok(TensorInfo { element_type, dims }),
            Err(e) => Err(e),
        }
    }
}

/// `a` with `data` written in place starting at offset `at`; everything
/// else is untouched and the length never changes.
pub open spec fn spec_write_region(a: Seq<u8>, at: int, data: Seq<u8>) -> Seq<u8> {
    Seq::new(a.len(), |i: int| if at <= i < at + data.len() { data[i - at] } else { a[i] })
}

/// Writing a region is local: every byte outside `[at, at + data.len())`
/// keeps its value — so feeding one input tensor, or running one kernel,
/// never disturbs the arena bytes of any other tensor.
pub proof fn lemma_write_region_frame(a: Seq<u8>, at: int, data: Seq<u8>, i: int)
    requires
        0 <= i < a.len(),
        !(at <= i < at + data.len()),
    ensures
        spec_write_region(a, at, data)[i] == a[i],
{
}

/// Element types that host data can be supplied in. An implementation
/// fixes the corresponding [`ElementType`] tag and the little-endian byte
/// image of one element.
pub trait ElemTypeOf: Sized + Copy {
    /// The tensor element type this host type corresponds to.
    spec fn spec_elem_type() -> ElementType;

    /// The little-endian byte image of one element.
    spec fn spec_to_bytes(self) -> Seq<u8>;

    /// The element denoted by a byte image of the right width.
    spec fn spec_from_bytes(bytes: Seq<u8>) -> Self;

    /// One element's byte image is exactly as wide as its element type.
    proof fn lemma_to_bytes_len(self)
        ensures
            self.spec_to_bytes().len() == Self::spec_elem_type().spec_byte_size(),
    ;

    /// The tensor element type this host type corresponds to.
    fn elem_type() -> (r: ElementType)
        ensures
            r == Self::spec_elem_type(),
    ;

    /// Appends the byte image of `self` to `out`.
    fn append_bytes(self, out: &mut Vec<u8>)
        ensures
            final(out)@ == old(out)@ + self.spec_to_bytes(),
            self.spec_to_bytes().len() == Self::spec_elem_type().spec_byte_size(),
    ;

    /// Byte `p` of the element's little-endian image.
    fn byte_of(self, p: usize) -> (r: u8)
        requires
            p < Self::spec_elem_type().spec_byte_size(),
        ensures
            r == self.spec_to_bytes()[p as int],
    ;

    /// Reads one element from its byte image starting at `at`.
    fn read_at(bytes: &[u8], at: usize) -> (r: Self)
        requires
            at + Self::spec_elem_type().spec_byte_size() <= bytes@.len(),
        ensures
            r == Self::spec_from_bytes(
                bytes@.subrange(at as int, at + Self::spec_elem_type().spec_byte_size()),
            ),
    ;
}

impl ElemTypeOf for u8 {
    open spec fn spec_elem_type() -> ElementType {
        ElementType::UInt8
    }

    open spec fn spec_to_bytes(self) -> Seq<u8> {
        seq![self]
    }

    open spec fn spec_from_bytes(bytes: Seq<u8>) -> u8 {
        bytes[0]
    }

    proof fn lemma_to_bytes_len(self) {
    }

    fn elem_type() -> ElementType {
        ElementType::UInt8
    }

    fn append_bytes(self, out: &mut Vec<u8>) {
        out.push(self);
    }

    fn byte_of(self, p: usize) -> u8 {
        self
    }

    fn read_at(bytes: &[u8], at: usize) -> u8 {
        bytes[at]
    }
}

impl ElemTypeOf for i8 {
    open spec fn spec_elem_type() -> ElementType {
        ElementType::Int8
    }

    open spec fn spec_to_bytes(self) -> Seq<u8> {
        seq![self as u8]
    }

    open spec fn spec_from_bytes(bytes: Seq<u8>) -> i8 {
        bytes[0] as i8
    }

    proof fn lemma_to_bytes_len(self) {
    }

    fn elem_type() -> ElementType {
        ElementType::Int8
    }

    fn append_bytes(self, out: &mut Vec<u8>) {
        out.push(self as u8);
    }

    fn byte_of(self, p: usize) -> u8 {
        self as u8
    }

    fn read_at(bytes: &[u8], at: usize) -> i8 {
        bytes[at] as i8
    }
}

impl ElemTypeOf for bool {
    open spec fn spec_elem_type() -> ElementType {
        ElementType::Bool
    }

    open spec fn spec_to_bytes(self) -> Seq<u8> {
        seq![if self { 1u8 } else { 0u8 }]
    }

    open spec fn spec_from_bytes(bytes: Seq<u8>) -> bool {
        bytes[0] != 0
    }

    proof fn lemma_to_bytes_len(self) {
    }

    fn elem_type() -> ElementType {
        ElementType::Bool
    }

    fn append_bytes(self, out: &mut Vec<u8>) {
        out.push(if self { 1u8 } else { 0u8 });
    }

    fn byte_of(self, p: usize) -> u8 {
        if self {
            1u8
        } else {
            0u8
        }
    }

    fn read_at(bytes: &[u8], at: usize) -> bool {
        bytes[at] != 0
    }
}

impl ElemTypeOf for i16 {
    open spec fn spec_elem_type() -> ElementType {
        ElementType::Int16
    }

    open spec fn spec_to_bytes(self) -> Seq<u8> {
        seq![(self as u16 & 0xff) as u8, ((self as u16 >> 8) & 0xff) as u8]
    }

    open spec fn spec_from_bytes(bytes: Seq<u8>) -> i16 {
        ((bytes[0] as u16) | ((bytes[1] as u16) << 8)) as i16
    }

    proof fn lemma_to_bytes_len(self) {
    }

    fn elem_type() -> ElementType {
        ElementType::Int16
    }

    fn append_bytes(self, out: &mut Vec<u8>) {
        let u = self as u16;
        out.push((u & 0xff) as u8);
        out.push(((u >> 8) & 0xff) as u8);
        proof {
            assert(final(out)@ =~= old(out)@ + self.spec_to_bytes());
        }
    }

    fn byte_of(self, p: usize) -> u8 {
        let u = self as u16;
        if p == 0 {
            (u & 0xff) as u8
        } else {
            ((u >> 8) & 0xff) as u8
        }
    }

    fn read_at(bytes: &[u8], at: usize) -> (r: i16)
    {
        let lo = bytes[at];
        let hi = bytes[at + 1];
        let u: u16 = (lo as u16) | ((hi as u16) << 8);
        proof {
            let img = bytes@.subrange(at as int, at + 2);
            assert(img[0] == lo && img[1] == hi);
        }
        u as i16
    }
}

impl ElemTypeOf for i32 {
    open spec fn spec_elem_type() -> ElementType {
        ElementType::Int32
    }

    open spec fn spec_to_bytes(self) -> Seq<u8> {
        seq![
            (self as u32 & 0xff) as u8,
            ((self as u32 >> 8) & 0xff) as u8,
            ((self as u32 >> 16) & 0xff) as u8,
            ((self as u32 >> 24) & 0xff) as u8,
        ]
    }

    open spec fn spec_from_bytes(bytes: Seq<u8>) -> i32 {
        ((bytes[0] as u32) | ((bytes[1] as u32) << 8) | ((bytes[2] as u32) << 16) | ((
        bytes[3] as u32) << 24)) as i32
    }

    proof fn lemma_to_bytes_len(self) {
    }

    fn elem_type() -> ElementType {
        ElementType::Int32
    }

    fn append_bytes(self, out: &mut Vec<u8>) {
        let u = self as u32;
        out.push((u & 0xff) as u8);
        out.push(((u >> 8) & 0xff) as u8);
        out.push(((u >> 16) & 0xff) as u8);
        out.push(((u >> 24) & 0xff) as u8);
        proof {
            assert(final(out)@ =~= old(out)@ + self.spec_to_bytes());
        }
    }

    fn byte_of(self, p: usize) -> u8 {
        let u = self as u32;
        if p == 0 {
            (u & 0xff) as u8
        } else if p == 1 {
            ((u >> 8) & 0xff) as u8
        } else if p == 2 {
            ((u >> 16) & 0xff) as u8
        } else {
            ((u >> 24) & 0xff) as u8
        }
    }

    fn read_at(bytes: &[u8], at: usize) -> (r: i32)
    {
        let b0 = bytes[at];
        let b1 = bytes[at + 1];
        let b2 = bytes[at + 2];
        let b3 = bytes[at + 3];
        let u: u32 = (b0 as u32) | ((b1 as u32) << 8) | ((b2 as u32) << 16) | ((b3 as u32) << 24);
        proof {
            let img = bytes@.subrange(at as int, at + 4);
            assert(img[0] == b0 && img[1] == b1 && img[2] == b2 && img[3] == b3);
        }
        u as i32
    }
}

/// The little-endian byte image of a whole data slice: the concatenation
/// of each element's image, in order.
pub open spec fn spec_encode_all<T: ElemTypeOf>(data: Seq<T>) -> Seq<u8>
    decreases data.len(),
{
    if data.len() == 0 {
        Seq::empty()
    } else {
        spec_encode_all(data.drop_last()) + data.last().spec_to_bytes()
    }
}

/// A data slice's byte image is exactly one element width per element.
pub proof fn lemma_encode_all_len<T: ElemTypeOf>(data: Seq<T>)
    ensures
        spec_encode_all(data).len() == data.len() * T::spec_elem_type().spec_byte_size(),
    decreases data.len(),
{
    if data.len() > 0 {
        lemma_encode_all_len::<T>(data.drop_last());
        data.last().lemma_to_bytes_len();
        assert((data.len() - 1) * T::spec_elem_type().spec_byte_size()
            + T::spec_elem_type().spec_byte_size() == data.len()
            * T::spec_elem_type().spec_byte_size()) by (nonlinear_arith);
    }
}

/// Encodes a data slice into its little-endian byte image.
pub fn encode_all<T: ElemTypeOf>(data: &[T]) -> (r: Vec<u8>)
    ensures
        r@ == spec_encode_all(data@),
        r@.len() == data@.len() * T::spec_elem_type().spec_byte_size(),
{
    let mut out: Vec<u8> = Vec::new();
    let mut i: usize = 0;
    proof {
        assert(data@.take(0) =~= Seq::<T>::empty());
    }
    while i < data.len()
        invariant
            i <= data@.len(),
            out@ == spec_encode_all(data@.take(i as int)),
            out@.len() == i * T::spec_elem_type().spec_byte_size(),
        decreases data@.len() - i,
    {
        let x = data[i];
        x.append_bytes(&mut out);
        proof {
            assert(data@.take(i + 1).drop_last() =~= data@.take(i as int));
            assert(data@.take(i + 1).last() == data@[i as int]);
        }
        i = i + 1;
    }
    proof {
        assert(data@.take(data@.len() as int) =~= data@);
    }
    out
}

/// A read view of one tensor: its element type, its dimensions, and the
/// arena bytes backing it. Valid only as long as the interpreter that
/// handed it out.
#[derive(Debug)]
pub struct Tensor<'a> {
    element_type: ElementType,
    dims: &'a [i32],
    data: &'a [u8],
}

impl<'a> Tensor<'a> {
    pub(crate) fn new_view(element_type: ElementType, dims: &'a [i32], data: &'a [u8]) -> (r:
        Tensor<'a>)
        ensures
            r.spec_element_type() == element_type,
            r.spec_dims() == dims@,
            r.spec_data() == data@,
    {
        Tensor { element_type, dims, data }
    }

    pub closed spec fn spec_element_type(&self) -> ElementType {
        self.element_type
    }

    pub closed spec fn spec_dims(&self) -> Seq<i32> {
        self.dims@
    }

    pub closed spec fn spec_data(&self) -> Seq<u8> {
        self.data@
    }

    /// The metadata snapshot for this tensor.
    pub fn info(&self) -> (r: TensorInfo<'a>)
        ensures
            r.element_type == self.spec_element_type(),
            r.dims@ == self.spec_dims(),
    {
        TensorInfo { element_type: self.element_type, dims: self.dims }
    }

    /// The raw bytes backing this tensor.
    pub fn as_data(&self) -> (r: &'a [u8])
        ensures
            r@ == self.spec_data(),
    {
        self.data
    }

    /// The tensor's contents decoded as elements of type `T`. The caller
    /// picks `T`; it must match the tensor's declared element type.
    pub fn as_typed_data<T: ElemTypeOf>(&self) -> (r: Vec<T>)
        requires
            T::spec_elem_type() == self.spec_element_type(),
            self.spec_data().len() % T::spec_elem_type().spec_byte_size() == 0,
        ensures
            r@.len() * T::spec_elem_type().spec_byte_size() == self.spec_data().len(),
            forall|i: int|
                0 <= i < r@.len() ==> r@[i] == T::spec_from_bytes(
                    #[trigger] self.spec_data().subrange(
                        i * T::spec_elem_type().spec_byte_size(),
                        (i + 1) * T::spec_elem_type().spec_byte_size(),
                    ),
                ),
    {
        let size = T::elem_type().byte_size();
        let total = self.data.len();
        let count = total / size;
        let mut out: Vec<T> = Vec::new();
        let mut i: usize = 0;
        proof {
            vstd::arithmetic::div_mod::lemma_fundamental_div_mod(total as int, size as int);
            assert(count * size == total) by (nonlinear_arith)
                requires
                    total as int == size as int * (count as int),
            ;
        }
        while i < count
            invariant
                i <= count,
                size == T::spec_elem_type().spec_byte_size(),
                count * size == self.spec_data().len(),
                self.spec_data().len() <= usize::MAX,
                self.data@ == self.spec_data(),
                out@.len() == i,
                forall|j: int|
                    0 <= j < i ==> out@[j] == T::spec_from_bytes(
                        #[trigger] self.spec_data().subrange((j * size as int), (j + 1) * size as int),
                    ),
            decreases count - i,
        {
            proof {
                assert((i + 1) * size as int <= count * size as int) by (nonlinear_arith)
                    requires
                        i < count,
                        size >= 1,
                ;
                assert(i * size as int + size as int == (i + 1) * size as int) by (nonlinear_arith);
                assert(i * size as int + size as int <= self.spec_data().len());
            }
            let at = i * size;
            let x = T::read_at(self.data, at);
            out.push(x);
            i = i + 1;
        }
        proof {
            assert(out@.len() * size as int == count * size as int) by (nonlinear_arith)
                requires
            out@.len() == count,
        ;
        }
        out
    }
}

} // verus!
