//! How a typed buffer lies in memory: the flat byte sequence that the array
//! runtime is given, and how its elements are read back from it.
//!
//! The model is positional. An element of width `w` is a number below
//! `256^w`; its bytes are the base-256 digits of that number, lowest digit
//! first under little-endian order and last under big-endian order. A buffer
//! is its elements laid end to end.

use vstd::prelude::*;
use vstd::arithmetic::div_mod::lemma_div_denominator;
use vstd::arithmetic::div_mod::lemma_fundamental_div_mod_converse;
use vstd::arithmetic::div_mod::lemma_mod_breakdown;
use vstd::arithmetic::div_mod::lemma_small_mod;
use vstd::arithmetic::power2::lemma2_to64;
use vstd::arithmetic::power2::lemma_pow2_adds;
use vstd::arithmetic::power2::pow2;
use vstd::bits::lemma_u64_shr_is_div;
use crate::dtype::cardinality;
use crate::dtype::width;
use crate::dtype::width_of;
use crate::dtype::ElementKind;
use crate::dtype::NumpyDtype;

verus! {

/// The order in which the bytes of one element are stored.
#[derive(Clone, Copy, Debug, PartialEq, Eq, Structural)]
pub enum ByteOrder {
    /// Lowest byte first.
    LittleEndian,
    /// Highest byte first.
    BigEndian,
}

/// 256 to the power `places`.
pub open spec fn radix_power(places: nat) -> nat
    decreases places,
{
    if places == 0 {
        1
    } else {
        256 * radix_power((places - 1) as nat)
    }
}

/// The base-256 digit of `pattern` at `place`, place 0 being the lowest.
pub open spec fn digit(pattern: nat, place: nat) -> u8 {
    ((pattern / radix_power(place)) % 256) as u8
}

/// Which digit is stored at `offset` within an element of `width` bytes.
pub open spec fn place(offset: int, width: nat, order: ByteOrder) -> nat {
    match order {
        ByteOrder::LittleEndian => offset as nat,
        ByteOrder::BigEndian => (width - 1 - offset) as nat,
    }
}

/// The bytes of one element with bit pattern `pattern`.
pub open spec fn element_bytes(pattern: nat, width: nat, order: ByteOrder) -> Seq<u8> {
    Seq::new(width, |offset: int| digit(pattern, place(offset, width, order)))
}

/// The bytes of a whole buffer: byte `j` is byte `j % width` of element
/// `j / width`.
pub open spec fn buffer_bytes(patterns: Seq<nat>, width: nat, order: ByteOrder) -> Seq<u8> {
    Seq::new(
        patterns.len() * width,
        |j: int| element_bytes(patterns[j / (width as int)], width, order)[j % (width as int)],
    )
}

/// The bit pattern that `bytes` spell out: the lowest byte, plus 256 times
/// what the remaining bytes spell out.
pub open spec fn element_pattern(bytes: Seq<u8>, order: ByteOrder) -> nat
    decreases bytes.len(),
{
    if bytes.len() == 0 {
        0
    } else {
        match order {
            ByteOrder::LittleEndian => bytes.first() as nat + 256 * element_pattern(
                bytes.drop_first(),
                order,
            ),
            ByteOrder::BigEndian => bytes.last() as nat + 256 * element_pattern(
                bytes.drop_last(),
                order,
            ),
        }
    }
}

/// The bit patterns of the elements that `bytes` hold, `width` bytes each.
/// Bytes after the last whole element are ignored.
pub open spec fn buffer_patterns(bytes: Seq<u8>, width: nat, order: ByteOrder) -> Seq<nat> {
    Seq::new(
        bytes.len() / width,
        |k: int| element_pattern(bytes.subrange(k * width, k * width + width), order),
    )
}

/// The bit patterns of `elements`, in order.
pub open spec fn bit_patterns<T: NumpyDtype>(elements: Seq<T>) -> Seq<nat> {
    Seq::new(elements.len(), |i: int| elements[i].pattern())
}

/// The bytes that a buffer holding `elements` occupies.
pub open spec fn byte_image<T: NumpyDtype>(elements: Seq<T>, order: ByteOrder) -> Seq<u8> {
    buffer_bytes(bit_patterns(elements), width(T::kind()), order)
}

/// The elements that a reader of `bytes` sees.
pub open spec fn elements_of<T: NumpyDtype>(bytes: Seq<u8>, order: ByteOrder) -> Seq<T> {
    let patterns = buffer_patterns(bytes, width(T::kind()), order);
    Seq::new(patterns.len(), |k: int| T::from_pattern(patterns[k]))
}

/// The byte length of `count` elements of `width` bytes, as far as the array
/// runtime can address it.
pub open spec fn addressable(count: nat, width: nat) -> bool {
    count * width <= isize::MAX
}

/// The byte order under which the 16-bit number 1 is stored as `probe`, if
/// there is one.
pub open spec fn order_storing_one(probe: Seq<u8>) -> Option<ByteOrder> {
    if probe == element_bytes(1, 2, ByteOrder::LittleEndian) {
        Some(ByteOrder::LittleEndian)
    } else if probe == element_bytes(1, 2, ByteOrder::BigEndian) {
        Some(ByteOrder::BigEndian)
    } else {
        None
    }
}

/// `u16::to_ne_bytes` of the standard library: the two bytes of `x` as this
/// machine keeps them in memory. Taken on trust: the result is the
/// little-endian or the big-endian layout of `x`. Which of the two depends
/// on the machine and is left open.
#[verifier::external_body]
fn native_bytes(x: u16) -> (bytes: [u8; 2])
    ensures
        bytes@ == element_bytes(x as nat, 2, ByteOrder::LittleEndian) || bytes@ == element_bytes(
            x as nat,
            2,
            ByteOrder::BigEndian,
        ),
{
    x.to_ne_bytes()
}

impl ByteOrder {
    /// Tells from the stored form of the 16-bit number 1 which byte order
    /// stored it.
    pub fn from_probe(probe: [u8; 2]) -> (order: Option<ByteOrder>)
        ensures
            order == order_storing_one(probe@),
            order == Some(ByteOrder::LittleEndian) <==> probe[0] == 1 && probe[1] == 0,
            order == Some(ByteOrder::BigEndian) <==> probe[0] == 0 && probe[1] == 1,
    {
        proof {
            reveal_with_fuel(radix_power, 2);
            let little = element_bytes(1, 2, ByteOrder::LittleEndian);
            let big = element_bytes(1, 2, ByteOrder::BigEndian);
            assert(radix_power(0) == 1 && radix_power(1) == 256);
            assert(digit(1, 0) == 1 && digit(1, 1) == 0);
            assert(little =~= seq![1u8, 0u8]);
            assert(big =~= seq![0u8, 1u8]);
        }
        if probe[0] == 1 && probe[1] == 0 {
            assert(probe@ =~= seq![1u8, 0u8]);
            Some(ByteOrder::LittleEndian)
        } else if probe[0] == 0 && probe[1] == 1 {
            assert(probe@ =~= seq![0u8, 1u8]);
            Some(ByteOrder::BigEndian)
        } else {
            None
        }
    }

    /// The byte order of the machine this runs on. Which order that is cannot
    /// be known before the program runs, so nothing is promised of the
    /// result; everything that takes a byte order is proved for both.
    pub fn native() -> ByteOrder {
        let probe = native_bytes(1);
        match ByteOrder::from_probe(probe) {
            Some(order) => order,
            None => vstd::pervasive::unreached(),
        }
    }
}

/// Computes the byte length of `count` elements of `width` bytes each, and
/// refuses a length that the array runtime's signed length type cannot hold.
pub fn byte_length(count: usize, width: usize) -> (nbytes: Option<usize>)
    ensures
        addressable(count as nat, width as nat) ==> nbytes == Some((count * width) as usize),
        !addressable(count as nat, width as nat) ==> nbytes is None,
{
    let limit: usize = isize::MAX as usize;
    match count.checked_mul(width) {
        Some(n) => {
            if n <= limit {
                Some(n)
            } else {
                None
            }
        },
        None => None,
    }
}

/// Extracts the base-256 digit of `bits` at `place`.
fn digit_of(bits: u64, place: usize) -> (d: u8)
    requires
        place < 8,
    ensures
        d == digit(bits as nat, place as nat),
{
    let shift: u64 = 8 * (place as u64);
    let shifted: u64 = bits >> shift;
    proof {
        lemma_u64_shr_is_div(bits, shift);
        lemma_radix_power_is_pow2(place as nat);
    }
    (shifted % 256) as u8
}

/// Appends the bytes of one element to `out`.
fn push_element(out: &mut Vec<u8>, bits: u64, width: usize, order: ByteOrder)
    requires
        0 < width <= 8,
    ensures
        final(out)@ == old(out)@ + element_bytes(bits as nat, width as nat, order),
{
    let ghost image = element_bytes(bits as nat, width as nat, order);
    let mut offset: usize = 0;
    while offset < width
        invariant
            0 < width <= 8,
            offset <= width,
            image == element_bytes(bits as nat, width as nat, order),
            out@ == old(out)@ + image.take(offset as int),
        decreases width - offset,
    {
        let at: usize = match order {
            ByteOrder::LittleEndian => offset,
            ByteOrder::BigEndian => width - 1 - offset,
        };
        let d = digit_of(bits, at);
        out.push(d);
        assert(image.take(offset + 1) =~= image.take(offset as int).push(image[offset as int]));
        offset = offset + 1;
    }
    assert(image.take(width as int) =~= image);
}

/// Lays a buffer out as the flat byte sequence that the array runtime is
/// given: every element in order, each as `width` bytes in the byte order
/// `order`. The buffer is only read, and a reader of the bytes gets its
/// elements back.
pub fn byte_view<T: NumpyDtype>(buffer: &Vec<T>, order: ByteOrder) -> (bytes: Vec<u8>)
    ensures
        bytes@ == byte_image(buffer@, order),
        bytes@.len() == buffer@.len() * width(T::kind()),
        elements_of::<T>(bytes@, order) == buffer@,
{
    let w = width_of(T::element_kind());
    let ghost patterns = bit_patterns(buffer@);
    let mut bytes: Vec<u8> = match byte_length(buffer.len(), w) {
        Some(nbytes) => Vec::with_capacity(nbytes),
        None => Vec::new(),
    };
    let mut i: usize = 0;
    assert(bytes@ =~= buffer_bytes(patterns.take(0), w as nat, order));
    while i < buffer.len()
        invariant
            i <= buffer.len(),
            w == width(T::kind()),
            patterns == bit_patterns(buffer@),
            bytes@ == buffer_bytes(patterns.take(i as int), w as nat, order),
        decreases buffer.len() - i,
    {
        let bits = buffer[i].bits();
        push_element(&mut bytes, bits, w, order);
        proof {
            buffer_bytes_push(patterns.take(i as int), patterns[i as int], w as nat, order);
            assert(patterns.take(i + 1) =~= patterns.take(i as int).push(patterns[i as int]));
        }
        i = i + 1;
    }
    proof {
        assert(patterns.take(buffer.len() as int) =~= patterns);
        round_trip(buffer@, order);
    }
    bytes
}

/// An element kind has exactly as many bit patterns as its width allows.
pub proof fn cardinality_is_radix_power(kind: ElementKind)
    ensures
        cardinality(kind) == radix_power(width(kind)),
{
    reveal_with_fuel(radix_power, 9);
}

/// An element is read back from its own bytes unchanged.
pub proof fn element_round_trip(pattern: nat, width: nat, order: ByteOrder)
    requires
        pattern < radix_power(width),
    ensures
        element_bytes(pattern, width, order).len() == width,
        element_pattern(element_bytes(pattern, width, order), order) == pattern,
{
    lemma_element_pattern(pattern, width, order);
    lemma_small_mod(pattern, radix_power(width));
}

/// Within a buffer's bytes, the `k`-th run of `width` bytes is the `k`-th
/// element's bytes.
pub proof fn buffer_bytes_chunk(patterns: Seq<nat>, width: nat, order: ByteOrder, k: int)
    requires
        0 <= k < patterns.len(),
        width > 0,
    ensures
        k * width + width <= buffer_bytes(patterns, width, order).len(),
        buffer_bytes(patterns, width, order).subrange(k * width, k * width + width)
            == element_bytes(patterns[k], width, order),
{
    let bytes = buffer_bytes(patterns, width, order);
    let chunk = bytes.subrange(k * width, k * width + width);
    assert(k * width + width <= patterns.len() * width) by (nonlinear_arith)
        requires
            0 <= k < patterns.len(),
            width > 0,
    ;
    assert(0 <= k * width) by (nonlinear_arith)
        requires
            0 <= k,
            width > 0,
    ;
    assert forall|i: int| 0 <= i < width implies chunk[i] == element_bytes(
        patterns[k],
        width,
        order,
    )[i] by {
        lemma_fundamental_div_mod_converse(k * width + i, width as int, k, i);
    }
    assert(chunk =~= element_bytes(patterns[k], width, order));
}

/// Appending one element to a buffer appends that element's bytes.
pub proof fn buffer_bytes_push(patterns: Seq<nat>, pattern: nat, width: nat, order: ByteOrder)
    requires
        width > 0,
    ensures
        buffer_bytes(patterns.push(pattern), width, order) == buffer_bytes(patterns, width, order)
            + element_bytes(pattern, width, order),
{
    let n = patterns.len() as int;
    let w = width as int;
    let longer = buffer_bytes(patterns.push(pattern), width, order);
    let joined = buffer_bytes(patterns, width, order) + element_bytes(pattern, width, order);
    assert((n + 1) * w == n * w + w) by (nonlinear_arith);
    assert(0 <= n * w) by (nonlinear_arith)
        requires
            0 <= n,
            0 < w,
    ;
    assert forall|j: int| 0 <= j < longer.len() implies longer[j] == joined[j] by {
        if j < n * w {
            assert(j / w < n) by (nonlinear_arith)
                requires
                    0 <= j < n * w,
                    0 < w,
            ;
            assert(0 <= j / w) by (nonlinear_arith)
                requires
                    0 <= j,
                    0 < w,
            ;
        } else {
            lemma_fundamental_div_mod_converse(j, w, n, j - n * w);
        }
    }
    assert(longer =~= joined);
}

/// A buffer's elements are read back from its bytes unchanged and in order.
pub proof fn buffer_round_trip(patterns: Seq<nat>, width: nat, order: ByteOrder)
    requires
        width > 0,
        forall|i: int| 0 <= i < patterns.len() ==> patterns[i] < radix_power(width),
    ensures
        buffer_bytes(patterns, width, order).len() == patterns.len() * width,
        buffer_patterns(buffer_bytes(patterns, width, order), width, order) == patterns,
{
    let bytes = buffer_bytes(patterns, width, order);
    let read = buffer_patterns(bytes, width, order);
    lemma_fundamental_div_mod_converse(bytes.len() as int, width as int, patterns.len() as int, 0);
    assert forall|k: int| 0 <= k < patterns.len() implies read[k] == patterns[k] by {
        buffer_bytes_chunk(patterns, width, order, k);
        element_round_trip(patterns[k], width, order);
    }
    assert(read =~= patterns);
}

/// Reading back the bytes of a buffer yields every element of the buffer,
/// unchanged and in the same order, whatever the element type, the length
/// and the byte order.
pub proof fn round_trip<T: NumpyDtype>(elements: Seq<T>, order: ByteOrder)
    ensures
        elements_of::<T>(byte_image(elements, order), order) == elements,
{
    let patterns = bit_patterns(elements);
    cardinality_is_radix_power(T::kind());
    assert forall|i: int| 0 <= i < patterns.len() implies patterns[i] < radix_power(
        width(T::kind()),
    ) by {
        elements[i].pattern_is_faithful();
    }
    buffer_round_trip(patterns, width(T::kind()), order);
    let read = elements_of::<T>(byte_image(elements, order), order);
    assert forall|i: int| 0 <= i < elements.len() implies read[i] == elements[i] by {
        elements[i].pattern_is_faithful();
    }
    assert(read =~= elements);
}

/// The bytes of a buffer number exactly its element count times the width
/// of its element kind.
pub proof fn byte_image_length<T: NumpyDtype>(elements: Seq<T>, order: ByteOrder)
    ensures
        byte_image(elements, order).len() == elements.len() * width(T::kind()),
{
}

/// Dropping the lowest digit of a number shifts its other digits down by one
/// place.
proof fn lemma_digit_shift(pattern: nat, place: nat)
    ensures
        digit(pattern, place + 1) == digit(pattern / 256, place),
{
    lemma_radix_power_positive(place);
    lemma_div_denominator(pattern as int, 256, radix_power(place) as int);
}

/// Powers of 256 are positive.
proof fn lemma_radix_power_positive(places: nat)
    ensures
        radix_power(places) > 0,
    decreases places,
{
    if places > 0 {
        lemma_radix_power_positive((places - 1) as nat);
    }
}

/// 256 to the power `places` is 2 to the power `8 * places`.
proof fn lemma_radix_power_is_pow2(places: nat)
    ensures
        radix_power(places) == pow2(8 * places),
    decreases places,
{
    lemma2_to64();
    if places > 0 {
        lemma_radix_power_is_pow2((places - 1) as nat);
        lemma_pow2_adds(8, (8 * (places - 1)) as nat);
    }
}

/// Reading an element's bytes gives its pattern, reduced to the width.
proof fn lemma_element_pattern(pattern: nat, width: nat, order: ByteOrder)
    ensures
        element_pattern(element_bytes(pattern, width, order), order) == pattern % radix_power(
            width,
        ),
    decreases width,
{
    if width > 0 {
        let rest = (width - 1) as nat;
        let bytes = element_bytes(pattern, width, order);
        let upper = element_bytes(pattern / 256, rest, order);
        // The lowest byte is the pattern modulo 256 ...
        assert(digit(pattern, 0) == pattern % 256) by {
            assert(radix_power(0) == 1);
            assert(pattern / 1 == pattern);
        }
        // ... and the other bytes are the bytes of the pattern divided by 256.
        match order {
            ByteOrder::LittleEndian => {
                assert forall|i: int| 0 <= i < rest implies bytes.drop_first()[i] == upper[i] by {
                    lemma_digit_shift(pattern, i as nat);
                }
                assert(bytes.drop_first() =~= upper);
            },
            ByteOrder::BigEndian => {
                assert forall|i: int| 0 <= i < rest implies bytes.drop_last()[i] == upper[i] by {
                    lemma_digit_shift(pattern, (rest - 1 - i) as nat);
                }
                assert(bytes.drop_last() =~= upper);
            },
        }
        lemma_element_pattern(pattern / 256, rest, order);
        lemma_radix_power_positive(rest);
        lemma_mod_breakdown(pattern as int, 256, radix_power(rest) as int);
    }
}

} // verus!
