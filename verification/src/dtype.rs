//! The type descriptor registry: which element kinds exist, how wide each one
//! is, and under which name the array runtime knows it.
//!
//! The table is closed. A host type takes part in a transfer only by
//! implementing [`NumpyDtype`], and an implementation has to name one of the
//! kinds listed here and prove that its constant agrees with the table.

use vstd::prelude::*;

verus! {

/// The element kinds an array can be made of.
#[derive(Clone, Copy, Debug, PartialEq, Eq, Structural)]
pub enum ElementKind {
    Uint16,
    Int16,
    Uint32,
    Int32,
    Float32,
    Uint64,
    Int64,
    Float64,
}

/// The name the array runtime gives to `kind`.
pub open spec fn identifier(kind: ElementKind) -> Seq<char> {
    match kind {
        ElementKind::Uint16 => "uint16"@,
        ElementKind::Int16 => "int16"@,
        ElementKind::Uint32 => "uint32"@,
        ElementKind::Int32 => "int32"@,
        ElementKind::Float32 => "float32"@,
        ElementKind::Uint64 => "uint64"@,
        ElementKind::Int64 => "int64"@,
        ElementKind::Float64 => "float64"@,
    }
}

/// The number of bytes one element of `kind` occupies, on every platform.
pub open spec fn width(kind: ElementKind) -> nat {
    match kind {
        ElementKind::Uint16 | ElementKind::Int16 => 2,
        ElementKind::Uint32 | ElementKind::Int32 | ElementKind::Float32 => 4,
        ElementKind::Uint64 | ElementKind::Int64 | ElementKind::Float64 => 8,
    }
}

/// The number of distinct bit patterns an element of `kind` can take:
/// 256 to the power of its width.
pub open spec fn cardinality(kind: ElementKind) -> nat {
    match kind {
        ElementKind::Uint16 | ElementKind::Int16 => 0x1_0000,
        ElementKind::Uint32 | ElementKind::Int32 | ElementKind::Float32 => 0x1_0000_0000,
        ElementKind::Uint64 | ElementKind::Int64 | ElementKind::Float64 => 0x1_0000_0000_0000_0000,
    }
}

/// Looks up the runtime's name for `kind`.
pub fn identifier_for(kind: ElementKind) -> (name: &'static str)
    ensures
        name@ == identifier(kind),
        name@.len() > 0,
{
    proof {
        identifier_nonempty(kind);
    }
    match kind {
        ElementKind::Uint16 => "uint16",
        ElementKind::Int16 => "int16",
        ElementKind::Uint32 => "uint32",
        ElementKind::Int32 => "int32",
        ElementKind::Float32 => "float32",
        ElementKind::Uint64 => "uint64",
        ElementKind::Int64 => "int64",
        ElementKind::Float64 => "float64",
    }
}

/// Looks up the byte width of one element of `kind`.
pub fn width_of(kind: ElementKind) -> (w: usize)
    ensures
        w == width(kind),
        w == 2 || w == 4 || w == 8,
{
    match kind {
        ElementKind::Uint16 | ElementKind::Int16 => 2,
        ElementKind::Uint32 | ElementKind::Int32 | ElementKind::Float32 => 4,
        ElementKind::Uint64 | ElementKind::Int64 | ElementKind::Float64 => 8,
    }
}

/// Every kind has a name of at least one character.
pub proof fn identifier_nonempty(kind: ElementKind)
    ensures
        identifier(kind).len() > 0,
{
    reveal_identifiers();
}

/// No name is shared: two kinds with the same identifier are the same kind.
pub proof fn identifier_injective(a: ElementKind, b: ElementKind)
    requires
        identifier(a) == identifier(b),
    ensures
        a == b,
{
    reveal_identifiers();
    let (x, y) = (identifier(a), identifier(b));
    assert(x.len() == y.len());
    assert(x[0] == y[0]);
    assert(x[4] == y[4]);
    if x.len() > 5 {
        assert(x[5] == y[5]);
    }
}

/// Spells out, character by character, what each registered name is.
proof fn reveal_identifiers()
    ensures
        "uint16"@ == seq!['u', 'i', 'n', 't', '1', '6'],
        "int16"@ == seq!['i', 'n', 't', '1', '6'],
        "uint32"@ == seq!['u', 'i', 'n', 't', '3', '2'],
        "int32"@ == seq!['i', 'n', 't', '3', '2'],
        "float32"@ == seq!['f', 'l', 'o', 'a', 't', '3', '2'],
        "uint64"@ == seq!['u', 'i', 'n', 't', '6', '4'],
        "int64"@ == seq!['i', 'n', 't', '6', '4'],
        "float64"@ == seq!['f', 'l', 'o', 'a', 't', '6', '4'],
{
    reveal_strlit("uint16");
    reveal_strlit("int16");
    reveal_strlit("uint32");
    reveal_strlit("int32");
    reveal_strlit("float32");
    reveal_strlit("uint64");
    reveal_strlit("int64");
    reveal_strlit("float64");
    assert("uint16"@ =~= seq!['u', 'i', 'n', 't', '1', '6']);
    assert("int16"@ =~= seq!['i', 'n', 't', '1', '6']);
    assert("uint32"@ =~= seq!['u', 'i', 'n', 't', '3', '2']);
    assert("int32"@ =~= seq!['i', 'n', 't', '3', '2']);
    assert("float32"@ =~= seq!['f', 'l', 'o', 'a', 't', '3', '2']);
    assert("uint64"@ =~= seq!['u', 'i', 'n', 't', '6', '4']);
    assert("int64"@ =~= seq!['i', 'n', 't', '6', '4']);
    assert("float64"@ =~= seq!['f', 'l', 'o', 'a', 't', '6', '4']);
}

/// A host element type that the array runtime has a name for.
///
/// An element is sent as its bit pattern: the unsigned number whose binary
/// digits are the bits of the element in memory. Unsigned integers are their
/// own pattern, signed integers use two's complement, and floating-point
/// elements travel as the IEEE 754 patterns held by [`Float32Bits`] and
/// [`Float64Bits`].
pub trait NumpyDtype: Sized {
    /// The kind of array element this type is.
    spec fn kind() -> ElementKind;

    /// The bit pattern of this element.
    spec fn pattern(&self) -> nat;

    /// The element that has bit pattern `p`.
    spec fn from_pattern(p: nat) -> Self;

    /// The dtype name, such as `"uint16"`.
    const DTYPE: &'static str;

    /// The constant is the registry's name for the kind.
    proof fn dtype_is_registered()
        ensures
            Self::DTYPE@ == identifier(Self::kind()),
    ;

    /// The pattern fits the kind's width, and the element can be recovered
    /// from it.
    proof fn pattern_is_faithful(&self)
        ensures
            self.pattern() < cardinality(Self::kind()),
            Self::from_pattern(self.pattern()) == *self,
    ;

    /// The kind of array element this type is.
    fn element_kind() -> (kind: ElementKind)
        ensures
            kind == Self::kind(),
    ;

    /// The bit pattern of this element.
    fn bits(&self) -> (b: u64)
        ensures
            b == self.pattern(),
    ;
}

impl NumpyDtype for u16 {
    open spec fn kind() -> ElementKind {
        ElementKind::Uint16
    }

    open spec fn pattern(&self) -> nat {
        *self as nat
    }

    open spec fn from_pattern(p: nat) -> Self {
        p as u16
    }

    const DTYPE: &'static str = "uint16";

    proof fn dtype_is_registered() {
    }

    proof fn pattern_is_faithful(&self) {
    }

    fn element_kind() -> (kind: ElementKind) {
        ElementKind::Uint16
    }

    fn bits(&self) -> (b: u64) {
        *self as u64
    }
}

impl NumpyDtype for i16 {
    open spec fn kind() -> ElementKind {
        ElementKind::Int16
    }

    open spec fn pattern(&self) -> nat {
        if *self >= 0 {
            *self as nat
        } else {
            (*self + 0x1_0000) as nat
        }
    }

    open spec fn from_pattern(p: nat) -> Self {
        if p < 0x8000 {
            p as i16
        } else {
            (p - 0x1_0000) as i16
        }
    }

    const DTYPE: &'static str = "int16";

    proof fn dtype_is_registered() {
    }

    proof fn pattern_is_faithful(&self) {
    }

    fn element_kind() -> (kind: ElementKind) {
        ElementKind::Int16
    }

    fn bits(&self) -> (b: u64) {
        let wide: i64 = *self as i64;
        if wide >= 0 {
            wide as u64
        } else {
            (wide + 0x1_0000) as u64
        }
    }
}

impl NumpyDtype for u32 {
    open spec fn kind() -> ElementKind {
        ElementKind::Uint32
    }

    open spec fn pattern(&self) -> nat {
        *self as nat
    }

    open spec fn from_pattern(p: nat) -> Self {
        p as u32
    }

    const DTYPE: &'static str = "uint32";

    proof fn dtype_is_registered() {
    }

    proof fn pattern_is_faithful(&self) {
    }

    fn element_kind() -> (kind: ElementKind) {
        ElementKind::Uint32
    }

    fn bits(&self) -> (b: u64) {
        *self as u64
    }
}

impl NumpyDtype for i32 {
    open spec fn kind() -> ElementKind {
        ElementKind::Int32
    }

    open spec fn pattern(&self) -> nat {
        if *self >= 0 {
            *self as nat
        } else {
            (*self + 0x1_0000_0000) as nat
        }
    }

    open spec fn from_pattern(p: nat) -> Self {
        if p < 0x8000_0000 {
            p as i32
        } else {
            (p - 0x1_0000_0000) as i32
        }
    }

    const DTYPE: &'static str = "int32";

    proof fn dtype_is_registered() {
    }

    proof fn pattern_is_faithful(&self) {
    }

    fn element_kind() -> (kind: ElementKind) {
        ElementKind::Int32
    }

    fn bits(&self) -> (b: u64) {
        let wide: i64 = *self as i64;
        if wide >= 0 {
            wide as u64
        } else {
            (wide + 0x1_0000_0000) as u64
        }
    }
}

impl NumpyDtype for u64 {
    open spec fn kind() -> ElementKind {
        ElementKind::Uint64
    }

    open spec fn pattern(&self) -> nat {
        *self as nat
    }

    open spec fn from_pattern(p: nat) -> Self {
        p as u64
    }

    const DTYPE: &'static str = "uint64";

    proof fn dtype_is_registered() {
    }

    proof fn pattern_is_faithful(&self) {
    }

    fn element_kind() -> (kind: ElementKind) {
        ElementKind::Uint64
    }

    fn bits(&self) -> (b: u64) {
        *self
    }
}

impl NumpyDtype for i64 {
    open spec fn kind() -> ElementKind {
        ElementKind::Int64
    }

    open spec fn pattern(&self) -> nat {
        if *self >= 0 {
            *self as nat
        } else {
            (*self + 0x1_0000_0000_0000_0000) as nat
        }
    }

    open spec fn from_pattern(p: nat) -> Self {
        if p < 0x8000_0000_0000_0000 {
            p as i64
        } else {
            (p - 0x1_0000_0000_0000_0000) as i64
        }
    }

    const DTYPE: &'static str = "int64";

    proof fn dtype_is_registered() {
    }

    proof fn pattern_is_faithful(&self) {
    }

    fn element_kind() -> (kind: ElementKind) {
        ElementKind::Int64
    }

    fn bits(&self) -> (b: u64) {
        let wide: i128 = *self as i128;
        if wide >= 0 {
            wide as u64
        } else {
            (wide + 0x1_0000_0000_0000_0000) as u64
        }
    }
}

/// A 32-bit floating-point element, held as its IEEE 754 bit pattern.
#[derive(Clone, Copy, Debug, PartialEq, Eq, Structural)]
pub struct Float32Bits(pub u32);

/// A 64-bit floating-point element, held as its IEEE 754 bit pattern.
#[derive(Clone, Copy, Debug, PartialEq, Eq, Structural)]
pub struct Float64Bits(pub u64);

impl NumpyDtype for Float32Bits {
    open spec fn kind() -> ElementKind {
        ElementKind::Float32
    }

    open spec fn pattern(&self) -> nat {
        self.0 as nat
    }

    open spec fn from_pattern(p: nat) -> Self {
        Float32Bits(p as u32)
    }

    const DTYPE: &'static str = "float32";

    proof fn dtype_is_registered() {
    }

    proof fn pattern_is_faithful(&self) {
    }

    fn element_kind() -> (kind: ElementKind) {
        ElementKind::Float32
    }

    fn bits(&self) -> (b: u64) {
        self.0 as u64
    }
}

impl NumpyDtype for Float64Bits {
    open spec fn kind() -> ElementKind {
        ElementKind::Float64
    }

    open spec fn pattern(&self) -> nat {
        self.0 as nat
    }

    open spec fn from_pattern(p: nat) -> Self {
        Float64Bits(p as u64)
    }

    const DTYPE: &'static str = "float64";

    proof fn dtype_is_registered() {
    }

    proof fn pattern_is_faithful(&self) {
    }

    fn element_kind() -> (kind: ElementKind) {
        ElementKind::Float64
    }

    fn bits(&self) -> (b: u64) {
        self.0
    }
}

} // verus!
