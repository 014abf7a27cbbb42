//! Program-derived addresses: encoding integers as seeds.

use vstd::prelude::*;

use crate::pubkey::Pubkey;

verus! {

/// Big-endian encoding of a `u8`: most significant byte first.
pub open spec fn be_bytes_u8(v: u8) -> Seq<u8> {
    seq![
        (v & 0xff) as u8,
    ]
}

/// Big-endian encoding of a `u16`: most significant byte first.
pub open spec fn be_bytes_u16(v: u16) -> Seq<u8> {
    seq![
        ((v >> 8u32) & 0xff) as u8,
        (v & 0xff) as u8,
    ]
}

/// Big-endian encoding of a `u32`: most significant byte first.
pub open spec fn be_bytes_u32(v: u32) -> Seq<u8> {
    seq![
        ((v >> 24u32) & 0xff) as u8,
        ((v >> 16u32) & 0xff) as u8,
        ((v >> 8u32) & 0xff) as u8,
        (v & 0xff) as u8,
    ]
}

/// Big-endian encoding of a `u64`: most significant byte first.
pub open spec fn be_bytes_u64(v: u64) -> Seq<u8> {
    seq![
        ((v >> 56u32) & 0xff) as u8,
        ((v >> 48u32) & 0xff) as u8,
        ((v >> 40u32) & 0xff) as u8,
        ((v >> 32u32) & 0xff) as u8,
        ((v >> 24u32) & 0xff) as u8,
        ((v >> 16u32) & 0xff) as u8,
        ((v >> 8u32) & 0xff) as u8,
        (v & 0xff) as u8,
    ]
}

/// Big-endian encoding of a `u128`: most significant byte first.
pub open spec fn be_bytes_u128(v: u128) -> Seq<u8> {
    seq![
        ((v >> 120u32) & 0xff) as u8,
        ((v >> 112u32) & 0xff) as u8,
        ((v >> 104u32) & 0xff) as u8,
        ((v >> 96u32) & 0xff) as u8,
        ((v >> 88u32) & 0xff) as u8,
        ((v >> 80u32) & 0xff) as u8,
        ((v >> 72u32) & 0xff) as u8,
        ((v >> 64u32) & 0xff) as u8,
        ((v >> 56u32) & 0xff) as u8,
        ((v >> 48u32) & 0xff) as u8,
        ((v >> 40u32) & 0xff) as u8,
        ((v >> 32u32) & 0xff) as u8,
        ((v >> 24u32) & 0xff) as u8,
        ((v >> 16u32) & 0xff) as u8,
        ((v >> 8u32) & 0xff) as u8,
        (v & 0xff) as u8,
    ]
}

/// Big-endian encoding of an `i8`: its two's-complement bits, most significant byte first.
pub open spec fn be_bytes_i8(v: i8) -> Seq<u8> {
    be_bytes_u8(v as u8)
}

/// Big-endian encoding of an `i16`: its two's-complement bits, most significant byte first.
pub open spec fn be_bytes_i16(v: i16) -> Seq<u8> {
    be_bytes_u16(v as u16)
}

/// Big-endian encoding of an `i32`: its two's-complement bits, most significant byte first.
pub open spec fn be_bytes_i32(v: i32) -> Seq<u8> {
    be_bytes_u32(v as u32)
}

/// Big-endian encoding of an `i64`: its two's-complement bits, most significant byte first.
pub open spec fn be_bytes_i64(v: i64) -> Seq<u8> {
    be_bytes_u64(v as u64)
}

/// Big-endian encoding of an `i128`: its two's-complement bits, most significant byte first.
pub open spec fn be_bytes_i128(v: i128) -> Seq<u8> {
    be_bytes_u128(v as u128)
}

/// Derives the program-derived address of a type from some seeds.
pub trait DeriveAddress {
    /// The seeds that determine the address: a primitive, a struct or a tuple.
    type Seeds<'a>;

    /// The address and its bump seed, found by trying bump seeds from 255 down.
    fn find_program_address(seeds: Self::Seeds<'_>) -> (Pubkey, u8);

    /// The address for a given bump seed, if that bump seed gives an address off the curve.
    fn create_program_address(seeds: Self::Seeds<'_>, bump_seed: u8) -> Option<Pubkey>;
}

/// Encodes an integer as a seed: its big-endian bytes, so that the encoding is the same on
/// every machine.
pub trait ToSeed {
    type Bytes;

    fn to_seed(self) -> Self::Bytes;
}

impl ToSeed for u8 {
    type Bytes = [u8; 1];

    fn to_seed(self) -> (r: [u8; 1])
        ensures
            r@ == be_bytes_u8(self),
    {
        let r = [
            (self & 0xff) as u8,
        ];
        assert(r@ =~= be_bytes_u8(self));
        r
    }
}

impl ToSeed for u16 {
    type Bytes = [u8; 2];

    fn to_seed(self) -> (r: [u8; 2])
        ensures
            r@ == be_bytes_u16(self),
    {
        let r = [
            ((self >> 8u32) & 0xff) as u8,
            (self & 0xff) as u8,
        ];
        assert(r@ =~= be_bytes_u16(self));
        r
    }
}

impl ToSeed for u32 {
    type Bytes = [u8; 4];

    fn to_seed(self) -> (r: [u8; 4])
        ensures
            r@ == be_bytes_u32(self),
    {
        let r = [
            ((self >> 24u32) & 0xff) as u8,
            ((self >> 16u32) & 0xff) as u8,
            ((self >> 8u32) & 0xff) as u8,
            (self & 0xff) as u8,
        ];
        assert(r@ =~= be_bytes_u32(self));
        r
    }
}

impl ToSeed for u64 {
    type Bytes = [u8; 8];

    fn to_seed(self) -> (r: [u8; 8])
        ensures
            r@ == be_bytes_u64(self),
    {
        let r = [
            ((self >> 56u32) & 0xff) as u8,
            ((self >> 48u32) & 0xff) as u8,
            ((self >> 40u32) & 0xff) as u8,
            ((self >> 32u32) & 0xff) as u8,
            ((self >> 24u32) & 0xff) as u8,
            ((self >> 16u32) & 0xff) as u8,
            ((self >> 8u32) & 0xff) as u8,
            (self & 0xff) as u8,
        ];
        assert(r@ =~= be_bytes_u64(self));
        r
    }
}

impl ToSeed for u128 {
    type Bytes = [u8; 16];

    fn to_seed(self) -> (r: [u8; 16])
        ensures
            r@ == be_bytes_u128(self),
    {
        let r = [
            ((self >> 120u32) & 0xff) as u8,
            ((self >> 112u32) & 0xff) as u8,
            ((self >> 104u32) & 0xff) as u8,
            ((self >> 96u32) & 0xff) as u8,
            ((self >> 88u32) & 0xff) as u8,
            ((self >> 80u32) & 0xff) as u8,
            ((self >> 72u32) & 0xff) as u8,
            ((self >> 64u32) & 0xff) as u8,
            ((self >> 56u32) & 0xff) as u8,
            ((self >> 48u32) & 0xff) as u8,
            ((self >> 40u32) & 0xff) as u8,
            ((self >> 32u32) & 0xff) as u8,
            ((self >> 24u32) & 0xff) as u8,
            ((self >> 16u32) & 0xff) as u8,
            ((self >> 8u32) & 0xff) as u8,
            (self & 0xff) as u8,
        ];
        assert(r@ =~= be_bytes_u128(self));
        r
    }
}

impl ToSeed for i8 {
    type Bytes = [u8; 1];

    fn to_seed(self) -> (r: [u8; 1])
        ensures
            r@ == be_bytes_i8(self),
    {
        (self as u8).to_seed()
    }
}

impl ToSeed for i16 {
    type Bytes = [u8; 2];

    fn to_seed(self) -> (r: [u8; 2])
        ensures
            r@ == be_bytes_i16(self),
    {
        (self as u16).to_seed()
    }
}

impl ToSeed for i32 {
    type Bytes = [u8; 4];

    fn to_seed(self) -> (r: [u8; 4])
        ensures
            r@ == be_bytes_i32(self),
    {
        (self as u32).to_seed()
    }
}

impl ToSeed for i64 {
    type Bytes = [u8; 8];

    fn to_seed(self) -> (r: [u8; 8])
        ensures
            r@ == be_bytes_i64(self),
    {
        (self as u64).to_seed()
    }
}

impl ToSeed for i128 {
    type Bytes = [u8; 16];

    fn to_seed(self) -> (r: [u8; 16])
        ensures
            r@ == be_bytes_i128(self),
    {
        (self as u128).to_seed()
    }
}

/// Different integers give different seeds: the big-endian encoding of each integer type is
/// injective.
pub proof fn lemma_to_seed_injective_u16(a: u16, b: u16)
    ensures
        be_bytes_u16(a) == be_bytes_u16(b) ==> a == b,
{
    if be_bytes_u16(a) == be_bytes_u16(b) {
        assert(be_bytes_u16(a)[0] == be_bytes_u16(b)[0]);
        assert(be_bytes_u16(a)[1] == be_bytes_u16(b)[1]);
        assert((((a >> 8u32) & 0xff) as u8 == ((b >> 8u32) & 0xff) as u8 && (a & 0xff) as u8 == (b
            & 0xff) as u8) ==> a == b) by (bit_vector);
    }
}

/// Different `u32` values give different seeds.
pub proof fn lemma_to_seed_injective_u32(a: u32, b: u32)
    ensures
        be_bytes_u32(a) == be_bytes_u32(b) ==> a == b,
{
    if be_bytes_u32(a) == be_bytes_u32(b) {
        assert(be_bytes_u32(a)[0] == be_bytes_u32(b)[0]);
        assert(be_bytes_u32(a)[1] == be_bytes_u32(b)[1]);
        assert(be_bytes_u32(a)[2] == be_bytes_u32(b)[2]);
        assert(be_bytes_u32(a)[3] == be_bytes_u32(b)[3]);
        assert((((a >> 24u32) & 0xff) as u8 == ((b >> 24u32) & 0xff) as u8 && ((a >> 16u32) & 0xff) as u8
            == ((b >> 16u32) & 0xff) as u8 && ((a >> 8u32) & 0xff) as u8 == ((b >> 8u32) & 0xff) as u8
            && (a & 0xff) as u8 == (b & 0xff) as u8) ==> a == b) by (bit_vector);
    }
}

/// Different `u64` values give different seeds.
pub proof fn lemma_to_seed_injective_u64(a: u64, b: u64)
    ensures
        be_bytes_u64(a) == be_bytes_u64(b) ==> a == b,
{
    if be_bytes_u64(a) == be_bytes_u64(b) {
        let (x, y) = (be_bytes_u64(a), be_bytes_u64(b));
        assert(x[0] == y[0] && x[1] == y[1] && x[2] == y[2] && x[3] == y[3]);
        assert(x[4] == y[4] && x[5] == y[5] && x[6] == y[6] && x[7] == y[7]);
        assert((((a >> 56u32) & 0xff) as u8 == ((b >> 56u32) & 0xff) as u8 && ((a >> 48u32) & 0xff) as u8
            == ((b >> 48u32) & 0xff) as u8 && ((a >> 40u32) & 0xff) as u8 == ((b >> 40u32) & 0xff) as u8
            && ((a >> 32u32) & 0xff) as u8 == ((b >> 32u32) & 0xff) as u8 && ((a >> 24u32) & 0xff) as u8
            == ((b >> 24u32) & 0xff) as u8 && ((a >> 16u32) & 0xff) as u8 == ((b >> 16u32) & 0xff) as u8
            && ((a >> 8u32) & 0xff) as u8 == ((b >> 8u32) & 0xff) as u8 && (a & 0xff) as u8 == (b & 0xff) as u8)
            ==> a == b) by (bit_vector);
    }
}

/// Different `i64` values give different seeds.
pub proof fn lemma_to_seed_injective_i64(a: i64, b: i64)
    ensures
        be_bytes_i64(a) == be_bytes_i64(b) ==> a == b,
{
    lemma_to_seed_injective_u64(a as u64, b as u64);
    assert((a as u64) == (b as u64) ==> a == b) by (bit_vector);
}

/// Different `u8` values give different seeds.
pub proof fn lemma_to_seed_injective_u8(a: u8, b: u8)
    ensures
        be_bytes_u8(a) == be_bytes_u8(b) ==> a == b,
{
    if be_bytes_u8(a) == be_bytes_u8(b) {
        assert(be_bytes_u8(a)[0] == be_bytes_u8(b)[0]);
        assert((a & 0xff) as u8 == (b & 0xff) as u8 ==> a == b) by (bit_vector);
    }
}

/// Different `u128` values give different seeds.
pub proof fn lemma_to_seed_injective_u128(a: u128, b: u128)
    ensures
        be_bytes_u128(a) == be_bytes_u128(b) ==> a == b,
{
    if be_bytes_u128(a) == be_bytes_u128(b) {
        let (x, y) = (be_bytes_u128(a), be_bytes_u128(b));
        assert(x[0] == y[0] && x[1] == y[1] && x[2] == y[2] && x[3] == y[3] && x[4] == y[4] && x[5] == y[5] && x[6] == y[6] && x[7] == y[7] && x[8] == y[8] && x[9] == y[9] && x[10] == y[10] && x[11] == y[11] && x[12] == y[12] && x[13] == y[13] && x[14] == y[14] && x[15] == y[15]);
        assert((((a >> 120u32) & 0xff) as u8 == ((b >> 120u32) & 0xff) as u8
            && ((a >> 112u32) & 0xff) as u8 == ((b >> 112u32) & 0xff) as u8
            && ((a >> 104u32) & 0xff) as u8 == ((b >> 104u32) & 0xff) as u8
            && ((a >> 96u32) & 0xff) as u8 == ((b >> 96u32) & 0xff) as u8
            && ((a >> 88u32) & 0xff) as u8 == ((b >> 88u32) & 0xff) as u8
            && ((a >> 80u32) & 0xff) as u8 == ((b >> 80u32) & 0xff) as u8
            && ((a >> 72u32) & 0xff) as u8 == ((b >> 72u32) & 0xff) as u8
            && ((a >> 64u32) & 0xff) as u8 == ((b >> 64u32) & 0xff) as u8
            && ((a >> 56u32) & 0xff) as u8 == ((b >> 56u32) & 0xff) as u8
            && ((a >> 48u32) & 0xff) as u8 == ((b >> 48u32) & 0xff) as u8
            && ((a >> 40u32) & 0xff) as u8 == ((b >> 40u32) & 0xff) as u8
            && ((a >> 32u32) & 0xff) as u8 == ((b >> 32u32) & 0xff) as u8
            && ((a >> 24u32) & 0xff) as u8 == ((b >> 24u32) & 0xff) as u8
            && ((a >> 16u32) & 0xff) as u8 == ((b >> 16u32) & 0xff) as u8
            && ((a >> 8u32) & 0xff) as u8 == ((b >> 8u32) & 0xff) as u8
            && (a & 0xff) as u8 == (b & 0xff) as u8)
            ==> a == b) by (bit_vector);
    }
}

/// Different `i8` values give different seeds.
pub proof fn lemma_to_seed_injective_i8(a: i8, b: i8)
    ensures
        be_bytes_i8(a) == be_bytes_i8(b) ==> a == b,
{
    lemma_to_seed_injective_u8(a as u8, b as u8);
    assert((a as u8) == (b as u8) ==> a == b) by (bit_vector);
}

/// Different `i16` values give different seeds.
pub proof fn lemma_to_seed_injective_i16(a: i16, b: i16)
    ensures
        be_bytes_i16(a) == be_bytes_i16(b) ==> a == b,
{
    lemma_to_seed_injective_u16(a as u16, b as u16);
    assert((a as u16) == (b as u16) ==> a == b) by (bit_vector);
}

/// Different `i32` values give different seeds.
pub proof fn lemma_to_seed_injective_i32(a: i32, b: i32)
    ensures
        be_bytes_i32(a) == be_bytes_i32(b) ==> a == b,
{
    lemma_to_seed_injective_u32(a as u32, b as u32);
    assert((a as u32) == (b as u32) ==> a == b) by (bit_vector);
}

/// Different `i128` values give different seeds.
pub proof fn lemma_to_seed_injective_i128(a: i128, b: i128)
    ensures
        be_bytes_i128(a) == be_bytes_i128(b) ==> a == b,
{
    lemma_to_seed_injective_u128(a as u128, b as u128);
    assert((a as u128) == (b as u128) ==> a == b) by (bit_vector);
}

} // verus!
