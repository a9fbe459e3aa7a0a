use vstd::prelude::*;
use vstd::bytes::*;
use vstd::endian::{endianness, Endian};
use zerocopy::{FromBytes, IntoBytes};

verus! {

broadcast use vstd::array::group_array_axioms;

/// A fixed-size value that can be stored in a queue slot as bytes.
///
/// `encode` gives the bytes stored for a value, `decode` the value read back
/// from bytes; every value has exactly `byte_len()` bytes and reads back as
/// itself.
pub trait QueueElement: Sized {
    /// The number of bytes of one element.
    spec fn byte_len() -> nat;

    /// The bytes that stand for `self` in a slot.
    spec fn encode(self) -> Seq<u8>;

    /// The value that `bytes` stand for.
    spec fn decode(bytes: Seq<u8>) -> Self;

    /// Encoding has the element's length, and decoding gives the value back.
    proof fn lemma_codec(x: Self)
        ensures
            x.encode().len() == Self::byte_len(),
            Self::decode(x.encode()) == x,
    ;

    /// The number of bytes of one element.
    fn size() -> (n: usize)
        ensures
            n == Self::byte_len(),
    ;

    /// Writes the element out as bytes.
    fn to_bytes(&self) -> (bytes: Vec<u8>)
        ensures
            bytes@ == self.encode(),
    ;

    /// Reads an element from exactly `byte_len()` bytes.
    fn from_bytes(bytes: &[u8]) -> (x: Self)
        requires
            bytes@.len() == Self::byte_len(),
        ensures
            x == Self::decode(bytes@),
    ;
}

/// The in-memory order of the bytes of an integer whose little-endian bytes
/// are `le`: as they are on a little-endian machine, reversed on a big-endian
/// one. Applied to in-memory bytes it gives the little-endian bytes back.
pub open spec fn native_order(le: Seq<u8>) -> Seq<u8> {
    match endianness() {
        Endian::Little => le,
        Endian::Big => le.reverse(),
    }
}

proof fn lemma_native_order_involution(s: Seq<u8>)
    ensures
        native_order(native_order(s)) == s,
        native_order(s).len() == s.len(),
{
    assert(s.reverse().reverse() =~= s);
}

/// `zerocopy::IntoBytes::as_bytes` on a `u16`: the two bytes of its
/// in-memory representation, in the machine's byte order.
#[verifier::external_body]
fn u16_as_bytes(x: &u16) -> (bytes: Vec<u8>)
    ensures
        bytes@ == native_order(spec_u16_to_le_bytes(*x)),
{
    x.as_bytes().to_vec()
}

/// `zerocopy::FromBytes::read_from_bytes` for a `u16`: the value whose
/// in-memory representation is the two given bytes; it fails only on
/// another length, which the precondition rules out.
#[verifier::external_body]
fn u16_read_from_bytes(bytes: &[u8]) -> (x: u16)
    requires
        bytes@.len() == 2,
    ensures
        x == spec_u16_from_le_bytes(native_order(bytes@)),
{
    u16::read_from_bytes(bytes).unwrap()
}

/// `zerocopy::IntoBytes::as_bytes` on a `u32`: the four bytes of its
/// in-memory representation, in the machine's byte order.
#[verifier::external_body]
fn u32_as_bytes(x: &u32) -> (bytes: Vec<u8>)
    ensures
        bytes@ == native_order(spec_u32_to_le_bytes(*x)),
{
    x.as_bytes().to_vec()
}

/// `zerocopy::FromBytes::read_from_bytes` for a `u32`: the value whose
/// in-memory representation is the four given bytes; it fails only on
/// another length, which the precondition rules out.
#[verifier::external_body]
fn u32_read_from_bytes(bytes: &[u8]) -> (x: u32)
    requires
        bytes@.len() == 4,
    ensures
        x == spec_u32_from_le_bytes(native_order(bytes@)),
{
    u32::read_from_bytes(bytes).unwrap()
}

/// `zerocopy::IntoBytes::as_bytes` on a `u64`: the eight bytes of its
/// in-memory representation, in the machine's byte order.
#[verifier::external_body]
fn u64_as_bytes(x: &u64) -> (bytes: Vec<u8>)
    ensures
        bytes@ == native_order(spec_u64_to_le_bytes(*x)),
{
    x.as_bytes().to_vec()
}

/// `zerocopy::FromBytes::read_from_bytes` for a `u64`: the value whose
/// in-memory representation is the eight given bytes; it fails only on
/// another length, which the precondition rules out.
#[verifier::external_body]
fn u64_read_from_bytes(bytes: &[u8]) -> (x: u64)
    requires
        bytes@.len() == 8,
    ensures
        x == spec_u64_from_le_bytes(native_order(bytes@)),
{
    u64::read_from_bytes(bytes).unwrap()
}

/// `zerocopy::IntoBytes::as_bytes` on a `u8`: the byte itself.
#[verifier::external_body]
fn u8_as_bytes(x: &u8) -> (bytes: Vec<u8>)
    ensures
        bytes@ == seq![*x],
{
    x.as_bytes().to_vec()
}

/// `zerocopy::FromBytes::read_from_bytes` for a `u8`: the one given byte;
/// it fails only on another length, which the precondition rules out.
#[verifier::external_body]
fn u8_read_from_bytes(bytes: &[u8]) -> (x: u8)
    requires
        bytes@.len() == 1,
    ensures
        x == bytes@[0],
{
    u8::read_from_bytes(bytes).unwrap()
}

/// `zerocopy::IntoBytes::as_bytes` on a byte array: its bytes in order.
#[verifier::external_body]
fn array_as_bytes<const N: usize>(a: &[u8; N]) -> (bytes: Vec<u8>)
    ensures
        bytes@ == a@,
{
    a.as_bytes().to_vec()
}

/// `zerocopy::FromBytes::read_from_bytes` for a byte array: the array of
/// the given bytes; it fails only on another length, which the
/// precondition rules out.
#[verifier::external_body]
fn array_read_from_bytes<const N: usize>(bytes: &[u8]) -> (a: [u8; N])
    requires
        bytes@.len() == N,
    ensures
        a@ == bytes@,
{
    <[u8; N]>::read_from_bytes(bytes).unwrap()
}

/// `zerocopy::IntoBytes::as_bytes` on an `i8`: the one bytes of its
/// in-memory representation, in the machine's byte order.
#[verifier::external_body]
fn i8_as_bytes(x: &i8) -> (bytes: Vec<u8>)
    ensures
        bytes@ == seq![*x as u8],
{
    x.as_bytes().to_vec()
}

/// `zerocopy::FromBytes::read_from_bytes` for an `i8`: the value whose
/// in-memory representation is the given bytes; it fails only on another
/// length, which the precondition rules out.
#[verifier::external_body]
fn i8_read_from_bytes(bytes: &[u8]) -> (x: i8)
    requires
        bytes@.len() == 1,
    ensures
        x == bytes@[0] as i8,
{
    i8::read_from_bytes(bytes).unwrap()
}

/// `zerocopy::IntoBytes::as_bytes` on an `i16`: the two bytes of its
/// in-memory representation, in the machine's byte order.
#[verifier::external_body]
fn i16_as_bytes(x: &i16) -> (bytes: Vec<u8>)
    ensures
        bytes@ == native_order(spec_u16_to_le_bytes(*x as u16)),
{
    x.as_bytes().to_vec()
}

/// `zerocopy::FromBytes::read_from_bytes` for an `i16`: the value whose
/// in-memory representation is the given bytes; it fails only on another
/// length, which the precondition rules out.
#[verifier::external_body]
fn i16_read_from_bytes(bytes: &[u8]) -> (x: i16)
    requires
        bytes@.len() == 2,
    ensures
        x == spec_u16_from_le_bytes(native_order(bytes@)) as i16,
{
    i16::read_from_bytes(bytes).unwrap()
}

/// `zerocopy::IntoBytes::as_bytes` on an `i32`: the four bytes of its
/// in-memory representation, in the machine's byte order.
#[verifier::external_body]
fn i32_as_bytes(x: &i32) -> (bytes: Vec<u8>)
    ensures
        bytes@ == native_order(spec_u32_to_le_bytes(*x as u32)),
{
    x.as_bytes().to_vec()
}

/// `zerocopy::FromBytes::read_from_bytes` for an `i32`: the value whose
/// in-memory representation is the given bytes; it fails only on another
/// length, which the precondition rules out.
#[verifier::external_body]
fn i32_read_from_bytes(bytes: &[u8]) -> (x: i32)
    requires
        bytes@.len() == 4,
    ensures
        x == spec_u32_from_le_bytes(native_order(bytes@)) as i32,
{
    i32::read_from_bytes(bytes).unwrap()
}

/// `zerocopy::IntoBytes::as_bytes` on an `i64`: the eight bytes of its
/// in-memory representation, in the machine's byte order.
#[verifier::external_body]
fn i64_as_bytes(x: &i64) -> (bytes: Vec<u8>)
    ensures
        bytes@ == native_order(spec_u64_to_le_bytes(*x as u64)),
{
    x.as_bytes().to_vec()
}

/// `zerocopy::FromBytes::read_from_bytes` for an `i64`: the value whose
/// in-memory representation is the given bytes; it fails only on another
/// length, which the precondition rules out.
#[verifier::external_body]
fn i64_read_from_bytes(bytes: &[u8]) -> (x: i64)
    requires
        bytes@.len() == 8,
    ensures
        x == spec_u64_from_le_bytes(native_order(bytes@)) as i64,
{
    i64::read_from_bytes(bytes).unwrap()
}

/// `zerocopy::IntoBytes::as_bytes` on an `i128`: the sixteen bytes of its
/// in-memory representation, in the machine's byte order.
#[verifier::external_body]
fn i128_as_bytes(x: &i128) -> (bytes: Vec<u8>)
    ensures
        bytes@ == native_order(spec_u128_to_le_bytes(*x as u128)),
{
    x.as_bytes().to_vec()
}

/// `zerocopy::FromBytes::read_from_bytes` for an `i128`: the value whose
/// in-memory representation is the given bytes; it fails only on another
/// length, which the precondition rules out.
#[verifier::external_body]
fn i128_read_from_bytes(bytes: &[u8]) -> (x: i128)
    requires
        bytes@.len() == 16,
    ensures
        x == spec_u128_from_le_bytes(native_order(bytes@)) as i128,
{
    i128::read_from_bytes(bytes).unwrap()
}

/// `zerocopy::IntoBytes::as_bytes` on an `u128`: the sixteen bytes of its
/// in-memory representation, in the machine's byte order.
#[verifier::external_body]
fn u128_as_bytes(x: &u128) -> (bytes: Vec<u8>)
    ensures
        bytes@ == native_order(spec_u128_to_le_bytes(*x)),
{
    x.as_bytes().to_vec()
}

/// `zerocopy::FromBytes::read_from_bytes` for an `u128`: the value whose
/// in-memory representation is the given bytes; it fails only on another
/// length, which the precondition rules out.
#[verifier::external_body]
fn u128_read_from_bytes(bytes: &[u8]) -> (x: u128)
    requires
        bytes@.len() == 16,
    ensures
        x == spec_u128_from_le_bytes(native_order(bytes@)),
{
    u128::read_from_bytes(bytes).unwrap()
}

/// `zerocopy::IntoBytes::as_bytes` on a `usize`: the bytes of its in-memory
/// representation (eight on a 64-bit machine, four on a 32-bit one), in the
/// machine's byte order.
#[verifier::external_body]
fn usize_as_bytes(x: &usize) -> (bytes: Vec<u8>)
    ensures
        bytes@ == usize_bytes(*x as u64),
{
    x.as_bytes().to_vec()
}

/// `zerocopy::FromBytes::read_from_bytes` for a `usize`: the value whose
/// in-memory representation is the given bytes; it fails only on another
/// length, which the precondition rules out.
#[verifier::external_body]
fn usize_read_from_bytes(bytes: &[u8]) -> (x: usize)
    requires
        bytes@.len() == word_len(),
    ensures
        x == usize_value(bytes@) as usize,
{
    usize::read_from_bytes(bytes).unwrap()
}

/// `zerocopy::IntoBytes::as_bytes` on an `isize`: the bytes of its in-memory
/// representation (eight on a 64-bit machine, four on a 32-bit one), in the
/// machine's byte order.
#[verifier::external_body]
fn isize_as_bytes(x: &isize) -> (bytes: Vec<u8>)
    ensures
        bytes@ == usize_bytes(*x as usize as u64),
{
    x.as_bytes().to_vec()
}

/// `zerocopy::FromBytes::read_from_bytes` for an `isize`: the value whose
/// in-memory representation is the given bytes; it fails only on another
/// length, which the precondition rules out.
#[verifier::external_body]
fn isize_read_from_bytes(bytes: &[u8]) -> (x: isize)
    requires
        bytes@.len() == word_len(),
    ensures
        x == usize_value(bytes@) as usize as isize,
{
    isize::read_from_bytes(bytes).unwrap()
}

/// The number of bytes of a `usize` or an `isize`.
pub open spec fn word_len() -> nat {
    if usize::BITS == 64 { 8 } else { 4 }
}

/// The in-memory bytes of a machine word whose value is `x`.
pub open spec fn usize_bytes(x: u64) -> Seq<u8> {
    if usize::BITS == 64 {
        native_order(spec_u64_to_le_bytes(x))
    } else {
        native_order(spec_u32_to_le_bytes(x as u32))
    }
}

/// The value of a machine word whose in-memory bytes are `bytes`.
pub open spec fn usize_value(bytes: Seq<u8>) -> u64 {
    if usize::BITS == 64 {
        spec_u64_from_le_bytes(native_order(bytes))
    } else {
        spec_u32_from_le_bytes(native_order(bytes)) as u64
    }
}

proof fn lemma_word_codec(x: usize)
    ensures
        usize_bytes(x as u64).len() == word_len(),
        usize_value(usize_bytes(x as u64)) as usize == x,
{
    if usize::BITS == 64 {
        lemma_auto_spec_u64_to_from_le_bytes();
        assert(spec_u64_to_le_bytes(x as u64).len() == 8);
        lemma_native_order_involution(spec_u64_to_le_bytes(x as u64));
    } else {
        lemma_auto_spec_u32_to_from_le_bytes();
        assert(spec_u32_to_le_bytes(x as u64 as u32).len() == 4);
        lemma_native_order_involution(spec_u32_to_le_bytes(x as u64 as u32));
        assert(x <= u32::MAX);
    }
}

/// The number of bytes of a `usize` or an `isize`.
fn word_size() -> (n: usize)
    ensures
        n == word_len(),
{
    if usize::BITS == 64 { 8 } else { 4 }
}

impl QueueElement for u8 {
    open spec fn byte_len() -> nat {
        1
    }

    open spec fn encode(self) -> Seq<u8> {
        seq![self]
    }

    open spec fn decode(bytes: Seq<u8>) -> u8 {
        bytes[0]
    }

    proof fn lemma_codec(x: u8) {
    }

    fn size() -> (n: usize) {
        1
    }

    fn to_bytes(&self) -> (bytes: Vec<u8>) {
        u8_as_bytes(self)
    }

    fn from_bytes(bytes: &[u8]) -> (x: u8) {
        u8_read_from_bytes(bytes)
    }
}

impl QueueElement for u16 {
    open spec fn byte_len() -> nat {
        2
    }

    open spec fn encode(self) -> Seq<u8> {
        native_order(spec_u16_to_le_bytes(self))
    }

    open spec fn decode(bytes: Seq<u8>) -> u16 {
        spec_u16_from_le_bytes(native_order(bytes))
    }

    proof fn lemma_codec(x: u16) {
        lemma_auto_spec_u16_to_from_le_bytes();
        assert(spec_u16_to_le_bytes(x).len() == 2);
        lemma_native_order_involution(spec_u16_to_le_bytes(x));
    }

    fn size() -> (n: usize) {
        2
    }

    fn to_bytes(&self) -> (bytes: Vec<u8>) {
        u16_as_bytes(self)
    }

    fn from_bytes(bytes: &[u8]) -> (x: u16) {
        u16_read_from_bytes(bytes)
    }
}

impl QueueElement for u32 {
    open spec fn byte_len() -> nat {
        4
    }

    open spec fn encode(self) -> Seq<u8> {
        native_order(spec_u32_to_le_bytes(self))
    }

    open spec fn decode(bytes: Seq<u8>) -> u32 {
        spec_u32_from_le_bytes(native_order(bytes))
    }

    proof fn lemma_codec(x: u32) {
        lemma_auto_spec_u32_to_from_le_bytes();
        assert(spec_u32_to_le_bytes(x).len() == 4);
        lemma_native_order_involution(spec_u32_to_le_bytes(x));
    }

    fn size() -> (n: usize) {
        4
    }

    fn to_bytes(&self) -> (bytes: Vec<u8>) {
        u32_as_bytes(self)
    }

    fn from_bytes(bytes: &[u8]) -> (x: u32) {
        u32_read_from_bytes(bytes)
    }
}

impl QueueElement for u64 {
    open spec fn byte_len() -> nat {
        8
    }

    open spec fn encode(self) -> Seq<u8> {
        native_order(spec_u64_to_le_bytes(self))
    }

    open spec fn decode(bytes: Seq<u8>) -> u64 {
        spec_u64_from_le_bytes(native_order(bytes))
    }

    proof fn lemma_codec(x: u64) {
        lemma_auto_spec_u64_to_from_le_bytes();
        assert(spec_u64_to_le_bytes(x).len() == 8);
        lemma_native_order_involution(spec_u64_to_le_bytes(x));
    }

    fn size() -> (n: usize) {
        8
    }

    fn to_bytes(&self) -> (bytes: Vec<u8>) {
        u64_as_bytes(self)
    }

    fn from_bytes(bytes: &[u8]) -> (x: u64) {
        u64_read_from_bytes(bytes)
    }
}

impl<const N: usize> QueueElement for [u8; N] {
    open spec fn byte_len() -> nat {
        N as nat
    }

    open spec fn encode(self) -> Seq<u8> {
        self@
    }

    open spec fn decode(bytes: Seq<u8>) -> [u8; N] {
        choose|a: [u8; N]| a@ == bytes
    }

    proof fn lemma_codec(x: [u8; N]) {
        let a = Self::decode(x@);
        assert(a@ == x@);
        assert(a =~= x);
    }

    fn size() -> (n: usize) {
        N
    }

    fn to_bytes(&self) -> (bytes: Vec<u8>) {
        array_as_bytes(self)
    }

    fn from_bytes(bytes: &[u8]) -> (x: [u8; N]) {
        let a: [u8; N] = array_read_from_bytes(bytes);
        proof {
            let c = Self::decode(bytes@);
            assert(c =~= a);
        }
        a
    }
}

impl QueueElement for i8 {
    open spec fn byte_len() -> nat {
        1
    }

    open spec fn encode(self) -> Seq<u8> {
        seq![self as u8]
    }

    open spec fn decode(bytes: Seq<u8>) -> i8 {
        bytes[0] as i8
    }

    proof fn lemma_codec(x: i8) {
        assert((x as u8) as i8 == x) by (bit_vector);
    }

    fn size() -> (n: usize) {
        1
    }

    fn to_bytes(&self) -> (bytes: Vec<u8>) {
        i8_as_bytes(self)
    }

    fn from_bytes(bytes: &[u8]) -> (x: i8) {
        i8_read_from_bytes(bytes)
    }
}

impl QueueElement for i16 {
    open spec fn byte_len() -> nat {
        2
    }

    open spec fn encode(self) -> Seq<u8> {
        native_order(spec_u16_to_le_bytes(self as u16))
    }

    open spec fn decode(bytes: Seq<u8>) -> i16 {
        spec_u16_from_le_bytes(native_order(bytes)) as i16
    }

    proof fn lemma_codec(x: i16) {
        lemma_auto_spec_u16_to_from_le_bytes();
        assert(spec_u16_to_le_bytes(x as u16).len() == 2);
        lemma_native_order_involution(spec_u16_to_le_bytes(x as u16));
        assert((x as u16) as i16 == x) by (bit_vector);
    }

    fn size() -> (n: usize) {
        2
    }

    fn to_bytes(&self) -> (bytes: Vec<u8>) {
        i16_as_bytes(self)
    }

    fn from_bytes(bytes: &[u8]) -> (x: i16) {
        i16_read_from_bytes(bytes)
    }
}

impl QueueElement for i32 {
    open spec fn byte_len() -> nat {
        4
    }

    open spec fn encode(self) -> Seq<u8> {
        native_order(spec_u32_to_le_bytes(self as u32))
    }

    open spec fn decode(bytes: Seq<u8>) -> i32 {
        spec_u32_from_le_bytes(native_order(bytes)) as i32
    }

    proof fn lemma_codec(x: i32) {
        lemma_auto_spec_u32_to_from_le_bytes();
        assert(spec_u32_to_le_bytes(x as u32).len() == 4);
        lemma_native_order_involution(spec_u32_to_le_bytes(x as u32));
        assert((x as u32) as i32 == x) by (bit_vector);
    }

    fn size() -> (n: usize) {
        4
    }

    fn to_bytes(&self) -> (bytes: Vec<u8>) {
        i32_as_bytes(self)
    }

    fn from_bytes(bytes: &[u8]) -> (x: i32) {
        i32_read_from_bytes(bytes)
    }
}

impl QueueElement for i64 {
    open spec fn byte_len() -> nat {
        8
    }

    open spec fn encode(self) -> Seq<u8> {
        native_order(spec_u64_to_le_bytes(self as u64))
    }

    open spec fn decode(bytes: Seq<u8>) -> i64 {
        spec_u64_from_le_bytes(native_order(bytes)) as i64
    }

    proof fn lemma_codec(x: i64) {
        lemma_auto_spec_u64_to_from_le_bytes();
        assert(spec_u64_to_le_bytes(x as u64).len() == 8);
        lemma_native_order_involution(spec_u64_to_le_bytes(x as u64));
        assert((x as u64) as i64 == x) by (bit_vector);
    }

    fn size() -> (n: usize) {
        8
    }

    fn to_bytes(&self) -> (bytes: Vec<u8>) {
        i64_as_bytes(self)
    }

    fn from_bytes(bytes: &[u8]) -> (x: i64) {
        i64_read_from_bytes(bytes)
    }
}

impl QueueElement for i128 {
    open spec fn byte_len() -> nat {
        16
    }

    open spec fn encode(self) -> Seq<u8> {
        native_order(spec_u128_to_le_bytes(self as u128))
    }

    open spec fn decode(bytes: Seq<u8>) -> i128 {
        spec_u128_from_le_bytes(native_order(bytes)) as i128
    }

    proof fn lemma_codec(x: i128) {
        lemma_auto_spec_u128_to_from_le_bytes();
        assert(spec_u128_to_le_bytes(x as u128).len() == 16);
        lemma_native_order_involution(spec_u128_to_le_bytes(x as u128));
        assert((x as u128) as i128 == x) by (bit_vector);
    }

    fn size() -> (n: usize) {
        16
    }

    fn to_bytes(&self) -> (bytes: Vec<u8>) {
        i128_as_bytes(self)
    }

    fn from_bytes(bytes: &[u8]) -> (x: i128) {
        i128_read_from_bytes(bytes)
    }
}

impl QueueElement for u128 {
    open spec fn byte_len() -> nat {
        16
    }

    open spec fn encode(self) -> Seq<u8> {
        native_order(spec_u128_to_le_bytes(self))
    }

    open spec fn decode(bytes: Seq<u8>) -> u128 {
        spec_u128_from_le_bytes(native_order(bytes))
    }

    proof fn lemma_codec(x: u128) {
        lemma_auto_spec_u128_to_from_le_bytes();
        assert(spec_u128_to_le_bytes(x).len() == 16);
        lemma_native_order_involution(spec_u128_to_le_bytes(x));
    }

    fn size() -> (n: usize) {
        16
    }

    fn to_bytes(&self) -> (bytes: Vec<u8>) {
        u128_as_bytes(self)
    }

    fn from_bytes(bytes: &[u8]) -> (x: u128) {
        u128_read_from_bytes(bytes)
    }
}

impl QueueElement for usize {
    open spec fn byte_len() -> nat {
        word_len()
    }

    open spec fn encode(self) -> Seq<u8> {
        usize_bytes(self as u64)
    }

    open spec fn decode(bytes: Seq<u8>) -> usize {
        usize_value(bytes) as usize
    }

    proof fn lemma_codec(x: usize) {
        lemma_word_codec(x);
    }

    fn size() -> (n: usize) {
        word_size()
    }

    fn to_bytes(&self) -> (bytes: Vec<u8>) {
        usize_as_bytes(self)
    }

    fn from_bytes(bytes: &[u8]) -> (x: usize) {
        usize_read_from_bytes(bytes)
    }
}

impl QueueElement for isize {
    open spec fn byte_len() -> nat {
        word_len()
    }

    open spec fn encode(self) -> Seq<u8> {
        usize_bytes(self as usize as u64)
    }

    open spec fn decode(bytes: Seq<u8>) -> isize {
        usize_value(bytes) as usize as isize
    }

    proof fn lemma_codec(x: isize) {
        lemma_word_codec(x as usize);
        assert((x as usize) as isize == x) by (bit_vector);
    }

    fn size() -> (n: usize) {
        word_size()
    }

    fn to_bytes(&self) -> (bytes: Vec<u8>) {
        isize_as_bytes(self)
    }

    fn from_bytes(bytes: &[u8]) -> (x: isize) {
        isize_read_from_bytes(bytes)
    }
}

} // verus!
