//! Strings on their way to and from the foreign side.
//!
//! A string that goes out is copied into a buffer of its own that ends in a
//! nul byte and holds no other; the buffer belongs to the call that uses it.
//! A string that comes in is cut at its first nul byte and copied.

use crate::ffi::{Arg, ArgView, Call, CallView, Symbol};
use crate::glib::{spec_to_bool, spec_to_gboolean, to_bool, to_gboolean, Gboolean};
use vstd::prelude::*;
use vstd::string::StringSliceAdditionalSpecFns;

verus! {

/// Whether a nul byte occurs anywhere in `bytes`.
pub open spec fn has_nul(bytes: Seq<u8>) -> bool {
    exists|i: int| 0 <= i < bytes.len() && bytes[i] == 0u8
}

/// Whether `buf` is what C reads as a string: it ends in a nul byte and
/// holds no nul byte before that.
pub open spec fn is_c_string(buf: Seq<u8>) -> bool {
    &&& buf.len() > 0
    &&& buf.last() == 0u8
    &&& !has_nul(buf.drop_last())
}

/// The buffer that carries `content` to the foreign side.
pub open spec fn c_string_of(content: Seq<u8>) -> Seq<u8> {
    content.push(0u8)
}

/// The part of `buf` that C reads: everything before the first nul byte, or
/// all of it where there is none.
pub open spec fn until_nul(buf: Seq<u8>) -> Seq<u8>
    decreases buf.len(),
{
    if buf.len() == 0 || buf[0] == 0u8 {
        Seq::empty()
    } else {
        seq![buf[0]] + until_nul(buf.drop_first())
    }
}

/// A buffer made from content without a nul byte is a C string.
pub proof fn lemma_c_string_of_valid(content: Seq<u8>)
    requires
        !has_nul(content),
    ensures
        is_c_string(c_string_of(content)),
        c_string_of(content).len() == content.len() + 1,
{
    assert(c_string_of(content).drop_last() =~= content);
}

/// What C reads back from the buffer is the content that went in.
pub proof fn lemma_c_string_round_trip(content: Seq<u8>)
    requires
        !has_nul(content),
    ensures
        until_nul(c_string_of(content)) == content,
    decreases content.len(),
{
    let buf = c_string_of(content);
    if content.len() == 0 {
        assert(buf[0] == 0u8);
        assert(until_nul(buf) =~= content);
    } else {
        assert(content[0] != 0u8);
        assert(buf[0] == content[0]);
        let rest = content.drop_first();
        assert forall|i: int| 0 <= i < rest.len() implies rest[i] != 0u8 by {
            assert(rest[i] == content[i + 1]);
        }
        assert(buf.drop_first() =~= c_string_of(rest));
        lemma_c_string_round_trip(rest);
        assert(seq![buf[0]] + rest =~= content);
    }
}

/// A text of ASCII characters, none of them the nul character, holds no
/// nul byte.
pub proof fn lemma_ascii_no_nul(s: &str)
    requires
        vstd::string::is_ascii(s),
        forall|i: int| 0 <= i < s@.len() ==> s@[i] != '\0',
    ensures
        !has_nul(s.spec_bytes()),
{
    vstd::string::is_ascii_spec_bytes(s);
    if has_nul(s.spec_bytes()) {
        let i = choose|i: int| 0 <= i < s.spec_bytes().len() && s.spec_bytes()[i] == 0u8;
        assert(s@[i] as u8 == 0u8);
        assert(s@[i] == '\0');
    }
}

/// The position of the first nul byte of `bytes`, if it has one.
pub fn find_nul(bytes: &[u8]) -> (r: Option<usize>)
    ensures
        r is None <==> !has_nul(bytes@),
        r matches Some(i) ==> i < bytes.len() && bytes@[i as int] == 0u8 && !has_nul(
            bytes@.take(i as int),
        ),
{
    let mut i: usize = 0;
    while i < bytes.len()
        invariant
            i <= bytes.len(),
            forall|k: int| 0 <= k < i ==> bytes@[k] != 0u8,
        decreases bytes.len() - i,
    {
        if bytes[i] == 0 {
            return Some(i);
        }
        i += 1;
    }
    None
}

/// A copy of `bytes`.
pub fn copy_bytes(bytes: &[u8]) -> (r: Vec<u8>)
    ensures
        r@ == bytes@,
{
    let mut out: Vec<u8> = Vec::with_capacity(bytes.len());
    let mut i: usize = 0;
    while i < bytes.len()
        invariant
            i <= bytes.len(),
            out@ == bytes@.take(i as int),
        decreases bytes.len() - i,
    {
        out.push(bytes[i]);
        assert(bytes@.take(i as int).push(bytes@[i as int]) =~= bytes@.take(i + 1));
        i += 1;
    }
    assert(bytes@.take(bytes.len() as int) =~= bytes@);
    out
}

/// Whether two byte strings are the same.
pub fn bytes_eq(a: &[u8], b: &[u8]) -> (r: bool)
    ensures
        r == (a@ == b@),
{
    if a.len() != b.len() {
        return false;
    }
    let mut i: usize = 0;
    while i < a.len()
        invariant
            i <= a.len(),
            a.len() == b.len(),
            forall|k: int| 0 <= k < i ==> a@[k] == b@[k],
        decreases a.len() - i,
    {
        if a[i] != b[i] {
            return false;
        }
        i += 1;
    }
    assert(a@ =~= b@);
    true
}

/// A nul-terminated copy of a host string, alive as long as its owner.
#[derive(Debug, PartialEq, Eq)]
pub struct CStrBuf {
    bytes: Vec<u8>,
}

impl View for CStrBuf {
    type V = Seq<u8>;

    /// The content, without the closing nul byte.
    closed spec fn view(&self) -> Seq<u8> {
        self.bytes@.drop_last()
    }
}

impl Clone for CStrBuf {
    fn clone(&self) -> (r: Self)
        ensures
            r@ == self@,
    {
        proof {
            use_type_invariant(self);
        }
        let bytes = self.bytes.clone();
        assert(bytes@ =~= self.bytes@);
        CStrBuf { bytes }
    }
}

impl CStrBuf {
    #[verifier::type_invariant]
    spec fn well_formed(&self) -> bool {
        is_c_string(self.bytes@)
    }

    /// Copies `content` and closes it with a nul byte.
    pub fn from_slice(content: &[u8]) -> (r: Self)
        requires
            !has_nul(content@),
        ensures
            r@ == content@,
    {
        let mut bytes = copy_bytes(content);
        bytes.push(0);
        proof {
            lemma_c_string_of_valid(content@);
            assert(bytes@.drop_last() =~= content@);
        }
        CStrBuf { bytes }
    }

    /// Copies a host string and closes it with a nul byte.
    pub fn from_str(content: &str) -> (r: Self)
        requires
            !has_nul(content.spec_bytes()),
        ensures
            r@ == content.spec_bytes(),
    {
        Self::from_slice(content.as_bytes())
    }

    /// The buffer for `content`, unless a nul byte inside it would cut the
    /// string short on the foreign side.
    pub fn new(content: &str) -> (r: Option<Self>)
        ensures
            r is Some <==> !has_nul(content.spec_bytes()),
            r matches Some(buf) ==> buf@ == content.spec_bytes(),
    {
        match find_nul(content.as_bytes()) {
            Some(_) => None,
            None => Some(Self::from_slice(content.as_bytes())),
        }
    }

    /// The bytes handed to the foreign side: the content and the closing nul
    /// byte, and no nul byte before it.
    pub fn as_bytes_with_nul(&self) -> (r: &[u8])
        ensures
            r@ == c_string_of(self@),
            is_c_string(r@),
            until_nul(r@) == self@,
    {
        proof {
            use_type_invariant(self);
            assert(self.bytes@ =~= c_string_of(self@));
            lemma_c_string_round_trip(self@);
        }
        self.bytes.as_slice()
    }

    /// A copy of the content, without the closing nul byte.
    pub fn to_bytes(&self) -> (r: Vec<u8>)
        ensures
            r@ == self@,
    {
        let content = c_str_to_bytes(self.as_bytes_with_nul());
        content
    }

    /// The number of bytes of the content.
    pub fn len(&self) -> (n: usize)
        ensures
            n == self@.len(),
    {
        proof {
            use_type_invariant(self);
        }
        self.bytes.len() - 1
    }
}

/// Copies what C reads of a foreign buffer: the bytes before its first nul
/// byte.
pub fn c_str_to_bytes(buf: &[u8]) -> (r: Vec<u8>)
    ensures
        r@ == until_nul(buf@),
        !has_nul(r@),
{
    let mut out: Vec<u8> = Vec::new();
    let mut i: usize = 0;
    proof {
        assert(buf@.skip(0) =~= buf@);
        assert(buf@.take(0) + until_nul(buf@) =~= until_nul(buf@));
    }
    while i < buf.len() && buf[i] != 0
        invariant
            i <= buf.len(),
            out@ == buf@.take(i as int),
            !has_nul(out@),
            until_nul(buf@) == out@ + until_nul(buf@.skip(i as int)),
        decreases buf.len() - i,
    {
        out.push(buf[i]);
        proof {
            let rest = buf@.skip(i as int);
            assert(rest[0] == buf@[i as int]);
            assert(rest.drop_first() =~= buf@.skip(i + 1));
            assert(buf@.take(i as int).push(buf@[i as int]) =~= buf@.take(i + 1));
            assert(out@ =~= buf@.take(i as int) + seq![buf@[i as int]]);
            assert(until_nul(buf@) =~= out@ + until_nul(buf@.skip(i + 1)));
        }
        i += 1;
    }
    proof {
        let rest = buf@.skip(i as int);
        assert(until_nul(rest) =~= Seq::<u8>::empty()) by {
            if i < buf.len() {
                assert(rest[0] == buf@[i as int]);
            }
        }
        assert(out@ + Seq::<u8>::empty() =~= out@);
    }
    out
}

/// The text that `String::from_utf8_lossy` makes of `bytes`.
pub uninterp spec fn utf8_lossy(bytes: Seq<u8>) -> Seq<char>;

/// `String::from_utf8_lossy`, which decodes bytes as UTF-8 and puts the
/// replacement character in place of each ill-formed sequence. The result
/// depends on the bytes alone.
#[verifier::external_body]
fn from_utf8_lossy(bytes: &[u8]) -> (r: String)
    ensures
        r@ == utf8_lossy(bytes@),
{
    String::from_utf8_lossy(bytes).into_owned()
}

/// The host copy of a string that the foreign side lends: `None` for a null
/// pointer, else the text before the first nul byte.
pub fn from_glib_none(buf: Option<&[u8]>) -> (r: Option<String>)
    ensures
        r is Some <==> buf is Some,
        r matches Some(s) ==> s@ == utf8_lossy(until_nul(buf.unwrap()@)),
{
    match buf {
        None => None,
        Some(bytes) => Some(text_of_c_bytes(c_str_to_bytes(bytes))),
    }
}

/// The call that gives a buffer back to the foreign allocator.
pub open spec fn g_free_call(address: usize) -> CallView {
    CallView { symbol: Symbol::GFree, args: seq![ArgView::Pointer(address)] }
}

/// The host copy of a string that the foreign side hands over, and the
/// call that frees the foreign buffer once the copy is made. `buf` is what
/// was read at `address`; a null pointer has nothing to free.
pub fn from_glib_full(address: usize, buf: Option<&[u8]>) -> (r: (Option<String>, Option<Call>))
    ensures
        r.0 is Some <==> buf is Some,
        r.0 matches Some(s) ==> s@ == utf8_lossy(until_nul(buf.unwrap()@)),
        r.1 is Some <==> address != 0,
        r.1 matches Some(call) ==> call@ == g_free_call(address),
{
    let text = from_glib_none(buf);
    let free = if address != 0 {
        Some(Call::unary(Symbol::GFree, Arg::Pointer(address)))
    } else {
        None
    };
    (text, free)
}

/// The host string of bytes read from the foreign side.
pub fn text_of_c_bytes(bytes: Vec<u8>) -> (r: String)
    ensures
        r@ == utf8_lossy(bytes@),
{
    from_utf8_lossy(bytes.as_slice())
}

/// The host copies of a foreign list of strings, in the order of the list.
pub fn from_glib_container(items: &Vec<Vec<u8>>) -> (r: Vec<String>)
    ensures
        r.len() == items.len(),
        forall|i: int|
            0 <= i < items.len() ==> (#[trigger] r@[i])@ == utf8_lossy(until_nul(items@[i]@)),
{
    let mut out: Vec<String> = Vec::new();
    let mut i: usize = 0;
    while i < items.len()
        invariant
            i <= items.len(),
            out.len() == i,
            forall|k: int|
                0 <= k < i ==> (#[trigger] out@[k])@ == utf8_lossy(until_nul(items@[k]@)),
        decreases items.len() - i,
    {
        let text = text_of_c_bytes(c_str_to_bytes(items[i].as_slice()));
        out.push(text);
        i += 1;
    }
    out
}

/// A host value that has a foreign representation.
pub trait ToGlib {
    type GlibType;

    /// The foreign representation of the value.
    spec fn glib_value(&self) -> Self::GlibType;

    fn to_glib(&self) -> (v: Self::GlibType)
        ensures
            v == self.glib_value(),
    ;
}

/// A host type that every value of the foreign representation maps into.
pub trait FromGlib: Sized {
    type GlibType;

    /// The host value that stands for `val`.
    spec fn host_value(val: Self::GlibType) -> Self;

    fn from_glib(val: Self::GlibType) -> (r: Self)
        ensures
            r == Self::host_value(val),
    ;
}

impl ToGlib for bool {
    type GlibType = Gboolean;

    open spec fn glib_value(&self) -> Gboolean {
        spec_to_gboolean(*self)
    }

    fn to_glib(&self) -> (v: Gboolean) {
        to_gboolean(*self)
    }
}

impl FromGlib for bool {
    type GlibType = Gboolean;

    open spec fn host_value(val: Gboolean) -> bool {
        spec_to_bool(val)
    }

    fn from_glib(val: Gboolean) -> (r: bool) {
        to_bool(val)
    }
}

/// The host value of a foreign one.
pub fn from_glib<T: FromGlib>(val: T::GlibType) -> (r: T)
    ensures
        r == T::host_value(val),
{
    T::from_glib(val)
}

} // verus!
