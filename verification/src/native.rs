//! Lossless operating-system strings and paths.
//!
//! A native string keeps the exact code units the operating system handed out: raw bytes on
//! Unix, and WTF-16 code units (stored as little-endian byte pairs) on Windows.

use vstd::prelude::*;
use vstd::utf8::*;
use crate::text::{decimal, push_decimal, string_of};

verus! {

#[derive(Clone, Copy, Debug, PartialEq, Eq, Hash, Structural)]
pub enum NativeEncoding {
    UnixBytes,
    WindowsWtf16LittleEndian,
}

#[derive(Clone, Debug, PartialEq, Eq, Hash)]
pub struct NativeString {
    encoding: NativeEncoding,
    units: Vec<u8>,
}

#[derive(Clone, Debug, PartialEq, Eq, Hash)]
pub struct NativePath {
    inner: NativeString,
}

/// The mathematical value of a native string or path: its encoding and its bytes.
pub struct NativeStringView {
    pub encoding: NativeEncoding,
    pub units: Seq<u8>,
}

#[derive(Clone, Copy, Debug, PartialEq, Eq, Structural)]
pub enum NativeStringError {
    /// WTF-16 little-endian text must consist of whole two-byte code units.
    OddWindowsByteLength { length: usize },
}

/// Little-endian byte encoding of 16-bit code units.
pub open spec fn le_bytes(units: Seq<u16>) -> Seq<u8> {
    Seq::new(
        (2 * units.len()) as nat,
        |i: int|
            if i % 2 == 0 {
                (units[i / 2] & 0xff) as u8
            } else {
                (units[i / 2] >> 8) as u8
            },
    )
}

/// The 16-bit code units held, little-endian, by consecutive byte pairs.
pub open spec fn le_units(bytes: Seq<u8>) -> Seq<u16> {
    Seq::new(bytes.len() / 2, |i: int| ((bytes[2 * i] as u16) | ((bytes[2 * i + 1] as u16) << 8u16)) as u16)
}

/// What `String::from_utf8_lossy` makes of a byte sequence.
pub uninterp spec fn utf8_lossy(bytes: Seq<u8>) -> Seq<char>;

/// What `String::from_utf16_lossy` makes of a sequence of UTF-16 code units.
pub uninterp spec fn utf16_lossy(units: Seq<u16>) -> Seq<char>;

/// The display text of a native value: invalid sequences become U+FFFD.
pub open spec fn lossy_text(v: NativeStringView) -> Seq<char> {
    match v.encoding {
        NativeEncoding::UnixBytes => utf8_lossy(v.units),
        NativeEncoding::WindowsWtf16LittleEndian => utf16_lossy(le_units(v.units)),
    }
}

/// `String::from_utf8_lossy`; valid UTF-8 decodes unchanged.
#[verifier::external_body]
fn from_utf8_lossy(bytes: &[u8]) -> (r: String)
    ensures
        r@ == utf8_lossy(bytes@),
        valid_utf8(bytes@) ==> r@ == decode_utf8(bytes@),
{
    String::from_utf8_lossy(bytes).into_owned()
}

/// `String::from_utf16_lossy`.
#[verifier::external_body]
fn from_utf16_lossy(units: &[u16]) -> (r: String)
    ensures
        r@ == utf16_lossy(units@),
{
    String::from_utf16_lossy(units)
}

/// Copies a byte vector element by element.
pub fn copy_bytes(bytes: &[u8]) -> (r: Vec<u8>)
    ensures
        r@ == bytes@,
{
    let mut out: Vec<u8> = Vec::new();
    let mut i: usize = 0;
    while i < bytes.len()
        invariant
            i <= bytes@.len(),
            out@ == bytes@.subrange(0, i as int),
        decreases bytes@.len() - i,
    {
        out.push(bytes[i]);
        i = i + 1;
        assert(out@ =~= bytes@.subrange(0, i as int));
    }
    assert(bytes@.subrange(0, bytes@.len() as int) =~= bytes@);
    out
}

fn decode_le_units(bytes: &[u8]) -> (r: Vec<u16>)
    ensures
        r@ == le_units(bytes@),
{
    let mut out: Vec<u16> = Vec::new();
    let n = bytes.len() / 2;
    let mut i: usize = 0;
    while i < n
        invariant
            n == bytes@.len() / 2,
            2 * n <= bytes@.len(),
            bytes@.len() <= usize::MAX,
            i <= n,
            out@ =~= le_units(bytes@).subrange(0, i as int),
        decreases n - i,
    {
        assert(2 * i + 1 < bytes@.len());
        let lo = bytes[2 * i];
        let hi = bytes[2 * i + 1];
        out.push(((lo as u16) | ((hi as u16) << 8u16)) as u16);
        i = i + 1;
        assert(out@ =~= le_units(bytes@).subrange(0, i as int));
    }
    out
}

/// `le_bytes` undoes `le_units` on whole code units.
pub proof fn lemma_le_bytes_of_units(bytes: Seq<u8>)
    requires
        bytes.len() % 2 == 0,
    ensures
        le_bytes(le_units(bytes)) == bytes,
{
    let u = le_units(bytes);
    assert forall|i: int| 0 <= i < bytes.len() implies #[trigger] le_bytes(u)[i] == bytes[i] by {
        let k = i / 2;
        let lo = bytes[2 * k];
        let hi = bytes[2 * k + 1];
        let w: u16 = ((lo as u16) | ((hi as u16) << 8u16)) as u16;
        assert(u[k] == w);
        assert((w & 0xff) as u8 == lo && (w >> 8) as u8 == hi) by (bit_vector)
            requires
                w == ((lo as u16) | ((hi as u16) << 8u16)) as u16,
        ;
        if i % 2 == 0 {
            assert(i == 2 * k);
        } else {
            assert(i == 2 * k + 1);
        }
    }
    assert(le_bytes(u) =~= bytes);
}

impl View for NativeString {
    type V = NativeStringView;

    closed spec fn view(&self) -> NativeStringView {
        NativeStringView { encoding: self.encoding, units: self.units@ }
    }
}

impl View for NativePath {
    type V = NativeStringView;

    closed spec fn view(&self) -> NativeStringView {
        self.inner@
    }
}

impl NativeStringError {
    /// The human-readable description of the error.
    pub fn message(&self) -> (r: String)
        ensures
            r@ == self.spec_message(),
    {
        match self {
            NativeStringError::OddWindowsByteLength { length } => {
                let mut s = string_of("Windows WTF-16 byte length must be even; got ");
                push_decimal(&mut s, *length as u128);
                s
            },
        }
    }

    pub open spec fn spec_message(&self) -> Seq<char> {
        match self {
            NativeStringError::OddWindowsByteLength { length } => "Windows WTF-16 byte length must be even; got "@
                + decimal(*length as nat),
        }
    }
}

impl NativeString {
    pub fn from_unix_bytes(bytes: Vec<u8>) -> (r: Self)
        ensures
            r@ == (NativeStringView { encoding: NativeEncoding::UnixBytes, units: bytes@ }),
    {
        NativeString { encoding: NativeEncoding::UnixBytes, units: bytes }
    }

    /// Windows text given as little-endian byte pairs; refused when a byte is left over.
    pub fn from_windows_wtf16_bytes(bytes: Vec<u8>) -> (r: Result<Self, NativeStringError>)
        ensures
            bytes@.len() % 2 == 0 <==> r is Ok,
            r matches Ok(s) ==> s@ == (NativeStringView {
                encoding: NativeEncoding::WindowsWtf16LittleEndian,
                units: bytes@,
            }),
            r matches Err(e) ==> e == (NativeStringError::OddWindowsByteLength { length: bytes@.len() as usize }),
    {
        if bytes.len() % 2 != 0 {
            Err(NativeStringError::OddWindowsByteLength { length: bytes.len() })
        } else {
            Ok(NativeString { encoding: NativeEncoding::WindowsWtf16LittleEndian, units: bytes })
        }
    }

    pub fn encoding(&self) -> (r: NativeEncoding)
        ensures
            r == self@.encoding,
    {
        self.encoding
    }

    pub fn units(&self) -> (r: &[u8])
        ensures
            r@ == self@.units,
    {
        self.units.as_slice()
    }

    /// An exact copy.
    pub fn duplicate(&self) -> (r: Self)
        ensures
            r@ == self@,
    {
        NativeString { encoding: self.encoding, units: copy_bytes(self.units.as_slice()) }
    }

    /// The text of the string with invalid sequences replaced by U+FFFD; valid UTF-8 bytes
    /// give their text unchanged.
    pub fn to_string_lossy(&self) -> (r: String)
        ensures
            r@ == lossy_text(self@),
            self@.encoding is UnixBytes && valid_utf8(self@.units) ==> r@ == decode_utf8(self@.units),
    {
        match self.encoding {
            NativeEncoding::UnixBytes => from_utf8_lossy(self.units.as_slice()),
            NativeEncoding::WindowsWtf16LittleEndian => {
                let units = decode_le_units(self.units.as_slice());
                from_utf16_lossy(units.as_slice())
            },
        }
    }
}

impl NativePath {
    pub fn from_unix_bytes(bytes: Vec<u8>) -> (r: Self)
        ensures
            r@ == (NativeStringView { encoding: NativeEncoding::UnixBytes, units: bytes@ }),
    {
        NativePath { inner: NativeString::from_unix_bytes(bytes) }
    }

    /// A Windows path from WTF-16 code units, stored as little-endian byte pairs.
    pub fn from_windows_wtf16(units: &[u16]) -> (r: Self)
        requires
            2 * units@.len() <= usize::MAX,
        ensures
            r@ == (NativeStringView {
                encoding: NativeEncoding::WindowsWtf16LittleEndian,
                units: le_bytes(units@),
            }),
    {
        let mut bytes: Vec<u8> = Vec::new();
        let mut i: usize = 0;
        while i < units.len()
            invariant
                i <= units@.len(),
                2 * units@.len() <= usize::MAX,
                bytes@ =~= le_bytes(units@).subrange(0, 2 * i),
            decreases units@.len() - i,
        {
            let u = units[i];
            bytes.push((u & 0xff) as u8);
            bytes.push((u >> 8) as u8);
            i = i + 1;
            assert(bytes@ =~= le_bytes(units@).subrange(0, 2 * i));
        }
        assert(le_bytes(units@).subrange(0, 2 * units@.len() as int) =~= le_bytes(units@));
        let inner = NativeString { encoding: NativeEncoding::WindowsWtf16LittleEndian, units: bytes };
        NativePath { inner }
    }

    pub fn as_native_string(&self) -> (r: &NativeString)
        ensures
            r@ == self@,
    {
        &self.inner
    }

    pub fn encoding(&self) -> (r: NativeEncoding)
        ensures
            r == self@.encoding,
    {
        self.inner.encoding()
    }

    pub fn units(&self) -> (r: &[u8])
        ensures
            r@ == self@.units,
    {
        self.inner.units()
    }

    pub fn duplicate(&self) -> (r: Self)
        ensures
            r@ == self@,
    {
        NativePath { inner: self.inner.duplicate() }
    }

    /// The text of the path with invalid sequences replaced by U+FFFD; valid UTF-8 bytes
    /// give their text unchanged.
    pub fn to_string_lossy(&self) -> (r: String)
        ensures
            r@ == lossy_text(self@),
            self@.encoding is UnixBytes && valid_utf8(self@.units) ==> r@ == decode_utf8(self@.units),
    {
        self.inner.to_string_lossy()
    }
}

} // verus!
