//! Small data types shared by code that reads and writes binary formats.

use vstd::prelude::*;

verus! {

/// The order of the bytes of a multi-byte value.
#[derive(Debug, Copy, Clone, Eq, PartialEq, Structural, Hash)]
pub enum ByteOrder {
    /// Most significant byte first.
    Big,
    /// Least significant byte first.
    Little,
    /// The order of the machine that the code runs on.
    Native,
}

impl Default for ByteOrder {
    /// `Little`.
    fn default() -> (r: Self)
        ensures
            r == ByteOrder::Little,
    {
        ByteOrder::Little
    }
}

/// Calls `u16::to_ne_bytes` of std, which gives the two bytes of `x` in the
/// order of the machine: as documented, that is either the little-endian
/// or the big-endian representation. Which of the two is not stated.
#[verifier::external_body]
fn native_bytes(x: u16) -> (r: [u8; 2])
    ensures
        (r[0] == x % 256 && r[1] == x / 256) || (r[1] == x % 256 && r[0] == x / 256),
{
    x.to_ne_bytes()
}

/// Whether this machine stores the least significant byte first: it asks
/// for the bytes of the number one as the machine stores them and reads the
/// order off them. The answer is the machine's, so nothing is promised of it.
fn native_is_little() -> (r: bool) {
    let bytes = native_bytes(1);
    probe_is_little(bytes)
}

/// The two bytes of `x`, least significant first.
pub open spec fn little_bytes(x: u16) -> Seq<u8> {
    seq![(x % 256) as u8, (x / 256) as u8]
}

/// The two bytes of `x`, most significant first.
pub open spec fn big_bytes(x: u16) -> Seq<u8> {
    seq![(x / 256) as u8, (x % 256) as u8]
}

/// Reads the order of a machine off `probe`, the bytes of the number one as
/// that machine stores them: the order is little-endian exactly when the
/// first byte is the one. So it is for the little-endian bytes of one, and
/// is not for the big-endian bytes.
pub fn probe_is_little(probe: [u8; 2]) -> (r: bool)
    ensures
        r == (probe[0] == 1),
        probe@ == little_bytes(1) ==> r,
        probe@ == big_bytes(1) ==> !r,
{
    proof {
        if probe@ == little_bytes(1) {
            assert(probe@[0] == little_bytes(1)[0]);
        }
        if probe@ == big_bytes(1) {
            assert(probe@[0] == big_bytes(1)[0]);
        }
    }
    probe[0] == 1
}

impl ByteOrder {
    /// Whether the order is little-endian on a machine whose own order is
    /// little-endian or not, as `native_little` says.
    pub open spec fn little_on(self, native_little: bool) -> bool {
        match self {
            ByteOrder::Big => false,
            ByteOrder::Little => true,
            ByteOrder::Native => native_little,
        }
    }

    /// Whether the order is the machine's own on a machine whose order is
    /// little-endian or not, as `native_little` says.
    pub open spec fn native_on(self, native_little: bool) -> bool {
        match self {
            ByteOrder::Big => !native_little,
            ByteOrder::Little => native_little,
            ByteOrder::Native => true,
        }
    }

    /// Whether the order is little-endian, given the machine's order.
    pub fn is_little_on(&self, native_little: bool) -> (r: bool)
        ensures
            r == self.little_on(native_little),
    {
        match self {
            Self::Big => false,
            Self::Little => true,
            Self::Native => native_little,
        }
    }

    /// Whether the order is big-endian, given the machine's order.
    pub fn is_big_on(&self, native_little: bool) -> (r: bool)
        ensures
            r == !self.little_on(native_little),
    {
        match self {
            Self::Big => true,
            Self::Little => false,
            Self::Native => !native_little,
        }
    }

    /// Whether the order is the machine's own, given the machine's order.
    pub fn is_native_on(&self, native_little: bool) -> (r: bool)
        ensures
            r == self.native_on(native_little),
    {
        match self {
            Self::Big => !native_little,
            Self::Little => native_little,
            Self::Native => true,
        }
    }

    /// Whether the order is little-endian on this machine. For `Native`
    /// the answer is the machine's.
    pub fn is_little(&self) -> (r: bool)
        ensures
            exists|native_little: bool| r == self.little_on(native_little),
            *self == ByteOrder::Little ==> r,
            *self == ByteOrder::Big ==> !r,
    {
        let native = native_is_little();
        assert(self.little_on(native) == self.little_on(native));
        self.is_little_on(native)
    }

    /// Whether the order is big-endian on this machine. For `Native` the
    /// answer is the machine's.
    pub fn is_big(&self) -> (r: bool)
        ensures
            exists|native_little: bool| r == !self.little_on(native_little),
            *self == ByteOrder::Big ==> r,
            *self == ByteOrder::Little ==> !r,
    {
        let native = native_is_little();
        assert(self.little_on(native) == self.little_on(native));
        self.is_big_on(native)
    }

    /// Whether the order is the order of this machine. `Native` always is;
    /// of `Big` and `Little` the machine decides.
    pub fn is_native(&self) -> (r: bool)
        ensures
            exists|native_little: bool| r == self.native_on(native_little),
            *self == ByteOrder::Native ==> r,
    {
        let native = native_is_little();
        assert(self.native_on(native) == self.native_on(native));
        self.is_native_on(native)
    }
}

/// On any one machine an order is little-endian or big-endian and not
/// both, and exactly one of `Big` and `Little` is the machine's own.
pub proof fn lemma_orders_exclusive(order: ByteOrder, native_little: bool)
    ensures
        order.little_on(native_little) != !order.little_on(native_little),
        ByteOrder::Big.native_on(native_little) != ByteOrder::Little.native_on(native_little),
        order.native_on(native_little) <==> order.little_on(native_little) == native_little,
{
}

/// The names of the text encodings.
#[derive(Debug, Copy, Clone, Eq, PartialEq, Structural, Hash)]
pub enum Encoding {
    Ascii,
    Base64,
    Big5,
    Big5HkScs,
    Bz2,
    Cp037,
    Cp1026,
    Cp1125,
    Cp1140,
    Cp1250,
    Cp1251,
    Cp1252,
    Cp1253,
    Cp1254,
    Cp1255,
    Cp1256,
    Cp1257,
    Cp1258,
    Cp273,
    Cp424,
    Cp437,
    Cp500,
    Cp775,
    Cp850,
    Cp852,
    Cp855,
    Cp857,
    Cp858,
    Cp860,
    Cp861,
    Cp862,
    Cp863,
    Cp864,
    Cp865,
    Cp866,
    Cp869,
    Cp932,
    Cp949,
    Cp950,
    EucJis2004,
    EucJisx0213,
    EucJp,
    EucKr,
    Gb18030,
    Gb2312,
    Gbk,
    Hex,
    HpRoman8,
    Hz,
    Iso2022Jp,
    Iso2022Jp1,
    Iso2022Jp2,
    Iso2022Jp2004,
    Iso2022Jp3,
    Iso2022JpExt,
    Iso2022Kr,
    Iso8859_10,
    Iso8859_11,
    Iso8859_13,
    Iso8859_14,
    Iso8859_15,
    Iso8859_16,
    Iso8859_1,
    Iso8859_2,
    Iso8859_3,
    Iso8859_4,
    Iso8859_5,
    Iso8859_6,
    Iso8859_7,
    Iso8859_8,
    Iso8859_9,
    Johab,
    Koi8R,
    Kz1048,
    Latin1,
    MacCyrillic,
    MacGreek,
    MacIceland,
    MacLatin2,
    MacRoman,
    MacTurkish,
    Mbcs,
    Ptcp154,
    Quopri,
    Rot13,
    ShiftJis,
    ShiftJis2004,
    ShiftJisx0213,
    Tis620,
    Utf16,
    Utf16be,
    Utf16le,
    Utf32,
    Utf32be,
    Utf32le,
    Utf7,
    Utf8,
    UU,
    Zlib,
}

impl Default for Encoding {
    /// `Utf8`.
    fn default() -> (r: Self)
        ensures
            r == Encoding::Utf8,
    {
        Encoding::Utf8
    }
}

} // verus!
