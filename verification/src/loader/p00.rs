//! The P00 program file: a 26-byte header with the signature `C64File`, the
//! load address in two bytes, low byte first, and the program itself.

use byteorder::{ByteOrder, LittleEndian};
use vstd::prelude::*;
use vstd::slice::{slice_subrange, slice_to_vec};

verus! {

/// Length of the signature at the start of the header.
pub const SIGNATURE_SIZE: usize = 7;

/// Length of the file name in the header.
pub const FILENAME_SIZE: usize = 16;

/// Length of the header.
pub const HEADER_SIZE: usize = 26;

/// The signature of a P00 file, `C64File` in ASCII.
pub open spec fn header_sig() -> Seq<u8> {
    seq![0x43u8, 0x36u8, 0x34u8, 0x46u8, 0x69u8, 0x6cu8, 0x65u8]
}

/// Why a file is not taken as a P00 image.
#[derive(Clone, Copy, Debug, PartialEq, Eq, Structural)]
pub enum Error {
    /// The file ends within the header.
    InvalidHeader,
    /// The header does not start with the signature.
    InvalidSignature,
    /// The data ends before what was to be read from it.
    UnexpectedEof,
}

impl Error {
    /// The text that goes with the error.
    pub fn message(&self) -> (text: &'static str)
        ensures
            text@ == match *self {
                Error::InvalidHeader => "invalid P00 header"@,
                Error::InvalidSignature => "invalid P00 signature"@,
                Error::UnexpectedEof => "failed to fill whole buffer"@,
            },
    {
        match self {
            Error::InvalidHeader => "invalid P00 header",
            Error::InvalidSignature => "invalid P00 signature",
            Error::UnexpectedEof => "failed to fill whole buffer",
        }
    }
}

/// The header of a P00 file.
pub struct Header {
    pub signature: [u8; 7],
    pub reserved_1: u8,
    pub filename: [u8; 16],
    pub reserved_2: u8,
    pub reserved_3: u8,
}

impl Header {
    /// The header that the first 26 bytes of `bytes` spell out.
    pub open spec fn spells(self, bytes: Seq<u8>) -> bool {
        &&& self.signature@ == bytes.subrange(0, 7)
        &&& self.reserved_1 == bytes[7]
        &&& self.filename@ == bytes.subrange(8, 24)
        &&& self.reserved_2 == bytes[24]
        &&& self.reserved_3 == bytes[25]
    }

    /// Whether the header starts with the signature of the format.
    pub open spec fn is_signed(self) -> bool {
        self.signature@ == header_sig()
    }
}

/// A program and the address it is to be loaded at.
pub struct P00Image {
    pub data: Vec<u8>,
    pub offset: u16,
}

/// Whether `bytes` is long enough for a header and starts with the
/// signature.
pub open spec fn has_signed_header(bytes: Seq<u8>) -> bool {
    bytes.len() >= HEADER_SIZE && bytes.subrange(0, 7) == header_sig()
}

/// What loading `bytes` gives. A file shorter than the header has no
/// valid header; one whose header lacks the signature is refused; one
/// that ends before the load address is cut short. Any other file is a
/// program: the load address follows the header, low byte first, and
/// all bytes after it are the program.
pub open spec fn loaded(bytes: Seq<u8>) -> Result<(Seq<u8>, u16), Error> {
    if bytes.len() < HEADER_SIZE {
        Err(Error::InvalidHeader)
    } else if !has_signed_header(bytes) {
        Err(Error::InvalidSignature)
    } else if bytes.len() < HEADER_SIZE + 2 {
        Err(Error::UnexpectedEof)
    } else {
        Ok(
            (
                bytes.subrange(HEADER_SIZE + 2, bytes.len() as int),
                (bytes[HEADER_SIZE as int] + 256 * bytes[HEADER_SIZE + 1]) as u16,
            ),
        )
    }
}

/// Calls `byteorder::LittleEndian::read_u16`, which reads the first two
/// bytes of `buf` as a 16-bit number, low byte first, and panics on a
/// shorter `buf`.
#[verifier::external_body]
fn read_u16_le(buf: &[u8]) -> (r: u16)
    requires
        buf@.len() >= 2,
    ensures
        r == buf@[0] + 256 * buf@[1],
{
    LittleEndian::read_u16(buf)
}

pub struct P00Loader {}

impl P00Loader {
    pub fn new() -> (loader: P00Loader) {
        P00Loader {}
    }

    /// Reads the header from the start of `bytes`.
    pub fn read_header(&self, bytes: &[u8]) -> (r: Result<Header, Error>)
        ensures
            bytes@.len() < HEADER_SIZE <==> r == Err::<Header, Error>(Error::UnexpectedEof),
            bytes@.len() >= HEADER_SIZE <==> r.is_ok(),
            r.is_ok() ==> r.unwrap().spells(bytes@),
    {
        if bytes.len() < HEADER_SIZE {
            return Err(Error::UnexpectedEof);
        }
        let mut signature = [0u8; 7];
        let mut filename = [0u8; 16];
        let mut i: usize = 0;
        while i < SIGNATURE_SIZE
            invariant
                i <= SIGNATURE_SIZE,
                bytes@.len() >= HEADER_SIZE,
                forall|k: int| 0 <= k < i ==> signature@[k] == bytes@[k],
            decreases SIGNATURE_SIZE - i,
        {
            signature[i] = bytes[i];
            i = i + 1;
        }
        let mut j: usize = 0;
        while j < FILENAME_SIZE
            invariant
                j <= FILENAME_SIZE,
                bytes@.len() >= HEADER_SIZE,
                forall|k: int| 0 <= k < j ==> filename@[k] == bytes@[8 + k],
            decreases FILENAME_SIZE - j,
        {
            filename[j] = bytes[8 + j];
            j = j + 1;
        }
        let header = Header {
            signature,
            reserved_1: bytes[7],
            filename,
            reserved_2: bytes[24],
            reserved_3: bytes[25],
        };
        assert(header.signature@ =~= bytes@.subrange(0, 7));
        assert(header.filename@ =~= bytes@.subrange(8, 24));
        Ok(header)
    }

    /// Accepts a header that starts with the signature of the format.
    pub fn validate_header(&self, header: &Header) -> (r: Result<(), Error>)
        ensures
            header.is_signed() <==> r == Ok::<(), Error>(()),
            !header.is_signed() <==> r == Err::<(), Error>(Error::InvalidSignature),
    {
        let sig = &header.signature;
        if sig[0] == 0x43 && sig[1] == 0x36 && sig[2] == 0x34 && sig[3] == 0x46 && sig[4] == 0x69
            && sig[5] == 0x6c && sig[6] == 0x65 {
            assert(header.signature@ =~= header_sig());
            Ok(())
        } else {
            Err(Error::InvalidSignature)
        }
    }

    /// Takes the bytes of a P00 file apart.
    pub fn parse(&self, bytes: &[u8]) -> (r: Result<P00Image, Error>)
        ensures
            match r {
                Ok(image) => loaded(bytes@) == Ok::<(Seq<u8>, u16), Error>(
                    (image.data@, image.offset),
                ),
                Err(e) => loaded(bytes@) == Err::<(Seq<u8>, u16), Error>(e),
            },
    {
        let header = match self.read_header(bytes) {
            Ok(header) => header,
            Err(_) => {
                return Err(Error::InvalidHeader);
            },
        };
        match self.validate_header(&header) {
            Ok(_) => {},
            Err(e) => {
                return Err(e);
            },
        }
        if bytes.len() < HEADER_SIZE + 2 {
            return Err(Error::UnexpectedEof);
        }
        let offset = read_u16_le(slice_subrange(bytes, HEADER_SIZE, HEADER_SIZE + 2));
        let data = slice_to_vec(slice_subrange(bytes, HEADER_SIZE + 2, bytes.len()));
        Ok(P00Image { data, offset })
    }
}

} // verus!
