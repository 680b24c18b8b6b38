//! Address discovery: from a module's mapped image and a signature to the
//! address of the function to intercept.

use crate::pattern::{is_parse_of, matches_at, parsed, well_formed, Pattern, PatternError, Token};
use vstd::prelude::*;
use vstd::string::StringSliceAdditionalSpecFns;

verus! {

/// Why the address of a function could not be found. The hook that asked
/// for it stays inactive; other hooks are not affected.
#[derive(Clone, Copy, Debug, PartialEq, Eq, Structural)]
pub enum SetupError {
    /// The module is not loaded.
    ModuleNotFound,
    /// The signature text is not well formed.
    InvalidPattern(PatternError),
    /// The signature occurs nowhere in the module's image.
    PatternNotFound,
}

/// The mapped image of a loaded module: the address of its first byte, and
/// its bytes. The image lies within the address space: its last byte has an
/// address.
pub struct ModuleImage<'a> {
    base: usize,
    bytes: &'a [u8],
}

impl<'a> ModuleImage<'a> {
    #[verifier::type_invariant]
    spec fn fits(self) -> bool {
        self.base + self.bytes@.len() <= usize::MAX
    }

    /// The address of the image's first byte.
    pub closed spec fn origin(self) -> usize {
        self.base
    }

    /// The bytes of the image.
    pub closed spec fn image(self) -> Seq<u8> {
        self.bytes@
    }

    /// The image of `bytes` mapped at `base`, or nothing where such an image
    /// would reach past the end of the address space.
    pub fn new(base: usize, bytes: &'a [u8]) -> (m: Option<ModuleImage<'a>>)
        ensures
            m is Some <==> base + bytes@.len() <= usize::MAX,
            m matches Some(module) ==> module.origin() == base && module.image() == bytes@,
    {
        if bytes.len() <= usize::MAX - base {
            Some(ModuleImage { base, bytes })
        } else {
            None
        }
    }

    /// The address of the image's first byte.
    pub fn base(&self) -> (b: usize)
        ensures
            b == self.origin(),
            b + self.image().len() <= usize::MAX,
    {
        proof {
            use_type_invariant(self);
        }
        self.base
    }

    /// The number of bytes of the image.
    pub fn len(&self) -> (n: usize)
        ensures
            n == self.image().len(),
    {
        self.bytes.len()
    }

    /// The address of the first place in the image at which `pattern`
    /// matches, if there is one.
    pub fn address_of(&self, pattern: &Pattern) -> (r: Option<usize>)
        ensures
            is_first_match(self.origin(), self.image(), pattern@, r),
    {
        proof {
            use_type_invariant(self);
        }
        match pattern.find_first(self.bytes) {
            Some(at) => Some(self.base + at),
            None => None,
        }
    }
}

/// `r` is the address of the first match of `tokens` in the image `bytes`
/// mapped at `base`, or nothing where there is no match.
pub open spec fn is_first_match(base: usize, bytes: Seq<u8>, tokens: Seq<Token>, r: Option<usize>) -> bool {
    match r {
        Some(address) => {
            &&& base <= address
            &&& matches_at(bytes, tokens, address - base)
            &&& forall|j: int| 0 <= j < address - base ==> !matches_at(bytes, tokens, j)
        },
        None => forall|j: int| !matches_at(bytes, tokens, j),
    }
}

/// `r` is what looking for the signature `text` in `module` gives: the
/// address of the first match, or the first of these that applies: there is
/// no module, the text is not well formed, the signature matches nowhere.
pub open spec fn is_resolution_of(
    module: Option<&ModuleImage<'_>>,
    text: Seq<u8>,
    r: Result<usize, SetupError>,
) -> bool {
    match r {
        Ok(address) => {
            &&& module matches Some(m)
            &&& well_formed(text)
            &&& is_first_match(m.origin(), m.image(), parsed(text), Some(address))
        },
        Err(SetupError::ModuleNotFound) => module is None,
        Err(SetupError::InvalidPattern(e)) => {
            &&& module is Some
            &&& is_parse_of(text, Err(e))
        },
        Err(SetupError::PatternNotFound) => {
            &&& module matches Some(m)
            &&& well_formed(text)
            &&& is_first_match(m.origin(), m.image(), parsed(text), None)
        },
    }
}

/// Finds the function that `signature` describes in `module`: the address
/// of the first match of the signature in the module's image.
///
/// Fails with `ModuleNotFound` where there is no module, with
/// `InvalidPattern` where the signature is not well formed, and with
/// `PatternNotFound` where it matches nowhere.
pub fn resolve(module: Option<&ModuleImage<'_>>, signature: &str) -> (r: Result<usize, SetupError>)
    ensures
        is_resolution_of(module, signature.spec_bytes(), r),
{
    let m = match module {
        Some(m) => m,
        None => {
            return Err(SetupError::ModuleNotFound);
        },
    };
    let pattern = match Pattern::from_ida(signature) {
        Ok(p) => p,
        Err(e) => {
            return Err(SetupError::InvalidPattern(e));
        },
    };
    match m.address_of(&pattern) {
        Some(address) => Ok(address),
        None => Err(SetupError::PatternNotFound),
    }
}

/// The number that four bytes spell, lowest byte first.
pub open spec fn le_u32(bytes: Seq<u8>, at: int) -> int {
    bytes[at] + 0x100 * bytes[at + 1] + 0x1_0000 * bytes[at + 2] + 0x100_0000 * bytes[at + 3]
}

/// Where a module's headers keep the offset of the NT headers.
pub const NT_HEADERS_OFFSET_AT: usize = 0x3c;

/// Where the NT headers keep the size of the image, counted from their
/// start.
pub const SIZE_OF_IMAGE_AT: usize = 0x50;

/// The size of a module's image as its headers state it: the field at
/// `SIZE_OF_IMAGE_AT` of the NT headers, whose offset the field at
/// `NT_HEADERS_OFFSET_AT` gives as a signed number. Nothing where that
/// offset is negative or a field lies outside `headers`.
pub open spec fn image_size_of(headers: Seq<u8>) -> Option<u32> {
    if headers.len() < NT_HEADERS_OFFSET_AT + 4 {
        None
    } else {
        let nt = le_u32(headers, NT_HEADERS_OFFSET_AT as int);
        if nt >= 0x8000_0000 || nt + SIZE_OF_IMAGE_AT + 4 > headers.len() {
            None
        } else {
            Some(le_u32(headers, nt + SIZE_OF_IMAGE_AT) as u32)
        }
    }
}

fn read_le_u32(bytes: &[u8], at: usize) -> (n: u32)
    requires
        at + 4 <= bytes@.len(),
    ensures
        n == le_u32(bytes@, at as int),
{
    let b0 = bytes[at] as u32;
    let b1 = bytes[at + 1] as u32;
    let b2 = bytes[at + 2] as u32;
    let b3 = bytes[at + 3] as u32;
    b0 + 0x100 * b1 + 0x1_0000 * b2 + 0x100_0000 * b3
}

/// Reads the size of a module's image from the first bytes of the module.
pub fn module_image_size(headers: &[u8]) -> (r: Option<u32>)
    ensures
        r == image_size_of(headers@),
{
    if headers.len() < NT_HEADERS_OFFSET_AT + 4 {
        return None;
    }
    let nt = read_le_u32(headers, NT_HEADERS_OFFSET_AT);
    if nt >= 0x8000_0000 {
        return None;
    }
    let nt = nt as usize;
    if headers.len() < SIZE_OF_IMAGE_AT + 4 || nt > headers.len() - (SIZE_OF_IMAGE_AT + 4) {
        return None;
    }
    Some(read_le_u32(headers, nt + SIZE_OF_IMAGE_AT))
}

} // verus!
