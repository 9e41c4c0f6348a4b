//! The dynamic library that holds the native API, and what is resolved from
//! it. The operating system loads and resolves; this module prepares what it
//! is asked and judges what it answers.

use vstd::prelude::*;
use vstd::string::*;
use crate::name::nul_free;

verus! {

/// The UTF-16 code units of one character: one unit in the basic plane, a
/// surrogate pair above it.
pub open spec fn utf16_units(c: char) -> Seq<u16> {
    let v = c as u32;
    if v < 0x10000 {
        seq![v as u16]
    } else {
        seq![(0xD800 + (v - 0x10000) / 0x400) as u16, (0xDC00 + (v - 0x10000) % 0x400) as u16]
    }
}

/// The UTF-16 encoding of a text.
pub open spec fn utf16(text: Seq<char>) -> Seq<u16>
    decreases text.len(),
{
    if text.len() == 0 {
        Seq::empty()
    } else {
        utf16(text.drop_last()) + utf16_units(text.last())
    }
}

/// The path of a library as the loader takes it: UTF-16, closed by a zero
/// unit.
pub fn wide_path(path: &str) -> (wide: Vec<u16>)
    ensures
        wide@ == utf16(path@).push(0u16),
{
    broadcast use vstd::string::group_string_axioms;

    let mut wide: Vec<u16> = Vec::new();
    for c in it: path.chars()
        invariant
            it.seq() == path@,
            wide@ == utf16(path@.take(it.index())),
    {
        let ghost k = it.index();
        proof {
            vstd::utf8::char_is_scalar(c);
            assert(path@.take(k + 1).drop_last() =~= path@.take(k));
            assert(path@.take(k + 1).last() == c);
        }
        let v: u32 = c as u32;
        if v < 0x10000 {
            wide.push(v as u16);
        } else {
            let high: u32 = 0xD800 + (v - 0x10000) / 0x400;
            let low: u32 = 0xDC00 + (v - 0x10000) % 0x400;
            wide.push(high as u16);
            wide.push(low as u16);
        }
        assert(wide@ =~= utf16(path@.take(k)) + utf16_units(c));
    }
    assert(path@.take(path@.len() as int) =~= path@);
    wide.push(0u16);
    wide
}

/// The name of a symbol as the resolver takes it: its bytes, closed by a zero
/// byte. A name that holds a zero byte has no such form.
pub fn symbol_name(name: &str) -> (bytes: Option<Vec<u8>>)
    ensures
        bytes is Some <==> nul_free(name.spec_bytes()),
        bytes matches Some(b) ==> b@ == name.spec_bytes().push(0u8),
{
    let raw = name.as_bytes();
    let mut bytes: Vec<u8> = Vec::new();
    let mut i: usize = 0;
    while i < raw.len()
        invariant
            raw@ == name.spec_bytes(),
            i <= raw.len(),
            bytes@ == raw@.take(i as int),
            forall|j: int| 0 <= j < i ==> raw@[j] != 0,
        decreases raw.len() - i,
    {
        if raw[i] == 0 {
            return None;
        }
        bytes.push(raw[i]);
        i = i + 1;
        assert(bytes@ =~= raw@.take(i as int));
    }
    assert(raw@.take(i as int) =~= raw@);
    bytes.push(0u8);
    Some(bytes)
}

/// The address of a symbol resolved from a loaded library; never null. It
/// stays valid only as long as the library stays loaded.
#[derive(Clone, Copy, Debug, PartialEq, Eq, Structural)]
pub struct SymbolAddress {
    address: usize,
}

impl SymbolAddress {
    /// The address itself.
    pub closed spec fn value(&self) -> usize {
        self.address
    }

    #[verifier::type_invariant]
    spec fn non_null(&self) -> bool {
        self.address != 0
    }

    /// The address itself, which is not null.
    pub fn address(&self) -> (address: usize)
        ensures
            address == self.value(),
            address != 0,
    {
        proof {
            use_type_invariant(self);
        }
        self.address
    }
}

/// A loaded library, by the module handle that the loader gave; never null.
#[derive(Clone, Copy, Debug, PartialEq, Eq, Structural)]
pub struct DynamicLibrary {
    module: isize,
}

impl DynamicLibrary {
    /// The module handle.
    pub closed spec fn handle(&self) -> isize {
        self.module
    }

    #[verifier::type_invariant]
    spec fn loaded(&self) -> bool {
        self.module != 0
    }

    /// The library behind the handle that the loader returned for a path. A
    /// null handle means that nothing was loaded, and gives no library.
    pub fn new(module: isize) -> (library: Option<DynamicLibrary>)
        ensures
            library is Some <==> module != 0,
            library matches Some(l) ==> l.handle() == module,
    {
        if module != 0 {
            Some(DynamicLibrary { module })
        } else {
            None
        }
    }

    /// The module handle, which is not null.
    pub fn module(&self) -> (module: isize)
        ensures
            module == self.handle(),
            module != 0,
    {
        proof {
            use_type_invariant(self);
        }
        self.module
    }

    /// The symbol behind the address that the resolver returned for a name. A
    /// null address means that the library exports no such symbol.
    pub fn get(&self, address: usize) -> (symbol: Option<SymbolAddress>)
        ensures
            symbol is Some <==> address != 0,
            symbol matches Some(s) ==> s.value() == address,
    {
        if address != 0 {
            Some(SymbolAddress { address })
        } else {
            None
        }
    }
}

} // verus!
