//! Linking against libraries with zksolc: the library reference formats.
use vstd::prelude::*;
use vstd::string::*;

verus! {

/// Position of the first `':'` in `s`, or `s.len()` when there is none.
pub open spec fn colon_index(s: Seq<char>) -> nat
    decreases s.len(),
{
    if s.len() == 0 {
        0
    } else if s[0] == ':' {
        0
    } else {
        1 + colon_index(s.drop_first())
    }
}

/// `s` holds no `':'`.
pub open spec fn no_colon(s: Seq<char>) -> bool {
    forall|i: int| 0 <= i < s.len() ==> s[i] != ':'
}

/// The segment of `s` before its first `':'` (all of `s` when there is none).
pub open spec fn first_segment(s: Seq<char>) -> Seq<char> {
    s.take(colon_index(s) as int)
}

/// What `"<path>:<name>[:...]"` splits into: the path and the name, that is the first two
/// `':'`-separated segments; `None` when `s` holds no `':'` (there is no second segment).
pub open spec fn parse_missing_library(s: Seq<char>) -> Option<(Seq<char>, Seq<char>)> {
    let i = colon_index(s);
    if i < s.len() {
        Some((s.take(i as int), first_segment(s.skip(i as int + 1))))
    } else {
        None
    }
}

/// `colon_index` points at the first `':'`, or past the end.
pub proof fn lemma_colon_index(s: Seq<char>)
    ensures
        colon_index(s) <= s.len(),
        forall|j: int| 0 <= j < colon_index(s) ==> s[j] != ':',
        colon_index(s) < s.len() ==> s[colon_index(s) as int] == ':',
    decreases s.len(),
{
    if s.len() > 0 && s[0] != ':' {
        lemma_colon_index(s.drop_first());
        assert forall|j: int| 0 <= j < colon_index(s) implies s[j] != ':' by {
            if j > 0 {
                assert(s[j] == s.drop_first()[j - 1]);
            }
        }
    }
}

/// Any position that has only non-`':'` before it and a `':'` (or the end) at it is `colon_index`.
pub proof fn lemma_colon_index_unique(s: Seq<char>, k: int)
    requires
        0 <= k <= s.len(),
        forall|j: int| 0 <= j < k ==> s[j] != ':',
        k < s.len() ==> s[k] == ':',
    ensures
        colon_index(s) == k,
    decreases s.len(),
{
    if s.len() > 0 && k > 0 {
        assert(s[0] != ':');
        assert forall|j: int| 0 <= j < k - 1 implies s.drop_first()[j] != ':' by {
            assert(s.drop_first()[j] == s[j + 1]);
        }
        lemma_colon_index_unique(s.drop_first(), k - 1);
    }
}

/// A library that zksolc reports as missing, given as `"<path>:<name>"`.
#[derive(Debug, Clone, PartialEq, Eq, Hash, PartialOrd, Ord)]
pub struct MissingLibrary {
    /// Source path of the contract
    pub filename: String,
    /// Name of the contract
    pub library: String,
}

/// Index of the first `':'` of `s` (in chars), or its length.
fn find_colon(s: &str) -> (r: usize)
    ensures
        r == colon_index(s@),
{
    let n = s.unicode_len();
    let mut i: usize = 0;
    while i < n
        invariant
            n == s@.len(),
            i <= n,
            forall|j: int| 0 <= j < i ==> s@[j] != ':',
        decreases n - i,
    {
        if s.get_char(i) == ':' {
            proof {
                lemma_colon_index_unique(s@, i as int);
            }
            return i;
        }
        i = i + 1;
    }
    proof {
        lemma_colon_index_unique(s@, i as int);
    }
    i
}

/// `try_from`'s own `ensures` states its result over the views of the strings; the generic
/// form, which would compare `String` values themselves, is not claimed.
impl vstd::std_specs::convert::TryFromSpecImpl<String> for MissingLibrary {
    open spec fn obeys_try_from_spec() -> bool {
        false
    }

    open spec fn try_from_spec(v: String) -> Result<Self, &'static str> {
        arbitrary()
    }
}

impl TryFrom<String> for MissingLibrary {
    type Error = &'static str;

    /// Splits `"<path>:<name>"` into the path and the name; a third or later `':'`-separated
    /// segment is ignored. Fails when `value` holds no `':'`.
    fn try_from(value: String) -> (res: Result<MissingLibrary, &'static str>)
        ensures
            match parse_missing_library(value@) {
                Some((filename, library)) => res matches Ok(m) && m.filename@ == filename
                    && m.library@ == library,
                None => res == Err::<MissingLibrary, &'static str>(
                    "failed to parse unlinked library name",
                ),
            },
    {
        let value = value.as_str();
        let n = value.unicode_len();
        let i = find_colon(value);
        proof {
            lemma_colon_index(value@);
        }
        if i == n {
            return Err("failed to parse unlinked library name");
        }
        let filename = String::from_str(value.substring_char(0, i));
        let rest = value.substring_char(i + 1, n);
        let j = find_colon(rest);
        proof {
            lemma_colon_index(rest@);
        }
        let library = String::from_str(rest.substring_char(0, j));
        proof {
            assert(rest@ =~= value@.skip(i + 1));
        }
        Ok(MissingLibrary { filename, library })
    }
}

/// Representation of a linked object given by zksolc
#[derive(Debug, Clone)]
pub struct LinkedObject {
    /// Fully linked bytecode
    pub bytecode: String,
    /// Bytecode hash of the fully linked object
    pub hash: String,
}

/// Hex digit (lower case) of a nibble value `0..16`.
pub open spec fn hex_digit(n: int) -> char {
    if n < 10 {
        ('0' as int + n) as char
    } else {
        ('a' as int + n - 10) as char
    }
}

/// The `i`-th nibble of `bytes`, high nibble of each byte first.
pub open spec fn nibble(bytes: Seq<u8>, i: int) -> int {
    if i % 2 == 0 {
        bytes[i / 2] as int / 16
    } else {
        bytes[i / 2] as int % 16
    }
}

/// ASCII lower case of `c`.
pub open spec fn ascii_lowercase(c: char) -> char {
    if 'A' <= c <= 'Z' {
        (c as int + 32) as char
    } else {
        c
    }
}

/// `text` is `bytes` written as `0x` and forty hex digits, each letter in either case
/// (the EIP-55 mixed-case form of a 20-byte address).
pub open spec fn is_checksum_text(text: Seq<char>, bytes: Seq<u8>) -> bool {
    &&& text.len() == 42
    &&& text[0] == '0'
    &&& text[1] == 'x'
    &&& forall|i: int| 0 <= i < 40 ==> ascii_lowercase(#[trigger] text[i + 2]) == hex_digit(nibble(bytes, i))
}

/// The EIP-55 checksummed text of a 20-byte address, as `alloy_primitives::Address` displays it.
pub uninterp spec fn address_checksum(bytes: Seq<u8>) -> Seq<char>;

/// Displays a 20-byte address through `alloy_primitives::Address`'s `Display` impl, which writes
/// its EIP-55 checksum: `0x` and the forty lower-case hex digits of the bytes, with each letter
/// made upper case where the keccak-256 hash of those digits has a nibble of 8 or more. The
/// contract states that form up to the case of the letters; the case itself is left to the name
/// `address_checksum`.
#[verifier::external_body]
fn address_to_string(bytes: &[u8; 20]) -> (text: String)
    ensures
        text@ == address_checksum(bytes@),
        is_checksum_text(text@, bytes@),
{
    alloy_primitives::Address::from(*bytes).to_string()
}

/// `"<filename>:<name>=<address>"`, the form in which zksolc takes a library to link against.
pub open spec fn library_text(filename: Seq<char>, name: Seq<char>, address: Seq<char>) -> Seq<
    char,
> {
    filename + seq![':'] + name + seq!['='] + address
}

/// A library that zksolc will link against
#[derive(Debug, Clone, PartialEq, Eq, Hash)]
pub struct Library {
    /// Path to the library source
    pub filename: String,
    /// Name of the library
    pub name: String,
    /// Address of the library
    pub address: [u8; 20],
}

/// `from`'s own `ensures` states its result over the view of the string; the generic form,
/// which would compare `String` values themselves, is not claimed.
impl vstd::std_specs::convert::FromSpecImpl<Library> for String {
    open spec fn obeys_from_spec() -> bool {
        false
    }

    open spec fn from_spec(v: Library) -> String {
        arbitrary()
    }
}

impl From<Library> for String {
    /// Writes the library as `"<filename>:<name>=<address>"`, the address in its EIP-55 form.
    fn from(lib: Library) -> (res: String)
        ensures
            res@ == library_text(lib.filename@, lib.name@, address_checksum(lib.address@)),
            is_checksum_text(address_checksum(lib.address@), lib.address@),
    {
        let address = address_to_string(&lib.address);
        let mut text = lib.filename;
        text.append(":");
        text.append(lib.name.as_str());
        text.append("=");
        text.append(address.as_str());
        proof {
            reveal_strlit(":");
            reveal_strlit("=");
        }
        text
    }
}


/// A `':'` after a colon-free prefix is found right after that prefix.
pub proof fn lemma_colon_index_append(p: Seq<char>, q: Seq<char>)
    requires
        no_colon(p),
    ensures
        colon_index(p + q) == p.len() + colon_index(q),
{
    lemma_colon_index(q);
    let s = p + q;
    let k = p.len() + colon_index(q);
    assert forall|j: int| 0 <= j < k implies s[j] != ':' by {
        if j >= p.len() {
            assert(s[j] == q[j - p.len()]);
        }
    }
    if k < s.len() {
        assert(s[k as int] == q[colon_index(q) as int]);
    }
    lemma_colon_index_unique(s, k as int);
}

/// Law: a reference `"<path>:<rest>"` whose path holds no `':'` parses to that path and to
/// the part of `rest` before its first `':'` (all of `rest` when it has none).
pub proof fn lemma_parse_path_and_name(path: Seq<char>, rest: Seq<char>)
    requires
        no_colon(path),
    ensures
        parse_missing_library(path + seq![':'] + rest) == Some((path, first_segment(rest))),
{
    let s = path + seq![':'] + rest;
    assert(s =~= path + (seq![':'] + rest));
    lemma_colon_index_append(path, seq![':'] + rest);
    assert(colon_index(seq![':'] + rest) == 0);
    assert(s.take(path.len() as int) =~= path);
    assert(s.skip(path.len() as int + 1) =~= rest);
}

/// Law: parsing fails exactly on the references that hold no `':'`; the path segment itself
/// can never be missing.
pub proof fn lemma_parse_fails_iff_no_colon(s: Seq<char>)
    ensures
        parse_missing_library(s) is None <==> no_colon(s),
{
    lemma_colon_index(s);
}

/// The checksummed text of an address holds no `':'`.
pub proof fn lemma_checksum_text_no_colon(text: Seq<char>, bytes: Seq<u8>)
    requires
        is_checksum_text(text, bytes),
    ensures
        no_colon(text),
{
    assert forall|i: int| 0 <= i < text.len() implies text[i] != ':' by {
        if i >= 2 {
            let c = text[(i - 2) + 2];
            let n = nibble(bytes, i - 2);
            assert(ascii_lowercase(c) == hex_digit(n));
            assert(0 <= n < 16);
        }
    }
}

/// Law: the text that a library is written as, read back as a reference, gives the library's
/// file name as the path and `"<name>=<address>"` as the name, wherever neither the file name nor
/// the name holds a `':'`.
pub proof fn lemma_library_text_parses(
    filename: Seq<char>,
    name: Seq<char>,
    address: Seq<char>,
    bytes: Seq<u8>,
)
    requires
        no_colon(filename),
        no_colon(name),
        is_checksum_text(address, bytes),
    ensures
        parse_missing_library(library_text(filename, name, address)) == Some(
            (filename, name + seq!['='] + address),
        ),
{
    let rest = name + seq!['='] + address;
    lemma_checksum_text_no_colon(address, bytes);
    assert(no_colon(rest)) by {
        assert forall|i: int| 0 <= i < rest.len() implies rest[i] != ':' by {
            if i < name.len() {
                assert(rest[i] == name[i]);
            } else if i > name.len() {
                assert(rest[i] == address[i - name.len() - 1]);
            }
        }
    }
    lemma_colon_index(rest);
    lemma_colon_index_unique(rest, rest.len() as int);
    assert(first_segment(rest) =~= rest);
    assert(library_text(filename, name, address) =~= filename + seq![':'] + rest);
    lemma_parse_path_and_name(filename, rest);
}


/// Law: `no_colon` means that `':'` does not occur, and `colon_index` is where it first occurs.
pub proof fn lemma_no_colon_is_absence(s: Seq<char>)
    ensures
        no_colon(s) <==> !s.contains(':'),
        no_colon(s) <==> colon_index(s) == s.len(),
{
    lemma_colon_index(s);
    if s.contains(':') {
        let i = choose|i: int| 0 <= i < s.len() && s[i] == ':';
        assert(!no_colon(s));
    }
    if !no_colon(s) {
        let i = choose|i: int| 0 <= i < s.len() && s[i] == ':';
        assert(s.contains(':'));
    }
}

/// Law: a reference made of a path, `':'` and a name, neither holding a `':'`, parses back to
/// exactly that path and that name.
pub proof fn lemma_parse_reference_exact(path: Seq<char>, name: Seq<char>)
    requires
        no_colon(path),
        no_colon(name),
    ensures
        parse_missing_library(path + seq![':'] + name) == Some((path, name)),
{
    lemma_parse_path_and_name(path, name);
    lemma_colon_index_unique(name, name.len() as int);
    assert(first_segment(name) =~= name);
}

/// Law: segments after the name do not change what is read: for a path and a name without
/// `':'`, `path:name:tail` parses to exactly that path and that name, whatever `tail` is.
pub proof fn lemma_parse_ignores_later_segments(path: Seq<char>, name: Seq<char>, tail: Seq<char>)
    requires
        no_colon(path),
        no_colon(name),
    ensures
        parse_missing_library(path + seq![':'] + name + seq![':'] + tail) == Some((path, name)),
{
    let rest = name + seq![':'] + tail;
    lemma_parse_path_and_name(path, rest);
    assert(rest =~= name + (seq![':'] + tail));
    lemma_colon_index_append(name, seq![':'] + tail);
    assert(colon_index(seq![':'] + tail) == 0);
    assert(rest.take(name.len() as int) =~= name);
    assert(first_segment(rest) =~= name);
    assert(path + seq![':'] + name + seq![':'] + tail =~= path + seq![':'] + rest);
}

/// Law: the text of a library is the file name, `':'`, the name, `'='` and the address text,
/// each in place and nothing else: it has exactly their length plus two, and with a checksummed
/// address it is `|filename| + |name| + 44` characters long and ends with the address.
pub proof fn lemma_library_text_layout(
    filename: Seq<char>,
    name: Seq<char>,
    address: Seq<char>,
    bytes: Seq<u8>,
)
    ensures
        ({
            let t = library_text(filename, name, address);
            let f = filename.len() as int;
            let n = name.len() as int;
            &&& t.len() == f + n + address.len() + 2
            &&& t.take(f) == filename
            &&& t[f] == ':'
            &&& t.subrange(f + 1, f + 1 + n) == name
            &&& t[f + 1 + n] == '='
            &&& t.skip(f + n + 2) == address
            &&& is_checksum_text(address, bytes) ==> t.len() == f + n + 44 && t.skip(t.len() - 42)
                == address
        }),
{
    let t = library_text(filename, name, address);
    let f = filename.len() as int;
    let n = name.len() as int;
    assert(t.take(f) =~= filename);
    assert(t.subrange(f + 1, f + 1 + n) =~= name);
    assert(t.skip(f + n + 2) =~= address);
}

} // verus!
