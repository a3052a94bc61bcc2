//! A compact, budgeted text digest of a source tree for the judge prompt:
//! the tree with sizes, then the contents of small text files. Binaries are
//! listed but never inlined; the model sees names and sizes only.
use vstd::prelude::*;
use vstd::utf8::{decode_utf8, valid_utf8};

use crate::text::{decimal, push_decimal, repeat_char, str_eq};

verus! {

pub const TOTAL_BUDGET_BYTES: usize = 350000;

pub const PER_FILE_CAP_BYTES: usize = 24000;

/// What `str::to_lowercase` returns for a text.
pub uninterp spec fn lowercase(s: Seq<char>) -> Seq<char>;

/// What `String::from_utf8_lossy` returns for a byte string: for valid
/// UTF-8, the text it encodes.
pub uninterp spec fn utf8_lossy(bytes: Seq<u8>) -> Seq<char>;

/// `str::to_lowercase`. The contract names the result; Unicode's lowercase
/// mapping is not restated.
#[verifier::external_body]
fn to_lowercase(s: &str) -> (r: String)
    ensures
        r@ == lowercase(s@),
{
    s.to_lowercase()
}

/// `String::from_utf8_lossy`: valid UTF-8 decodes to its text; what an
/// invalid sequence becomes (U+FFFD replacements) is left to the name.
#[verifier::external_body]
fn decode_lossy(bytes: &[u8]) -> (r: String)
    ensures
        r@ == utf8_lossy(bytes@),
        valid_utf8(bytes@) ==> r@ == decode_utf8(bytes@),
{
    String::from_utf8_lossy(bytes).into_owned()
}

/// Extensions of the files whose contents the digest may inline.
pub open spec fn text_extensions() -> Seq<Seq<char>> {
    seq![
        "rs"@, "c"@, "h"@, "cpp"@, "cc"@, "py"@, "js"@, "ts"@, "jsx"@, "tsx"@, "svelte"@, "vue"@,
        "go"@, "java"@, "kt"@, "sh"@, "vala"@, "ui"@, "xml"@, "yml"@, "yaml"@, "json"@, "toml"@,
        "md"@, "txt"@, "css"@, "html"@, "meson"@, "build"@, "cmake"@, "glsl"@, "desktop"@,
        "metainfo.xml"@, "appdata.xml"@, "gresource"@,
    ]
}

fn text_extension_table() -> (r: Vec<&'static str>)
    ensures
        crate::manifest::str_refs_view(r@) == text_extensions(),
{
    let r = vec![
        "rs", "c", "h", "cpp", "cc", "py", "js", "ts", "jsx", "tsx", "svelte", "vue", "go", "java",
        "kt", "sh", "vala", "ui", "xml", "yml", "yaml", "json", "toml", "md", "txt", "css", "html",
        "meson", "build", "cmake", "glsl", "desktop", "metainfo.xml", "appdata.xml", "gresource",
    ];
    assert(crate::manifest::str_refs_view(r@) =~= text_extensions());
    r
}

/// A file's contents may be inlined: small enough, and a text extension
/// (compared in lowercase).
pub open spec fn inlinable(len: u64, ext: Seq<char>) -> bool {
    len <= PER_FILE_CAP_BYTES && text_extensions().contains(lowercase(ext))
}

/// Whether the digest can use a file's contents, so whether to read it.
pub fn digest_reads(len: u64, ext: &str) -> (r: bool)
    ensures
        r == inlinable(len, ext@),
{
    if len > PER_FILE_CAP_BYTES as u64 {
        return false;
    }
    let lower = to_lowercase(ext);
    let table = text_extension_table();
    let mut i: usize = 0;
    while i < table.len()
        invariant
            i <= table@.len(),
            crate::manifest::str_refs_view(table@) == text_extensions(),
            lower@ == lowercase(ext@),
            len <= PER_FILE_CAP_BYTES,
            forall|k: int| 0 <= k < i ==> text_extensions()[k] != lower@,
        decreases table@.len() - i,
    {
        if str_eq(lower.as_str(), table[i]) {
            assert(text_extensions()[i as int] == lower@);
            return true;
        }
        i += 1;
    }
    false
}

/// Directories (and files) the digest walk does not enter.
pub open spec fn digest_skips(name: Seq<char>) -> bool {
    name == ".git"@ || name == "node_modules"@ || name == "target"@ || name == "build"@
}

pub fn digest_skips_name(name: &str) -> (r: bool)
    ensures
        r == digest_skips(name@),
{
    str_eq(name, ".git") || str_eq(name, "node_modules") || str_eq(name, "target") || str_eq(name, "build")
}

/// A file of the source tree, in walk order.
pub struct DigestEntry {
    /// Path relative to the source dir.
    pub rel: String,
    pub len: u64,
    /// The path's extension as it stands ("" when it has none).
    pub ext: String,
    /// The file's bytes, when they were read.
    pub bytes: Option<Vec<u8>>,
}

/// `{:>9}`: right-aligned in nine columns.
pub open spec fn pad9(s: Seq<char>) -> Seq<char> {
    if s.len() < 9 {
        repeat_char(' ', (9 - s.len()) as nat) + s
    } else {
        s
    }
}

pub open spec fn listing_line(e: DigestEntry) -> Seq<char> {
    pad9(decimal(e.len as nat)) + "  "@ + e.rel@ + "\n"@
}

pub open spec fn min_nat(a: nat, b: nat) -> nat {
    if a < b {
        a
    } else {
        b
    }
}

/// The bytes of an entry that go into the digest given `remaining` budget;
/// `None` when the entry is not inlined.
pub open spec fn inlined(e: DigestEntry, remaining: nat) -> Option<Seq<u8>> {
    if remaining == 0 || !inlinable(e.len, e.ext@) {
        None
    } else {
        match e.bytes {
            Some(b) => if b@.contains(0u8) {
                None
            } else {
                Some(b@.take(min_nat(b@.len(), remaining) as int))
            },
            None => None,
        }
    }
}

/// Listing, contents, and remaining budget after the given entries.
pub open spec fn digest_state(entries: Seq<DigestEntry>) -> (Seq<char>, Seq<char>, nat)
    decreases entries.len(),
{
    if entries.len() == 0 {
        (seq![], seq![], TOTAL_BUDGET_BYTES as nat)
    } else {
        let (listing, contents, remaining) = digest_state(entries.drop_last());
        let e = entries.last();
        let listing2 = listing + listing_line(e);
        match inlined(e, remaining) {
            Some(b) => (
                listing2,
                contents + "\n----- "@ + e.rel@ + " -----\n"@ + utf8_lossy(b) + "\n"@,
                (remaining - b.len()) as nat,
            ),
            None => (listing2, contents, remaining),
        }
    }
}

/// The digest of a source tree's files, given in path order.
pub open spec fn digest_of(entries: Seq<DigestEntry>) -> Seq<char> {
    let (listing, contents, remaining) = digest_state(entries);
    "TREE ("@ + decimal(entries.len()) + " files):\n"@ + listing + "\nFILE CONTENTS (budget "@
        + decimal((TOTAL_BUDGET_BYTES - remaining) as nat) + "/"@ + decimal(TOTAL_BUDGET_BYTES as nat)
        + " bytes used):\n"@ + contents
}

fn has_zero(b: &Vec<u8>) -> (r: bool)
    ensures
        r == b@.contains(0u8),
{
    let mut i: usize = 0;
    while i < b.len()
        invariant
            i <= b@.len(),
            forall|k: int| 0 <= k < i ==> b@[k] != 0u8,
        decreases b@.len() - i,
    {
        if b[i] == 0 {
            assert(b@[i as int] == 0u8);
            return true;
        }
        i += 1;
    }
    false
}

fn push_padded(out: &mut String, n: u64)
    ensures
        final(out)@ == old(out)@ + pad9(decimal(n as nat)),
{
    let mut digits = String::new();
    push_decimal(&mut digits, n);
    assert(digits@ =~= decimal(n as nat));
    let width = digits.as_str().unicode_len();
    if width < 9 {
        crate::text::push_repeat(out, ' ', 9 - width);
    }
    out.append(digits.as_str());
    assert(out@ =~= old(out)@ + pad9(decimal(n as nat)));
}

/// Renders the digest of a source tree.
pub fn render_digest(entries: &Vec<DigestEntry>) -> (r: String)
    ensures
        r@ == digest_of(entries@),
{
    let mut listing = String::new();
    let mut contents = String::new();
    let mut remaining: usize = TOTAL_BUDGET_BYTES;
    let mut i: usize = 0;
    while i < entries.len()
        invariant
            i <= entries@.len(),
            remaining <= TOTAL_BUDGET_BYTES,
            digest_state(entries@.take(i as int)) == (listing@, contents@, remaining as nat),
        decreases entries@.len() - i,
    {
        let e = &entries[i];
        assert(entries@.take(i + 1).drop_last() =~= entries@.take(i as int));
        assert(entries@.take(i + 1).last() == *e);
        push_padded(&mut listing, e.len);
        listing.append("  ");
        listing.append(e.rel.as_str());
        listing.append("\n");
        if remaining > 0 && digest_reads(e.len, e.ext.as_str()) {
            match &e.bytes {
                Some(b) => {
                    if !has_zero(b) {
                        let n = if b.len() < remaining { b.len() } else { remaining };
                        let slice = vstd::slice::slice_subrange(b.as_slice(), 0, n);
                        let text = decode_lossy(slice);
                        assert(slice@ =~= b@.take(n as int));
                        contents.append("\n----- ");
                        contents.append(e.rel.as_str());
                        contents.append(" -----\n");
                        contents.append(text.as_str());
                        contents.append("\n");
                        remaining = remaining - n;
                    }
                },
                None => {},
            }
        }
        assert(listing@ =~= digest_state(entries@.take(i as int)).0 + listing_line(*e));
        i += 1;
    }
    assert(entries@.take(entries@.len() as int) =~= entries@);
    let mut r = String::from_str("TREE (");
    push_decimal(&mut r, entries.len() as u64);
    r.append(" files):\n");
    r.append(listing.as_str());
    r.append("\nFILE CONTENTS (budget ");
    push_decimal(&mut r, (TOTAL_BUDGET_BYTES - remaining) as u64);
    r.append("/");
    push_decimal(&mut r, TOTAL_BUDGET_BYTES as u64);
    r.append(" bytes used):\n");
    r.append(contents.as_str());
    assert(r@ =~= digest_of(entries@));
    r
}

} // verus!
