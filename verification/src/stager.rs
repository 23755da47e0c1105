//! Staging of built modules: the name of a session's staging directory, the
//! randomized file name each staged copy receives (never reusing the last
//! name, so no loader-level cache keyed by path can serve a stale image),
//! and the descriptor record that names the currently active staged file.
//! The directory creation and the copy itself are filesystem work and live
//! outside this crate; everything they need computed is stated here.

use vstd::prelude::*;

use crate::identity::{digit_char, digit_str, spec_encode, SessionIdentity};

verus! {

/// Staged file names carry a random tag below this bound.
pub const FILE_TAG_LIMIT: u64 = 65536;

/// The decimal digits of `n`, most significant first, no leading zeros.
pub open spec fn dec_digits(n: nat) -> Seq<char>
    decreases n,
{
    if n < 10 {
        seq![digit_char(n)]
    } else {
        dec_digits(n / 10).push(digit_char(n % 10))
    }
}

/// `n` written in decimal, no leading zeros.
pub fn u64_to_decimal(n: u64) -> (r: String)
    ensures
        r@ == dec_digits(n as nat),
    decreases n,
{
    if n < 10 {
        String::from_str(digit_str(n))
    } else {
        let mut r = u64_to_decimal(n / 10);
        r.append(digit_str(n % 10));
        proof {
            assert(r@ =~= dec_digits(n as nat));
        }
        r
    }
}

/// The name of the staging directory of the session keyed by `id`.
pub open spec fn spec_staging_dir_name(id: SessionIdentity) -> Seq<char> {
    "vsthotload"@ + spec_encode(id)
}

/// Name the staging directory for a session: a fixed prefix followed by the
/// encoded identity. Distinct identities name distinct directories, by
/// `identity::lemma_encode_injective`.
pub fn staging_dir_name(id: &SessionIdentity) -> (r: String)
    requires
        id.wf(),
    ensures
        r@ == spec_staging_dir_name(*id),
{
    let mut r = String::from_str("vsthotload");
    let enc = crate::identity::encode(id);
    r.append(enc.as_str());
    r
}

/// Law: staging directory names are unique per session — two well-formed
/// identities that name the same directory are the same identity, so a
/// session never lands in a leftover directory of a different session.
pub proof fn lemma_staging_dir_name_injective(a: SessionIdentity, b: SessionIdentity)
    requires
        a.wf(),
        b.wf(),
        spec_staging_dir_name(a) == spec_staging_dir_name(b),
    ensures
        a == b,
{
    let p = "vsthotload"@;
    let na = p + spec_encode(a);
    let nb = p + spec_encode(b);
    assert(spec_encode(a) =~= na.subrange(p.len() as int, na.len() as int));
    assert(spec_encode(b) =~= nb.subrange(p.len() as int, nb.len() as int));
    crate::identity::lemma_encode_injective(a, b);
}

/// The staged file name carrying the random tag `tag`.
pub open spec fn spec_staged_file_name(tag: u64) -> Seq<char> {
    "reloaded"@ + dec_digits(tag as nat) + ".dll"@
}

/// Name a staged copy of the module for the given tag.
pub fn staged_file_name(tag: u64) -> (r: String)
    ensures
        r@ == spec_staged_file_name(tag),
{
    let mut r = String::from_str("reloaded");
    let digits = u64_to_decimal(tag);
    r.append(digits.as_str());
    r.append(".dll");
    r
}

/// Name a fresh staged copy under a randomly drawn tag, so that each staged
/// copy of the same module gets a path no loader has seen before.
pub fn fresh_staged_file_name() -> (r: String)
    ensures
        exists|tag: u64| tag < FILE_TAG_LIMIT && r@ == spec_staged_file_name(tag),
{
    let tag = crate::identity::random_below(FILE_TAG_LIMIT);
    staged_file_name(tag)
}

/// The key that opens a descriptor record.
pub open spec fn descriptor_prefix() -> Seq<char> {
    "current_lib_file: "@
}

/// A descriptor parses to the path it names exactly when it starts with the
/// descriptor key; everything after the key is the path.
pub open spec fn spec_parse_descriptor(s: Seq<char>) -> Option<Seq<char>> {
    if s.len() >= descriptor_prefix().len() && s.subrange(0, descriptor_prefix().len() as int)
        == descriptor_prefix() {
        Some(s.subrange(descriptor_prefix().len() as int, s.len() as int))
    } else {
        None
    }
}

/// Write the descriptor record naming `path` as the currently active staged
/// file. The record parses back to exactly the path it names, so a reattach
/// that reads it opens the file the stager wrote.
pub fn descriptor_contents(path: &str) -> (r: String)
    ensures
        r@ == descriptor_prefix() + path@,
        spec_parse_descriptor(r@) == Some(path@),
{
    let mut r = String::from_str("current_lib_file: ");
    r.append(path);
    proof {
        let plen = descriptor_prefix().len() as int;
        assert(r@.subrange(0, plen) =~= descriptor_prefix());
        assert(r@.subrange(plen, r@.len() as int) =~= path@);
    }
    r
}

/// A descriptor that does not carry the expected key.
#[derive(Clone, Copy, Debug, PartialEq, Eq, Structural)]
pub enum DescriptorError {
    Malformed,
}

/// Read the active file path out of a descriptor record: the path exactly
/// when the record is well formed, and `Malformed` exactly when it is not.
pub fn parse_descriptor(s: &str) -> (r: Result<String, DescriptorError>)
    ensures
        match r {
            Ok(path) => spec_parse_descriptor(s@) == Some(path@),
            Err(e) => spec_parse_descriptor(s@) is None && e == DescriptorError::Malformed,
        },
{
    let prefix = "current_lib_file: ";
    proof {
        reveal_strlit("current_lib_file: ");
    }
    let n = s.unicode_len();
    let plen = prefix.unicode_len();
    if n < plen {
        return Err(DescriptorError::Malformed);
    }
    let mut i: usize = 0;
    while i < plen
        invariant
            0 <= i <= plen,
            plen == descriptor_prefix().len(),
            plen <= n == s@.len(),
            prefix@ == descriptor_prefix(),
            forall|j: int| 0 <= j < i ==> s@[j] == descriptor_prefix()[j],
        decreases plen - i,
    {
        if s.get_char(i) != prefix.get_char(i) {
            proof {
                assert(s@.subrange(0, plen as int)[i as int] == s@[i as int]);
            }
            return Err(DescriptorError::Malformed);
        }
        i = i + 1;
    }
    proof {
        assert(s@.subrange(0, plen as int) =~= descriptor_prefix());
    }
    let rest = s.substring_char(plen, n);
    let path = String::from_str(rest);
    Ok(path)
}

} // verus!
