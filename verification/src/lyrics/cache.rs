//! File names of cached lyrics.

use vstd::prelude::*;

use crate::text::push_char;

verus! {

/// A lower-case hexadecimal digit.
pub open spec fn lower_hex_digit(v: nat) -> char {
    if v < 10 {
        ((v + 48) as u8) as char
    } else {
        ((v + 87) as u8) as char
    }
}

/// The last `k` hexadecimal digits of `n`, most significant first.
pub open spec fn hex_digits(n: nat, k: nat) -> Seq<char>
    decreases k,
{
    if k == 0 {
        Seq::empty()
    } else {
        hex_digits(n / 16, (k - 1) as nat) + seq![lower_hex_digit(n % 16)]
    }
}

fn push_hex_digits(out: &mut String, n: u64, k: usize)
    ensures
        final(out)@ == old(out)@ + hex_digits(n as nat, k as nat),
    decreases k,
{
    if k == 0 {
        assert(final(out)@ =~= old(out)@ + hex_digits(n as nat, 0));
        return;
    }
    push_hex_digits(out, n / 16, k - 1);
    let d = (n % 16) as u8;
    if d < 10 {
        push_char(out, (d + 48) as char);
    } else {
        push_char(out, (d + 87) as char);
    }
    assert(final(out)@ =~= old(out)@ + hex_digits(n as nat, k as nat));
}

/// The cache file of a track whose identity hashes to `digest`: the digest as
/// sixteen lower-case hex digits, then `.json`. Hashed rather than a literal
/// `{artist} - {title}` name, because file systems forbid characters that
/// real track and artist names contain.
pub fn cache_file_name(digest: u64) -> (r: String)
    ensures
        r@ == hex_digits(digest as nat, 16) + ".json"@,
{
    let mut out = String::new();
    push_hex_digits(&mut out, digest, 16);
    out.append(".json");
    out
}

} // verus!
