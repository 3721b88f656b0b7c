//! Various [`String`] and [`str`] extensions.

use vstd::prelude::*;
use vstd::string::StringSliceAdditionalSpecFns;

verus! {

/// The ASCII-lowercased counterpart of `c`: an ASCII uppercase letter turns
/// into the matching lowercase letter, every other character stays as it is.
pub open spec fn spec_to_ascii_lower_char(c: char) -> char {
    if 'A' <= c <= 'Z' {
        (c as u8 + 32) as char
    } else {
        c
    }
}

/// `s`, with every ASCII uppercase letter lowercased.
pub open spec fn spec_to_ascii_lowercase(s: Seq<char>) -> Seq<char> {
    Seq::new(s.len(), |i: int| spec_to_ascii_lower_char(s[i]))
}

/// Whether `s` consists of ASCII characters alone, none of them an ASCII
/// uppercase letter.
pub open spec fn spec_is_ascii_lowercase(s: Seq<char>) -> bool {
    forall|i: int|
        0 <= i < s.len() ==> '\0' <= #[trigger] s[i] <= '\u{7f}' && !('A' <= s[i] <= 'Z')
}

/// Whether two string slices hold the same characters.
pub fn str_eq(a: &str, b: &str) -> (r: bool)
    ensures
        r == (a@ == b@),
{
    proof {
        broadcast use vstd::utf8::encode_utf8_decode_utf8;
    }
    let ab = a.as_bytes();
    let bb = b.as_bytes();
    let n = ab.len();
    if n != bb.len() {
        proof {
            assert(a@ != b@) by {
                if a@ == b@ {
                    assert(a.spec_bytes() == b.spec_bytes());
                }
            }
        }
        return false;
    }
    let mut i: usize = 0;
    while i < n
        invariant
            n == ab@.len() == bb@.len(),
            i <= n,
            ab@ == a.spec_bytes(),
            bb@ == b.spec_bytes(),
            forall|j: int| 0 <= j < i ==> ab@[j] == bb@[j],
        decreases n - i,
    {
        if ab[i] != bb[i] {
            proof {
                assert(a@ != b@) by {
                    if a@ == b@ {
                        assert(a.spec_bytes() == b.spec_bytes());
                    }
                }
            }
            return false;
        }
        i += 1;
    }
    proof {
        assert(a.spec_bytes() =~= b.spec_bytes());
        assert(vstd::utf8::decode_utf8(vstd::utf8::encode_utf8(a@)) == a@);
        assert(vstd::utf8::decode_utf8(vstd::utf8::encode_utf8(b@)) == b@);
    }
    true
}

/// The trait responsible for adding methods to [`str`].
pub trait StrExtensions: View<V = Seq<char>> {
    /// Works like `str::to_ascii_lowercase`, but only allocates when the
    /// original is not ASCII and lowercase already.
    fn to_ascii_lowercase_cow(&self) -> (r: String)
        ensures
            r@ == spec_to_ascii_lowercase(self@),
    ;

    /// Returns whether or not this [`str`] is already ASCII lowercase.
    fn is_ascii_lowercase(&self) -> (r: bool)
        ensures
            r == spec_is_ascii_lowercase(self@),
    ;
}

/// Relies on `str::to_ascii_lowercase` from std: ASCII uppercase letters are
/// mapped to the matching lowercase letters and every other character is
/// kept, one character at a time.
#[verifier::external_body]
fn ascii_lowercase_of(s: &str) -> (r: String)
    ensures
        r@ == spec_to_ascii_lowercase(s@),
{
    s.to_ascii_lowercase()
}

impl StrExtensions for str {
    fn to_ascii_lowercase_cow(&self) -> (r: String) {
        if StrExtensions::is_ascii_lowercase(self) {
            proof {
                assert(spec_to_ascii_lowercase(self@) =~= self@);
            }
            self.to_owned()
        } else {
            ascii_lowercase_of(self)
        }
    }

    fn is_ascii_lowercase(&self) -> (r: bool) {
        proof {
            broadcast use vstd::string::is_ascii_spec_bytes;
        }
        if !self.is_ascii() {
            return false;
        }
        let bytes = self.as_bytes();
        let n = bytes.len();
        let mut i: usize = 0;
        while i < n
            invariant
                n == bytes@.len(),
                i <= n,
                vstd::string::is_ascii(self),
                bytes@ == self.spec_bytes(),
                bytes@ =~= Seq::new(self@.len(), |j: int| self@.index(j) as u8),
                forall|j: int| 0 <= j < i ==> !(65 <= #[trigger] bytes@[j] <= 90),
            decreases n - i,
        {
            let b = bytes[i];
            if b >= 65 && b <= 90 {
                assert(self@[i as int] as u8 == b);
                assert('A' <= self@[i as int] <= 'Z');
                return false;
            }
            i += 1;
        }
        proof {
            assert forall|j: int| 0 <= j < self@.len() implies '\0' <= #[trigger] self@[j]
                <= '\u{7f}' && !('A' <= self@[j] <= 'Z') by {
                assert(bytes@[j] == self@[j] as u8);
                assert(!(65 <= bytes@[j] <= 90));
            }
        }
        true
    }
}

} // verus!
