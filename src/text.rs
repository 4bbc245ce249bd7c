use crate::error::GymnasiumError;
use crate::message::{int_text, push_int, push_text};
use crate::random::{is_alphanumeric, Generator};
use crate::space::Space;
use vstd::prelude::*;
use vstd::slice::slice_to_vec;
use vstd::string::StringSliceAdditionalSpecFns;
use vstd::utf8::{encode_utf8, encode_utf8_valid_utf8, is_ascii_chars, is_ascii_chars_encode_utf8, valid_utf8};

verus! {

/// Whether the byte `b` encodes an ASCII letter or digit.
pub open spec fn is_alphanumeric_byte(b: u8) -> bool {
    (48 <= b <= 57) || (65 <= b <= 90) || (97 <= b <= 122)
}

/// The message of the error for a minimum length of zero.
pub open spec fn text_empty_message() -> Seq<char> {
    "The minimum length of the text space must be greater than 0"@
}

/// The message of the error for a minimum length above the maximum length.
pub open spec fn text_order_message(min_len: int, max_len: int) -> Seq<char> {
    "The minimum length of the text space cannot be greater than the maximum length (min_len: "@
        + int_text(min_len) + ", max_len: "@ + int_text(max_len) + ")"@
}

/// Relies on std's `str::from_utf8`: it succeeds exactly on well-formed
/// UTF-8.
#[verifier::external_body]
fn is_valid_utf8(bytes: &[u8]) -> (r: bool)
    ensures
        r == valid_utf8(bytes@),
{
    std::str::from_utf8(bytes).is_ok()
}

/// Text of ASCII letters and digits whose length in bytes lies in
/// `[min_len, max_len]`.
#[derive(Clone, Debug)]
pub struct TextSpace {
    rng: Generator,
    min_len: usize,
    max_len: usize,
}

impl TextSpace {
    /// The least length of a legal text.
    pub closed spec fn spec_min_len(&self) -> nat {
        self.min_len as nat
    }

    /// The greatest length of a legal text.
    pub closed spec fn spec_max_len(&self) -> nat {
        self.max_len as nat
    }

    /// The seed the space's generator was last seeded with, if any.
    pub closed spec fn spec_seed(&self) -> Option<u64> {
        self.rng.spec_seeded_with()
    }

    /// Builds the space of texts of `min_len` to `max_len` bytes, drawing
    /// samples from a generator seeded with `seed` (or from entropy when
    /// `None`). Fails with `InvalidSpace` when `min_len` is zero, and
    /// otherwise when it exceeds `max_len`, naming both lengths.
    pub fn new(min_len: usize, max_len: usize, seed: Option<u64>) -> (r: Result<Self, GymnasiumError>)
        ensures
            r is Ok <==> 1 <= min_len <= max_len,
            r matches Ok(s) ==> s.wf() && s.spec_min_len() == min_len && s.spec_max_len() == max_len
                && s.spec_seed() == seed,
            min_len == 0 ==> (r matches Err(GymnasiumError::InvalidSpace(m)) && m@ == text_empty_message()),
            1 <= min_len && min_len > max_len ==> (r matches Err(GymnasiumError::InvalidSpace(m)) && m@
                == text_order_message(min_len as int, max_len as int)),
    {
        if min_len == 0 {
            let m = "The minimum length of the text space must be greater than 0".to_owned();
            return Err(GymnasiumError::InvalidSpace(m));
        }
        if min_len > max_len {
            let mut m =
                "The minimum length of the text space cannot be greater than the maximum length (min_len: ".to_owned();
            push_int(&mut m, min_len as i128);
            push_text(&mut m, ", max_len: ");
            push_int(&mut m, max_len as i128);
            push_text(&mut m, ")");
            return Err(GymnasiumError::InvalidSpace(m));
        }
        Ok(TextSpace { rng: Generator::new(seed), min_len, max_len })
    }

    /// Whether the length of `value` in bytes lies in `[min_len, max_len]`.
    pub fn contains_str(&self, value: &str) -> (r: bool)
        ensures
            r == (self.spec_min_len() <= value.spec_bytes().len() <= self.spec_max_len()),
    {
        let len = value.as_bytes().len();
        len >= self.min_len && len <= self.max_len
    }

    /// Draws a length uniformly from `[min_len, max_len]`, then that many
    /// ASCII letters and digits.
    pub fn sample_string(&mut self) -> (r: String)
        requires
            old(self).wf(),
        ensures
            final(self).wf(),
            final(self).spec_min_len() == old(self).spec_min_len(),
            final(self).spec_max_len() == old(self).spec_max_len(),
            final(self).spec_seed() == old(self).spec_seed(),
            old(self).spec_min_len() <= r@.len() <= old(self).spec_max_len(),
            forall|i: int| 0 <= i < r@.len() ==> is_alphanumeric(#[trigger] r@[i]),
            encode_utf8(r@).len() == r@.len(),
    {
        let len = self.rng.draw_inclusive(self.min_len as i128, self.max_len as i128);
        let s = self.rng.draw_alphanumeric(len as usize);
        proof {
            assert(is_ascii_chars(s@));
            is_ascii_chars_encode_utf8(s@);
        }
        s
    }

    /// The least length of a legal text.
    pub fn min_len(&self) -> (r: usize)
        ensures
            r == self.spec_min_len(),
    {
        self.min_len
    }

    /// The greatest length of a legal text.
    pub fn max_len(&self) -> (r: usize)
        ensures
            r == self.spec_max_len(),
    {
        self.max_len
    }

    /// Replaces the random generator by one seeded with `seed`; the length
    /// bounds stay as they were.
    pub fn seed(&mut self, seed: u64)
        requires
            old(self).wf(),
        ensures
            final(self).wf(),
            final(self).spec_min_len() == old(self).spec_min_len(),
            final(self).spec_max_len() == old(self).spec_max_len(),
            final(self).spec_seed() == Some(seed),
    {
        self.rng = Generator::new(Some(seed));
    }
}

impl Space for TextSpace {
    type Value = Vec<u8>;

    open spec fn wf(&self) -> bool {
        1 <= self.spec_min_len() <= self.spec_max_len()
    }

    open spec fn spec_contains(&self, value: Vec<u8>) -> bool {
        valid_utf8(value@) && self.spec_min_len() <= value@.len() <= self.spec_max_len()
    }

    open spec fn spec_sampled(&self, value: Vec<u8>) -> bool {
        &&& self.spec_contains(value)
        &&& forall|i: int| 0 <= i < value@.len() ==> is_alphanumeric_byte(#[trigger] value@[i])
    }

    fn contains(&self, value: &Vec<u8>) -> (r: bool) {
        is_valid_utf8(value.as_slice()) && value.len() >= self.min_len && value.len() <= self.max_len
    }

    fn sample(&mut self) -> (r: Vec<u8>) {
        let s = self.sample_string();
        let bytes = slice_to_vec(s.as_str().as_bytes());
        proof {
            encode_utf8_valid_utf8(s@);
            assert(is_ascii_chars(s@));
            is_ascii_chars_encode_utf8(s@);
            assert forall|i: int| 0 <= i < bytes@.len() implies is_alphanumeric_byte(#[trigger] bytes@[i]) by {
                assert(s@[i] as u8 == encode_utf8(s@)[i]);
                assert(is_alphanumeric(s@[i]));
            }
        }
        bytes
    }
}

} // verus!
