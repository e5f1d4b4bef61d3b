//! Hygiene of symbolic-variable names.
//!
//! Variable names are handed to the solver backend through a C interface, so
//! a name must not contain a NUL character. Everything the library derives
//! from an index is NUL-free by construction; user-supplied display names are
//! required to be.

use crate::decimal::{dec_seq, digit_char};
use vstd::prelude::*;

verus! {

/// No character of `s` is the NUL character.
pub open spec fn nul_free(s: Seq<char>) -> bool {
    forall|i: int| 0 <= i < s.len() ==> s[i] != '\0'
}

/// Decimal digits are never NUL.
pub proof fn lemma_dec_seq_nul_free(n: nat)
    ensures
        nul_free(dec_seq(n)),
    decreases n,
{
    if n < 10 {
        assert(digit_char(n as int) != '\0');
    } else {
        lemma_dec_seq_nul_free(n / 10);
        assert forall|i: int| 0 <= i < dec_seq(n).len() implies dec_seq(n)[i] != '\0' by {
            if i < dec_seq(n / 10).len() {
                assert(dec_seq(n)[i] == dec_seq(n / 10)[i]);
            } else {
                assert(dec_seq(n)[i] == digit_char((n % 10) as int));
            }
        }
    }
}

/// Concatenation preserves NUL-freedom.
pub proof fn lemma_nul_free_concat(a: Seq<char>, b: Seq<char>)
    requires
        nul_free(a),
        nul_free(b),
    ensures
        nul_free(a + b),
{
    assert forall|i: int| 0 <= i < (a + b).len() implies (a + b)[i] != '\0' by {
        if i < a.len() {
            assert((a + b)[i] == a[i]);
        } else {
            assert((a + b)[i] == b[i - a.len()]);
        }
    }
}

} // verus!
