use vstd::prelude::*;

use crate::text::{hex_digit, hex_spec};

verus! {

/// Each byte of `buf` in upper-case hexadecimal, without leading zeros.
pub fn format_to_hex(buf: &[u8]) -> (r: Vec<String>)
    ensures
        r@.len() == buf@.len(),
        forall|i: int| 0 <= i < buf@.len() ==> #[trigger] r@[i]@ == hex_spec(buf@[i]),
{
    let mut r: Vec<String> = Vec::new();
    let mut i: usize = 0;
    while i < buf.len()
        invariant
            i <= buf@.len(),
            r@.len() == i,
            forall|j: int| 0 <= j < i ==> #[trigger] r@[j]@ == hex_spec(buf@[j]),
        decreases buf@.len() - i,
    {
        let v = buf[i];
        let mut s = String::new();
        if v >= 16 {
            s.push(hex_digit(v / 16));
        }
        s.push(hex_digit(v % 16));
        assert(s@ =~= hex_spec(v));
        r.push(s);
        i = i + 1;
    }
    r
}

} // verus!
