use vstd::prelude::*;

use crate::text::{dec, dec_chars, i64_chars, int_str, push_chars, push_str, string_of};

verus! {

pub struct MissingEntry {
    pub service: &'static str,
    pub id: i64,
    pub title: String,
    pub detail: String,
}

/// Footer text that admits when only the first page is shown.
pub open spec fn count_note_spec(what: Seq<char>, shown: usize, total: i64) -> Seq<char> {
    if (shown as int) < total {
        int_str(total as int) + " "@ + what + " (showing first "@ + dec(shown as nat) + ")"@
    } else {
        int_str(total as int) + " "@ + what
    }
}

pub fn count_note(what: &str, shown: usize, total: i64) -> (s: String)
    ensures
        s@ == count_note_spec(what@, shown, total),
{
    let mut out = i64_chars(total);
    push_str(&mut out, " ");
    push_str(&mut out, what);
    if (shown as u64) < 0x8000_0000_0000_0000u64 && (shown as i64) < total {
        push_str(&mut out, " (showing first ");
        let d = dec_chars(shown as u64);
        push_chars(&mut out, &d);
        push_str(&mut out, ")");
    }
    string_of(&out)
}

} // verus!
