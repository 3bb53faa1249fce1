//! What holds of the links of pictures and of the records that hold them.

use super::normal_form::{escaped_from, href_record, normal_href};
use super::object_laws::{law_number16_from_bytes, number16};
use crate::bytes::{counted_text, law_counted_text, utf16};
use crate::text::{stands_at, stands_in};
use vstd::prelude::*;

verus! {

/// A link without the backslash before each `://`.
pub open spec fn unescaped(r: Seq<char>) -> Seq<char>
    decreases r.len(),
{
    if r.len() == 0 {
        r
    } else if r.len() >= 4 && r[0] == '\\' && r[1] == ':' && r[2] == '/' && r[3] == '/' {
        seq![':', '/', '/'] + unescaped(r.skip(4))
    } else {
        seq![r[0]] + unescaped(r.skip(1))
    }
}

/// Whether `://` stands at a place.
pub open spec fn mark_at(s: Seq<char>, k: int) -> bool {
    0 <= k && k + 3 <= s.len() && s[k] == ':' && s[k + 1] == '/' && s[k + 2] == '/'
}

proof fn lemma_mark(s: Seq<char>, k: nat)
    ensures
        stands_at(s, k, "://"@) == mark_at(s, k as int),
        "://"@.len() == 3,
        "\\://"@ =~= seq!['\\', ':', '/', '/'],
{
    reveal_strlit("://");
    reveal_strlit("\\://");
    if k + 3 <= s.len() {
        let piece = s.subrange(k as int, (k + 3) as int);
        assert(piece[0] == s[k as int]);
        assert(piece[1] == s[(k + 1) as int]);
        assert(piece[2] == s[(k + 2) as int]);
        assert("://"@[0] == ':' && "://"@[1] == '/' && "://"@[2] == '/');
        if mark_at(s, k as int) {
            assert(piece =~= "://"@);
        }
    }
}

/// The first three characters of the rest of a link are `://` only where they were before.
proof fn lemma_no_new_mark(s: Seq<char>, i: nat)
    ensures
        !mark_at(escaped_from(s, i), 0),
{
    lemma_mark(s, i);
    lemma_mark(s, i + 1);
    lemma_mark(s, i + 2);
    let r = escaped_from(s, i);
    if i < s.len() && !mark_at(s, i as int) && mark_at(r, 0) {
        let a = escaped_from(s, i + 1);
        assert(r[0] == s[i as int] && r[1] == a[0] && r[2] == a[1]);
        assert(i + 1 < s.len());
        assert(!mark_at(s, (i + 1) as int));
        let b = escaped_from(s, i + 2);
        assert(a[0] == s[(i + 1) as int] && a[1] == b[0]);
        assert(i + 2 < s.len());
        assert(b[0] == s[(i + 2) as int]);
        assert(false);
    }
}

proof fn lemma_escaped(s: Seq<char>, i: nat)
    requires
        i <= s.len(),
    ensures
        unescaped(escaped_from(s, i)) == s.skip(i as int),
        forall|k: int| #[trigger]
            mark_at(escaped_from(s, i), k) ==> k > 0 && escaped_from(s, i)[k - 1] == '\\',
    decreases s.len() - i,
{
    let r = escaped_from(s, i);
    lemma_mark(s, i);
    if i == s.len() {
        assert(s.skip(i as int) =~= Seq::empty());
    } else if mark_at(s, i as int) {
        lemma_escaped(s, i + 3);
        let after = escaped_from(s, i + 3);
        assert(r =~= seq!['\\', ':', '/', '/'] + after);
        assert(r.skip(4) =~= after);
        assert(s.skip(i as int) =~= seq![':', '/', '/'] + s.skip((i + 3) as int));
        assert forall|k: int| #[trigger] mark_at(r, k) implies k > 0 && r[k - 1] == '\\' by {
            if k >= 4 {
                assert(mark_at(after, k - 4));
                assert(after[k - 5] == r[k - 1]);
            }
        }
    } else {
        lemma_escaped(s, i + 1);
        lemma_no_new_mark(s, i);
        lemma_no_new_mark(s, i + 1);
        let after = escaped_from(s, i + 1);
        assert(r =~= seq![s[i as int]] + after);
        assert(r.skip(1) =~= after);
        assert(s.skip(i as int) =~= seq![s[i as int]] + s.skip((i + 1) as int));
        if r.len() >= 4 && r[0] == '\\' && r[1] == ':' && r[2] == '/' && r[3] == '/' {
            assert(mark_at(after, 0));
        }
        assert forall|k: int| #[trigger] mark_at(r, k) implies k > 0 && r[k - 1] == '\\' by {
            if k >= 1 {
                assert(mark_at(after, k - 1));
                assert(after[k - 2] == r[k - 1]);
            }
        }
    }
}

/// A link that has no backslash before a `://` gets one before each, and nothing else: every `://`
/// of the result has a backslash before it, and without these backslashes it is the link again. A
/// link that has such a backslash is left as it is.
pub proof fn law_link_escaped(s: Seq<char>)
    ensures
        stands_in(s, "\\://"@) ==> normal_href(s) == s,
        !stands_in(s, "\\://"@) ==> unescaped(normal_href(s)) == s && forall|k: int| #[trigger]
            mark_at(normal_href(s), k) ==> k > 0 && normal_href(s)[k - 1] == '\\',
{
    lemma_escaped(s, 0);
    assert(s.skip(0) =~= s);
}

/// The record of a link is a set of one item, which is a set of one item, the link: its numbers
/// stand at their places, and the link with its backslashes stands behind them, its length first.
pub proof fn law_link_record(s: Seq<char>, k: int)
    ensures
        ({
            let r = href_record(s);
            let link = utf16(normal_href(s));
            let n = if link.len() <= 0xffff {
                link.len()
            } else {
                0xffff
            };
            &&& r.len() == 22 + 2 * n
            &&& number16(r[0], r[1]) == 0x021b
            &&& number16(r[2], r[3]) == 1
            &&& number16(r[4], r[5]) == 0
            &&& number16(r[6], r[7]) == 0x026f
            &&& number16(r[8], r[9]) == 0x8000
            &&& number16(r[10], r[11]) == 0x026f
            &&& number16(r[12], r[13]) == 1
            &&& number16(r[14], r[15]) == 0
            &&& number16(r[16], r[17]) == 0x0265
            &&& number16(r[18], r[19]) == 1
            &&& r[20] + 0x100 * r[21] == n
            &&& 0 <= k < n ==> r[22 + 2 * k] + 0x100 * r[23 + 2 * k] == link[k]
        }),
{
    law_number16_from_bytes(0x021b);
    law_number16_from_bytes(1);
    law_number16_from_bytes(0);
    law_number16_from_bytes(0x026f);
    law_number16_from_bytes(0x8000);
    law_number16_from_bytes(0x0265);
    law_counted_text(normal_href(s), k);
    let text = counted_text(normal_href(s));
    let r = href_record(s);
    assert(r.len() == 20 + text.len());
    assert forall|j: int| 0 <= j < text.len() implies #[trigger] r[20 + j] == text[j] by {}
    assert(r[20int + 0] == text[0] && r[20int + 1] == text[1]);
    if 0 <= k && 2 * k + 3 < text.len() {
        assert(r[20 + (2 + 2 * k)] == text[2 + 2 * k]);
        assert(r[20 + (3 + 2 * k)] == text[3 + 2 * k]);
    }
}

} // verus!
